pub mod coordinates;
pub mod laws;
pub mod vector3;
