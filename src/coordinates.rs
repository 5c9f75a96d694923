use vstd::prelude::*;
use vstd::std_specs::ops::MulSpec;

use crate::vector3::{total_mul, Vector3};

verus! {

/// A position given by its distance from the vertical axis, its angle around
/// that axis measured from the right axis, and its height along it.
#[derive(Clone, Copy, Debug, PartialEq, PartialOrd)]
pub struct Cylindrical<T> {
    pub radius: T,
    pub azimuth: T,
    pub height: T,
}

/// A position given by its distance from the origin, its angle in the
/// horizontal plane measured from the right axis, and its angle measured from
/// the up axis.
#[derive(Clone, Copy, Debug, PartialEq, PartialOrd)]
pub struct Spherical<T> {
    pub radius: T,
    pub azimuthal_angle: T,
    pub polar_angle: T,
}

impl<T: std::ops::Mul<Output = T>> Cylindrical<T> {
    /// `(radius*cos, radius*sin, height)`, where `(sin, cos)` are the sine and
    /// cosine of the azimuth.
    pub open spec fn spec_cartesian(self, sin_cos: (T, T)) -> Vector3<T> {
        Vector3 { x: self.radius.mul_spec(sin_cos.1), y: self.radius.mul_spec(sin_cos.0), z: self.height }
    }
}

impl<T: std::ops::Mul<Output = T>> Spherical<T> {
    /// `(r*sin(polar)*cos(az), r*sin(polar)*sin(az), r*cos(polar))`, given the
    /// sine and cosine of the azimuthal angle and of the polar angle.
    pub open spec fn spec_cartesian(self, azimuthal_sin_cos: (T, T), polar_sin_cos: (T, T)) -> Vector3<T> {
        Vector3 {
            x: self.radius.mul_spec(polar_sin_cos.0).mul_spec(azimuthal_sin_cos.1),
            y: self.radius.mul_spec(polar_sin_cos.0).mul_spec(azimuthal_sin_cos.0),
            z: self.radius.mul_spec(polar_sin_cos.1),
        }
    }

    /// Every multiplication of `spec_cartesian` is defined: either the kind
    /// follows its specification of `*` and each step is accepted, or its
    /// multiplication accepts every operand.
    pub open spec fn cartesian_defined(self, azimuthal_sin_cos: (T, T), polar_sin_cos: (T, T)) -> bool {
        ||| {
            &&& T::obeys_mul_spec()
            &&& self.radius.mul_req(polar_sin_cos.0) && self.radius.mul_req(polar_sin_cos.1)
            &&& self.radius.mul_spec(polar_sin_cos.0).mul_req(azimuthal_sin_cos.1)
            &&& self.radius.mul_spec(polar_sin_cos.0).mul_req(azimuthal_sin_cos.0)
        }
        ||| total_mul::<T>()
    }
}

impl<T: Copy + std::ops::Mul<Output = T>> Vector3<T> {
    /// The Cartesian point of a cylindrical position, from the sine and cosine
    /// of its azimuth, as one combined evaluation `(sin, cos)` gives them.
    pub fn from_cylindrical(cyl: &Cylindrical<T>, azimuth_sin_cos: (T, T)) -> (r: Self)
        requires
            cyl.radius.mul_req(azimuth_sin_cos.1),
            cyl.radius.mul_req(azimuth_sin_cos.0),
        ensures
            r.z == cyl.height,
            T::obeys_mul_spec() ==> r == cyl.spec_cartesian(azimuth_sin_cos),
    {
        let (sin, cos) = azimuth_sin_cos;
        Vector3 { x: cyl.radius * cos, y: cyl.radius * sin, z: cyl.height }
    }

    /// The Cartesian point of a spherical position (polar angle from the up
    /// axis), from the `(sin, cos)` of its azimuthal angle and of its polar angle.
    pub fn from_spherical(sph: &Spherical<T>, azimuthal_sin_cos: (T, T), polar_sin_cos: (T, T)) -> (r: Self)
        requires
            sph.cartesian_defined(azimuthal_sin_cos, polar_sin_cos),
        ensures
            T::obeys_mul_spec() ==> r == sph.spec_cartesian(azimuthal_sin_cos, polar_sin_cos),
    {
        let (sin_az, cos_az) = azimuthal_sin_cos;
        let (sin_pol, cos_pol) = polar_sin_cos;
        Vector3 {
            x: sph.radius * sin_pol * cos_az,
            y: sph.radius * sin_pol * sin_az,
            z: sph.radius * cos_pol,
        }
    }
}

} // verus!
