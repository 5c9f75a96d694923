use vstd::prelude::*;
use vstd::std_specs::ops::{AddSpec, DivSpec, MulSpec, NegSpec, SubSpec};

verus! {

/// A point in three-dimensional space, generic over its numeric kind.
///
/// The operations are written once over std's operator traits. Their results
/// are stated through the operators' specifications (`add_spec`, `mul_spec`,
/// ...), and bind exactly for every kind that follows them; the floating-point
/// kinds compute the same formulas with IEEE-754 rounding.
#[derive(Clone, Copy, Debug, PartialEq, PartialOrd)]
pub struct Vector3<T> {
    /// Left (-) / right (+) axis.
    pub x: T,
    /// In (+) / out (-) axis.
    pub y: T,
    /// Up (+) / down (-) axis.
    pub z: T,
}

/// Addition of the numeric kind accepts every pair of operands, as IEEE-754
/// addition does.
pub open spec fn total_add<T: std::ops::Add<Output = T>>() -> bool {
    forall|a: T, b: T| #[trigger] a.add_req(b)
}

/// Subtraction of the numeric kind accepts every pair of operands.
pub open spec fn total_sub<T: std::ops::Sub<Output = T>>() -> bool {
    forall|a: T, b: T| #[trigger] a.sub_req(b)
}

/// Multiplication of the numeric kind accepts every pair of operands.
pub open spec fn total_mul<T: std::ops::Mul<Output = T>>() -> bool {
    forall|a: T, b: T| #[trigger] a.mul_req(b)
}

/// Division of the numeric kind accepts every pair of operands.
pub open spec fn total_div<T: std::ops::Div<Output = T>>() -> bool {
    forall|a: T, b: T| #[trigger] a.div_req(b)
}

impl<T> Vector3<T> {
    /// The vector `(x, y, z)`.
    pub fn new(x: T, y: T, z: T) -> (r: Self)
        ensures
            r.x == x,
            r.y == y,
            r.z == z,
    {
        Vector3 { x, y, z }
    }

    /// The components in order `(x, y, z)`.
    pub fn into_tuple(self) -> (r: (T, T, T))
        ensures
            r == (self.x, self.y, self.z),
    {
        (self.x, self.y, self.z)
    }

    /// The components as the sequence `[x, y, z]`.
    pub fn into_array(self) -> (r: [T; 3])
        ensures
            r@ == seq![self.x, self.y, self.z],
    {
        [self.x, self.y, self.z]
    }
}

impl<T> From<(T, T, T)> for Vector3<T> {
    fn from(t: (T, T, T)) -> (r: Self) {
        Vector3 { x: t.0, y: t.1, z: t.2 }
    }
}

impl<T> vstd::std_specs::convert::FromSpecImpl<(T, T, T)> for Vector3<T> {
    open spec fn obeys_from_spec() -> bool {
        true
    }

    open spec fn from_spec(t: (T, T, T)) -> Self {
        Vector3 { x: t.0, y: t.1, z: t.2 }
    }
}

impl<T: std::ops::Neg<Output = T>> std::ops::Neg for Vector3<T> {
    type Output = Vector3<T>;

    fn neg(self) -> (r: Self) {
        Vector3 { x: std::ops::Neg::neg(self.x), y: std::ops::Neg::neg(self.y), z: std::ops::Neg::neg(self.z) }
    }
}

impl<T: std::ops::Neg<Output = T>> vstd::std_specs::ops::NegSpecImpl for Vector3<T> {
    open spec fn obeys_neg_spec() -> bool {
        T::obeys_neg_spec()
    }

    open spec fn neg_req(self) -> bool {
        self.x.neg_req() && self.y.neg_req() && self.z.neg_req()
    }

    open spec fn neg_spec(self) -> Self {
        Vector3 { x: self.x.neg_spec(), y: self.y.neg_spec(), z: self.z.neg_spec() }
    }
}

impl<T: std::ops::Add<Output = T>> std::ops::Add for Vector3<T> {
    type Output = Vector3<T>;

    fn add(self, rhs: Self) -> (r: Self) {
        Vector3 { x: self.x + rhs.x, y: self.y + rhs.y, z: self.z + rhs.z }
    }
}

impl<T: std::ops::Add<Output = T>> vstd::std_specs::ops::AddSpecImpl for Vector3<T> {
    open spec fn obeys_add_spec() -> bool {
        T::obeys_add_spec()
    }

    open spec fn add_req(self, rhs: Self) -> bool {
        self.x.add_req(rhs.x) && self.y.add_req(rhs.y) && self.z.add_req(rhs.z)
    }

    open spec fn add_spec(self, rhs: Self) -> Self {
        Vector3 { x: self.x.add_spec(rhs.x), y: self.y.add_spec(rhs.y), z: self.z.add_spec(rhs.z) }
    }
}

impl<T: std::ops::Sub<Output = T>> std::ops::Sub for Vector3<T> {
    type Output = Vector3<T>;

    fn sub(self, rhs: Self) -> (r: Self) {
        Vector3 { x: self.x - rhs.x, y: self.y - rhs.y, z: self.z - rhs.z }
    }
}

impl<T: std::ops::Sub<Output = T>> vstd::std_specs::ops::SubSpecImpl for Vector3<T> {
    open spec fn obeys_sub_spec() -> bool {
        T::obeys_sub_spec()
    }

    open spec fn sub_req(self, rhs: Self) -> bool {
        self.x.sub_req(rhs.x) && self.y.sub_req(rhs.y) && self.z.sub_req(rhs.z)
    }

    open spec fn sub_spec(self, rhs: Self) -> Self {
        Vector3 { x: self.x.sub_spec(rhs.x), y: self.y.sub_spec(rhs.y), z: self.z.sub_spec(rhs.z) }
    }
}

impl<T: Copy + std::ops::Div<Output = T>> std::ops::Div<T> for Vector3<T> {
    type Output = Vector3<T>;

    fn div(self, rhs: T) -> (r: Self) {
        Vector3 { x: self.x / rhs, y: self.y / rhs, z: self.z / rhs }
    }
}

impl<T: Copy + std::ops::Div<Output = T>> vstd::std_specs::ops::DivSpecImpl<T> for Vector3<T> {
    open spec fn obeys_div_spec() -> bool {
        T::obeys_div_spec()
    }

    open spec fn div_req(self, rhs: T) -> bool {
        self.x.div_req(rhs) && self.y.div_req(rhs) && self.z.div_req(rhs)
    }

    open spec fn div_spec(self, rhs: T) -> Self {
        Vector3 { x: self.x.div_spec(rhs), y: self.y.div_spec(rhs), z: self.z.div_spec(rhs) }
    }
}

impl<T: std::ops::Add<Output = T> + std::ops::Sub<Output = T> + std::ops::Mul<Output = T>> Vector3<T> {
    /// `x1*x2 + y1*y2 + z1*z2`, in the operators of the numeric kind.
    pub open spec fn spec_dot(self, other: Self) -> T {
        self.x.mul_spec(other.x).add_spec(self.y.mul_spec(other.y)).add_spec(self.z.mul_spec(other.z))
    }

    /// `(y1*z2 - z1*y2, z1*x2 - x1*z2, x1*y2 - y1*x2)`, in the operators of the numeric kind.
    pub open spec fn spec_cross(self, other: Self) -> Self {
        Vector3 {
            x: self.y.mul_spec(other.z).sub_spec(self.z.mul_spec(other.y)),
            y: self.z.mul_spec(other.x).sub_spec(self.x.mul_spec(other.z)),
            z: self.x.mul_spec(other.y).sub_spec(self.y.mul_spec(other.x)),
        }
    }

    /// Every operator application of `dot(self, other)` is defined: either the
    /// kind follows its operator specifications and each step is accepted
    /// (no overflow), or its addition and multiplication accept every operand.
    pub open spec fn dot_defined(self, other: Self) -> bool {
        ||| {
            &&& T::obeys_add_spec() && T::obeys_mul_spec()
            &&& self.x.mul_req(other.x) && self.y.mul_req(other.y) && self.z.mul_req(other.z)
            &&& self.x.mul_spec(other.x).add_req(self.y.mul_spec(other.y))
            &&& self.x.mul_spec(other.x).add_spec(self.y.mul_spec(other.y)).add_req(self.z.mul_spec(other.z))
        }
        ||| total_add::<T>() && total_mul::<T>()
    }

    /// Every operator application of `cross(self, other)` is defined, in the
    /// same sense as for `dot_defined`.
    pub open spec fn cross_defined(self, other: Self) -> bool {
        ||| {
            &&& T::obeys_sub_spec() && T::obeys_mul_spec()
            &&& self.y.mul_req(other.z) && self.z.mul_req(other.y)
            &&& self.z.mul_req(other.x) && self.x.mul_req(other.z)
            &&& self.x.mul_req(other.y) && self.y.mul_req(other.x)
            &&& self.y.mul_spec(other.z).sub_req(self.z.mul_spec(other.y))
            &&& self.z.mul_spec(other.x).sub_req(self.x.mul_spec(other.z))
            &&& self.x.mul_spec(other.y).sub_req(self.y.mul_spec(other.x))
        }
        ||| total_sub::<T>() && total_mul::<T>()
    }
}

impl<T: Copy + std::ops::Add<Output = T> + std::ops::Sub<Output = T> + std::ops::Mul<Output = T>> Vector3<T> {
    /// Dot product.
    pub fn dot(&self, other: &Self) -> (r: T)
        requires
            self.dot_defined(*other),
        ensures
            T::obeys_add_spec() && T::obeys_mul_spec() ==> r == self.spec_dot(*other),
    {
        self.x * other.x + self.y * other.y + self.z * other.z
    }

    /// Squared length: the dot product of the vector with itself, without a square root.
    pub fn quick_magnitude(&self) -> (r: T)
        requires
            self.dot_defined(*self),
        ensures
            T::obeys_add_spec() && T::obeys_mul_spec() ==> r == self.spec_dot(*self),
    {
        self.x * self.x + self.y * self.y + self.z * self.z
    }

    /// Cross product, right-handed.
    pub fn cross(&self, other: &Self) -> (r: Self)
        requires
            self.cross_defined(*other),
        ensures
            T::obeys_sub_spec() && T::obeys_mul_spec() ==> r == self.spec_cross(*other),
    {
        Vector3 {
            x: self.y * other.z - self.z * other.y,
            y: self.z * other.x - self.x * other.z,
            z: self.x * other.y - self.y * other.x,
        }
    }
}

impl<T: Copy + std::ops::Add<Output = T> + std::ops::Sub<Output = T> + std::ops::Mul<Output = T> + std::ops::Div<Output = T>> Vector3<T> {
    /// Every operator application of `angle_cosine` is defined, in the same
    /// sense as for `dot_defined`.
    pub open spec fn angle_cosine_defined(self, other: Self, self_magnitude: T, other_magnitude: T) -> bool {
        ||| {
            &&& T::obeys_add_spec() && T::obeys_mul_spec() && T::obeys_div_spec()
            &&& self.dot_defined(other)
            &&& self_magnitude.mul_req(other_magnitude)
            &&& self.spec_dot(other).div_req(self_magnitude.mul_spec(other_magnitude))
        }
        ||| total_add::<T>() && total_mul::<T>() && total_div::<T>()
    }

    /// Cosine of the angle between two vectors, `dot(a, b) / (|a| * |b|)`, from
    /// the two lengths; the angle itself is the arc cosine of this value.
    pub fn angle_cosine(&self, other: &Self, self_magnitude: T, other_magnitude: T) -> (r: T)
        requires
            self.angle_cosine_defined(*other, self_magnitude, other_magnitude),
        ensures
            T::obeys_add_spec() && T::obeys_mul_spec() && T::obeys_div_spec() ==> r
                == self.spec_dot(*other).div_spec(self_magnitude.mul_spec(other_magnitude)),
    {
        self.dot(other) / (self_magnitude * other_magnitude)
    }
}

} // verus!
