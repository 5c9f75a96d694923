use vstd::prelude::*;
use vstd::std_specs::ops::{AddSpec, MulSpec, NegSpec, SubSpec};

use crate::vector3::Vector3;

verus! {

/// Addition of the numeric kind commutes.
#[verifier::opaque]
pub open spec fn add_commutes<T: std::ops::Add<Output = T>>() -> bool {
    forall|u: T, v: T| #[trigger] u.add_spec(v) == v.add_spec(u)
}

/// Addition of the numeric kind associates.
#[verifier::opaque]
pub open spec fn add_associates<T: std::ops::Add<Output = T>>() -> bool {
    forall|u: T, v: T, w: T| #[trigger] u.add_spec(v).add_spec(w) == u.add_spec(v.add_spec(w))
}

/// `zero` is neutral for addition, and each value plus its negation is `zero`.
#[verifier::opaque]
pub open spec fn add_group<T: std::ops::Add<Output = T> + std::ops::Neg<Output = T>>(zero: T) -> bool {
    &&& forall|u: T| #[trigger] u.add_spec(zero) == u
    &&& forall|u: T| #[trigger] u.add_spec(u.neg_spec()) == zero
}

/// Multiplication of the numeric kind commutes.
#[verifier::opaque]
pub open spec fn mul_commutes<T: std::ops::Mul<Output = T>>() -> bool {
    forall|u: T, v: T| #[trigger] u.mul_spec(v) == v.mul_spec(u)
}

/// Multiplication of the numeric kind associates.
#[verifier::opaque]
pub open spec fn mul_associates<T: std::ops::Mul<Output = T>>() -> bool {
    forall|u: T, v: T, w: T| #[trigger] u.mul_spec(v).mul_spec(w) == u.mul_spec(v.mul_spec(w))
}

/// Subtracting in the other order negates the difference, `p - q == -(q - p)`.
#[verifier::opaque]
pub open spec fn sub_antisymmetric<T: std::ops::Sub<Output = T> + std::ops::Neg<Output = T>>() -> bool {
    forall|u: T, v: T| #[trigger] u.sub_spec(v) == v.sub_spec(u).neg_spec()
}

/// Multiplication distributes over subtraction, and subtraction adds the negation.
#[verifier::opaque]
pub open spec fn sub_distributes<
    T: std::ops::Add<Output = T> + std::ops::Sub<Output = T> + std::ops::Mul<Output = T> + std::ops::Neg<Output = T>,
>() -> bool {
    &&& forall|u: T, v: T, w: T| #[trigger] u.mul_spec(v.sub_spec(w)) == u.mul_spec(v).sub_spec(u.mul_spec(w))
    &&& forall|u: T, v: T| #[trigger] u.sub_spec(v) == u.add_spec(v.neg_spec())
}

/// Vector addition commutes, `a + b == b + a`, for a numeric kind whose
/// addition commutes (as IEEE-754 addition does).
pub proof fn lemma_add_commutative<T: std::ops::Add<Output = T>>(a: Vector3<T>, b: Vector3<T>)
    requires
        add_commutes::<T>(),
    ensures
        a.add_spec(b) == b.add_spec(a),
{
    reveal(add_commutes);
    assert(a.x.add_spec(b.x) == b.x.add_spec(a.x));
    assert(a.y.add_spec(b.y) == b.y.add_spec(a.y));
    assert(a.z.add_spec(b.z) == b.z.add_spec(a.z));
}

/// A vector plus its negation is the origin, `a + (-a) == (0, 0, 0)`, where
/// each component plus its negation gives the kind's zero (as it does for
/// every finite IEEE-754 value).
pub proof fn lemma_add_inverse<T: std::ops::Add<Output = T> + std::ops::Neg<Output = T>>(
    a: Vector3<T>,
    zero: T,
)
    requires
        a.x.add_spec(a.x.neg_spec()) == zero,
        a.y.add_spec(a.y.neg_spec()) == zero,
        a.z.add_spec(a.z.neg_spec()) == zero,
    ensures
        a.add_spec(a.neg_spec()) == (Vector3 { x: zero, y: zero, z: zero }),
{
}

/// The dot product is symmetric, `dot(a, b) == dot(b, a)`, for a numeric kind
/// whose multiplication commutes.
pub proof fn lemma_dot_symmetric<T: std::ops::Add<Output = T> + std::ops::Sub<Output = T> + std::ops::Mul<Output = T>>(
    a: Vector3<T>,
    b: Vector3<T>,
)
    requires
        mul_commutes::<T>(),
    ensures
        a.spec_dot(b) == b.spec_dot(a),
{
    reveal(mul_commutes);
    assert(a.x.mul_spec(b.x) == b.x.mul_spec(a.x));
    assert(a.y.mul_spec(b.y) == b.y.mul_spec(a.y));
    assert(a.z.mul_spec(b.z) == b.z.mul_spec(a.z));
}

/// The cross product is anticommutative, `cross(a, b) == -cross(b, a)`, for a
/// numeric kind whose multiplication commutes and where `p - q == -(q - p)`.
pub proof fn lemma_cross_anticommutative<
    T: std::ops::Add<Output = T> + std::ops::Sub<Output = T> + std::ops::Mul<Output = T> + std::ops::Neg<Output = T>,
>(a: Vector3<T>, b: Vector3<T>)
    requires
        mul_commutes::<T>(),
        sub_antisymmetric::<T>(),
    ensures
        a.spec_cross(b) == b.spec_cross(a).neg_spec(),
{
    reveal(mul_commutes);
    reveal(sub_antisymmetric);
    assert(a.y.mul_spec(b.z) == b.z.mul_spec(a.y));
    assert(a.z.mul_spec(b.y) == b.y.mul_spec(a.z));
    assert(a.z.mul_spec(b.x) == b.x.mul_spec(a.z));
    assert(a.x.mul_spec(b.z) == b.z.mul_spec(a.x));
    assert(a.x.mul_spec(b.y) == b.y.mul_spec(a.x));
    assert(a.y.mul_spec(b.x) == b.x.mul_spec(a.y));
    assert(b.z.mul_spec(a.y).sub_spec(b.y.mul_spec(a.z)) == b.y.mul_spec(a.z).sub_spec(b.z.mul_spec(a.y)).neg_spec());
    assert(b.x.mul_spec(a.z).sub_spec(b.z.mul_spec(a.x)) == b.z.mul_spec(a.x).sub_spec(b.x.mul_spec(a.z)).neg_spec());
    assert(b.y.mul_spec(a.x).sub_spec(b.x.mul_spec(a.y)) == b.x.mul_spec(a.y).sub_spec(b.y.mul_spec(a.x)).neg_spec());
}

/// `p*(q*r) == q*(p*r)` in a numeric kind whose multiplication commutes and associates.
proof fn lemma_mul_left_commute<T: std::ops::Mul<Output = T>>(p: T, q: T, r: T)
    requires
        mul_commutes::<T>(),
        mul_associates::<T>(),
    ensures
        p.mul_spec(q.mul_spec(r)) == q.mul_spec(p.mul_spec(r)),
{
    reveal(mul_commutes);
    reveal(mul_associates);
    assert(p.mul_spec(q).mul_spec(r) == p.mul_spec(q.mul_spec(r)));
    assert(q.mul_spec(p).mul_spec(r) == q.mul_spec(p.mul_spec(r)));
    assert(p.mul_spec(q) == q.mul_spec(p));
}

/// `(p + -q) + (q + -r) == p + -r` in an abelian group.
proof fn lemma_telescope<T: std::ops::Add<Output = T> + std::ops::Neg<Output = T>>(p: T, q: T, r: T, zero: T)
    requires
        add_commutes::<T>(),
        add_associates::<T>(),
        add_group(zero),
    ensures
        p.add_spec(q.neg_spec()).add_spec(q.add_spec(r.neg_spec())) == p.add_spec(r.neg_spec()),
{
    let nq = q.neg_spec();
    let nr = r.neg_spec();
    assert(p.add_spec(nq).add_spec(q.add_spec(nr)) == p.add_spec(nq.add_spec(q.add_spec(nr)))) by {
        reveal(add_associates);
    }
    assert(nq.add_spec(q).add_spec(nr) == nq.add_spec(q.add_spec(nr))) by {
        reveal(add_associates);
    }
    assert(nq.add_spec(q) == q.add_spec(nq)) by {
        reveal(add_commutes);
    }
    assert(q.add_spec(nq) == zero) by {
        reveal(add_group);
    }
    assert(zero.add_spec(nr) == nr.add_spec(zero)) by {
        reveal(add_commutes);
    }
    assert(nr.add_spec(zero) == nr) by {
        reveal(add_group);
    }
}

/// `(p + -r) + (q + -p) + (r + -q) == zero` in an abelian group.
proof fn lemma_cyclic_differences<T: std::ops::Add<Output = T> + std::ops::Neg<Output = T>>(
    p: T,
    q: T,
    r: T,
    zero: T,
)
    requires
        add_commutes::<T>(),
        add_associates::<T>(),
        add_group(zero),
    ensures
        p.add_spec(r.neg_spec()).add_spec(q.add_spec(p.neg_spec())).add_spec(r.add_spec(q.neg_spec())) == zero,
{
    let x = p.add_spec(r.neg_spec());
    let y = q.add_spec(p.neg_spec());
    let w = r.add_spec(q.neg_spec());
    assert(x.add_spec(y) == y.add_spec(x)) by {
        reveal(add_commutes);
    }
    lemma_telescope(q, p, r, zero);
    lemma_telescope(q, r, q, zero);
    assert(q.add_spec(q.neg_spec()) == zero) by {
        reveal(add_group);
    }
}

/// The cross product is perpendicular to its first operand,
/// `dot(a, cross(a, b)) == 0`, for a numeric kind that is a commutative ring
/// with `zero`, where `p - q == p + (-q)`. Floating-point arithmetic meets
/// these laws only approximately, and the identity then holds within rounding.
pub proof fn lemma_cross_perpendicular<
    T: std::ops::Add<Output = T> + std::ops::Sub<Output = T> + std::ops::Mul<Output = T> + std::ops::Neg<Output = T>,
>(a: Vector3<T>, b: Vector3<T>, zero: T)
    requires
        add_commutes::<T>(),
        add_associates::<T>(),
        add_group(zero),
        mul_commutes::<T>(),
        mul_associates::<T>(),
        sub_distributes::<T>(),
    ensures
        a.spec_dot(a.spec_cross(b)) == zero,
{
    let c = a.spec_cross(b);
    let u1 = a.x.mul_spec(a.y.mul_spec(b.z));
    let u2 = a.y.mul_spec(a.z.mul_spec(b.x));
    let u3 = a.z.mul_spec(a.x.mul_spec(b.y));
    lemma_mul_left_commute(a.y, a.x, b.z);
    lemma_mul_left_commute(a.z, a.y, b.x);
    lemma_mul_left_commute(a.x, a.z, b.y);
    reveal(sub_distributes);
    assert(a.x.mul_spec(c.x) == u1.add_spec(u3.neg_spec()));
    assert(a.y.mul_spec(c.y) == u2.add_spec(u1.neg_spec()));
    assert(a.z.mul_spec(c.z) == u3.add_spec(u2.neg_spec()));
    lemma_cyclic_differences(u1, u2, u3, zero);
}
} // verus!
