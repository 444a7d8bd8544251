use vstd::prelude::*;
use vstd::std_specs::ops::{MulSpec, NegSpec, SubSpec};
use crate::vec::{Sqrt, Vec};
use crate::vec3::Vec3;
use core::ops::{Add, Div, Mul, Neg, Sub};

verus! {

/// The dot product of a vector with itself is its squared length, and the
/// one is defined exactly when the other is.
pub proof fn lemma_dot_self_is_squared_length<T>(a: Vec3<T>)
    where
        T: Sqrt + Copy + Add<Output = T> + Sub<Output = T> + Mul<Output = T> + Div<Output = T>,
    ensures
        a.dot_req(a) == a.squared_length_req(),
        a.dot_spec(a) == a.squared_length_spec(),
{
}

/// The length is the square root of the squared length, and is defined
/// exactly when the squared length is.
pub proof fn lemma_length_is_root_of_squared_length<T>(a: Vec3<T>)
    where
        T: Sqrt + Copy + Add<Output = T> + Sub<Output = T> + Mul<Output = T> + Div<Output = T>,
    ensures
        a.length_req() == a.squared_length_req(),
        a.length_spec() == a.squared_length_spec().sqrt_spec(),
{
}

/// Over a scalar whose multiplication commutes and whose subtraction turns
/// into its negation when the operands are swapped, `a × b == -(b × a)`.
pub proof fn lemma_cross_anticommutative<T>(a: Vec3<T>, b: Vec3<T>)
    where
        T: Sqrt + Copy + Add<Output = T> + Sub<Output = T> + Mul<Output = T> + Div<Output = T>
            + Neg<Output = T>,
    requires
        forall|p: T, q: T| #[trigger] p.mul_spec(q) == q.mul_spec(p),
        forall|p: T, q: T| #[trigger] p.sub_spec(q) == q.sub_spec(p).neg_spec(),
    ensures
        a.cross_spec(b) == b.cross_spec(a).neg_spec(),
{
    let c = b.cross_spec(a);
    assert(a.1.mul_spec(b.2) == b.2.mul_spec(a.1));
    assert(a.2.mul_spec(b.1) == b.1.mul_spec(a.2));
    assert(a.2.mul_spec(b.0) == b.0.mul_spec(a.2));
    assert(a.0.mul_spec(b.2) == b.2.mul_spec(a.0));
    assert(a.0.mul_spec(b.1) == b.1.mul_spec(a.0));
    assert(a.1.mul_spec(b.0) == b.0.mul_spec(a.1));
    assert(c.0 == b.1.mul_spec(a.2).sub_spec(b.2.mul_spec(a.1)));
    assert(a.1.mul_spec(b.2).sub_spec(a.2.mul_spec(b.1)) == c.0.neg_spec());
    assert(a.2.mul_spec(b.0).sub_spec(a.0.mul_spec(b.2)) == c.1.neg_spec());
    assert(a.0.mul_spec(b.1).sub_spec(a.1.mul_spec(b.0)) == c.2.neg_spec());
}

/// Writing `v` at position `i` and reading position `i` back gives `v`; the
/// other two components stay as they were.
pub proof fn lemma_write_then_read<S>(a: Vec3<S>, i: int, v: S)
    requires
        0 <= i < 3,
    ensures
        a.with(i, v).at(i) == v,
        forall|j: int| 0 <= j < 3 && j != i ==> #[trigger] a.with(i, v).at(j) == a.at(j),
{
}

} // verus!
