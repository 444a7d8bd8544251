use vstd::prelude::*;
use vstd::std_specs::ops::{AddSpec, DivSpec, MulSpec, NegSpec, SubSpec};
use crate::vec::{Sqrt, Vec};
use core::ops::{Add, Div, Mul, Neg, Sub};
use vstd::string::to_string_from_display_ensures;

verus! {

/// A vector of three components of one scalar type, held by value.
#[derive(Copy, Clone)]
pub struct Vec3<Scalar>(pub Scalar, pub Scalar, pub Scalar);

/// `x*x' + y*y' + z*z'`, summed from the left.
pub open spec fn sum_of_products<S: Add<Output = S> + Mul<Output = S>>(a: Vec3<S>, b: Vec3<S>) -> S {
    a.0.mul_spec(b.0).add_spec(a.1.mul_spec(b.1)).add_spec(a.2.mul_spec(b.2))
}

/// Every product and sum of `sum_of_products(a, b)` is defined, and the
/// scalar arithmetic follows its specification.
pub open spec fn sum_of_products_req<S: Add<Output = S> + Mul<Output = S>>(a: Vec3<S>, b: Vec3<S>) -> bool {
    &&& S::obeys_add_spec()
    &&& S::obeys_mul_spec()
    &&& a.0.mul_req(b.0)
    &&& a.1.mul_req(b.1)
    &&& a.2.mul_req(b.2)
    &&& a.0.mul_spec(b.0).add_req(a.1.mul_spec(b.1))
    &&& a.0.mul_spec(b.0).add_spec(a.1.mul_spec(b.1)).add_req(a.2.mul_spec(b.2))
}

/// The cross product `a × b`.
pub open spec fn cross_of<S: Sub<Output = S> + Mul<Output = S>>(a: Vec3<S>, b: Vec3<S>) -> Vec3<S> {
    Vec3(
        a.1.mul_spec(b.2).sub_spec(a.2.mul_spec(b.1)),
        a.2.mul_spec(b.0).sub_spec(a.0.mul_spec(b.2)),
        a.0.mul_spec(b.1).sub_spec(a.1.mul_spec(b.0)),
    )
}

/// Every product and difference of `cross_of(a, b)` is defined, and the
/// scalar arithmetic follows its specification.
pub open spec fn cross_req_of<S: Sub<Output = S> + Mul<Output = S>>(a: Vec3<S>, b: Vec3<S>) -> bool {
    &&& S::obeys_sub_spec()
    &&& S::obeys_mul_spec()
    &&& a.1.mul_req(b.2)
    &&& a.2.mul_req(b.1)
    &&& a.2.mul_req(b.0)
    &&& a.0.mul_req(b.2)
    &&& a.0.mul_req(b.1)
    &&& a.1.mul_req(b.0)
    &&& a.1.mul_spec(b.2).sub_req(a.2.mul_spec(b.1))
    &&& a.2.mul_spec(b.0).sub_req(a.0.mul_spec(b.2))
    &&& a.0.mul_spec(b.1).sub_req(a.1.mul_spec(b.0))
}

impl<Scalar: Copy + Sqrt> Vec3<Scalar> {
    pub fn new(x: Scalar, y: Scalar, z: Scalar) -> (r: Self)
        ensures
            r == Vec3(x, y, z),
    {
        Vec3(x, y, z)
    }

    pub fn x(&self) -> (r: Scalar)
        ensures
            r == self.0,
    {
        self.0
    }

    pub fn y(&self) -> (r: Scalar)
        ensures
            r == self.1,
    {
        self.1
    }

    pub fn z(&self) -> (r: Scalar)
        ensures
            r == self.2,
    {
        self.2
    }
}

impl<T> Vec for Vec3<T> where
    T: Sqrt + Copy + Add<Output = T> + Sub<Output = T> + Mul<Output = T> + Div<Output = T>,
 {
    type Scalar = T;

    open spec fn squared_length_req(&self) -> bool {
        sum_of_products_req(*self, *self)
    }

    open spec fn squared_length_spec(&self) -> T {
        sum_of_products(*self, *self)
    }

    open spec fn length_req(&self) -> bool {
        self.squared_length_req()
    }

    open spec fn length_spec(&self) -> T {
        self.squared_length_spec().sqrt_spec()
    }

    open spec fn normalize_req(&self) -> bool {
        let n = self.length_spec();
        &&& self.length_req()
        &&& T::obeys_div_spec()
        &&& self.0.div_req(n)
        &&& self.1.div_req(n)
        &&& self.2.div_req(n)
    }

    open spec fn normalized_spec(&self) -> Self {
        let n = self.length_spec();
        Vec3(self.0.div_spec(n), self.1.div_spec(n), self.2.div_spec(n))
    }

    open spec fn dot_req(&self, v: Self) -> bool {
        sum_of_products_req(*self, v)
    }

    open spec fn dot_spec(&self, v: Self) -> T {
        sum_of_products(*self, v)
    }

    open spec fn cross_req(&self, v: Self) -> bool {
        cross_req_of(*self, v)
    }

    open spec fn cross_spec(&self, v: Self) -> Self {
        cross_of(*self, v)
    }

    fn length(&self) -> (r: T) {
        self.squared_length().sq_root()
    }

    fn squared_length(&self) -> (r: T) {
        (self.0 * self.0) + (self.1 * self.1) + (self.2 * self.2)
    }

    fn normalize(&mut self) -> (r: &mut Self) {
        let norm = self.length();
        *self = Vec3(self.0 / norm, self.1 / norm, self.2 / norm);
        self
    }

    fn normalized(&self) -> (r: Self) {
        let norm = self.length();
        Vec3(self.0 / norm, self.1 / norm, self.2 / norm)
    }

    fn dot(&self, v: Self) -> (r: T) {
        (self.0 * v.0) + (self.1 * v.1) + (self.2 * v.2)
    }

    fn cross(&self, v: Self) -> (r: Self) {
        Vec3(
            (self.1 * v.2) - (self.2 * v.1),
            (self.2 * v.0) - (self.0 * v.2),
            (self.0 * v.1) - (self.1 * v.0),
        )
    }
}

impl<Scalar: Copy + Add<Output = Scalar>> Add for Vec3<Scalar> {
    type Output = Self;

    fn add(self, other: Self) -> (r: Self) {
        Vec3(self.0 + other.0, self.1 + other.1, self.2 + other.2)
    }
}

impl<Scalar: Copy + Add<Output = Scalar>> vstd::std_specs::ops::AddSpecImpl for Vec3<Scalar> {
    open spec fn obeys_add_spec() -> bool {
        Scalar::obeys_add_spec()
    }

    open spec fn add_req(self, rhs: Self) -> bool {
        self.0.add_req(rhs.0) && self.1.add_req(rhs.1) && self.2.add_req(rhs.2)
    }

    open spec fn add_spec(self, rhs: Self) -> Self {
        Vec3(self.0.add_spec(rhs.0), self.1.add_spec(rhs.1), self.2.add_spec(rhs.2))
    }
}


/// Reading a component by position. A position past 2 breaks `index_req`;
/// unverified callers that pass one stop at the bounds check of the lookup.
impl<Scalar: Copy> core::ops::Index<usize> for Vec3<Scalar> {
    type Output = Scalar;

    fn index(&self, i: usize) -> (r: &Scalar)
        ensures
            *r == self.at(i as int),
    {
        [&self.0, &self.1, &self.2][i]
    }
}

impl<Scalar: Copy> vstd::std_specs::core::IndexSpecImpl<usize> for Vec3<Scalar> {
    open spec fn index_req(&self, i: &usize) -> bool {
        *i < 3
    }
}


impl<Scalar: Copy + Sub<Output = Scalar>> Sub for Vec3<Scalar> {
    type Output = Self;

    fn sub(self, other: Self) -> (r: Self) {
        Vec3(self.0 - other.0, self.1 - other.1, self.2 - other.2)
    }
}

impl<Scalar: Copy + Sub<Output = Scalar>> vstd::std_specs::ops::SubSpecImpl for Vec3<Scalar> {
    open spec fn obeys_sub_spec() -> bool {
        Scalar::obeys_sub_spec()
    }

    open spec fn sub_req(self, rhs: Self) -> bool {
        self.0.sub_req(rhs.0) && self.1.sub_req(rhs.1) && self.2.sub_req(rhs.2)
    }

    open spec fn sub_spec(self, rhs: Self) -> Self {
        Vec3(self.0.sub_spec(rhs.0), self.1.sub_spec(rhs.1), self.2.sub_spec(rhs.2))
    }
}

impl<Scalar: Copy + Neg<Output = Scalar>> Neg for Vec3<Scalar> {
    type Output = Self;

    fn neg(self) -> (r: Self) {
        Vec3(self.0.neg(), self.1.neg(), self.2.neg())
    }
}

impl<Scalar: Copy + Neg<Output = Scalar>> vstd::std_specs::ops::NegSpecImpl for Vec3<Scalar> {
    open spec fn obeys_neg_spec() -> bool {
        Scalar::obeys_neg_spec()
    }

    open spec fn neg_req(self) -> bool {
        self.0.neg_req() && self.1.neg_req() && self.2.neg_req()
    }

    open spec fn neg_spec(self) -> Self {
        Vec3(self.0.neg_spec(), self.1.neg_spec(), self.2.neg_spec())
    }
}

/// Scaling by a scalar.
impl<Scalar: Copy + Mul<Output = Scalar>> Mul<Scalar> for Vec3<Scalar> {
    type Output = Self;

    fn mul(self, scalar: Scalar) -> (r: Self) {
        Vec3(self.0 * scalar, self.1 * scalar, self.2 * scalar)
    }
}

impl<Scalar: Copy + Mul<Output = Scalar>> vstd::std_specs::ops::MulSpecImpl<Scalar> for Vec3<Scalar> {
    open spec fn obeys_mul_spec() -> bool {
        Scalar::obeys_mul_spec()
    }

    open spec fn mul_req(self, rhs: Scalar) -> bool {
        self.0.mul_req(rhs) && self.1.mul_req(rhs) && self.2.mul_req(rhs)
    }

    open spec fn mul_spec(self, rhs: Scalar) -> Self {
        Vec3(self.0.mul_spec(rhs), self.1.mul_spec(rhs), self.2.mul_spec(rhs))
    }
}

/// The component-wise (Hadamard) product.
impl<Scalar: Copy + Mul<Output = Scalar>> Mul<Vec3<Scalar>> for Vec3<Scalar> {
    type Output = Self;

    fn mul(self, other: Self) -> (r: Self) {
        Vec3(self.0 * other.0, self.1 * other.1, self.2 * other.2)
    }
}

impl<Scalar: Copy + Mul<Output = Scalar>> vstd::std_specs::ops::MulSpecImpl<Vec3<Scalar>> for Vec3<Scalar> {
    open spec fn obeys_mul_spec() -> bool {
        Scalar::obeys_mul_spec()
    }

    open spec fn mul_req(self, rhs: Self) -> bool {
        self.0.mul_req(rhs.0) && self.1.mul_req(rhs.1) && self.2.mul_req(rhs.2)
    }

    open spec fn mul_spec(self, rhs: Self) -> Self {
        Vec3(self.0.mul_spec(rhs.0), self.1.mul_spec(rhs.1), self.2.mul_spec(rhs.2))
    }
}

impl<Scalar: Copy + Div<Output = Scalar>> Div<Scalar> for Vec3<Scalar> {
    type Output = Self;

    fn div(self, scalar: Scalar) -> (r: Self) {
        Vec3(self.0 / scalar, self.1 / scalar, self.2 / scalar)
    }
}

impl<Scalar: Copy + Div<Output = Scalar>> vstd::std_specs::ops::DivSpecImpl<Scalar> for Vec3<Scalar> {
    open spec fn obeys_div_spec() -> bool {
        Scalar::obeys_div_spec()
    }

    open spec fn div_req(self, rhs: Scalar) -> bool {
        self.0.div_req(rhs) && self.1.div_req(rhs) && self.2.div_req(rhs)
    }

    open spec fn div_spec(self, rhs: Scalar) -> Self {
        Vec3(self.0.div_spec(rhs), self.1.div_spec(rhs), self.2.div_spec(rhs))
    }
}

// The compound assignments are methods rather than impls of `AddAssign` and
// its kin: those traits admit no precondition, and each component operation
// has one.
impl<Scalar: Copy + Add<Output = Scalar>> Vec3<Scalar> {
    /// `self = self + other`.
    pub fn add_assign(&mut self, other: Self)
        requires
            old(self).add_req(other),
        ensures
            Scalar::obeys_add_spec() ==> *final(self) == old(self).add_spec(other),
    {
        *self = Vec3(self.0 + other.0, self.1 + other.1, self.2 + other.2);
    }
}

impl<Scalar: Copy + Sub<Output = Scalar>> Vec3<Scalar> {
    /// `self = self - other`.
    pub fn sub_assign(&mut self, other: Self)
        requires
            old(self).sub_req(other),
        ensures
            Scalar::obeys_sub_spec() ==> *final(self) == old(self).sub_spec(other),
    {
        *self = Vec3(self.0 - other.0, self.1 - other.1, self.2 - other.2);
    }
}

impl<Scalar: Copy + Mul<Output = Scalar>> Vec3<Scalar> {
    /// `self = self * scalar`.
    pub fn mul_assign(&mut self, scalar: Scalar)
        requires
            old(self).mul_req(scalar),
        ensures
            Scalar::obeys_mul_spec() ==> *final(self) == old(self).mul_spec(scalar),
    {
        *self = Vec3(self.0 * scalar, self.1 * scalar, self.2 * scalar);
    }
}

impl<Scalar: Copy + Div<Output = Scalar>> Vec3<Scalar> {
    /// `self = self / scalar`.
    pub fn div_assign(&mut self, scalar: Scalar)
        requires
            old(self).div_req(scalar),
        ensures
            Scalar::obeys_div_spec() ==> *final(self) == old(self).div_spec(scalar),
    {
        *self = Vec3(self.0 / scalar, self.1 / scalar, self.2 / scalar);
    }
}

impl<Scalar: Copy> Vec3<Scalar> {
    /// The component at position `i`, through which it may be overwritten.
    /// A position past 2 is a contract violation; unverified callers that
    /// pass one stop at a bounds check.
    pub fn index_mut(&mut self, i: usize) -> (r: &mut Scalar)
        requires
            i < 3,
        ensures
            *r == old(self).at(i as int),
            *final(self) == old(self).with(i as int, *final(r)),
    {
        let k: usize = [0usize, 1, 2][i];
        if k == 0 {
            &mut self.0
        } else if k == 1 {
            &mut self.1
        } else {
            &mut self.2
        }
    }

    /// The component at position `i`, or `None` past position 2.
    pub fn get(&self, i: usize) -> (r: Option<Scalar>)
        ensures
            r == (if i < 3 {
                Some(self.at(i as int))
            } else {
                None
            }),
    {
        if i < 3 {
            Some(self[i])
        } else {
            None
        }
    }
}

impl<Scalar> Vec3<Scalar> {
    /// The component at position `i`: `x`, `y`, `z` for 0, 1, 2.
    pub open spec fn at(self, i: int) -> Scalar
        recommends
            0 <= i < 3,
    {
        if i == 0 {
            self.0
        } else if i == 1 {
            self.1
        } else {
            self.2
        }
    }

    /// The vector with the component at position `i` replaced by `v`.
    pub open spec fn with(self, i: int, v: Scalar) -> Self
        recommends
            0 <= i < 3,
    {
        if i == 0 {
            Vec3(v, self.1, self.2)
        } else if i == 1 {
            Vec3(self.0, v, self.2)
        } else {
            Vec3(self.0, self.1, v)
        }
    }
}

/// `(x, y, z)` from the texts of the three components.
pub open spec fn parenthesized(x: Seq<char>, y: Seq<char>, z: Seq<char>) -> Seq<char> {
    seq!['('] + x + seq![',', ' '] + y + seq![',', ' '] + z + seq![')']
}

impl<Scalar: Copy + core::fmt::Display> Vec3<Scalar> {
    /// The vector as `(x, y, z)`, each component written as its scalar type
    /// displays it.
    pub fn to_string(&self) -> (r: String)
        ensures
            exists|x: String, y: String, z: String|
                #![trigger to_string_from_display_ensures::<Scalar>(&self.0, x), to_string_from_display_ensures::<Scalar>(&self.1, y), to_string_from_display_ensures::<Scalar>(&self.2, z)]
                {
                    &&& to_string_from_display_ensures::<Scalar>(&self.0, x)
                    &&& to_string_from_display_ensures::<Scalar>(&self.1, y)
                    &&& to_string_from_display_ensures::<Scalar>(&self.2, z)
                    &&& r@ == parenthesized(x@, y@, z@)
                },
    {
        let x = self.0.to_string();
        let y = self.1.to_string();
        let z = self.2.to_string();
        let mut r = String::from_str("(");
        r.append(x.as_str());
        r.append(", ");
        r.append(y.as_str());
        r.append(", ");
        r.append(z.as_str());
        r.append(")");
        proof {
            reveal_strlit("(");
            reveal_strlit(", ");
            reveal_strlit(")");
            assert(r@ =~= parenthesized(x@, y@, z@));
        }
        r
    }
}

} // verus!
