use vstd::prelude::*;

verus! {

/// A scalar type that can produce its own principal square root.
pub trait Sqrt: Sized {
    /// The value that `sq_root` returns for `self`.
    spec fn sqrt_spec(&self) -> Self;

    fn sq_root(&self) -> (r: Self)
        ensures
            r == self.sqrt_spec(),
    ;
}

/// The operations shared by vector shapes, generic over the scalar type of
/// their components.
///
/// Each operation comes with a spec function giving its result and a
/// predicate saying when the scalar arithmetic it performs is defined.
pub trait Vec: Sized {
    type Scalar;

    /// The scalar arithmetic of `squared_length` is defined on `self`.
    spec fn squared_length_req(&self) -> bool;

    /// The sum of the squares of the components.
    spec fn squared_length_spec(&self) -> Self::Scalar;

    /// The scalar arithmetic of `length` is defined on `self`.
    spec fn length_req(&self) -> bool;

    /// The square root of the squared length.
    spec fn length_spec(&self) -> Self::Scalar;

    /// The scalar arithmetic of `normalize` and `normalized` is defined on `self`.
    spec fn normalize_req(&self) -> bool;

    /// Each component divided by the length.
    spec fn normalized_spec(&self) -> Self;

    /// The scalar arithmetic of `dot` is defined on `self` and `v`.
    spec fn dot_req(&self, v: Self) -> bool;

    /// The sum of the products of corresponding components.
    spec fn dot_spec(&self, v: Self) -> Self::Scalar;

    /// The scalar arithmetic of `cross` is defined on `self` and `v`.
    spec fn cross_req(&self, v: Self) -> bool;

    /// The cross product of `self` and `v`.
    spec fn cross_spec(&self, v: Self) -> Self;

    fn length(&self) -> (r: Self::Scalar)
        requires
            self.length_req(),
        ensures
            r == self.length_spec(),
    ;

    fn squared_length(&self) -> (r: Self::Scalar)
        requires
            self.squared_length_req(),
        ensures
            r == self.squared_length_spec(),
    ;

    /// Replaces the vector by its normalized form and hands it back.
    fn normalize(&mut self) -> (r: &mut Self)
        requires
            old(self).normalize_req(),
        ensures
            *r == old(self).normalized_spec(),
            *final(self) == *final(r),
    ;

    /// The normalized form of the vector; the vector itself is left as it is.
    #[must_use]
    fn normalized(&self) -> (r: Self)
        requires
            self.normalize_req(),
        ensures
            r == self.normalized_spec(),
    ;

    fn dot(&self, v: Self) -> (r: Self::Scalar)
        requires
            self.dot_req(v),
        ensures
            r == self.dot_spec(v),
    ;

    #[must_use]
    fn cross(&self, v: Self) -> (r: Self)
        requires
            self.cross_req(v),
        ensures
            r == self.cross_spec(v),
    ;
}

/// `r` is the integer square root of `n`: the largest `r` with `r * r <= n`.
pub open spec fn is_floor_sqrt(r: nat, n: nat) -> bool {
    r * r <= n < (r + 1) * (r + 1)
}

/// The integer square root of `n`.
pub open spec fn floor_sqrt(n: nat) -> nat {
    choose|r: nat| is_floor_sqrt(r, n)
}

proof fn lemma_square_monotone(a: nat, b: nat)
    requires
        a <= b,
    ensures
        a * a <= b * b,
{
    assert(a * a <= b * b) by (nonlinear_arith)
        requires
            a <= b,
    ;
}

/// Any integer square root of `n` is the one `floor_sqrt` picks.
pub proof fn lemma_floor_sqrt_unique(r: nat, n: nat)
    requires
        is_floor_sqrt(r, n),
    ensures
        floor_sqrt(n) == r,
{
    let s = floor_sqrt(n);
    assert(is_floor_sqrt(s, n));
    if s < r {
        lemma_square_monotone(s + 1, r);
    } else if r < s {
        lemma_square_monotone(r + 1, s);
    }
}

/// Integer square root by bisection on `[0, 2^32)`.
fn floor_sqrt_u64(n: u64) -> (r: u64)
    ensures
        is_floor_sqrt(r as nat, n as nat),
{
    let mut lo: u64 = 0;
    let mut hi: u64 = 0x1_0000_0000;
    assert((hi as int) * (hi as int) == 0x1_0000_0000_0000_0000) by (nonlinear_arith)
        requires
            hi == 0x1_0000_0000u64,
    ;
    while hi - lo > 1
        invariant
            lo < hi <= 0x1_0000_0000,
            (lo as int) * (lo as int) <= n as int,
            (n as int) < (hi as int) * (hi as int),
        decreases hi - lo,
    {
        let mid: u64 = lo + (hi - lo) / 2;
        assert(lo < mid < hi);
        let q: u64 = n / mid;
        let ghost m: int = mid as int;
        let ghost nn: int = n as int;
        let ghost qq: int = q as int;
        assert(m * qq <= nn && nn < m * qq + m) by (nonlinear_arith)
            requires
                m > 0,
                qq == nn / m,
        ;
        if mid <= q {
            assert(m * m <= nn) by (nonlinear_arith)
                requires
                    m <= qq,
                    m * qq <= nn,
                    m > 0,
            ;
            lo = mid;
        } else {
            assert(nn < m * m) by (nonlinear_arith)
                requires
                    m >= qq + 1,
                    nn < m * qq + m,
                    m > 0,
            ;
            hi = mid;
        }
    }
    assert(hi == lo + 1);
    lo
}

/// The integer square root: the largest `r` with `r * r <= self`.
impl Sqrt for u64 {
    open spec fn sqrt_spec(&self) -> u64 {
        floor_sqrt(*self as nat) as u64
    }

    fn sq_root(&self) -> (r: u64) {
        let r = floor_sqrt_u64(*self);
        proof {
            lemma_floor_sqrt_unique(r as nat, *self as nat);
        }
        r
    }
}

/// The integer square root: the largest `r` with `r * r <= self`.
impl Sqrt for u32 {
    open spec fn sqrt_spec(&self) -> u32 {
        floor_sqrt(*self as nat) as u32
    }

    fn sq_root(&self) -> (r: u32) {
        let r = floor_sqrt_u64(*self as u64);
        proof {
            lemma_floor_sqrt_unique(r as nat, *self as nat);
            if r >= 0x1_0000 {
                lemma_square_monotone(0x1_0000, r as nat);
            }
        }
        r as u32
    }
}

} // verus!
