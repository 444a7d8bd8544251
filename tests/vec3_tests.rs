use std::fmt;
use std::ops::{Add, Div, Mul, Neg, Sub};
use vector_math::{Sqrt, Vec, Vec3};

#[derive(Copy, Clone, Debug, PartialEq, PartialOrd)]
struct F64(f64);

impl Add for F64 {
    type Output = F64;
    fn add(self, o: F64) -> F64 {
        F64(self.0 + o.0)
    }
}

impl Sub for F64 {
    type Output = F64;
    fn sub(self, o: F64) -> F64 {
        F64(self.0 - o.0)
    }
}

impl Mul for F64 {
    type Output = F64;
    fn mul(self, o: F64) -> F64 {
        F64(self.0 * o.0)
    }
}

impl Div for F64 {
    type Output = F64;
    fn div(self, o: F64) -> F64 {
        F64(self.0 / o.0)
    }
}

impl Neg for F64 {
    type Output = F64;
    fn neg(self) -> F64 {
        F64(-self.0)
    }
}

impl Sqrt for F64 {
    fn sqrt_spec(&self) -> F64 {
        F64(self.0.sqrt())
    }

    fn sq_root(&self) -> F64 {
        F64(self.0.sqrt())
    }
}

impl fmt::Display for F64 {
    fn fmt(&self, f: &mut fmt::Formatter<'_>) -> fmt::Result {
        fmt::Display::fmt(&self.0, f)
    }
}

#[derive(Copy, Clone, Debug, PartialEq)]
struct F32(f32);

impl Add for F32 {
    type Output = F32;
    fn add(self, o: F32) -> F32 {
        F32(self.0 + o.0)
    }
}

impl Sub for F32 {
    type Output = F32;
    fn sub(self, o: F32) -> F32 {
        F32(self.0 - o.0)
    }
}

impl Mul for F32 {
    type Output = F32;
    fn mul(self, o: F32) -> F32 {
        F32(self.0 * o.0)
    }
}

impl Div for F32 {
    type Output = F32;
    fn div(self, o: F32) -> F32 {
        F32(self.0 / o.0)
    }
}

impl Sqrt for F32 {
    fn sqrt_spec(&self) -> F32 {
        F32(self.0.sqrt())
    }

    fn sq_root(&self) -> F32 {
        F32(self.0.sqrt())
    }
}

fn v(x: f64, y: f64, z: f64) -> Vec3<F64> {
    Vec3::new(F64(x), F64(y), F64(z))
}

fn parts(a: Vec3<F64>) -> (f64, f64, f64) {
    (a.x().0, a.y().0, a.z().0)
}

fn close(a: f64, b: f64, tol: f64) -> bool {
    (a - b).abs() <= tol
}

#[test]
fn accessors_return_components() {
    let a = Vec3::new(7u64, 8, 9);
    assert_eq!(a.x(), 7);
    assert_eq!(a.y(), 8);
    assert_eq!(a.z(), 9);
}

#[test]
fn dot_with_itself_is_squared_length() {
    let a = v(1.5, -2.25, 3.0);
    assert_eq!(a.dot(a), a.squared_length());
    let b = Vec3::new(3u64, 5, 7);
    assert_eq!(b.dot(b), 83);
    assert_eq!(b.squared_length(), 83);
}

#[test]
fn dot_sums_products() {
    let a = Vec3::new(1u64, 2, 3);
    let b = Vec3::new(4u64, 5, 6);
    assert_eq!(a.dot(b), 32);
    assert_eq!(v(1.0, 0.0, 0.0).dot(v(0.0, 1.0, 0.0)), F64(0.0));
}

#[test]
fn length_is_root_of_squared_length() {
    let a = v(1.0, 2.0, 2.0);
    assert!(close(a.length().0, a.squared_length().0.sqrt(), 1e-12));
    assert_eq!(a.length(), F64(3.0));
}

#[test]
fn length_of_three_four_zero() {
    assert_eq!(v(3.0, 4.0, 0.0).length(), F64(5.0));
    assert_eq!(Vec3::new(3u64, 4, 0).length(), 5);
    assert_eq!(Vec3::new(3u32, 4, 0).length(), 5);
}

#[test]
fn integer_square_root_rounds_down() {
    assert_eq!(26u64.sq_root(), 5);
    assert_eq!(24u64.sq_root(), 4);
    assert_eq!(0u64.sq_root(), 0);
    assert_eq!(1u64.sq_root(), 1);
    assert_eq!(u64::MAX.sq_root(), 4294967295);
    assert_eq!(u32::MAX.sq_root(), 65535);
    assert_eq!(99u32.sq_root(), 9);
}

#[test]
fn cross_is_anticommutative() {
    let a = v(1.5, -2.0, 0.25);
    let b = v(-3.0, 4.5, 2.0);
    let ab = parts(a.cross(b));
    let ba = parts(-b.cross(a));
    assert!(close(ab.0, ba.0, 1e-12));
    assert!(close(ab.1, ba.1, 1e-12));
    assert!(close(ab.2, ba.2, 1e-12));
}

#[test]
fn cross_of_unit_axes() {
    assert_eq!(parts(v(1.0, 0.0, 0.0).cross(v(0.0, 1.0, 0.0))), (0.0, 0.0, 1.0));
    assert_eq!(parts(v(2.0, 3.0, 4.0).cross(v(1.0, 3.0, 5.0))), (3.0, -6.0, 3.0));
    let c = Vec3::new(2u64, 4, 6).cross(Vec3::new(1u64, 2, 3));
    assert_eq!((c.x(), c.y(), c.z()), (0, 0, 0));
}

#[test]
fn normalized_has_unit_length() {
    let a = v(3.0, -7.5, 11.25);
    assert!(close(a.normalized().length().0, 1.0, 1e-12));
    let b = Vec3::new(F32(0.5), F32(2.0), F32(-9.0));
    assert!((b.normalized().length().0 - 1.0).abs() <= 1e-6);
}

#[test]
fn normalize_in_place_matches_normalized() {
    let mut a = v(2.0, -1.0, 4.0);
    let before = parts(a);
    let expected = parts(a.normalized());
    assert_eq!(parts(a), before);
    a.normalize();
    assert_eq!(parts(a), expected);
    let mut b = Vec3::new(0u64, 4, 0);
    let n = *b.normalize();
    assert_eq!((n.x(), n.y(), n.z()), (0, 1, 0));
    assert_eq!((b.x(), b.y(), b.z()), (0, 1, 0));
}

#[test]
fn normalize_zero_vector_gives_nan() {
    let a = v(0.0, 0.0, 0.0).normalized();
    assert!(a.x().0.is_nan() && a.y().0.is_nan() && a.z().0.is_nan());
}

#[test]
fn add_example() {
    assert_eq!(parts(v(1.0, 2.0, 3.0) + v(4.0, 5.0, 6.0)), (5.0, 7.0, 9.0));
    let s = Vec3::new(1u64, 2, 3) + Vec3::new(4u64, 5, 6);
    assert_eq!((s.x(), s.y(), s.z()), (5, 7, 9));
}

#[test]
fn sub_and_neg() {
    assert_eq!(parts(v(4.0, 5.0, 6.0) - v(1.0, 2.0, 3.0)), (3.0, 3.0, 3.0));
    assert_eq!(parts(-v(1.0, -2.0, 3.0)), (-1.0, 2.0, -3.0));
}

#[test]
fn scale_and_hadamard() {
    assert_eq!(parts(v(1.0, 2.0, 3.0) * F64(2.0)), (2.0, 4.0, 6.0));
    assert_eq!(parts(v(1.0, 2.0, 3.0) * v(4.0, 5.0, 6.0)), (4.0, 10.0, 18.0));
}

#[test]
fn div_example() {
    assert_eq!(parts(v(2.0, 4.0, 6.0) / F64(2.0)), (1.0, 2.0, 3.0));
    let q = Vec3::new(2u64, 4, 6) / 2;
    assert_eq!((q.x(), q.y(), q.z()), (1, 2, 3));
}

#[test]
fn compound_assignments() {
    let mut a = v(1.0, 2.0, 3.0);
    a.add_assign(v(1.0, 1.0, 1.0));
    assert_eq!(parts(a), (2.0, 3.0, 4.0));
    a.sub_assign(v(2.0, 2.0, 2.0));
    assert_eq!(parts(a), (0.0, 1.0, 2.0));
    a.mul_assign(F64(3.0));
    assert_eq!(parts(a), (0.0, 3.0, 6.0));
    a.div_assign(F64(3.0));
    assert_eq!(parts(a), (0.0, 1.0, 2.0));
}

#[test]
fn index_write_then_read() {
    for i in 0..3usize {
        let mut a = Vec3::new(10u64, 20, 30);
        *a.index_mut(i) = 99;
        assert_eq!(a[i], 99);
        for j in 0..3usize {
            if j != i {
                assert_eq!(a[j], [10, 20, 30][j]);
            }
        }
    }
    let a = v(1.0, 2.0, 3.0);
    assert_eq!((a[0], a[1], a[2]), (F64(1.0), F64(2.0), F64(3.0)));
}

#[test]
fn index_past_end_is_rejected() {
    let a = Vec3::new(1u64, 2, 3);
    assert_eq!(a.get(2), Some(3));
    assert_eq!(a.get(3), None);
    assert_eq!(a.get(usize::MAX), None);
}

#[test]
fn format_example() {
    assert_eq!(v(1.0, 2.0, 3.0).to_string(), "(1, 2, 3)");
    assert_eq!(v(-0.5, 2.25, 3.0).to_string(), "(-0.5, 2.25, 3)");
    assert_eq!(Vec3::new(7u64, 0, 12).to_string(), "(7, 0, 12)");
}

#[test]
fn copies_are_independent() {
    let a = v(1.0, 2.0, 3.0);
    let mut b = a;
    b.normalize();
    assert_eq!(parts(a), (1.0, 2.0, 3.0));
}
