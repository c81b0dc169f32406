#![allow(dead_code)]
use cglinalg::Matrix2x2;
use cglinalg::Matrix3x3;
use cglinalg::Matrix4x4;
use cglinalg::One;
use cglinalg::Point3;
use cglinalg::Scalar;
use cglinalg::ScalarFloat;
use cglinalg::Vector2;
use cglinalg::Vector3;
use cglinalg::Vector4;
use cglinalg::Zero;

/// A f32 scalar backing the library's scalar capability for these tests.
#[derive(Clone, Copy, Debug, PartialEq, PartialOrd)]
pub struct F32(pub f32);

impl Zero for F32 {
    fn szero() -> F32 {
        F32(0.0)
    }

    fn zero() -> F32 {
        F32(0.0)
    }

    fn is_zero(&self) -> bool {
        self.0 == 0.0
    }
}

impl One for F32 {
    fn sone() -> F32 {
        F32(1.0)
    }

    fn one() -> F32 {
        F32(1.0)
    }

    fn is_one(&self) -> bool {
        self.0 == 1.0
    }
}

impl Scalar for F32 {
    fn sadd(self, other: F32) -> F32 {
        F32(self.0 + other.0)
    }

    fn ssub(self, other: F32) -> F32 {
        F32(self.0 - other.0)
    }

    fn smul(self, other: F32) -> F32 {
        F32(self.0 * other.0)
    }

    fn sdiv(self, other: F32) -> F32 {
        F32(self.0 / other.0)
    }

    fn sneg(self) -> F32 {
        F32(-self.0)
    }

    fn law_add_zero(_: F32) {}

    fn law_add_comm(_: F32, _: F32) {}

    fn law_sub_zero(_: F32) {}

    fn law_sub_self(_: F32) {}

    fn law_mul_zero(_: F32) {}

    fn law_mul_one(_: F32) {}

    fn law_mul_comm(_: F32, _: F32) {}

    fn law_sub_add(_: F32, _: F32) {}

    fn law_add_assoc(_: F32, _: F32, _: F32) {}

    fn plus(self, other: F32) -> F32 {
        F32(self.0 + other.0)
    }

    fn minus(self, other: F32) -> F32 {
        F32(self.0 - other.0)
    }

    fn times(self, other: F32) -> F32 {
        F32(self.0 * other.0)
    }

    fn divide(self, other: F32) -> F32 {
        F32(self.0 / other.0)
    }

    fn negate(self) -> F32 {
        F32(-self.0)
    }
}

impl ScalarFloat for F32 {
    fn ssqrt(self) -> F32 {
        F32(self.0.sqrt())
    }

    fn ssin(self) -> F32 {
        F32(self.0.sin())
    }

    fn scos(self) -> F32 {
        F32(self.0.cos())
    }

    fn stan(self) -> F32 {
        F32(self.0.tan())
    }

    fn sacos(self) -> F32 {
        F32(self.0.acos())
    }

    fn spi() -> F32 {
        F32(std::f32::consts::PI)
    }

    fn sfrac_pi_180() -> F32 {
        F32(std::f32::consts::PI / 180.0)
    }

    fn sulps_eq(self, other: F32) -> bool {
        self.ulps_eq(other)
    }

    fn slt(self, other: F32) -> bool {
        self.0 < other.0
    }

    fn pi() -> F32 {
        F32(std::f32::consts::PI)
    }

    fn frac_pi_180() -> F32 {
        F32(std::f32::consts::PI / 180.0)
    }

    fn sqrt(self) -> F32 {
        F32(self.0.sqrt())
    }

    fn sin(self) -> F32 {
        F32(self.0.sin())
    }

    fn cos(self) -> F32 {
        F32(self.0.cos())
    }

    fn tan(self) -> F32 {
        F32(self.0.tan())
    }

    fn acos(self) -> F32 {
        F32(self.0.acos())
    }

    fn ulps_eq(self, other: F32) -> bool {
        let a = self.0;
        let b = other.0;
        if (a - b).abs() <= f32::EPSILON {
            return true;
        }
        if a.is_sign_negative() != b.is_sign_negative() {
            return false;
        }
        let bits_a = a.to_bits() as i64;
        let bits_b = b.to_bits() as i64;
        (bits_a - bits_b).abs() <= 4
    }

    fn lt(self, other: F32) -> bool {
        self.0 < other.0
    }
}

/// Approximate equality of two scalars: within an absolute epsilon, or
/// within a small relative distance for large values.
pub fn close32(a: F32, b: F32, epsilon: f32) -> bool {
    let d = (a.0 - b.0).abs();
    if d <= epsilon {
        return true;
    }
    let largest = a.0.abs().max(b.0.abs());
    d <= largest * f32::EPSILON * 4.0
}

/// A f64 scalar backing the library's scalar capability for these tests.
#[derive(Clone, Copy, Debug, PartialEq, PartialOrd)]
pub struct F64(pub f64);

impl Zero for F64 {
    fn szero() -> F64 {
        F64(0.0)
    }

    fn zero() -> F64 {
        F64(0.0)
    }

    fn is_zero(&self) -> bool {
        self.0 == 0.0
    }
}

impl One for F64 {
    fn sone() -> F64 {
        F64(1.0)
    }

    fn one() -> F64 {
        F64(1.0)
    }

    fn is_one(&self) -> bool {
        self.0 == 1.0
    }
}

impl Scalar for F64 {
    fn sadd(self, other: F64) -> F64 {
        F64(self.0 + other.0)
    }

    fn ssub(self, other: F64) -> F64 {
        F64(self.0 - other.0)
    }

    fn smul(self, other: F64) -> F64 {
        F64(self.0 * other.0)
    }

    fn sdiv(self, other: F64) -> F64 {
        F64(self.0 / other.0)
    }

    fn sneg(self) -> F64 {
        F64(-self.0)
    }

    fn law_add_zero(_: F64) {}

    fn law_add_comm(_: F64, _: F64) {}

    fn law_sub_zero(_: F64) {}

    fn law_sub_self(_: F64) {}

    fn law_mul_zero(_: F64) {}

    fn law_mul_one(_: F64) {}

    fn law_mul_comm(_: F64, _: F64) {}

    fn law_sub_add(_: F64, _: F64) {}

    fn law_add_assoc(_: F64, _: F64, _: F64) {}

    fn plus(self, other: F64) -> F64 {
        F64(self.0 + other.0)
    }

    fn minus(self, other: F64) -> F64 {
        F64(self.0 - other.0)
    }

    fn times(self, other: F64) -> F64 {
        F64(self.0 * other.0)
    }

    fn divide(self, other: F64) -> F64 {
        F64(self.0 / other.0)
    }

    fn negate(self) -> F64 {
        F64(-self.0)
    }
}

impl ScalarFloat for F64 {
    fn ssqrt(self) -> F64 {
        F64(self.0.sqrt())
    }

    fn ssin(self) -> F64 {
        F64(self.0.sin())
    }

    fn scos(self) -> F64 {
        F64(self.0.cos())
    }

    fn stan(self) -> F64 {
        F64(self.0.tan())
    }

    fn sacos(self) -> F64 {
        F64(self.0.acos())
    }

    fn spi() -> F64 {
        F64(std::f64::consts::PI)
    }

    fn sfrac_pi_180() -> F64 {
        F64(std::f64::consts::PI / 180.0)
    }

    fn sulps_eq(self, other: F64) -> bool {
        self.ulps_eq(other)
    }

    fn slt(self, other: F64) -> bool {
        self.0 < other.0
    }

    fn pi() -> F64 {
        F64(std::f64::consts::PI)
    }

    fn frac_pi_180() -> F64 {
        F64(std::f64::consts::PI / 180.0)
    }

    fn sqrt(self) -> F64 {
        F64(self.0.sqrt())
    }

    fn sin(self) -> F64 {
        F64(self.0.sin())
    }

    fn cos(self) -> F64 {
        F64(self.0.cos())
    }

    fn tan(self) -> F64 {
        F64(self.0.tan())
    }

    fn acos(self) -> F64 {
        F64(self.0.acos())
    }

    fn ulps_eq(self, other: F64) -> bool {
        let a = self.0;
        let b = other.0;
        if (a - b).abs() <= f64::EPSILON {
            return true;
        }
        if a.is_sign_negative() != b.is_sign_negative() {
            return false;
        }
        let bits_a = a.to_bits() as i64;
        let bits_b = b.to_bits() as i64;
        (bits_a - bits_b).abs() <= 4
    }

    fn lt(self, other: F64) -> bool {
        self.0 < other.0
    }
}

/// Approximate equality of two scalars: within an absolute epsilon, or
/// within a small relative distance for large values.
pub fn close64(a: F64, b: F64, epsilon: f64) -> bool {
    let d = (a.0 - b.0).abs();
    if d <= epsilon {
        return true;
    }
    let largest = a.0.abs().max(b.0.abs());
    d <= largest * f64::EPSILON * 4.0
}
use cglinalg::Radians;

fn sd(x: f64) -> F64 {
    F64(x)
}

fn m33(entries: [f32; 9]) -> Matrix3x3<F32> {
    Matrix3x3::new(
        F32(entries[0]), F32(entries[1]), F32(entries[2]),
        F32(entries[3]), F32(entries[4]), F32(entries[5]),
        F32(entries[6]), F32(entries[7]), F32(entries[8]),
    )
}

fn m33d(entries: [f64; 9]) -> Matrix3x3<F64> {
    Matrix3x3::new(
        F64(entries[0]), F64(entries[1]), F64(entries[2]),
        F64(entries[3]), F64(entries[4]), F64(entries[5]),
        F64(entries[6]), F64(entries[7]), F64(entries[8]),
    )
}

fn v2d(x: f64, y: f64) -> Vector2<F64> {
    Vector2::new(F64(x), F64(y))
}

fn v3d(x: f64, y: f64, z: f64) -> Vector3<F64> {
    Vector3::new(F64(x), F64(y), F64(z))
}

fn close_m33(a: &Matrix3x3<F32>, b: &Matrix3x3<F32>, eps: f32) -> bool {
    close32(a.c0r0, b.c0r0, eps) && close32(a.c0r1, b.c0r1, eps)
        && close32(a.c0r2, b.c0r2, eps) && close32(a.c1r0, b.c1r0, eps)
        && close32(a.c1r1, b.c1r1, eps) && close32(a.c1r2, b.c1r2, eps)
        && close32(a.c2r0, b.c2r0, eps) && close32(a.c2r1, b.c2r1, eps)
        && close32(a.c2r2, b.c2r2, eps)
}

fn close_m33d(a: &Matrix3x3<F64>, b: &Matrix3x3<F64>, eps: f64) -> bool {
    close64(a.c0r0, b.c0r0, eps) && close64(a.c0r1, b.c0r1, eps)
        && close64(a.c0r2, b.c0r2, eps) && close64(a.c1r0, b.c1r0, eps)
        && close64(a.c1r1, b.c1r1, eps) && close64(a.c1r2, b.c1r2, eps)
        && close64(a.c2r0, b.c2r0, eps) && close64(a.c2r1, b.c2r1, eps)
        && close64(a.c2r2, b.c2r2, eps)
}

fn close_v3d(a: &Vector3<F64>, b: &Vector3<F64>, eps: f64) -> bool {
    close64(a.x, b.x, eps) && close64(a.y, b.y, eps) && close64(a.z, b.z, eps)
}

struct TestCase {
    a_mat: Matrix3x3<F32>,
    b_mat: Matrix3x3<F32>,
    expected: Matrix3x3<F32>,
}

fn test_cases() -> Vec<TestCase> {
    vec![
        TestCase {
            a_mat: m33([80.0, 426.1, 43.393, 23.43, 23.5724, 1.27, 81.439, 12.19, 43.36]),
            b_mat: m33([36.84, 7.04217, 5.74, 427.46894, 61.89139, 96.27, 152.66, 86.333, 26.71]),
            expected: m33([
                3579.6579, 15933.496, 1856.4281, 43487.766, 184776.9752, 22802.0289,
                16410.8178, 67409.1, 7892.1646,
            ]),
        },
        TestCase {
            a_mat: Matrix3x3::identity(),
            b_mat: Matrix3x3::identity(),
            expected: Matrix3x3::identity(),
        },
        TestCase {
            a_mat: Matrix3x3::zero(),
            b_mat: Matrix3x3::zero(),
            expected: Matrix3x3::zero(),
        },
        TestCase {
            a_mat: m33([68.32, 0.0, 0.0, 0.0, 37.397, 0.0, 0.0, 0.0, 43.393]),
            b_mat: m33([57.72, 0.0, 0.0, 0.0, 9.5433127, 0.0, 0.0, 0.0, 12.19]),
            expected: m33([3943.4304, 0.0, 0.0, 0.0, 356.89127, 0.0, 0.0, 0.0, 528.96067]),
        },
    ]
}

#[test]
fn test_matrix_components1_3x3() {
    let matrix = Matrix3x3::new(1_i32, 2_i32, 3_i32, 4_i32, 5_i32, 6_i32, 7_i32, 8_i32, 9_i32);

    assert_eq!(matrix.get(0, 0), 1_i32);
    assert_eq!(matrix.get(0, 1), 2_i32);
    assert_eq!(matrix.get(0, 2), 3_i32);
    assert_eq!(matrix.get(1, 0), 4_i32);
    assert_eq!(matrix.get(1, 1), 5_i32);
    assert_eq!(matrix.get(1, 2), 6_i32);
    assert_eq!(matrix.get(2, 0), 7_i32);
    assert_eq!(matrix.get(2, 1), 8_i32);
    assert_eq!(matrix.get(2, 2), 9_i32);
}

#[test]
fn test_mat_times_identity_equals_mat_3x3() {
    test_cases().iter().for_each(|test| {
        let a_mat_times_identity = test.a_mat * Matrix3x3::identity();
        let b_mat_times_identity = test.b_mat * Matrix3x3::identity();

        assert_eq!(a_mat_times_identity, test.a_mat);
        assert_eq!(b_mat_times_identity, test.b_mat);
    })
}

#[test]
fn test_mat_times_zero_equals_zero_3x3() {
    test_cases().iter().for_each(|test| {
        let a_mat_times_zero = test.a_mat * Matrix3x3::zero();
        let b_mat_times_zero = test.b_mat * Matrix3x3::zero();

        assert_eq!(a_mat_times_zero, Matrix3x3::zero());
        assert_eq!(b_mat_times_zero, Matrix3x3::zero());
    })
}

#[test]
fn test_zero_times_mat_equals_zero_3x3() {
    test_cases().iter().for_each(|test| {
        let zero_times_a_mat = Matrix3x3::zero() * test.a_mat;
        let zero_times_b_mat = Matrix3x3::zero() * test.b_mat;

        assert_eq!(zero_times_a_mat, Matrix3x3::zero());
        assert_eq!(zero_times_b_mat, Matrix3x3::zero());
    })
}

#[test]
fn test_mat_times_identity_equals_identity_times_mat_3x3() {
    test_cases().iter().for_each(|test| {
        let a_mat_times_identity = test.a_mat * Matrix3x3::identity();
        let identity_times_a_mat = Matrix3x3::identity() * test.a_mat;

        assert_eq!(a_mat_times_identity, identity_times_a_mat);
    })
}

#[test]
fn test_mat_transpose_transpose_equals_mat_3x3() {
    test_cases().iter().for_each(|test| {
        let a_mat_tr_tr = test.a_mat.transpose().transpose();

        assert_eq!(a_mat_tr_tr, test.a_mat);
    })
}

#[test]
fn test_identity_transpose_equals_identity_3x3() {
    let identity = Matrix3x3::<F32>::identity();
    let identity_tr = identity.transpose();

    assert_eq!(identity, identity_tr);
}

#[test]
fn test_matrix_multiplication_3x3() {
    test_cases().iter().for_each(|test| {
        let result = test.a_mat * test.b_mat;

        assert!(close_m33(&result, &test.expected, 0.1));
    })
}

#[test]
fn test_construction_from_cols_3x3() {
    let c0 = Vector3::new(F32(1.0), F32(2.0), F32(3.0));
    let c1 = Vector3::new(F32(4.0), F32(5.0), F32(6.0));
    let c2 = Vector3::new(F32(7.0), F32(8.0), F32(9.0));
    let expected = m33([1.0, 2.0, 3.0, 4.0, 5.0, 6.0, 7.0, 8.0, 9.0]);
    let result = Matrix3x3::from_columns(c0, c1, c2);

    assert_eq!(result, expected);
}

#[test]
fn test_matrix_plus_zero_equals_matrix_3x3() {
    test_cases().iter().for_each(|test| {
        let a_mat_plus_zero = test.a_mat + Matrix3x3::zero();

        assert_eq!(a_mat_plus_zero, test.a_mat);
    })
}

#[test]
fn test_zero_plus_matrix_equals_matrix_3x3() {
    test_cases().iter().for_each(|test| {
        let zero_plus_a_mat = Matrix3x3::zero() + test.a_mat;

        assert_eq!(zero_plus_a_mat, test.a_mat);
    })
}

#[test]
fn test_matrix_with_zero_determinant_3x3() {
    let matrix = m33([1.0, 2.0, 3.0, 4.0, 5.0, 6.0, 4.0, 5.0, 6.0]);

    assert_eq!(matrix.determinant(), F32(0.0));
}

#[test]
fn test_lower_triangular_matrix_determinant_3x3() {
    let matrix = m33d([1.0, 0.0, 0.0, 5.0, 2.0, 0.0, 5.0, 5.0, 3.0]);

    assert_eq!(matrix.determinant(), sd(1.0 * 2.0 * 3.0));
}

#[test]
fn test_upper_triangular_matrix_determinant_3x3() {
    let matrix = m33d([1.0, 5.0, 5.0, 0.0, 2.0, 5.0, 0.0, 0.0, 3.0]);

    assert_eq!(matrix.determinant(), sd(1.0 * 2.0 * 3.0));
}

#[test]
fn test_matrix_inverse_3x3() {
    let matrix = m33d([5.0, 1.0, 1.0, 1.0, 5.0, 1.0, 1.0, 1.0, 5.0]);
    let expected = m33d([6.0, -1.0, -1.0, -1.0, 6.0, -1.0, -1.0, -1.0, 6.0]) * sd(1.0 / 28.0);
    let result = matrix.inverse().unwrap();

    assert!(close_m33d(&result, &expected, 1e-7));
}

#[test]
fn test_identity_is_invertible_3x3() {
    assert!(Matrix3x3::<F64>::identity().is_invertible());
}

#[test]
fn test_identity_inverse_is_identity_3x3() {
    let result: Matrix3x3<F64> = Matrix3x3::identity().inverse().unwrap();
    let expected: Matrix3x3<F64> = Matrix3x3::identity();

    assert_eq!(result, expected);
}

#[test]
fn test_inverse_diagonal_matrix_3x3() {
    let matrix: Matrix3x3<F64> = Matrix3x3::identity() * sd(4.0);
    let expected: Matrix3x3<F64> = Matrix3x3::identity() * sd(1.0 / 4.0);
    let result = matrix.inverse().unwrap();

    assert_eq!(result, expected);
}

#[test]
fn test_matrix_with_nonzero_determinant_is_invertible_3x3() {
    let matrix = m33([1.0, 2.0, 3.0, 0.0, 4.0, 5.0, 0.0, 0.0, 6.0]);

    assert!(matrix.is_invertible());
}

#[test]
fn test_matrix_with_zero_determinant_is_not_invertible_3x3() {
    let matrix = m33([1.0, 2.0, 3.0, 4.0, 5.0, 6.0, 4.0, 5.0, 6.0]);

    assert!(!matrix.is_invertible());
}

#[test]
fn test_noninvertible_matrix_returns_none_3x3() {
    let matrix = m33([1.0, 2.0, 3.0, 4.0, 5.0, 6.0, 4.0, 5.0, 6.0]);

    assert!(matrix.inverse().is_none());
}

#[test]
fn test_matrix_times_inverse_is_identity_3x3() {
    let matrix = m33d([80.0, 426.1, 43.393, 23.43, 23.5724, 1.27, 81.439, 12.19, 43.36]);
    let matrix_inverse = matrix.inverse().unwrap();
    let identity = Matrix3x3::identity();

    assert!(close_m33d(&(matrix * matrix_inverse), &identity, 1e-7));
}

#[test]
fn test_inverse_times_matrix_is_identity_3x3() {
    let matrix = m33d([80.0, 426.1, 43.393, 23.43, 23.5724, 1.27, 81.439, 12.19, 43.36]);
    let matrix_inverse = matrix.inverse().unwrap();
    let identity = Matrix3x3::identity();

    assert!(close_m33d(&(matrix_inverse * matrix), &identity, 1e-7));
}

#[test]
fn test_matrix_transpose_inverse_equals_matrix_inverse_transpose_3x3() {
    let matrix = m33d([80.0, 426.1, 43.393, 23.43, 23.5724, 1.27, 81.439, 12.19, 43.36]);
    let matrix_transpose_inverse = matrix.transpose().inverse().unwrap();
    let matrix_inverse_transpose = matrix.inverse().unwrap().transpose();

    assert!(close_m33d(&matrix_transpose_inverse, &matrix_inverse_transpose, 1e-7));
}

#[test]
fn test_matrix_inverse_inverse_equals_matrix_3x3() {
    let matrix = m33d([80.0, 426.1, 43.393, 23.43, 23.5724, 1.27, 81.439, 12.19, 43.36]);
    let result = matrix.inverse().unwrap().inverse().unwrap();
    let expected = matrix;

    assert!(close_m33d(&result, &expected, 1e-7));
}

#[test]
fn test_matrix_elements_should_be_column_major_order_3x3() {
    let matrix = Matrix3x3::new(1_i32, 2_i32, 3_i32, 4_i32, 5_i32, 6_i32, 7_i32, 8_i32, 9_i32);

    assert_eq!(matrix.c0r0, matrix.get(0, 0));
    assert_eq!(matrix.c0r1, matrix.get(0, 1));
    assert_eq!(matrix.c0r2, matrix.get(0, 2));
    assert_eq!(matrix.c1r0, matrix.get(1, 0));
    assert_eq!(matrix.c1r1, matrix.get(1, 1));
    assert_eq!(matrix.c1r2, matrix.get(1, 2));
    assert_eq!(matrix.c2r0, matrix.get(2, 0));
    assert_eq!(matrix.c2r1, matrix.get(2, 1));
    assert_eq!(matrix.c2r2, matrix.get(2, 2));
}

#[test]
fn test_matrix_swap_columns_3x3() {
    let mut result = Matrix3x3::new(1_i32, 2_i32, 3_i32, 4_i32, 5_i32, 6_i32, 7_i32, 8_i32, 9_i32);
    result.swap_columns(0, 1);
    let expected = Matrix3x3::new(4_i32, 5_i32, 6_i32, 1_i32, 2_i32, 3_i32, 7_i32, 8_i32, 9_i32);

    assert_eq!(result, expected);
}

#[test]
fn test_matrix_swap_rows_3x3() {
    let mut result = Matrix3x3::new(1_i32, 2_i32, 3_i32, 4_i32, 5_i32, 6_i32, 7_i32, 8_i32, 9_i32);
    result.swap_rows(0, 1);
    let expected = Matrix3x3::new(2_i32, 1_i32, 3_i32, 5_i32, 4_i32, 6_i32, 8_i32, 7_i32, 9_i32);

    assert_eq!(result, expected);
}

#[test]
fn test_matrix_swap_elements_3x3() {
    let mut result = Matrix3x3::new(1_i32, 2_i32, 3_i32, 4_i32, 5_i32, 6_i32, 7_i32, 8_i32, 9_i32);
    result.swap_elements((0, 0), (1, 2));
    let expected = Matrix3x3::new(8_i32, 2_i32, 3_i32, 4_i32, 5_i32, 6_i32, 7_i32, 1_i32, 9_i32);

    assert_eq!(result, expected);
}

#[test]
fn test_from_scale_3x3() {
    let matrix = Matrix3x3::from_scale(3_i32);
    let unit_x = Vector3::unit_x();
    let unit_y = Vector3::unit_y();
    let unit_z = Vector3::unit_z();
    let expected = unit_x * 3_i32 + unit_y * 3_i32 + unit_z * 3_i32;
    let result = matrix * Vector3::new(1_i32, 1_i32, 1_i32);

    assert_eq!(result, expected);
}

#[test]
fn test_from_nonuniform_scale_3x3() {
    let matrix = Matrix3x3::from_nonuniform_scale(3_i32, 5_i32, 7_i32);
    let unit_x = Vector3::unit_x();
    let unit_y = Vector3::unit_y();
    let unit_z = Vector3::unit_z();
    let expected = unit_x * 3_i32 + unit_y * 5_i32 + unit_z * 7_i32;
    let result = matrix * Vector3::new(1_i32, 1_i32, 1_i32);

    assert_eq!(result, expected);
}

#[test]
fn test_from_affine_scale_does_not_change_last_coordinate() {
    let matrix = Matrix3x3::from_affine_scale(5_i32);
    let unit_z = Vector3::unit_z();
    let expected = unit_z;
    let result = matrix * unit_z;

    assert_eq!(result, expected);
}

#[test]
fn test_from_affine_nonuniform_scale_3x3() {
    let matrix = Matrix3x3::from_affine_nonuniform_scale(7_i32, 11_i32);
    let expected = Vector3::new(7_i32, 11_i32, 1_i32);
    let result = matrix * Vector3::new(1_i32, 1_i32, 1_i32);

    assert_eq!(result, expected);
}

#[test]
fn test_from_affine_nonuniform_scale_does_not_change_last_coordinate() {
    let matrix = Matrix3x3::from_affine_nonuniform_scale(7_i32, 11_i32);
    let unit_z = Vector3::unit_z();
    let expected = unit_z;
    let result = matrix * unit_z;

    assert_eq!(result, expected);
}

#[test]
fn test_from_shear_x_3x3() {
    let shear_x_with_y = 5_i32;
    let shear_x_with_z = 3_i32;
    let matrix = Matrix3x3::from_shear_x(shear_x_with_y, shear_x_with_z);
    let expected = Vector3::new(1_i32 + shear_x_with_y + shear_x_with_z, 1_i32, 1_i32);
    let result = matrix * Vector3::new(1_i32, 1_i32, 1_i32);

    assert_eq!(result, expected);
}

#[test]
fn test_from_shear_y_3x3() {
    let shear_y_with_x = 5_i32;
    let shear_y_with_z = 3_i32;
    let matrix = Matrix3x3::from_shear_y(shear_y_with_x, shear_y_with_z);
    let expected = Vector3::new(1_i32, 1_i32 + shear_y_with_x + shear_y_with_z, 1_i32);
    let result = matrix * Vector3::new(1_i32, 1_i32, 1_i32);

    assert_eq!(result, expected);
}

#[test]
fn test_from_shear_z() {
    let shear_z_with_x = 5_i32;
    let shear_z_with_y = 3_i32;
    let matrix = Matrix3x3::from_shear_z(shear_z_with_x, shear_z_with_y);
    let expected = Vector3::new(1_i32, 1_i32, 1_i32 + shear_z_with_x + shear_z_with_y);
    let result = matrix * Vector3::new(1_i32, 1_i32, 1_i32);

    assert_eq!(result, expected);
}

#[test]
fn test_from_affine_shear_x_3x3() {
    let shear_x_with_y = 5_i32;
    let matrix = Matrix3x3::from_affine_shear_x(shear_x_with_y);
    let expected = Vector3::new(1_i32 + shear_x_with_y, 1_i32, 1_i32);
    let result = matrix * Vector3::new(1_i32, 1_i32, 1_i32);

    assert_eq!(result, expected);
}

#[test]
fn test_from_affine_shear_x_does_not_change_last_coordinate_3x3() {
    let shear_x_with_y = 5_i32;
    let matrix = Matrix3x3::from_affine_shear_x(shear_x_with_y);
    let unit_z = Vector3::unit_z();
    let expected = unit_z;
    let result = matrix * unit_z;

    assert_eq!(result, expected);
}

#[test]
fn test_from_affine_shear_y_3x3() {
    let shear_y_with_x = 3_i32;
    let matrix = Matrix3x3::from_affine_shear_y(shear_y_with_x);
    let expected = Vector3::new(1_i32, 1_i32 + shear_y_with_x, 1_i32);
    let result = matrix * Vector3::new(1_i32, 1_i32, 1_i32);

    assert_eq!(result, expected);
}

#[test]
fn test_from_affine_shear_y_does_not_change_last_coordinate_3x3() {
    let shear_y_with_x = 3_i32;
    let matrix = Matrix3x3::from_affine_shear_y(shear_y_with_x);
    let unit_z = Vector3::unit_z();
    let expected = unit_z;
    let result = matrix * unit_z;

    assert_eq!(result, expected);
}

#[test]
fn test_from_affine_reflection_x_axis1() {
    let bias = Vector2::zero();
    let normal = v2d(0.0, 1.0);
    let expected = m33d([1.0, 0.0, 0.0, 0.0, -1.0, 0.0, 0.0, 0.0, 1.0]);
    let result = Matrix3x3::from_affine_reflection(&normal, &bias);

    assert_eq!(result, expected);
}

#[test]
fn test_from_affine_reflection_x_axis2() {
    let bias = Vector2::zero();
    let normal = v2d(0.0, -1.0);
    let expected = m33d([1.0, 0.0, 0.0, 0.0, -1.0, 0.0, 0.0, 0.0, 1.0]);
    let result = Matrix3x3::from_affine_reflection(&normal, &bias);

    assert_eq!(result, expected);
}

#[test]
fn test_from_affine_reflection_y_axis1() {
    let bias = Vector2::zero();
    let normal = v2d(1.0, 0.0);
    let expected = m33d([-1.0, 0.0, 0.0, 0.0, 1.0, 0.0, 0.0, 0.0, 1.0]);
    let result = Matrix3x3::from_affine_reflection(&normal, &bias);

    assert_eq!(result, expected);
}

#[test]
fn test_from_affine_reflection_y_axis2() {
    let bias = Vector2::zero();
    let normal = v2d(-1.0, 0.0);
    let expected = m33d([-1.0, 0.0, 0.0, 0.0, 1.0, 0.0, 0.0, 0.0, 1.0]);
    let result = Matrix3x3::from_affine_reflection(&normal, &bias);

    assert_eq!(result, expected);
}

#[test]
fn test_from_affine_reflection_from_plane1() {
    let bias = Vector2::zero();
    let normal = v2d(f64::sqrt(2.0) / 2.0, -f64::sqrt(2.0) / 2.0);
    let expected = m33d([0.0, 1.0, 0.0, 1.0, 0.0, 0.0, 0.0, 0.0, 1.0]);
    let result = Matrix3x3::from_affine_reflection(&normal, &bias);

    assert!(close_m33d(&result, &expected, 1e-8));
}

#[test]
fn test_from_affine_reflection_from_plane2() {
    let bias = Vector2::zero();
    let normal = v2d(-f64::sqrt(2.0) / 2.0, f64::sqrt(2.0) / 2.0);
    let expected = m33d([0.0, 1.0, 0.0, 1.0, 0.0, 0.0, 0.0, 0.0, 1.0]);
    let result = Matrix3x3::from_affine_reflection(&normal, &bias);

    assert!(close_m33d(&result, &expected, 1e-8));
}

#[test]
fn test_from_affine_reflection_from_line_that_does_not_cross_origin1() {
    let bias = v2d(0.0, 2.0);
    let normal = v2d(-1.0 / f64::sqrt(5.0), 2.0 / f64::sqrt(5.0));
    let matrix = Matrix3x3::from_affine_reflection(&normal, &bias);
    let vector = v3d(1.0, 0.0, 1.0);
    let expected = v3d(-1.0, 4.0, 1.0);
    let result = matrix * vector;

    assert!(close_v3d(&result, &expected, 1e-8));
}

#[test]
fn test_from_affine_reflection_from_line_that_does_not_cross_origin2() {
    let bias = v2d(0.0, 2.0);
    let normal = v2d(1.0 / f64::sqrt(5.0), -2.0 / f64::sqrt(5.0));
    let matrix = Matrix3x3::from_affine_reflection(&normal, &bias);
    let vector = v3d(1.0, 0.0, 1.0);
    let expected = v3d(-1.0, 4.0, 1.0);
    let result = matrix * vector;

    assert!(close_v3d(&result, &expected, 1e-8));
}

#[test]
fn test_from_reflection_xy_plane() {
    let normal = v3d(0.0, 0.0, 1.0);
    let expected = m33d([1.0, 0.0, 0.0, 0.0, 1.0, 0.0, 0.0, 0.0, -1.0]);
    let result = Matrix3x3::from_reflection(&normal);

    assert_eq!(result, expected);
}

#[test]
fn test_from_reflection_zx_plane() {
    let normal = v3d(0.0, -1.0, 0.0);
    let expected = m33d([1.0, 0.0, 0.0, 0.0, -1.0, 0.0, 0.0, 0.0, 1.0]);
    let result = Matrix3x3::from_reflection(&normal);

    assert_eq!(result, expected);
}

#[test]
fn test_from_reflection_yz_plane() {
    let normal = v3d(1.0, 0.0, 0.0);
    let expected = m33d([-1.0, 0.0, 0.0, 0.0, 1.0, 0.0, 0.0, 0.0, 1.0]);
    let result = Matrix3x3::from_reflection(&normal);

    assert_eq!(result, expected);
}

#[test]
fn test_from_angle_x() {
    let angle: Radians<F64> = Radians::full_turn_div_4();
    let unit_y = Vector3::unit_y();
    let unit_z = Vector3::unit_z();
    let matrix = Matrix3x3::from_angle_x(angle);
    let expected = unit_z;
    let result = matrix * unit_y;

    assert!(close_v3d(&result, &expected, 1e-8));
}

#[test]
fn test_from_angle_y() {
    let angle: Radians<F64> = Radians::full_turn_div_4();
    let unit_z = Vector3::unit_z();
    let unit_x = Vector3::unit_x();
    let matrix = Matrix3x3::from_angle_y(angle);
    let expected = unit_x;
    let result = matrix * unit_z;

    assert!(close_v3d(&result, &expected, 1e-8));
}

#[test]
fn test_from_angle_z() {
    let angle: Radians<F64> = Radians::full_turn_div_4();
    let unit_x = Vector3::unit_x();
    let unit_y = Vector3::unit_y();
    let matrix = Matrix3x3::from_angle_z(angle);
    let expected = unit_y;
    let result = matrix * unit_x;

    assert!(close_v3d(&result, &expected, 1e-8));
}

#[test]
fn test_from_axis_angle() {
    let angle: Radians<F64> = Radians::full_turn_div_2();
    let axis = v3d(1.0 / f64::sqrt(2.0), 1.0 / f64::sqrt(2.0), 0.0);
    let vector = v3d(1.0, 1.0, -1.0);
    let matrix = Matrix3x3::from_axis_angle(&axis, angle);
    let expected = v3d(1.0, 1.0, 1.0);
    let result = matrix * vector;

    assert!(close_v3d(&result, &expected, 1e-8));
}

#[test]
fn test_from_affine_angle() {
    let matrix: Matrix3x3<F64> = Matrix3x3::from_affine_angle(Radians::full_turn_div_4());
    let unit_x = Vector2::unit_x();
    let unit_y = Vector2::unit_y();
    let expected = unit_y.extend(F64(0.0));
    let result = matrix * unit_x.extend(F64(0.0));

    assert!(close_v3d(&result, &expected, 1e-8));

    let expected = (-unit_x).extend(F64(0.0));
    let result = matrix * unit_y.extend(F64(0.0));

    assert!(close_v3d(&result, &expected, 1e-8));
}

#[test]
fn test_from_affine_translation_point() {
    let distance = Vector2::new(3_i32, 7_i32);
    let matrix = Matrix3x3::from_affine_translation(&distance);
    let point = Vector3::new(0_i32, 0_i32, 1_i32);
    let expected = Vector3::new(3_i32, 7_i32, 1_i32);
    let result = matrix * point;

    assert_eq!(result, expected);
}

#[test]
fn test_from_affine_translation_vector() {
    let distance = Vector2::new(3_i32, 7_i32);
    let matrix = Matrix3x3::from_affine_translation(&distance);
    let vector = Vector3::zero();
    let expected = vector;
    let result = matrix * vector;

    assert_eq!(result, expected);
}

#[test]
fn test_face_towards() {
    let direction = v3d(1.0, 1.0, 1.0);
    let up = Vector3::unit_y();
    let unit_z = Vector3::unit_z();
    let look_at = Matrix3x3::face_towards(&direction, &up);
    let expected = direction.normalize();
    let result = look_at * unit_z;

    assert!(close_v3d(&result, &expected, 1e-7));
}

#[test]
fn test_look_at_rh() {
    let direction = v3d(1.0, 1.0, 1.0).normalize();
    let up = Vector3::unit_y();
    let minus_unit_z = -Vector3::unit_z();
    let look_at = Matrix3x3::look_at_rh(&direction, &up);
    let expected = minus_unit_z;
    let result = look_at * direction;

    assert!(close_v3d(&result, &expected, 1e-7));
}

#[test]
fn test_look_at_lh() {
    let direction = v3d(1.0, 1.0, 1.0).normalize();
    let up = Vector3::unit_y();
    let unit_z = Vector3::unit_z();
    let look_at = Matrix3x3::look_at_lh(&direction, &up);
    let expected = unit_z;
    let result = look_at * direction;

    assert!(close_v3d(&result, &expected, 1e-7));
}

#[test]
fn test_rotation_between_3x3() {
    let unit_x: Vector3<F64> = Vector3::unit_x();
    let unit_y: Vector3<F64> = Vector3::unit_y();
    let expected = m33d([0.0, 1.0, 0.0, -1.0, 0.0, 0.0, 0.0, 0.0, 1.0]);
    let result = Matrix3x3::rotation_between(&unit_x, &unit_y).unwrap();

    assert!(close_m33d(&result, &expected, 1e-7));
}
