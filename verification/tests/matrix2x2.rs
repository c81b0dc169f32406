#![allow(dead_code)]
use cglinalg::Matrix2x2;
use cglinalg::Matrix3x3;
use cglinalg::Matrix4x4;
use cglinalg::One;
use cglinalg::Point3;
use cglinalg::Scalar;
use cglinalg::ScalarFloat;
use cglinalg::Vector2;
use cglinalg::Vector3;
use cglinalg::Vector4;
use cglinalg::Zero;

/// A f32 scalar backing the library's scalar capability for these tests.
#[derive(Clone, Copy, Debug, PartialEq, PartialOrd)]
pub struct F32(pub f32);

impl Zero for F32 {
    fn szero() -> F32 {
        F32(0.0)
    }

    fn zero() -> F32 {
        F32(0.0)
    }

    fn is_zero(&self) -> bool {
        self.0 == 0.0
    }
}

impl One for F32 {
    fn sone() -> F32 {
        F32(1.0)
    }

    fn one() -> F32 {
        F32(1.0)
    }

    fn is_one(&self) -> bool {
        self.0 == 1.0
    }
}

impl Scalar for F32 {
    fn sadd(self, other: F32) -> F32 {
        F32(self.0 + other.0)
    }

    fn ssub(self, other: F32) -> F32 {
        F32(self.0 - other.0)
    }

    fn smul(self, other: F32) -> F32 {
        F32(self.0 * other.0)
    }

    fn sdiv(self, other: F32) -> F32 {
        F32(self.0 / other.0)
    }

    fn sneg(self) -> F32 {
        F32(-self.0)
    }

    fn law_add_zero(_: F32) {}

    fn law_add_comm(_: F32, _: F32) {}

    fn law_sub_zero(_: F32) {}

    fn law_sub_self(_: F32) {}

    fn law_mul_zero(_: F32) {}

    fn law_mul_one(_: F32) {}

    fn law_mul_comm(_: F32, _: F32) {}

    fn law_sub_add(_: F32, _: F32) {}

    fn law_add_assoc(_: F32, _: F32, _: F32) {}

    fn plus(self, other: F32) -> F32 {
        F32(self.0 + other.0)
    }

    fn minus(self, other: F32) -> F32 {
        F32(self.0 - other.0)
    }

    fn times(self, other: F32) -> F32 {
        F32(self.0 * other.0)
    }

    fn divide(self, other: F32) -> F32 {
        F32(self.0 / other.0)
    }

    fn negate(self) -> F32 {
        F32(-self.0)
    }
}

impl ScalarFloat for F32 {
    fn ssqrt(self) -> F32 {
        F32(self.0.sqrt())
    }

    fn ssin(self) -> F32 {
        F32(self.0.sin())
    }

    fn scos(self) -> F32 {
        F32(self.0.cos())
    }

    fn stan(self) -> F32 {
        F32(self.0.tan())
    }

    fn sacos(self) -> F32 {
        F32(self.0.acos())
    }

    fn spi() -> F32 {
        F32(std::f32::consts::PI)
    }

    fn sfrac_pi_180() -> F32 {
        F32(std::f32::consts::PI / 180.0)
    }

    fn sulps_eq(self, other: F32) -> bool {
        self.ulps_eq(other)
    }

    fn slt(self, other: F32) -> bool {
        self.0 < other.0
    }

    fn pi() -> F32 {
        F32(std::f32::consts::PI)
    }

    fn frac_pi_180() -> F32 {
        F32(std::f32::consts::PI / 180.0)
    }

    fn sqrt(self) -> F32 {
        F32(self.0.sqrt())
    }

    fn sin(self) -> F32 {
        F32(self.0.sin())
    }

    fn cos(self) -> F32 {
        F32(self.0.cos())
    }

    fn tan(self) -> F32 {
        F32(self.0.tan())
    }

    fn acos(self) -> F32 {
        F32(self.0.acos())
    }

    fn ulps_eq(self, other: F32) -> bool {
        let a = self.0;
        let b = other.0;
        if (a - b).abs() <= f32::EPSILON {
            return true;
        }
        if a.is_sign_negative() != b.is_sign_negative() {
            return false;
        }
        let bits_a = a.to_bits() as i64;
        let bits_b = b.to_bits() as i64;
        (bits_a - bits_b).abs() <= 4
    }

    fn lt(self, other: F32) -> bool {
        self.0 < other.0
    }
}

/// Approximate equality of two scalars: within an absolute epsilon, or
/// within a small relative distance for large values.
pub fn close32(a: F32, b: F32, epsilon: f32) -> bool {
    let d = (a.0 - b.0).abs();
    if d <= epsilon {
        return true;
    }
    let largest = a.0.abs().max(b.0.abs());
    d <= largest * f32::EPSILON * 4.0
}

/// A f64 scalar backing the library's scalar capability for these tests.
#[derive(Clone, Copy, Debug, PartialEq, PartialOrd)]
pub struct F64(pub f64);

impl Zero for F64 {
    fn szero() -> F64 {
        F64(0.0)
    }

    fn zero() -> F64 {
        F64(0.0)
    }

    fn is_zero(&self) -> bool {
        self.0 == 0.0
    }
}

impl One for F64 {
    fn sone() -> F64 {
        F64(1.0)
    }

    fn one() -> F64 {
        F64(1.0)
    }

    fn is_one(&self) -> bool {
        self.0 == 1.0
    }
}

impl Scalar for F64 {
    fn sadd(self, other: F64) -> F64 {
        F64(self.0 + other.0)
    }

    fn ssub(self, other: F64) -> F64 {
        F64(self.0 - other.0)
    }

    fn smul(self, other: F64) -> F64 {
        F64(self.0 * other.0)
    }

    fn sdiv(self, other: F64) -> F64 {
        F64(self.0 / other.0)
    }

    fn sneg(self) -> F64 {
        F64(-self.0)
    }

    fn law_add_zero(_: F64) {}

    fn law_add_comm(_: F64, _: F64) {}

    fn law_sub_zero(_: F64) {}

    fn law_sub_self(_: F64) {}

    fn law_mul_zero(_: F64) {}

    fn law_mul_one(_: F64) {}

    fn law_mul_comm(_: F64, _: F64) {}

    fn law_sub_add(_: F64, _: F64) {}

    fn law_add_assoc(_: F64, _: F64, _: F64) {}

    fn plus(self, other: F64) -> F64 {
        F64(self.0 + other.0)
    }

    fn minus(self, other: F64) -> F64 {
        F64(self.0 - other.0)
    }

    fn times(self, other: F64) -> F64 {
        F64(self.0 * other.0)
    }

    fn divide(self, other: F64) -> F64 {
        F64(self.0 / other.0)
    }

    fn negate(self) -> F64 {
        F64(-self.0)
    }
}

impl ScalarFloat for F64 {
    fn ssqrt(self) -> F64 {
        F64(self.0.sqrt())
    }

    fn ssin(self) -> F64 {
        F64(self.0.sin())
    }

    fn scos(self) -> F64 {
        F64(self.0.cos())
    }

    fn stan(self) -> F64 {
        F64(self.0.tan())
    }

    fn sacos(self) -> F64 {
        F64(self.0.acos())
    }

    fn spi() -> F64 {
        F64(std::f64::consts::PI)
    }

    fn sfrac_pi_180() -> F64 {
        F64(std::f64::consts::PI / 180.0)
    }

    fn sulps_eq(self, other: F64) -> bool {
        self.ulps_eq(other)
    }

    fn slt(self, other: F64) -> bool {
        self.0 < other.0
    }

    fn pi() -> F64 {
        F64(std::f64::consts::PI)
    }

    fn frac_pi_180() -> F64 {
        F64(std::f64::consts::PI / 180.0)
    }

    fn sqrt(self) -> F64 {
        F64(self.0.sqrt())
    }

    fn sin(self) -> F64 {
        F64(self.0.sin())
    }

    fn cos(self) -> F64 {
        F64(self.0.cos())
    }

    fn tan(self) -> F64 {
        F64(self.0.tan())
    }

    fn acos(self) -> F64 {
        F64(self.0.acos())
    }

    fn ulps_eq(self, other: F64) -> bool {
        let a = self.0;
        let b = other.0;
        if (a - b).abs() <= f64::EPSILON {
            return true;
        }
        if a.is_sign_negative() != b.is_sign_negative() {
            return false;
        }
        let bits_a = a.to_bits() as i64;
        let bits_b = b.to_bits() as i64;
        (bits_a - bits_b).abs() <= 4
    }

    fn lt(self, other: F64) -> bool {
        self.0 < other.0
    }
}

/// Approximate equality of two scalars: within an absolute epsilon, or
/// within a small relative distance for large values.
pub fn close64(a: F64, b: F64, epsilon: f64) -> bool {
    let d = (a.0 - b.0).abs();
    if d <= epsilon {
        return true;
    }
    let largest = a.0.abs().max(b.0.abs());
    d <= largest * f64::EPSILON * 4.0
}
use cglinalg::Radians;

fn s(x: f32) -> F32 {
    F32(x)
}

fn sd(x: f64) -> F64 {
    F64(x)
}

fn m22(c0r0: f32, c0r1: f32, c1r0: f32, c1r1: f32) -> Matrix2x2<F32> {
    Matrix2x2::new(F32(c0r0), F32(c0r1), F32(c1r0), F32(c1r1))
}

fn m22d(c0r0: f64, c0r1: f64, c1r0: f64, c1r1: f64) -> Matrix2x2<F64> {
    Matrix2x2::new(F64(c0r0), F64(c0r1), F64(c1r0), F64(c1r1))
}

fn v2(x: f32, y: f32) -> Vector2<F32> {
    Vector2::new(F32(x), F32(y))
}

fn close_m22(a: &Matrix2x2<F32>, b: &Matrix2x2<F32>, eps: f32) -> bool {
    close32(a.c0r0, b.c0r0, eps) && close32(a.c0r1, b.c0r1, eps)
        && close32(a.c1r0, b.c1r0, eps) && close32(a.c1r1, b.c1r1, eps)
}

fn close_m22d(a: &Matrix2x2<F64>, b: &Matrix2x2<F64>, eps: f64) -> bool {
    close64(a.c0r0, b.c0r0, eps) && close64(a.c0r1, b.c0r1, eps)
        && close64(a.c1r0, b.c1r0, eps) && close64(a.c1r1, b.c1r1, eps)
}

fn close_v2d(a: &Vector2<F64>, b: &Vector2<F64>, eps: f64) -> bool {
    close64(a.x, b.x, eps) && close64(a.y, b.y, eps)
}

struct TestCase {
    a_mat: Matrix2x2<F32>,
    b_mat: Matrix2x2<F32>,
    expected: Matrix2x2<F32>,
}

fn test_cases() -> Vec<TestCase> {
    vec![
        TestCase {
            a_mat: m22(80.0, 23.43, 426.1, 23.5724),
            b_mat: m22(36.84, 427.46894, 7.04217, 61.891390),
            expected: m22(185091.72, 10939.63, 26935.295, 1623.9266),
        },
        TestCase {
            a_mat: Matrix2x2::identity(),
            b_mat: Matrix2x2::identity(),
            expected: Matrix2x2::identity(),
        },
        TestCase {
            a_mat: Matrix2x2::zero(),
            b_mat: Matrix2x2::zero(),
            expected: Matrix2x2::zero(),
        },
        TestCase {
            a_mat: m22(68.32, 0.0, 0.0, 37.397),
            b_mat: m22(57.72, 0.0, 0.0, 9.5433127),
            expected: m22(3943.4304, 0.0, 0.0, 356.89127),
        },
    ]
}

#[test]
fn test_matrix_components1_2x2() {
    let matrix = Matrix2x2::new(1_i32, 2_i32, 3_i32, 4_i32);

    assert_eq!(matrix.get(0, 0), 1_i32);
    assert_eq!(matrix.get(0, 1), 2_i32);
    assert_eq!(matrix.get(1, 0), 3_i32);
    assert_eq!(matrix.get(1, 1), 4_i32);
}

#[test]
fn test_matrix_components2() {
    let matrix = Matrix2x2::new(1_i32, 2_i32, 3_i32, 4_i32);

    assert_eq!(matrix.c0r0, matrix.get(0, 0));
    assert_eq!(matrix.c0r1, matrix.get(0, 1));
    assert_eq!(matrix.c1r0, matrix.get(1, 0));
    assert_eq!(matrix.c1r1, matrix.get(1, 1));
}

#[test]
fn test_mat_times_identity_equals_mat_2x2() {
    test_cases().iter().for_each(|test| {
        let a_mat_times_identity = test.a_mat * Matrix2x2::identity();
        let b_mat_times_identity = test.b_mat * Matrix2x2::identity();

        assert_eq!(a_mat_times_identity, test.a_mat);
        assert_eq!(b_mat_times_identity, test.b_mat);
    })
}

#[test]
fn test_mat_times_zero_equals_zero_2x2() {
    test_cases().iter().for_each(|test| {
        let a_mat_times_zero = test.a_mat * Matrix2x2::zero();
        let b_mat_times_zero = test.b_mat * Matrix2x2::zero();

        assert_eq!(a_mat_times_zero, Matrix2x2::zero());
        assert_eq!(b_mat_times_zero, Matrix2x2::zero());
    })
}

#[test]
fn test_zero_times_mat_equals_zero_2x2() {
    test_cases().iter().for_each(|test| {
        let zero_times_a_mat = Matrix2x2::zero() * test.a_mat;
        let zero_times_b_mat = Matrix2x2::zero() * test.b_mat;

        assert_eq!(zero_times_a_mat, Matrix2x2::zero());
        assert_eq!(zero_times_b_mat, Matrix2x2::zero());
    })
}

#[test]
fn test_mat_times_identity_equals_identity_times_mat_2x2() {
    test_cases().iter().for_each(|test| {
        let a_mat_times_identity = test.a_mat * Matrix2x2::identity();
        let identity_times_a_mat = Matrix2x2::identity() * test.a_mat;
        let b_mat_times_identity = test.b_mat * Matrix2x2::identity();
        let identity_times_b_mat = Matrix2x2::identity() * test.b_mat;

        assert_eq!(a_mat_times_identity, identity_times_a_mat);
        assert_eq!(b_mat_times_identity, identity_times_b_mat);
    })
}

#[test]
fn test_mat_transpose_transpose_equals_mat_2x2() {
    test_cases().iter().for_each(|test| {
        let a_mat_tr_tr = test.a_mat.transpose().transpose();
        let b_mat_tr_tr = test.b_mat.transpose().transpose();

        assert_eq!(a_mat_tr_tr, test.a_mat);
        assert_eq!(b_mat_tr_tr, test.b_mat);
    })
}

#[test]
fn test_identity_transpose_equals_identity_2x2() {
    let identity = Matrix2x2::<F32>::identity();
    let identity_tr = identity.transpose();

    assert_eq!(identity, identity_tr);
}

#[test]
fn test_matrix_multiplication_2x2() {
    test_cases().iter().for_each(|test| {
        let result = test.a_mat * test.b_mat;

        assert!(close_m22(&result, &test.expected, 1e-7));
    })
}

#[test]
fn test_construction_from_cols_2x2() {
    let c0 = v2(1.0, 2.0);
    let c1 = v2(3.0, 4.0);
    let expected = m22(1.0, 2.0, 3.0, 4.0);
    let result = Matrix2x2::from_columns(c0, c1);

    assert_eq!(result, expected);
}

#[test]
fn test_constant_times_identity_is_constant_along_diagonal_2x2() {
    let c = s(802.3435169);
    let identity = Matrix2x2::identity();
    let expected = m22(802.3435169, 0.0, 0.0, 802.3435169);

    assert_eq!(identity * c, expected);
}

#[test]
fn test_identity_divide_constant_is_constant_inverse_along_diagonal_2x2() {
    let c = 802.3435169_f32;
    let identity = Matrix2x2::identity();
    let expected = m22(1.0 / c, 0.0, 0.0, 1.0 / c);

    assert_eq!(identity / s(c), expected);
}

#[test]
fn test_matrix_plus_zero_equals_matrix_2x2() {
    test_cases().iter().for_each(|test| {
        let a_mat_plus_zero = test.a_mat + Matrix2x2::zero();
        let b_mat_plus_zero = test.b_mat + Matrix2x2::zero();

        assert_eq!(a_mat_plus_zero, test.a_mat);
        assert_eq!(b_mat_plus_zero, test.b_mat);
    })
}

#[test]
fn test_zero_plus_matrix_equals_matrix_2x2() {
    test_cases().iter().for_each(|test| {
        let zero_plus_a_mat = Matrix2x2::zero() + test.a_mat;
        let zero_plus_b_mat = Matrix2x2::zero() + test.b_mat;

        assert_eq!(zero_plus_a_mat, test.a_mat);
        assert_eq!(zero_plus_b_mat, test.b_mat);
    })
}

#[test]
fn test_matrix_with_zero_determinant_2x2() {
    let matrix = m22(1.0, 2.0, 4.0, 8.0);

    assert_eq!(matrix.determinant(), s(0.0));
}

#[test]
fn test_lower_triangular_matrix_determinant_2x2() {
    let matrix = m22d(2.0, 0.0, 5.0, 3.0);

    assert_eq!(matrix.determinant(), sd(2.0 * 3.0));
}

#[test]
fn test_upper_triangular_matrix_determinant_2x2() {
    let matrix = m22d(2.0, 5.0, 0.0, 3.0);

    assert_eq!(matrix.determinant(), sd(2.0 * 3.0));
}

#[test]
fn test_matrix_inverse_2x2() {
    let matrix = m22d(5.0, 1.0, 1.0, 5.0);
    let expected = m22d(5.0, -1.0, -1.0, 5.0) * sd(1.0 / 24.0);
    let result = matrix.inverse().unwrap();

    assert!(close_m22d(&result, &expected, 1e-7));
}

#[test]
fn test_identity_is_invertible_2x2() {
    assert!(Matrix2x2::<F64>::identity().is_invertible());
}

#[test]
fn test_identity_inverse_is_identity_2x2() {
    let result: Matrix2x2<F64> = Matrix2x2::identity().inverse().unwrap();
    let expected: Matrix2x2<F64> = Matrix2x2::identity();

    assert_eq!(result, expected);
}

#[test]
fn test_inverse_diagonal_matrix_2x2() {
    let matrix = m22d(2.0, 0.0, 0.0, 4.0);
    let expected = m22d(1.0 / 2.0, 0.0, 0.0, 1.0 / 4.0);
    let result = matrix.inverse().unwrap();

    assert_eq!(result, expected);
}

#[test]
fn test_matrix_with_nonzero_determinant_is_invertible_2x2() {
    let matrix = m22(1.0, 2.0, 3.0, 4.0);

    assert!(matrix.is_invertible());
}

#[test]
fn test_matrix_with_zero_determinant_is_not_invertible_2x2() {
    let matrix = m22(1.0, 2.0, 4.0, 8.0);

    assert!(!matrix.is_invertible());
}

#[test]
fn test_noninvertible_matrix_returns_none_2x2() {
    let matrix = m22(1.0, 2.0, 4.0, 8.0);

    assert!(matrix.inverse().is_none());
}

#[test]
fn test_matrix_times_inverse_is_identity_2x2() {
    let matrix = m22d(36.84, 427.46, 7.47, 61.89);
    let matrix_inverse = matrix.inverse().unwrap();
    let identity = Matrix2x2::identity();

    assert!(close_m22d(&(matrix * matrix_inverse), &identity, 1e-7));
}

#[test]
fn test_inverse_times_matrix_is_identity_2x2() {
    let matrix = m22d(36.84, 427.46, 7.47, 61.89);
    let matrix_inverse = matrix.inverse().unwrap();
    let identity = Matrix2x2::identity();

    assert!(close_m22d(&(matrix_inverse * matrix), &identity, 1e-7));
}

#[test]
fn test_matrix_transpose_inverse_equals_matrix_inverse_transpose_2x2() {
    let matrix = m22d(36.84, 427.46, 7.47, 61.89);
    let matrix_transpose_inverse = matrix.transpose().inverse().unwrap();
    let matrix_inverse_transpose = matrix.inverse().unwrap().transpose();

    assert!(close_m22d(&matrix_transpose_inverse, &matrix_inverse_transpose, 1e-7));
}

#[test]
fn test_matrix_inverse_inverse_equals_matrix_2x2() {
    let matrix = m22d(36.84, 427.46, 7.47, 61.89);
    let result = matrix.inverse().unwrap().inverse().unwrap();
    let expected = matrix;

    assert!(close_m22d(&result, &expected, 1e-7));
}

#[test]
fn test_matrix_elements_should_be_column_major_order_2x2() {
    let matrix = Matrix2x2::new(1_i32, 2_i32, 3_i32, 4_i32);

    assert_eq!(matrix.c0r0, matrix.get(0, 0));
    assert_eq!(matrix.c0r1, matrix.get(0, 1));
    assert_eq!(matrix.c1r0, matrix.get(1, 0));
    assert_eq!(matrix.c1r1, matrix.get(1, 1));
}

#[test]
fn test_matrix_swap_columns_2x2() {
    let mut result = Matrix2x2::new(1_i32, 2_i32, 3_i32, 4_i32);
    result.swap_columns(0, 1);
    let expected = Matrix2x2::new(3_i32, 4_i32, 1_i32, 2_i32);

    assert_eq!(result, expected);
}

#[test]
fn test_matrix_swap_rows_2x2() {
    let mut result = Matrix2x2::new(1_i32, 2_i32, 3_i32, 4_i32);
    result.swap_rows(0, 1);
    let expected = Matrix2x2::new(2_i32, 1_i32, 4_i32, 3_i32);

    assert_eq!(result, expected);
}

#[test]
fn test_matrix_swap_elements_2x2() {
    let mut result = Matrix2x2::new(1_i32, 2_i32, 3_i32, 4_i32);
    result.swap_elements((0, 0), (1, 1));
    let expected = Matrix2x2::new(4_i32, 2_i32, 3_i32, 1_i32);

    assert_eq!(result, expected);
}

#[test]
fn test_from_scale_2x2() {
    let matrix = Matrix2x2::from_scale(3_i32);
    let unit_x = Vector2::unit_x();
    let unit_y = Vector2::unit_y();
    let expected = unit_x * 3_i32 + unit_y * 3_i32;
    let result = matrix * Vector2::new(1_i32, 1_i32);

    assert_eq!(result, expected);
}

#[test]
fn test_from_nonuniform_scale_2x2() {
    let matrix = Matrix2x2::from_nonuniform_scale(3_i32, 7_i32);
    let unit_x = Vector2::unit_x();
    let unit_y = Vector2::unit_y();
    let expected = unit_x * 3_i32 + unit_y * 7_i32;
    let result = matrix * Vector2::new(1_i32, 1_i32);

    assert_eq!(result, expected);
}

#[test]
fn test_from_shear_x_2x2() {
    let shear_x_with_y = 5_i32;
    let matrix = Matrix2x2::from_shear_x(shear_x_with_y);
    let expected = Vector2::new(1_i32 + shear_x_with_y, 1_i32);
    let result = matrix * Vector2::new(1_i32, 1_i32);

    assert_eq!(result, expected);
}

#[test]
fn test_from_shear_y_2x2() {
    let shear_y_with_x = 5_i32;
    let matrix = Matrix2x2::from_shear_y(shear_y_with_x);
    let expected = Vector2::new(1_i32, 1_i32 + shear_y_with_x);
    let result = matrix * Vector2::new(1_i32, 1_i32);

    assert_eq!(result, expected);
}

#[test]
fn test_from_shear() {
    let shear_x_with_y = 5_i32;
    let shear_y_with_x = 7_i32;
    let matrix = Matrix2x2::from_shear(shear_x_with_y, shear_y_with_x);
    let expected = Vector2::new(1_i32 + shear_x_with_y, 1_i32 + shear_y_with_x);
    let result = matrix * Vector2::new(1_i32, 1_i32);

    assert_eq!(result, expected);
}

#[test]
fn test_from_reflection_x_axis1() {
    let normal = Vector2::new(F64(0.0), F64(1.0));
    let expected = m22d(1.0, 0.0, 0.0, -1.0);
    let result = Matrix2x2::from_reflection(&normal);

    assert_eq!(result, expected);
}

#[test]
fn test_from_reflection_x_axis2() {
    let normal = Vector2::new(F64(0.0), F64(-1.0));
    let expected = m22d(1.0, 0.0, 0.0, -1.0);
    let result = Matrix2x2::from_reflection(&normal);

    assert_eq!(result, expected);
}

#[test]
fn test_from_reflection_y_axis1() {
    let normal = Vector2::new(F64(1.0), F64(0.0));
    let expected = m22d(-1.0, 0.0, 0.0, 1.0);
    let result = Matrix2x2::from_reflection(&normal);

    assert_eq!(result, expected);
}

#[test]
fn test_from_reflection_y_axis2() {
    let normal = Vector2::new(F64(-1.0), F64(0.0));
    let expected = m22d(-1.0, 0.0, 0.0, 1.0);
    let result = Matrix2x2::from_reflection(&normal);

    assert_eq!(result, expected);
}

#[test]
fn test_from_reflection_from_plane1() {
    let normal = Vector2::new(F64(f64::sqrt(2_f64) / 2_f64), F64(-f64::sqrt(2_f64) / 2_f64));
    let expected = m22d(0.0, 1.0, 1.0, 0.0);
    let result = Matrix2x2::from_reflection(&normal);

    assert!(close_m22d(&result, &expected, 1e-7));
}

#[test]
fn test_from_reflection_from_plane2() {
    let normal = Vector2::new(F64(-f64::sqrt(2_f64) / 2_f64), F64(f64::sqrt(2_f64) / 2_f64));
    let expected = m22d(0.0, 1.0, 1.0, 0.0);
    let result = Matrix2x2::from_reflection(&normal);

    assert!(close_m22d(&result, &expected, 1e-7));
}

#[test]
fn test_from_angle() {
    let matrix: Matrix2x2<F64> = Matrix2x2::from_angle(Radians::full_turn_div_4());
    let unit_x = Vector2::unit_x();
    let unit_y = Vector2::unit_y();
    let expected = unit_y;
    let result = matrix * unit_x;

    assert!(close_v2d(&result, &expected, 1e-8));

    let expected = -unit_x;
    let result = matrix * unit_y;

    assert!(close_v2d(&result, &expected, 1e-8));
}

#[test]
fn test_rotation_between_2x2() {
    let unit_x: Vector2<F64> = Vector2::unit_x();
    let unit_y: Vector2<F64> = Vector2::unit_y();
    let expected = m22d(0.0, 1.0, -1.0, 0.0);
    let result = Matrix2x2::rotation_between(&unit_x, &unit_y);

    assert!(close_m22d(&result, &expected, 1e-7));
}
