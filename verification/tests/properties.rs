#![allow(dead_code)]
use cglinalg::Matrix2x2;
use cglinalg::Matrix3x3;
use cglinalg::Matrix4x4;
use cglinalg::One;
use cglinalg::Point3;
use cglinalg::Scalar;
use cglinalg::ScalarFloat;
use cglinalg::Vector2;
use cglinalg::Vector3;
use cglinalg::Vector4;
use cglinalg::Zero;

/// A f32 scalar backing the library's scalar capability for these tests.
#[derive(Clone, Copy, Debug, PartialEq, PartialOrd)]
pub struct F32(pub f32);

impl Zero for F32 {
    fn szero() -> F32 {
        F32(0.0)
    }

    fn zero() -> F32 {
        F32(0.0)
    }

    fn is_zero(&self) -> bool {
        self.0 == 0.0
    }
}

impl One for F32 {
    fn sone() -> F32 {
        F32(1.0)
    }

    fn one() -> F32 {
        F32(1.0)
    }

    fn is_one(&self) -> bool {
        self.0 == 1.0
    }
}

impl Scalar for F32 {
    fn sadd(self, other: F32) -> F32 {
        F32(self.0 + other.0)
    }

    fn ssub(self, other: F32) -> F32 {
        F32(self.0 - other.0)
    }

    fn smul(self, other: F32) -> F32 {
        F32(self.0 * other.0)
    }

    fn sdiv(self, other: F32) -> F32 {
        F32(self.0 / other.0)
    }

    fn sneg(self) -> F32 {
        F32(-self.0)
    }

    fn law_add_zero(_: F32) {}

    fn law_add_comm(_: F32, _: F32) {}

    fn law_sub_zero(_: F32) {}

    fn law_sub_self(_: F32) {}

    fn law_mul_zero(_: F32) {}

    fn law_mul_one(_: F32) {}

    fn law_mul_comm(_: F32, _: F32) {}

    fn law_sub_add(_: F32, _: F32) {}

    fn law_add_assoc(_: F32, _: F32, _: F32) {}

    fn plus(self, other: F32) -> F32 {
        F32(self.0 + other.0)
    }

    fn minus(self, other: F32) -> F32 {
        F32(self.0 - other.0)
    }

    fn times(self, other: F32) -> F32 {
        F32(self.0 * other.0)
    }

    fn divide(self, other: F32) -> F32 {
        F32(self.0 / other.0)
    }

    fn negate(self) -> F32 {
        F32(-self.0)
    }
}

impl ScalarFloat for F32 {
    fn ssqrt(self) -> F32 {
        F32(self.0.sqrt())
    }

    fn ssin(self) -> F32 {
        F32(self.0.sin())
    }

    fn scos(self) -> F32 {
        F32(self.0.cos())
    }

    fn stan(self) -> F32 {
        F32(self.0.tan())
    }

    fn sacos(self) -> F32 {
        F32(self.0.acos())
    }

    fn spi() -> F32 {
        F32(std::f32::consts::PI)
    }

    fn sfrac_pi_180() -> F32 {
        F32(std::f32::consts::PI / 180.0)
    }

    fn sulps_eq(self, other: F32) -> bool {
        self.ulps_eq(other)
    }

    fn slt(self, other: F32) -> bool {
        self.0 < other.0
    }

    fn pi() -> F32 {
        F32(std::f32::consts::PI)
    }

    fn frac_pi_180() -> F32 {
        F32(std::f32::consts::PI / 180.0)
    }

    fn sqrt(self) -> F32 {
        F32(self.0.sqrt())
    }

    fn sin(self) -> F32 {
        F32(self.0.sin())
    }

    fn cos(self) -> F32 {
        F32(self.0.cos())
    }

    fn tan(self) -> F32 {
        F32(self.0.tan())
    }

    fn acos(self) -> F32 {
        F32(self.0.acos())
    }

    fn ulps_eq(self, other: F32) -> bool {
        let a = self.0;
        let b = other.0;
        if (a - b).abs() <= f32::EPSILON {
            return true;
        }
        if a.is_sign_negative() != b.is_sign_negative() {
            return false;
        }
        let bits_a = a.to_bits() as i64;
        let bits_b = b.to_bits() as i64;
        (bits_a - bits_b).abs() <= 4
    }

    fn lt(self, other: F32) -> bool {
        self.0 < other.0
    }
}

/// Approximate equality of two scalars: within an absolute epsilon, or
/// within a small relative distance for large values.
pub fn close32(a: F32, b: F32, epsilon: f32) -> bool {
    let d = (a.0 - b.0).abs();
    if d <= epsilon {
        return true;
    }
    let largest = a.0.abs().max(b.0.abs());
    d <= largest * f32::EPSILON * 4.0
}

/// A f64 scalar backing the library's scalar capability for these tests.
#[derive(Clone, Copy, Debug, PartialEq, PartialOrd)]
pub struct F64(pub f64);

impl Zero for F64 {
    fn szero() -> F64 {
        F64(0.0)
    }

    fn zero() -> F64 {
        F64(0.0)
    }

    fn is_zero(&self) -> bool {
        self.0 == 0.0
    }
}

impl One for F64 {
    fn sone() -> F64 {
        F64(1.0)
    }

    fn one() -> F64 {
        F64(1.0)
    }

    fn is_one(&self) -> bool {
        self.0 == 1.0
    }
}

impl Scalar for F64 {
    fn sadd(self, other: F64) -> F64 {
        F64(self.0 + other.0)
    }

    fn ssub(self, other: F64) -> F64 {
        F64(self.0 - other.0)
    }

    fn smul(self, other: F64) -> F64 {
        F64(self.0 * other.0)
    }

    fn sdiv(self, other: F64) -> F64 {
        F64(self.0 / other.0)
    }

    fn sneg(self) -> F64 {
        F64(-self.0)
    }

    fn law_add_zero(_: F64) {}

    fn law_add_comm(_: F64, _: F64) {}

    fn law_sub_zero(_: F64) {}

    fn law_sub_self(_: F64) {}

    fn law_mul_zero(_: F64) {}

    fn law_mul_one(_: F64) {}

    fn law_mul_comm(_: F64, _: F64) {}

    fn law_sub_add(_: F64, _: F64) {}

    fn law_add_assoc(_: F64, _: F64, _: F64) {}

    fn plus(self, other: F64) -> F64 {
        F64(self.0 + other.0)
    }

    fn minus(self, other: F64) -> F64 {
        F64(self.0 - other.0)
    }

    fn times(self, other: F64) -> F64 {
        F64(self.0 * other.0)
    }

    fn divide(self, other: F64) -> F64 {
        F64(self.0 / other.0)
    }

    fn negate(self) -> F64 {
        F64(-self.0)
    }
}

impl ScalarFloat for F64 {
    fn ssqrt(self) -> F64 {
        F64(self.0.sqrt())
    }

    fn ssin(self) -> F64 {
        F64(self.0.sin())
    }

    fn scos(self) -> F64 {
        F64(self.0.cos())
    }

    fn stan(self) -> F64 {
        F64(self.0.tan())
    }

    fn sacos(self) -> F64 {
        F64(self.0.acos())
    }

    fn spi() -> F64 {
        F64(std::f64::consts::PI)
    }

    fn sfrac_pi_180() -> F64 {
        F64(std::f64::consts::PI / 180.0)
    }

    fn sulps_eq(self, other: F64) -> bool {
        self.ulps_eq(other)
    }

    fn slt(self, other: F64) -> bool {
        self.0 < other.0
    }

    fn pi() -> F64 {
        F64(std::f64::consts::PI)
    }

    fn frac_pi_180() -> F64 {
        F64(std::f64::consts::PI / 180.0)
    }

    fn sqrt(self) -> F64 {
        F64(self.0.sqrt())
    }

    fn sin(self) -> F64 {
        F64(self.0.sin())
    }

    fn cos(self) -> F64 {
        F64(self.0.cos())
    }

    fn tan(self) -> F64 {
        F64(self.0.tan())
    }

    fn acos(self) -> F64 {
        F64(self.0.acos())
    }

    fn ulps_eq(self, other: F64) -> bool {
        let a = self.0;
        let b = other.0;
        if (a - b).abs() <= f64::EPSILON {
            return true;
        }
        if a.is_sign_negative() != b.is_sign_negative() {
            return false;
        }
        let bits_a = a.to_bits() as i64;
        let bits_b = b.to_bits() as i64;
        (bits_a - bits_b).abs() <= 4
    }

    fn lt(self, other: F64) -> bool {
        self.0 < other.0
    }
}

/// Approximate equality of two scalars: within an absolute epsilon, or
/// within a small relative distance for large values.
pub fn close64(a: F64, b: F64, epsilon: f64) -> bool {
    let d = (a.0 - b.0).abs();
    if d <= epsilon {
        return true;
    }
    let largest = a.0.abs().max(b.0.abs());
    d <= largest * f64::EPSILON * 4.0
}
use cglinalg::Degrees;
use cglinalg::OrthographicFovProjection3;
use cglinalg::OrthographicFovSpec;
use cglinalg::OrthographicProjection3;
use cglinalg::OrthographicSpec;
use cglinalg::PerspectiveFovProjection3;
use cglinalg::PerspectiveFovSpec;
use cglinalg::PerspectiveProjection3;
use cglinalg::PerspectiveSpec;
use cglinalg::Point1;
use cglinalg::Point2;
use cglinalg::Quaternion;
use cglinalg::Radians;
use cglinalg::RotationMatrix2;
use cglinalg::RotationMatrix3;
use cglinalg::Vector1;

fn sd(x: f64) -> F64 {
    F64(x)
}

fn v3d(x: f64, y: f64, z: f64) -> Vector3<F64> {
    Vector3::new(F64(x), F64(y), F64(z))
}

fn p3d(x: f64, y: f64, z: f64) -> Point3<F64> {
    Point3::new(F64(x), F64(y), F64(z))
}

fn close_v3d(a: &Vector3<F64>, b: &Vector3<F64>, eps: f64) -> bool {
    close64(a.x, b.x, eps) && close64(a.y, b.y, eps) && close64(a.z, b.z, eps)
}

fn close_p3d(a: &Point3<F64>, b: &Point3<F64>, eps: f64) -> bool {
    close64(a.x, b.x, eps) && close64(a.y, b.y, eps) && close64(a.z, b.z, eps)
}

fn close_m33d(a: &Matrix3x3<F64>, b: &Matrix3x3<F64>, eps: f64) -> bool {
    close64(a.c0r0, b.c0r0, eps) && close64(a.c0r1, b.c0r1, eps)
        && close64(a.c0r2, b.c0r2, eps) && close64(a.c1r0, b.c1r0, eps)
        && close64(a.c1r1, b.c1r1, eps) && close64(a.c1r2, b.c1r2, eps)
        && close64(a.c2r0, b.c2r0, eps) && close64(a.c2r1, b.c2r1, eps)
        && close64(a.c2r2, b.c2r2, eps)
}

/// A small deterministic linear congruential generator, so that the
/// randomized round-trip checks run on a fixed but well-spread sample.
struct Lcg(u64);

impl Lcg {
    fn next_unit(&mut self) -> f64 {
        self.0 = self.0.wrapping_mul(6364136223846793005).wrapping_add(1442695040888963407);
        let bits = (self.0 >> 11) as f64;
        bits / ((1u64 << 53) as f64) * 2.0 - 1.0
    }
}

#[test]
fn test_inverse_round_trip() {
    let matrix = Matrix3x3::new(
        sd(2.0), sd(1.0), sd(0.5),
        sd(-3.0), sd(4.0), sd(1.0),
        sd(0.25), sd(-1.0), sd(5.0),
    );
    let inverse = matrix.inverse().unwrap();
    let identity = Matrix3x3::identity();
    let product_left = matrix * inverse;
    let product_right = inverse * matrix;
    let double_inverse = inverse.inverse().unwrap();

    assert!(close_m33d(&product_left, &identity, 1e-7));
    assert!(close_m33d(&product_right, &identity, 1e-7));
    assert!(close_m33d(&double_inverse, &matrix, 1e-7));
}

#[test]
fn test_scalar_inverse_scaling_law() {
    let matrix = Matrix2x2::new(sd(2.0), sd(0.0), sd(0.0), sd(4.0));
    let c = sd(2.0);
    let left = (matrix * c).inverse().unwrap();
    let right = matrix.inverse().unwrap() * sd(1.0 / 2.0);

    assert_eq!(left, right);
}

#[test]
fn test_singularity_equal_rows_and_columns() {
    let equal_rows = Matrix3x3::new(
        sd(1.0), sd(1.0), sd(7.0),
        sd(2.0), sd(2.0), sd(8.0),
        sd(3.0), sd(3.0), sd(9.0),
    );
    let equal_columns = Matrix3x3::new(
        sd(1.0), sd(2.0), sd(3.0),
        sd(1.0), sd(2.0), sd(3.0),
        sd(7.0), sd(8.0), sd(9.0),
    );

    assert_eq!(equal_rows.determinant(), sd(0.0));
    assert!(equal_rows.inverse().is_none());
    assert_eq!(equal_columns.determinant(), sd(0.0));
    assert!(equal_columns.inverse().is_none());
}

#[test]
fn test_singularity_equal_rows_and_columns_4x4() {
    let equal_columns = Matrix4x4::new(
        sd(1.0), sd(2.0), sd(3.0), sd(4.0),
        sd(1.0), sd(2.0), sd(3.0), sd(4.0),
        sd(5.0), sd(6.0), sd(7.0), sd(8.0),
        sd(9.0), sd(10.0), sd(11.0), sd(12.0),
    );
    let equal_rows = equal_columns.transpose();

    assert_eq!(equal_columns.determinant(), sd(0.0));
    assert!(equal_columns.inverse().is_none());
    assert_eq!(equal_rows.determinant(), sd(0.0));
    assert!(equal_rows.inverse().is_none());
}

#[test]
fn test_transpose_involution_integer_matrices() {
    let matrix = Matrix4x4::new(
        1_i64, 2_i64, 3_i64, 4_i64,
        5_i64, 6_i64, 7_i64, 8_i64,
        9_i64, 10_i64, 11_i64, 12_i64,
        13_i64, 14_i64, 15_i64, 16_i64,
    );

    assert_eq!(matrix.transpose().transpose(), matrix);
}

#[test]
fn test_rotation_orthogonality_from_axis_angle() {
    let axis = v3d(1.0, 2.0, 2.0).normalize();
    let angle = Radians(sd(0.73));
    let rotation = Matrix3x3::from_axis_angle(&axis, angle);
    let product = rotation * rotation.transpose();
    let identity = Matrix3x3::identity();

    assert!(close_m33d(&product, &identity, 1e-12));
    assert!(close64(rotation.determinant(), sd(1.0), 1e-12));
}

#[test]
fn test_between_vectors_same_direction_is_identity() {
    let v = v3d(0.2, -0.7, 1.3).normalize();
    let q = Quaternion::between_vectors(v, v);

    assert_eq!(q.s, sd(1.0));
    assert_eq!(q.v, v3d(0.0, 0.0, 0.0));
}

#[test]
fn test_between_vectors_opposite_directions_is_half_turn() {
    let unit_x: Vector3<F64> = Vector3::unit_x();
    let q = Quaternion::between_vectors(unit_x, -unit_x);
    let square = q * q;

    assert_eq!(q.s, sd(0.0));
    assert!(close64(square.s.smul(square.s), sd(1.0), 1e-12));
    assert!(close_v3d(&square.v, &v3d(0.0, 0.0, 0.0), 1e-12));

    let square_rotated = square.rotate_vector(unit_x);

    assert!(close_v3d(&square_rotated, &unit_x, 1e-12));

    let rotated = q.rotate_vector(unit_x);
    let expected = -unit_x;

    assert!(close_v3d(&rotated, &expected, 1e-12));
}

#[test]
fn test_between_vectors_quarter_turn() {
    let unit_x: Vector3<F64> = Vector3::unit_x();
    let unit_y: Vector3<F64> = Vector3::unit_y();
    let q = Quaternion::between_vectors(unit_x, unit_y);
    let rotated = q.rotate_vector(unit_x);

    assert!(close_v3d(&rotated, &unit_y, 1e-12));
}

#[test]
fn test_perspective_projection_round_trip() {
    let spec = PerspectiveSpec::new(sd(-4.0), sd(4.0), sd(-2.0), sd(2.0), sd(1.0), sd(100.0));
    let projection = PerspectiveProjection3::new(spec);
    let point = p3d(1.0, 1.0, -5.0);
    let projected = projection.project_point(&point);
    let unprojected = projection.unproject_point(&projected);

    assert!(close_p3d(&unprojected, &point, 1e-6));

    let vector = v3d(1.0, 1.0, -5.0);
    let projected_vector = projection.project_vector(&vector);
    let unprojected_vector = projection.unproject_vector(&projected_vector);

    assert!(close_v3d(&unprojected_vector, &vector, 1e-6));
}

#[test]
fn test_orthographic_projection_round_trip() {
    let spec = OrthographicSpec::new(sd(-4.0), sd(4.0), sd(-2.0), sd(2.0), sd(1.0), sd(100.0));
    let projection = OrthographicProjection3::new(spec);
    let point = p3d(1.0, 1.0, -5.0);
    let projected = projection.project_point(&point);
    let unprojected = projection.unproject_point(&projected);

    assert!(close_p3d(&unprojected, &point, 1e-6));

    let vector = v3d(1.0, 1.0, -5.0);
    let projected_vector = projection.project_vector(&vector);
    let unprojected_vector = projection.unproject_vector(&projected_vector);

    assert!(close_v3d(&unprojected_vector, &vector, 1e-6));
}

#[test]
fn test_perspective_fov_projection_round_trip() {
    let fovy = Radians(sd(std::f64::consts::PI / 3.0));
    let spec = PerspectiveFovSpec::new(fovy, sd(4.0 / 3.0), sd(1.0), sd(100.0));
    let projection = PerspectiveFovProjection3::new(spec);
    let point = p3d(0.5, -0.25, -20.0);
    let projected = projection.project_point(&point);
    let unprojected = projection.unproject_point(&projected);

    assert!(close_p3d(&unprojected, &point, 1e-6));
}

#[test]
fn test_perspective_projection_matches_cached_matrix() {
    let spec = PerspectiveSpec::new(sd(-4.0), sd(4.0), sd(-2.0), sd(2.0), sd(1.0), sd(100.0));
    let projection = PerspectiveProjection3::new(spec);
    let from_builder = Matrix4x4::from_perspective(
        sd(-4.0), sd(4.0), sd(-2.0), sd(2.0), sd(1.0), sd(100.0),
    );

    assert_eq!(*projection.to_matrix(), from_builder);
    assert_eq!(projection.spec(), spec);
}

#[test]
fn test_quaternion_matrix_round_trip_random_unit_quaternions() {
    let mut rng = Lcg(0x243f6a8885a308d3);
    let mut count: usize = 0;
    while count < 100 {
        let s = rng.next_unit();
        let x = rng.next_unit();
        let y = rng.next_unit();
        let z = rng.next_unit();
        let magnitude = (s * s + x * x + y * y + z * z).sqrt();
        if magnitude < 1e-3 {
            continue;
        }
        count += 1;
        let q = Quaternion::new(sd(s), sd(x), sd(y), sd(z)).normalize();
        let matrix = q.to_matrix();
        let back = Quaternion::from_matrix(&matrix);
        let same_sign = close64(back.s, q.s, 1e-9) && close_v3d(&back.v, &q.v, 1e-9);
        let negated = -back;
        let opposite_sign =
            close64(negated.s, q.s, 1e-9) && close_v3d(&negated.v, &q.v, 1e-9);

        assert!(same_sign || opposite_sign);
    }
}

#[test]
fn test_quaternion_from_axis_angle_is_unit() {
    let axis = v3d(2.0, -1.0, 0.5).normalize();
    let q = Quaternion::from_axis_angle(&axis, Radians(sd(1.234)));

    assert!(close64(q.magnitude_squared(), sd(1.0), 1e-12));
}

#[test]
fn test_quaternion_inverse_of_non_unit_quaternion() {
    let q = Quaternion::new(sd(2.0), sd(0.0), sd(0.0), sd(0.0));
    let q_inv = q.inverse();
    let product = q * q_inv;

    assert!(close64(product.s, sd(1.0), 1e-12));
    assert!(close_v3d(&product.v, &v3d(0.0, 0.0, 0.0), 1e-12));
}

#[test]
fn test_rotation_matrix2_from_angle_rotates_unit_x() {
    let rotation: RotationMatrix2<F64> = RotationMatrix2::from_angle(Radians::full_turn_div_4());
    let unit_x = Vector2::unit_x();
    let unit_y = Vector2::unit_y();
    let result = rotation.rotate_vector(unit_x);

    assert!(close64(result.x, unit_y.x, 1e-12) && close64(result.y, unit_y.y, 1e-12));
}

#[test]
fn test_rotation_matrix3_between_vectors_agrees_with_quaternion() {
    let v1 = v3d(1.0, 0.3, -0.2);
    let v2 = v3d(-0.4, 1.0, 0.8);
    let rotation = RotationMatrix3::between_vectors(&v1, &v2);
    let q = Quaternion::between_vectors(v1, v2);

    assert_eq!(rotation.matrix, q.to_matrix());
}

#[test]
fn test_rotation_matrix3_inverse_undoes_rotation() {
    let axis = v3d(0.0, 0.0, 1.0);
    let rotation = RotationMatrix3::from_axis_angle(&axis, Radians(sd(0.5)));
    let inverse = rotation.inverse();
    let v = v3d(1.0, 2.0, 3.0);
    let round_trip = inverse.rotate_vector(rotation.rotate_vector(v));

    assert!(close_v3d(&round_trip, &v, 1e-12));
}

#[test]
fn test_rotation_matrix3_rotate_point() {
    let axis = v3d(0.0, 0.0, 1.0);
    let rotation = RotationMatrix3::from_angle_z(Radians::full_turn_div_4());
    let point = p3d(1.0, 0.0, 0.0);
    let rotated = rotation.rotate_point(point);
    let expected = p3d(0.0, 1.0, 0.0);
    let _ = axis;

    assert!(close_p3d(&rotated, &expected, 1e-12));
}

#[test]
fn test_point_homogeneous_round_trip() {
    let point = p3d(3.0, -2.5, 7.0);
    let homogeneous = point.to_homogeneous();
    let back = Point3::from_homogeneous(homogeneous);

    assert_eq!(back, point);
    assert_eq!(homogeneous.w, sd(1.0));
}

#[test]
fn test_point_from_homogeneous_divides_by_w() {
    let vector = Vector4::new(sd(2.0), sd(4.0), sd(8.0), sd(2.0));
    let point = Point3::from_homogeneous(vector);

    assert_eq!(point, p3d(1.0, 2.0, 4.0));
}

#[test]
fn test_point_expand_contract() {
    let p1 = Point1::new(1_i64);
    let p2 = p1.expand(2_i64);
    let p3 = p2.expand(3_i64);

    assert_eq!(p3, Point3::new(1_i64, 2_i64, 3_i64));
    assert_eq!(p3.contract(), p2);
    assert_eq!(p2.contract(), p1);
}

#[test]
fn test_point_vector_arithmetic() {
    let point = Point2::new(1_i64, 2_i64);
    let vector = Vector2::new(10_i64, 20_i64);
    let moved = point + vector;
    let displacement = moved - point;

    assert_eq!(moved, Point2::new(11_i64, 22_i64));
    assert_eq!(displacement, vector);
}

#[test]
fn test_point_map() {
    let point = Point2::new(1_i64, 2_i64);
    let doubled = point.map(|c| c * 2);

    assert_eq!(doubled, Point2::new(2_i64, 4_i64));
}

#[test]
fn test_vector_dot_and_cross() {
    let a = Vector3::new(1_i64, 2_i64, 3_i64);
    let b = Vector3::new(4_i64, 5_i64, 6_i64);

    assert_eq!(a.dot(b), 32_i64);
    assert_eq!(a.cross(b), Vector3::new(-3_i64, 6_i64, -3_i64));
}

#[test]
fn test_vector_extend_contract() {
    let v = Vector1::new(1_i64);
    let v4 = v.extend(2_i64).extend(3_i64).extend(4_i64);

    assert_eq!(v4, Vector4::new(1_i64, 2_i64, 3_i64, 4_i64));
    assert_eq!(v4.contract(), Vector3::new(1_i64, 2_i64, 3_i64));
}

#[test]
fn test_integer_matrix_inverse_of_unimodular_matrix() {
    let matrix = Matrix2x2::new(2_i64, 1_i64, 1_i64, 1_i64);
    let inverse = matrix.inverse().unwrap();
    let expected = Matrix2x2::new(1_i64, -1_i64, -1_i64, 2_i64);

    assert_eq!(matrix.determinant(), 1_i64);
    assert_eq!(inverse, expected);
}

#[test]
fn test_integer_scalar_division_truncates() {
    assert_eq!((-7_i64).divide(2_i64), -3_i64);
    assert_eq!(7_i64.divide(-2_i64), -3_i64);
    assert_eq!((-7_i64).divide(-2_i64), 3_i64);
    assert_eq!(7_i64.divide(0_i64), 0_i64);
}

#[test]
fn test_angle_pythagorean_identity() {
    let angle = Radians(sd(0.6));
    let s = angle.sin();
    let c = angle.cos();
    let sum = s.smul(s).sadd(c.smul(c));

    assert!(close64(sum, sd(1.0), 1e-12));
}

#[test]
fn test_angle_addition_commutative() {
    let a = Radians(sd(0.25));
    let b = Radians(sd(1.5));

    assert_eq!(a + b, b + a);
}

#[test]
fn test_degrees_to_radians() {
    let angle = Degrees(sd(90.0));
    let radians = angle.to_radians();

    assert!(close64(radians.0, sd(std::f64::consts::PI / 2.0), 1e-12));
}

#[test]
fn test_angle_sin_cos() {
    let angle = Radians(sd(0.3));
    let (s, c) = angle.sin_cos();

    assert_eq!(s, angle.sin());
    assert_eq!(c, angle.cos());
}

#[test]
fn test_matrix_addition_commutative() {
    let a = Matrix2x2::new(1_i64, 2_i64, 3_i64, 4_i64);
    let b = Matrix2x2::new(10_i64, 20_i64, 30_i64, 40_i64);

    assert_eq!(a + b, b + a);
}

#[test]
fn test_point_origin_and_fill() {
    let origin: Point3<i64> = Point3::origin();
    let filled: Point3<i64> = Point3::from_fill(7_i64);

    assert_eq!(origin, Point3::new(0_i64, 0_i64, 0_i64));
    assert_eq!(filled, Point3::new(7_i64, 7_i64, 7_i64));
}

#[test]
fn test_point_vector_conversions() {
    let v = Vector3::new(1_i64, 2_i64, 3_i64);
    let p = Point3::from_vector(v);

    assert_eq!(p, Point3::new(1_i64, 2_i64, 3_i64));
    assert_eq!(p.to_vector(), v);
}

#[test]
fn test_vector_magnitude_and_normalize() {
    let v = v3d(3.0, 4.0, 0.0);

    assert_eq!(v.magnitude_squared(), sd(25.0));
    assert_eq!(v.magnitude(), sd(5.0));
    assert_eq!(v.normalize(), v3d(3.0 / 5.0, 4.0 / 5.0, 0.0));
}

#[test]
fn test_vector_project_on() {
    let v = v3d(2.0, 3.0, 0.0);
    let onto = v3d(1.0, 0.0, 0.0);
    let result = v.project_onto(onto);

    assert_eq!(result, v3d(2.0, 0.0, 0.0));
}

#[test]
fn test_singularity_equal_last_columns() {
    let matrix3 = Matrix3x3::new(
        sd(1.0), sd(2.0), sd(3.0),
        sd(4.0), sd(5.0), sd(6.0),
        sd(4.0), sd(5.0), sd(6.0),
    );
    let matrix4 = Matrix4x4::new(
        sd(1.0), sd(2.0), sd(3.0), sd(4.0),
        sd(5.0), sd(6.0), sd(7.0), sd(8.0),
        sd(9.0), sd(10.0), sd(11.0), sd(12.0),
        sd(9.0), sd(10.0), sd(11.0), sd(12.0),
    );

    assert_eq!(matrix3.determinant(), sd(0.0));
    assert!(matrix3.inverse().is_none());
    assert_eq!(matrix4.determinant(), sd(0.0));
    assert!(matrix4.inverse().is_none());
}

#[test]
fn test_singularity_equal_rows_integer_matrices() {
    let matrix = Matrix3x3::new(1_i64, 1_i64, 9_i64, 2_i64, 2_i64, 8_i64, 3_i64, 3_i64, 7_i64);

    assert_eq!(matrix.determinant(), 0_i64);
    assert!(matrix.inverse().is_none());
}

#[test]
fn test_orthographic_fov_projection_round_trip() {
    let fovy = Radians(sd(std::f64::consts::PI / 2.0));
    let spec = OrthographicFovSpec::new(fovy, sd(4.0 / 3.0), sd(1.0), sd(100.0));
    let projection = OrthographicFovProjection3::new(spec);
    let point = p3d(1.0, 1.0, -5.0);
    let projected = projection.project_point(&point);
    let unprojected = projection.unproject_point(&projected);

    assert!(close_p3d(&unprojected, &point, 1e-6));
    assert_eq!(projection.to_spec(), spec);
}

#[test]
fn test_orthographic_fov_spec_extent_uses_far_plane() {
    let fovy = Radians(sd(std::f64::consts::PI / 2.0));
    let fov = OrthographicFovSpec::new(fovy, sd(2.0), sd(1.0), sd(100.0));
    let planes: OrthographicSpec<F64> = OrthographicSpec::from(fov);

    assert!(close64(planes.right, sd(50.0), 1e-9));
    assert!(close64(planes.left, sd(-50.0), 1e-9));
    assert!(close64(planes.top, sd(25.0), 1e-9));
    assert!(close64(planes.bottom, sd(-25.0), 1e-9));
    assert_eq!(planes.near, sd(1.0));
    assert_eq!(planes.far, sd(100.0));
}
