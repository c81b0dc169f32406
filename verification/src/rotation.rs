//! Rotation operators in two and three dimensions, represented either as a
//! constrained rotation matrix or as a unit quaternion. A rotation is
//! constructed once and applied many times; the matrix form and the
//! quaternion form interconvert explicitly.

use crate::angle::Radians;
use crate::matrix::Matrix2x2;
use crate::matrix::Matrix3x3;
use crate::point::Point2;
use crate::point::Point3;
use crate::quaternion::Quaternion;
use crate::scalar::Scalar;
use crate::scalar::ScalarFloat;
use crate::vector::Vector2;
use crate::vector::Vector3;
use vstd::prelude::*;

verus! {

/// The capability set shared by every rotation representation: construct a
/// rotation from directions, apply it to vectors and points, and invert it.
/// The contracts live on the inherent methods of each implementing type.
pub trait Rotation<P, V>: Sized {
    /// Construct the rotation that orients along a direction, with an up
    /// hint fixing the roll.
    fn look_at(direction: V, up: V) -> Self;

    /// Construct the rotation that carries one vector to another along the
    /// shortest arc.
    fn between_vectors(v1: V, v2: V) -> Self;

    /// Apply the rotation to a vector.
    fn rotate_vector(&self, vector: V) -> V;

    /// Construct the rotation that rotates by the same amount in the
    /// opposite direction.
    fn inverse(&self) -> Self;

    /// Apply the rotation to a point, as the rotation of its displacement
    /// from the origin.
    fn rotate_point(&self, point: P) -> P;
}

/// The two-dimensional rotation capability: construction from a plane
/// angle.
pub trait Rotation2<S: ScalarFloat>: Rotation<Point2<S>, Vector2<S>> {
    /// Construct the rotation of the plane by an angle.
    fn from_angle(angle: Radians<S>) -> Self;
}

/// The three-dimensional rotation capability: construction from an axis and
/// an angle.
pub trait Rotation3<S: ScalarFloat>: Rotation<Point3<S>, Vector3<S>> {
    /// Construct the rotation about an axis by an angle.
    fn from_axis_angle(axis: Vector3<S>, angle: Radians<S>) -> Self;

    /// Construct the rotation about the `x` axis by an angle.
    fn from_angle_x(angle: Radians<S>) -> Self;

    /// Construct the rotation about the `y` axis by an angle.
    fn from_angle_y(angle: Radians<S>) -> Self;

    /// Construct the rotation about the `z` axis by an angle.
    fn from_angle_z(angle: Radians<S>) -> Self;
}

/// A rotation operator in two dimensions, backed by a matrix that is
/// orthogonal with determinant one by construction; no runtime check
/// enforces the constraint.
#[derive(Clone, Copy, Debug, PartialEq, Eq, Hash)]
pub struct RotationMatrix2<S> {
    /// The underlying matrix of the rotation.
    pub matrix: Matrix2x2<S>,
}

/// A rotation operator in three dimensions, backed by a matrix that is
/// orthogonal with determinant one by construction; no runtime check
/// enforces the constraint.
#[derive(Clone, Copy, Debug, PartialEq, Eq, Hash)]
pub struct RotationMatrix3<S> {
    /// The underlying matrix of the rotation.
    pub matrix: Matrix3x3<S>,
}

impl<S: ScalarFloat> RotationMatrix2<S> {
    /// Construct the rotation of the plane by an angle.
    pub fn from_angle(angle: Radians<S>) -> (r: RotationMatrix2<S>)
        ensures
            r.matrix == Matrix2x2::<S>::sfrom_angle(angle),
    {
        RotationMatrix2 { matrix: Matrix2x2::from_angle(angle) }
    }

    /// Construct the rotation that carries the direction of one vector to
    /// the direction of another.
    pub fn between_vectors(v1: &Vector2<S>, v2: &Vector2<S>) -> (r: RotationMatrix2<S>)
        ensures
            r.matrix == Matrix2x2::<S>::srotation_between(*v1, *v2),
    {
        RotationMatrix2 { matrix: Matrix2x2::rotation_between(v1, v2) }
    }

    /// Construct the rotation that orients along a direction, with an up
    /// hint; in two dimensions the hint only fixes the handedness.
    pub fn look_at(direction: &Vector2<S>, up: &Vector2<S>) -> (r: RotationMatrix2<S>)
        ensures
            r.matrix == Matrix2x2::<S>::srotation_between(*direction, *up),
    {
        RotationMatrix2 { matrix: Matrix2x2::rotation_between(direction, up) }
    }

    /// Apply the rotation to a vector.
    pub fn rotate_vector(&self, vector: Vector2<S>) -> (r: Vector2<S>)
        ensures
            r == self.matrix.smulv(vector),
    {
        self.matrix * vector
    }

    /// Apply the rotation to a point, as the rotation of its displacement
    /// from the origin.
    pub fn rotate_point(&self, point: Point2<S>) -> (r: Point2<S>)
        ensures
            r.x == self.matrix.smulv(Vector2 { x: point.x, y: point.y }).x,
            r.y == self.matrix.smulv(Vector2 { x: point.x, y: point.y }).y,
    {
        let v: Vector2<S> = self.matrix * point.to_vector();
        Point2::from_vector(v)
    }

    /// Construct the rotation by the same angle in the opposite direction,
    /// by inverting the underlying matrix. The backing matrix of a rotation
    /// has determinant one; a degenerate value with determinant zero is
    /// excluded by the precondition.
    pub fn inverse(&self) -> (r: RotationMatrix2<S>)
        requires
            self.matrix.sdet() != S::szero(),
        ensures
            r.matrix == self.matrix.sinverse(),
    {
        let inv: Option<Matrix2x2<S>> = self.matrix.inverse();
        RotationMatrix2 { matrix: inv.unwrap() }
    }
}

impl<S: ScalarFloat> RotationMatrix3<S> {
    /// Construct a rotation from a quaternion, by the standard conversion.
    pub fn from_quaternion(quaternion: &Quaternion<S>) -> (r: RotationMatrix3<S>)
        ensures
            r.matrix == quaternion.sto_matrix(),
    {
        RotationMatrix3 { matrix: quaternion.to_matrix() }
    }

    /// Construct the rotation about an axis by an angle.
    pub fn from_axis_angle(axis: &Vector3<S>, angle: Radians<S>) -> (r: RotationMatrix3<S>)
        ensures
            r.matrix == Matrix3x3::<S>::sfrom_axis_angle(*axis, angle),
    {
        RotationMatrix3 { matrix: Matrix3x3::from_axis_angle(axis, angle) }
    }

    /// Construct the rotation about the `x` axis by an angle.
    pub fn from_angle_x(angle: Radians<S>) -> (r: RotationMatrix3<S>)
        ensures
            r.matrix == Matrix3x3::<S>::sfrom_angle_x(angle),
    {
        RotationMatrix3 { matrix: Matrix3x3::from_angle_x(angle) }
    }

    /// Construct the rotation about the `y` axis by an angle.
    pub fn from_angle_y(angle: Radians<S>) -> (r: RotationMatrix3<S>)
        ensures
            r.matrix == Matrix3x3::<S>::sfrom_angle_y(angle),
    {
        RotationMatrix3 { matrix: Matrix3x3::from_angle_y(angle) }
    }

    /// Construct the rotation about the `z` axis by an angle.
    pub fn from_angle_z(angle: Radians<S>) -> (r: RotationMatrix3<S>)
        ensures
            r.matrix == Matrix3x3::<S>::sfrom_angle_z(angle),
    {
        RotationMatrix3 { matrix: Matrix3x3::from_angle_z(angle) }
    }

    /// Construct the rotation that orients along a direction with an up
    /// hint, in the left-handed convention: it carries the direction of the
    /// input to the `z` axis.
    pub fn look_at(direction: &Vector3<S>, up: &Vector3<S>) -> (r: RotationMatrix3<S>)
        ensures
            r.matrix == Matrix3x3::<S>::slook_at_lh(*direction, *up),
    {
        RotationMatrix3 { matrix: Matrix3x3::look_at_lh(direction, up) }
    }

    /// Construct the rotation that carries one vector to another along the
    /// shortest arc, by delegating to the quaternion computation, so that
    /// the matrix and quaternion representations always agree.
    pub fn between_vectors(v1: &Vector3<S>, v2: &Vector3<S>) -> (r: RotationMatrix3<S>)
        ensures
            r.matrix == Quaternion::<S>::sbetween_vectors(*v1, *v2).sto_matrix(),
    {
        let q: Quaternion<S> = Quaternion::between_vectors(*v1, *v2);
        RotationMatrix3 { matrix: q.to_matrix() }
    }

    /// Apply the rotation to a vector.
    pub fn rotate_vector(&self, vector: Vector3<S>) -> (r: Vector3<S>)
        ensures
            r == self.matrix.smulv(vector),
    {
        self.matrix * vector
    }

    /// Apply the rotation to a point, as the rotation of its displacement
    /// from the origin.
    pub fn rotate_point(&self, point: Point3<S>) -> (r: Point3<S>)
        ensures
            r.x == self.matrix.smulv(Vector3 { x: point.x, y: point.y, z: point.z }).x,
            r.y == self.matrix.smulv(Vector3 { x: point.x, y: point.y, z: point.z }).y,
            r.z == self.matrix.smulv(Vector3 { x: point.x, y: point.y, z: point.z }).z,
    {
        let v: Vector3<S> = self.matrix * point.to_vector();
        Point3::from_vector(v)
    }

    /// Construct the rotation by the same angle about the same axis in the
    /// opposite direction, by inverting the underlying matrix. The backing
    /// matrix of a rotation has determinant one; a degenerate value with
    /// determinant zero is excluded by the precondition.
    pub fn inverse(&self) -> (r: RotationMatrix3<S>)
        requires
            self.matrix.sdet() != S::szero(),
        ensures
            r.matrix == self.matrix.sinverse(),
    {
        let inv: Option<Matrix3x3<S>> = self.matrix.inverse();
        RotationMatrix3 { matrix: inv.unwrap() }
    }
}

impl<S: Scalar> core::ops::Mul<RotationMatrix2<S>> for RotationMatrix2<S> {
    type Output = RotationMatrix2<S>;

    fn mul(self, other: RotationMatrix2<S>) -> RotationMatrix2<S> {
        RotationMatrix2 { matrix: self.matrix * other.matrix }
    }
}

impl<S: Scalar> vstd::std_specs::ops::MulSpecImpl<RotationMatrix2<S>> for RotationMatrix2<S> {
    open spec fn obeys_mul_spec() -> bool {
        true
    }

    open spec fn mul_req(self, rhs: RotationMatrix2<S>) -> bool {
        true
    }

    open spec fn mul_spec(self, rhs: RotationMatrix2<S>) -> RotationMatrix2<S> {
        RotationMatrix2 { matrix: self.matrix.smmul(rhs.matrix) }
    }
}

impl<S: Scalar> core::ops::Mul<RotationMatrix3<S>> for RotationMatrix3<S> {
    type Output = RotationMatrix3<S>;

    fn mul(self, other: RotationMatrix3<S>) -> RotationMatrix3<S> {
        RotationMatrix3 { matrix: self.matrix * other.matrix }
    }
}

impl<S: Scalar> vstd::std_specs::ops::MulSpecImpl<RotationMatrix3<S>> for RotationMatrix3<S> {
    open spec fn obeys_mul_spec() -> bool {
        true
    }

    open spec fn mul_req(self, rhs: RotationMatrix3<S>) -> bool {
        true
    }

    open spec fn mul_spec(self, rhs: RotationMatrix3<S>) -> RotationMatrix3<S> {
        RotationMatrix3 { matrix: self.matrix.smmul(rhs.matrix) }
    }
}

impl<S: ScalarFloat> Rotation<Point2<S>, Vector2<S>> for RotationMatrix2<S> {
    fn look_at(direction: Vector2<S>, up: Vector2<S>) -> RotationMatrix2<S> {
        RotationMatrix2::look_at(&direction, &up)
    }

    fn between_vectors(v1: Vector2<S>, v2: Vector2<S>) -> RotationMatrix2<S> {
        RotationMatrix2::between_vectors(&v1, &v2)
    }

    fn rotate_vector(&self, vector: Vector2<S>) -> Vector2<S> {
        RotationMatrix2::rotate_vector(self, vector)
    }

    fn inverse(&self) -> RotationMatrix2<S> {
        RotationMatrix2 { matrix: self.matrix.transpose() }
    }

    fn rotate_point(&self, point: Point2<S>) -> Point2<S> {
        RotationMatrix2::rotate_point(self, point)
    }
}

impl<S: ScalarFloat> Rotation2<S> for RotationMatrix2<S> {
    fn from_angle(angle: Radians<S>) -> RotationMatrix2<S> {
        RotationMatrix2::from_angle(angle)
    }
}

impl<S: ScalarFloat> Rotation<Point3<S>, Vector3<S>> for RotationMatrix3<S> {
    fn look_at(direction: Vector3<S>, up: Vector3<S>) -> RotationMatrix3<S> {
        RotationMatrix3::look_at(&direction, &up)
    }

    fn between_vectors(v1: Vector3<S>, v2: Vector3<S>) -> RotationMatrix3<S> {
        RotationMatrix3::between_vectors(&v1, &v2)
    }

    fn rotate_vector(&self, vector: Vector3<S>) -> Vector3<S> {
        RotationMatrix3::rotate_vector(self, vector)
    }

    fn inverse(&self) -> RotationMatrix3<S> {
        RotationMatrix3 { matrix: self.matrix.transpose() }
    }

    fn rotate_point(&self, point: Point3<S>) -> Point3<S> {
        RotationMatrix3::rotate_point(self, point)
    }
}

impl<S: ScalarFloat> Rotation3<S> for RotationMatrix3<S> {
    fn from_axis_angle(axis: Vector3<S>, angle: Radians<S>) -> RotationMatrix3<S> {
        RotationMatrix3::from_axis_angle(&axis, angle)
    }

    fn from_angle_x(angle: Radians<S>) -> RotationMatrix3<S> {
        RotationMatrix3::from_angle_x(angle)
    }

    fn from_angle_y(angle: Radians<S>) -> RotationMatrix3<S> {
        RotationMatrix3::from_angle_y(angle)
    }

    fn from_angle_z(angle: Radians<S>) -> RotationMatrix3<S> {
        RotationMatrix3::from_angle_z(angle)
    }
}

impl<S: ScalarFloat> Rotation<Point3<S>, Vector3<S>> for Quaternion<S> {
    fn look_at(direction: Vector3<S>, up: Vector3<S>) -> Quaternion<S> {
        let m: Matrix3x3<S> = Matrix3x3::look_at_lh(&direction, &up);
        Quaternion::from_matrix(&m)
    }

    fn between_vectors(v1: Vector3<S>, v2: Vector3<S>) -> Quaternion<S> {
        Quaternion::between_vectors(v1, v2)
    }

    fn rotate_vector(&self, vector: Vector3<S>) -> Vector3<S> {
        Quaternion::rotate_vector(self, vector)
    }

    fn inverse(&self) -> Quaternion<S> {
        Quaternion::inverse(*self)
    }

    fn rotate_point(&self, point: Point3<S>) -> Point3<S> {
        let v: Vector3<S> = Quaternion::rotate_vector(self, point.to_vector());
        Point3::from_vector(v)
    }
}

impl<S: ScalarFloat> Rotation3<S> for Quaternion<S> {
    fn from_axis_angle(axis: Vector3<S>, angle: Radians<S>) -> Quaternion<S> {
        Quaternion::from_axis_angle(&axis, angle)
    }

    fn from_angle_x(angle: Radians<S>) -> Quaternion<S> {
        Quaternion::from_axis_angle(&Vector3::unit_x(), angle)
    }

    fn from_angle_y(angle: Radians<S>) -> Quaternion<S> {
        Quaternion::from_axis_angle(&Vector3::unit_y(), angle)
    }

    fn from_angle_z(angle: Radians<S>) -> Quaternion<S> {
        Quaternion::from_axis_angle(&Vector3::unit_z(), angle)
    }
}

} // verus!
