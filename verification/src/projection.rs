//! Camera projection transforms: perspective and orthographic projection
//! matrices built from explicit frustum planes or from field-of-view
//! parameters, together with the closed-form analytic inverses used to
//! unproject points and vectors without calling generic matrix inversion.
//!
//! No runtime check validates the frustum parameters: a specification that
//! violates the ordering invariants silently yields a degenerate or
//! mirrored projection, as the caller contract states.

use crate::angle::Radians;
use crate::matrix::Matrix4x4;
use crate::point::Point3;
use crate::scalar::Scalar;
use crate::scalar::ScalarFloat;
use crate::vector::Vector3;
use crate::vector::Vector4;
use vstd::prelude::*;

verus! {

/// A perspective projection described by arbitrary `left`, `right`,
/// `bottom`, `top`, `near` and `far` planes. A useful projection satisfies
/// `left < right`, `bottom < top` and `0 < near < far`.
#[derive(Clone, Copy, Debug, PartialEq, Eq, Hash)]
pub struct PerspectiveSpec<S> {
    /// The horizontal position of the left-hand plane in camera space.
    pub left: S,
    /// The horizontal position of the right-hand plane in camera space.
    pub right: S,
    /// The vertical position of the bottom plane in camera space.
    pub bottom: S,
    /// The vertical position of the top plane in camera space.
    pub top: S,
    /// The distance along the negative `z` axis of the near plane.
    pub near: S,
    /// The distance along the negative `z` axis of the far plane.
    pub far: S,
}

/// A perspective projection described by a vertical field-of-view angle, an
/// aspect ratio, and the near and far planes; the frustum is symmetric.
#[derive(Clone, Copy, Debug, PartialEq, Eq, Hash)]
pub struct PerspectiveFovSpec<S> {
    /// The vertical field-of-view angle of the viewport.
    pub fovy: Radians<S>,
    /// The ratio of the viewport width to the viewport height.
    pub aspect: S,
    /// The distance along the negative `z` axis of the near plane.
    pub near: S,
    /// The distance along the negative `z` axis of the far plane.
    pub far: S,
}

/// An orthographic projection described by arbitrary `left`, `right`,
/// `bottom`, `top`, `near` and `far` planes. A useful projection satisfies
/// `left < right`, `bottom < top` and `0 < near < far`.
#[derive(Clone, Copy, Debug, PartialEq, Eq, Hash)]
pub struct OrthographicSpec<S> {
    /// The horizontal position of the left-hand plane in camera space.
    pub left: S,
    /// The horizontal position of the right-hand plane in camera space.
    pub right: S,
    /// The vertical position of the bottom plane in camera space.
    pub bottom: S,
    /// The vertical position of the top plane in camera space.
    pub top: S,
    /// The distance along the negative `z` axis of the near plane.
    pub near: S,
    /// The distance along the negative `z` axis of the far plane.
    pub far: S,
}

/// An orthographic projection described by a vertical field-of-view angle,
/// an aspect ratio, and the near and far planes. The extent of the view
/// volume is derived from the far plane.
#[derive(Clone, Copy, Debug, PartialEq, Eq, Hash)]
pub struct OrthographicFovSpec<S> {
    /// The vertical field-of-view angle of the viewport.
    pub fovy: Radians<S>,
    /// The ratio of the viewport width to the viewport height.
    pub aspect: S,
    /// The distance along the negative `z` axis of the near plane.
    pub near: S,
    /// The distance along the negative `z` axis of the far plane.
    pub far: S,
}

impl<S> PerspectiveSpec<S> {
    /// Construct a new perspective specification from its six planes.
    pub fn new(left: S, right: S, bottom: S, top: S, near: S, far: S) -> (r: PerspectiveSpec<S>)
        ensures
            r.left == left,
            r.right == right,
            r.bottom == bottom,
            r.top == top,
            r.near == near,
            r.far == far,
    {
        PerspectiveSpec { left, right, bottom, top, near, far }
    }
}

impl<S> PerspectiveFovSpec<S> {
    /// Construct a new perspective specification from a vertical
    /// field-of-view angle, an aspect ratio and the near and far planes.
    pub fn new(fovy: Radians<S>, aspect: S, near: S, far: S) -> (r: PerspectiveFovSpec<S>)
        ensures
            r.fovy == fovy,
            r.aspect == aspect,
            r.near == near,
            r.far == far,
    {
        PerspectiveFovSpec { fovy, aspect, near, far }
    }
}

impl<S> OrthographicSpec<S> {
    /// Construct a new orthographic specification from its six planes.
    pub fn new(left: S, right: S, bottom: S, top: S, near: S, far: S) -> (r: OrthographicSpec<S>)
        ensures
            r.left == left,
            r.right == right,
            r.bottom == bottom,
            r.top == top,
            r.near == near,
            r.far == far,
    {
        OrthographicSpec { left, right, bottom, top, near, far }
    }
}

impl<S> OrthographicFovSpec<S> {
    /// Construct a new orthographic specification from a vertical
    /// field-of-view angle, an aspect ratio and the near and far planes.
    pub fn new(fovy: Radians<S>, aspect: S, near: S, far: S) -> (r: OrthographicFovSpec<S>)
        ensures
            r.fovy == fovy,
            r.aspect == aspect,
            r.near == near,
            r.far == far,
    {
        OrthographicFovSpec { fovy, aspect, near, far }
    }
}

impl<S: ScalarFloat> PerspectiveSpec<S> {
    /// The plane-based specification of a field-of-view specification, at
    /// the specification level: the top plane is `near` times the tangent
    /// of half the field-of-view angle, and the frustum is symmetric.
    pub open spec fn sfrom_fov(fov: PerspectiveFovSpec<S>) -> PerspectiveSpec<S> {
        let two = S::sone().sadd(S::sone());
        let tan_half = fov.fovy.0.sdiv(two).stan();
        let top = fov.near.smul(tan_half);
        let right = fov.aspect.smul(top);
        PerspectiveSpec {
            left: right.sneg(),
            right: right,
            bottom: top.sneg(),
            top: top,
            near: fov.near,
            far: fov.far,
        }
    }

    /// The closed-form inverse of the perspective projection matrix, at the
    /// specification level, built directly from the six planes.
    pub open spec fn sinverse_matrix(self) -> Matrix4x4<S> {
        let two = S::sone().sadd(S::sone());
        let c0r0 = self.right.ssub(self.left).sdiv(two.smul(self.near));
        let c1r1 = self.top.ssub(self.bottom).sdiv(two.smul(self.near));
        let c2r3 = self.near.ssub(self.far).sdiv(two.smul(self.far).smul(self.near));
        let c3r0 = self.left.sadd(self.right).sdiv(two.smul(self.near));
        let c3r1 = self.bottom.sadd(self.top).sdiv(two.smul(self.near));
        let c3r3 = self.far.sadd(self.near).sdiv(two.smul(self.far).smul(self.near));
        Matrix4x4 {
            c0r0: c0r0,
            c0r1: S::szero(),
            c0r2: S::szero(),
            c0r3: S::szero(),
            c1r0: S::szero(),
            c1r1: c1r1,
            c1r2: S::szero(),
            c1r3: S::szero(),
            c2r0: S::szero(),
            c2r1: S::szero(),
            c2r2: S::szero(),
            c2r3: c2r3,
            c3r0: c3r0,
            c3r1: c3r1,
            c3r2: S::sone().sneg(),
            c3r3: c3r3,
        }
    }

    /// Build the closed-form inverse of the perspective projection matrix
    /// directly from the six planes.
    pub fn inverse_matrix(&self) -> (r: Matrix4x4<S>)
        ensures
            r == self.sinverse_matrix(),
    {
        let two: S = S::one().plus(S::one());
        let c0r0: S = self.right.minus(self.left).divide(two.times(self.near));
        let c1r1: S = self.top.minus(self.bottom).divide(two.times(self.near));
        let c2r3: S = self.near.minus(self.far).divide(two.times(self.far).times(self.near));
        let c3r0: S = self.left.plus(self.right).divide(two.times(self.near));
        let c3r1: S = self.bottom.plus(self.top).divide(two.times(self.near));
        let c3r3: S = self.far.plus(self.near).divide(two.times(self.far).times(self.near));
        Matrix4x4 {
            c0r0: c0r0,
            c0r1: S::zero(),
            c0r2: S::zero(),
            c0r3: S::zero(),
            c1r0: S::zero(),
            c1r1: c1r1,
            c1r2: S::zero(),
            c1r3: S::zero(),
            c2r0: S::zero(),
            c2r1: S::zero(),
            c2r2: S::zero(),
            c2r3: c2r3,
            c3r0: c3r0,
            c3r1: c3r1,
            c3r2: S::one().negate(),
            c3r3: c3r3,
        }
    }
}

impl<S: ScalarFloat> From<PerspectiveFovSpec<S>> for PerspectiveSpec<S> {
    fn from(fov: PerspectiveFovSpec<S>) -> PerspectiveSpec<S> {
        let two: S = S::one().plus(S::one());
        let tan_half: S = fov.fovy.0.divide(two).tan();
        let top: S = fov.near.times(tan_half);
        let right: S = fov.aspect.times(top);
        PerspectiveSpec {
            left: right.negate(),
            right: right,
            bottom: top.negate(),
            top: top,
            near: fov.near,
            far: fov.far,
        }
    }
}

impl<S: ScalarFloat> vstd::std_specs::convert::FromSpecImpl<PerspectiveFovSpec<S>>
    for PerspectiveSpec<S> {
    open spec fn obeys_from_spec() -> bool {
        true
    }

    open spec fn from_spec(fov: PerspectiveFovSpec<S>) -> PerspectiveSpec<S> {
        PerspectiveSpec::sfrom_fov(fov)
    }
}

impl<S: ScalarFloat> OrthographicSpec<S> {
    /// The closed-form inverse of the orthographic projection matrix, at
    /// the specification level, built directly from the six planes.
    pub open spec fn sinverse_matrix(self) -> Matrix4x4<S> {
        let two = S::sone().sadd(S::sone());
        let one_half = S::sone().sdiv(two);
        Matrix4x4 {
            c0r0: one_half.smul(self.right.ssub(self.left)),
            c0r1: S::szero(),
            c0r2: S::szero(),
            c0r3: S::szero(),
            c1r0: S::szero(),
            c1r1: one_half.smul(self.top.ssub(self.bottom)),
            c1r2: S::szero(),
            c1r3: S::szero(),
            c2r0: S::szero(),
            c2r1: S::szero(),
            c2r2: one_half.smul(self.far.ssub(self.near)).sneg(),
            c2r3: S::szero(),
            c3r0: one_half.smul(self.left.sadd(self.right)),
            c3r1: one_half.smul(self.bottom.sadd(self.top)),
            c3r2: one_half.smul(self.far.sadd(self.near)).sneg(),
            c3r3: S::sone(),
        }
    }

    /// Build the closed-form inverse of the orthographic projection matrix
    /// directly from the six planes.
    pub fn inverse_matrix(&self) -> (r: Matrix4x4<S>)
        ensures
            r == self.sinverse_matrix(),
    {
        let two: S = S::one().plus(S::one());
        let one_half: S = S::one().divide(two);
        Matrix4x4 {
            c0r0: one_half.times(self.right.minus(self.left)),
            c0r1: S::zero(),
            c0r2: S::zero(),
            c0r3: S::zero(),
            c1r0: S::zero(),
            c1r1: one_half.times(self.top.minus(self.bottom)),
            c1r2: S::zero(),
            c1r3: S::zero(),
            c2r0: S::zero(),
            c2r1: S::zero(),
            c2r2: one_half.times(self.far.minus(self.near)).negate(),
            c2r3: S::zero(),
            c3r0: one_half.times(self.left.plus(self.right)),
            c3r1: one_half.times(self.bottom.plus(self.top)),
            c3r2: one_half.times(self.far.plus(self.near)).negate(),
            c3r3: S::one(),
        }
    }
}

impl<S: ScalarFloat> OrthographicFovSpec<S> {
    /// The closed-form inverse of the orthographic projection matrix of a
    /// field-of-view specification, at the specification level: the extent
    /// of the view volume is derived from the far plane.
    pub open spec fn sinverse_matrix(self) -> Matrix4x4<S> {
        let two = S::sone().sadd(S::sone());
        let one_half = S::sone().sdiv(two);
        let width = self.far.smul(self.fovy.0.smul(one_half).stan());
        let height = width.sdiv(self.aspect);
        let right = width.smul(one_half);
        let top = height.smul(one_half);
        OrthographicSpec {
            left: right.sneg(),
            right: right,
            bottom: top.sneg(),
            top: top,
            near: self.near,
            far: self.far,
        }.sinverse_matrix()
    }

    /// Build the closed-form inverse of the orthographic projection matrix
    /// of a field-of-view specification.
    pub fn inverse_matrix(&self) -> (r: Matrix4x4<S>)
        ensures
            r == self.sinverse_matrix(),
    {
        let two: S = S::one().plus(S::one());
        let one_half: S = S::one().divide(two);
        let width: S = self.far.times(self.fovy.0.times(one_half).tan());
        let height: S = width.divide(self.aspect);
        let right: S = width.times(one_half);
        let top: S = height.times(one_half);
        let planes: OrthographicSpec<S> = OrthographicSpec {
            left: right.negate(),
            right: right,
            bottom: top.negate(),
            top: top,
            near: self.near,
            far: self.far,
        };
        planes.inverse_matrix()
    }
}

/// A perspective projection transformation, pairing its specification with the
/// projection matrix derived from it, computed once at construction.
#[derive(Clone, Copy, Debug, PartialEq, Eq, Hash)]
pub struct PerspectiveProjection3<S> {
    /// The parameters of the projection.
    pub params: PerspectiveSpec<S>,
    /// The matrix derived from the parameters at construction.
    pub matrix: Matrix4x4<S>,
}

impl<S: ScalarFloat> PerspectiveProjection3<S> {
    /// Construct a new projection transformation, deriving and caching its
    /// matrix.
    pub fn new(params: PerspectiveSpec<S>) -> (r: PerspectiveProjection3<S>)
        ensures
            r.params == params,
            r.matrix == Matrix4x4::<S>::sfrom_perspective(params.left, params.right, params.bottom, params.top, params.near, params.far),
    {
        PerspectiveProjection3 { params, matrix: Matrix4x4::from_perspective(params.left, params.right, params.bottom, params.top, params.near, params.far) }
    }

    /// Read the specification the projection was built from.
    pub fn spec(&self) -> (r: PerspectiveSpec<S>)
        ensures
            r == self.params,
    {
        self.params
    }

    /// Read the matrix that implements the projection.
    pub fn to_matrix(&self) -> (r: &Matrix4x4<S>)
        ensures
            *r == self.matrix,
    {
        &self.matrix
    }

    /// The projection of a point, at the specification level: the cached
    /// matrix applied in homogeneous coordinates, with a divide by the
    /// resulting homogeneous coordinate.
    pub open spec fn sproject_point(self, point: Point3<S>) -> Point3<S> {
        let h = self.matrix.smulv(
            Vector4 { x: point.x, y: point.y, z: point.z, w: S::sone() },
        );
        let w_inv = S::sone().sdiv(h.w);
        Point3 { x: h.x.smul(w_inv), y: h.y.smul(w_inv), z: h.z.smul(w_inv) }
    }

    /// Apply the projection to a point.
    pub fn project_point(&self, point: &Point3<S>) -> (r: Point3<S>)
        ensures
            r == self.sproject_point(*point),
    {
        Point3::from_homogeneous(self.matrix * point.to_homogeneous())
    }

    /// The projection of a vector, at the specification level.
    pub open spec fn sproject_vector(self, vector: Vector3<S>) -> Vector3<S> {
        let pv = self.matrix.smulv(
            Vector4 { x: vector.x, y: vector.y, z: vector.z, w: S::sone() },
        );
        let w_inv = S::sone().sdiv(pv.w);
        Vector3 { x: pv.x.smul(w_inv), y: pv.y.smul(w_inv), z: pv.z.smul(w_inv) }
    }

    /// Apply the projection to a vector.
    pub fn project_vector(&self, vector: &Vector3<S>) -> (r: Vector3<S>)
        ensures
            r == self.sproject_vector(*vector),
    {
        let pv: Vector4<S> = self.matrix * vector.extend(S::one());
        let w_inv: S = S::one().divide(pv.w);
        (pv * w_inv).contract()
    }

    /// The unprojection of a point, at the specification level: the
    /// closed-form inverse matrix built from the parameters, applied in
    /// homogeneous coordinates.
    pub open spec fn sunproject_point(self, point: Point3<S>) -> Point3<S> {
        let inverse = self.params.sinverse_matrix();
        let h = inverse.smulv(
            Vector4 { x: point.x, y: point.y, z: point.z, w: S::sone() },
        );
        let w_inv = S::sone().sdiv(h.w);
        Point3 { x: h.x.smul(w_inv), y: h.y.smul(w_inv), z: h.z.smul(w_inv) }
    }

    /// Unproject a point from normalized device coordinates back to camera
    /// space: the inverse operation of [`PerspectiveProjection3::project_point`], computed
    /// from the closed-form inverse matrix rather than generic matrix
    /// inversion.
    pub fn unproject_point(&self, point: &Point3<S>) -> (r: Point3<S>)
        ensures
            r == self.sunproject_point(*point),
    {
        let inverse: Matrix4x4<S> = self.params.inverse_matrix();
        Point3::from_homogeneous(inverse * point.to_homogeneous())
    }

    /// The unprojection of a vector, at the specification level.
    pub open spec fn sunproject_vector(self, vector: Vector3<S>) -> Vector3<S> {
        let inverse = self.params.sinverse_matrix();
        let uv = inverse.smulv(
            Vector4 { x: vector.x, y: vector.y, z: vector.z, w: S::sone() },
        );
        let w_inv = S::sone().sdiv(uv.w);
        Vector3 { x: uv.x.smul(w_inv), y: uv.y.smul(w_inv), z: uv.z.smul(w_inv) }
    }

    /// Unproject a vector from normalized device coordinates back to
    /// camera space: the inverse operation of [`PerspectiveProjection3::project_vector`].
    pub fn unproject_vector(&self, vector: &Vector3<S>) -> (r: Vector3<S>)
        ensures
            r == self.sunproject_vector(*vector),
    {
        let inverse: Matrix4x4<S> = self.params.inverse_matrix();
        let uv: Vector4<S> = inverse * vector.extend(S::one());
        let w_inv: S = S::one().divide(uv.w);
        uv.contract() * w_inv
    }
}

/// A perspective projection transformation, pairing its specification with the
/// projection matrix derived from it, computed once at construction.
#[derive(Clone, Copy, Debug, PartialEq, Eq, Hash)]
pub struct PerspectiveFovProjection3<S> {
    /// The parameters of the projection.
    pub params: PerspectiveFovSpec<S>,
    /// The matrix derived from the parameters at construction.
    pub matrix: Matrix4x4<S>,
}

impl<S: ScalarFloat> PerspectiveFovProjection3<S> {
    /// Construct a new projection transformation, deriving and caching its
    /// matrix.
    pub fn new(params: PerspectiveFovSpec<S>) -> (r: PerspectiveFovProjection3<S>)
        ensures
            r.params == params,
            r.matrix == Matrix4x4::<S>::sfrom_perspective_fov(params.fovy, params.aspect, params.near, params.far),
    {
        PerspectiveFovProjection3 { params, matrix: Matrix4x4::from_perspective_fov(params.fovy, params.aspect, params.near, params.far) }
    }

    /// Read the specification the projection was built from.
    pub fn spec(&self) -> (r: PerspectiveFovSpec<S>)
        ensures
            r == self.params,
    {
        self.params
    }

    /// Read the matrix that implements the projection.
    pub fn to_matrix(&self) -> (r: &Matrix4x4<S>)
        ensures
            *r == self.matrix,
    {
        &self.matrix
    }

    /// The projection of a point, at the specification level: the cached
    /// matrix applied in homogeneous coordinates, with a divide by the
    /// resulting homogeneous coordinate.
    pub open spec fn sproject_point(self, point: Point3<S>) -> Point3<S> {
        let h = self.matrix.smulv(
            Vector4 { x: point.x, y: point.y, z: point.z, w: S::sone() },
        );
        let w_inv = S::sone().sdiv(h.w);
        Point3 { x: h.x.smul(w_inv), y: h.y.smul(w_inv), z: h.z.smul(w_inv) }
    }

    /// Apply the projection to a point.
    pub fn project_point(&self, point: &Point3<S>) -> (r: Point3<S>)
        ensures
            r == self.sproject_point(*point),
    {
        Point3::from_homogeneous(self.matrix * point.to_homogeneous())
    }

    /// The projection of a vector, at the specification level.
    pub open spec fn sproject_vector(self, vector: Vector3<S>) -> Vector3<S> {
        let pv = self.matrix.smulv(
            Vector4 { x: vector.x, y: vector.y, z: vector.z, w: S::sone() },
        );
        let w_inv = S::sone().sdiv(pv.w);
        Vector3 { x: pv.x.smul(w_inv), y: pv.y.smul(w_inv), z: pv.z.smul(w_inv) }
    }

    /// Apply the projection to a vector.
    pub fn project_vector(&self, vector: &Vector3<S>) -> (r: Vector3<S>)
        ensures
            r == self.sproject_vector(*vector),
    {
        let pv: Vector4<S> = self.matrix * vector.extend(S::one());
        let w_inv: S = S::one().divide(pv.w);
        (pv * w_inv).contract()
    }

    /// The unprojection of a point, at the specification level: the
    /// closed-form inverse matrix built from the parameters, applied in
    /// homogeneous coordinates.
    pub open spec fn sunproject_point(self, point: Point3<S>) -> Point3<S> {
        let inverse = PerspectiveSpec::sfrom_fov(self.params).sinverse_matrix();
        let h = inverse.smulv(
            Vector4 { x: point.x, y: point.y, z: point.z, w: S::sone() },
        );
        let w_inv = S::sone().sdiv(h.w);
        Point3 { x: h.x.smul(w_inv), y: h.y.smul(w_inv), z: h.z.smul(w_inv) }
    }

    /// Unproject a point from normalized device coordinates back to camera
    /// space: the inverse operation of [`PerspectiveFovProjection3::project_point`], computed
    /// from the closed-form inverse matrix rather than generic matrix
    /// inversion.
    pub fn unproject_point(&self, point: &Point3<S>) -> (r: Point3<S>)
        ensures
            r == self.sunproject_point(*point),
    {
        let planes: PerspectiveSpec<S> = PerspectiveSpec::from(self.params);
        let inverse: Matrix4x4<S> = planes.inverse_matrix();
        Point3::from_homogeneous(inverse * point.to_homogeneous())
    }

    /// The unprojection of a vector, at the specification level.
    pub open spec fn sunproject_vector(self, vector: Vector3<S>) -> Vector3<S> {
        let inverse = PerspectiveSpec::sfrom_fov(self.params).sinverse_matrix();
        let uv = inverse.smulv(
            Vector4 { x: vector.x, y: vector.y, z: vector.z, w: S::sone() },
        );
        let w_inv = S::sone().sdiv(uv.w);
        Vector3 { x: uv.x.smul(w_inv), y: uv.y.smul(w_inv), z: uv.z.smul(w_inv) }
    }

    /// Unproject a vector from normalized device coordinates back to
    /// camera space: the inverse operation of [`PerspectiveFovProjection3::project_vector`].
    pub fn unproject_vector(&self, vector: &Vector3<S>) -> (r: Vector3<S>)
        ensures
            r == self.sunproject_vector(*vector),
    {
        let planes: PerspectiveSpec<S> = PerspectiveSpec::from(self.params);
        let inverse: Matrix4x4<S> = planes.inverse_matrix();
        let uv: Vector4<S> = inverse * vector.extend(S::one());
        let w_inv: S = S::one().divide(uv.w);
        uv.contract() * w_inv
    }
}

/// A orthographic projection transformation, pairing its specification with the
/// projection matrix derived from it, computed once at construction.
#[derive(Clone, Copy, Debug, PartialEq, Eq, Hash)]
pub struct OrthographicProjection3<S> {
    /// The parameters of the projection.
    pub params: OrthographicSpec<S>,
    /// The matrix derived from the parameters at construction.
    pub matrix: Matrix4x4<S>,
}

impl<S: ScalarFloat> OrthographicProjection3<S> {
    /// Construct a new projection transformation, deriving and caching its
    /// matrix.
    pub fn new(params: OrthographicSpec<S>) -> (r: OrthographicProjection3<S>)
        ensures
            r.params == params,
            r.matrix == Matrix4x4::<S>::sfrom_orthographic(params.left, params.right, params.bottom, params.top, params.near, params.far),
    {
        OrthographicProjection3 { params, matrix: Matrix4x4::from_orthographic(params.left, params.right, params.bottom, params.top, params.near, params.far) }
    }

    /// Read the specification the projection was built from.
    pub fn to_spec(&self) -> (r: OrthographicSpec<S>)
        ensures
            r == self.params,
    {
        self.params
    }

    /// Read the matrix that implements the projection.
    pub fn to_matrix(&self) -> (r: &Matrix4x4<S>)
        ensures
            *r == self.matrix,
    {
        &self.matrix
    }

    /// The projection of a point, at the specification level: the cached
    /// matrix applied in homogeneous coordinates, with a divide by the
    /// resulting homogeneous coordinate.
    pub open spec fn sproject_point(self, point: Point3<S>) -> Point3<S> {
        let h = self.matrix.smulv(
            Vector4 { x: point.x, y: point.y, z: point.z, w: S::sone() },
        );
        let w_inv = S::sone().sdiv(h.w);
        Point3 { x: h.x.smul(w_inv), y: h.y.smul(w_inv), z: h.z.smul(w_inv) }
    }

    /// Apply the projection to a point.
    pub fn project_point(&self, point: &Point3<S>) -> (r: Point3<S>)
        ensures
            r == self.sproject_point(*point),
    {
        Point3::from_homogeneous(self.matrix * point.to_homogeneous())
    }

    /// The projection of a vector, at the specification level.
    pub open spec fn sproject_vector(self, vector: Vector3<S>) -> Vector3<S> {
        let pv = self.matrix.smulv(
            Vector4 { x: vector.x, y: vector.y, z: vector.z, w: S::szero() },
        );
        Vector3 { x: pv.x, y: pv.y, z: pv.z }
    }

    /// Apply the projection to a vector.
    pub fn project_vector(&self, vector: &Vector3<S>) -> (r: Vector3<S>)
        ensures
            r == self.sproject_vector(*vector),
    {
        let pv: Vector4<S> = self.matrix * vector.extend(S::zero());
        pv.contract()
    }

    /// The unprojection of a point, at the specification level: the
    /// closed-form inverse matrix built from the parameters, applied in
    /// homogeneous coordinates.
    pub open spec fn sunproject_point(self, point: Point3<S>) -> Point3<S> {
        let inverse = self.params.sinverse_matrix();
        let h = inverse.smulv(
            Vector4 { x: point.x, y: point.y, z: point.z, w: S::sone() },
        );
        let w_inv = S::sone().sdiv(h.w);
        Point3 { x: h.x.smul(w_inv), y: h.y.smul(w_inv), z: h.z.smul(w_inv) }
    }

    /// Unproject a point from normalized device coordinates back to camera
    /// space: the inverse operation of [`OrthographicProjection3::project_point`], computed
    /// from the closed-form inverse matrix rather than generic matrix
    /// inversion.
    pub fn unproject_point(&self, point: &Point3<S>) -> (r: Point3<S>)
        ensures
            r == self.sunproject_point(*point),
    {
        let inverse: Matrix4x4<S> = self.params.inverse_matrix();
        Point3::from_homogeneous(inverse * point.to_homogeneous())
    }

    /// The unprojection of a vector, at the specification level.
    pub open spec fn sunproject_vector(self, vector: Vector3<S>) -> Vector3<S> {
        let inverse = self.params.sinverse_matrix();
        let uv = inverse.smulv(
            Vector4 { x: vector.x, y: vector.y, z: vector.z, w: S::szero() },
        );
        Vector3 { x: uv.x, y: uv.y, z: uv.z }
    }

    /// Unproject a vector from normalized device coordinates back to
    /// camera space: the inverse operation of [`OrthographicProjection3::project_vector`].
    pub fn unproject_vector(&self, vector: &Vector3<S>) -> (r: Vector3<S>)
        ensures
            r == self.sunproject_vector(*vector),
    {
        let inverse: Matrix4x4<S> = self.params.inverse_matrix();
        let uv: Vector4<S> = inverse * vector.extend(S::zero());
        uv.contract()
    }
}

/// A orthographic projection transformation, pairing its specification with the
/// projection matrix derived from it, computed once at construction.
#[derive(Clone, Copy, Debug, PartialEq, Eq, Hash)]
pub struct OrthographicFovProjection3<S> {
    /// The parameters of the projection.
    pub params: OrthographicFovSpec<S>,
    /// The matrix derived from the parameters at construction.
    pub matrix: Matrix4x4<S>,
}

impl<S: ScalarFloat> OrthographicFovProjection3<S> {
    /// Construct a new projection transformation, deriving and caching its
    /// matrix.
    pub fn new(params: OrthographicFovSpec<S>) -> (r: OrthographicFovProjection3<S>)
        ensures
            r.params == params,
            r.matrix == Matrix4x4::<S>::sfrom_orthographic_fov(params.fovy, params.aspect, params.near, params.far),
    {
        OrthographicFovProjection3 { params, matrix: Matrix4x4::from_orthographic_fov(params.fovy, params.aspect, params.near, params.far) }
    }

    /// Read the specification the projection was built from.
    pub fn to_spec(&self) -> (r: OrthographicFovSpec<S>)
        ensures
            r == self.params,
    {
        self.params
    }

    /// Read the matrix that implements the projection.
    pub fn to_matrix(&self) -> (r: &Matrix4x4<S>)
        ensures
            *r == self.matrix,
    {
        &self.matrix
    }

    /// The projection of a point, at the specification level: the cached
    /// matrix applied in homogeneous coordinates, with a divide by the
    /// resulting homogeneous coordinate.
    pub open spec fn sproject_point(self, point: Point3<S>) -> Point3<S> {
        let h = self.matrix.smulv(
            Vector4 { x: point.x, y: point.y, z: point.z, w: S::sone() },
        );
        let w_inv = S::sone().sdiv(h.w);
        Point3 { x: h.x.smul(w_inv), y: h.y.smul(w_inv), z: h.z.smul(w_inv) }
    }

    /// Apply the projection to a point.
    pub fn project_point(&self, point: &Point3<S>) -> (r: Point3<S>)
        ensures
            r == self.sproject_point(*point),
    {
        Point3::from_homogeneous(self.matrix * point.to_homogeneous())
    }

    /// The projection of a vector, at the specification level.
    pub open spec fn sproject_vector(self, vector: Vector3<S>) -> Vector3<S> {
        let pv = self.matrix.smulv(
            Vector4 { x: vector.x, y: vector.y, z: vector.z, w: S::szero() },
        );
        Vector3 { x: pv.x, y: pv.y, z: pv.z }
    }

    /// Apply the projection to a vector.
    pub fn project_vector(&self, vector: &Vector3<S>) -> (r: Vector3<S>)
        ensures
            r == self.sproject_vector(*vector),
    {
        let pv: Vector4<S> = self.matrix * vector.extend(S::zero());
        pv.contract()
    }

    /// The unprojection of a point, at the specification level: the
    /// closed-form inverse matrix built from the parameters, applied in
    /// homogeneous coordinates.
    pub open spec fn sunproject_point(self, point: Point3<S>) -> Point3<S> {
        let inverse = self.params.sinverse_matrix();
        let h = inverse.smulv(
            Vector4 { x: point.x, y: point.y, z: point.z, w: S::sone() },
        );
        let w_inv = S::sone().sdiv(h.w);
        Point3 { x: h.x.smul(w_inv), y: h.y.smul(w_inv), z: h.z.smul(w_inv) }
    }

    /// Unproject a point from normalized device coordinates back to camera
    /// space: the inverse operation of [`OrthographicFovProjection3::project_point`], computed
    /// from the closed-form inverse matrix rather than generic matrix
    /// inversion.
    pub fn unproject_point(&self, point: &Point3<S>) -> (r: Point3<S>)
        ensures
            r == self.sunproject_point(*point),
    {
        let inverse: Matrix4x4<S> = self.params.inverse_matrix();
        Point3::from_homogeneous(inverse * point.to_homogeneous())
    }

    /// The unprojection of a vector, at the specification level.
    pub open spec fn sunproject_vector(self, vector: Vector3<S>) -> Vector3<S> {
        let inverse = self.params.sinverse_matrix();
        let uv = inverse.smulv(
            Vector4 { x: vector.x, y: vector.y, z: vector.z, w: S::szero() },
        );
        Vector3 { x: uv.x, y: uv.y, z: uv.z }
    }

    /// Unproject a vector from normalized device coordinates back to
    /// camera space: the inverse operation of [`OrthographicFovProjection3::project_vector`].
    pub fn unproject_vector(&self, vector: &Vector3<S>) -> (r: Vector3<S>)
        ensures
            r == self.sunproject_vector(*vector),
    {
        let inverse: Matrix4x4<S> = self.params.inverse_matrix();
        let uv: Vector4<S> = inverse * vector.extend(S::zero());
        uv.contract()
    }
}

impl<S: ScalarFloat> OrthographicSpec<S> {
    /// The plane-based specification of an orthographic field-of-view
    /// specification, at the specification level: the width of the view
    /// volume is the far plane times the tangent of half the field-of-view
    /// angle, so the extent is derived from the far plane rather than the
    /// near plane.
    pub open spec fn sfrom_fov(fov: OrthographicFovSpec<S>) -> OrthographicSpec<S> {
        let two = S::sone().sadd(S::sone());
        let one_half = S::sone().sdiv(two);
        let width = fov.far.smul(fov.fovy.0.smul(one_half).stan());
        let height = width.sdiv(fov.aspect);
        let right = width.smul(one_half);
        let top = height.smul(one_half);
        OrthographicSpec {
            left: right.sneg(),
            right: right,
            bottom: top.sneg(),
            top: top,
            near: fov.near,
            far: fov.far,
        }
    }
}

impl<S: ScalarFloat> From<OrthographicFovSpec<S>> for OrthographicSpec<S> {
    fn from(fov: OrthographicFovSpec<S>) -> OrthographicSpec<S> {
        let two: S = S::one().plus(S::one());
        let one_half: S = S::one().divide(two);
        let width: S = fov.far.times(fov.fovy.0.times(one_half).tan());
        let height: S = width.divide(fov.aspect);
        let right: S = width.times(one_half);
        let top: S = height.times(one_half);
        OrthographicSpec {
            left: right.negate(),
            right: right,
            bottom: top.negate(),
            top: top,
            near: fov.near,
            far: fov.far,
        }
    }
}

impl<S: ScalarFloat> vstd::std_specs::convert::FromSpecImpl<OrthographicFovSpec<S>>
    for OrthographicSpec<S> {
    open spec fn obeys_from_spec() -> bool {
        true
    }

    open spec fn from_spec(fov: OrthographicFovSpec<S>) -> OrthographicSpec<S> {
        OrthographicSpec::sfrom_fov(fov)
    }
}

} // verus!
