//! Quaternions: a scalar part and a three-component vector part,
//! representing three-dimensional rotations in the double-cover sense (a
//! quaternion and its negation stand for the same rotation).

use crate::angle::Radians;
use crate::matrix::Matrix3x3;
use crate::scalar::One;
use crate::scalar::Scalar;
use crate::scalar::ScalarFloat;
use crate::vector::Vector3;
use vstd::prelude::*;

verus! {

/// A quaternion, stored as a scalar part and a vector part.
#[derive(Clone, Copy, Debug, PartialEq, Eq, Hash)]
pub struct Quaternion<S> {
    /// The scalar part of the quaternion.
    pub s: S,
    /// The vector part of the quaternion.
    pub v: Vector3<S>,
}

impl<S> Quaternion<S> {
    /// Construct a quaternion from its scalar part and the three components
    /// of its vector part.
    pub fn new(s: S, x: S, y: S, z: S) -> (r: Quaternion<S>)
        ensures
            r.s == s,
            r.v.x == x,
            r.v.y == y,
            r.v.z == z,
    {
        Quaternion { s, v: Vector3 { x, y, z } }
    }

    /// Construct a quaternion from its scalar part and its vector part.
    pub fn from_sv(s: S, v: Vector3<S>) -> (r: Quaternion<S>)
        ensures
            r.s == s,
            r.v == v,
    {
        Quaternion { s, v }
    }
}

impl<S: Scalar> Quaternion<S> {
    /// The conjugate of a quaternion, at the specification level: the
    /// vector part is negated.
    pub open spec fn sconjugate(self) -> Quaternion<S> {
        Quaternion { s: self.s, v: self.v.svneg() }
    }

    /// The squared magnitude of a quaternion, at the specification level.
    pub open spec fn smagnitude_squared(self) -> S {
        self.s.smul(self.s).sadd(self.v.sdot(self.v))
    }

    /// The quotient of a quaternion by a scalar, at the specification
    /// level.
    pub open spec fn sqdivs(self, factor: S) -> Quaternion<S> {
        Quaternion { s: self.s.sdiv(factor), v: self.v.svdiv(factor) }
    }

    /// The product of a quaternion and a scalar, at the specification
    /// level.
    pub open spec fn sqmuls(self, factor: S) -> Quaternion<S> {
        Quaternion { s: self.s.smul(factor), v: self.v.svmul(factor) }
    }

    /// The Hamilton product of two quaternions, at the specification level.
    pub open spec fn sqmul(self, other: Quaternion<S>) -> Quaternion<S> {
        Quaternion {
            s: self.s.smul(other.s).ssub(self.v.x.smul(other.v.x)).ssub(
                self.v.y.smul(other.v.y),
            ).ssub(self.v.z.smul(other.v.z)),
            v: Vector3 {
                x: self.s.smul(other.v.x).sadd(self.v.x.smul(other.s)).sadd(
                    self.v.y.smul(other.v.z),
                ).ssub(self.v.z.smul(other.v.y)),
                y: self.s.smul(other.v.y).sadd(self.v.y.smul(other.s)).sadd(
                    self.v.z.smul(other.v.x),
                ).ssub(self.v.x.smul(other.v.z)),
                z: self.s.smul(other.v.z).sadd(self.v.z.smul(other.s)).sadd(
                    self.v.x.smul(other.v.y),
                ).ssub(self.v.y.smul(other.v.x)),
            },
        }
    }

    /// Compute the conjugate of a quaternion.
    pub fn conjugate(self) -> (r: Quaternion<S>)
        ensures
            r == self.sconjugate(),
    {
        Quaternion { s: self.s, v: self.v.negated() }
    }

    /// Compute the squared magnitude of a quaternion.
    pub fn magnitude_squared(self) -> (r: S)
        ensures
            r == self.smagnitude_squared(),
    {
        self.s.times(self.s).plus(self.v.dot(self.v))
    }

    /// Compute the dot product of two quaternions, taken as
    /// four-component vectors.
    pub fn dot(self, other: Quaternion<S>) -> (r: S)
        ensures
            r == self.s.smul(other.s).sadd(self.v.sdot(other.v)),
    {
        self.s.times(other.s).plus(self.v.dot(other.v))
    }

    /// Compute the inverse of a quaternion: the conjugate divided by the
    /// squared magnitude. This form is correct for quaternions of any
    /// magnitude, not only unit ones.
    pub fn inverse(self) -> (r: Quaternion<S>)
        ensures
            r == self.sconjugate().sqdivs(self.smagnitude_squared()),
    {
        let m2: S = self.magnitude_squared();
        let c: Quaternion<S> = self.conjugate();
        Quaternion { s: c.s.divide(m2), v: c.v.divide_scalar(m2) }
    }
}

impl<S: Scalar> One for Quaternion<S> {
    open spec fn sone() -> Quaternion<S> {
        Quaternion {
            s: S::sone(),
            v: Vector3 { x: S::szero(), y: S::szero(), z: S::szero() },
        }
    }

    fn one() -> (r: Quaternion<S>) {
        Quaternion {
            s: S::one(),
            v: Vector3 { x: S::zero(), y: S::zero(), z: S::zero() },
        }
    }

    fn is_one(&self) -> (r: bool) {
        self.s.is_one() && self.v.x.is_zero() && self.v.y.is_zero() && self.v.z.is_zero()
    }
}

impl<S: Scalar> core::ops::Add<Quaternion<S>> for Quaternion<S> {
    type Output = Quaternion<S>;

    fn add(self, other: Quaternion<S>) -> Quaternion<S> {
        Quaternion { s: self.s.plus(other.s), v: self.v + other.v }
    }
}

impl<S: Scalar> vstd::std_specs::ops::AddSpecImpl<Quaternion<S>> for Quaternion<S> {
    open spec fn obeys_add_spec() -> bool {
        true
    }

    open spec fn add_req(self, rhs: Quaternion<S>) -> bool {
        true
    }

    open spec fn add_spec(self, rhs: Quaternion<S>) -> Quaternion<S> {
        Quaternion { s: self.s.sadd(rhs.s), v: self.v.svadd(rhs.v) }
    }
}

impl<S: Scalar> core::ops::Sub<Quaternion<S>> for Quaternion<S> {
    type Output = Quaternion<S>;

    fn sub(self, other: Quaternion<S>) -> Quaternion<S> {
        Quaternion { s: self.s.minus(other.s), v: self.v - other.v }
    }
}

impl<S: Scalar> vstd::std_specs::ops::SubSpecImpl<Quaternion<S>> for Quaternion<S> {
    open spec fn obeys_sub_spec() -> bool {
        true
    }

    open spec fn sub_req(self, rhs: Quaternion<S>) -> bool {
        true
    }

    open spec fn sub_spec(self, rhs: Quaternion<S>) -> Quaternion<S> {
        Quaternion { s: self.s.ssub(rhs.s), v: self.v.svsub(rhs.v) }
    }
}

impl<S: Scalar> core::ops::Neg for Quaternion<S> {
    type Output = Quaternion<S>;

    fn neg(self) -> Quaternion<S> {
        Quaternion { s: self.s.negate(), v: self.v.negated() }
    }
}

impl<S: Scalar> vstd::std_specs::ops::NegSpecImpl for Quaternion<S> {
    open spec fn obeys_neg_spec() -> bool {
        true
    }

    open spec fn neg_req(self) -> bool {
        true
    }

    open spec fn neg_spec(self) -> Quaternion<S> {
        Quaternion { s: self.s.sneg(), v: self.v.svneg() }
    }
}

impl<S: Scalar> core::ops::Mul<Quaternion<S>> for Quaternion<S> {
    type Output = Quaternion<S>;

    fn mul(self, other: Quaternion<S>) -> Quaternion<S> {
        Quaternion {
            s: self.s.times(other.s).minus(self.v.x.times(other.v.x)).minus(
                self.v.y.times(other.v.y),
            ).minus(self.v.z.times(other.v.z)),
            v: Vector3 {
                x: self.s.times(other.v.x).plus(self.v.x.times(other.s)).plus(
                    self.v.y.times(other.v.z),
                ).minus(self.v.z.times(other.v.y)),
                y: self.s.times(other.v.y).plus(self.v.y.times(other.s)).plus(
                    self.v.z.times(other.v.x),
                ).minus(self.v.x.times(other.v.z)),
                z: self.s.times(other.v.z).plus(self.v.z.times(other.s)).plus(
                    self.v.x.times(other.v.y),
                ).minus(self.v.y.times(other.v.x)),
            },
        }
    }
}

impl<S: Scalar> vstd::std_specs::ops::MulSpecImpl<Quaternion<S>> for Quaternion<S> {
    open spec fn obeys_mul_spec() -> bool {
        true
    }

    open spec fn mul_req(self, rhs: Quaternion<S>) -> bool {
        true
    }

    open spec fn mul_spec(self, rhs: Quaternion<S>) -> Quaternion<S> {
        self.sqmul(rhs)
    }
}

impl<S: Scalar> core::ops::Mul<S> for Quaternion<S> {
    type Output = Quaternion<S>;

    fn mul(self, factor: S) -> Quaternion<S> {
        Quaternion { s: self.s.times(factor), v: self.v.times_scalar(factor) }
    }
}

impl<S: Scalar> vstd::std_specs::ops::MulSpecImpl<S> for Quaternion<S> {
    open spec fn obeys_mul_spec() -> bool {
        true
    }

    open spec fn mul_req(self, rhs: S) -> bool {
        true
    }

    open spec fn mul_spec(self, rhs: S) -> Quaternion<S> {
        self.sqmuls(rhs)
    }
}

impl<S: Scalar> core::ops::Div<S> for Quaternion<S> {
    type Output = Quaternion<S>;

    fn div(self, factor: S) -> Quaternion<S> {
        Quaternion { s: self.s.divide(factor), v: self.v.divide_scalar(factor) }
    }
}

impl<S: Scalar> vstd::std_specs::ops::DivSpecImpl<S> for Quaternion<S> {
    open spec fn obeys_div_spec() -> bool {
        true
    }

    open spec fn div_req(self, rhs: S) -> bool {
        true
    }

    open spec fn div_spec(self, rhs: S) -> Quaternion<S> {
        self.sqdivs(rhs)
    }
}

impl<S: ScalarFloat> Quaternion<S> {
    /// The magnitude of a quaternion, at the specification level.
    pub open spec fn smagnitude(self) -> S {
        self.smagnitude_squared().ssqrt()
    }

    /// The quaternion scaled to unit magnitude, at the specification level.
    pub open spec fn snormalize(self) -> Quaternion<S> {
        self.sqdivs(self.smagnitude())
    }

    /// Compute the magnitude of a quaternion.
    pub fn magnitude(self) -> (r: S)
        ensures
            r == self.smagnitude(),
    {
        self.magnitude_squared().sqrt()
    }

    /// Scale a quaternion to unit magnitude.
    pub fn normalize(self) -> (r: Quaternion<S>)
        ensures
            r == self.snormalize(),
    {
        let m: S = self.magnitude();
        Quaternion { s: self.s.divide(m), v: self.v.divide_scalar(m) }
    }

    /// The quaternion of a rotation about an axis by an angle, at the
    /// specification level: the half-angle construction.
    pub open spec fn sfrom_axis_angle(axis: Vector3<S>, angle: Radians<S>) -> Quaternion<S> {
        let half = angle.0.sdiv(S::sone().sadd(S::sone()));
        Quaternion { s: half.scos(), v: axis.svmul(half.ssin()) }
    }

    /// Construct the rotation about an axis by an angle, by the half-angle
    /// construction: the result is a unit quaternion whenever the axis has
    /// unit length.
    pub fn from_axis_angle(axis: &Vector3<S>, angle: Radians<S>) -> (r: Quaternion<S>)
        ensures
            r == Quaternion::<S>::sfrom_axis_angle(*axis, angle),
    {
        let half: S = angle.0.divide(S::one().plus(S::one()));
        Quaternion { s: half.cos(), v: axis.times_scalar(half.sin()) }
    }

    /// The shortest-arc rotation between two vectors, at the specification
    /// level, with its three cases: codirectional inputs give the identity
    /// rotation; antiparallel inputs give a half-turn about an arbitrary
    /// axis orthogonal to the first input (built against the world `x`
    /// axis, or the world `y` axis when the first input is parallel to the
    /// `x` axis); any other inputs give the normalized half-angle-free
    /// shortcut quaternion.
    pub open spec fn sbetween_vectors(v1: Vector3<S>, v2: Vector3<S>) -> Quaternion<S> {
        let k_cos_theta = v1.sdot(v2);
        if k_cos_theta.sulps_eq(S::sone()) {
            Quaternion {
                s: S::sone(),
                v: Vector3 { x: S::szero(), y: S::szero(), z: S::szero() },
            }
        } else {
            let k = v1.sdot(v1).smul(v2.sdot(v2)).ssqrt();
            if k_cos_theta.sdiv(k).sulps_eq(S::sone().sneg()) {
                let orthogonal = v1.scross(
                    Vector3 { x: S::sone(), y: S::szero(), z: S::szero() },
                );
                if orthogonal.sdot(orthogonal).sulps_eq(S::szero()) {
                    let fallback = v1.scross(
                        Vector3 { x: S::szero(), y: S::sone(), z: S::szero() },
                    );
                    Quaternion { s: S::szero(), v: fallback.snormalize() }
                } else {
                    Quaternion { s: S::szero(), v: orthogonal.snormalize() }
                }
            } else {
                Quaternion { s: k.sadd(k_cos_theta), v: v1.scross(v2) }.snormalize()
            }
        }
    }

    /// Construct the rotation that carries one vector to another along the
    /// shortest arc, with the degenerate cases handled as the specification
    /// function states: identity for codirectional inputs, and a half-turn
    /// about an arbitrary orthogonal axis for antiparallel inputs.
    pub fn between_vectors(v1: Vector3<S>, v2: Vector3<S>) -> (r: Quaternion<S>)
        ensures
            r == Quaternion::<S>::sbetween_vectors(v1, v2),
    {
        let k_cos_theta: S = v1.dot(v2);
        if k_cos_theta.ulps_eq(S::one()) {
            return Quaternion {
                s: S::one(),
                v: Vector3 { x: S::zero(), y: S::zero(), z: S::zero() },
            };
        }
        let k: S = v1.magnitude_squared().times(v2.magnitude_squared()).sqrt();
        if k_cos_theta.divide(k).ulps_eq(S::one().negate()) {
            let orthogonal: Vector3<S> = v1.cross(Vector3::unit_x());
            if orthogonal.magnitude_squared().ulps_eq(S::zero()) {
                let fallback: Vector3<S> = v1.cross(Vector3::unit_y());
                return Quaternion { s: S::zero(), v: fallback.normalize() };
            }
            return Quaternion { s: S::zero(), v: orthogonal.normalize() };
        }
        Quaternion { s: k.plus(k_cos_theta), v: v1.cross(v2) }.normalize()
    }

    /// The rotation matrix of a quaternion, at the specification level: the
    /// standard conversion, exact for unit quaternions.
    pub open spec fn sto_matrix(self) -> Matrix3x3<S> {
        let x2 = self.v.x.sadd(self.v.x);
        let y2 = self.v.y.sadd(self.v.y);
        let z2 = self.v.z.sadd(self.v.z);
        let xx2 = x2.smul(self.v.x);
        let xy2 = x2.smul(self.v.y);
        let xz2 = x2.smul(self.v.z);
        let yy2 = y2.smul(self.v.y);
        let yz2 = y2.smul(self.v.z);
        let zz2 = z2.smul(self.v.z);
        let sx2 = x2.smul(self.s);
        let sy2 = y2.smul(self.s);
        let sz2 = z2.smul(self.s);
        Matrix3x3 {
            c0r0: S::sone().ssub(yy2).ssub(zz2),
            c0r1: xy2.sadd(sz2),
            c0r2: xz2.ssub(sy2),
            c1r0: xy2.ssub(sz2),
            c1r1: S::sone().ssub(xx2).ssub(zz2),
            c1r2: yz2.sadd(sx2),
            c2r0: xz2.sadd(sy2),
            c2r1: yz2.ssub(sx2),
            c2r2: S::sone().ssub(xx2).ssub(yy2),
        }
    }

    /// Convert a quaternion to the rotation matrix it represents. The
    /// conversion is exact for unit quaternions.
    pub fn to_matrix(self) -> (r: Matrix3x3<S>)
        ensures
            r == self.sto_matrix(),
    {
        let x2: S = self.v.x.plus(self.v.x);
        let y2: S = self.v.y.plus(self.v.y);
        let z2: S = self.v.z.plus(self.v.z);
        let xx2: S = x2.times(self.v.x);
        let xy2: S = x2.times(self.v.y);
        let xz2: S = x2.times(self.v.z);
        let yy2: S = y2.times(self.v.y);
        let yz2: S = y2.times(self.v.z);
        let zz2: S = z2.times(self.v.z);
        let sx2: S = x2.times(self.s);
        let sy2: S = y2.times(self.s);
        let sz2: S = z2.times(self.s);
        Matrix3x3 {
            c0r0: S::one().minus(yy2).minus(zz2),
            c0r1: xy2.plus(sz2),
            c0r2: xz2.minus(sy2),
            c1r0: xy2.minus(sz2),
            c1r1: S::one().minus(xx2).minus(zz2),
            c1r2: yz2.plus(sx2),
            c2r0: xz2.plus(sy2),
            c2r1: yz2.minus(sx2),
            c2r2: S::one().minus(xx2).minus(yy2),
        }
    }

    /// Apply the rotation a quaternion represents to a vector, by
    /// converting to the rotation matrix and multiplying.
    pub fn rotate_vector(&self, vector: Vector3<S>) -> (r: Vector3<S>)
        ensures
            r == self.sto_matrix().smulv(vector),
    {
        let m: Matrix3x3<S> = self.to_matrix();
        m * vector
    }

    /// The quaternion of a rotation matrix, at the specification level: the
    /// trace-branching extraction, exact for proper orthogonal matrices.
    pub open spec fn sfrom_matrix(m: Matrix3x3<S>) -> Quaternion<S> {
        let two = S::sone().sadd(S::sone());
        let trace = m.c0r0.sadd(m.c1r1).sadd(m.c2r2);
        if S::szero().slt(trace) || trace == S::szero() {
            let root = trace.sadd(S::sone()).ssqrt();
            let factor = S::sone().sdiv(two.smul(root));
            Quaternion {
                s: root.sdiv(two),
                v: Vector3 {
                    x: m.c1r2.ssub(m.c2r1).smul(factor),
                    y: m.c2r0.ssub(m.c0r2).smul(factor),
                    z: m.c0r1.ssub(m.c1r0).smul(factor),
                },
            }
        } else if m.c1r1.slt(m.c0r0) && m.c2r2.slt(m.c0r0) {
            let root = S::sone().sadd(m.c0r0).ssub(m.c1r1).ssub(m.c2r2).ssqrt();
            let factor = S::sone().sdiv(two.smul(root));
            Quaternion {
                s: m.c1r2.ssub(m.c2r1).smul(factor),
                v: Vector3 {
                    x: root.sdiv(two),
                    y: m.c0r1.sadd(m.c1r0).smul(factor),
                    z: m.c2r0.sadd(m.c0r2).smul(factor),
                },
            }
        } else if m.c2r2.slt(m.c1r1) {
            let root = S::sone().sadd(m.c1r1).ssub(m.c0r0).ssub(m.c2r2).ssqrt();
            let factor = S::sone().sdiv(two.smul(root));
            Quaternion {
                s: m.c2r0.ssub(m.c0r2).smul(factor),
                v: Vector3 {
                    x: m.c0r1.sadd(m.c1r0).smul(factor),
                    y: root.sdiv(two),
                    z: m.c1r2.sadd(m.c2r1).smul(factor),
                },
            }
        } else {
            let root = S::sone().sadd(m.c2r2).ssub(m.c0r0).ssub(m.c1r1).ssqrt();
            let factor = S::sone().sdiv(two.smul(root));
            Quaternion {
                s: m.c0r1.ssub(m.c1r0).smul(factor),
                v: Vector3 {
                    x: m.c2r0.sadd(m.c0r2).smul(factor),
                    y: m.c1r2.sadd(m.c2r1).smul(factor),
                    z: root.sdiv(two),
                },
            }
        }
    }

    /// Extract the quaternion of a rotation matrix, by the trace-branching
    /// algorithm. The extraction is exact, up to rounding, for proper
    /// orthogonal matrices, and recovers a unit quaternion up to sign.
    pub fn from_matrix(m: &Matrix3x3<S>) -> (r: Quaternion<S>)
        ensures
            r == Quaternion::<S>::sfrom_matrix(*m),
    {
        let two: S = S::one().plus(S::one());
        let trace: S = m.c0r0.plus(m.c1r1).plus(m.c2r2);
        if S::zero().lt(trace) || trace.is_zero() {
            let root: S = trace.plus(S::one()).sqrt();
            let factor: S = S::one().divide(two.times(root));
            Quaternion {
                s: root.divide(two),
                v: Vector3 {
                    x: m.c1r2.minus(m.c2r1).times(factor),
                    y: m.c2r0.minus(m.c0r2).times(factor),
                    z: m.c0r1.minus(m.c1r0).times(factor),
                },
            }
        } else if m.c1r1.lt(m.c0r0) && m.c2r2.lt(m.c0r0) {
            let root: S = S::one().plus(m.c0r0).minus(m.c1r1).minus(m.c2r2).sqrt();
            let factor: S = S::one().divide(two.times(root));
            Quaternion {
                s: m.c1r2.minus(m.c2r1).times(factor),
                v: Vector3 {
                    x: root.divide(two),
                    y: m.c0r1.plus(m.c1r0).times(factor),
                    z: m.c2r0.plus(m.c0r2).times(factor),
                },
            }
        } else if m.c2r2.lt(m.c1r1) {
            let root: S = S::one().plus(m.c1r1).minus(m.c0r0).minus(m.c2r2).sqrt();
            let factor: S = S::one().divide(two.times(root));
            Quaternion {
                s: m.c2r0.minus(m.c0r2).times(factor),
                v: Vector3 {
                    x: m.c0r1.plus(m.c1r0).times(factor),
                    y: root.divide(two),
                    z: m.c1r2.plus(m.c2r1).times(factor),
                },
            }
        } else {
            let root: S = S::one().plus(m.c2r2).minus(m.c0r0).minus(m.c1r1).sqrt();
            let factor: S = S::one().divide(two.times(root));
            Quaternion {
                s: m.c0r1.minus(m.c1r0).times(factor),
                v: Vector3 {
                    x: m.c2r0.plus(m.c0r2).times(factor),
                    y: m.c1r2.plus(m.c2r1).times(factor),
                    z: root.divide(two),
                },
            }
        }
    }
}

impl<S: ScalarFloat> Matrix3x3<S> {
    /// Construct the rotation matrix of a quaternion.
    pub fn from_quaternion(quaternion: &Quaternion<S>) -> (r: Matrix3x3<S>)
        ensures
            r == quaternion.sto_matrix(),
    {
        quaternion.to_matrix()
    }
}

impl<S: ScalarFloat> Matrix3x3<S> {
    /// Construct the rotation that carries one vector to another along the
    /// shortest arc, as a matrix. The computation delegates to the
    /// quaternion form, so the two representations always agree; the result
    /// is `Some` for every input, and the degenerate cases are the
    /// quaternion form's.
    pub fn rotation_between(v1: &Vector3<S>, v2: &Vector3<S>) -> (r: Option<Matrix3x3<S>>)
        ensures
            r == Some(Quaternion::<S>::sbetween_vectors(*v1, *v2).sto_matrix()),
    {
        let q: Quaternion<S> = Quaternion::between_vectors(*v1, *v2);
        Some(q.to_matrix())
    }
}

} // verus!
