//! Plain fixed-size vectors: one through four scalar components, with the
//! componentwise arithmetic that the matrix, rotation and projection engines
//! build on. Every arithmetic result is pinned to a spec function over the
//! scalar capability.

use crate::scalar::Scalar;
use crate::scalar::ScalarFloat;
use vstd::prelude::*;

verus! {

/// The capability of projecting one vector onto the line of another: the
/// component of `self` along `onto`. The contracts live on the inherent
/// `project_on` methods of the vector types.
pub trait ProjectOn<V> {
    /// The type of the projected vector.
    type Output;

    /// Compute the projection of a vector onto another vector.
    fn project_on(self, onto: V) -> Self::Output;
}


/// A vector with 1 scalar component in Euclidean space.
#[derive(Clone, Copy, Debug, PartialEq, Eq, Hash)]
pub struct Vector1<S> {
    /// The `x` component of the vector.
    pub x: S,
}

impl<S> Vector1<S> {
    /// Construct a new vector from its components.
    pub fn new(x: S) -> (r: Vector1<S>)
        ensures
            r.x == x,
    {
        Vector1 { x: x }
    }
}

impl<S: Copy> Vector1<S> {
    /// Construct a vector with every component equal to one value.
    pub fn from_fill(value: S) -> (r: Vector1<S>)
        ensures
            r.x == value,
    {
        Vector1 { x: value }
    }
}

impl<S: Scalar> Vector1<S> {
    /// The componentwise sum of two vectors, at the specification level.
    pub open spec fn svadd(self, other: Vector1<S>) -> Vector1<S> {
        Vector1 { x: self.x.sadd(other.x) }
    }

    /// The componentwise difference of two vectors, at the specification
    /// level.
    pub open spec fn svsub(self, other: Vector1<S>) -> Vector1<S> {
        Vector1 { x: self.x.ssub(other.x) }
    }

    /// The componentwise negation of a vector, at the specification level.
    pub open spec fn svneg(self) -> Vector1<S> {
        Vector1 { x: self.x.sneg() }
    }

    /// The product of a vector and a scalar, at the specification level.
    pub open spec fn svmul(self, factor: S) -> Vector1<S> {
        Vector1 { x: self.x.smul(factor) }
    }

    /// The quotient of a vector by a scalar, at the specification level.
    pub open spec fn svdiv(self, factor: S) -> Vector1<S> {
        Vector1 { x: self.x.sdiv(factor) }
    }

    /// The dot product of two vectors, at the specification level.
    pub open spec fn sdot(self, other: Vector1<S>) -> S {
        self.x.smul(other.x)
    }

    /// The vector whose components are all zero.
    pub fn zero() -> (r: Vector1<S>)
        ensures
            r.x == S::szero(),
    {
        Vector1 { x: S::zero() }
    }


    /// The unit vector along the `x` axis.
    pub fn unit_x() -> (r: Vector1<S>)
        ensures
            r.x == S::sone(),
    {
        Vector1 { x: S::one() }
    }


    /// Negate every component of a vector.
    pub fn negated(self) -> (r: Vector1<S>)
        ensures
            r == self.svneg(),
    {
        Vector1 { x: self.x.negate() }
    }

    /// Compute the dot product of two vectors.
    pub fn dot(self, other: Vector1<S>) -> (r: S)
        ensures
            r == self.sdot(other),
    {
        let t0: S = self.x.times(other.x);
        
        t0
    }

    /// Compute the square of the length of a vector.
    pub fn magnitude_squared(self) -> (r: S)
        ensures
            r == self.sdot(self),
    {
        self.dot(self)
    }


    /// Extend a vector with one further component.
    pub fn extend(self, value: S) -> (r: Vector2<S>)
        ensures
            r.x == self.x,
            r.y == value,
    {
        Vector2 { x: self.x, y: value }
    }

}


impl<S: ScalarFloat> Vector1<S> {
    /// The vector scaled to unit length, at the specification level.
    pub open spec fn snormalize(self) -> Vector1<S> {
        self.svdiv(self.sdot(self).ssqrt())
    }

    /// Compute the length of a vector.
    pub fn magnitude(self) -> (r: S)
        ensures
            r == self.sdot(self).ssqrt(),
    {
        self.magnitude_squared().sqrt()
    }

    /// Scale a vector to unit length.
    pub fn normalize(self) -> (r: Vector1<S>)
        ensures
            r == self.snormalize(),
    {
        let m: S = self.magnitude();
        self.divide_scalar(m)
    }

    /// Scale a vector to a given length.
    pub fn normalize_to(self, magnitude: S) -> (r: Vector1<S>)
        ensures
            r == self.svmul(magnitude.sdiv(self.sdot(self).ssqrt())),
    {
        let m: S = self.magnitude();
        self.times_scalar(magnitude.divide(m))
    }
}


impl<S: Scalar> Vector1<S> {
    /// Multiply every component of a vector by a scalar.
    pub fn times_scalar(self, factor: S) -> (r: Vector1<S>)
        ensures
            r == self.svmul(factor),
    {
        Vector1 { x: self.x.times(factor) }
    }

    /// Divide every component of a vector by a scalar.
    pub fn divide_scalar(self, factor: S) -> (r: Vector1<S>)
        ensures
            r == self.svdiv(factor),
    {
        Vector1 { x: self.x.divide(factor) }
    }
}


impl<S: Scalar> core::ops::Add<Vector1<S>> for Vector1<S> {
    type Output = Vector1<S>;

    fn add(self, other: Vector1<S>) -> Vector1<S> {
        Vector1 { x: self.x.plus(other.x) }
    }
}

impl<S: Scalar> vstd::std_specs::ops::AddSpecImpl<Vector1<S>> for Vector1<S> {
    open spec fn obeys_add_spec() -> bool {
        true
    }

    open spec fn add_req(self, rhs: Vector1<S>) -> bool {
        true
    }

    open spec fn add_spec(self, rhs: Vector1<S>) -> Vector1<S> {
        self.svadd(rhs)
    }
}

impl<S: Scalar> core::ops::Sub<Vector1<S>> for Vector1<S> {
    type Output = Vector1<S>;

    fn sub(self, other: Vector1<S>) -> Vector1<S> {
        Vector1 { x: self.x.minus(other.x) }
    }
}

impl<S: Scalar> vstd::std_specs::ops::SubSpecImpl<Vector1<S>> for Vector1<S> {
    open spec fn obeys_sub_spec() -> bool {
        true
    }

    open spec fn sub_req(self, rhs: Vector1<S>) -> bool {
        true
    }

    open spec fn sub_spec(self, rhs: Vector1<S>) -> Vector1<S> {
        self.svsub(rhs)
    }
}

impl<S: Scalar> core::ops::Neg for Vector1<S> {
    type Output = Vector1<S>;

    fn neg(self) -> Vector1<S> {
        Vector1 { x: self.x.negate() }
    }
}

impl<S: Scalar> vstd::std_specs::ops::NegSpecImpl for Vector1<S> {
    open spec fn obeys_neg_spec() -> bool {
        true
    }

    open spec fn neg_req(self) -> bool {
        true
    }

    open spec fn neg_spec(self) -> Vector1<S> {
        self.svneg()
    }
}

impl<S: Scalar> core::ops::Mul<S> for Vector1<S> {
    type Output = Vector1<S>;

    fn mul(self, other: S) -> Vector1<S> {
        self.times_scalar(other)
    }
}

impl<S: Scalar> vstd::std_specs::ops::MulSpecImpl<S> for Vector1<S> {
    open spec fn obeys_mul_spec() -> bool {
        true
    }

    open spec fn mul_req(self, rhs: S) -> bool {
        true
    }

    open spec fn mul_spec(self, rhs: S) -> Vector1<S> {
        self.svmul(rhs)
    }
}

impl<S: Scalar> core::ops::Div<S> for Vector1<S> {
    type Output = Vector1<S>;

    fn div(self, other: S) -> Vector1<S> {
        self.divide_scalar(other)
    }
}

impl<S: Scalar> vstd::std_specs::ops::DivSpecImpl<S> for Vector1<S> {
    open spec fn obeys_div_spec() -> bool {
        true
    }

    open spec fn div_req(self, rhs: S) -> bool {
        true
    }

    open spec fn div_spec(self, rhs: S) -> Vector1<S> {
        self.svdiv(rhs)
    }
}


/// A vector with 2 scalar components in Euclidean space.
#[derive(Clone, Copy, Debug, PartialEq, Eq, Hash)]
pub struct Vector2<S> {
    /// The `x` component of the vector.
    pub x: S,
    /// The `y` component of the vector.
    pub y: S,
}

impl<S> Vector2<S> {
    /// Construct a new vector from its components.
    pub fn new(x: S, y: S) -> (r: Vector2<S>)
        ensures
            r.x == x && r.y == y,
    {
        Vector2 { x: x, y: y }
    }
}

impl<S: Copy> Vector2<S> {
    /// Construct a vector with every component equal to one value.
    pub fn from_fill(value: S) -> (r: Vector2<S>)
        ensures
            r.x == value && r.y == value,
    {
        Vector2 { x: value, y: value }
    }
}

impl<S: Scalar> Vector2<S> {
    /// The componentwise sum of two vectors, at the specification level.
    pub open spec fn svadd(self, other: Vector2<S>) -> Vector2<S> {
        Vector2 { x: self.x.sadd(other.x), y: self.y.sadd(other.y) }
    }

    /// The componentwise difference of two vectors, at the specification
    /// level.
    pub open spec fn svsub(self, other: Vector2<S>) -> Vector2<S> {
        Vector2 { x: self.x.ssub(other.x), y: self.y.ssub(other.y) }
    }

    /// The componentwise negation of a vector, at the specification level.
    pub open spec fn svneg(self) -> Vector2<S> {
        Vector2 { x: self.x.sneg(), y: self.y.sneg() }
    }

    /// The product of a vector and a scalar, at the specification level.
    pub open spec fn svmul(self, factor: S) -> Vector2<S> {
        Vector2 { x: self.x.smul(factor), y: self.y.smul(factor) }
    }

    /// The quotient of a vector by a scalar, at the specification level.
    pub open spec fn svdiv(self, factor: S) -> Vector2<S> {
        Vector2 { x: self.x.sdiv(factor), y: self.y.sdiv(factor) }
    }

    /// The dot product of two vectors, at the specification level.
    pub open spec fn sdot(self, other: Vector2<S>) -> S {
        self.x.smul(other.x).sadd(self.y.smul(other.y))
    }

    /// The vector whose components are all zero.
    pub fn zero() -> (r: Vector2<S>)
        ensures
            r.x == S::szero() && r.y == S::szero(),
    {
        Vector2 { x: S::zero(), y: S::zero() }
    }


    /// The unit vector along the `x` axis.
    pub fn unit_x() -> (r: Vector2<S>)
        ensures
            r.x == S::sone() && r.y == S::szero(),
    {
        Vector2 { x: S::one(), y: S::zero() }
    }


    /// The unit vector along the `y` axis.
    pub fn unit_y() -> (r: Vector2<S>)
        ensures
            r.x == S::szero() && r.y == S::sone(),
    {
        Vector2 { x: S::zero(), y: S::one() }
    }


    /// Negate every component of a vector.
    pub fn negated(self) -> (r: Vector2<S>)
        ensures
            r == self.svneg(),
    {
        Vector2 { x: self.x.negate(), y: self.y.negate() }
    }

    /// Compute the dot product of two vectors.
    pub fn dot(self, other: Vector2<S>) -> (r: S)
        ensures
            r == self.sdot(other),
    {
        let t0: S = self.x.times(other.x); let t1: S = self.y.times(other.y);
        let s1: S = t0.plus(t1);
        s1
    }

    /// Compute the square of the length of a vector.
    pub fn magnitude_squared(self) -> (r: S)
        ensures
            r == self.sdot(self),
    {
        self.dot(self)
    }


    /// Extend a vector with one further component.
    pub fn extend(self, value: S) -> (r: Vector3<S>)
        ensures
            r.x == self.x && r.y == self.y,
            r.z == value,
    {
        Vector3 { x: self.x, y: self.y, z: value }
    }


    /// Drop the last component of a vector.
    pub fn contract(self) -> (r: Vector1<S>)
        ensures
            r.x == self.x,
    {
        Vector1 { x: self.x }
    }

}


impl<S: ScalarFloat> Vector2<S> {
    /// The vector scaled to unit length, at the specification level.
    pub open spec fn snormalize(self) -> Vector2<S> {
        self.svdiv(self.sdot(self).ssqrt())
    }

    /// Compute the length of a vector.
    pub fn magnitude(self) -> (r: S)
        ensures
            r == self.sdot(self).ssqrt(),
    {
        self.magnitude_squared().sqrt()
    }

    /// Scale a vector to unit length.
    pub fn normalize(self) -> (r: Vector2<S>)
        ensures
            r == self.snormalize(),
    {
        let m: S = self.magnitude();
        self.divide_scalar(m)
    }

    /// Scale a vector to a given length.
    pub fn normalize_to(self, magnitude: S) -> (r: Vector2<S>)
        ensures
            r == self.svmul(magnitude.sdiv(self.sdot(self).ssqrt())),
    {
        let m: S = self.magnitude();
        self.times_scalar(magnitude.divide(m))
    }
}


impl<S: Scalar> Vector2<S> {
    /// Compute the projection of a vector onto another vector: the vector
    /// `onto` scaled by the ratio of the dot products.
    pub fn project_onto(self, onto: Vector2<S>) -> (r: Vector2<S>)
        ensures
            r == onto.svmul(self.sdot(onto).sdiv(onto.sdot(onto))),
    {
        let factor: S = self.dot(onto).divide(onto.dot(onto));
        onto.times_scalar(factor)
    }

    /// Multiply every component of a vector by a scalar.
    pub fn times_scalar(self, factor: S) -> (r: Vector2<S>)
        ensures
            r == self.svmul(factor),
    {
        Vector2 { x: self.x.times(factor), y: self.y.times(factor) }
    }

    /// Divide every component of a vector by a scalar.
    pub fn divide_scalar(self, factor: S) -> (r: Vector2<S>)
        ensures
            r == self.svdiv(factor),
    {
        Vector2 { x: self.x.divide(factor), y: self.y.divide(factor) }
    }
}


impl<S: Scalar> core::ops::Add<Vector2<S>> for Vector2<S> {
    type Output = Vector2<S>;

    fn add(self, other: Vector2<S>) -> Vector2<S> {
        Vector2 { x: self.x.plus(other.x), y: self.y.plus(other.y) }
    }
}

impl<S: Scalar> vstd::std_specs::ops::AddSpecImpl<Vector2<S>> for Vector2<S> {
    open spec fn obeys_add_spec() -> bool {
        true
    }

    open spec fn add_req(self, rhs: Vector2<S>) -> bool {
        true
    }

    open spec fn add_spec(self, rhs: Vector2<S>) -> Vector2<S> {
        self.svadd(rhs)
    }
}

impl<S: Scalar> core::ops::Sub<Vector2<S>> for Vector2<S> {
    type Output = Vector2<S>;

    fn sub(self, other: Vector2<S>) -> Vector2<S> {
        Vector2 { x: self.x.minus(other.x), y: self.y.minus(other.y) }
    }
}

impl<S: Scalar> vstd::std_specs::ops::SubSpecImpl<Vector2<S>> for Vector2<S> {
    open spec fn obeys_sub_spec() -> bool {
        true
    }

    open spec fn sub_req(self, rhs: Vector2<S>) -> bool {
        true
    }

    open spec fn sub_spec(self, rhs: Vector2<S>) -> Vector2<S> {
        self.svsub(rhs)
    }
}

impl<S: Scalar> core::ops::Neg for Vector2<S> {
    type Output = Vector2<S>;

    fn neg(self) -> Vector2<S> {
        Vector2 { x: self.x.negate(), y: self.y.negate() }
    }
}

impl<S: Scalar> vstd::std_specs::ops::NegSpecImpl for Vector2<S> {
    open spec fn obeys_neg_spec() -> bool {
        true
    }

    open spec fn neg_req(self) -> bool {
        true
    }

    open spec fn neg_spec(self) -> Vector2<S> {
        self.svneg()
    }
}

impl<S: Scalar> core::ops::Mul<S> for Vector2<S> {
    type Output = Vector2<S>;

    fn mul(self, other: S) -> Vector2<S> {
        self.times_scalar(other)
    }
}

impl<S: Scalar> vstd::std_specs::ops::MulSpecImpl<S> for Vector2<S> {
    open spec fn obeys_mul_spec() -> bool {
        true
    }

    open spec fn mul_req(self, rhs: S) -> bool {
        true
    }

    open spec fn mul_spec(self, rhs: S) -> Vector2<S> {
        self.svmul(rhs)
    }
}

impl<S: Scalar> core::ops::Div<S> for Vector2<S> {
    type Output = Vector2<S>;

    fn div(self, other: S) -> Vector2<S> {
        self.divide_scalar(other)
    }
}

impl<S: Scalar> vstd::std_specs::ops::DivSpecImpl<S> for Vector2<S> {
    open spec fn obeys_div_spec() -> bool {
        true
    }

    open spec fn div_req(self, rhs: S) -> bool {
        true
    }

    open spec fn div_spec(self, rhs: S) -> Vector2<S> {
        self.svdiv(rhs)
    }
}


/// A vector with 3 scalar components in Euclidean space.
#[derive(Clone, Copy, Debug, PartialEq, Eq, Hash)]
pub struct Vector3<S> {
    /// The `x` component of the vector.
    pub x: S,
    /// The `y` component of the vector.
    pub y: S,
    /// The `z` component of the vector.
    pub z: S,
}

impl<S> Vector3<S> {
    /// Construct a new vector from its components.
    pub fn new(x: S, y: S, z: S) -> (r: Vector3<S>)
        ensures
            r.x == x && r.y == y && r.z == z,
    {
        Vector3 { x: x, y: y, z: z }
    }
}

impl<S: Copy> Vector3<S> {
    /// Construct a vector with every component equal to one value.
    pub fn from_fill(value: S) -> (r: Vector3<S>)
        ensures
            r.x == value && r.y == value && r.z == value,
    {
        Vector3 { x: value, y: value, z: value }
    }
}

impl<S: Scalar> Vector3<S> {
    /// The componentwise sum of two vectors, at the specification level.
    pub open spec fn svadd(self, other: Vector3<S>) -> Vector3<S> {
        Vector3 { x: self.x.sadd(other.x), y: self.y.sadd(other.y), z: self.z.sadd(other.z) }
    }

    /// The componentwise difference of two vectors, at the specification
    /// level.
    pub open spec fn svsub(self, other: Vector3<S>) -> Vector3<S> {
        Vector3 { x: self.x.ssub(other.x), y: self.y.ssub(other.y), z: self.z.ssub(other.z) }
    }

    /// The componentwise negation of a vector, at the specification level.
    pub open spec fn svneg(self) -> Vector3<S> {
        Vector3 { x: self.x.sneg(), y: self.y.sneg(), z: self.z.sneg() }
    }

    /// The product of a vector and a scalar, at the specification level.
    pub open spec fn svmul(self, factor: S) -> Vector3<S> {
        Vector3 { x: self.x.smul(factor), y: self.y.smul(factor), z: self.z.smul(factor) }
    }

    /// The quotient of a vector by a scalar, at the specification level.
    pub open spec fn svdiv(self, factor: S) -> Vector3<S> {
        Vector3 { x: self.x.sdiv(factor), y: self.y.sdiv(factor), z: self.z.sdiv(factor) }
    }

    /// The dot product of two vectors, at the specification level.
    pub open spec fn sdot(self, other: Vector3<S>) -> S {
        self.x.smul(other.x).sadd(self.y.smul(other.y)).sadd(self.z.smul(other.z))
    }

    /// The vector whose components are all zero.
    pub fn zero() -> (r: Vector3<S>)
        ensures
            r.x == S::szero() && r.y == S::szero() && r.z == S::szero(),
    {
        Vector3 { x: S::zero(), y: S::zero(), z: S::zero() }
    }


    /// The unit vector along the `x` axis.
    pub fn unit_x() -> (r: Vector3<S>)
        ensures
            r.x == S::sone() && r.y == S::szero() && r.z == S::szero(),
    {
        Vector3 { x: S::one(), y: S::zero(), z: S::zero() }
    }


    /// The unit vector along the `y` axis.
    pub fn unit_y() -> (r: Vector3<S>)
        ensures
            r.x == S::szero() && r.y == S::sone() && r.z == S::szero(),
    {
        Vector3 { x: S::zero(), y: S::one(), z: S::zero() }
    }


    /// The unit vector along the `z` axis.
    pub fn unit_z() -> (r: Vector3<S>)
        ensures
            r.x == S::szero() && r.y == S::szero() && r.z == S::sone(),
    {
        Vector3 { x: S::zero(), y: S::zero(), z: S::one() }
    }


    /// Negate every component of a vector.
    pub fn negated(self) -> (r: Vector3<S>)
        ensures
            r == self.svneg(),
    {
        Vector3 { x: self.x.negate(), y: self.y.negate(), z: self.z.negate() }
    }

    /// Compute the dot product of two vectors.
    pub fn dot(self, other: Vector3<S>) -> (r: S)
        ensures
            r == self.sdot(other),
    {
        let t0: S = self.x.times(other.x); let t1: S = self.y.times(other.y); let t2: S = self.z.times(other.z);
        let s1: S = t0.plus(t1); let s2: S = s1.plus(t2);
        s2
    }

    /// Compute the square of the length of a vector.
    pub fn magnitude_squared(self) -> (r: S)
        ensures
            r == self.sdot(self),
    {
        self.dot(self)
    }


    /// Extend a vector with one further component.
    pub fn extend(self, value: S) -> (r: Vector4<S>)
        ensures
            r.x == self.x && r.y == self.y && r.z == self.z,
            r.w == value,
    {
        Vector4 { x: self.x, y: self.y, z: self.z, w: value }
    }


    /// Drop the last component of a vector.
    pub fn contract(self) -> (r: Vector2<S>)
        ensures
            r.x == self.x && r.y == self.y,
    {
        Vector2 { x: self.x, y: self.y }
    }

}


impl<S: ScalarFloat> Vector3<S> {
    /// The vector scaled to unit length, at the specification level.
    pub open spec fn snormalize(self) -> Vector3<S> {
        self.svdiv(self.sdot(self).ssqrt())
    }

    /// Compute the length of a vector.
    pub fn magnitude(self) -> (r: S)
        ensures
            r == self.sdot(self).ssqrt(),
    {
        self.magnitude_squared().sqrt()
    }

    /// Scale a vector to unit length.
    pub fn normalize(self) -> (r: Vector3<S>)
        ensures
            r == self.snormalize(),
    {
        let m: S = self.magnitude();
        self.divide_scalar(m)
    }

    /// Scale a vector to a given length.
    pub fn normalize_to(self, magnitude: S) -> (r: Vector3<S>)
        ensures
            r == self.svmul(magnitude.sdiv(self.sdot(self).ssqrt())),
    {
        let m: S = self.magnitude();
        self.times_scalar(magnitude.divide(m))
    }
}


impl<S: Scalar> Vector3<S> {
    /// Compute the projection of a vector onto another vector: the vector
    /// `onto` scaled by the ratio of the dot products.
    pub fn project_onto(self, onto: Vector3<S>) -> (r: Vector3<S>)
        ensures
            r == onto.svmul(self.sdot(onto).sdiv(onto.sdot(onto))),
    {
        let factor: S = self.dot(onto).divide(onto.dot(onto));
        onto.times_scalar(factor)
    }

    /// Multiply every component of a vector by a scalar.
    pub fn times_scalar(self, factor: S) -> (r: Vector3<S>)
        ensures
            r == self.svmul(factor),
    {
        Vector3 { x: self.x.times(factor), y: self.y.times(factor), z: self.z.times(factor) }
    }

    /// Divide every component of a vector by a scalar.
    pub fn divide_scalar(self, factor: S) -> (r: Vector3<S>)
        ensures
            r == self.svdiv(factor),
    {
        Vector3 { x: self.x.divide(factor), y: self.y.divide(factor), z: self.z.divide(factor) }
    }
}


impl<S: Scalar> core::ops::Add<Vector3<S>> for Vector3<S> {
    type Output = Vector3<S>;

    fn add(self, other: Vector3<S>) -> Vector3<S> {
        Vector3 { x: self.x.plus(other.x), y: self.y.plus(other.y), z: self.z.plus(other.z) }
    }
}

impl<S: Scalar> vstd::std_specs::ops::AddSpecImpl<Vector3<S>> for Vector3<S> {
    open spec fn obeys_add_spec() -> bool {
        true
    }

    open spec fn add_req(self, rhs: Vector3<S>) -> bool {
        true
    }

    open spec fn add_spec(self, rhs: Vector3<S>) -> Vector3<S> {
        self.svadd(rhs)
    }
}

impl<S: Scalar> core::ops::Sub<Vector3<S>> for Vector3<S> {
    type Output = Vector3<S>;

    fn sub(self, other: Vector3<S>) -> Vector3<S> {
        Vector3 { x: self.x.minus(other.x), y: self.y.minus(other.y), z: self.z.minus(other.z) }
    }
}

impl<S: Scalar> vstd::std_specs::ops::SubSpecImpl<Vector3<S>> for Vector3<S> {
    open spec fn obeys_sub_spec() -> bool {
        true
    }

    open spec fn sub_req(self, rhs: Vector3<S>) -> bool {
        true
    }

    open spec fn sub_spec(self, rhs: Vector3<S>) -> Vector3<S> {
        self.svsub(rhs)
    }
}

impl<S: Scalar> core::ops::Neg for Vector3<S> {
    type Output = Vector3<S>;

    fn neg(self) -> Vector3<S> {
        Vector3 { x: self.x.negate(), y: self.y.negate(), z: self.z.negate() }
    }
}

impl<S: Scalar> vstd::std_specs::ops::NegSpecImpl for Vector3<S> {
    open spec fn obeys_neg_spec() -> bool {
        true
    }

    open spec fn neg_req(self) -> bool {
        true
    }

    open spec fn neg_spec(self) -> Vector3<S> {
        self.svneg()
    }
}

impl<S: Scalar> core::ops::Mul<S> for Vector3<S> {
    type Output = Vector3<S>;

    fn mul(self, other: S) -> Vector3<S> {
        self.times_scalar(other)
    }
}

impl<S: Scalar> vstd::std_specs::ops::MulSpecImpl<S> for Vector3<S> {
    open spec fn obeys_mul_spec() -> bool {
        true
    }

    open spec fn mul_req(self, rhs: S) -> bool {
        true
    }

    open spec fn mul_spec(self, rhs: S) -> Vector3<S> {
        self.svmul(rhs)
    }
}

impl<S: Scalar> core::ops::Div<S> for Vector3<S> {
    type Output = Vector3<S>;

    fn div(self, other: S) -> Vector3<S> {
        self.divide_scalar(other)
    }
}

impl<S: Scalar> vstd::std_specs::ops::DivSpecImpl<S> for Vector3<S> {
    open spec fn obeys_div_spec() -> bool {
        true
    }

    open spec fn div_req(self, rhs: S) -> bool {
        true
    }

    open spec fn div_spec(self, rhs: S) -> Vector3<S> {
        self.svdiv(rhs)
    }
}


/// A vector with 4 scalar components in Euclidean space.
#[derive(Clone, Copy, Debug, PartialEq, Eq, Hash)]
pub struct Vector4<S> {
    /// The `x` component of the vector.
    pub x: S,
    /// The `y` component of the vector.
    pub y: S,
    /// The `z` component of the vector.
    pub z: S,
    /// The `w` component of the vector.
    pub w: S,
}

impl<S> Vector4<S> {
    /// Construct a new vector from its components.
    pub fn new(x: S, y: S, z: S, w: S) -> (r: Vector4<S>)
        ensures
            r.x == x && r.y == y && r.z == z && r.w == w,
    {
        Vector4 { x: x, y: y, z: z, w: w }
    }
}

impl<S: Copy> Vector4<S> {
    /// Construct a vector with every component equal to one value.
    pub fn from_fill(value: S) -> (r: Vector4<S>)
        ensures
            r.x == value && r.y == value && r.z == value && r.w == value,
    {
        Vector4 { x: value, y: value, z: value, w: value }
    }
}

impl<S: Scalar> Vector4<S> {
    /// The componentwise sum of two vectors, at the specification level.
    pub open spec fn svadd(self, other: Vector4<S>) -> Vector4<S> {
        Vector4 { x: self.x.sadd(other.x), y: self.y.sadd(other.y), z: self.z.sadd(other.z), w: self.w.sadd(other.w) }
    }

    /// The componentwise difference of two vectors, at the specification
    /// level.
    pub open spec fn svsub(self, other: Vector4<S>) -> Vector4<S> {
        Vector4 { x: self.x.ssub(other.x), y: self.y.ssub(other.y), z: self.z.ssub(other.z), w: self.w.ssub(other.w) }
    }

    /// The componentwise negation of a vector, at the specification level.
    pub open spec fn svneg(self) -> Vector4<S> {
        Vector4 { x: self.x.sneg(), y: self.y.sneg(), z: self.z.sneg(), w: self.w.sneg() }
    }

    /// The product of a vector and a scalar, at the specification level.
    pub open spec fn svmul(self, factor: S) -> Vector4<S> {
        Vector4 { x: self.x.smul(factor), y: self.y.smul(factor), z: self.z.smul(factor), w: self.w.smul(factor) }
    }

    /// The quotient of a vector by a scalar, at the specification level.
    pub open spec fn svdiv(self, factor: S) -> Vector4<S> {
        Vector4 { x: self.x.sdiv(factor), y: self.y.sdiv(factor), z: self.z.sdiv(factor), w: self.w.sdiv(factor) }
    }

    /// The dot product of two vectors, at the specification level.
    pub open spec fn sdot(self, other: Vector4<S>) -> S {
        self.x.smul(other.x).sadd(self.y.smul(other.y)).sadd(self.z.smul(other.z)).sadd(self.w.smul(other.w))
    }

    /// The vector whose components are all zero.
    pub fn zero() -> (r: Vector4<S>)
        ensures
            r.x == S::szero() && r.y == S::szero() && r.z == S::szero() && r.w == S::szero(),
    {
        Vector4 { x: S::zero(), y: S::zero(), z: S::zero(), w: S::zero() }
    }


    /// The unit vector along the `x` axis.
    pub fn unit_x() -> (r: Vector4<S>)
        ensures
            r.x == S::sone() && r.y == S::szero() && r.z == S::szero() && r.w == S::szero(),
    {
        Vector4 { x: S::one(), y: S::zero(), z: S::zero(), w: S::zero() }
    }


    /// The unit vector along the `y` axis.
    pub fn unit_y() -> (r: Vector4<S>)
        ensures
            r.x == S::szero() && r.y == S::sone() && r.z == S::szero() && r.w == S::szero(),
    {
        Vector4 { x: S::zero(), y: S::one(), z: S::zero(), w: S::zero() }
    }


    /// The unit vector along the `z` axis.
    pub fn unit_z() -> (r: Vector4<S>)
        ensures
            r.x == S::szero() && r.y == S::szero() && r.z == S::sone() && r.w == S::szero(),
    {
        Vector4 { x: S::zero(), y: S::zero(), z: S::one(), w: S::zero() }
    }


    /// The unit vector along the `w` axis.
    pub fn unit_w() -> (r: Vector4<S>)
        ensures
            r.x == S::szero() && r.y == S::szero() && r.z == S::szero() && r.w == S::sone(),
    {
        Vector4 { x: S::zero(), y: S::zero(), z: S::zero(), w: S::one() }
    }


    /// Negate every component of a vector.
    pub fn negated(self) -> (r: Vector4<S>)
        ensures
            r == self.svneg(),
    {
        Vector4 { x: self.x.negate(), y: self.y.negate(), z: self.z.negate(), w: self.w.negate() }
    }

    /// Compute the dot product of two vectors.
    pub fn dot(self, other: Vector4<S>) -> (r: S)
        ensures
            r == self.sdot(other),
    {
        let t0: S = self.x.times(other.x); let t1: S = self.y.times(other.y); let t2: S = self.z.times(other.z); let t3: S = self.w.times(other.w);
        let s1: S = t0.plus(t1); let s2: S = s1.plus(t2); let s3: S = s2.plus(t3);
        s3
    }

    /// Compute the square of the length of a vector.
    pub fn magnitude_squared(self) -> (r: S)
        ensures
            r == self.sdot(self),
    {
        self.dot(self)
    }


    /// Drop the last component of a vector.
    pub fn contract(self) -> (r: Vector3<S>)
        ensures
            r.x == self.x && r.y == self.y && r.z == self.z,
    {
        Vector3 { x: self.x, y: self.y, z: self.z }
    }

}


impl<S: ScalarFloat> Vector4<S> {
    /// The vector scaled to unit length, at the specification level.
    pub open spec fn snormalize(self) -> Vector4<S> {
        self.svdiv(self.sdot(self).ssqrt())
    }

    /// Compute the length of a vector.
    pub fn magnitude(self) -> (r: S)
        ensures
            r == self.sdot(self).ssqrt(),
    {
        self.magnitude_squared().sqrt()
    }

    /// Scale a vector to unit length.
    pub fn normalize(self) -> (r: Vector4<S>)
        ensures
            r == self.snormalize(),
    {
        let m: S = self.magnitude();
        self.divide_scalar(m)
    }

    /// Scale a vector to a given length.
    pub fn normalize_to(self, magnitude: S) -> (r: Vector4<S>)
        ensures
            r == self.svmul(magnitude.sdiv(self.sdot(self).ssqrt())),
    {
        let m: S = self.magnitude();
        self.times_scalar(magnitude.divide(m))
    }
}


impl<S: Scalar> Vector4<S> {
    /// Compute the projection of a vector onto another vector: the vector
    /// `onto` scaled by the ratio of the dot products.
    pub fn project_onto(self, onto: Vector4<S>) -> (r: Vector4<S>)
        ensures
            r == onto.svmul(self.sdot(onto).sdiv(onto.sdot(onto))),
    {
        let factor: S = self.dot(onto).divide(onto.dot(onto));
        onto.times_scalar(factor)
    }

    /// Multiply every component of a vector by a scalar.
    pub fn times_scalar(self, factor: S) -> (r: Vector4<S>)
        ensures
            r == self.svmul(factor),
    {
        Vector4 { x: self.x.times(factor), y: self.y.times(factor), z: self.z.times(factor), w: self.w.times(factor) }
    }

    /// Divide every component of a vector by a scalar.
    pub fn divide_scalar(self, factor: S) -> (r: Vector4<S>)
        ensures
            r == self.svdiv(factor),
    {
        Vector4 { x: self.x.divide(factor), y: self.y.divide(factor), z: self.z.divide(factor), w: self.w.divide(factor) }
    }
}


impl<S: Scalar> core::ops::Add<Vector4<S>> for Vector4<S> {
    type Output = Vector4<S>;

    fn add(self, other: Vector4<S>) -> Vector4<S> {
        Vector4 { x: self.x.plus(other.x), y: self.y.plus(other.y), z: self.z.plus(other.z), w: self.w.plus(other.w) }
    }
}

impl<S: Scalar> vstd::std_specs::ops::AddSpecImpl<Vector4<S>> for Vector4<S> {
    open spec fn obeys_add_spec() -> bool {
        true
    }

    open spec fn add_req(self, rhs: Vector4<S>) -> bool {
        true
    }

    open spec fn add_spec(self, rhs: Vector4<S>) -> Vector4<S> {
        self.svadd(rhs)
    }
}

impl<S: Scalar> core::ops::Sub<Vector4<S>> for Vector4<S> {
    type Output = Vector4<S>;

    fn sub(self, other: Vector4<S>) -> Vector4<S> {
        Vector4 { x: self.x.minus(other.x), y: self.y.minus(other.y), z: self.z.minus(other.z), w: self.w.minus(other.w) }
    }
}

impl<S: Scalar> vstd::std_specs::ops::SubSpecImpl<Vector4<S>> for Vector4<S> {
    open spec fn obeys_sub_spec() -> bool {
        true
    }

    open spec fn sub_req(self, rhs: Vector4<S>) -> bool {
        true
    }

    open spec fn sub_spec(self, rhs: Vector4<S>) -> Vector4<S> {
        self.svsub(rhs)
    }
}

impl<S: Scalar> core::ops::Neg for Vector4<S> {
    type Output = Vector4<S>;

    fn neg(self) -> Vector4<S> {
        Vector4 { x: self.x.negate(), y: self.y.negate(), z: self.z.negate(), w: self.w.negate() }
    }
}

impl<S: Scalar> vstd::std_specs::ops::NegSpecImpl for Vector4<S> {
    open spec fn obeys_neg_spec() -> bool {
        true
    }

    open spec fn neg_req(self) -> bool {
        true
    }

    open spec fn neg_spec(self) -> Vector4<S> {
        self.svneg()
    }
}

impl<S: Scalar> core::ops::Mul<S> for Vector4<S> {
    type Output = Vector4<S>;

    fn mul(self, other: S) -> Vector4<S> {
        self.times_scalar(other)
    }
}

impl<S: Scalar> vstd::std_specs::ops::MulSpecImpl<S> for Vector4<S> {
    open spec fn obeys_mul_spec() -> bool {
        true
    }

    open spec fn mul_req(self, rhs: S) -> bool {
        true
    }

    open spec fn mul_spec(self, rhs: S) -> Vector4<S> {
        self.svmul(rhs)
    }
}

impl<S: Scalar> core::ops::Div<S> for Vector4<S> {
    type Output = Vector4<S>;

    fn div(self, other: S) -> Vector4<S> {
        self.divide_scalar(other)
    }
}

impl<S: Scalar> vstd::std_specs::ops::DivSpecImpl<S> for Vector4<S> {
    open spec fn obeys_div_spec() -> bool {
        true
    }

    open spec fn div_req(self, rhs: S) -> bool {
        true
    }

    open spec fn div_spec(self, rhs: S) -> Vector4<S> {
        self.svdiv(rhs)
    }
}


impl<S: Scalar> Vector3<S> {
    /// The cross product of two vectors, at the specification level.
    pub open spec fn scross(self, other: Vector3<S>) -> Vector3<S> {
        Vector3 {
            x: self.y.smul(other.z).ssub(self.z.smul(other.y)),
            y: self.z.smul(other.x).ssub(self.x.smul(other.z)),
            z: self.x.smul(other.y).ssub(self.y.smul(other.x)),
        }
    }

    /// Compute the cross product of two vectors.
    pub fn cross(self, other: Vector3<S>) -> (r: Vector3<S>)
        ensures
            r == self.scross(other),
    {
        Vector3 {
            x: self.y.times(other.z).minus(self.z.times(other.y)),
            y: self.z.times(other.x).minus(self.x.times(other.z)),
            z: self.x.times(other.y).minus(self.y.times(other.x)),
        }
    }
}


impl<S: Scalar> ProjectOn<Vector2<S>> for Vector2<S> {
    type Output = Vector2<S>;

    fn project_on(self, onto: Vector2<S>) -> Vector2<S> {
        self.project_onto(onto)
    }
}

impl<S: Scalar> ProjectOn<Vector3<S>> for Vector3<S> {
    type Output = Vector3<S>;

    fn project_on(self, onto: Vector3<S>) -> Vector3<S> {
        self.project_onto(onto)
    }
}

impl<S: Scalar> ProjectOn<Vector4<S>> for Vector4<S> {
    type Output = Vector4<S>;

    fn project_on(self, onto: Vector4<S>) -> Vector4<S> {
        self.project_onto(onto)
    }
}

} // verus!
