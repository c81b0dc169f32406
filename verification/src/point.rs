//! Points: locations in one-, two- and three-dimensional Euclidean space.
//! A point is a location, while a vector is a displacement relative to the
//! origin; the two convert explicitly and combine through the affine
//! operations below.

use crate::scalar::Scalar;
use crate::vector::Vector1;
use crate::vector::Vector2;
use crate::vector::Vector3;
use crate::vector::Vector4;
use vstd::prelude::*;

verus! {


/// A location in one-dimensional Euclidean space.
#[derive(Clone, Copy, Debug, PartialEq, Eq, Hash)]
pub struct Point1<S> {
    /// The `x` coordinate of the point.
    pub x: S,
}

impl<S> Point1<S> {
    /// Construct a new point from its coordinates.
    pub fn new(x: S) -> (r: Point1<S>)
        ensures
            r.x == x,
    {
        Point1 { x: x }
    }

    /// Map an operation over the coordinates of a point, returning a point
    /// of the new underlying type.
    pub fn map<T, F: Fn(S) -> T>(self, op: F) -> (r: Point1<T>)
        requires
            op.requires((self.x,)),
        ensures
            op.ensures((self.x,), r.x),
    {
        Point1 { x: op(self.x) }
    }
}

impl<S: Copy> Point1<S> {
    /// Construct a point with every coordinate equal to one value.
    pub fn from_fill(value: S) -> (r: Point1<S>)
        ensures
            r.x == value,
    {
        Point1 { x: value }
    }


    /// Construct a point of the next higher dimension by supplying the
    /// missing coordinate.
    pub fn expand(self, y: S) -> (r: Point2<S>)
        ensures
            r.x == self.x,
            r.y == y,
    {
        Point2 { x: self.x, y: y }
    }


}

impl<S: Scalar> Point1<S> {
    /// The origin of the Euclidean space.
    pub fn origin() -> (r: Point1<S>)
        ensures
            r.x == S::szero(),
    {
        Point1 { x: S::zero() }
    }

    /// Convert a vector to a point: the location displaced from the origin
    /// by the vector.
    pub fn from_vector(v: Vector1<S>) -> (r: Point1<S>)
        ensures
            r.x == v.x,
    {
        Point1 { x: v.x }
    }

    /// Convert a point to a vector: the displacement of the point from the
    /// origin.
    pub fn to_vector(self) -> (r: Vector1<S>)
        ensures
            r.x == self.x,
    {
        Vector1 { x: self.x }
    }

}


impl<S: Scalar> core::ops::Add<Vector1<S>> for Point1<S> {
    type Output = Point1<S>;

    fn add(self, other: Vector1<S>) -> Point1<S> {
        Point1 { x: self.x.plus(other.x) }
    }
}

impl<S: Scalar> vstd::std_specs::ops::AddSpecImpl<Vector1<S>> for Point1<S> {
    open spec fn obeys_add_spec() -> bool {
        true
    }

    open spec fn add_req(self, rhs: Vector1<S>) -> bool {
        true
    }

    open spec fn add_spec(self, rhs: Vector1<S>) -> Point1<S> {
        Point1 { x: self.x.sadd(rhs.x) }
    }
}

impl<S: Scalar> core::ops::Sub<Point1<S>> for Point1<S> {
    type Output = Vector1<S>;

    fn sub(self, other: Point1<S>) -> Vector1<S> {
        Vector1 { x: self.x.minus(other.x) }
    }
}

impl<S: Scalar> vstd::std_specs::ops::SubSpecImpl<Point1<S>> for Point1<S> {
    open spec fn obeys_sub_spec() -> bool {
        true
    }

    open spec fn sub_req(self, rhs: Point1<S>) -> bool {
        true
    }

    open spec fn sub_spec(self, rhs: Point1<S>) -> Vector1<S> {
        Vector1 { x: self.x.ssub(rhs.x) }
    }
}

impl<S: Scalar> core::ops::Mul<S> for Point1<S> {
    type Output = Point1<S>;

    fn mul(self, factor: S) -> Point1<S> {
        Point1 { x: self.x.times(factor) }
    }
}

impl<S: Scalar> vstd::std_specs::ops::MulSpecImpl<S> for Point1<S> {
    open spec fn obeys_mul_spec() -> bool {
        true
    }

    open spec fn mul_req(self, rhs: S) -> bool {
        true
    }

    open spec fn mul_spec(self, rhs: S) -> Point1<S> {
        Point1 { x: self.x.smul(rhs) }
    }
}

impl<S: Scalar> core::ops::Div<S> for Point1<S> {
    type Output = Point1<S>;

    fn div(self, factor: S) -> Point1<S> {
        Point1 { x: self.x.divide(factor) }
    }
}

impl<S: Scalar> vstd::std_specs::ops::DivSpecImpl<S> for Point1<S> {
    open spec fn obeys_div_spec() -> bool {
        true
    }

    open spec fn div_req(self, rhs: S) -> bool {
        true
    }

    open spec fn div_spec(self, rhs: S) -> Point1<S> {
        Point1 { x: self.x.sdiv(rhs) }
    }
}


/// A location in two-dimensional Euclidean space.
#[derive(Clone, Copy, Debug, PartialEq, Eq, Hash)]
pub struct Point2<S> {
    /// The `x` coordinate of the point.
    pub x: S,
    /// The `y` coordinate of the point.
    pub y: S,
}

impl<S> Point2<S> {
    /// Construct a new point from its coordinates.
    pub fn new(x: S, y: S) -> (r: Point2<S>)
        ensures
            r.x == x && r.y == y,
    {
        Point2 { x: x, y: y }
    }

    /// Map an operation over the coordinates of a point, returning a point
    /// of the new underlying type.
    pub fn map<T, F: Fn(S) -> T>(self, op: F) -> (r: Point2<T>)
        requires
            op.requires((self.x,)),
            op.requires((self.y,)),
        ensures
            op.ensures((self.x,), r.x),
            op.ensures((self.y,), r.y),
    {
        Point2 { x: op(self.x), y: op(self.y) }
    }
}

impl<S: Copy> Point2<S> {
    /// Construct a point with every coordinate equal to one value.
    pub fn from_fill(value: S) -> (r: Point2<S>)
        ensures
            r.x == value && r.y == value,
    {
        Point2 { x: value, y: value }
    }


    /// Construct a point of the next higher dimension by supplying the
    /// missing coordinate.
    pub fn expand(self, z: S) -> (r: Point3<S>)
        ensures
            r.x == self.x && r.y == self.y,
            r.z == z,
    {
        Point3 { x: self.x, y: self.y, z: z }
    }


    /// Drop the last coordinate of a point.
    pub fn contract(self) -> (r: Point1<S>)
        ensures
            r.x == self.x,
    {
        Point1 { x: self.x }
    }


}

impl<S: Scalar> Point2<S> {
    /// The origin of the Euclidean space.
    pub fn origin() -> (r: Point2<S>)
        ensures
            r.x == S::szero() && r.y == S::szero(),
    {
        Point2 { x: S::zero(), y: S::zero() }
    }

    /// Convert a vector to a point: the location displaced from the origin
    /// by the vector.
    pub fn from_vector(v: Vector2<S>) -> (r: Point2<S>)
        ensures
            r.x == v.x && r.y == v.y,
    {
        Point2 { x: v.x, y: v.y }
    }

    /// Convert a point to a vector: the displacement of the point from the
    /// origin.
    pub fn to_vector(self) -> (r: Vector2<S>)
        ensures
            r.x == self.x && r.y == self.y,
    {
        Vector2 { x: self.x, y: self.y }
    }


    /// Convert a point to a vector in homogeneous coordinates: the
    /// homogeneous coordinate is one.
    pub fn to_homogeneous(self) -> (r: Vector3<S>)
        ensures
            r.x == self.x && r.y == self.y,
            r.z == S::sone(),
    {
        Vector3 { x: self.x, y: self.y, z: S::one() }
    }

    /// Convert a vector in homogeneous coordinates to a point, by dividing
    /// the Euclidean components by the homogeneous coordinate.
    pub fn from_homogeneous(vector: Vector3<S>) -> (r: Point2<S>)
        ensures
            r.x == vector.x.smul(S::sone().sdiv(vector.z)),
            r.y == vector.y.smul(S::sone().sdiv(vector.z)),
    {
        let w_inv: S = S::one().divide(vector.z);
        Point2 { x: vector.x.times(w_inv), y: vector.y.times(w_inv) }
    }

}


impl<S: Scalar> core::ops::Add<Vector2<S>> for Point2<S> {
    type Output = Point2<S>;

    fn add(self, other: Vector2<S>) -> Point2<S> {
        Point2 { x: self.x.plus(other.x), y: self.y.plus(other.y) }
    }
}

impl<S: Scalar> vstd::std_specs::ops::AddSpecImpl<Vector2<S>> for Point2<S> {
    open spec fn obeys_add_spec() -> bool {
        true
    }

    open spec fn add_req(self, rhs: Vector2<S>) -> bool {
        true
    }

    open spec fn add_spec(self, rhs: Vector2<S>) -> Point2<S> {
        Point2 { x: self.x.sadd(rhs.x), y: self.y.sadd(rhs.y) }
    }
}

impl<S: Scalar> core::ops::Sub<Point2<S>> for Point2<S> {
    type Output = Vector2<S>;

    fn sub(self, other: Point2<S>) -> Vector2<S> {
        Vector2 { x: self.x.minus(other.x), y: self.y.minus(other.y) }
    }
}

impl<S: Scalar> vstd::std_specs::ops::SubSpecImpl<Point2<S>> for Point2<S> {
    open spec fn obeys_sub_spec() -> bool {
        true
    }

    open spec fn sub_req(self, rhs: Point2<S>) -> bool {
        true
    }

    open spec fn sub_spec(self, rhs: Point2<S>) -> Vector2<S> {
        Vector2 { x: self.x.ssub(rhs.x), y: self.y.ssub(rhs.y) }
    }
}

impl<S: Scalar> core::ops::Mul<S> for Point2<S> {
    type Output = Point2<S>;

    fn mul(self, factor: S) -> Point2<S> {
        Point2 { x: self.x.times(factor), y: self.y.times(factor) }
    }
}

impl<S: Scalar> vstd::std_specs::ops::MulSpecImpl<S> for Point2<S> {
    open spec fn obeys_mul_spec() -> bool {
        true
    }

    open spec fn mul_req(self, rhs: S) -> bool {
        true
    }

    open spec fn mul_spec(self, rhs: S) -> Point2<S> {
        Point2 { x: self.x.smul(rhs), y: self.y.smul(rhs) }
    }
}

impl<S: Scalar> core::ops::Div<S> for Point2<S> {
    type Output = Point2<S>;

    fn div(self, factor: S) -> Point2<S> {
        Point2 { x: self.x.divide(factor), y: self.y.divide(factor) }
    }
}

impl<S: Scalar> vstd::std_specs::ops::DivSpecImpl<S> for Point2<S> {
    open spec fn obeys_div_spec() -> bool {
        true
    }

    open spec fn div_req(self, rhs: S) -> bool {
        true
    }

    open spec fn div_spec(self, rhs: S) -> Point2<S> {
        Point2 { x: self.x.sdiv(rhs), y: self.y.sdiv(rhs) }
    }
}


/// A location in three-dimensional Euclidean space.
#[derive(Clone, Copy, Debug, PartialEq, Eq, Hash)]
pub struct Point3<S> {
    /// The `x` coordinate of the point.
    pub x: S,
    /// The `y` coordinate of the point.
    pub y: S,
    /// The `z` coordinate of the point.
    pub z: S,
}

impl<S> Point3<S> {
    /// Construct a new point from its coordinates.
    pub fn new(x: S, y: S, z: S) -> (r: Point3<S>)
        ensures
            r.x == x && r.y == y && r.z == z,
    {
        Point3 { x: x, y: y, z: z }
    }

    /// Map an operation over the coordinates of a point, returning a point
    /// of the new underlying type.
    pub fn map<T, F: Fn(S) -> T>(self, op: F) -> (r: Point3<T>)
        requires
            op.requires((self.x,)),
            op.requires((self.y,)),
            op.requires((self.z,)),
        ensures
            op.ensures((self.x,), r.x),
            op.ensures((self.y,), r.y),
            op.ensures((self.z,), r.z),
    {
        Point3 { x: op(self.x), y: op(self.y), z: op(self.z) }
    }
}

impl<S: Copy> Point3<S> {
    /// Construct a point with every coordinate equal to one value.
    pub fn from_fill(value: S) -> (r: Point3<S>)
        ensures
            r.x == value && r.y == value && r.z == value,
    {
        Point3 { x: value, y: value, z: value }
    }


    /// Drop the last coordinate of a point.
    pub fn contract(self) -> (r: Point2<S>)
        ensures
            r.x == self.x && r.y == self.y,
    {
        Point2 { x: self.x, y: self.y }
    }


}

impl<S: Scalar> Point3<S> {
    /// The origin of the Euclidean space.
    pub fn origin() -> (r: Point3<S>)
        ensures
            r.x == S::szero() && r.y == S::szero() && r.z == S::szero(),
    {
        Point3 { x: S::zero(), y: S::zero(), z: S::zero() }
    }

    /// Convert a vector to a point: the location displaced from the origin
    /// by the vector.
    pub fn from_vector(v: Vector3<S>) -> (r: Point3<S>)
        ensures
            r.x == v.x && r.y == v.y && r.z == v.z,
    {
        Point3 { x: v.x, y: v.y, z: v.z }
    }

    /// Convert a point to a vector: the displacement of the point from the
    /// origin.
    pub fn to_vector(self) -> (r: Vector3<S>)
        ensures
            r.x == self.x && r.y == self.y && r.z == self.z,
    {
        Vector3 { x: self.x, y: self.y, z: self.z }
    }


    /// Convert a point to a vector in homogeneous coordinates: the
    /// homogeneous coordinate is one.
    pub fn to_homogeneous(self) -> (r: Vector4<S>)
        ensures
            r.x == self.x && r.y == self.y && r.z == self.z,
            r.w == S::sone(),
    {
        Vector4 { x: self.x, y: self.y, z: self.z, w: S::one() }
    }

    /// Convert a vector in homogeneous coordinates to a point, by dividing
    /// the Euclidean components by the homogeneous coordinate.
    pub fn from_homogeneous(vector: Vector4<S>) -> (r: Point3<S>)
        ensures
            r.x == vector.x.smul(S::sone().sdiv(vector.w)),
            r.y == vector.y.smul(S::sone().sdiv(vector.w)),
            r.z == vector.z.smul(S::sone().sdiv(vector.w)),
    {
        let w_inv: S = S::one().divide(vector.w);
        Point3 { x: vector.x.times(w_inv), y: vector.y.times(w_inv), z: vector.z.times(w_inv) }
    }

}


impl<S: Scalar> core::ops::Add<Vector3<S>> for Point3<S> {
    type Output = Point3<S>;

    fn add(self, other: Vector3<S>) -> Point3<S> {
        Point3 { x: self.x.plus(other.x), y: self.y.plus(other.y), z: self.z.plus(other.z) }
    }
}

impl<S: Scalar> vstd::std_specs::ops::AddSpecImpl<Vector3<S>> for Point3<S> {
    open spec fn obeys_add_spec() -> bool {
        true
    }

    open spec fn add_req(self, rhs: Vector3<S>) -> bool {
        true
    }

    open spec fn add_spec(self, rhs: Vector3<S>) -> Point3<S> {
        Point3 { x: self.x.sadd(rhs.x), y: self.y.sadd(rhs.y), z: self.z.sadd(rhs.z) }
    }
}

impl<S: Scalar> core::ops::Sub<Point3<S>> for Point3<S> {
    type Output = Vector3<S>;

    fn sub(self, other: Point3<S>) -> Vector3<S> {
        Vector3 { x: self.x.minus(other.x), y: self.y.minus(other.y), z: self.z.minus(other.z) }
    }
}

impl<S: Scalar> vstd::std_specs::ops::SubSpecImpl<Point3<S>> for Point3<S> {
    open spec fn obeys_sub_spec() -> bool {
        true
    }

    open spec fn sub_req(self, rhs: Point3<S>) -> bool {
        true
    }

    open spec fn sub_spec(self, rhs: Point3<S>) -> Vector3<S> {
        Vector3 { x: self.x.ssub(rhs.x), y: self.y.ssub(rhs.y), z: self.z.ssub(rhs.z) }
    }
}

impl<S: Scalar> core::ops::Mul<S> for Point3<S> {
    type Output = Point3<S>;

    fn mul(self, factor: S) -> Point3<S> {
        Point3 { x: self.x.times(factor), y: self.y.times(factor), z: self.z.times(factor) }
    }
}

impl<S: Scalar> vstd::std_specs::ops::MulSpecImpl<S> for Point3<S> {
    open spec fn obeys_mul_spec() -> bool {
        true
    }

    open spec fn mul_req(self, rhs: S) -> bool {
        true
    }

    open spec fn mul_spec(self, rhs: S) -> Point3<S> {
        Point3 { x: self.x.smul(rhs), y: self.y.smul(rhs), z: self.z.smul(rhs) }
    }
}

impl<S: Scalar> core::ops::Div<S> for Point3<S> {
    type Output = Point3<S>;

    fn div(self, factor: S) -> Point3<S> {
        Point3 { x: self.x.divide(factor), y: self.y.divide(factor), z: self.z.divide(factor) }
    }
}

impl<S: Scalar> vstd::std_specs::ops::DivSpecImpl<S> for Point3<S> {
    open spec fn obeys_div_spec() -> bool {
        true
    }

    open spec fn div_req(self, rhs: S) -> bool {
        true
    }

    open spec fn div_spec(self, rhs: S) -> Point3<S> {
        Point3 { x: self.x.sdiv(rhs), y: self.y.sdiv(rhs), z: self.z.sdiv(rhs) }
    }
}

} // verus!
