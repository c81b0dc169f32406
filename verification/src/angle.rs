//! Typed angles. A `Radians` or `Degrees` value wraps a scalar so that
//! angular quantities are not confused with unitless scalars; the
//! trigonometric operations delegate to the scalar capability.

use crate::scalar::Scalar;
use crate::scalar::ScalarFloat;
use vstd::prelude::*;

verus! {

/// An angle measured in radians.
#[derive(Clone, Copy, Debug, PartialEq, Eq, Hash)]
pub struct Radians<S>(pub S);

/// An angle measured in degrees.
#[derive(Clone, Copy, Debug, PartialEq, Eq, Hash)]
pub struct Degrees<S>(pub S);

impl<S: ScalarFloat> Radians<S> {
    /// A full turn: two pi radians.
    pub fn full_turn() -> (r: Radians<S>)
        ensures
            r.0 == S::spi().smul(S::sone().sadd(S::sone())),
    {
        Radians(S::pi().times(S::one().plus(S::one())))
    }

    /// Half of a full turn: pi radians.
    pub fn full_turn_div_2() -> (r: Radians<S>)
        ensures
            r.0 == S::spi(),
    {
        Radians(S::pi())
    }

    /// A quarter of a full turn: pi over two radians.
    pub fn full_turn_div_4() -> (r: Radians<S>)
        ensures
            r.0 == S::spi().sdiv(S::sone().sadd(S::sone())),
    {
        Radians(S::pi().divide(S::one().plus(S::one())))
    }

    /// A sixth of a full turn: pi over three radians.
    pub fn full_turn_div_6() -> (r: Radians<S>)
        ensures
            r.0 == S::spi().sdiv(S::sone().sadd(S::sone()).sadd(S::sone())),
    {
        Radians(S::pi().divide(S::one().plus(S::one()).plus(S::one())))
    }

    /// An eighth of a full turn: pi over four radians.
    pub fn full_turn_div_8() -> (r: Radians<S>)
        ensures
            r.0 == S::spi().sdiv(
                S::sone().sadd(S::sone()).sadd(S::sone()).sadd(S::sone()),
            ),
    {
        Radians(S::pi().divide(S::one().plus(S::one()).plus(S::one()).plus(S::one())))
    }

    /// Compute the sine of an angle.
    pub fn sin(self) -> (r: S)
        ensures
            r == self.0.ssin(),
    {
        self.0.sin()
    }

    /// Compute the cosine of an angle.
    pub fn cos(self) -> (r: S)
        ensures
            r == self.0.scos(),
    {
        self.0.cos()
    }

    /// Compute the tangent of an angle.
    pub fn tan(self) -> (r: S)
        ensures
            r == self.0.stan(),
    {
        self.0.tan()
    }

    /// Compute the sine and the cosine of an angle together.
    pub fn sin_cos(self) -> (r: (S, S))
        ensures
            r.0 == self.0.ssin(),
            r.1 == self.0.scos(),
    {
        (self.0.sin(), self.0.cos())
    }

    /// Compute the arccosine of a scalar, as an angle.
    pub fn acos(value: S) -> (r: Radians<S>)
        ensures
            r.0 == value.sacos(),
    {
        Radians(value.acos())
    }

    /// Halve an angle.
    pub fn half(self) -> (r: Radians<S>)
        ensures
            r.0 == self.0.sdiv(S::sone().sadd(S::sone())),
    {
        Radians(self.0.divide(S::one().plus(S::one())))
    }
}

impl<S: Scalar> core::ops::Add<Radians<S>> for Radians<S> {
    type Output = Radians<S>;

    fn add(self, other: Radians<S>) -> Radians<S> {
        Radians(self.0.plus(other.0))
    }
}

impl<S: Scalar> vstd::std_specs::ops::AddSpecImpl<Radians<S>> for Radians<S> {
    open spec fn obeys_add_spec() -> bool {
        true
    }

    open spec fn add_req(self, rhs: Radians<S>) -> bool {
        true
    }

    open spec fn add_spec(self, rhs: Radians<S>) -> Radians<S> {
        Radians(self.0.sadd(rhs.0))
    }
}

impl<S: Scalar> core::ops::Sub<Radians<S>> for Radians<S> {
    type Output = Radians<S>;

    fn sub(self, other: Radians<S>) -> Radians<S> {
        Radians(self.0.minus(other.0))
    }
}

impl<S: Scalar> vstd::std_specs::ops::SubSpecImpl<Radians<S>> for Radians<S> {
    open spec fn obeys_sub_spec() -> bool {
        true
    }

    open spec fn sub_req(self, rhs: Radians<S>) -> bool {
        true
    }

    open spec fn sub_spec(self, rhs: Radians<S>) -> Radians<S> {
        Radians(self.0.ssub(rhs.0))
    }
}

impl<S: Scalar> core::ops::Mul<S> for Radians<S> {
    type Output = Radians<S>;

    fn mul(self, factor: S) -> Radians<S> {
        Radians(self.0.times(factor))
    }
}

impl<S: Scalar> vstd::std_specs::ops::MulSpecImpl<S> for Radians<S> {
    open spec fn obeys_mul_spec() -> bool {
        true
    }

    open spec fn mul_req(self, rhs: S) -> bool {
        true
    }

    open spec fn mul_spec(self, rhs: S) -> Radians<S> {
        Radians(self.0.smul(rhs))
    }
}

impl<S: Scalar> core::ops::Neg for Radians<S> {
    type Output = Radians<S>;

    fn neg(self) -> Radians<S> {
        Radians(self.0.negate())
    }
}

impl<S: Scalar> vstd::std_specs::ops::NegSpecImpl for Radians<S> {
    open spec fn obeys_neg_spec() -> bool {
        true
    }

    open spec fn neg_req(self) -> bool {
        true
    }

    open spec fn neg_spec(self) -> Radians<S> {
        Radians(self.0.sneg())
    }
}

impl<S: ScalarFloat> Degrees<S> {
    /// Convert an angle in degrees to the same angle in radians, by
    /// multiplying with pi over one hundred and eighty.
    pub fn to_radians(self) -> (r: Radians<S>)
        ensures
            r.0 == self.0.smul(S::sfrac_pi_180()),
    {
        Radians(self.0.times(S::frac_pi_180()))
    }
}

} // verus!
