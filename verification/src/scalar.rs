//! The scalar capability layer: the traits that a numeric type implements so
//! that the geometric types can be generic over it.
//!
//! Every operation is total and is pinned, at the specification level, to a
//! per-type spec function (`sadd`, `smul`, ...). A verified implementation
//! (the machine integers below) proves that its executable operations agree
//! with those spec functions and that the algebraic laws hold. An unverified
//! implementation supplied by a caller (for example a floating-point scalar)
//! is responsible for meeting the same contracts.

use vstd::prelude::*;

verus! {

/// A type with an additive unit element.
pub trait Zero: Sized + Copy {
    /// The zero element, at the specification level.
    spec fn szero() -> Self;

    /// Create a zero element.
    fn zero() -> (r: Self)
        ensures
            r == Self::szero(),
    ;

    /// Test whether an element is equal to the zero element.
    fn is_zero(&self) -> (r: bool)
        ensures
            r == (*self == Self::szero()),
    ;
}

/// A type with a multiplicative unit element.
pub trait One: Sized + Copy {
    /// The multiplicative unit element, at the specification level.
    spec fn sone() -> Self;

    /// Create a multiplicative unit element.
    fn one() -> (r: Self)
        ensures
            r == Self::sone(),
    ;

    /// Test whether an element is equal to the multiplicative unit element.
    fn is_one(&self) -> (r: bool)
        ensures
            r == (*self == Self::sone()),
    ;
}

/// The ring operations of a scalar type, together with the algebraic laws
/// that the geometric laws of this library build on.
///
/// The spec functions `sadd`, `ssub`, `smul`, `sdiv` and `sneg` name, for each
/// scalar type, the results of the executable operations; every contract in
/// the library that mentions an arithmetic result is stated over them.
pub trait Scalar: Zero + One {
    /// The sum of two scalars, at the specification level.
    spec fn sadd(self, other: Self) -> Self;

    /// The difference of two scalars, at the specification level.
    spec fn ssub(self, other: Self) -> Self;

    /// The product of two scalars, at the specification level.
    spec fn smul(self, other: Self) -> Self;

    /// The quotient of two scalars, at the specification level.
    spec fn sdiv(self, other: Self) -> Self;

    /// The additive inverse of a scalar, at the specification level.
    spec fn sneg(self) -> Self;

    /// Add two scalars.
    fn plus(self, other: Self) -> (r: Self)
        ensures
            r == self.sadd(other),
    ;

    /// Subtract one scalar from another.
    fn minus(self, other: Self) -> (r: Self)
        ensures
            r == self.ssub(other),
    ;

    /// Multiply two scalars.
    fn times(self, other: Self) -> (r: Self)
        ensures
            r == self.smul(other),
    ;

    /// Divide one scalar by another. Division is total: a verified
    /// implementation chooses a result for a zero divisor rather than
    /// panicking.
    fn divide(self, other: Self) -> (r: Self)
        ensures
            r == self.sdiv(other),
    ;

    /// Negate a scalar.
    fn negate(self) -> (r: Self)
        ensures
            r == self.sneg(),
    ;

    /// Zero is a two-sided additive unit.
    proof fn law_add_zero(a: Self)
        ensures
            a.sadd(Self::szero()) == a,
            Self::szero().sadd(a) == a,
    ;

    /// Addition is commutative.
    proof fn law_add_comm(a: Self, b: Self)
        ensures
            a.sadd(b) == b.sadd(a),
    ;

    /// Subtracting zero changes nothing.
    proof fn law_sub_zero(a: Self)
        ensures
            a.ssub(Self::szero()) == a,
    ;

    /// A scalar minus itself is zero.
    proof fn law_sub_self(a: Self)
        ensures
            a.ssub(a) == Self::szero(),
    ;

    /// Zero is a two-sided multiplicative annihilator.
    proof fn law_mul_zero(a: Self)
        ensures
            a.smul(Self::szero()) == Self::szero(),
            Self::szero().smul(a) == Self::szero(),
    ;

    /// One is a two-sided multiplicative unit.
    proof fn law_mul_one(a: Self)
        ensures
            a.smul(Self::sone()) == a,
            Self::sone().smul(a) == a,
    ;

    /// Multiplication is commutative.
    proof fn law_mul_comm(a: Self, b: Self)
        ensures
            a.smul(b) == b.smul(a),
    ;

    /// Subtracting and then adding the same scalar changes nothing.
    proof fn law_sub_add(a: Self, b: Self)
        ensures
            a.ssub(b).sadd(b) == a,
    ;

    /// Addition is associative.
    proof fn law_add_assoc(a: Self, b: Self, c: Self)
        ensures
            a.sadd(b).sadd(c) == a.sadd(b.sadd(c)),
    ;
}

/// The floating-point capability of a scalar: square roots, trigonometry and
/// an approximate-equality predicate.
///
/// No type in this library implements the capability: the transcendental
/// operations cannot be given exact verified bodies here, so a caller
/// supplies an implementation (typically backed by a hardware float) and the
/// library's contracts are stated over the per-type spec functions `ssqrt`,
/// `ssin`, `scos`, `stan`, `sacos` and `sulps_eq`.
pub trait ScalarFloat: Scalar {
    /// The square root, at the specification level.
    spec fn ssqrt(self) -> Self;

    /// The sine, at the specification level.
    spec fn ssin(self) -> Self;

    /// The cosine, at the specification level.
    spec fn scos(self) -> Self;

    /// The tangent, at the specification level.
    spec fn stan(self) -> Self;

    /// The arccosine, at the specification level.
    spec fn sacos(self) -> Self;

    /// The scalar closest to the constant pi, at the specification level.
    spec fn spi() -> Self;

    /// The scalar closest to pi over one hundred and eighty, at the
    /// specification level.
    spec fn sfrac_pi_180() -> Self;

    /// The approximate-equality predicate, at the specification level.
    spec fn sulps_eq(self, other: Self) -> bool;

    /// The strict order on scalars, at the specification level.
    spec fn slt(self, other: Self) -> bool;

    /// The scalar closest to the constant pi.
    fn pi() -> (r: Self)
        ensures
            r == Self::spi(),
    ;

    /// The scalar closest to pi over one hundred and eighty, the factor
    /// that converts degrees to radians.
    fn frac_pi_180() -> (r: Self)
        ensures
            r == Self::sfrac_pi_180(),
    ;

    /// Compute the square root of a scalar.
    fn sqrt(self) -> (r: Self)
        ensures
            r == self.ssqrt(),
    ;

    /// Compute the sine of a scalar.
    fn sin(self) -> (r: Self)
        ensures
            r == self.ssin(),
    ;

    /// Compute the cosine of a scalar.
    fn cos(self) -> (r: Self)
        ensures
            r == self.scos(),
    ;

    /// Compute the tangent of a scalar.
    fn tan(self) -> (r: Self)
        ensures
            r == self.stan(),
    ;

    /// Compute the arccosine of a scalar.
    fn acos(self) -> (r: Self)
        ensures
            r == self.sacos(),
    ;

    /// Test two scalars for approximate equality, in units of least
    /// precision.
    fn ulps_eq(self, other: Self) -> (r: bool)
        ensures
            r == self.sulps_eq(other),
    ;

    /// Test whether one scalar is strictly below another.
    fn lt(self, other: Self) -> (r: bool)
        ensures
            r == self.slt(other),
    ;
}

impl Zero for i64 {
    open spec fn szero() -> i64 {
        0
    }

    fn zero() -> i64 {
        0
    }

    fn is_zero(&self) -> bool {
        *self == 0
    }
}

impl One for i64 {
    open spec fn sone() -> i64 {
        1
    }

    fn one() -> i64 {
        1
    }

    fn is_one(&self) -> bool {
        *self == 1
    }
}

impl Scalar for i64 {
    open spec fn sadd(self, other: i64) -> i64 {
        vstd::wrapping::i64_specs::wrapping_add(self, other)
    }

    open spec fn ssub(self, other: i64) -> i64 {
        vstd::wrapping::i64_specs::wrapping_sub(self, other)
    }

    open spec fn smul(self, other: i64) -> i64 {
        vstd::wrapping::i64_specs::wrapping_mul(self, other)
    }

    open spec fn sdiv(self, other: i64) -> i64 {
        if other == 0 {
            0
        } else if self == i64::MIN && other == -1 {
            i64::MIN
        } else {
            crate::scalar::trunc_div_i64(self, other)
        }
    }

    open spec fn sneg(self) -> i64 {
        if self == i64::MIN {
            i64::MIN
        } else {
            (-(self as int)) as i64
        }
    }

    fn plus(self, other: i64) -> i64 {
        self.wrapping_add(other)
    }

    fn minus(self, other: i64) -> i64 {
        self.wrapping_sub(other)
    }

    fn times(self, other: i64) -> i64 {
        self.wrapping_mul(other)
    }

    fn divide(self, other: i64) -> (r: i64) {
        if other == 0 {
            0
        } else if self == i64::MIN && other == -1 {
            i64::MIN
        } else {
            let ua: u64 = if self >= 0 {
                self as u64
            } else if self == i64::MIN {
                0x8000_0000_0000_0000u64
            } else {
                (-self) as u64
            };
            let ub: u64 = if other >= 0 {
                other as u64
            } else if other == i64::MIN {
                0x8000_0000_0000_0000u64
            } else {
                (-other) as u64
            };
            assert(ua == if self >= 0 { self as int } else { -(self as int) });
            assert(ub == if other >= 0 { other as int } else { -(other as int) });
            let uq: u64 = ua / ub;
            if (self >= 0) == (other >= 0) {
                uq as i64
            } else if uq == 0x8000_0000_0000_0000u64 {
                i64::MIN
            } else {
                -(uq as i64)
            }
        }
    }

    fn negate(self) -> i64 {
        if self == i64::MIN {
            i64::MIN
        } else {
            -self
        }
    }

    proof fn law_add_zero(a: i64) {
    }

    proof fn law_add_comm(a: i64, b: i64) {
    }

    proof fn law_sub_zero(a: i64) {
    }

    proof fn law_sub_self(a: i64) {
    }

    proof fn law_mul_zero(a: i64) {
        assert(vstd::wrapping::i64_specs::wrapping_mul(a, 0) == 0) by {
            assert(a * 0 == 0);
        }
        assert(vstd::wrapping::i64_specs::wrapping_mul(0, a) == 0) by {
            assert(0 * a == 0);
        }
    }

    proof fn law_mul_one(a: i64) {
        assert(vstd::wrapping::i64_specs::wrapping_mul(a, 1) == a) by {
            assert(a * 1 == a);
        }
        assert(vstd::wrapping::i64_specs::wrapping_mul(1, a) == a) by {
            assert(1 * a == a);
        }
    }

    proof fn law_mul_comm(a: i64, b: i64) {
        assert(a * b == b * a);
    }

    proof fn law_sub_add(a: i64, b: i64) {
    }

    proof fn law_add_assoc(a: i64, b: i64, c: i64) {
    }
}

/// Truncating integer division, the rounding-toward-zero division of the
/// machine integers, as a function on spec-level values.
pub open spec fn trunc_div_i64(a: i64, b: i64) -> i64 {
    if a >= 0 && b > 0 {
        (a / b) as i64
    } else if a < 0 && b > 0 {
        (-((-(a as int)) / (b as int))) as i64
    } else if a >= 0 && b < 0 {
        (-((a as int) / (-(b as int)))) as i64
    } else {
        ((-(a as int)) / (-(b as int))) as i64
    }
}

impl Zero for i32 {
    open spec fn szero() -> i32 {
        0
    }

    fn zero() -> i32 {
        0
    }

    fn is_zero(&self) -> bool {
        *self == 0
    }
}

impl One for i32 {
    open spec fn sone() -> i32 {
        1
    }

    fn one() -> i32 {
        1
    }

    fn is_one(&self) -> bool {
        *self == 1
    }
}

impl Scalar for i32 {
    open spec fn sadd(self, other: i32) -> i32 {
        vstd::wrapping::i32_specs::wrapping_add(self, other)
    }

    open spec fn ssub(self, other: i32) -> i32 {
        vstd::wrapping::i32_specs::wrapping_sub(self, other)
    }

    open spec fn smul(self, other: i32) -> i32 {
        vstd::wrapping::i32_specs::wrapping_mul(self, other)
    }

    open spec fn sdiv(self, other: i32) -> i32 {
        if other == 0 {
            0
        } else if self == i32::MIN && other == -1 {
            i32::MIN
        } else {
            crate::scalar::trunc_div_i32(self, other)
        }
    }

    open spec fn sneg(self) -> i32 {
        if self == i32::MIN {
            i32::MIN
        } else {
            (-(self as int)) as i32
        }
    }

    fn plus(self, other: i32) -> i32 {
        self.wrapping_add(other)
    }

    fn minus(self, other: i32) -> i32 {
        self.wrapping_sub(other)
    }

    fn times(self, other: i32) -> i32 {
        self.wrapping_mul(other)
    }

    fn divide(self, other: i32) -> (r: i32) {
        if other == 0 {
            0
        } else if self == i32::MIN && other == -1 {
            i32::MIN
        } else {
            let ua: u32 = if self >= 0 {
                self as u32
            } else if self == i32::MIN {
                0x8000_0000u32
            } else {
                (-self) as u32
            };
            let ub: u32 = if other >= 0 {
                other as u32
            } else if other == i32::MIN {
                0x8000_0000u32
            } else {
                (-other) as u32
            };
            assert(ua == if self >= 0 { self as int } else { -(self as int) });
            assert(ub == if other >= 0 { other as int } else { -(other as int) });
            let uq: u32 = ua / ub;
            if (self >= 0) == (other >= 0) {
                uq as i32
            } else if uq == 0x8000_0000u32 {
                i32::MIN
            } else {
                -(uq as i32)
            }
        }
    }

    fn negate(self) -> i32 {
        if self == i32::MIN {
            i32::MIN
        } else {
            -self
        }
    }

    proof fn law_add_zero(a: i32) {
    }

    proof fn law_add_comm(a: i32, b: i32) {
    }

    proof fn law_sub_zero(a: i32) {
    }

    proof fn law_sub_self(a: i32) {
    }

    proof fn law_mul_zero(a: i32) {
        assert(vstd::wrapping::i32_specs::wrapping_mul(a, 0) == 0) by {
            assert(a * 0 == 0);
        }
        assert(vstd::wrapping::i32_specs::wrapping_mul(0, a) == 0) by {
            assert(0 * a == 0);
        }
    }

    proof fn law_mul_one(a: i32) {
        assert(vstd::wrapping::i32_specs::wrapping_mul(a, 1) == a) by {
            assert(a * 1 == a);
        }
        assert(vstd::wrapping::i32_specs::wrapping_mul(1, a) == a) by {
            assert(1 * a == a);
        }
    }

    proof fn law_mul_comm(a: i32, b: i32) {
        assert(a * b == b * a);
    }

    proof fn law_sub_add(a: i32, b: i32) {
    }

    proof fn law_add_assoc(a: i32, b: i32, c: i32) {
    }
}

/// Truncating integer division on 32-bit integers, the rounding-toward-zero
/// division of the machine, as a function on spec-level values.
pub open spec fn trunc_div_i32(a: i32, b: i32) -> i32 {
    if a >= 0 && b > 0 {
        (a / b) as i32
    } else if a < 0 && b > 0 {
        (-((-(a as int)) / (b as int))) as i32
    } else if a >= 0 && b < 0 {
        (-((a as int) / (-(b as int)))) as i32
    } else {
        ((-(a as int)) / (-(b as int))) as i32
    }
}

} // verus!
