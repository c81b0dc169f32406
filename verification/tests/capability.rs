use cglinalg::Matrix2x2;
use cglinalg::Scalar;
use cglinalg::ScalarFloat;
use cglinalg::One;
use cglinalg::Zero;

/// A floating-point scalar backing the capability traits for the tests.
#[derive(Clone, Copy, Debug, PartialEq, PartialOrd)]
struct F64(f64);

impl Zero for F64 {
    fn szero() -> F64 {
        F64(0.0)
    }

    fn zero() -> F64 {
        F64(0.0)
    }

    fn is_zero(&self) -> bool {
        self.0 == 0.0
    }
}

impl One for F64 {
    fn sone() -> F64 {
        F64(1.0)
    }

    fn one() -> F64 {
        F64(1.0)
    }

    fn is_one(&self) -> bool {
        self.0 == 1.0
    }
}

impl Scalar for F64 {
    fn sadd(self, other: F64) -> F64 {
        F64(self.0 + other.0)
    }

    fn ssub(self, other: F64) -> F64 {
        F64(self.0 - other.0)
    }

    fn smul(self, other: F64) -> F64 {
        F64(self.0 * other.0)
    }

    fn sdiv(self, other: F64) -> F64 {
        F64(self.0 / other.0)
    }

    fn sneg(self) -> F64 {
        F64(-self.0)
    }

    fn law_add_zero(_: F64) {}

    fn law_add_comm(_: F64, _: F64) {}

    fn law_sub_zero(_: F64) {}

    fn law_sub_self(_: F64) {}

    fn law_mul_zero(_: F64) {}

    fn law_mul_one(_: F64) {}

    fn law_mul_comm(_: F64, _: F64) {}

    fn law_sub_add(_: F64, _: F64) {}

    fn law_add_assoc(_: F64, _: F64, _: F64) {}

    fn plus(self, other: F64) -> F64 {
        F64(self.0 + other.0)
    }

    fn minus(self, other: F64) -> F64 {
        F64(self.0 - other.0)
    }

    fn times(self, other: F64) -> F64 {
        F64(self.0 * other.0)
    }

    fn divide(self, other: F64) -> F64 {
        F64(self.0 / other.0)
    }

    fn negate(self) -> F64 {
        F64(-self.0)
    }
}

impl ScalarFloat for F64 {
    fn ssqrt(self) -> F64 {
        F64(self.0.sqrt())
    }

    fn ssin(self) -> F64 {
        F64(self.0.sin())
    }

    fn scos(self) -> F64 {
        F64(self.0.cos())
    }

    fn stan(self) -> F64 {
        F64(self.0.tan())
    }

    fn sacos(self) -> F64 {
        F64(self.0.acos())
    }

    fn spi() -> F64 {
        F64(std::f64::consts::PI)
    }

    fn sfrac_pi_180() -> F64 {
        F64(std::f64::consts::PI / 180.0)
    }

    fn sulps_eq(self, other: F64) -> bool {
        self.ulps_eq(other)
    }

    fn slt(self, other: F64) -> bool {
        self.0 < other.0
    }

    fn pi() -> F64 {
        F64(std::f64::consts::PI)
    }

    fn frac_pi_180() -> F64 {
        F64(std::f64::consts::PI / 180.0)
    }

    fn sqrt(self) -> F64 {
        F64(self.0.sqrt())
    }

    fn sin(self) -> F64 {
        F64(self.0.sin())
    }

    fn cos(self) -> F64 {
        F64(self.0.cos())
    }

    fn tan(self) -> F64 {
        F64(self.0.tan())
    }

    fn acos(self) -> F64 {
        F64(self.0.acos())
    }

    fn ulps_eq(self, other: F64) -> bool {
        let a = self.0;
        let b = other.0;
        if (a - b).abs() <= f64::EPSILON {
            return true;
        }
        if a.is_sign_negative() != b.is_sign_negative() {
            return false;
        }
        let bits_a = a.to_bits() as i64;
        let bits_b = b.to_bits() as i64;
        (bits_a - bits_b).abs() <= 4
    }

    fn lt(self, other: F64) -> bool {
        self.0 < other.0
    }
}

#[test]
fn test_scalar_capability_backs_matrix_arithmetic() {
    let a = Matrix2x2::new(F64(1.0), F64(2.0), F64(3.0), F64(4.0));
    let b = Matrix2x2::identity();
    let c = a * b;
    assert_eq!(c, a);
    let det = a.determinant();
    assert_eq!(det, F64(-2.0));
}
