//! Square matrices with two, three and four rows, stored column-major, with
//! the determinant, inverse, transpose and structural-mutation operations at
//! the heart of the library. Every arithmetic result is pinned to a spec
//! function over the scalar capability.

use crate::angle::Radians;
use crate::point::Point3;
use crate::scalar::Scalar;
use crate::scalar::ScalarFloat;
use crate::vector::Vector2;
use crate::vector::Vector3;
use crate::vector::Vector4;
use vstd::prelude::*;

verus! {

/// A square matrix with 2 rows and 2 columns, stored in column-major
/// order: the two-level index is `column` first, `row` second.
#[derive(Clone, Copy, Debug, PartialEq, Eq, Hash)]
pub struct Matrix2x2<S> {
    /// The entry of the matrix in column 0, row 0.
    pub c0r0: S,
    /// The entry of the matrix in column 0, row 1.
    pub c0r1: S,
    /// The entry of the matrix in column 1, row 0.
    pub c1r0: S,
    /// The entry of the matrix in column 1, row 1.
    pub c1r1: S,
}

impl<S> Matrix2x2<S> {
    /// Construct a new matrix from its entries, given column by column.
    pub fn new(c0r0: S, c0r1: S, c1r0: S, c1r1: S) -> (r: Matrix2x2<S>)
        ensures
            r.c0r0 == c0r0, r.c0r1 == c0r1, r.c1r0 == c1r0, r.c1r1 == c1r1,
    {
        Matrix2x2 { c0r0: c0r0, c0r1: c0r1, c1r0: c1r0, c1r1: c1r1 }
    }
}

impl<S: Copy> Matrix2x2<S> {
    /// Construct a matrix from its columns.
    pub fn from_columns(c0: Vector2<S>, c1: Vector2<S>) -> (r: Matrix2x2<S>)
        ensures
            r.c0r0 == c0.x, r.c0r1 == c0.y, r.c1r0 == c1.x, r.c1r1 == c1.y,
    {
        Matrix2x2 { c0r0: c0.x, c0r1: c0.y, c1r0: c1.x, c1r1: c1.y }
    }

    /// The entry of a matrix in a given column and row, at the
    /// specification level.
    pub open spec fn sget(self, c: int, r: int) -> S {
        if c == 0 { if r == 0 { self.c0r0 } else { self.c0r1 } } else { if r == 0 { self.c1r0 } else { self.c1r1 } }
    }

    /// Read the entry of a matrix in column `c` and row `r`.
    pub fn get(&self, c: usize, r: usize) -> (entry: S)
        requires
            c < 2,
            r < 2,
        ensures
            entry == self.sget(c as int, r as int),
    {
        if c == 0 { if r == 0 { self.c0r0 } else { self.c0r1 } } else { if r == 0 { self.c1r0 } else { self.c1r1 } }
    }

    /// Replace the entry of a matrix in column `c` and row `r`.
    pub fn set(&mut self, c: usize, r: usize, value: S)
        requires
            c < 2,
            r < 2,
        ensures
            forall|cc: int, rr: int|
                0 <= cc < 2 && 0 <= rr < 2 ==> #[trigger] final(self).sget(cc, rr)
                    == (if cc == c && rr == r { value } else { old(self).sget(cc, rr) }),
    {
        if c == 0 && r == 0 { self.c0r0 = value; } else if c == 0 && r == 1 { self.c0r1 = value; } else if c == 1 && r == 0 { self.c1r0 = value; } else if c == 1 && r == 1 { self.c1r1 = value; } else { }
    }

    /// Read the row of a matrix with a given index.
    pub fn row(&self, r: usize) -> (row: Vector2<S>)
        requires
            r < 2,
        ensures
            row.x == self.sget(0, r as int), row.y == self.sget(1, r as int),
    {
        Vector2 { x: self.get(0, r), y: self.get(1, r) }
    }

    /// Read the column of a matrix with a given index.
    pub fn column(&self, c: usize) -> (col: Vector2<S>)
        requires
            c < 2,
        ensures
            col.x == self.sget(c as int, 0), col.y == self.sget(c as int, 1),
    {
        Vector2 { x: self.get(c, 0), y: self.get(c, 1) }
    }

    /// The transpose of a matrix, at the specification level.
    pub open spec fn stranspose(self) -> Matrix2x2<S> {
        Matrix2x2 { c0r0: self.c0r0, c0r1: self.c1r0, c1r0: self.c0r1, c1r1: self.c1r1 }
    }

    /// Transpose a matrix: the entry in column `c`, row `r` of the result is
    /// the entry in column `r`, row `c` of the input.
    pub fn transpose(&self) -> (r: Matrix2x2<S>)
        ensures
            r == self.stranspose(),
    {
        Matrix2x2 { c0r0: self.c0r0, c0r1: self.c1r0, c1r0: self.c0r1, c1r1: self.c1r1 }
    }

    /// Swap two rows of a matrix in place. Swapping a row with itself leaves
    /// the matrix unchanged.
    pub fn swap_rows(&mut self, row_a: usize, row_b: usize)
        requires
            row_a < 2,
            row_b < 2,
        ensures
            forall|cc: int, rr: int|
                0 <= cc < 2 && 0 <= rr < 2 ==> #[trigger] final(self).sget(cc, rr)
                    == (if rr == row_a { old(self).sget(cc, row_b as int) }
                        else if rr == row_b { old(self).sget(cc, row_a as int) }
                        else { old(self).sget(cc, rr) }),
    {
        let ta0: S = self.get(0, row_a);
        let tb0: S = self.get(0, row_b);
        self.set(0, row_a, tb0);
        self.set(0, row_b, ta0);
        let ta1: S = self.get(1, row_a);
        let tb1: S = self.get(1, row_b);
        self.set(1, row_a, tb1);
        self.set(1, row_b, ta1);
    }

    /// Swap two columns of a matrix in place. Swapping a column with itself
    /// leaves the matrix unchanged.
    pub fn swap_columns(&mut self, col_a: usize, col_b: usize)
        requires
            col_a < 2,
            col_b < 2,
        ensures
            forall|cc: int, rr: int|
                0 <= cc < 2 && 0 <= rr < 2 ==> #[trigger] final(self).sget(cc, rr)
                    == (if cc == col_a { old(self).sget(col_b as int, rr) }
                        else if cc == col_b { old(self).sget(col_a as int, rr) }
                        else { old(self).sget(cc, rr) }),
    {
        let ta0: S = self.get(col_a, 0);
        let tb0: S = self.get(col_b, 0);
        self.set(col_a, 0, tb0);
        self.set(col_b, 0, ta0);
        let ta1: S = self.get(col_a, 1);
        let tb1: S = self.get(col_b, 1);
        self.set(col_a, 1, tb1);
        self.set(col_b, 1, ta1);
    }

    /// Swap two entries of a matrix in place, each addressed by a
    /// `(row, column)` pair.
    pub fn swap_elements(&mut self, a: (usize, usize), b: (usize, usize))
        requires
            a.0 < 2,
            a.1 < 2,
            b.0 < 2,
            b.1 < 2,
        ensures
            forall|cc: int, rr: int|
                0 <= cc < 2 && 0 <= rr < 2 ==> #[trigger] final(self).sget(cc, rr)
                    == (if cc == a.1 && rr == a.0 { old(self).sget(b.1 as int, b.0 as int) }
                        else if cc == b.1 && rr == b.0 { old(self).sget(a.1 as int, a.0 as int) }
                        else { old(self).sget(cc, rr) }),
    {
        let va: S = self.get(a.1, a.0);
        let vb: S = self.get(b.1, b.0);
        self.set(a.1, a.0, vb);
        self.set(b.1, b.0, va);
    }
}

impl<S: Scalar> Matrix2x2<S> {
    /// The matrix whose entries are all zero, at the specification level.
    pub open spec fn smzero() -> Matrix2x2<S> {
        Matrix2x2 { c0r0: S::szero(), c0r1: S::szero(), c1r0: S::szero(), c1r1: S::szero() }
    }

    /// The identity matrix, at the specification level.
    pub open spec fn smidentity() -> Matrix2x2<S> {
        Matrix2x2 { c0r0: S::sone(), c0r1: S::szero(), c1r0: S::szero(), c1r1: S::sone() }
    }

    /// The matrix whose entries are all zero.
    pub fn zero() -> (r: Matrix2x2<S>)
        ensures
            r == Matrix2x2::<S>::smzero(),
    {
        Matrix2x2 { c0r0: S::zero(), c0r1: S::zero(), c1r0: S::zero(), c1r1: S::zero() }
    }

    /// The identity matrix: ones along the diagonal, zeros elsewhere.
    pub fn identity() -> (r: Matrix2x2<S>)
        ensures
            r == Matrix2x2::<S>::smidentity(),
    {
        Matrix2x2 { c0r0: S::one(), c0r1: S::zero(), c1r0: S::zero(), c1r1: S::one() }
    }

    /// The componentwise sum of two matrices, at the specification level.
    pub open spec fn smadd(self, other: Matrix2x2<S>) -> Matrix2x2<S> {
        Matrix2x2 { c0r0: self.c0r0.sadd(other.c0r0), c0r1: self.c0r1.sadd(other.c0r1), c1r0: self.c1r0.sadd(other.c1r0), c1r1: self.c1r1.sadd(other.c1r1) }
    }

    /// The componentwise difference of two matrices, at the specification
    /// level.
    pub open spec fn smsub(self, other: Matrix2x2<S>) -> Matrix2x2<S> {
        Matrix2x2 { c0r0: self.c0r0.ssub(other.c0r0), c0r1: self.c0r1.ssub(other.c0r1), c1r0: self.c1r0.ssub(other.c1r0), c1r1: self.c1r1.ssub(other.c1r1) }
    }

    /// The componentwise negation of a matrix, at the specification level.
    pub open spec fn smneg(self) -> Matrix2x2<S> {
        Matrix2x2 { c0r0: self.c0r0.sneg(), c0r1: self.c0r1.sneg(), c1r0: self.c1r0.sneg(), c1r1: self.c1r1.sneg() }
    }

    /// The product of a matrix and a scalar, at the specification level.
    pub open spec fn smmuls(self, factor: S) -> Matrix2x2<S> {
        Matrix2x2 { c0r0: self.c0r0.smul(factor), c0r1: self.c0r1.smul(factor), c1r0: self.c1r0.smul(factor), c1r1: self.c1r1.smul(factor) }
    }

    /// The quotient of a matrix by a scalar, at the specification level.
    pub open spec fn smdivs(self, factor: S) -> Matrix2x2<S> {
        Matrix2x2 { c0r0: self.c0r0.sdiv(factor), c0r1: self.c0r1.sdiv(factor), c1r0: self.c1r0.sdiv(factor), c1r1: self.c1r1.sdiv(factor) }
    }

    /// The matrix product, at the specification level: the entry of
    /// `self.smmul(other)` in column `j`, row `i` is the dot product of row
    /// `i` of `self` with column `j` of `other`.
    pub open spec fn smmul(self, other: Matrix2x2<S>) -> Matrix2x2<S> {
        Matrix2x2 { c0r0: self.c0r0.smul(other.c0r0).sadd(self.c1r0.smul(other.c0r1)), c0r1: self.c0r1.smul(other.c0r0).sadd(self.c1r1.smul(other.c0r1)), c1r0: self.c0r0.smul(other.c1r0).sadd(self.c1r0.smul(other.c1r1)), c1r1: self.c0r1.smul(other.c1r0).sadd(self.c1r1.smul(other.c1r1)) }
    }

    /// The product of a matrix and a column vector, at the specification
    /// level.
    pub open spec fn smulv(self, v: Vector2<S>) -> Vector2<S> {
        Vector2 { x: self.c0r0.smul(v.x).sadd(self.c1r0.smul(v.y)), y: self.c0r1.smul(v.x).sadd(self.c1r1.smul(v.y)) }
    }

    /// The determinant of a matrix, at the specification level: the classic `ad - bc` form.
    pub open spec fn sdet(self) -> S {
        self.c0r0.smul(self.c1r1).ssub(self.c0r1.smul(self.c1r0))
    }

    /// Compute the determinant of a matrix.
    pub fn determinant(&self) -> (r: S)
        ensures
            r == self.sdet(),
    {
        self.c0r0.times(self.c1r1).minus(self.c0r1.times(self.c1r0))
    }

    /// Decide whether a matrix is invertible. The test compares the
    /// determinant with the zero scalar exactly: a tiny but nonzero
    /// determinant still counts as invertible.
    pub fn is_invertible(&self) -> (r: bool)
        ensures
            r == (self.sdet() != S::szero()),
    {
        let det: S = self.determinant();
        !det.is_zero()
    }

    /// Multiply every entry of a matrix by a scalar.
    pub fn times_scalar(self, factor: S) -> (r: Matrix2x2<S>)
        ensures
            r == self.smmuls(factor),
    {
        Matrix2x2 { c0r0: self.c0r0.times(factor), c0r1: self.c0r1.times(factor), c1r0: self.c1r0.times(factor), c1r1: self.c1r1.times(factor) }
    }

    /// Divide every entry of a matrix by a scalar.
    pub fn divide_scalar(self, factor: S) -> (r: Matrix2x2<S>)
        ensures
            r == self.smdivs(factor),
    {
        Matrix2x2 { c0r0: self.c0r0.divide(factor), c0r1: self.c0r1.divide(factor), c1r0: self.c1r0.divide(factor), c1r1: self.c1r1.divide(factor) }
    }
}

impl<S: Scalar> core::ops::Add<Matrix2x2<S>> for Matrix2x2<S> {
    type Output = Matrix2x2<S>;

    fn add(self, other: Matrix2x2<S>) -> Matrix2x2<S> {
        Matrix2x2 { c0r0: self.c0r0.plus(other.c0r0), c0r1: self.c0r1.plus(other.c0r1), c1r0: self.c1r0.plus(other.c1r0), c1r1: self.c1r1.plus(other.c1r1) }
    }
}

impl<S: Scalar> vstd::std_specs::ops::AddSpecImpl<Matrix2x2<S>> for Matrix2x2<S> {
    open spec fn obeys_add_spec() -> bool {
        true
    }

    open spec fn add_req(self, rhs: Matrix2x2<S>) -> bool {
        true
    }

    open spec fn add_spec(self, rhs: Matrix2x2<S>) -> Matrix2x2<S> {
        self.smadd(rhs)
    }
}

impl<S: Scalar> core::ops::Sub<Matrix2x2<S>> for Matrix2x2<S> {
    type Output = Matrix2x2<S>;

    fn sub(self, other: Matrix2x2<S>) -> Matrix2x2<S> {
        Matrix2x2 { c0r0: self.c0r0.minus(other.c0r0), c0r1: self.c0r1.minus(other.c0r1), c1r0: self.c1r0.minus(other.c1r0), c1r1: self.c1r1.minus(other.c1r1) }
    }
}

impl<S: Scalar> vstd::std_specs::ops::SubSpecImpl<Matrix2x2<S>> for Matrix2x2<S> {
    open spec fn obeys_sub_spec() -> bool {
        true
    }

    open spec fn sub_req(self, rhs: Matrix2x2<S>) -> bool {
        true
    }

    open spec fn sub_spec(self, rhs: Matrix2x2<S>) -> Matrix2x2<S> {
        self.smsub(rhs)
    }
}

impl<S: Scalar> core::ops::Neg for Matrix2x2<S> {
    type Output = Matrix2x2<S>;

    fn neg(self) -> Matrix2x2<S> {
        Matrix2x2 { c0r0: self.c0r0.negate(), c0r1: self.c0r1.negate(), c1r0: self.c1r0.negate(), c1r1: self.c1r1.negate() }
    }
}

impl<S: Scalar> vstd::std_specs::ops::NegSpecImpl for Matrix2x2<S> {
    open spec fn obeys_neg_spec() -> bool {
        true
    }

    open spec fn neg_req(self) -> bool {
        true
    }

    open spec fn neg_spec(self) -> Matrix2x2<S> {
        self.smneg()
    }
}

impl<S: Scalar> core::ops::Mul<Matrix2x2<S>> for Matrix2x2<S> {
    type Output = Matrix2x2<S>;

    fn mul(self, other: Matrix2x2<S>) -> Matrix2x2<S> {
        Matrix2x2 { c0r0: self.c0r0.times(other.c0r0).plus(self.c1r0.times(other.c0r1)), c0r1: self.c0r1.times(other.c0r0).plus(self.c1r1.times(other.c0r1)), c1r0: self.c0r0.times(other.c1r0).plus(self.c1r0.times(other.c1r1)), c1r1: self.c0r1.times(other.c1r0).plus(self.c1r1.times(other.c1r1)) }
    }
}

impl<S: Scalar> vstd::std_specs::ops::MulSpecImpl<Matrix2x2<S>> for Matrix2x2<S> {
    open spec fn obeys_mul_spec() -> bool {
        true
    }

    open spec fn mul_req(self, rhs: Matrix2x2<S>) -> bool {
        true
    }

    open spec fn mul_spec(self, rhs: Matrix2x2<S>) -> Matrix2x2<S> {
        self.smmul(rhs)
    }
}

impl<S: Scalar> core::ops::Mul<Vector2<S>> for Matrix2x2<S> {
    type Output = Vector2<S>;

    fn mul(self, v: Vector2<S>) -> Vector2<S> {
        Vector2 { x: self.c0r0.times(v.x).plus(self.c1r0.times(v.y)), y: self.c0r1.times(v.x).plus(self.c1r1.times(v.y)) }
    }
}

impl<S: Scalar> vstd::std_specs::ops::MulSpecImpl<Vector2<S>> for Matrix2x2<S> {
    open spec fn obeys_mul_spec() -> bool {
        true
    }

    open spec fn mul_req(self, rhs: Vector2<S>) -> bool {
        true
    }

    open spec fn mul_spec(self, rhs: Vector2<S>) -> Vector2<S> {
        self.smulv(rhs)
    }
}

impl<S: Scalar> core::ops::Mul<S> for Matrix2x2<S> {
    type Output = Matrix2x2<S>;

    fn mul(self, factor: S) -> Matrix2x2<S> {
        self.times_scalar(factor)
    }
}

impl<S: Scalar> vstd::std_specs::ops::MulSpecImpl<S> for Matrix2x2<S> {
    open spec fn obeys_mul_spec() -> bool {
        true
    }

    open spec fn mul_req(self, rhs: S) -> bool {
        true
    }

    open spec fn mul_spec(self, rhs: S) -> Matrix2x2<S> {
        self.smmuls(rhs)
    }
}

impl<S: Scalar> core::ops::Div<S> for Matrix2x2<S> {
    type Output = Matrix2x2<S>;

    fn div(self, factor: S) -> Matrix2x2<S> {
        self.divide_scalar(factor)
    }
}

impl<S: Scalar> vstd::std_specs::ops::DivSpecImpl<S> for Matrix2x2<S> {
    open spec fn obeys_div_spec() -> bool {
        true
    }

    open spec fn div_req(self, rhs: S) -> bool {
        true
    }

    open spec fn div_spec(self, rhs: S) -> Matrix2x2<S> {
        self.smdivs(rhs)
    }
}

/// A square matrix with 3 rows and 3 columns, stored in column-major
/// order: the two-level index is `column` first, `row` second.
#[derive(Clone, Copy, Debug, PartialEq, Eq, Hash)]
pub struct Matrix3x3<S> {
    /// The entry of the matrix in column 0, row 0.
    pub c0r0: S,
    /// The entry of the matrix in column 0, row 1.
    pub c0r1: S,
    /// The entry of the matrix in column 0, row 2.
    pub c0r2: S,
    /// The entry of the matrix in column 1, row 0.
    pub c1r0: S,
    /// The entry of the matrix in column 1, row 1.
    pub c1r1: S,
    /// The entry of the matrix in column 1, row 2.
    pub c1r2: S,
    /// The entry of the matrix in column 2, row 0.
    pub c2r0: S,
    /// The entry of the matrix in column 2, row 1.
    pub c2r1: S,
    /// The entry of the matrix in column 2, row 2.
    pub c2r2: S,
}

impl<S> Matrix3x3<S> {
    /// Construct a new matrix from its entries, given column by column.
    pub fn new(c0r0: S, c0r1: S, c0r2: S, c1r0: S, c1r1: S, c1r2: S, c2r0: S, c2r1: S, c2r2: S) -> (r: Matrix3x3<S>)
        ensures
            r.c0r0 == c0r0, r.c0r1 == c0r1, r.c0r2 == c0r2, r.c1r0 == c1r0, r.c1r1 == c1r1, r.c1r2 == c1r2, r.c2r0 == c2r0, r.c2r1 == c2r1, r.c2r2 == c2r2,
    {
        Matrix3x3 { c0r0: c0r0, c0r1: c0r1, c0r2: c0r2, c1r0: c1r0, c1r1: c1r1, c1r2: c1r2, c2r0: c2r0, c2r1: c2r1, c2r2: c2r2 }
    }
}

impl<S: Copy> Matrix3x3<S> {
    /// Construct a matrix from its columns.
    pub fn from_columns(c0: Vector3<S>, c1: Vector3<S>, c2: Vector3<S>) -> (r: Matrix3x3<S>)
        ensures
            r.c0r0 == c0.x, r.c0r1 == c0.y, r.c0r2 == c0.z, r.c1r0 == c1.x, r.c1r1 == c1.y, r.c1r2 == c1.z, r.c2r0 == c2.x, r.c2r1 == c2.y, r.c2r2 == c2.z,
    {
        Matrix3x3 { c0r0: c0.x, c0r1: c0.y, c0r2: c0.z, c1r0: c1.x, c1r1: c1.y, c1r2: c1.z, c2r0: c2.x, c2r1: c2.y, c2r2: c2.z }
    }

    /// The entry of a matrix in a given column and row, at the
    /// specification level.
    pub open spec fn sget(self, c: int, r: int) -> S {
        if c == 0 { if r == 0 { self.c0r0 } else if r == 1 { self.c0r1 } else { self.c0r2 } } else if c == 1 { if r == 0 { self.c1r0 } else if r == 1 { self.c1r1 } else { self.c1r2 } } else { if r == 0 { self.c2r0 } else if r == 1 { self.c2r1 } else { self.c2r2 } }
    }

    /// Read the entry of a matrix in column `c` and row `r`.
    pub fn get(&self, c: usize, r: usize) -> (entry: S)
        requires
            c < 3,
            r < 3,
        ensures
            entry == self.sget(c as int, r as int),
    {
        if c == 0 { if r == 0 { self.c0r0 } else if r == 1 { self.c0r1 } else { self.c0r2 } } else if c == 1 { if r == 0 { self.c1r0 } else if r == 1 { self.c1r1 } else { self.c1r2 } } else { if r == 0 { self.c2r0 } else if r == 1 { self.c2r1 } else { self.c2r2 } }
    }

    /// Replace the entry of a matrix in column `c` and row `r`.
    pub fn set(&mut self, c: usize, r: usize, value: S)
        requires
            c < 3,
            r < 3,
        ensures
            forall|cc: int, rr: int|
                0 <= cc < 3 && 0 <= rr < 3 ==> #[trigger] final(self).sget(cc, rr)
                    == (if cc == c && rr == r { value } else { old(self).sget(cc, rr) }),
    {
        if c == 0 && r == 0 { self.c0r0 = value; } else if c == 0 && r == 1 { self.c0r1 = value; } else if c == 0 && r == 2 { self.c0r2 = value; } else if c == 1 && r == 0 { self.c1r0 = value; } else if c == 1 && r == 1 { self.c1r1 = value; } else if c == 1 && r == 2 { self.c1r2 = value; } else if c == 2 && r == 0 { self.c2r0 = value; } else if c == 2 && r == 1 { self.c2r1 = value; } else if c == 2 && r == 2 { self.c2r2 = value; } else { }
    }

    /// Read the row of a matrix with a given index.
    pub fn row(&self, r: usize) -> (row: Vector3<S>)
        requires
            r < 3,
        ensures
            row.x == self.sget(0, r as int), row.y == self.sget(1, r as int), row.z == self.sget(2, r as int),
    {
        Vector3 { x: self.get(0, r), y: self.get(1, r), z: self.get(2, r) }
    }

    /// Read the column of a matrix with a given index.
    pub fn column(&self, c: usize) -> (col: Vector3<S>)
        requires
            c < 3,
        ensures
            col.x == self.sget(c as int, 0), col.y == self.sget(c as int, 1), col.z == self.sget(c as int, 2),
    {
        Vector3 { x: self.get(c, 0), y: self.get(c, 1), z: self.get(c, 2) }
    }

    /// The transpose of a matrix, at the specification level.
    pub open spec fn stranspose(self) -> Matrix3x3<S> {
        Matrix3x3 { c0r0: self.c0r0, c0r1: self.c1r0, c0r2: self.c2r0, c1r0: self.c0r1, c1r1: self.c1r1, c1r2: self.c2r1, c2r0: self.c0r2, c2r1: self.c1r2, c2r2: self.c2r2 }
    }

    /// Transpose a matrix: the entry in column `c`, row `r` of the result is
    /// the entry in column `r`, row `c` of the input.
    pub fn transpose(&self) -> (r: Matrix3x3<S>)
        ensures
            r == self.stranspose(),
    {
        Matrix3x3 { c0r0: self.c0r0, c0r1: self.c1r0, c0r2: self.c2r0, c1r0: self.c0r1, c1r1: self.c1r1, c1r2: self.c2r1, c2r0: self.c0r2, c2r1: self.c1r2, c2r2: self.c2r2 }
    }

    /// Swap two rows of a matrix in place. Swapping a row with itself leaves
    /// the matrix unchanged.
    pub fn swap_rows(&mut self, row_a: usize, row_b: usize)
        requires
            row_a < 3,
            row_b < 3,
        ensures
            forall|cc: int, rr: int|
                0 <= cc < 3 && 0 <= rr < 3 ==> #[trigger] final(self).sget(cc, rr)
                    == (if rr == row_a { old(self).sget(cc, row_b as int) }
                        else if rr == row_b { old(self).sget(cc, row_a as int) }
                        else { old(self).sget(cc, rr) }),
    {
        let ta0: S = self.get(0, row_a);
        let tb0: S = self.get(0, row_b);
        self.set(0, row_a, tb0);
        self.set(0, row_b, ta0);
        let ta1: S = self.get(1, row_a);
        let tb1: S = self.get(1, row_b);
        self.set(1, row_a, tb1);
        self.set(1, row_b, ta1);
        let ta2: S = self.get(2, row_a);
        let tb2: S = self.get(2, row_b);
        self.set(2, row_a, tb2);
        self.set(2, row_b, ta2);
    }

    /// Swap two columns of a matrix in place. Swapping a column with itself
    /// leaves the matrix unchanged.
    pub fn swap_columns(&mut self, col_a: usize, col_b: usize)
        requires
            col_a < 3,
            col_b < 3,
        ensures
            forall|cc: int, rr: int|
                0 <= cc < 3 && 0 <= rr < 3 ==> #[trigger] final(self).sget(cc, rr)
                    == (if cc == col_a { old(self).sget(col_b as int, rr) }
                        else if cc == col_b { old(self).sget(col_a as int, rr) }
                        else { old(self).sget(cc, rr) }),
    {
        let ta0: S = self.get(col_a, 0);
        let tb0: S = self.get(col_b, 0);
        self.set(col_a, 0, tb0);
        self.set(col_b, 0, ta0);
        let ta1: S = self.get(col_a, 1);
        let tb1: S = self.get(col_b, 1);
        self.set(col_a, 1, tb1);
        self.set(col_b, 1, ta1);
        let ta2: S = self.get(col_a, 2);
        let tb2: S = self.get(col_b, 2);
        self.set(col_a, 2, tb2);
        self.set(col_b, 2, ta2);
    }

    /// Swap two entries of a matrix in place, each addressed by a
    /// `(row, column)` pair.
    pub fn swap_elements(&mut self, a: (usize, usize), b: (usize, usize))
        requires
            a.0 < 3,
            a.1 < 3,
            b.0 < 3,
            b.1 < 3,
        ensures
            forall|cc: int, rr: int|
                0 <= cc < 3 && 0 <= rr < 3 ==> #[trigger] final(self).sget(cc, rr)
                    == (if cc == a.1 && rr == a.0 { old(self).sget(b.1 as int, b.0 as int) }
                        else if cc == b.1 && rr == b.0 { old(self).sget(a.1 as int, a.0 as int) }
                        else { old(self).sget(cc, rr) }),
    {
        let va: S = self.get(a.1, a.0);
        let vb: S = self.get(b.1, b.0);
        self.set(a.1, a.0, vb);
        self.set(b.1, b.0, va);
    }
}

impl<S: Scalar> Matrix3x3<S> {
    /// The matrix whose entries are all zero, at the specification level.
    pub open spec fn smzero() -> Matrix3x3<S> {
        Matrix3x3 { c0r0: S::szero(), c0r1: S::szero(), c0r2: S::szero(), c1r0: S::szero(), c1r1: S::szero(), c1r2: S::szero(), c2r0: S::szero(), c2r1: S::szero(), c2r2: S::szero() }
    }

    /// The identity matrix, at the specification level.
    pub open spec fn smidentity() -> Matrix3x3<S> {
        Matrix3x3 { c0r0: S::sone(), c0r1: S::szero(), c0r2: S::szero(), c1r0: S::szero(), c1r1: S::sone(), c1r2: S::szero(), c2r0: S::szero(), c2r1: S::szero(), c2r2: S::sone() }
    }

    /// The matrix whose entries are all zero.
    pub fn zero() -> (r: Matrix3x3<S>)
        ensures
            r == Matrix3x3::<S>::smzero(),
    {
        Matrix3x3 { c0r0: S::zero(), c0r1: S::zero(), c0r2: S::zero(), c1r0: S::zero(), c1r1: S::zero(), c1r2: S::zero(), c2r0: S::zero(), c2r1: S::zero(), c2r2: S::zero() }
    }

    /// The identity matrix: ones along the diagonal, zeros elsewhere.
    pub fn identity() -> (r: Matrix3x3<S>)
        ensures
            r == Matrix3x3::<S>::smidentity(),
    {
        Matrix3x3 { c0r0: S::one(), c0r1: S::zero(), c0r2: S::zero(), c1r0: S::zero(), c1r1: S::one(), c1r2: S::zero(), c2r0: S::zero(), c2r1: S::zero(), c2r2: S::one() }
    }

    /// The componentwise sum of two matrices, at the specification level.
    pub open spec fn smadd(self, other: Matrix3x3<S>) -> Matrix3x3<S> {
        Matrix3x3 { c0r0: self.c0r0.sadd(other.c0r0), c0r1: self.c0r1.sadd(other.c0r1), c0r2: self.c0r2.sadd(other.c0r2), c1r0: self.c1r0.sadd(other.c1r0), c1r1: self.c1r1.sadd(other.c1r1), c1r2: self.c1r2.sadd(other.c1r2), c2r0: self.c2r0.sadd(other.c2r0), c2r1: self.c2r1.sadd(other.c2r1), c2r2: self.c2r2.sadd(other.c2r2) }
    }

    /// The componentwise difference of two matrices, at the specification
    /// level.
    pub open spec fn smsub(self, other: Matrix3x3<S>) -> Matrix3x3<S> {
        Matrix3x3 { c0r0: self.c0r0.ssub(other.c0r0), c0r1: self.c0r1.ssub(other.c0r1), c0r2: self.c0r2.ssub(other.c0r2), c1r0: self.c1r0.ssub(other.c1r0), c1r1: self.c1r1.ssub(other.c1r1), c1r2: self.c1r2.ssub(other.c1r2), c2r0: self.c2r0.ssub(other.c2r0), c2r1: self.c2r1.ssub(other.c2r1), c2r2: self.c2r2.ssub(other.c2r2) }
    }

    /// The componentwise negation of a matrix, at the specification level.
    pub open spec fn smneg(self) -> Matrix3x3<S> {
        Matrix3x3 { c0r0: self.c0r0.sneg(), c0r1: self.c0r1.sneg(), c0r2: self.c0r2.sneg(), c1r0: self.c1r0.sneg(), c1r1: self.c1r1.sneg(), c1r2: self.c1r2.sneg(), c2r0: self.c2r0.sneg(), c2r1: self.c2r1.sneg(), c2r2: self.c2r2.sneg() }
    }

    /// The product of a matrix and a scalar, at the specification level.
    pub open spec fn smmuls(self, factor: S) -> Matrix3x3<S> {
        Matrix3x3 { c0r0: self.c0r0.smul(factor), c0r1: self.c0r1.smul(factor), c0r2: self.c0r2.smul(factor), c1r0: self.c1r0.smul(factor), c1r1: self.c1r1.smul(factor), c1r2: self.c1r2.smul(factor), c2r0: self.c2r0.smul(factor), c2r1: self.c2r1.smul(factor), c2r2: self.c2r2.smul(factor) }
    }

    /// The quotient of a matrix by a scalar, at the specification level.
    pub open spec fn smdivs(self, factor: S) -> Matrix3x3<S> {
        Matrix3x3 { c0r0: self.c0r0.sdiv(factor), c0r1: self.c0r1.sdiv(factor), c0r2: self.c0r2.sdiv(factor), c1r0: self.c1r0.sdiv(factor), c1r1: self.c1r1.sdiv(factor), c1r2: self.c1r2.sdiv(factor), c2r0: self.c2r0.sdiv(factor), c2r1: self.c2r1.sdiv(factor), c2r2: self.c2r2.sdiv(factor) }
    }

    /// The matrix product, at the specification level: the entry of
    /// `self.smmul(other)` in column `j`, row `i` is the dot product of row
    /// `i` of `self` with column `j` of `other`.
    pub open spec fn smmul(self, other: Matrix3x3<S>) -> Matrix3x3<S> {
        Matrix3x3 { c0r0: self.c0r0.smul(other.c0r0).sadd(self.c1r0.smul(other.c0r1)).sadd(self.c2r0.smul(other.c0r2)), c0r1: self.c0r1.smul(other.c0r0).sadd(self.c1r1.smul(other.c0r1)).sadd(self.c2r1.smul(other.c0r2)), c0r2: self.c0r2.smul(other.c0r0).sadd(self.c1r2.smul(other.c0r1)).sadd(self.c2r2.smul(other.c0r2)), c1r0: self.c0r0.smul(other.c1r0).sadd(self.c1r0.smul(other.c1r1)).sadd(self.c2r0.smul(other.c1r2)), c1r1: self.c0r1.smul(other.c1r0).sadd(self.c1r1.smul(other.c1r1)).sadd(self.c2r1.smul(other.c1r2)), c1r2: self.c0r2.smul(other.c1r0).sadd(self.c1r2.smul(other.c1r1)).sadd(self.c2r2.smul(other.c1r2)), c2r0: self.c0r0.smul(other.c2r0).sadd(self.c1r0.smul(other.c2r1)).sadd(self.c2r0.smul(other.c2r2)), c2r1: self.c0r1.smul(other.c2r0).sadd(self.c1r1.smul(other.c2r1)).sadd(self.c2r1.smul(other.c2r2)), c2r2: self.c0r2.smul(other.c2r0).sadd(self.c1r2.smul(other.c2r1)).sadd(self.c2r2.smul(other.c2r2)) }
    }

    /// The product of a matrix and a column vector, at the specification
    /// level.
    pub open spec fn smulv(self, v: Vector3<S>) -> Vector3<S> {
        Vector3 { x: self.c0r0.smul(v.x).sadd(self.c1r0.smul(v.y)).sadd(self.c2r0.smul(v.z)), y: self.c0r1.smul(v.x).sadd(self.c1r1.smul(v.y)).sadd(self.c2r1.smul(v.z)), z: self.c0r2.smul(v.x).sadd(self.c1r2.smul(v.y)).sadd(self.c2r2.smul(v.z)) }
    }

    /// The determinant of a matrix, at the specification level: the three-term cofactor expansion along the first column.
    pub open spec fn sdet(self) -> S {
        self.c0r0.smul(self.c1r1.smul(self.c2r2).ssub(self.c2r1.smul(self.c1r2))).ssub(self.c0r1.smul(self.c1r0.smul(self.c2r2).ssub(self.c2r0.smul(self.c1r2)))).sadd(self.c0r2.smul(self.c1r0.smul(self.c2r1).ssub(self.c2r0.smul(self.c1r1))))
    }

    /// Compute the determinant of a matrix.
    pub fn determinant(&self) -> (r: S)
        ensures
            r == self.sdet(),
    {
        self.c0r0.times(self.c1r1.times(self.c2r2).minus(self.c2r1.times(self.c1r2))).minus(self.c0r1.times(self.c1r0.times(self.c2r2).minus(self.c2r0.times(self.c1r2)))).plus(self.c0r2.times(self.c1r0.times(self.c2r1).minus(self.c2r0.times(self.c1r1))))
    }

    /// Decide whether a matrix is invertible. The test compares the
    /// determinant with the zero scalar exactly: a tiny but nonzero
    /// determinant still counts as invertible.
    pub fn is_invertible(&self) -> (r: bool)
        ensures
            r == (self.sdet() != S::szero()),
    {
        let det: S = self.determinant();
        !det.is_zero()
    }

    /// Multiply every entry of a matrix by a scalar.
    pub fn times_scalar(self, factor: S) -> (r: Matrix3x3<S>)
        ensures
            r == self.smmuls(factor),
    {
        Matrix3x3 { c0r0: self.c0r0.times(factor), c0r1: self.c0r1.times(factor), c0r2: self.c0r2.times(factor), c1r0: self.c1r0.times(factor), c1r1: self.c1r1.times(factor), c1r2: self.c1r2.times(factor), c2r0: self.c2r0.times(factor), c2r1: self.c2r1.times(factor), c2r2: self.c2r2.times(factor) }
    }

    /// Divide every entry of a matrix by a scalar.
    pub fn divide_scalar(self, factor: S) -> (r: Matrix3x3<S>)
        ensures
            r == self.smdivs(factor),
    {
        Matrix3x3 { c0r0: self.c0r0.divide(factor), c0r1: self.c0r1.divide(factor), c0r2: self.c0r2.divide(factor), c1r0: self.c1r0.divide(factor), c1r1: self.c1r1.divide(factor), c1r2: self.c1r2.divide(factor), c2r0: self.c2r0.divide(factor), c2r1: self.c2r1.divide(factor), c2r2: self.c2r2.divide(factor) }
    }
}

impl<S: Scalar> core::ops::Add<Matrix3x3<S>> for Matrix3x3<S> {
    type Output = Matrix3x3<S>;

    fn add(self, other: Matrix3x3<S>) -> Matrix3x3<S> {
        Matrix3x3 { c0r0: self.c0r0.plus(other.c0r0), c0r1: self.c0r1.plus(other.c0r1), c0r2: self.c0r2.plus(other.c0r2), c1r0: self.c1r0.plus(other.c1r0), c1r1: self.c1r1.plus(other.c1r1), c1r2: self.c1r2.plus(other.c1r2), c2r0: self.c2r0.plus(other.c2r0), c2r1: self.c2r1.plus(other.c2r1), c2r2: self.c2r2.plus(other.c2r2) }
    }
}

impl<S: Scalar> vstd::std_specs::ops::AddSpecImpl<Matrix3x3<S>> for Matrix3x3<S> {
    open spec fn obeys_add_spec() -> bool {
        true
    }

    open spec fn add_req(self, rhs: Matrix3x3<S>) -> bool {
        true
    }

    open spec fn add_spec(self, rhs: Matrix3x3<S>) -> Matrix3x3<S> {
        self.smadd(rhs)
    }
}

impl<S: Scalar> core::ops::Sub<Matrix3x3<S>> for Matrix3x3<S> {
    type Output = Matrix3x3<S>;

    fn sub(self, other: Matrix3x3<S>) -> Matrix3x3<S> {
        Matrix3x3 { c0r0: self.c0r0.minus(other.c0r0), c0r1: self.c0r1.minus(other.c0r1), c0r2: self.c0r2.minus(other.c0r2), c1r0: self.c1r0.minus(other.c1r0), c1r1: self.c1r1.minus(other.c1r1), c1r2: self.c1r2.minus(other.c1r2), c2r0: self.c2r0.minus(other.c2r0), c2r1: self.c2r1.minus(other.c2r1), c2r2: self.c2r2.minus(other.c2r2) }
    }
}

impl<S: Scalar> vstd::std_specs::ops::SubSpecImpl<Matrix3x3<S>> for Matrix3x3<S> {
    open spec fn obeys_sub_spec() -> bool {
        true
    }

    open spec fn sub_req(self, rhs: Matrix3x3<S>) -> bool {
        true
    }

    open spec fn sub_spec(self, rhs: Matrix3x3<S>) -> Matrix3x3<S> {
        self.smsub(rhs)
    }
}

impl<S: Scalar> core::ops::Neg for Matrix3x3<S> {
    type Output = Matrix3x3<S>;

    fn neg(self) -> Matrix3x3<S> {
        Matrix3x3 { c0r0: self.c0r0.negate(), c0r1: self.c0r1.negate(), c0r2: self.c0r2.negate(), c1r0: self.c1r0.negate(), c1r1: self.c1r1.negate(), c1r2: self.c1r2.negate(), c2r0: self.c2r0.negate(), c2r1: self.c2r1.negate(), c2r2: self.c2r2.negate() }
    }
}

impl<S: Scalar> vstd::std_specs::ops::NegSpecImpl for Matrix3x3<S> {
    open spec fn obeys_neg_spec() -> bool {
        true
    }

    open spec fn neg_req(self) -> bool {
        true
    }

    open spec fn neg_spec(self) -> Matrix3x3<S> {
        self.smneg()
    }
}

impl<S: Scalar> core::ops::Mul<Matrix3x3<S>> for Matrix3x3<S> {
    type Output = Matrix3x3<S>;

    fn mul(self, other: Matrix3x3<S>) -> Matrix3x3<S> {
        Matrix3x3 { c0r0: self.c0r0.times(other.c0r0).plus(self.c1r0.times(other.c0r1)).plus(self.c2r0.times(other.c0r2)), c0r1: self.c0r1.times(other.c0r0).plus(self.c1r1.times(other.c0r1)).plus(self.c2r1.times(other.c0r2)), c0r2: self.c0r2.times(other.c0r0).plus(self.c1r2.times(other.c0r1)).plus(self.c2r2.times(other.c0r2)), c1r0: self.c0r0.times(other.c1r0).plus(self.c1r0.times(other.c1r1)).plus(self.c2r0.times(other.c1r2)), c1r1: self.c0r1.times(other.c1r0).plus(self.c1r1.times(other.c1r1)).plus(self.c2r1.times(other.c1r2)), c1r2: self.c0r2.times(other.c1r0).plus(self.c1r2.times(other.c1r1)).plus(self.c2r2.times(other.c1r2)), c2r0: self.c0r0.times(other.c2r0).plus(self.c1r0.times(other.c2r1)).plus(self.c2r0.times(other.c2r2)), c2r1: self.c0r1.times(other.c2r0).plus(self.c1r1.times(other.c2r1)).plus(self.c2r1.times(other.c2r2)), c2r2: self.c0r2.times(other.c2r0).plus(self.c1r2.times(other.c2r1)).plus(self.c2r2.times(other.c2r2)) }
    }
}

impl<S: Scalar> vstd::std_specs::ops::MulSpecImpl<Matrix3x3<S>> for Matrix3x3<S> {
    open spec fn obeys_mul_spec() -> bool {
        true
    }

    open spec fn mul_req(self, rhs: Matrix3x3<S>) -> bool {
        true
    }

    open spec fn mul_spec(self, rhs: Matrix3x3<S>) -> Matrix3x3<S> {
        self.smmul(rhs)
    }
}

impl<S: Scalar> core::ops::Mul<Vector3<S>> for Matrix3x3<S> {
    type Output = Vector3<S>;

    fn mul(self, v: Vector3<S>) -> Vector3<S> {
        Vector3 { x: self.c0r0.times(v.x).plus(self.c1r0.times(v.y)).plus(self.c2r0.times(v.z)), y: self.c0r1.times(v.x).plus(self.c1r1.times(v.y)).plus(self.c2r1.times(v.z)), z: self.c0r2.times(v.x).plus(self.c1r2.times(v.y)).plus(self.c2r2.times(v.z)) }
    }
}

impl<S: Scalar> vstd::std_specs::ops::MulSpecImpl<Vector3<S>> for Matrix3x3<S> {
    open spec fn obeys_mul_spec() -> bool {
        true
    }

    open spec fn mul_req(self, rhs: Vector3<S>) -> bool {
        true
    }

    open spec fn mul_spec(self, rhs: Vector3<S>) -> Vector3<S> {
        self.smulv(rhs)
    }
}

impl<S: Scalar> core::ops::Mul<S> for Matrix3x3<S> {
    type Output = Matrix3x3<S>;

    fn mul(self, factor: S) -> Matrix3x3<S> {
        self.times_scalar(factor)
    }
}

impl<S: Scalar> vstd::std_specs::ops::MulSpecImpl<S> for Matrix3x3<S> {
    open spec fn obeys_mul_spec() -> bool {
        true
    }

    open spec fn mul_req(self, rhs: S) -> bool {
        true
    }

    open spec fn mul_spec(self, rhs: S) -> Matrix3x3<S> {
        self.smmuls(rhs)
    }
}

impl<S: Scalar> core::ops::Div<S> for Matrix3x3<S> {
    type Output = Matrix3x3<S>;

    fn div(self, factor: S) -> Matrix3x3<S> {
        self.divide_scalar(factor)
    }
}

impl<S: Scalar> vstd::std_specs::ops::DivSpecImpl<S> for Matrix3x3<S> {
    open spec fn obeys_div_spec() -> bool {
        true
    }

    open spec fn div_req(self, rhs: S) -> bool {
        true
    }

    open spec fn div_spec(self, rhs: S) -> Matrix3x3<S> {
        self.smdivs(rhs)
    }
}

/// A square matrix with 4 rows and 4 columns, stored in column-major
/// order: the two-level index is `column` first, `row` second.
#[derive(Clone, Copy, Debug, PartialEq, Eq, Hash)]
pub struct Matrix4x4<S> {
    /// The entry of the matrix in column 0, row 0.
    pub c0r0: S,
    /// The entry of the matrix in column 0, row 1.
    pub c0r1: S,
    /// The entry of the matrix in column 0, row 2.
    pub c0r2: S,
    /// The entry of the matrix in column 0, row 3.
    pub c0r3: S,
    /// The entry of the matrix in column 1, row 0.
    pub c1r0: S,
    /// The entry of the matrix in column 1, row 1.
    pub c1r1: S,
    /// The entry of the matrix in column 1, row 2.
    pub c1r2: S,
    /// The entry of the matrix in column 1, row 3.
    pub c1r3: S,
    /// The entry of the matrix in column 2, row 0.
    pub c2r0: S,
    /// The entry of the matrix in column 2, row 1.
    pub c2r1: S,
    /// The entry of the matrix in column 2, row 2.
    pub c2r2: S,
    /// The entry of the matrix in column 2, row 3.
    pub c2r3: S,
    /// The entry of the matrix in column 3, row 0.
    pub c3r0: S,
    /// The entry of the matrix in column 3, row 1.
    pub c3r1: S,
    /// The entry of the matrix in column 3, row 2.
    pub c3r2: S,
    /// The entry of the matrix in column 3, row 3.
    pub c3r3: S,
}

impl<S> Matrix4x4<S> {
    /// Construct a new matrix from its entries, given column by column.
    pub fn new(c0r0: S, c0r1: S, c0r2: S, c0r3: S, c1r0: S, c1r1: S, c1r2: S, c1r3: S, c2r0: S, c2r1: S, c2r2: S, c2r3: S, c3r0: S, c3r1: S, c3r2: S, c3r3: S) -> (r: Matrix4x4<S>)
        ensures
            r.c0r0 == c0r0, r.c0r1 == c0r1, r.c0r2 == c0r2, r.c0r3 == c0r3, r.c1r0 == c1r0, r.c1r1 == c1r1, r.c1r2 == c1r2, r.c1r3 == c1r3, r.c2r0 == c2r0, r.c2r1 == c2r1, r.c2r2 == c2r2, r.c2r3 == c2r3, r.c3r0 == c3r0, r.c3r1 == c3r1, r.c3r2 == c3r2, r.c3r3 == c3r3,
    {
        Matrix4x4 { c0r0: c0r0, c0r1: c0r1, c0r2: c0r2, c0r3: c0r3, c1r0: c1r0, c1r1: c1r1, c1r2: c1r2, c1r3: c1r3, c2r0: c2r0, c2r1: c2r1, c2r2: c2r2, c2r3: c2r3, c3r0: c3r0, c3r1: c3r1, c3r2: c3r2, c3r3: c3r3 }
    }
}

impl<S: Copy> Matrix4x4<S> {
    /// Construct a matrix from its columns.
    pub fn from_columns(c0: Vector4<S>, c1: Vector4<S>, c2: Vector4<S>, c3: Vector4<S>) -> (r: Matrix4x4<S>)
        ensures
            r.c0r0 == c0.x, r.c0r1 == c0.y, r.c0r2 == c0.z, r.c0r3 == c0.w, r.c1r0 == c1.x, r.c1r1 == c1.y, r.c1r2 == c1.z, r.c1r3 == c1.w, r.c2r0 == c2.x, r.c2r1 == c2.y, r.c2r2 == c2.z, r.c2r3 == c2.w, r.c3r0 == c3.x, r.c3r1 == c3.y, r.c3r2 == c3.z, r.c3r3 == c3.w,
    {
        Matrix4x4 { c0r0: c0.x, c0r1: c0.y, c0r2: c0.z, c0r3: c0.w, c1r0: c1.x, c1r1: c1.y, c1r2: c1.z, c1r3: c1.w, c2r0: c2.x, c2r1: c2.y, c2r2: c2.z, c2r3: c2.w, c3r0: c3.x, c3r1: c3.y, c3r2: c3.z, c3r3: c3.w }
    }

    /// The entry of a matrix in a given column and row, at the
    /// specification level.
    pub open spec fn sget(self, c: int, r: int) -> S {
        if c == 0 { if r == 0 { self.c0r0 } else if r == 1 { self.c0r1 } else if r == 2 { self.c0r2 } else { self.c0r3 } } else if c == 1 { if r == 0 { self.c1r0 } else if r == 1 { self.c1r1 } else if r == 2 { self.c1r2 } else { self.c1r3 } } else if c == 2 { if r == 0 { self.c2r0 } else if r == 1 { self.c2r1 } else if r == 2 { self.c2r2 } else { self.c2r3 } } else { if r == 0 { self.c3r0 } else if r == 1 { self.c3r1 } else if r == 2 { self.c3r2 } else { self.c3r3 } }
    }

    /// Read the entry of a matrix in column `c` and row `r`.
    pub fn get(&self, c: usize, r: usize) -> (entry: S)
        requires
            c < 4,
            r < 4,
        ensures
            entry == self.sget(c as int, r as int),
    {
        if c == 0 { if r == 0 { self.c0r0 } else if r == 1 { self.c0r1 } else if r == 2 { self.c0r2 } else { self.c0r3 } } else if c == 1 { if r == 0 { self.c1r0 } else if r == 1 { self.c1r1 } else if r == 2 { self.c1r2 } else { self.c1r3 } } else if c == 2 { if r == 0 { self.c2r0 } else if r == 1 { self.c2r1 } else if r == 2 { self.c2r2 } else { self.c2r3 } } else { if r == 0 { self.c3r0 } else if r == 1 { self.c3r1 } else if r == 2 { self.c3r2 } else { self.c3r3 } }
    }

    /// Replace the entry of a matrix in column `c` and row `r`.
    pub fn set(&mut self, c: usize, r: usize, value: S)
        requires
            c < 4,
            r < 4,
        ensures
            forall|cc: int, rr: int|
                0 <= cc < 4 && 0 <= rr < 4 ==> #[trigger] final(self).sget(cc, rr)
                    == (if cc == c && rr == r { value } else { old(self).sget(cc, rr) }),
    {
        if c == 0 && r == 0 { self.c0r0 = value; } else if c == 0 && r == 1 { self.c0r1 = value; } else if c == 0 && r == 2 { self.c0r2 = value; } else if c == 0 && r == 3 { self.c0r3 = value; } else if c == 1 && r == 0 { self.c1r0 = value; } else if c == 1 && r == 1 { self.c1r1 = value; } else if c == 1 && r == 2 { self.c1r2 = value; } else if c == 1 && r == 3 { self.c1r3 = value; } else if c == 2 && r == 0 { self.c2r0 = value; } else if c == 2 && r == 1 { self.c2r1 = value; } else if c == 2 && r == 2 { self.c2r2 = value; } else if c == 2 && r == 3 { self.c2r3 = value; } else if c == 3 && r == 0 { self.c3r0 = value; } else if c == 3 && r == 1 { self.c3r1 = value; } else if c == 3 && r == 2 { self.c3r2 = value; } else if c == 3 && r == 3 { self.c3r3 = value; } else { }
    }

    /// Read the row of a matrix with a given index.
    pub fn row(&self, r: usize) -> (row: Vector4<S>)
        requires
            r < 4,
        ensures
            row.x == self.sget(0, r as int), row.y == self.sget(1, r as int), row.z == self.sget(2, r as int), row.w == self.sget(3, r as int),
    {
        Vector4 { x: self.get(0, r), y: self.get(1, r), z: self.get(2, r), w: self.get(3, r) }
    }

    /// Read the column of a matrix with a given index.
    pub fn column(&self, c: usize) -> (col: Vector4<S>)
        requires
            c < 4,
        ensures
            col.x == self.sget(c as int, 0), col.y == self.sget(c as int, 1), col.z == self.sget(c as int, 2), col.w == self.sget(c as int, 3),
    {
        Vector4 { x: self.get(c, 0), y: self.get(c, 1), z: self.get(c, 2), w: self.get(c, 3) }
    }

    /// The transpose of a matrix, at the specification level.
    pub open spec fn stranspose(self) -> Matrix4x4<S> {
        Matrix4x4 { c0r0: self.c0r0, c0r1: self.c1r0, c0r2: self.c2r0, c0r3: self.c3r0, c1r0: self.c0r1, c1r1: self.c1r1, c1r2: self.c2r1, c1r3: self.c3r1, c2r0: self.c0r2, c2r1: self.c1r2, c2r2: self.c2r2, c2r3: self.c3r2, c3r0: self.c0r3, c3r1: self.c1r3, c3r2: self.c2r3, c3r3: self.c3r3 }
    }

    /// Transpose a matrix: the entry in column `c`, row `r` of the result is
    /// the entry in column `r`, row `c` of the input.
    pub fn transpose(&self) -> (r: Matrix4x4<S>)
        ensures
            r == self.stranspose(),
    {
        Matrix4x4 { c0r0: self.c0r0, c0r1: self.c1r0, c0r2: self.c2r0, c0r3: self.c3r0, c1r0: self.c0r1, c1r1: self.c1r1, c1r2: self.c2r1, c1r3: self.c3r1, c2r0: self.c0r2, c2r1: self.c1r2, c2r2: self.c2r2, c2r3: self.c3r2, c3r0: self.c0r3, c3r1: self.c1r3, c3r2: self.c2r3, c3r3: self.c3r3 }
    }

    /// Swap two rows of a matrix in place. Swapping a row with itself leaves
    /// the matrix unchanged.
    pub fn swap_rows(&mut self, row_a: usize, row_b: usize)
        requires
            row_a < 4,
            row_b < 4,
        ensures
            forall|cc: int, rr: int|
                0 <= cc < 4 && 0 <= rr < 4 ==> #[trigger] final(self).sget(cc, rr)
                    == (if rr == row_a { old(self).sget(cc, row_b as int) }
                        else if rr == row_b { old(self).sget(cc, row_a as int) }
                        else { old(self).sget(cc, rr) }),
    {
        let ta0: S = self.get(0, row_a);
        let tb0: S = self.get(0, row_b);
        self.set(0, row_a, tb0);
        self.set(0, row_b, ta0);
        let ta1: S = self.get(1, row_a);
        let tb1: S = self.get(1, row_b);
        self.set(1, row_a, tb1);
        self.set(1, row_b, ta1);
        let ta2: S = self.get(2, row_a);
        let tb2: S = self.get(2, row_b);
        self.set(2, row_a, tb2);
        self.set(2, row_b, ta2);
        let ta3: S = self.get(3, row_a);
        let tb3: S = self.get(3, row_b);
        self.set(3, row_a, tb3);
        self.set(3, row_b, ta3);
    }

    /// Swap two columns of a matrix in place. Swapping a column with itself
    /// leaves the matrix unchanged.
    pub fn swap_columns(&mut self, col_a: usize, col_b: usize)
        requires
            col_a < 4,
            col_b < 4,
        ensures
            forall|cc: int, rr: int|
                0 <= cc < 4 && 0 <= rr < 4 ==> #[trigger] final(self).sget(cc, rr)
                    == (if cc == col_a { old(self).sget(col_b as int, rr) }
                        else if cc == col_b { old(self).sget(col_a as int, rr) }
                        else { old(self).sget(cc, rr) }),
    {
        let ta0: S = self.get(col_a, 0);
        let tb0: S = self.get(col_b, 0);
        self.set(col_a, 0, tb0);
        self.set(col_b, 0, ta0);
        let ta1: S = self.get(col_a, 1);
        let tb1: S = self.get(col_b, 1);
        self.set(col_a, 1, tb1);
        self.set(col_b, 1, ta1);
        let ta2: S = self.get(col_a, 2);
        let tb2: S = self.get(col_b, 2);
        self.set(col_a, 2, tb2);
        self.set(col_b, 2, ta2);
        let ta3: S = self.get(col_a, 3);
        let tb3: S = self.get(col_b, 3);
        self.set(col_a, 3, tb3);
        self.set(col_b, 3, ta3);
    }

    /// Swap two entries of a matrix in place, each addressed by a
    /// `(row, column)` pair.
    pub fn swap_elements(&mut self, a: (usize, usize), b: (usize, usize))
        requires
            a.0 < 4,
            a.1 < 4,
            b.0 < 4,
            b.1 < 4,
        ensures
            forall|cc: int, rr: int|
                0 <= cc < 4 && 0 <= rr < 4 ==> #[trigger] final(self).sget(cc, rr)
                    == (if cc == a.1 && rr == a.0 { old(self).sget(b.1 as int, b.0 as int) }
                        else if cc == b.1 && rr == b.0 { old(self).sget(a.1 as int, a.0 as int) }
                        else { old(self).sget(cc, rr) }),
    {
        let va: S = self.get(a.1, a.0);
        let vb: S = self.get(b.1, b.0);
        self.set(a.1, a.0, vb);
        self.set(b.1, b.0, va);
    }
}

impl<S: Scalar> Matrix4x4<S> {
    /// The matrix whose entries are all zero, at the specification level.
    pub open spec fn smzero() -> Matrix4x4<S> {
        Matrix4x4 { c0r0: S::szero(), c0r1: S::szero(), c0r2: S::szero(), c0r3: S::szero(), c1r0: S::szero(), c1r1: S::szero(), c1r2: S::szero(), c1r3: S::szero(), c2r0: S::szero(), c2r1: S::szero(), c2r2: S::szero(), c2r3: S::szero(), c3r0: S::szero(), c3r1: S::szero(), c3r2: S::szero(), c3r3: S::szero() }
    }

    /// The identity matrix, at the specification level.
    pub open spec fn smidentity() -> Matrix4x4<S> {
        Matrix4x4 { c0r0: S::sone(), c0r1: S::szero(), c0r2: S::szero(), c0r3: S::szero(), c1r0: S::szero(), c1r1: S::sone(), c1r2: S::szero(), c1r3: S::szero(), c2r0: S::szero(), c2r1: S::szero(), c2r2: S::sone(), c2r3: S::szero(), c3r0: S::szero(), c3r1: S::szero(), c3r2: S::szero(), c3r3: S::sone() }
    }

    /// The matrix whose entries are all zero.
    pub fn zero() -> (r: Matrix4x4<S>)
        ensures
            r == Matrix4x4::<S>::smzero(),
    {
        Matrix4x4 { c0r0: S::zero(), c0r1: S::zero(), c0r2: S::zero(), c0r3: S::zero(), c1r0: S::zero(), c1r1: S::zero(), c1r2: S::zero(), c1r3: S::zero(), c2r0: S::zero(), c2r1: S::zero(), c2r2: S::zero(), c2r3: S::zero(), c3r0: S::zero(), c3r1: S::zero(), c3r2: S::zero(), c3r3: S::zero() }
    }

    /// The identity matrix: ones along the diagonal, zeros elsewhere.
    pub fn identity() -> (r: Matrix4x4<S>)
        ensures
            r == Matrix4x4::<S>::smidentity(),
    {
        Matrix4x4 { c0r0: S::one(), c0r1: S::zero(), c0r2: S::zero(), c0r3: S::zero(), c1r0: S::zero(), c1r1: S::one(), c1r2: S::zero(), c1r3: S::zero(), c2r0: S::zero(), c2r1: S::zero(), c2r2: S::one(), c2r3: S::zero(), c3r0: S::zero(), c3r1: S::zero(), c3r2: S::zero(), c3r3: S::one() }
    }

    /// The componentwise sum of two matrices, at the specification level.
    pub open spec fn smadd(self, other: Matrix4x4<S>) -> Matrix4x4<S> {
        Matrix4x4 { c0r0: self.c0r0.sadd(other.c0r0), c0r1: self.c0r1.sadd(other.c0r1), c0r2: self.c0r2.sadd(other.c0r2), c0r3: self.c0r3.sadd(other.c0r3), c1r0: self.c1r0.sadd(other.c1r0), c1r1: self.c1r1.sadd(other.c1r1), c1r2: self.c1r2.sadd(other.c1r2), c1r3: self.c1r3.sadd(other.c1r3), c2r0: self.c2r0.sadd(other.c2r0), c2r1: self.c2r1.sadd(other.c2r1), c2r2: self.c2r2.sadd(other.c2r2), c2r3: self.c2r3.sadd(other.c2r3), c3r0: self.c3r0.sadd(other.c3r0), c3r1: self.c3r1.sadd(other.c3r1), c3r2: self.c3r2.sadd(other.c3r2), c3r3: self.c3r3.sadd(other.c3r3) }
    }

    /// The componentwise difference of two matrices, at the specification
    /// level.
    pub open spec fn smsub(self, other: Matrix4x4<S>) -> Matrix4x4<S> {
        Matrix4x4 { c0r0: self.c0r0.ssub(other.c0r0), c0r1: self.c0r1.ssub(other.c0r1), c0r2: self.c0r2.ssub(other.c0r2), c0r3: self.c0r3.ssub(other.c0r3), c1r0: self.c1r0.ssub(other.c1r0), c1r1: self.c1r1.ssub(other.c1r1), c1r2: self.c1r2.ssub(other.c1r2), c1r3: self.c1r3.ssub(other.c1r3), c2r0: self.c2r0.ssub(other.c2r0), c2r1: self.c2r1.ssub(other.c2r1), c2r2: self.c2r2.ssub(other.c2r2), c2r3: self.c2r3.ssub(other.c2r3), c3r0: self.c3r0.ssub(other.c3r0), c3r1: self.c3r1.ssub(other.c3r1), c3r2: self.c3r2.ssub(other.c3r2), c3r3: self.c3r3.ssub(other.c3r3) }
    }

    /// The componentwise negation of a matrix, at the specification level.
    pub open spec fn smneg(self) -> Matrix4x4<S> {
        Matrix4x4 { c0r0: self.c0r0.sneg(), c0r1: self.c0r1.sneg(), c0r2: self.c0r2.sneg(), c0r3: self.c0r3.sneg(), c1r0: self.c1r0.sneg(), c1r1: self.c1r1.sneg(), c1r2: self.c1r2.sneg(), c1r3: self.c1r3.sneg(), c2r0: self.c2r0.sneg(), c2r1: self.c2r1.sneg(), c2r2: self.c2r2.sneg(), c2r3: self.c2r3.sneg(), c3r0: self.c3r0.sneg(), c3r1: self.c3r1.sneg(), c3r2: self.c3r2.sneg(), c3r3: self.c3r3.sneg() }
    }

    /// The product of a matrix and a scalar, at the specification level.
    pub open spec fn smmuls(self, factor: S) -> Matrix4x4<S> {
        Matrix4x4 { c0r0: self.c0r0.smul(factor), c0r1: self.c0r1.smul(factor), c0r2: self.c0r2.smul(factor), c0r3: self.c0r3.smul(factor), c1r0: self.c1r0.smul(factor), c1r1: self.c1r1.smul(factor), c1r2: self.c1r2.smul(factor), c1r3: self.c1r3.smul(factor), c2r0: self.c2r0.smul(factor), c2r1: self.c2r1.smul(factor), c2r2: self.c2r2.smul(factor), c2r3: self.c2r3.smul(factor), c3r0: self.c3r0.smul(factor), c3r1: self.c3r1.smul(factor), c3r2: self.c3r2.smul(factor), c3r3: self.c3r3.smul(factor) }
    }

    /// The quotient of a matrix by a scalar, at the specification level.
    pub open spec fn smdivs(self, factor: S) -> Matrix4x4<S> {
        Matrix4x4 { c0r0: self.c0r0.sdiv(factor), c0r1: self.c0r1.sdiv(factor), c0r2: self.c0r2.sdiv(factor), c0r3: self.c0r3.sdiv(factor), c1r0: self.c1r0.sdiv(factor), c1r1: self.c1r1.sdiv(factor), c1r2: self.c1r2.sdiv(factor), c1r3: self.c1r3.sdiv(factor), c2r0: self.c2r0.sdiv(factor), c2r1: self.c2r1.sdiv(factor), c2r2: self.c2r2.sdiv(factor), c2r3: self.c2r3.sdiv(factor), c3r0: self.c3r0.sdiv(factor), c3r1: self.c3r1.sdiv(factor), c3r2: self.c3r2.sdiv(factor), c3r3: self.c3r3.sdiv(factor) }
    }

    /// The matrix product, at the specification level: the entry of
    /// `self.smmul(other)` in column `j`, row `i` is the dot product of row
    /// `i` of `self` with column `j` of `other`.
    pub open spec fn smmul(self, other: Matrix4x4<S>) -> Matrix4x4<S> {
        Matrix4x4 { c0r0: self.c0r0.smul(other.c0r0).sadd(self.c1r0.smul(other.c0r1)).sadd(self.c2r0.smul(other.c0r2)).sadd(self.c3r0.smul(other.c0r3)), c0r1: self.c0r1.smul(other.c0r0).sadd(self.c1r1.smul(other.c0r1)).sadd(self.c2r1.smul(other.c0r2)).sadd(self.c3r1.smul(other.c0r3)), c0r2: self.c0r2.smul(other.c0r0).sadd(self.c1r2.smul(other.c0r1)).sadd(self.c2r2.smul(other.c0r2)).sadd(self.c3r2.smul(other.c0r3)), c0r3: self.c0r3.smul(other.c0r0).sadd(self.c1r3.smul(other.c0r1)).sadd(self.c2r3.smul(other.c0r2)).sadd(self.c3r3.smul(other.c0r3)), c1r0: self.c0r0.smul(other.c1r0).sadd(self.c1r0.smul(other.c1r1)).sadd(self.c2r0.smul(other.c1r2)).sadd(self.c3r0.smul(other.c1r3)), c1r1: self.c0r1.smul(other.c1r0).sadd(self.c1r1.smul(other.c1r1)).sadd(self.c2r1.smul(other.c1r2)).sadd(self.c3r1.smul(other.c1r3)), c1r2: self.c0r2.smul(other.c1r0).sadd(self.c1r2.smul(other.c1r1)).sadd(self.c2r2.smul(other.c1r2)).sadd(self.c3r2.smul(other.c1r3)), c1r3: self.c0r3.smul(other.c1r0).sadd(self.c1r3.smul(other.c1r1)).sadd(self.c2r3.smul(other.c1r2)).sadd(self.c3r3.smul(other.c1r3)), c2r0: self.c0r0.smul(other.c2r0).sadd(self.c1r0.smul(other.c2r1)).sadd(self.c2r0.smul(other.c2r2)).sadd(self.c3r0.smul(other.c2r3)), c2r1: self.c0r1.smul(other.c2r0).sadd(self.c1r1.smul(other.c2r1)).sadd(self.c2r1.smul(other.c2r2)).sadd(self.c3r1.smul(other.c2r3)), c2r2: self.c0r2.smul(other.c2r0).sadd(self.c1r2.smul(other.c2r1)).sadd(self.c2r2.smul(other.c2r2)).sadd(self.c3r2.smul(other.c2r3)), c2r3: self.c0r3.smul(other.c2r0).sadd(self.c1r3.smul(other.c2r1)).sadd(self.c2r3.smul(other.c2r2)).sadd(self.c3r3.smul(other.c2r3)), c3r0: self.c0r0.smul(other.c3r0).sadd(self.c1r0.smul(other.c3r1)).sadd(self.c2r0.smul(other.c3r2)).sadd(self.c3r0.smul(other.c3r3)), c3r1: self.c0r1.smul(other.c3r0).sadd(self.c1r1.smul(other.c3r1)).sadd(self.c2r1.smul(other.c3r2)).sadd(self.c3r1.smul(other.c3r3)), c3r2: self.c0r2.smul(other.c3r0).sadd(self.c1r2.smul(other.c3r1)).sadd(self.c2r2.smul(other.c3r2)).sadd(self.c3r2.smul(other.c3r3)), c3r3: self.c0r3.smul(other.c3r0).sadd(self.c1r3.smul(other.c3r1)).sadd(self.c2r3.smul(other.c3r2)).sadd(self.c3r3.smul(other.c3r3)) }
    }

    /// The product of a matrix and a column vector, at the specification
    /// level.
    pub open spec fn smulv(self, v: Vector4<S>) -> Vector4<S> {
        Vector4 { x: self.c0r0.smul(v.x).sadd(self.c1r0.smul(v.y)).sadd(self.c2r0.smul(v.z)).sadd(self.c3r0.smul(v.w)), y: self.c0r1.smul(v.x).sadd(self.c1r1.smul(v.y)).sadd(self.c2r1.smul(v.z)).sadd(self.c3r1.smul(v.w)), z: self.c0r2.smul(v.x).sadd(self.c1r2.smul(v.y)).sadd(self.c2r2.smul(v.z)).sadd(self.c3r2.smul(v.w)), w: self.c0r3.smul(v.x).sadd(self.c1r3.smul(v.y)).sadd(self.c2r3.smul(v.z)).sadd(self.c3r3.smul(v.w)) }
    }

    /// The determinant of a matrix, at the specification level: the expansion by the six two-by-two minors of the top two rows against those of the bottom two rows.
    pub open spec fn sdet(self) -> S {
        (self.c0r0.smul(self.c1r1).ssub(self.c1r0.smul(self.c0r1))).smul((self.c2r2.smul(self.c3r3).ssub(self.c3r2.smul(self.c2r3)))).ssub((self.c0r0.smul(self.c2r1).ssub(self.c2r0.smul(self.c0r1))).smul((self.c1r2.smul(self.c3r3).ssub(self.c3r2.smul(self.c1r3))))).sadd((self.c0r0.smul(self.c3r1).ssub(self.c3r0.smul(self.c0r1))).smul((self.c1r2.smul(self.c2r3).ssub(self.c2r2.smul(self.c1r3))))).sadd((self.c1r0.smul(self.c2r1).ssub(self.c2r0.smul(self.c1r1))).smul((self.c0r2.smul(self.c3r3).ssub(self.c3r2.smul(self.c0r3))))).ssub((self.c1r0.smul(self.c3r1).ssub(self.c3r0.smul(self.c1r1))).smul((self.c0r2.smul(self.c2r3).ssub(self.c2r2.smul(self.c0r3))))).sadd((self.c2r0.smul(self.c3r1).ssub(self.c3r0.smul(self.c2r1))).smul((self.c0r2.smul(self.c1r3).ssub(self.c1r2.smul(self.c0r3)))))
    }

    /// Compute the determinant of a matrix.
    pub fn determinant(&self) -> (r: S)
        ensures
            r == self.sdet(),
    {
        (self.c0r0.times(self.c1r1).minus(self.c1r0.times(self.c0r1))).times((self.c2r2.times(self.c3r3).minus(self.c3r2.times(self.c2r3)))).minus((self.c0r0.times(self.c2r1).minus(self.c2r0.times(self.c0r1))).times((self.c1r2.times(self.c3r3).minus(self.c3r2.times(self.c1r3))))).plus((self.c0r0.times(self.c3r1).minus(self.c3r0.times(self.c0r1))).times((self.c1r2.times(self.c2r3).minus(self.c2r2.times(self.c1r3))))).plus((self.c1r0.times(self.c2r1).minus(self.c2r0.times(self.c1r1))).times((self.c0r2.times(self.c3r3).minus(self.c3r2.times(self.c0r3))))).minus((self.c1r0.times(self.c3r1).minus(self.c3r0.times(self.c1r1))).times((self.c0r2.times(self.c2r3).minus(self.c2r2.times(self.c0r3))))).plus((self.c2r0.times(self.c3r1).minus(self.c3r0.times(self.c2r1))).times((self.c0r2.times(self.c1r3).minus(self.c1r2.times(self.c0r3)))))
    }

    /// Decide whether a matrix is invertible. The test compares the
    /// determinant with the zero scalar exactly: a tiny but nonzero
    /// determinant still counts as invertible.
    pub fn is_invertible(&self) -> (r: bool)
        ensures
            r == (self.sdet() != S::szero()),
    {
        let det: S = self.determinant();
        !det.is_zero()
    }

    /// Multiply every entry of a matrix by a scalar.
    pub fn times_scalar(self, factor: S) -> (r: Matrix4x4<S>)
        ensures
            r == self.smmuls(factor),
    {
        Matrix4x4 { c0r0: self.c0r0.times(factor), c0r1: self.c0r1.times(factor), c0r2: self.c0r2.times(factor), c0r3: self.c0r3.times(factor), c1r0: self.c1r0.times(factor), c1r1: self.c1r1.times(factor), c1r2: self.c1r2.times(factor), c1r3: self.c1r3.times(factor), c2r0: self.c2r0.times(factor), c2r1: self.c2r1.times(factor), c2r2: self.c2r2.times(factor), c2r3: self.c2r3.times(factor), c3r0: self.c3r0.times(factor), c3r1: self.c3r1.times(factor), c3r2: self.c3r2.times(factor), c3r3: self.c3r3.times(factor) }
    }

    /// Divide every entry of a matrix by a scalar.
    pub fn divide_scalar(self, factor: S) -> (r: Matrix4x4<S>)
        ensures
            r == self.smdivs(factor),
    {
        Matrix4x4 { c0r0: self.c0r0.divide(factor), c0r1: self.c0r1.divide(factor), c0r2: self.c0r2.divide(factor), c0r3: self.c0r3.divide(factor), c1r0: self.c1r0.divide(factor), c1r1: self.c1r1.divide(factor), c1r2: self.c1r2.divide(factor), c1r3: self.c1r3.divide(factor), c2r0: self.c2r0.divide(factor), c2r1: self.c2r1.divide(factor), c2r2: self.c2r2.divide(factor), c2r3: self.c2r3.divide(factor), c3r0: self.c3r0.divide(factor), c3r1: self.c3r1.divide(factor), c3r2: self.c3r2.divide(factor), c3r3: self.c3r3.divide(factor) }
    }
}

impl<S: Scalar> core::ops::Add<Matrix4x4<S>> for Matrix4x4<S> {
    type Output = Matrix4x4<S>;

    fn add(self, other: Matrix4x4<S>) -> Matrix4x4<S> {
        Matrix4x4 { c0r0: self.c0r0.plus(other.c0r0), c0r1: self.c0r1.plus(other.c0r1), c0r2: self.c0r2.plus(other.c0r2), c0r3: self.c0r3.plus(other.c0r3), c1r0: self.c1r0.plus(other.c1r0), c1r1: self.c1r1.plus(other.c1r1), c1r2: self.c1r2.plus(other.c1r2), c1r3: self.c1r3.plus(other.c1r3), c2r0: self.c2r0.plus(other.c2r0), c2r1: self.c2r1.plus(other.c2r1), c2r2: self.c2r2.plus(other.c2r2), c2r3: self.c2r3.plus(other.c2r3), c3r0: self.c3r0.plus(other.c3r0), c3r1: self.c3r1.plus(other.c3r1), c3r2: self.c3r2.plus(other.c3r2), c3r3: self.c3r3.plus(other.c3r3) }
    }
}

impl<S: Scalar> vstd::std_specs::ops::AddSpecImpl<Matrix4x4<S>> for Matrix4x4<S> {
    open spec fn obeys_add_spec() -> bool {
        true
    }

    open spec fn add_req(self, rhs: Matrix4x4<S>) -> bool {
        true
    }

    open spec fn add_spec(self, rhs: Matrix4x4<S>) -> Matrix4x4<S> {
        self.smadd(rhs)
    }
}

impl<S: Scalar> core::ops::Sub<Matrix4x4<S>> for Matrix4x4<S> {
    type Output = Matrix4x4<S>;

    fn sub(self, other: Matrix4x4<S>) -> Matrix4x4<S> {
        Matrix4x4 { c0r0: self.c0r0.minus(other.c0r0), c0r1: self.c0r1.minus(other.c0r1), c0r2: self.c0r2.minus(other.c0r2), c0r3: self.c0r3.minus(other.c0r3), c1r0: self.c1r0.minus(other.c1r0), c1r1: self.c1r1.minus(other.c1r1), c1r2: self.c1r2.minus(other.c1r2), c1r3: self.c1r3.minus(other.c1r3), c2r0: self.c2r0.minus(other.c2r0), c2r1: self.c2r1.minus(other.c2r1), c2r2: self.c2r2.minus(other.c2r2), c2r3: self.c2r3.minus(other.c2r3), c3r0: self.c3r0.minus(other.c3r0), c3r1: self.c3r1.minus(other.c3r1), c3r2: self.c3r2.minus(other.c3r2), c3r3: self.c3r3.minus(other.c3r3) }
    }
}

impl<S: Scalar> vstd::std_specs::ops::SubSpecImpl<Matrix4x4<S>> for Matrix4x4<S> {
    open spec fn obeys_sub_spec() -> bool {
        true
    }

    open spec fn sub_req(self, rhs: Matrix4x4<S>) -> bool {
        true
    }

    open spec fn sub_spec(self, rhs: Matrix4x4<S>) -> Matrix4x4<S> {
        self.smsub(rhs)
    }
}

impl<S: Scalar> core::ops::Neg for Matrix4x4<S> {
    type Output = Matrix4x4<S>;

    fn neg(self) -> Matrix4x4<S> {
        Matrix4x4 { c0r0: self.c0r0.negate(), c0r1: self.c0r1.negate(), c0r2: self.c0r2.negate(), c0r3: self.c0r3.negate(), c1r0: self.c1r0.negate(), c1r1: self.c1r1.negate(), c1r2: self.c1r2.negate(), c1r3: self.c1r3.negate(), c2r0: self.c2r0.negate(), c2r1: self.c2r1.negate(), c2r2: self.c2r2.negate(), c2r3: self.c2r3.negate(), c3r0: self.c3r0.negate(), c3r1: self.c3r1.negate(), c3r2: self.c3r2.negate(), c3r3: self.c3r3.negate() }
    }
}

impl<S: Scalar> vstd::std_specs::ops::NegSpecImpl for Matrix4x4<S> {
    open spec fn obeys_neg_spec() -> bool {
        true
    }

    open spec fn neg_req(self) -> bool {
        true
    }

    open spec fn neg_spec(self) -> Matrix4x4<S> {
        self.smneg()
    }
}

impl<S: Scalar> core::ops::Mul<Matrix4x4<S>> for Matrix4x4<S> {
    type Output = Matrix4x4<S>;

    fn mul(self, other: Matrix4x4<S>) -> Matrix4x4<S> {
        Matrix4x4 { c0r0: self.c0r0.times(other.c0r0).plus(self.c1r0.times(other.c0r1)).plus(self.c2r0.times(other.c0r2)).plus(self.c3r0.times(other.c0r3)), c0r1: self.c0r1.times(other.c0r0).plus(self.c1r1.times(other.c0r1)).plus(self.c2r1.times(other.c0r2)).plus(self.c3r1.times(other.c0r3)), c0r2: self.c0r2.times(other.c0r0).plus(self.c1r2.times(other.c0r1)).plus(self.c2r2.times(other.c0r2)).plus(self.c3r2.times(other.c0r3)), c0r3: self.c0r3.times(other.c0r0).plus(self.c1r3.times(other.c0r1)).plus(self.c2r3.times(other.c0r2)).plus(self.c3r3.times(other.c0r3)), c1r0: self.c0r0.times(other.c1r0).plus(self.c1r0.times(other.c1r1)).plus(self.c2r0.times(other.c1r2)).plus(self.c3r0.times(other.c1r3)), c1r1: self.c0r1.times(other.c1r0).plus(self.c1r1.times(other.c1r1)).plus(self.c2r1.times(other.c1r2)).plus(self.c3r1.times(other.c1r3)), c1r2: self.c0r2.times(other.c1r0).plus(self.c1r2.times(other.c1r1)).plus(self.c2r2.times(other.c1r2)).plus(self.c3r2.times(other.c1r3)), c1r3: self.c0r3.times(other.c1r0).plus(self.c1r3.times(other.c1r1)).plus(self.c2r3.times(other.c1r2)).plus(self.c3r3.times(other.c1r3)), c2r0: self.c0r0.times(other.c2r0).plus(self.c1r0.times(other.c2r1)).plus(self.c2r0.times(other.c2r2)).plus(self.c3r0.times(other.c2r3)), c2r1: self.c0r1.times(other.c2r0).plus(self.c1r1.times(other.c2r1)).plus(self.c2r1.times(other.c2r2)).plus(self.c3r1.times(other.c2r3)), c2r2: self.c0r2.times(other.c2r0).plus(self.c1r2.times(other.c2r1)).plus(self.c2r2.times(other.c2r2)).plus(self.c3r2.times(other.c2r3)), c2r3: self.c0r3.times(other.c2r0).plus(self.c1r3.times(other.c2r1)).plus(self.c2r3.times(other.c2r2)).plus(self.c3r3.times(other.c2r3)), c3r0: self.c0r0.times(other.c3r0).plus(self.c1r0.times(other.c3r1)).plus(self.c2r0.times(other.c3r2)).plus(self.c3r0.times(other.c3r3)), c3r1: self.c0r1.times(other.c3r0).plus(self.c1r1.times(other.c3r1)).plus(self.c2r1.times(other.c3r2)).plus(self.c3r1.times(other.c3r3)), c3r2: self.c0r2.times(other.c3r0).plus(self.c1r2.times(other.c3r1)).plus(self.c2r2.times(other.c3r2)).plus(self.c3r2.times(other.c3r3)), c3r3: self.c0r3.times(other.c3r0).plus(self.c1r3.times(other.c3r1)).plus(self.c2r3.times(other.c3r2)).plus(self.c3r3.times(other.c3r3)) }
    }
}

impl<S: Scalar> vstd::std_specs::ops::MulSpecImpl<Matrix4x4<S>> for Matrix4x4<S> {
    open spec fn obeys_mul_spec() -> bool {
        true
    }

    open spec fn mul_req(self, rhs: Matrix4x4<S>) -> bool {
        true
    }

    open spec fn mul_spec(self, rhs: Matrix4x4<S>) -> Matrix4x4<S> {
        self.smmul(rhs)
    }
}

impl<S: Scalar> core::ops::Mul<Vector4<S>> for Matrix4x4<S> {
    type Output = Vector4<S>;

    fn mul(self, v: Vector4<S>) -> Vector4<S> {
        Vector4 { x: self.c0r0.times(v.x).plus(self.c1r0.times(v.y)).plus(self.c2r0.times(v.z)).plus(self.c3r0.times(v.w)), y: self.c0r1.times(v.x).plus(self.c1r1.times(v.y)).plus(self.c2r1.times(v.z)).plus(self.c3r1.times(v.w)), z: self.c0r2.times(v.x).plus(self.c1r2.times(v.y)).plus(self.c2r2.times(v.z)).plus(self.c3r2.times(v.w)), w: self.c0r3.times(v.x).plus(self.c1r3.times(v.y)).plus(self.c2r3.times(v.z)).plus(self.c3r3.times(v.w)) }
    }
}

impl<S: Scalar> vstd::std_specs::ops::MulSpecImpl<Vector4<S>> for Matrix4x4<S> {
    open spec fn obeys_mul_spec() -> bool {
        true
    }

    open spec fn mul_req(self, rhs: Vector4<S>) -> bool {
        true
    }

    open spec fn mul_spec(self, rhs: Vector4<S>) -> Vector4<S> {
        self.smulv(rhs)
    }
}

impl<S: Scalar> core::ops::Mul<S> for Matrix4x4<S> {
    type Output = Matrix4x4<S>;

    fn mul(self, factor: S) -> Matrix4x4<S> {
        self.times_scalar(factor)
    }
}

impl<S: Scalar> vstd::std_specs::ops::MulSpecImpl<S> for Matrix4x4<S> {
    open spec fn obeys_mul_spec() -> bool {
        true
    }

    open spec fn mul_req(self, rhs: S) -> bool {
        true
    }

    open spec fn mul_spec(self, rhs: S) -> Matrix4x4<S> {
        self.smmuls(rhs)
    }
}

impl<S: Scalar> core::ops::Div<S> for Matrix4x4<S> {
    type Output = Matrix4x4<S>;

    fn div(self, factor: S) -> Matrix4x4<S> {
        self.divide_scalar(factor)
    }
}

impl<S: Scalar> vstd::std_specs::ops::DivSpecImpl<S> for Matrix4x4<S> {
    open spec fn obeys_div_spec() -> bool {
        true
    }

    open spec fn div_req(self, rhs: S) -> bool {
        true
    }

    open spec fn div_spec(self, rhs: S) -> Matrix4x4<S> {
        self.smdivs(rhs)
    }
}

impl<S: Scalar> Matrix2x2<S> {
    /// The inverse of a matrix, at the specification level: the adjugate
    /// (the transpose of the cofactor matrix) with every entry multiplied by
    /// the reciprocal of the determinant.
    pub open spec fn sinverse(self) -> Matrix2x2<S> {
        let det_inv = S::sone().sdiv(self.sdet());
        Matrix2x2 {
            c0r0: det_inv.smul((self.c1r1)),
            c0r1: det_inv.smul((S::szero().ssub(self.c0r1))),
            c1r0: det_inv.smul((S::szero().ssub(self.c1r0))),
            c1r1: det_inv.smul((self.c0r0)),
        }
    }

    /// Compute the inverse of a matrix, as the adjugate scaled by the
    /// reciprocal of the determinant.
    ///
    /// The result is `None` exactly when the determinant equals the zero
    /// scalar; a matrix whose determinant is tiny but nonzero is still
    /// inverted.
    pub fn inverse(&self) -> (r: Option<Matrix2x2<S>>)
        ensures
            self.sdet() == S::szero() ==> r is None,
            self.sdet() != S::szero() ==> r == Some(self.sinverse()),
    {
        let det: S = self.determinant();
        if det.is_zero() {
            None
        } else {
            let det_inv: S = S::one().divide(det);
            Some(Matrix2x2 {
                c0r0: det_inv.times((self.c1r1)),
                c0r1: det_inv.times((S::zero().minus(self.c0r1))),
                c1r0: det_inv.times((S::zero().minus(self.c1r0))),
                c1r1: det_inv.times((self.c0r0)),
            })
        }
    }
}

impl<S: Scalar> Matrix3x3<S> {
    /// The inverse of a matrix, at the specification level: the adjugate
    /// (the transpose of the cofactor matrix) with every entry multiplied by
    /// the reciprocal of the determinant.
    pub open spec fn sinverse(self) -> Matrix3x3<S> {
        let det_inv = S::sone().sdiv(self.sdet());
        Matrix3x3 {
            c0r0: det_inv.smul((self.c1r1.smul(self.c2r2).ssub(self.c2r1.smul(self.c1r2)))),
            c0r1: det_inv.smul((self.c2r1.smul(self.c0r2).ssub(self.c0r1.smul(self.c2r2)))),
            c0r2: det_inv.smul((self.c0r1.smul(self.c1r2).ssub(self.c1r1.smul(self.c0r2)))),
            c1r0: det_inv.smul((self.c2r0.smul(self.c1r2).ssub(self.c1r0.smul(self.c2r2)))),
            c1r1: det_inv.smul((self.c0r0.smul(self.c2r2).ssub(self.c2r0.smul(self.c0r2)))),
            c1r2: det_inv.smul((self.c1r0.smul(self.c0r2).ssub(self.c0r0.smul(self.c1r2)))),
            c2r0: det_inv.smul((self.c1r0.smul(self.c2r1).ssub(self.c2r0.smul(self.c1r1)))),
            c2r1: det_inv.smul((self.c2r0.smul(self.c0r1).ssub(self.c0r0.smul(self.c2r1)))),
            c2r2: det_inv.smul((self.c0r0.smul(self.c1r1).ssub(self.c1r0.smul(self.c0r1)))),
        }
    }

    /// Compute the inverse of a matrix, as the adjugate scaled by the
    /// reciprocal of the determinant.
    ///
    /// The result is `None` exactly when the determinant equals the zero
    /// scalar; a matrix whose determinant is tiny but nonzero is still
    /// inverted.
    pub fn inverse(&self) -> (r: Option<Matrix3x3<S>>)
        ensures
            self.sdet() == S::szero() ==> r is None,
            self.sdet() != S::szero() ==> r == Some(self.sinverse()),
    {
        let det: S = self.determinant();
        if det.is_zero() {
            None
        } else {
            let det_inv: S = S::one().divide(det);
            Some(Matrix3x3 {
                c0r0: det_inv.times((self.c1r1.times(self.c2r2).minus(self.c2r1.times(self.c1r2)))),
                c0r1: det_inv.times((self.c2r1.times(self.c0r2).minus(self.c0r1.times(self.c2r2)))),
                c0r2: det_inv.times((self.c0r1.times(self.c1r2).minus(self.c1r1.times(self.c0r2)))),
                c1r0: det_inv.times((self.c2r0.times(self.c1r2).minus(self.c1r0.times(self.c2r2)))),
                c1r1: det_inv.times((self.c0r0.times(self.c2r2).minus(self.c2r0.times(self.c0r2)))),
                c1r2: det_inv.times((self.c1r0.times(self.c0r2).minus(self.c0r0.times(self.c1r2)))),
                c2r0: det_inv.times((self.c1r0.times(self.c2r1).minus(self.c2r0.times(self.c1r1)))),
                c2r1: det_inv.times((self.c2r0.times(self.c0r1).minus(self.c0r0.times(self.c2r1)))),
                c2r2: det_inv.times((self.c0r0.times(self.c1r1).minus(self.c1r0.times(self.c0r1)))),
            })
        }
    }
}

impl<S: Scalar> Matrix4x4<S> {
    /// The inverse of a matrix, at the specification level: the adjugate
    /// (the transpose of the cofactor matrix) with every entry multiplied by
    /// the reciprocal of the determinant.
    pub open spec fn sinverse(self) -> Matrix4x4<S> {
        let det_inv = S::sone().sdiv(self.sdet());
        Matrix4x4 {
            c0r0: det_inv.smul((self.c1r1.smul((self.c2r2.smul(self.c3r3).ssub(self.c3r2.smul(self.c2r3)))).ssub(self.c2r1.smul((self.c1r2.smul(self.c3r3).ssub(self.c3r2.smul(self.c1r3))))).sadd(self.c3r1.smul((self.c1r2.smul(self.c2r3).ssub(self.c2r2.smul(self.c1r3))))))),
            c0r1: det_inv.smul((self.c2r1.smul((self.c0r2.smul(self.c3r3).ssub(self.c3r2.smul(self.c0r3)))).ssub(self.c0r1.smul((self.c2r2.smul(self.c3r3).ssub(self.c3r2.smul(self.c2r3))))).ssub(self.c3r1.smul((self.c0r2.smul(self.c2r3).ssub(self.c2r2.smul(self.c0r3))))))),
            c0r2: det_inv.smul((self.c0r1.smul((self.c1r2.smul(self.c3r3).ssub(self.c3r2.smul(self.c1r3)))).ssub(self.c1r1.smul((self.c0r2.smul(self.c3r3).ssub(self.c3r2.smul(self.c0r3))))).sadd(self.c3r1.smul((self.c0r2.smul(self.c1r3).ssub(self.c1r2.smul(self.c0r3))))))),
            c0r3: det_inv.smul((self.c1r1.smul((self.c0r2.smul(self.c2r3).ssub(self.c2r2.smul(self.c0r3)))).ssub(self.c0r1.smul((self.c1r2.smul(self.c2r3).ssub(self.c2r2.smul(self.c1r3))))).ssub(self.c2r1.smul((self.c0r2.smul(self.c1r3).ssub(self.c1r2.smul(self.c0r3))))))),
            c1r0: det_inv.smul((self.c2r0.smul((self.c1r2.smul(self.c3r3).ssub(self.c3r2.smul(self.c1r3)))).ssub(self.c1r0.smul((self.c2r2.smul(self.c3r3).ssub(self.c3r2.smul(self.c2r3))))).ssub(self.c3r0.smul((self.c1r2.smul(self.c2r3).ssub(self.c2r2.smul(self.c1r3))))))),
            c1r1: det_inv.smul((self.c0r0.smul((self.c2r2.smul(self.c3r3).ssub(self.c3r2.smul(self.c2r3)))).ssub(self.c2r0.smul((self.c0r2.smul(self.c3r3).ssub(self.c3r2.smul(self.c0r3))))).sadd(self.c3r0.smul((self.c0r2.smul(self.c2r3).ssub(self.c2r2.smul(self.c0r3))))))),
            c1r2: det_inv.smul((self.c1r0.smul((self.c0r2.smul(self.c3r3).ssub(self.c3r2.smul(self.c0r3)))).ssub(self.c0r0.smul((self.c1r2.smul(self.c3r3).ssub(self.c3r2.smul(self.c1r3))))).ssub(self.c3r0.smul((self.c0r2.smul(self.c1r3).ssub(self.c1r2.smul(self.c0r3))))))),
            c1r3: det_inv.smul((self.c0r0.smul((self.c1r2.smul(self.c2r3).ssub(self.c2r2.smul(self.c1r3)))).ssub(self.c1r0.smul((self.c0r2.smul(self.c2r3).ssub(self.c2r2.smul(self.c0r3))))).sadd(self.c2r0.smul((self.c0r2.smul(self.c1r3).ssub(self.c1r2.smul(self.c0r3))))))),
            c2r0: det_inv.smul((self.c1r0.smul((self.c2r1.smul(self.c3r3).ssub(self.c3r1.smul(self.c2r3)))).ssub(self.c2r0.smul((self.c1r1.smul(self.c3r3).ssub(self.c3r1.smul(self.c1r3))))).sadd(self.c3r0.smul((self.c1r1.smul(self.c2r3).ssub(self.c2r1.smul(self.c1r3))))))),
            c2r1: det_inv.smul((self.c2r0.smul((self.c0r1.smul(self.c3r3).ssub(self.c3r1.smul(self.c0r3)))).ssub(self.c0r0.smul((self.c2r1.smul(self.c3r3).ssub(self.c3r1.smul(self.c2r3))))).ssub(self.c3r0.smul((self.c0r1.smul(self.c2r3).ssub(self.c2r1.smul(self.c0r3))))))),
            c2r2: det_inv.smul((self.c0r0.smul((self.c1r1.smul(self.c3r3).ssub(self.c3r1.smul(self.c1r3)))).ssub(self.c1r0.smul((self.c0r1.smul(self.c3r3).ssub(self.c3r1.smul(self.c0r3))))).sadd(self.c3r0.smul((self.c0r1.smul(self.c1r3).ssub(self.c1r1.smul(self.c0r3))))))),
            c2r3: det_inv.smul((self.c1r0.smul((self.c0r1.smul(self.c2r3).ssub(self.c2r1.smul(self.c0r3)))).ssub(self.c0r0.smul((self.c1r1.smul(self.c2r3).ssub(self.c2r1.smul(self.c1r3))))).ssub(self.c2r0.smul((self.c0r1.smul(self.c1r3).ssub(self.c1r1.smul(self.c0r3))))))),
            c3r0: det_inv.smul((self.c2r0.smul((self.c1r1.smul(self.c3r2).ssub(self.c3r1.smul(self.c1r2)))).ssub(self.c1r0.smul((self.c2r1.smul(self.c3r2).ssub(self.c3r1.smul(self.c2r2))))).ssub(self.c3r0.smul((self.c1r1.smul(self.c2r2).ssub(self.c2r1.smul(self.c1r2))))))),
            c3r1: det_inv.smul((self.c0r0.smul((self.c2r1.smul(self.c3r2).ssub(self.c3r1.smul(self.c2r2)))).ssub(self.c2r0.smul((self.c0r1.smul(self.c3r2).ssub(self.c3r1.smul(self.c0r2))))).sadd(self.c3r0.smul((self.c0r1.smul(self.c2r2).ssub(self.c2r1.smul(self.c0r2))))))),
            c3r2: det_inv.smul((self.c1r0.smul((self.c0r1.smul(self.c3r2).ssub(self.c3r1.smul(self.c0r2)))).ssub(self.c0r0.smul((self.c1r1.smul(self.c3r2).ssub(self.c3r1.smul(self.c1r2))))).ssub(self.c3r0.smul((self.c0r1.smul(self.c1r2).ssub(self.c1r1.smul(self.c0r2))))))),
            c3r3: det_inv.smul((self.c0r0.smul((self.c1r1.smul(self.c2r2).ssub(self.c2r1.smul(self.c1r2)))).ssub(self.c1r0.smul((self.c0r1.smul(self.c2r2).ssub(self.c2r1.smul(self.c0r2))))).sadd(self.c2r0.smul((self.c0r1.smul(self.c1r2).ssub(self.c1r1.smul(self.c0r2))))))),
        }
    }

    /// Compute the inverse of a matrix, as the adjugate scaled by the
    /// reciprocal of the determinant.
    ///
    /// The result is `None` exactly when the determinant equals the zero
    /// scalar; a matrix whose determinant is tiny but nonzero is still
    /// inverted.
    pub fn inverse(&self) -> (r: Option<Matrix4x4<S>>)
        ensures
            self.sdet() == S::szero() ==> r is None,
            self.sdet() != S::szero() ==> r == Some(self.sinverse()),
    {
        let det: S = self.determinant();
        if det.is_zero() {
            None
        } else {
            let det_inv: S = S::one().divide(det);
            Some(Matrix4x4 {
                c0r0: det_inv.times((self.c1r1.times((self.c2r2.times(self.c3r3).minus(self.c3r2.times(self.c2r3)))).minus(self.c2r1.times((self.c1r2.times(self.c3r3).minus(self.c3r2.times(self.c1r3))))).plus(self.c3r1.times((self.c1r2.times(self.c2r3).minus(self.c2r2.times(self.c1r3))))))),
                c0r1: det_inv.times((self.c2r1.times((self.c0r2.times(self.c3r3).minus(self.c3r2.times(self.c0r3)))).minus(self.c0r1.times((self.c2r2.times(self.c3r3).minus(self.c3r2.times(self.c2r3))))).minus(self.c3r1.times((self.c0r2.times(self.c2r3).minus(self.c2r2.times(self.c0r3))))))),
                c0r2: det_inv.times((self.c0r1.times((self.c1r2.times(self.c3r3).minus(self.c3r2.times(self.c1r3)))).minus(self.c1r1.times((self.c0r2.times(self.c3r3).minus(self.c3r2.times(self.c0r3))))).plus(self.c3r1.times((self.c0r2.times(self.c1r3).minus(self.c1r2.times(self.c0r3))))))),
                c0r3: det_inv.times((self.c1r1.times((self.c0r2.times(self.c2r3).minus(self.c2r2.times(self.c0r3)))).minus(self.c0r1.times((self.c1r2.times(self.c2r3).minus(self.c2r2.times(self.c1r3))))).minus(self.c2r1.times((self.c0r2.times(self.c1r3).minus(self.c1r2.times(self.c0r3))))))),
                c1r0: det_inv.times((self.c2r0.times((self.c1r2.times(self.c3r3).minus(self.c3r2.times(self.c1r3)))).minus(self.c1r0.times((self.c2r2.times(self.c3r3).minus(self.c3r2.times(self.c2r3))))).minus(self.c3r0.times((self.c1r2.times(self.c2r3).minus(self.c2r2.times(self.c1r3))))))),
                c1r1: det_inv.times((self.c0r0.times((self.c2r2.times(self.c3r3).minus(self.c3r2.times(self.c2r3)))).minus(self.c2r0.times((self.c0r2.times(self.c3r3).minus(self.c3r2.times(self.c0r3))))).plus(self.c3r0.times((self.c0r2.times(self.c2r3).minus(self.c2r2.times(self.c0r3))))))),
                c1r2: det_inv.times((self.c1r0.times((self.c0r2.times(self.c3r3).minus(self.c3r2.times(self.c0r3)))).minus(self.c0r0.times((self.c1r2.times(self.c3r3).minus(self.c3r2.times(self.c1r3))))).minus(self.c3r0.times((self.c0r2.times(self.c1r3).minus(self.c1r2.times(self.c0r3))))))),
                c1r3: det_inv.times((self.c0r0.times((self.c1r2.times(self.c2r3).minus(self.c2r2.times(self.c1r3)))).minus(self.c1r0.times((self.c0r2.times(self.c2r3).minus(self.c2r2.times(self.c0r3))))).plus(self.c2r0.times((self.c0r2.times(self.c1r3).minus(self.c1r2.times(self.c0r3))))))),
                c2r0: det_inv.times((self.c1r0.times((self.c2r1.times(self.c3r3).minus(self.c3r1.times(self.c2r3)))).minus(self.c2r0.times((self.c1r1.times(self.c3r3).minus(self.c3r1.times(self.c1r3))))).plus(self.c3r0.times((self.c1r1.times(self.c2r3).minus(self.c2r1.times(self.c1r3))))))),
                c2r1: det_inv.times((self.c2r0.times((self.c0r1.times(self.c3r3).minus(self.c3r1.times(self.c0r3)))).minus(self.c0r0.times((self.c2r1.times(self.c3r3).minus(self.c3r1.times(self.c2r3))))).minus(self.c3r0.times((self.c0r1.times(self.c2r3).minus(self.c2r1.times(self.c0r3))))))),
                c2r2: det_inv.times((self.c0r0.times((self.c1r1.times(self.c3r3).minus(self.c3r1.times(self.c1r3)))).minus(self.c1r0.times((self.c0r1.times(self.c3r3).minus(self.c3r1.times(self.c0r3))))).plus(self.c3r0.times((self.c0r1.times(self.c1r3).minus(self.c1r1.times(self.c0r3))))))),
                c2r3: det_inv.times((self.c1r0.times((self.c0r1.times(self.c2r3).minus(self.c2r1.times(self.c0r3)))).minus(self.c0r0.times((self.c1r1.times(self.c2r3).minus(self.c2r1.times(self.c1r3))))).minus(self.c2r0.times((self.c0r1.times(self.c1r3).minus(self.c1r1.times(self.c0r3))))))),
                c3r0: det_inv.times((self.c2r0.times((self.c1r1.times(self.c3r2).minus(self.c3r1.times(self.c1r2)))).minus(self.c1r0.times((self.c2r1.times(self.c3r2).minus(self.c3r1.times(self.c2r2))))).minus(self.c3r0.times((self.c1r1.times(self.c2r2).minus(self.c2r1.times(self.c1r2))))))),
                c3r1: det_inv.times((self.c0r0.times((self.c2r1.times(self.c3r2).minus(self.c3r1.times(self.c2r2)))).minus(self.c2r0.times((self.c0r1.times(self.c3r2).minus(self.c3r1.times(self.c0r2))))).plus(self.c3r0.times((self.c0r1.times(self.c2r2).minus(self.c2r1.times(self.c0r2))))))),
                c3r2: det_inv.times((self.c1r0.times((self.c0r1.times(self.c3r2).minus(self.c3r1.times(self.c0r2)))).minus(self.c0r0.times((self.c1r1.times(self.c3r2).minus(self.c3r1.times(self.c1r2))))).minus(self.c3r0.times((self.c0r1.times(self.c1r2).minus(self.c1r1.times(self.c0r2))))))),
                c3r3: det_inv.times((self.c0r0.times((self.c1r1.times(self.c2r2).minus(self.c2r1.times(self.c1r2)))).minus(self.c1r0.times((self.c0r1.times(self.c2r2).minus(self.c2r1.times(self.c0r2))))).plus(self.c2r0.times((self.c0r1.times(self.c1r2).minus(self.c1r1.times(self.c0r2))))))),
            })
        }
    }
}

impl<S: Scalar> Matrix2x2<S> {
    /// Construct a matrix that scales every component of a vector by one factor.
    pub fn from_scale(value: S) -> (r: Matrix2x2<S>)
        ensures
            r.c0r0 == value,
            r.c0r1 == S::szero(),
            r.c1r0 == S::szero(),
            r.c1r1 == value,
    {
        Matrix2x2 { c0r0: value, c0r1: S::zero(), c1r0: S::zero(), c1r1: value }
    }
}

impl<S: Scalar> Matrix2x2<S> {
    /// Construct a matrix that scales the components of a vector by separate factors.
    pub fn from_nonuniform_scale(scale_x: S, scale_y: S) -> (r: Matrix2x2<S>)
        ensures
            r.c0r0 == scale_x,
            r.c0r1 == S::szero(),
            r.c1r0 == S::szero(),
            r.c1r1 == scale_y,
    {
        Matrix2x2 { c0r0: scale_x, c0r1: S::zero(), c1r0: S::zero(), c1r1: scale_y }
    }
}

impl<S: Scalar> Matrix2x2<S> {
    /// Construct a matrix that shears the `x` component by a multiple of the `y` component.
    pub fn from_shear_x(shear_x_with_y: S) -> (r: Matrix2x2<S>)
        ensures
            r.c0r0 == S::sone(),
            r.c0r1 == S::szero(),
            r.c1r0 == shear_x_with_y,
            r.c1r1 == S::sone(),
    {
        Matrix2x2 { c0r0: S::one(), c0r1: S::zero(), c1r0: shear_x_with_y, c1r1: S::one() }
    }
}

impl<S: Scalar> Matrix2x2<S> {
    /// Construct a matrix that shears the `y` component by a multiple of the `x` component.
    pub fn from_shear_y(shear_y_with_x: S) -> (r: Matrix2x2<S>)
        ensures
            r.c0r0 == S::sone(),
            r.c0r1 == shear_y_with_x,
            r.c1r0 == S::szero(),
            r.c1r1 == S::sone(),
    {
        Matrix2x2 { c0r0: S::one(), c0r1: shear_y_with_x, c1r0: S::zero(), c1r1: S::one() }
    }
}

impl<S: Scalar> Matrix2x2<S> {
    /// Construct a matrix that shears both components, each by a multiple of the other.
    pub fn from_shear(shear_x_with_y: S, shear_y_with_x: S) -> (r: Matrix2x2<S>)
        ensures
            r.c0r0 == S::sone(),
            r.c0r1 == shear_y_with_x,
            r.c1r0 == shear_x_with_y,
            r.c1r1 == S::sone(),
    {
        Matrix2x2 { c0r0: S::one(), c0r1: shear_y_with_x, c1r0: shear_x_with_y, c1r1: S::one() }
    }
}

impl<S: Scalar> Matrix3x3<S> {
    /// Construct a matrix that scales every component of a vector by one factor.
    pub fn from_scale(value: S) -> (r: Matrix3x3<S>)
        ensures
            r.c0r0 == value,
            r.c0r1 == S::szero(),
            r.c0r2 == S::szero(),
            r.c1r0 == S::szero(),
            r.c1r1 == value,
            r.c1r2 == S::szero(),
            r.c2r0 == S::szero(),
            r.c2r1 == S::szero(),
            r.c2r2 == value,
    {
        Matrix3x3 { c0r0: value, c0r1: S::zero(), c0r2: S::zero(), c1r0: S::zero(), c1r1: value, c1r2: S::zero(), c2r0: S::zero(), c2r1: S::zero(), c2r2: value }
    }
}

impl<S: Scalar> Matrix3x3<S> {
    /// Construct a matrix that scales the components of a vector by separate factors.
    pub fn from_nonuniform_scale(scale_x: S, scale_y: S, scale_z: S) -> (r: Matrix3x3<S>)
        ensures
            r.c0r0 == scale_x,
            r.c0r1 == S::szero(),
            r.c0r2 == S::szero(),
            r.c1r0 == S::szero(),
            r.c1r1 == scale_y,
            r.c1r2 == S::szero(),
            r.c2r0 == S::szero(),
            r.c2r1 == S::szero(),
            r.c2r2 == scale_z,
    {
        Matrix3x3 { c0r0: scale_x, c0r1: S::zero(), c0r2: S::zero(), c1r0: S::zero(), c1r1: scale_y, c1r2: S::zero(), c2r0: S::zero(), c2r1: S::zero(), c2r2: scale_z }
    }
}

impl<S: Scalar> Matrix3x3<S> {
    /// Construct an affine matrix that scales two-dimensional points and vectors uniformly, leaving the homogeneous coordinate unchanged.
    pub fn from_affine_scale(value: S) -> (r: Matrix3x3<S>)
        ensures
            r.c0r0 == value,
            r.c0r1 == S::szero(),
            r.c0r2 == S::szero(),
            r.c1r0 == S::szero(),
            r.c1r1 == value,
            r.c1r2 == S::szero(),
            r.c2r0 == S::szero(),
            r.c2r1 == S::szero(),
            r.c2r2 == S::sone(),
    {
        Matrix3x3 { c0r0: value, c0r1: S::zero(), c0r2: S::zero(), c1r0: S::zero(), c1r1: value, c1r2: S::zero(), c2r0: S::zero(), c2r1: S::zero(), c2r2: S::one() }
    }
}

impl<S: Scalar> Matrix3x3<S> {
    /// Construct an affine matrix that scales two-dimensional points and vectors by separate factors, leaving the homogeneous coordinate unchanged.
    pub fn from_affine_nonuniform_scale(scale_x: S, scale_y: S) -> (r: Matrix3x3<S>)
        ensures
            r.c0r0 == scale_x,
            r.c0r1 == S::szero(),
            r.c0r2 == S::szero(),
            r.c1r0 == S::szero(),
            r.c1r1 == scale_y,
            r.c1r2 == S::szero(),
            r.c2r0 == S::szero(),
            r.c2r1 == S::szero(),
            r.c2r2 == S::sone(),
    {
        Matrix3x3 { c0r0: scale_x, c0r1: S::zero(), c0r2: S::zero(), c1r0: S::zero(), c1r1: scale_y, c1r2: S::zero(), c2r0: S::zero(), c2r1: S::zero(), c2r2: S::one() }
    }
}

impl<S: Scalar> Matrix3x3<S> {
    /// Construct a matrix that shears the `x` component by multiples of the `y` and `z` components.
    pub fn from_shear_x(shear_x_with_y: S, shear_x_with_z: S) -> (r: Matrix3x3<S>)
        ensures
            r.c0r0 == S::sone(),
            r.c0r1 == S::szero(),
            r.c0r2 == S::szero(),
            r.c1r0 == shear_x_with_y,
            r.c1r1 == S::sone(),
            r.c1r2 == S::szero(),
            r.c2r0 == shear_x_with_z,
            r.c2r1 == S::szero(),
            r.c2r2 == S::sone(),
    {
        Matrix3x3 { c0r0: S::one(), c0r1: S::zero(), c0r2: S::zero(), c1r0: shear_x_with_y, c1r1: S::one(), c1r2: S::zero(), c2r0: shear_x_with_z, c2r1: S::zero(), c2r2: S::one() }
    }
}

impl<S: Scalar> Matrix3x3<S> {
    /// Construct a matrix that shears the `y` component by multiples of the `x` and `z` components.
    pub fn from_shear_y(shear_y_with_x: S, shear_y_with_z: S) -> (r: Matrix3x3<S>)
        ensures
            r.c0r0 == S::sone(),
            r.c0r1 == shear_y_with_x,
            r.c0r2 == S::szero(),
            r.c1r0 == S::szero(),
            r.c1r1 == S::sone(),
            r.c1r2 == S::szero(),
            r.c2r0 == S::szero(),
            r.c2r1 == shear_y_with_z,
            r.c2r2 == S::sone(),
    {
        Matrix3x3 { c0r0: S::one(), c0r1: shear_y_with_x, c0r2: S::zero(), c1r0: S::zero(), c1r1: S::one(), c1r2: S::zero(), c2r0: S::zero(), c2r1: shear_y_with_z, c2r2: S::one() }
    }
}

impl<S: Scalar> Matrix3x3<S> {
    /// Construct a matrix that shears the `z` component by multiples of the `x` and `y` components.
    pub fn from_shear_z(shear_z_with_x: S, shear_z_with_y: S) -> (r: Matrix3x3<S>)
        ensures
            r.c0r0 == S::sone(),
            r.c0r1 == S::szero(),
            r.c0r2 == shear_z_with_x,
            r.c1r0 == S::szero(),
            r.c1r1 == S::sone(),
            r.c1r2 == shear_z_with_y,
            r.c2r0 == S::szero(),
            r.c2r1 == S::szero(),
            r.c2r2 == S::sone(),
    {
        Matrix3x3 { c0r0: S::one(), c0r1: S::zero(), c0r2: shear_z_with_x, c1r0: S::zero(), c1r1: S::one(), c1r2: shear_z_with_y, c2r0: S::zero(), c2r1: S::zero(), c2r2: S::one() }
    }
}

impl<S: Scalar> Matrix3x3<S> {
    /// Construct a matrix that shears each component by multiples of the other two.
    pub fn from_shear(shear_x_with_y: S, shear_x_with_z: S, shear_y_with_x: S, shear_y_with_z: S, shear_z_with_x: S, shear_z_with_y: S) -> (r: Matrix3x3<S>)
        ensures
            r.c0r0 == S::sone(),
            r.c0r1 == shear_y_with_x,
            r.c0r2 == shear_z_with_x,
            r.c1r0 == shear_x_with_y,
            r.c1r1 == S::sone(),
            r.c1r2 == shear_z_with_y,
            r.c2r0 == shear_x_with_z,
            r.c2r1 == shear_y_with_z,
            r.c2r2 == S::sone(),
    {
        Matrix3x3 { c0r0: S::one(), c0r1: shear_y_with_x, c0r2: shear_z_with_x, c1r0: shear_x_with_y, c1r1: S::one(), c1r2: shear_z_with_y, c2r0: shear_x_with_z, c2r1: shear_y_with_z, c2r2: S::one() }
    }
}

impl<S: Scalar> Matrix3x3<S> {
    /// Construct an affine matrix that shears the `x` component of two-dimensional points and vectors by a multiple of the `y` component.
    pub fn from_affine_shear_x(shear_x_with_y: S) -> (r: Matrix3x3<S>)
        ensures
            r.c0r0 == S::sone(),
            r.c0r1 == S::szero(),
            r.c0r2 == S::szero(),
            r.c1r0 == shear_x_with_y,
            r.c1r1 == S::sone(),
            r.c1r2 == S::szero(),
            r.c2r0 == S::szero(),
            r.c2r1 == S::szero(),
            r.c2r2 == S::sone(),
    {
        Matrix3x3 { c0r0: S::one(), c0r1: S::zero(), c0r2: S::zero(), c1r0: shear_x_with_y, c1r1: S::one(), c1r2: S::zero(), c2r0: S::zero(), c2r1: S::zero(), c2r2: S::one() }
    }
}

impl<S: Scalar> Matrix3x3<S> {
    /// Construct an affine matrix that shears the `y` component of two-dimensional points and vectors by a multiple of the `x` component.
    pub fn from_affine_shear_y(shear_y_with_x: S) -> (r: Matrix3x3<S>)
        ensures
            r.c0r0 == S::sone(),
            r.c0r1 == shear_y_with_x,
            r.c0r2 == S::szero(),
            r.c1r0 == S::szero(),
            r.c1r1 == S::sone(),
            r.c1r2 == S::szero(),
            r.c2r0 == S::szero(),
            r.c2r1 == S::szero(),
            r.c2r2 == S::sone(),
    {
        Matrix3x3 { c0r0: S::one(), c0r1: shear_y_with_x, c0r2: S::zero(), c1r0: S::zero(), c1r1: S::one(), c1r2: S::zero(), c2r0: S::zero(), c2r1: S::zero(), c2r2: S::one() }
    }
}

impl<S: Scalar> Matrix3x3<S> {
    /// Construct an affine matrix that shears both components of two-dimensional points and vectors, each by a multiple of the other.
    pub fn from_affine_shear(shear_x_with_y: S, shear_y_with_x: S) -> (r: Matrix3x3<S>)
        ensures
            r.c0r0 == S::sone(),
            r.c0r1 == shear_y_with_x,
            r.c0r2 == S::szero(),
            r.c1r0 == shear_x_with_y,
            r.c1r1 == S::sone(),
            r.c1r2 == S::szero(),
            r.c2r0 == S::szero(),
            r.c2r1 == S::szero(),
            r.c2r2 == S::sone(),
    {
        Matrix3x3 { c0r0: S::one(), c0r1: shear_y_with_x, c0r2: S::zero(), c1r0: shear_x_with_y, c1r1: S::one(), c1r2: S::zero(), c2r0: S::zero(), c2r1: S::zero(), c2r2: S::one() }
    }
}

impl<S: Scalar> Matrix4x4<S> {
    /// Construct an affine matrix that scales three-dimensional points and vectors uniformly, leaving the homogeneous coordinate unchanged.
    pub fn from_affine_scale(value: S) -> (r: Matrix4x4<S>)
        ensures
            r.c0r0 == value,
            r.c0r1 == S::szero(),
            r.c0r2 == S::szero(),
            r.c0r3 == S::szero(),
            r.c1r0 == S::szero(),
            r.c1r1 == value,
            r.c1r2 == S::szero(),
            r.c1r3 == S::szero(),
            r.c2r0 == S::szero(),
            r.c2r1 == S::szero(),
            r.c2r2 == value,
            r.c2r3 == S::szero(),
            r.c3r0 == S::szero(),
            r.c3r1 == S::szero(),
            r.c3r2 == S::szero(),
            r.c3r3 == S::sone(),
    {
        Matrix4x4 { c0r0: value, c0r1: S::zero(), c0r2: S::zero(), c0r3: S::zero(), c1r0: S::zero(), c1r1: value, c1r2: S::zero(), c1r3: S::zero(), c2r0: S::zero(), c2r1: S::zero(), c2r2: value, c2r3: S::zero(), c3r0: S::zero(), c3r1: S::zero(), c3r2: S::zero(), c3r3: S::one() }
    }
}

impl<S: Scalar> Matrix4x4<S> {
    /// Construct an affine matrix that scales three-dimensional points and vectors by separate factors, leaving the homogeneous coordinate unchanged.
    pub fn from_affine_nonuniform_scale(scale_x: S, scale_y: S, scale_z: S) -> (r: Matrix4x4<S>)
        ensures
            r.c0r0 == scale_x,
            r.c0r1 == S::szero(),
            r.c0r2 == S::szero(),
            r.c0r3 == S::szero(),
            r.c1r0 == S::szero(),
            r.c1r1 == scale_y,
            r.c1r2 == S::szero(),
            r.c1r3 == S::szero(),
            r.c2r0 == S::szero(),
            r.c2r1 == S::szero(),
            r.c2r2 == scale_z,
            r.c2r3 == S::szero(),
            r.c3r0 == S::szero(),
            r.c3r1 == S::szero(),
            r.c3r2 == S::szero(),
            r.c3r3 == S::sone(),
    {
        Matrix4x4 { c0r0: scale_x, c0r1: S::zero(), c0r2: S::zero(), c0r3: S::zero(), c1r0: S::zero(), c1r1: scale_y, c1r2: S::zero(), c1r3: S::zero(), c2r0: S::zero(), c2r1: S::zero(), c2r2: scale_z, c2r3: S::zero(), c3r0: S::zero(), c3r1: S::zero(), c3r2: S::zero(), c3r3: S::one() }
    }
}

impl<S: Scalar> Matrix4x4<S> {
    /// Construct an affine matrix that shears the `x` component by multiples of the `y` and `z` components.
    pub fn from_affine_shear_x(shear_x_with_y: S, shear_x_with_z: S) -> (r: Matrix4x4<S>)
        ensures
            r.c0r0 == S::sone(),
            r.c0r1 == S::szero(),
            r.c0r2 == S::szero(),
            r.c0r3 == S::szero(),
            r.c1r0 == shear_x_with_y,
            r.c1r1 == S::sone(),
            r.c1r2 == S::szero(),
            r.c1r3 == S::szero(),
            r.c2r0 == shear_x_with_z,
            r.c2r1 == S::szero(),
            r.c2r2 == S::sone(),
            r.c2r3 == S::szero(),
            r.c3r0 == S::szero(),
            r.c3r1 == S::szero(),
            r.c3r2 == S::szero(),
            r.c3r3 == S::sone(),
    {
        Matrix4x4 { c0r0: S::one(), c0r1: S::zero(), c0r2: S::zero(), c0r3: S::zero(), c1r0: shear_x_with_y, c1r1: S::one(), c1r2: S::zero(), c1r3: S::zero(), c2r0: shear_x_with_z, c2r1: S::zero(), c2r2: S::one(), c2r3: S::zero(), c3r0: S::zero(), c3r1: S::zero(), c3r2: S::zero(), c3r3: S::one() }
    }
}

impl<S: Scalar> Matrix4x4<S> {
    /// Construct an affine matrix that shears the `y` component by multiples of the `x` and `z` components.
    pub fn from_affine_shear_y(shear_y_with_x: S, shear_y_with_z: S) -> (r: Matrix4x4<S>)
        ensures
            r.c0r0 == S::sone(),
            r.c0r1 == shear_y_with_x,
            r.c0r2 == S::szero(),
            r.c0r3 == S::szero(),
            r.c1r0 == S::szero(),
            r.c1r1 == S::sone(),
            r.c1r2 == S::szero(),
            r.c1r3 == S::szero(),
            r.c2r0 == S::szero(),
            r.c2r1 == shear_y_with_z,
            r.c2r2 == S::sone(),
            r.c2r3 == S::szero(),
            r.c3r0 == S::szero(),
            r.c3r1 == S::szero(),
            r.c3r2 == S::szero(),
            r.c3r3 == S::sone(),
    {
        Matrix4x4 { c0r0: S::one(), c0r1: shear_y_with_x, c0r2: S::zero(), c0r3: S::zero(), c1r0: S::zero(), c1r1: S::one(), c1r2: S::zero(), c1r3: S::zero(), c2r0: S::zero(), c2r1: shear_y_with_z, c2r2: S::one(), c2r3: S::zero(), c3r0: S::zero(), c3r1: S::zero(), c3r2: S::zero(), c3r3: S::one() }
    }
}

impl<S: Scalar> Matrix4x4<S> {
    /// Construct an affine matrix that shears the `z` component by multiples of the `x` and `y` components.
    pub fn from_affine_shear_z(shear_z_with_x: S, shear_z_with_y: S) -> (r: Matrix4x4<S>)
        ensures
            r.c0r0 == S::sone(),
            r.c0r1 == S::szero(),
            r.c0r2 == shear_z_with_x,
            r.c0r3 == S::szero(),
            r.c1r0 == S::szero(),
            r.c1r1 == S::sone(),
            r.c1r2 == shear_z_with_y,
            r.c1r3 == S::szero(),
            r.c2r0 == S::szero(),
            r.c2r1 == S::szero(),
            r.c2r2 == S::sone(),
            r.c2r3 == S::szero(),
            r.c3r0 == S::szero(),
            r.c3r1 == S::szero(),
            r.c3r2 == S::szero(),
            r.c3r3 == S::sone(),
    {
        Matrix4x4 { c0r0: S::one(), c0r1: S::zero(), c0r2: shear_z_with_x, c0r3: S::zero(), c1r0: S::zero(), c1r1: S::one(), c1r2: shear_z_with_y, c1r3: S::zero(), c2r0: S::zero(), c2r1: S::zero(), c2r2: S::one(), c2r3: S::zero(), c3r0: S::zero(), c3r1: S::zero(), c3r2: S::zero(), c3r3: S::one() }
    }
}

impl<S: Scalar> Matrix4x4<S> {
    /// Construct an affine matrix that shears each of the three components by multiples of the other two.
    pub fn from_affine_shear(shear_x_with_y: S, shear_x_with_z: S, shear_y_with_x: S, shear_y_with_z: S, shear_z_with_x: S, shear_z_with_y: S) -> (r: Matrix4x4<S>)
        ensures
            r.c0r0 == S::sone(),
            r.c0r1 == shear_y_with_x,
            r.c0r2 == shear_z_with_x,
            r.c0r3 == S::szero(),
            r.c1r0 == shear_x_with_y,
            r.c1r1 == S::sone(),
            r.c1r2 == shear_z_with_y,
            r.c1r3 == S::szero(),
            r.c2r0 == shear_x_with_z,
            r.c2r1 == shear_y_with_z,
            r.c2r2 == S::sone(),
            r.c2r3 == S::szero(),
            r.c3r0 == S::szero(),
            r.c3r1 == S::szero(),
            r.c3r2 == S::szero(),
            r.c3r3 == S::sone(),
    {
        Matrix4x4 { c0r0: S::one(), c0r1: shear_y_with_x, c0r2: shear_z_with_x, c0r3: S::zero(), c1r0: shear_x_with_y, c1r1: S::one(), c1r2: shear_z_with_y, c1r3: S::zero(), c2r0: shear_x_with_z, c2r1: shear_y_with_z, c2r2: S::one(), c2r3: S::zero(), c3r0: S::zero(), c3r1: S::zero(), c3r2: S::zero(), c3r3: S::one() }
    }
}

impl<S: Scalar> Matrix3x3<S> {
    /// Construct an affine matrix that translates two-dimensional points by
    /// a displacement vector, leaving vectors (homogeneous coordinate zero)
    /// unchanged.
    pub fn from_affine_translation(distance: &Vector2<S>) -> (r: Matrix3x3<S>)
        ensures
            r.c0r0 == S::sone(),
            r.c0r1 == S::szero(),
            r.c0r2 == S::szero(),
            r.c1r0 == S::szero(),
            r.c1r1 == S::sone(),
            r.c1r2 == S::szero(),
            r.c2r0 == distance.x,
            r.c2r1 == distance.y,
            r.c2r2 == S::sone(),
    {
        Matrix3x3 {
            c0r0: S::one(), c0r1: S::zero(), c0r2: S::zero(),
            c1r0: S::zero(), c1r1: S::one(), c1r2: S::zero(),
            c2r0: distance.x, c2r1: distance.y, c2r2: S::one(),
        }
    }
}

impl<S: Scalar> Matrix4x4<S> {
    /// Construct an affine matrix that translates three-dimensional points
    /// by a displacement vector, leaving vectors (homogeneous coordinate
    /// zero) unchanged.
    pub fn from_affine_translation(distance: &Vector3<S>) -> (r: Matrix4x4<S>)
        ensures
            r.c0r0 == S::sone(),
            r.c0r1 == S::szero(),
            r.c0r2 == S::szero(),
            r.c0r3 == S::szero(),
            r.c1r0 == S::szero(),
            r.c1r1 == S::sone(),
            r.c1r2 == S::szero(),
            r.c1r3 == S::szero(),
            r.c2r0 == S::szero(),
            r.c2r1 == S::szero(),
            r.c2r2 == S::sone(),
            r.c2r3 == S::szero(),
            r.c3r0 == distance.x,
            r.c3r1 == distance.y,
            r.c3r2 == distance.z,
            r.c3r3 == S::sone(),
    {
        Matrix4x4 {
            c0r0: S::one(), c0r1: S::zero(), c0r2: S::zero(), c0r3: S::zero(),
            c1r0: S::zero(), c1r1: S::one(), c1r2: S::zero(), c1r3: S::zero(),
            c2r0: S::zero(), c2r1: S::zero(), c2r2: S::one(), c2r3: S::zero(),
            c3r0: distance.x, c3r1: distance.y, c3r2: distance.z, c3r3: S::one(),
        }
    }
}

impl<S: ScalarFloat> Matrix2x2<S> {
    /// The matrix that [`Matrix2x2::from_angle`] constructs, at the specification
    /// level.
    pub open spec fn sfrom_angle(angle: Radians<S>) -> Matrix2x2<S> {
        let c = angle.0.scos();
        let s = angle.0.ssin();
        Matrix2x2 {
            c0r0: c,
            c0r1: s,
            c1r0: s.sneg(),
            c1r1: c,
        }
    }

    /// Construct a matrix that rotates the plane counterclockwise by an angle.
    pub fn from_angle(angle: Radians<S>) -> (r: Matrix2x2<S>)
        ensures
            r == Matrix2x2::<S>::sfrom_angle(angle),
    {
        let c: S = angle.0.cos();
        let s: S = angle.0.sin();
        Matrix2x2 {
            c0r0: c,
            c0r1: s,
            c1r0: s.negate(),
            c1r1: c,
        }
    }
}

impl<S: ScalarFloat> Matrix2x2<S> {
    /// The matrix that [`Matrix2x2::rotation_between`] constructs, at the specification
    /// level.
    pub open spec fn srotation_between(v1: Vector2<S>, v2: Vector2<S>) -> Matrix2x2<S> {
        let n1 = v1.snormalize();
        let n2 = v2.snormalize();
        let c = n1.x.smul(n2.x).sadd(n1.y.smul(n2.y));
        let s = n1.x.smul(n2.y).ssub(n1.y.smul(n2.x));
        Matrix2x2 {
            c0r0: c,
            c0r1: s,
            c1r0: s.sneg(),
            c1r1: c,
        }
    }

    /// Construct the rotation that carries the direction of one vector to the direction of another, from the dot and cross products of the normalized inputs.
    pub fn rotation_between(v1: &Vector2<S>, v2: &Vector2<S>) -> (r: Matrix2x2<S>)
        ensures
            r == Matrix2x2::<S>::srotation_between(*v1, *v2),
    {
        let n1: Vector2<S> = v1.normalize();
        let n2: Vector2<S> = v2.normalize();
        let c: S = n1.x.times(n2.x).plus(n1.y.times(n2.y));
        let s: S = n1.x.times(n2.y).minus(n1.y.times(n2.x));
        Matrix2x2 {
            c0r0: c,
            c0r1: s,
            c1r0: s.negate(),
            c1r1: c,
        }
    }
}

impl<S: ScalarFloat> Matrix3x3<S> {
    /// The matrix that [`Matrix3x3::from_angle_x`] constructs, at the specification
    /// level.
    pub open spec fn sfrom_angle_x(angle: Radians<S>) -> Matrix3x3<S> {
        let c = angle.0.scos();
        let s = angle.0.ssin();
        Matrix3x3 {
            c0r0: S::sone(),
            c0r1: S::szero(),
            c0r2: S::szero(),
            c1r0: S::szero(),
            c1r1: c,
            c1r2: s,
            c2r0: S::szero(),
            c2r1: s.sneg(),
            c2r2: c,
        }
    }

    /// Construct a matrix that rotates about the `x` axis by an angle.
    pub fn from_angle_x(angle: Radians<S>) -> (r: Matrix3x3<S>)
        ensures
            r == Matrix3x3::<S>::sfrom_angle_x(angle),
    {
        let c: S = angle.0.cos();
        let s: S = angle.0.sin();
        Matrix3x3 {
            c0r0: S::one(),
            c0r1: S::zero(),
            c0r2: S::zero(),
            c1r0: S::zero(),
            c1r1: c,
            c1r2: s,
            c2r0: S::zero(),
            c2r1: s.negate(),
            c2r2: c,
        }
    }
}

impl<S: ScalarFloat> Matrix3x3<S> {
    /// The matrix that [`Matrix3x3::from_angle_y`] constructs, at the specification
    /// level.
    pub open spec fn sfrom_angle_y(angle: Radians<S>) -> Matrix3x3<S> {
        let c = angle.0.scos();
        let s = angle.0.ssin();
        Matrix3x3 {
            c0r0: c,
            c0r1: S::szero(),
            c0r2: s.sneg(),
            c1r0: S::szero(),
            c1r1: S::sone(),
            c1r2: S::szero(),
            c2r0: s,
            c2r1: S::szero(),
            c2r2: c,
        }
    }

    /// Construct a matrix that rotates about the `y` axis by an angle.
    pub fn from_angle_y(angle: Radians<S>) -> (r: Matrix3x3<S>)
        ensures
            r == Matrix3x3::<S>::sfrom_angle_y(angle),
    {
        let c: S = angle.0.cos();
        let s: S = angle.0.sin();
        Matrix3x3 {
            c0r0: c,
            c0r1: S::zero(),
            c0r2: s.negate(),
            c1r0: S::zero(),
            c1r1: S::one(),
            c1r2: S::zero(),
            c2r0: s,
            c2r1: S::zero(),
            c2r2: c,
        }
    }
}

impl<S: ScalarFloat> Matrix3x3<S> {
    /// The matrix that [`Matrix3x3::from_angle_z`] constructs, at the specification
    /// level.
    pub open spec fn sfrom_angle_z(angle: Radians<S>) -> Matrix3x3<S> {
        let c = angle.0.scos();
        let s = angle.0.ssin();
        Matrix3x3 {
            c0r0: c,
            c0r1: s,
            c0r2: S::szero(),
            c1r0: s.sneg(),
            c1r1: c,
            c1r2: S::szero(),
            c2r0: S::szero(),
            c2r1: S::szero(),
            c2r2: S::sone(),
        }
    }

    /// Construct a matrix that rotates about the `z` axis by an angle.
    pub fn from_angle_z(angle: Radians<S>) -> (r: Matrix3x3<S>)
        ensures
            r == Matrix3x3::<S>::sfrom_angle_z(angle),
    {
        let c: S = angle.0.cos();
        let s: S = angle.0.sin();
        Matrix3x3 {
            c0r0: c,
            c0r1: s,
            c0r2: S::zero(),
            c1r0: s.negate(),
            c1r1: c,
            c1r2: S::zero(),
            c2r0: S::zero(),
            c2r1: S::zero(),
            c2r2: S::one(),
        }
    }
}

impl<S: ScalarFloat> Matrix3x3<S> {
    /// The matrix that [`Matrix3x3::from_affine_angle`] constructs, at the specification
    /// level.
    pub open spec fn sfrom_affine_angle(angle: Radians<S>) -> Matrix3x3<S> {
        let c = angle.0.scos();
        let s = angle.0.ssin();
        Matrix3x3 {
            c0r0: c,
            c0r1: s,
            c0r2: S::szero(),
            c1r0: s.sneg(),
            c1r1: c,
            c1r2: S::szero(),
            c2r0: S::szero(),
            c2r1: S::szero(),
            c2r2: S::sone(),
        }
    }

    /// Construct an affine matrix that rotates two-dimensional points and vectors in the plane by an angle.
    pub fn from_affine_angle(angle: Radians<S>) -> (r: Matrix3x3<S>)
        ensures
            r == Matrix3x3::<S>::sfrom_affine_angle(angle),
    {
        let c: S = angle.0.cos();
        let s: S = angle.0.sin();
        Matrix3x3 {
            c0r0: c,
            c0r1: s,
            c0r2: S::zero(),
            c1r0: s.negate(),
            c1r1: c,
            c1r2: S::zero(),
            c2r0: S::zero(),
            c2r1: S::zero(),
            c2r2: S::one(),
        }
    }
}

impl<S: ScalarFloat> Matrix3x3<S> {
    /// The matrix that [`Matrix3x3::from_axis_angle`] constructs, at the specification
    /// level.
    pub open spec fn sfrom_axis_angle(axis: Vector3<S>, angle: Radians<S>) -> Matrix3x3<S> {
        let c = angle.0.scos();
        let s = angle.0.ssin();
        let k = S::sone().ssub(c);
        Matrix3x3 {
            c0r0: k.smul(axis.x).smul(axis.x).sadd(c),
            c0r1: k.smul(axis.x).smul(axis.y).sadd(s.smul(axis.z)),
            c0r2: k.smul(axis.x).smul(axis.z).ssub(s.smul(axis.y)),
            c1r0: k.smul(axis.x).smul(axis.y).ssub(s.smul(axis.z)),
            c1r1: k.smul(axis.y).smul(axis.y).sadd(c),
            c1r2: k.smul(axis.y).smul(axis.z).sadd(s.smul(axis.x)),
            c2r0: k.smul(axis.x).smul(axis.z).sadd(s.smul(axis.y)),
            c2r1: k.smul(axis.y).smul(axis.z).ssub(s.smul(axis.x)),
            c2r2: k.smul(axis.z).smul(axis.z).sadd(c),
        }
    }

    /// Construct the rotation about an axis by an angle, by the Rodrigues formula. The axis is taken as given: a non-unit axis silently yields a non-rigid transformation.
    pub fn from_axis_angle(axis: &Vector3<S>, angle: Radians<S>) -> (r: Matrix3x3<S>)
        ensures
            r == Matrix3x3::<S>::sfrom_axis_angle(*axis, angle),
    {
        let c: S = angle.0.cos();
        let s: S = angle.0.sin();
        let k: S = S::one().minus(c);
        Matrix3x3 {
            c0r0: k.times(axis.x).times(axis.x).plus(c),
            c0r1: k.times(axis.x).times(axis.y).plus(s.times(axis.z)),
            c0r2: k.times(axis.x).times(axis.z).minus(s.times(axis.y)),
            c1r0: k.times(axis.x).times(axis.y).minus(s.times(axis.z)),
            c1r1: k.times(axis.y).times(axis.y).plus(c),
            c1r2: k.times(axis.y).times(axis.z).plus(s.times(axis.x)),
            c2r0: k.times(axis.x).times(axis.z).plus(s.times(axis.y)),
            c2r1: k.times(axis.y).times(axis.z).minus(s.times(axis.x)),
            c2r2: k.times(axis.z).times(axis.z).plus(c),
        }
    }
}

impl<S: ScalarFloat> Matrix3x3<S> {
    /// The matrix that [`Matrix3x3::face_towards`] constructs, at the specification
    /// level.
    pub open spec fn sface_towards(dir: Vector3<S>, up: Vector3<S>) -> Matrix3x3<S> {
        let zv = dir.snormalize();
        let xv = up.scross(zv).snormalize();
        let yv = zv.scross(xv);
        Matrix3x3 {
            c0r0: xv.x,
            c0r1: xv.y,
            c0r2: xv.z,
            c1r0: yv.x,
            c1r1: yv.y,
            c1r2: yv.z,
            c2r0: zv.x,
            c2r1: zv.y,
            c2r2: zv.z,
        }
    }

    /// Construct the rotation whose columns are the orthonormal basis built from a direction and an up hint: it carries the `z` axis to the direction of the input.
    pub fn face_towards(dir: &Vector3<S>, up: &Vector3<S>) -> (r: Matrix3x3<S>)
        ensures
            r == Matrix3x3::<S>::sface_towards(*dir, *up),
    {
        let zv: Vector3<S> = dir.normalize();
        let xv: Vector3<S> = up.cross(zv).normalize();
        let yv: Vector3<S> = zv.cross(xv);
        Matrix3x3 {
            c0r0: xv.x,
            c0r1: xv.y,
            c0r2: xv.z,
            c1r0: yv.x,
            c1r1: yv.y,
            c1r2: yv.z,
            c2r0: zv.x,
            c2r1: zv.y,
            c2r2: zv.z,
        }
    }
}

impl<S: ScalarFloat> Matrix3x3<S> {
    /// The matrix that [`Matrix3x3::look_at_lh`] constructs, at the specification
    /// level.
    pub open spec fn slook_at_lh(dir: Vector3<S>, up: Vector3<S>) -> Matrix3x3<S> {
        let zv = dir.snormalize();
        let xv = up.scross(zv).snormalize();
        let yv = zv.scross(xv);
        Matrix3x3 {
            c0r0: xv.x,
            c0r1: yv.x,
            c0r2: zv.x,
            c1r0: xv.y,
            c1r1: yv.y,
            c1r2: zv.y,
            c2r0: xv.z,
            c2r1: yv.z,
            c2r2: zv.z,
        }
    }

    /// Construct the left-handed view transformation from a facing direction and an up hint: its rows are the orthonormal basis, so it carries the direction of the input to the `z` axis.
    pub fn look_at_lh(dir: &Vector3<S>, up: &Vector3<S>) -> (r: Matrix3x3<S>)
        ensures
            r == Matrix3x3::<S>::slook_at_lh(*dir, *up),
    {
        let zv: Vector3<S> = dir.normalize();
        let xv: Vector3<S> = up.cross(zv).normalize();
        let yv: Vector3<S> = zv.cross(xv);
        Matrix3x3 {
            c0r0: xv.x,
            c0r1: yv.x,
            c0r2: zv.x,
            c1r0: xv.y,
            c1r1: yv.y,
            c1r2: zv.y,
            c2r0: xv.z,
            c2r1: yv.z,
            c2r2: zv.z,
        }
    }
}

impl<S: ScalarFloat> Matrix3x3<S> {
    /// The matrix that [`Matrix3x3::look_at_rh`] constructs, at the specification
    /// level.
    pub open spec fn slook_at_rh(dir: Vector3<S>, up: Vector3<S>) -> Matrix3x3<S> {
        let zv = dir.snormalize();
        let nz = zv.svneg();
        let xv = up.scross(nz).snormalize();
        let yv = nz.scross(xv);
        Matrix3x3 {
            c0r0: xv.x,
            c0r1: yv.x,
            c0r2: nz.x,
            c1r0: xv.y,
            c1r1: yv.y,
            c1r2: nz.y,
            c2r0: xv.z,
            c2r1: yv.z,
            c2r2: nz.z,
        }
    }

    /// Construct the right-handed view transformation from a facing direction and an up hint: it carries the direction of the input to the negative `z` axis.
    pub fn look_at_rh(dir: &Vector3<S>, up: &Vector3<S>) -> (r: Matrix3x3<S>)
        ensures
            r == Matrix3x3::<S>::slook_at_rh(*dir, *up),
    {
        let zv: Vector3<S> = dir.normalize();
        let nz: Vector3<S> = zv.negated();
        let xv: Vector3<S> = up.cross(nz).normalize();
        let yv: Vector3<S> = nz.cross(xv);
        Matrix3x3 {
            c0r0: xv.x,
            c0r1: yv.x,
            c0r2: nz.x,
            c1r0: xv.y,
            c1r1: yv.y,
            c1r2: nz.y,
            c2r0: xv.z,
            c2r1: yv.z,
            c2r2: nz.z,
        }
    }
}

impl<S: ScalarFloat> Matrix4x4<S> {
    /// The matrix that [`Matrix4x4::from_perspective`] constructs, at the specification
    /// level.
    pub open spec fn sfrom_perspective(left: S, right: S, bottom: S, top: S, near: S, far: S) -> Matrix4x4<S> {
        let two = S::sone().sadd(S::sone());
        Matrix4x4 {
            c0r0: two.smul(near).sdiv(right.ssub(left)),
            c0r1: S::szero(),
            c0r2: S::szero(),
            c0r3: S::szero(),
            c1r0: S::szero(),
            c1r1: two.smul(near).sdiv(top.ssub(bottom)),
            c1r2: S::szero(),
            c1r3: S::szero(),
            c2r0: right.sadd(left).sdiv(right.ssub(left)),
            c2r1: top.sadd(bottom).sdiv(top.ssub(bottom)),
            c2r2: far.sadd(near).sdiv(far.ssub(near)).sneg(),
            c2r3: S::sone().sneg(),
            c3r0: S::szero(),
            c3r1: S::szero(),
            c3r2: two.smul(far).smul(near).sdiv(far.ssub(near)).sneg(),
            c3r3: S::szero(),
        }
    }

    /// Construct the off-center perspective projection matrix from the six frustum planes: it maps the camera-space view volume to clip space, with the perspective divide carried by the homogeneous coordinate.
    pub fn from_perspective(left: S, right: S, bottom: S, top: S, near: S, far: S) -> (r: Matrix4x4<S>)
        ensures
            r == Matrix4x4::<S>::sfrom_perspective(left, right, bottom, top, near, far),
    {
        let two: S = S::one().plus(S::one());
        Matrix4x4 {
            c0r0: two.times(near).divide(right.minus(left)),
            c0r1: S::zero(),
            c0r2: S::zero(),
            c0r3: S::zero(),
            c1r0: S::zero(),
            c1r1: two.times(near).divide(top.minus(bottom)),
            c1r2: S::zero(),
            c1r3: S::zero(),
            c2r0: right.plus(left).divide(right.minus(left)),
            c2r1: top.plus(bottom).divide(top.minus(bottom)),
            c2r2: far.plus(near).divide(far.minus(near)).negate(),
            c2r3: S::one().negate(),
            c3r0: S::zero(),
            c3r1: S::zero(),
            c3r2: two.times(far).times(near).divide(far.minus(near)).negate(),
            c3r3: S::zero(),
        }
    }
}

impl<S: ScalarFloat> Matrix4x4<S> {
    /// The matrix that [`Matrix4x4::from_perspective_fov`] constructs, at the specification
    /// level.
    pub open spec fn sfrom_perspective_fov(fovy: Radians<S>, aspect: S, near: S, far: S) -> Matrix4x4<S> {
        let two = S::sone().sadd(S::sone());
        let tan_half_fovy = fovy.0.sdiv(two).stan();
        Matrix4x4 {
            c0r0: S::sone().sdiv(aspect.smul(tan_half_fovy)),
            c0r1: S::szero(),
            c0r2: S::szero(),
            c0r3: S::szero(),
            c1r0: S::szero(),
            c1r1: S::sone().sdiv(tan_half_fovy),
            c1r2: S::szero(),
            c1r3: S::szero(),
            c2r0: S::szero(),
            c2r1: S::szero(),
            c2r2: far.sadd(near).sdiv(far.ssub(near)).sneg(),
            c2r3: S::sone().sneg(),
            c3r0: S::szero(),
            c3r1: S::szero(),
            c3r2: two.smul(far).smul(near).sdiv(far.ssub(near)).sneg(),
            c3r3: S::szero(),
        }
    }

    /// Construct the symmetric perspective projection matrix from a vertical field-of-view angle, an aspect ratio and the near and far planes.
    pub fn from_perspective_fov(fovy: Radians<S>, aspect: S, near: S, far: S) -> (r: Matrix4x4<S>)
        ensures
            r == Matrix4x4::<S>::sfrom_perspective_fov(fovy, aspect, near, far),
    {
        let two: S = S::one().plus(S::one());
        let tan_half_fovy: S = fovy.0.divide(two).tan();
        Matrix4x4 {
            c0r0: S::one().divide(aspect.times(tan_half_fovy)),
            c0r1: S::zero(),
            c0r2: S::zero(),
            c0r3: S::zero(),
            c1r0: S::zero(),
            c1r1: S::one().divide(tan_half_fovy),
            c1r2: S::zero(),
            c1r3: S::zero(),
            c2r0: S::zero(),
            c2r1: S::zero(),
            c2r2: far.plus(near).divide(far.minus(near)).negate(),
            c2r3: S::one().negate(),
            c3r0: S::zero(),
            c3r1: S::zero(),
            c3r2: two.times(far).times(near).divide(far.minus(near)).negate(),
            c3r3: S::zero(),
        }
    }
}

impl<S: ScalarFloat> Matrix4x4<S> {
    /// The matrix that [`Matrix4x4::from_orthographic`] constructs, at the specification
    /// level.
    pub open spec fn sfrom_orthographic(left: S, right: S, bottom: S, top: S, near: S, far: S) -> Matrix4x4<S> {
        let two = S::sone().sadd(S::sone());
        Matrix4x4 {
            c0r0: two.sdiv(right.ssub(left)),
            c0r1: S::szero(),
            c0r2: S::szero(),
            c0r3: S::szero(),
            c1r0: S::szero(),
            c1r1: two.sdiv(top.ssub(bottom)),
            c1r2: S::szero(),
            c1r3: S::szero(),
            c2r0: S::szero(),
            c2r1: S::szero(),
            c2r2: two.sdiv(far.ssub(near)).sneg(),
            c2r3: S::szero(),
            c3r0: right.sadd(left).sdiv(right.ssub(left)).sneg(),
            c3r1: top.sadd(bottom).sdiv(top.ssub(bottom)).sneg(),
            c3r2: far.sadd(near).sdiv(far.ssub(near)).sneg(),
            c3r3: S::sone(),
        }
    }

    /// Construct the orthographic projection matrix from the six frustum planes: a parallel projection with no perspective divide.
    pub fn from_orthographic(left: S, right: S, bottom: S, top: S, near: S, far: S) -> (r: Matrix4x4<S>)
        ensures
            r == Matrix4x4::<S>::sfrom_orthographic(left, right, bottom, top, near, far),
    {
        let two: S = S::one().plus(S::one());
        Matrix4x4 {
            c0r0: two.divide(right.minus(left)),
            c0r1: S::zero(),
            c0r2: S::zero(),
            c0r3: S::zero(),
            c1r0: S::zero(),
            c1r1: two.divide(top.minus(bottom)),
            c1r2: S::zero(),
            c1r3: S::zero(),
            c2r0: S::zero(),
            c2r1: S::zero(),
            c2r2: two.divide(far.minus(near)).negate(),
            c2r3: S::zero(),
            c3r0: right.plus(left).divide(right.minus(left)).negate(),
            c3r1: top.plus(bottom).divide(top.minus(bottom)).negate(),
            c3r2: far.plus(near).divide(far.minus(near)).negate(),
            c3r3: S::one(),
        }
    }
}

impl<S: ScalarFloat> Matrix4x4<S> {
    /// The matrix that [`Matrix4x4::from_orthographic_fov`] constructs, at the specification
    /// level.
    pub open spec fn sfrom_orthographic_fov(fovy: Radians<S>, aspect: S, near: S, far: S) -> Matrix4x4<S> {
        let two = S::sone().sadd(S::sone());
        let width = far.smul(fovy.0.sdiv(two).stan());
        let height = width.sdiv(aspect);
        Matrix4x4 {
            c0r0: two.sdiv(width),
            c0r1: S::szero(),
            c0r2: S::szero(),
            c0r3: S::szero(),
            c1r0: S::szero(),
            c1r1: two.sdiv(height),
            c1r2: S::szero(),
            c1r3: S::szero(),
            c2r0: S::szero(),
            c2r1: S::szero(),
            c2r2: two.sdiv(far.ssub(near)).sneg(),
            c2r3: S::szero(),
            c3r0: S::szero(),
            c3r1: S::szero(),
            c3r2: far.sadd(near).sdiv(far.ssub(near)).sneg(),
            c3r3: S::sone(),
        }
    }

    /// Construct the symmetric orthographic projection matrix from a vertical field-of-view angle, an aspect ratio and the near and far planes. The extent of the view volume is derived from the far plane, not the near plane.
    pub fn from_orthographic_fov(fovy: Radians<S>, aspect: S, near: S, far: S) -> (r: Matrix4x4<S>)
        ensures
            r == Matrix4x4::<S>::sfrom_orthographic_fov(fovy, aspect, near, far),
    {
        let two: S = S::one().plus(S::one());
        let width: S = far.times(fovy.0.divide(two).tan());
        let height: S = width.divide(aspect);
        Matrix4x4 {
            c0r0: two.divide(width),
            c0r1: S::zero(),
            c0r2: S::zero(),
            c0r3: S::zero(),
            c1r0: S::zero(),
            c1r1: two.divide(height),
            c1r2: S::zero(),
            c1r3: S::zero(),
            c2r0: S::zero(),
            c2r1: S::zero(),
            c2r2: two.divide(far.minus(near)).negate(),
            c2r3: S::zero(),
            c3r0: S::zero(),
            c3r1: S::zero(),
            c3r2: far.plus(near).divide(far.minus(near)).negate(),
            c3r3: S::one(),
        }
    }
}

impl<S: Scalar> Matrix2x2<S> {
    /// The matrix that [`Matrix2x2::from_reflection`] constructs, at the specification
    /// level.
    pub open spec fn sfrom_reflection(normal: Vector2<S>) -> Matrix2x2<S> {
        let two = S::sone().sadd(S::sone());
        Matrix2x2 {
            c0r0: S::sone().ssub(two.smul(normal.x).smul(normal.x)),
            c0r1: two.smul(normal.x).smul(normal.y).sneg(),
            c1r0: two.smul(normal.x).smul(normal.y).sneg(),
            c1r1: S::sone().ssub(two.smul(normal.y).smul(normal.y)),
        }
    }

    /// Construct the reflection across the line through the origin whose normal is the given unit vector; either of the two unit normals of a line gives the same reflection.
    pub fn from_reflection(normal: &Vector2<S>) -> (r: Matrix2x2<S>)
        ensures
            r == Matrix2x2::<S>::sfrom_reflection(*normal),
    {
        let two: S = S::one().plus(S::one());
        Matrix2x2 {
            c0r0: S::one().minus(two.times(normal.x).times(normal.x)),
            c0r1: two.times(normal.x).times(normal.y).negate(),
            c1r0: two.times(normal.x).times(normal.y).negate(),
            c1r1: S::one().minus(two.times(normal.y).times(normal.y)),
        }
    }
}

impl<S: Scalar> Matrix3x3<S> {
    /// The matrix that [`Matrix3x3::from_reflection`] constructs, at the specification
    /// level.
    pub open spec fn sfrom_reflection(normal: Vector3<S>) -> Matrix3x3<S> {
        let two = S::sone().sadd(S::sone());
        Matrix3x3 {
            c0r0: S::sone().ssub(two.smul(normal.x).smul(normal.x)),
            c0r1: two.smul(normal.x).smul(normal.y).sneg(),
            c0r2: two.smul(normal.x).smul(normal.z).sneg(),
            c1r0: two.smul(normal.x).smul(normal.y).sneg(),
            c1r1: S::sone().ssub(two.smul(normal.y).smul(normal.y)),
            c1r2: two.smul(normal.y).smul(normal.z).sneg(),
            c2r0: two.smul(normal.x).smul(normal.z).sneg(),
            c2r1: two.smul(normal.y).smul(normal.z).sneg(),
            c2r2: S::sone().ssub(two.smul(normal.z).smul(normal.z)),
        }
    }

    /// Construct the reflection across the plane through the origin whose normal is the given unit vector; either of the two unit normals of a plane gives the same reflection.
    pub fn from_reflection(normal: &Vector3<S>) -> (r: Matrix3x3<S>)
        ensures
            r == Matrix3x3::<S>::sfrom_reflection(*normal),
    {
        let two: S = S::one().plus(S::one());
        Matrix3x3 {
            c0r0: S::one().minus(two.times(normal.x).times(normal.x)),
            c0r1: two.times(normal.x).times(normal.y).negate(),
            c0r2: two.times(normal.x).times(normal.z).negate(),
            c1r0: two.times(normal.x).times(normal.y).negate(),
            c1r1: S::one().minus(two.times(normal.y).times(normal.y)),
            c1r2: two.times(normal.y).times(normal.z).negate(),
            c2r0: two.times(normal.x).times(normal.z).negate(),
            c2r1: two.times(normal.y).times(normal.z).negate(),
            c2r2: S::one().minus(two.times(normal.z).times(normal.z)),
        }
    }
}

impl<S: Scalar> Matrix3x3<S> {
    /// The matrix that [`Matrix3x3::from_affine_reflection`] constructs, at the specification
    /// level.
    pub open spec fn sfrom_affine_reflection(normal: Vector2<S>, bias: Vector2<S>) -> Matrix3x3<S> {
        let two = S::sone().sadd(S::sone());
        let nb = normal.x.smul(bias.x).sadd(normal.y.smul(bias.y));
        Matrix3x3 {
            c0r0: S::sone().ssub(two.smul(normal.x).smul(normal.x)),
            c0r1: two.smul(normal.x).smul(normal.y).sneg(),
            c0r2: S::szero(),
            c1r0: two.smul(normal.x).smul(normal.y).sneg(),
            c1r1: S::sone().ssub(two.smul(normal.y).smul(normal.y)),
            c1r2: S::szero(),
            c2r0: two.smul(nb).smul(normal.x),
            c2r1: two.smul(nb).smul(normal.y),
            c2r2: S::sone(),
        }
    }

    /// Construct the affine reflection of two-dimensional points and vectors across the line through a bias point whose normal is the given unit vector.
    pub fn from_affine_reflection(normal: &Vector2<S>, bias: &Vector2<S>) -> (r: Matrix3x3<S>)
        ensures
            r == Matrix3x3::<S>::sfrom_affine_reflection(*normal, *bias),
    {
        let two: S = S::one().plus(S::one());
        let nb: S = normal.x.times(bias.x).plus(normal.y.times(bias.y));
        Matrix3x3 {
            c0r0: S::one().minus(two.times(normal.x).times(normal.x)),
            c0r1: two.times(normal.x).times(normal.y).negate(),
            c0r2: S::zero(),
            c1r0: two.times(normal.x).times(normal.y).negate(),
            c1r1: S::one().minus(two.times(normal.y).times(normal.y)),
            c1r2: S::zero(),
            c2r0: two.times(nb).times(normal.x),
            c2r1: two.times(nb).times(normal.y),
            c2r2: S::one(),
        }
    }
}

impl<S: Scalar> Matrix4x4<S> {
    /// The matrix that [`Matrix4x4::from_affine_reflection`] constructs, at the specification
    /// level.
    pub open spec fn sfrom_affine_reflection(normal: Vector3<S>, bias: Vector3<S>) -> Matrix4x4<S> {
        let two = S::sone().sadd(S::sone());
        let nb = normal.x.smul(bias.x).sadd(normal.y.smul(bias.y)).sadd(normal.z.smul(bias.z));
        Matrix4x4 {
            c0r0: S::sone().ssub(two.smul(normal.x).smul(normal.x)),
            c0r1: two.smul(normal.x).smul(normal.y).sneg(),
            c0r2: two.smul(normal.x).smul(normal.z).sneg(),
            c0r3: S::szero(),
            c1r0: two.smul(normal.x).smul(normal.y).sneg(),
            c1r1: S::sone().ssub(two.smul(normal.y).smul(normal.y)),
            c1r2: two.smul(normal.y).smul(normal.z).sneg(),
            c1r3: S::szero(),
            c2r0: two.smul(normal.x).smul(normal.z).sneg(),
            c2r1: two.smul(normal.y).smul(normal.z).sneg(),
            c2r2: S::sone().ssub(two.smul(normal.z).smul(normal.z)),
            c2r3: S::szero(),
            c3r0: two.smul(nb).smul(normal.x),
            c3r1: two.smul(nb).smul(normal.y),
            c3r2: two.smul(nb).smul(normal.z),
            c3r3: S::sone(),
        }
    }

    /// Construct the affine reflection of three-dimensional points and vectors across the plane through a bias point whose normal is the given unit vector.
    pub fn from_affine_reflection(normal: &Vector3<S>, bias: &Vector3<S>) -> (r: Matrix4x4<S>)
        ensures
            r == Matrix4x4::<S>::sfrom_affine_reflection(*normal, *bias),
    {
        let two: S = S::one().plus(S::one());
        let nb: S = normal.x.times(bias.x).plus(normal.y.times(bias.y)).plus(normal.z.times(bias.z));
        Matrix4x4 {
            c0r0: S::one().minus(two.times(normal.x).times(normal.x)),
            c0r1: two.times(normal.x).times(normal.y).negate(),
            c0r2: two.times(normal.x).times(normal.z).negate(),
            c0r3: S::zero(),
            c1r0: two.times(normal.x).times(normal.y).negate(),
            c1r1: S::one().minus(two.times(normal.y).times(normal.y)),
            c1r2: two.times(normal.y).times(normal.z).negate(),
            c1r3: S::zero(),
            c2r0: two.times(normal.x).times(normal.z).negate(),
            c2r1: two.times(normal.y).times(normal.z).negate(),
            c2r2: S::one().minus(two.times(normal.z).times(normal.z)),
            c2r3: S::zero(),
            c3r0: two.times(nb).times(normal.x),
            c3r1: two.times(nb).times(normal.y),
            c3r2: two.times(nb).times(normal.z),
            c3r3: S::one(),
        }
    }
}

impl<S: ScalarFloat> Matrix4x4<S> {
    /// The matrix that [`Matrix4x4::from_affine_angle_x`] constructs, at the specification
    /// level.
    pub open spec fn sfrom_affine_angle_x(angle: Radians<S>) -> Matrix4x4<S> {
        let c = angle.0.scos();
        let s = angle.0.ssin();
        Matrix4x4 {
            c0r0: S::sone(),
            c0r1: S::szero(),
            c0r2: S::szero(),
            c0r3: S::szero(),
            c1r0: S::szero(),
            c1r1: c,
            c1r2: s,
            c1r3: S::szero(),
            c2r0: S::szero(),
            c2r1: s.sneg(),
            c2r2: c,
            c2r3: S::szero(),
            c3r0: S::szero(),
            c3r1: S::szero(),
            c3r2: S::szero(),
            c3r3: S::sone(),
        }
    }

    /// Construct an affine matrix that rotates three-dimensional points and vectors about the `x` axis by an angle.
    pub fn from_affine_angle_x(angle: Radians<S>) -> (r: Matrix4x4<S>)
        ensures
            r == Matrix4x4::<S>::sfrom_affine_angle_x(angle),
    {
        let c: S = angle.0.cos();
        let s: S = angle.0.sin();
        Matrix4x4 {
            c0r0: S::one(),
            c0r1: S::zero(),
            c0r2: S::zero(),
            c0r3: S::zero(),
            c1r0: S::zero(),
            c1r1: c,
            c1r2: s,
            c1r3: S::zero(),
            c2r0: S::zero(),
            c2r1: s.negate(),
            c2r2: c,
            c2r3: S::zero(),
            c3r0: S::zero(),
            c3r1: S::zero(),
            c3r2: S::zero(),
            c3r3: S::one(),
        }
    }
}

impl<S: ScalarFloat> Matrix4x4<S> {
    /// The matrix that [`Matrix4x4::from_affine_angle_y`] constructs, at the specification
    /// level.
    pub open spec fn sfrom_affine_angle_y(angle: Radians<S>) -> Matrix4x4<S> {
        let c = angle.0.scos();
        let s = angle.0.ssin();
        Matrix4x4 {
            c0r0: c,
            c0r1: S::szero(),
            c0r2: s.sneg(),
            c0r3: S::szero(),
            c1r0: S::szero(),
            c1r1: S::sone(),
            c1r2: S::szero(),
            c1r3: S::szero(),
            c2r0: s,
            c2r1: S::szero(),
            c2r2: c,
            c2r3: S::szero(),
            c3r0: S::szero(),
            c3r1: S::szero(),
            c3r2: S::szero(),
            c3r3: S::sone(),
        }
    }

    /// Construct an affine matrix that rotates three-dimensional points and vectors about the `y` axis by an angle.
    pub fn from_affine_angle_y(angle: Radians<S>) -> (r: Matrix4x4<S>)
        ensures
            r == Matrix4x4::<S>::sfrom_affine_angle_y(angle),
    {
        let c: S = angle.0.cos();
        let s: S = angle.0.sin();
        Matrix4x4 {
            c0r0: c,
            c0r1: S::zero(),
            c0r2: s.negate(),
            c0r3: S::zero(),
            c1r0: S::zero(),
            c1r1: S::one(),
            c1r2: S::zero(),
            c1r3: S::zero(),
            c2r0: s,
            c2r1: S::zero(),
            c2r2: c,
            c2r3: S::zero(),
            c3r0: S::zero(),
            c3r1: S::zero(),
            c3r2: S::zero(),
            c3r3: S::one(),
        }
    }
}

impl<S: ScalarFloat> Matrix4x4<S> {
    /// The matrix that [`Matrix4x4::from_affine_angle_z`] constructs, at the specification
    /// level.
    pub open spec fn sfrom_affine_angle_z(angle: Radians<S>) -> Matrix4x4<S> {
        let c = angle.0.scos();
        let s = angle.0.ssin();
        Matrix4x4 {
            c0r0: c,
            c0r1: s,
            c0r2: S::szero(),
            c0r3: S::szero(),
            c1r0: s.sneg(),
            c1r1: c,
            c1r2: S::szero(),
            c1r3: S::szero(),
            c2r0: S::szero(),
            c2r1: S::szero(),
            c2r2: S::sone(),
            c2r3: S::szero(),
            c3r0: S::szero(),
            c3r1: S::szero(),
            c3r2: S::szero(),
            c3r3: S::sone(),
        }
    }

    /// Construct an affine matrix that rotates three-dimensional points and vectors about the `z` axis by an angle.
    pub fn from_affine_angle_z(angle: Radians<S>) -> (r: Matrix4x4<S>)
        ensures
            r == Matrix4x4::<S>::sfrom_affine_angle_z(angle),
    {
        let c: S = angle.0.cos();
        let s: S = angle.0.sin();
        Matrix4x4 {
            c0r0: c,
            c0r1: s,
            c0r2: S::zero(),
            c0r3: S::zero(),
            c1r0: s.negate(),
            c1r1: c,
            c1r2: S::zero(),
            c1r3: S::zero(),
            c2r0: S::zero(),
            c2r1: S::zero(),
            c2r2: S::one(),
            c2r3: S::zero(),
            c3r0: S::zero(),
            c3r1: S::zero(),
            c3r2: S::zero(),
            c3r3: S::one(),
        }
    }
}

impl<S: ScalarFloat> Matrix4x4<S> {
    /// The matrix that [`Matrix4x4::look_at_lh`] constructs, at the specification
    /// level.
    pub open spec fn slook_at_lh(eye: Point3<S>, target: Point3<S>, up: Vector3<S>) -> Matrix4x4<S> {
        let direction = Vector3 { x: target.x.ssub(eye.x), y: target.y.ssub(eye.y), z: target.z.ssub(eye.z) };
        let zv = direction.snormalize();
        let xv = up.scross(zv).snormalize();
        let yv = zv.scross(xv);
        let ev = Vector3 { x: eye.x, y: eye.y, z: eye.z };
        let tx = xv.sdot(ev).sneg();
        let ty = yv.sdot(ev).sneg();
        let tz = zv.sdot(ev).sneg();
        Matrix4x4 {
            c0r0: xv.x,
            c0r1: yv.x,
            c0r2: zv.x,
            c0r3: S::szero(),
            c1r0: xv.y,
            c1r1: yv.y,
            c1r2: zv.y,
            c1r3: S::szero(),
            c2r0: xv.z,
            c2r1: yv.z,
            c2r2: zv.z,
            c2r3: S::szero(),
            c3r0: tx,
            c3r1: ty,
            c3r2: tz,
            c3r3: S::sone(),
        }
    }

    /// Construct the left-handed affine view transformation that places the eye point at the origin, looking toward the target point along the `z` axis, with an up hint fixing the roll.
    pub fn look_at_lh(eye: &Point3<S>, target: &Point3<S>, up: &Vector3<S>) -> (r: Matrix4x4<S>)
        ensures
            r == Matrix4x4::<S>::slook_at_lh(*eye, *target, *up),
    {
        let direction: Vector3<S> = Vector3 { x: target.x.minus(eye.x), y: target.y.minus(eye.y), z: target.z.minus(eye.z) };
        let zv: Vector3<S> = direction.normalize();
        let xv: Vector3<S> = up.cross(zv).normalize();
        let yv: Vector3<S> = zv.cross(xv);
        let ev: Vector3<S> = Vector3 { x: eye.x, y: eye.y, z: eye.z };
        let tx: S = xv.dot(ev).negate();
        let ty: S = yv.dot(ev).negate();
        let tz: S = zv.dot(ev).negate();
        Matrix4x4 {
            c0r0: xv.x,
            c0r1: yv.x,
            c0r2: zv.x,
            c0r3: S::zero(),
            c1r0: xv.y,
            c1r1: yv.y,
            c1r2: zv.y,
            c1r3: S::zero(),
            c2r0: xv.z,
            c2r1: yv.z,
            c2r2: zv.z,
            c2r3: S::zero(),
            c3r0: tx,
            c3r1: ty,
            c3r2: tz,
            c3r3: S::one(),
        }
    }
}

impl<S: ScalarFloat> Matrix4x4<S> {
    /// The matrix that [`Matrix4x4::look_at_rh`] constructs, at the specification
    /// level.
    pub open spec fn slook_at_rh(eye: Point3<S>, target: Point3<S>, up: Vector3<S>) -> Matrix4x4<S> {
        let direction = Vector3 { x: eye.x.ssub(target.x), y: eye.y.ssub(target.y), z: eye.z.ssub(target.z) };
        let zv = direction.snormalize();
        let xv = up.scross(zv).snormalize();
        let yv = zv.scross(xv);
        let ev = Vector3 { x: eye.x, y: eye.y, z: eye.z };
        let tx = xv.sdot(ev).sneg();
        let ty = yv.sdot(ev).sneg();
        let tz = zv.sdot(ev).sneg();
        Matrix4x4 {
            c0r0: xv.x,
            c0r1: yv.x,
            c0r2: zv.x,
            c0r3: S::szero(),
            c1r0: xv.y,
            c1r1: yv.y,
            c1r2: zv.y,
            c1r3: S::szero(),
            c2r0: xv.z,
            c2r1: yv.z,
            c2r2: zv.z,
            c2r3: S::szero(),
            c3r0: tx,
            c3r1: ty,
            c3r2: tz,
            c3r3: S::sone(),
        }
    }

    /// Construct the right-handed affine view transformation that places the eye point at the origin, looking toward the target point along the negative `z` axis, with an up hint fixing the roll.
    pub fn look_at_rh(eye: &Point3<S>, target: &Point3<S>, up: &Vector3<S>) -> (r: Matrix4x4<S>)
        ensures
            r == Matrix4x4::<S>::slook_at_rh(*eye, *target, *up),
    {
        let direction: Vector3<S> = Vector3 { x: eye.x.minus(target.x), y: eye.y.minus(target.y), z: eye.z.minus(target.z) };
        let zv: Vector3<S> = direction.normalize();
        let xv: Vector3<S> = up.cross(zv).normalize();
        let yv: Vector3<S> = zv.cross(xv);
        let ev: Vector3<S> = Vector3 { x: eye.x, y: eye.y, z: eye.z };
        let tx: S = xv.dot(ev).negate();
        let ty: S = yv.dot(ev).negate();
        let tz: S = zv.dot(ev).negate();
        Matrix4x4 {
            c0r0: xv.x,
            c0r1: yv.x,
            c0r2: zv.x,
            c0r3: S::zero(),
            c1r0: xv.y,
            c1r1: yv.y,
            c1r2: zv.y,
            c1r3: S::zero(),
            c2r0: xv.z,
            c2r1: yv.z,
            c2r2: zv.z,
            c2r3: S::zero(),
            c3r0: tx,
            c3r1: ty,
            c3r2: tz,
            c3r3: S::one(),
        }
    }
}

impl<S: ScalarFloat> Matrix4x4<S> {
    /// The matrix that [`Matrix4x4::from_affine_axis_angle`] constructs, at
    /// the specification level.
    pub open spec fn sfrom_affine_axis_angle(axis: Vector3<S>, angle: Radians<S>) -> Matrix4x4<S> {
        let c = angle.0.scos();
        let s = angle.0.ssin();
        let k = S::sone().ssub(c);
        Matrix4x4 {
            c0r0: k.smul(axis.x).smul(axis.x).sadd(c),
            c0r1: k.smul(axis.x).smul(axis.y).sadd(s.smul(axis.z)),
            c0r2: k.smul(axis.x).smul(axis.z).ssub(s.smul(axis.y)),
            c0r3: S::szero(),
            c1r0: k.smul(axis.x).smul(axis.y).ssub(s.smul(axis.z)),
            c1r1: k.smul(axis.y).smul(axis.y).sadd(c),
            c1r2: k.smul(axis.y).smul(axis.z).sadd(s.smul(axis.x)),
            c1r3: S::szero(),
            c2r0: k.smul(axis.x).smul(axis.z).sadd(s.smul(axis.y)),
            c2r1: k.smul(axis.y).smul(axis.z).ssub(s.smul(axis.x)),
            c2r2: k.smul(axis.z).smul(axis.z).sadd(c),
            c2r3: S::szero(),
            c3r0: S::szero(),
            c3r1: S::szero(),
            c3r2: S::szero(),
            c3r3: S::sone(),
        }
    }

    /// Construct the affine rotation about an axis by an angle, by the
    /// Rodrigues formula, leaving the homogeneous coordinate unchanged. The
    /// axis is taken as given: a non-unit axis silently yields a non-rigid
    /// transformation.
    pub fn from_affine_axis_angle(axis: &Vector3<S>, angle: Radians<S>) -> (r: Matrix4x4<S>)
        ensures
            r == Matrix4x4::<S>::sfrom_affine_axis_angle(*axis, angle),
    {
        let c: S = angle.0.cos();
        let s: S = angle.0.sin();
        let k: S = S::one().minus(c);
        Matrix4x4 {
            c0r0: k.times(axis.x).times(axis.x).plus(c),
            c0r1: k.times(axis.x).times(axis.y).plus(s.times(axis.z)),
            c0r2: k.times(axis.x).times(axis.z).minus(s.times(axis.y)),
            c0r3: S::zero(),
            c1r0: k.times(axis.x).times(axis.y).minus(s.times(axis.z)),
            c1r1: k.times(axis.y).times(axis.y).plus(c),
            c1r2: k.times(axis.y).times(axis.z).plus(s.times(axis.x)),
            c1r3: S::zero(),
            c2r0: k.times(axis.x).times(axis.z).plus(s.times(axis.y)),
            c2r1: k.times(axis.y).times(axis.z).minus(s.times(axis.x)),
            c2r2: k.times(axis.z).times(axis.z).plus(c),
            c2r3: S::zero(),
            c3r0: S::zero(),
            c3r1: S::zero(),
            c3r2: S::zero(),
            c3r3: S::one(),
        }
    }
}

} // verus!
