//! The algebraic laws of the matrix engine, proved once and for all from
//! the scalar capability's laws: the transpose is an involution, the
//! determinant of a triangular matrix is the product of its diagonal, and a
//! matrix with two identical rows or columns is singular.

use crate::matrix::Matrix2x2;
use crate::matrix::Matrix3x3;
use crate::matrix::Matrix4x4;
use crate::scalar::Scalar;
use vstd::prelude::*;

verus! {

/// Transposing a two-by-two matrix twice gives back the matrix, exactly,
/// for every scalar type.
pub proof fn transpose_involution_2x2<S: Copy>(m: Matrix2x2<S>)
    ensures
        m.stranspose().stranspose() == m,
{
}

/// Transposing a three-by-three matrix twice gives back the matrix,
/// exactly, for every scalar type.
pub proof fn transpose_involution_3x3<S: Copy>(m: Matrix3x3<S>)
    ensures
        m.stranspose().stranspose() == m,
{
}

/// Transposing a four-by-four matrix twice gives back the matrix, exactly,
/// for every scalar type.
pub proof fn transpose_involution_4x4<S: Copy>(m: Matrix4x4<S>)
    ensures
        m.stranspose().stranspose() == m,
{
}

/// The determinant of a lower-triangular two-by-two matrix is the product
/// of its diagonal entries, exactly.
pub proof fn determinant_lower_triangular_2x2<S: Scalar>(m: Matrix2x2<S>)
    requires
        m.c1r0 == S::szero(),
    ensures
        m.sdet() == m.c0r0.smul(m.c1r1),
{
    S::law_mul_zero(m.c0r1);
    S::law_sub_zero(m.c0r0.smul(m.c1r1));
}

/// The determinant of an upper-triangular two-by-two matrix is the product
/// of its diagonal entries, exactly.
pub proof fn determinant_upper_triangular_2x2<S: Scalar>(m: Matrix2x2<S>)
    requires
        m.c0r1 == S::szero(),
    ensures
        m.sdet() == m.c0r0.smul(m.c1r1),
{
    S::law_mul_zero(m.c1r0);
    S::law_sub_zero(m.c0r0.smul(m.c1r1));
}

/// The determinant of a lower-triangular three-by-three matrix is the
/// product of its diagonal entries, exactly.
pub proof fn determinant_lower_triangular_3x3<S: Scalar>(m: Matrix3x3<S>)
    requires
        m.c1r0 == S::szero(),
        m.c2r0 == S::szero(),
        m.c2r1 == S::szero(),
    ensures
        m.sdet() == m.c0r0.smul(m.c1r1.smul(m.c2r2)),
{
    S::law_mul_zero(S::szero());
    S::law_mul_zero(m.c1r2);
    S::law_mul_zero(m.c2r2);
    S::law_sub_zero(m.c1r1.smul(m.c2r2));
    S::law_sub_zero(S::szero());
    S::law_mul_zero(m.c0r1);
    S::law_mul_zero(m.c1r1);
    S::law_mul_zero(m.c0r2);
    let first = m.c0r0.smul(m.c1r1.smul(m.c2r2));
    S::law_sub_zero(first);
    S::law_add_zero(first);
}

/// The determinant of an upper-triangular three-by-three matrix is the
/// product of its diagonal entries, exactly.
pub proof fn determinant_upper_triangular_3x3<S: Scalar>(m: Matrix3x3<S>)
    requires
        m.c0r1 == S::szero(),
        m.c0r2 == S::szero(),
        m.c1r2 == S::szero(),
    ensures
        m.sdet() == m.c0r0.smul(m.c1r1.smul(m.c2r2)),
{
    S::law_mul_zero(m.c2r1);
    S::law_sub_zero(m.c1r1.smul(m.c2r2));
    S::law_mul_zero(m.c1r0.smul(m.c2r2).ssub(m.c2r0.smul(m.c1r2)));
    S::law_mul_zero(m.c1r0.smul(m.c2r1).ssub(m.c2r0.smul(m.c1r1)));
    let first = m.c0r0.smul(m.c1r1.smul(m.c2r2));
    S::law_sub_zero(first);
    S::law_add_zero(first);
}

/// The determinant of a lower-triangular four-by-four matrix is the
/// product of its diagonal entries, exactly.
pub proof fn determinant_lower_triangular_4x4<S: Scalar>(m: Matrix4x4<S>)
    requires
        m.c1r0 == S::szero(),
        m.c2r0 == S::szero(),
        m.c3r0 == S::szero(),
        m.c2r1 == S::szero(),
        m.c3r1 == S::szero(),
        m.c3r2 == S::szero(),
    ensures
        m.sdet() == m.c0r0.smul(m.c1r1).smul(m.c2r2.smul(m.c3r3)),
{
    S::law_mul_zero(S::szero());
    S::law_mul_zero(m.c0r0);
    S::law_mul_zero(m.c0r1);
    S::law_mul_zero(m.c0r2);
    S::law_mul_zero(m.c0r3);
    S::law_mul_zero(m.c1r1);
    S::law_mul_zero(m.c1r3);
    S::law_mul_zero(m.c2r3);
    S::law_mul_zero(m.c3r3);
    S::law_sub_zero(m.c0r0.smul(m.c1r1));
    S::law_sub_zero(m.c2r2.smul(m.c3r3));
    S::law_sub_zero(S::szero());
    let s0 = m.c0r0.smul(m.c1r1);
    let c5 = m.c2r2.smul(m.c3r3);
    S::law_mul_zero(m.c1r2.smul(m.c3r3).ssub(m.c3r2.smul(m.c1r3)));
    S::law_mul_zero(m.c1r2.smul(m.c2r3).ssub(m.c2r2.smul(m.c1r3)));
    S::law_mul_zero(m.c0r2.smul(m.c3r3).ssub(m.c3r2.smul(m.c0r3)));
    S::law_mul_zero(m.c0r2.smul(m.c2r3).ssub(m.c2r2.smul(m.c0r3)));
    S::law_mul_zero(m.c0r2.smul(m.c1r3).ssub(m.c1r2.smul(m.c0r3)));
    let first = s0.smul(c5);
    S::law_sub_zero(first);
    S::law_add_zero(first);
    S::law_add_zero(first);
    S::law_sub_zero(first);
    S::law_add_zero(first);
}

/// The determinant of an upper-triangular four-by-four matrix is the
/// product of its diagonal entries, exactly.
pub proof fn determinant_upper_triangular_4x4<S: Scalar>(m: Matrix4x4<S>)
    requires
        m.c0r1 == S::szero(),
        m.c0r2 == S::szero(),
        m.c0r3 == S::szero(),
        m.c1r2 == S::szero(),
        m.c1r3 == S::szero(),
        m.c2r3 == S::szero(),
    ensures
        m.sdet() == m.c0r0.smul(m.c1r1).smul(m.c2r2.smul(m.c3r3)),
{
    S::law_mul_zero(m.c1r0);
    S::law_mul_zero(m.c3r2);
    S::law_mul_zero(m.c3r3);
    S::law_mul_zero(m.c2r2);
    S::law_mul_zero(m.c2r3);
    S::law_sub_zero(m.c0r0.smul(m.c1r1));
    S::law_sub_zero(m.c2r2.smul(m.c3r3));
    S::law_sub_zero(S::szero());
    let s0 = m.c0r0.smul(m.c1r1);
    let c5 = m.c2r2.smul(m.c3r3);
    S::law_mul_zero(m.c0r0.smul(m.c2r1).ssub(m.c2r0.smul(m.c0r1)));
    S::law_mul_zero(m.c0r0.smul(m.c3r1).ssub(m.c3r0.smul(m.c0r1)));
    S::law_mul_zero(m.c1r0.smul(m.c2r1).ssub(m.c2r0.smul(m.c1r1)));
    S::law_mul_zero(m.c1r0.smul(m.c3r1).ssub(m.c3r0.smul(m.c1r1)));
    S::law_mul_zero(m.c2r0.smul(m.c3r1).ssub(m.c3r0.smul(m.c2r1)));
    let first = s0.smul(c5);
    S::law_sub_zero(first);
    S::law_add_zero(first);
    S::law_add_zero(first);
    S::law_sub_zero(first);
    S::law_add_zero(first);
}

/// A two-by-two matrix whose two rows are identical has determinant zero,
/// exactly; its inverse therefore reports that no inverse exists.
pub proof fn determinant_zero_equal_rows_2x2<S: Scalar>(m: Matrix2x2<S>)
    requires
        m.c0r0 == m.c0r1,
        m.c1r0 == m.c1r1,
    ensures
        m.sdet() == S::szero(),
{
    S::law_sub_self(m.c0r0.smul(m.c1r1));
}

/// A two-by-two matrix whose two columns are identical has determinant
/// zero, exactly; its inverse therefore reports that no inverse exists.
pub proof fn determinant_zero_equal_columns_2x2<S: Scalar>(m: Matrix2x2<S>)
    requires
        m.c0r0 == m.c1r0,
        m.c0r1 == m.c1r1,
    ensures
        m.sdet() == S::szero(),
{
    S::law_mul_comm(m.c0r0, m.c0r1);
    S::law_sub_self(m.c0r0.smul(m.c1r1));
}

/// A three-by-three matrix whose first two rows are identical has
/// determinant zero, exactly.
pub proof fn determinant_zero_equal_rows_01_3x3<S: Scalar>(m: Matrix3x3<S>)
    requires
        m.c0r0 == m.c0r1,
        m.c1r0 == m.c1r1,
        m.c2r0 == m.c2r1,
    ensures
        m.sdet() == S::szero(),
{
    S::law_mul_comm(m.c1r1, m.c2r1);
    S::law_sub_self(m.c1r1.smul(m.c2r1));
    S::law_mul_zero(m.c0r2);
    let t = m.c0r0.smul(m.c1r1.smul(m.c2r2).ssub(m.c2r1.smul(m.c1r2)));
    S::law_sub_self(t);
    S::law_add_zero(S::szero());
}

/// A three-by-three matrix whose last two rows are identical has
/// determinant zero, exactly.
pub proof fn determinant_zero_equal_rows_12_3x3<S: Scalar>(m: Matrix3x3<S>)
    requires
        m.c0r1 == m.c0r2,
        m.c1r1 == m.c1r2,
        m.c2r1 == m.c2r2,
    ensures
        m.sdet() == S::szero(),
{
    S::law_mul_comm(m.c1r1, m.c2r1);
    S::law_sub_self(m.c1r1.smul(m.c2r1));
    S::law_mul_zero(m.c0r0);
    let t = m.c0r1.smul(m.c1r0.smul(m.c2r2).ssub(m.c2r0.smul(m.c1r2)));
    S::law_sub_add(S::szero(), t);
}

/// A four-by-four matrix whose first two rows are identical has
/// determinant zero, exactly.
pub proof fn determinant_zero_equal_rows_01_4x4<S: Scalar>(m: Matrix4x4<S>)
    requires
        m.c0r0 == m.c0r1,
        m.c1r0 == m.c1r1,
        m.c2r0 == m.c2r1,
        m.c3r0 == m.c3r1,
    ensures
        m.sdet() == S::szero(),
{
    S::law_mul_comm(m.c0r1, m.c1r1);
    S::law_mul_comm(m.c0r1, m.c2r1);
    S::law_mul_comm(m.c0r1, m.c3r1);
    S::law_mul_comm(m.c1r1, m.c2r1);
    S::law_mul_comm(m.c1r1, m.c3r1);
    S::law_mul_comm(m.c2r1, m.c3r1);
    S::law_sub_self(m.c0r1.smul(m.c1r1));
    S::law_sub_self(m.c0r1.smul(m.c2r1));
    S::law_sub_self(m.c0r1.smul(m.c3r1));
    S::law_sub_self(m.c1r1.smul(m.c2r1));
    S::law_sub_self(m.c1r1.smul(m.c3r1));
    S::law_sub_self(m.c2r1.smul(m.c3r1));
    S::law_mul_zero(m.c2r2.smul(m.c3r3).ssub(m.c3r2.smul(m.c2r3)));
    S::law_mul_zero(m.c1r2.smul(m.c3r3).ssub(m.c3r2.smul(m.c1r3)));
    S::law_mul_zero(m.c1r2.smul(m.c2r3).ssub(m.c2r2.smul(m.c1r3)));
    S::law_mul_zero(m.c0r2.smul(m.c3r3).ssub(m.c3r2.smul(m.c0r3)));
    S::law_mul_zero(m.c0r2.smul(m.c2r3).ssub(m.c2r2.smul(m.c0r3)));
    S::law_mul_zero(m.c0r2.smul(m.c1r3).ssub(m.c1r2.smul(m.c0r3)));
    S::law_sub_zero(S::szero());
    S::law_add_zero(S::szero());
}

/// A four-by-four matrix whose last two rows are identical has determinant
/// zero, exactly.
pub proof fn determinant_zero_equal_rows_23_4x4<S: Scalar>(m: Matrix4x4<S>)
    requires
        m.c0r2 == m.c0r3,
        m.c1r2 == m.c1r3,
        m.c2r2 == m.c2r3,
        m.c3r2 == m.c3r3,
    ensures
        m.sdet() == S::szero(),
{
    S::law_mul_comm(m.c0r3, m.c1r3);
    S::law_mul_comm(m.c0r3, m.c2r3);
    S::law_mul_comm(m.c0r3, m.c3r3);
    S::law_mul_comm(m.c1r3, m.c2r3);
    S::law_mul_comm(m.c1r3, m.c3r3);
    S::law_mul_comm(m.c2r3, m.c3r3);
    S::law_sub_self(m.c0r3.smul(m.c1r3));
    S::law_sub_self(m.c0r3.smul(m.c2r3));
    S::law_sub_self(m.c0r3.smul(m.c3r3));
    S::law_sub_self(m.c1r3.smul(m.c2r3));
    S::law_sub_self(m.c1r3.smul(m.c3r3));
    S::law_sub_self(m.c2r3.smul(m.c3r3));
    S::law_mul_zero(m.c0r0.smul(m.c1r1).ssub(m.c1r0.smul(m.c0r1)));
    S::law_mul_zero(m.c0r0.smul(m.c2r1).ssub(m.c2r0.smul(m.c0r1)));
    S::law_mul_zero(m.c0r0.smul(m.c3r1).ssub(m.c3r0.smul(m.c0r1)));
    S::law_mul_zero(m.c1r0.smul(m.c2r1).ssub(m.c2r0.smul(m.c1r1)));
    S::law_mul_zero(m.c1r0.smul(m.c3r1).ssub(m.c3r0.smul(m.c1r1)));
    S::law_mul_zero(m.c2r0.smul(m.c3r1).ssub(m.c3r0.smul(m.c2r1)));
    S::law_sub_zero(S::szero());
    S::law_add_zero(S::szero());
}

/// The transpose of a product is the product of the transposes in the
/// opposite order, exactly.
pub proof fn transpose_product_2x2<S: Scalar>(a: Matrix2x2<S>, b: Matrix2x2<S>)
    ensures
        a.smmul(b).stranspose() == b.stranspose().smmul(a.stranspose()),
{
    S::law_mul_comm(a.c0r0, b.c0r0);
    S::law_mul_comm(a.c1r0, b.c0r1);
    S::law_mul_comm(a.c0r0, b.c1r0);
    S::law_mul_comm(a.c1r0, b.c1r1);
    S::law_mul_comm(a.c0r1, b.c0r0);
    S::law_mul_comm(a.c1r1, b.c0r1);
    S::law_mul_comm(a.c0r1, b.c1r0);
    S::law_mul_comm(a.c1r1, b.c1r1);
}

/// The identity matrix is a two-sided unit for matrix multiplication,
/// exactly.
pub proof fn identity_multiplication_2x2<S: Scalar>(m: Matrix2x2<S>)
    ensures
        m.smmul(Matrix2x2::<S>::smidentity()) == m,
        Matrix2x2::<S>::smidentity().smmul(m) == m,
{
    S::law_add_zero(S::szero());
    S::law_mul_one(m.c0r0);
    S::law_mul_one(m.c0r1);
    S::law_mul_one(m.c1r0);
    S::law_mul_one(m.c1r1);
    S::law_mul_zero(m.c0r0);
    S::law_mul_zero(m.c0r1);
    S::law_mul_zero(m.c1r0);
    S::law_mul_zero(m.c1r1);
    S::law_add_zero(m.c0r0);
    S::law_add_zero(m.c0r1);
    S::law_add_zero(m.c1r0);
    S::law_add_zero(m.c1r1);
}

/// The transpose of a product is the product of the transposes in the
/// opposite order, exactly.
pub proof fn transpose_product_3x3<S: Scalar>(a: Matrix3x3<S>, b: Matrix3x3<S>)
    ensures
        a.smmul(b).stranspose() == b.stranspose().smmul(a.stranspose()),
{
    S::law_mul_comm(a.c0r0, b.c0r0);
    S::law_mul_comm(a.c1r0, b.c0r1);
    S::law_mul_comm(a.c2r0, b.c0r2);
    S::law_mul_comm(a.c0r0, b.c1r0);
    S::law_mul_comm(a.c1r0, b.c1r1);
    S::law_mul_comm(a.c2r0, b.c1r2);
    S::law_mul_comm(a.c0r0, b.c2r0);
    S::law_mul_comm(a.c1r0, b.c2r1);
    S::law_mul_comm(a.c2r0, b.c2r2);
    S::law_mul_comm(a.c0r1, b.c0r0);
    S::law_mul_comm(a.c1r1, b.c0r1);
    S::law_mul_comm(a.c2r1, b.c0r2);
    S::law_mul_comm(a.c0r1, b.c1r0);
    S::law_mul_comm(a.c1r1, b.c1r1);
    S::law_mul_comm(a.c2r1, b.c1r2);
    S::law_mul_comm(a.c0r1, b.c2r0);
    S::law_mul_comm(a.c1r1, b.c2r1);
    S::law_mul_comm(a.c2r1, b.c2r2);
    S::law_mul_comm(a.c0r2, b.c0r0);
    S::law_mul_comm(a.c1r2, b.c0r1);
    S::law_mul_comm(a.c2r2, b.c0r2);
    S::law_mul_comm(a.c0r2, b.c1r0);
    S::law_mul_comm(a.c1r2, b.c1r1);
    S::law_mul_comm(a.c2r2, b.c1r2);
    S::law_mul_comm(a.c0r2, b.c2r0);
    S::law_mul_comm(a.c1r2, b.c2r1);
    S::law_mul_comm(a.c2r2, b.c2r2);
}

/// The identity matrix is a two-sided unit for matrix multiplication,
/// exactly.
pub proof fn identity_multiplication_3x3<S: Scalar>(m: Matrix3x3<S>)
    ensures
        m.smmul(Matrix3x3::<S>::smidentity()) == m,
        Matrix3x3::<S>::smidentity().smmul(m) == m,
{
    S::law_add_zero(S::szero());
    S::law_mul_one(m.c0r0);
    S::law_mul_one(m.c0r1);
    S::law_mul_one(m.c0r2);
    S::law_mul_one(m.c1r0);
    S::law_mul_one(m.c1r1);
    S::law_mul_one(m.c1r2);
    S::law_mul_one(m.c2r0);
    S::law_mul_one(m.c2r1);
    S::law_mul_one(m.c2r2);
    S::law_mul_zero(m.c0r0);
    S::law_mul_zero(m.c0r1);
    S::law_mul_zero(m.c0r2);
    S::law_mul_zero(m.c1r0);
    S::law_mul_zero(m.c1r1);
    S::law_mul_zero(m.c1r2);
    S::law_mul_zero(m.c2r0);
    S::law_mul_zero(m.c2r1);
    S::law_mul_zero(m.c2r2);
    S::law_add_zero(m.c0r0);
    S::law_add_zero(m.c0r1);
    S::law_add_zero(m.c0r2);
    S::law_add_zero(m.c1r0);
    S::law_add_zero(m.c1r1);
    S::law_add_zero(m.c1r2);
    S::law_add_zero(m.c2r0);
    S::law_add_zero(m.c2r1);
    S::law_add_zero(m.c2r2);
}

/// The transpose of a product is the product of the transposes in the
/// opposite order, exactly.
pub proof fn transpose_product_4x4<S: Scalar>(a: Matrix4x4<S>, b: Matrix4x4<S>)
    ensures
        a.smmul(b).stranspose() == b.stranspose().smmul(a.stranspose()),
{
    S::law_mul_comm(a.c0r0, b.c0r0);
    S::law_mul_comm(a.c1r0, b.c0r1);
    S::law_mul_comm(a.c2r0, b.c0r2);
    S::law_mul_comm(a.c3r0, b.c0r3);
    S::law_mul_comm(a.c0r0, b.c1r0);
    S::law_mul_comm(a.c1r0, b.c1r1);
    S::law_mul_comm(a.c2r0, b.c1r2);
    S::law_mul_comm(a.c3r0, b.c1r3);
    S::law_mul_comm(a.c0r0, b.c2r0);
    S::law_mul_comm(a.c1r0, b.c2r1);
    S::law_mul_comm(a.c2r0, b.c2r2);
    S::law_mul_comm(a.c3r0, b.c2r3);
    S::law_mul_comm(a.c0r0, b.c3r0);
    S::law_mul_comm(a.c1r0, b.c3r1);
    S::law_mul_comm(a.c2r0, b.c3r2);
    S::law_mul_comm(a.c3r0, b.c3r3);
    S::law_mul_comm(a.c0r1, b.c0r0);
    S::law_mul_comm(a.c1r1, b.c0r1);
    S::law_mul_comm(a.c2r1, b.c0r2);
    S::law_mul_comm(a.c3r1, b.c0r3);
    S::law_mul_comm(a.c0r1, b.c1r0);
    S::law_mul_comm(a.c1r1, b.c1r1);
    S::law_mul_comm(a.c2r1, b.c1r2);
    S::law_mul_comm(a.c3r1, b.c1r3);
    S::law_mul_comm(a.c0r1, b.c2r0);
    S::law_mul_comm(a.c1r1, b.c2r1);
    S::law_mul_comm(a.c2r1, b.c2r2);
    S::law_mul_comm(a.c3r1, b.c2r3);
    S::law_mul_comm(a.c0r1, b.c3r0);
    S::law_mul_comm(a.c1r1, b.c3r1);
    S::law_mul_comm(a.c2r1, b.c3r2);
    S::law_mul_comm(a.c3r1, b.c3r3);
    S::law_mul_comm(a.c0r2, b.c0r0);
    S::law_mul_comm(a.c1r2, b.c0r1);
    S::law_mul_comm(a.c2r2, b.c0r2);
    S::law_mul_comm(a.c3r2, b.c0r3);
    S::law_mul_comm(a.c0r2, b.c1r0);
    S::law_mul_comm(a.c1r2, b.c1r1);
    S::law_mul_comm(a.c2r2, b.c1r2);
    S::law_mul_comm(a.c3r2, b.c1r3);
    S::law_mul_comm(a.c0r2, b.c2r0);
    S::law_mul_comm(a.c1r2, b.c2r1);
    S::law_mul_comm(a.c2r2, b.c2r2);
    S::law_mul_comm(a.c3r2, b.c2r3);
    S::law_mul_comm(a.c0r2, b.c3r0);
    S::law_mul_comm(a.c1r2, b.c3r1);
    S::law_mul_comm(a.c2r2, b.c3r2);
    S::law_mul_comm(a.c3r2, b.c3r3);
    S::law_mul_comm(a.c0r3, b.c0r0);
    S::law_mul_comm(a.c1r3, b.c0r1);
    S::law_mul_comm(a.c2r3, b.c0r2);
    S::law_mul_comm(a.c3r3, b.c0r3);
    S::law_mul_comm(a.c0r3, b.c1r0);
    S::law_mul_comm(a.c1r3, b.c1r1);
    S::law_mul_comm(a.c2r3, b.c1r2);
    S::law_mul_comm(a.c3r3, b.c1r3);
    S::law_mul_comm(a.c0r3, b.c2r0);
    S::law_mul_comm(a.c1r3, b.c2r1);
    S::law_mul_comm(a.c2r3, b.c2r2);
    S::law_mul_comm(a.c3r3, b.c2r3);
    S::law_mul_comm(a.c0r3, b.c3r0);
    S::law_mul_comm(a.c1r3, b.c3r1);
    S::law_mul_comm(a.c2r3, b.c3r2);
    S::law_mul_comm(a.c3r3, b.c3r3);
}

/// The identity matrix is a two-sided unit for matrix multiplication,
/// exactly.
pub proof fn identity_multiplication_4x4<S: Scalar>(m: Matrix4x4<S>)
    ensures
        m.smmul(Matrix4x4::<S>::smidentity()) == m,
        Matrix4x4::<S>::smidentity().smmul(m) == m,
{
    S::law_add_zero(S::szero());
    S::law_mul_one(m.c0r0);
    S::law_mul_one(m.c0r1);
    S::law_mul_one(m.c0r2);
    S::law_mul_one(m.c0r3);
    S::law_mul_one(m.c1r0);
    S::law_mul_one(m.c1r1);
    S::law_mul_one(m.c1r2);
    S::law_mul_one(m.c1r3);
    S::law_mul_one(m.c2r0);
    S::law_mul_one(m.c2r1);
    S::law_mul_one(m.c2r2);
    S::law_mul_one(m.c2r3);
    S::law_mul_one(m.c3r0);
    S::law_mul_one(m.c3r1);
    S::law_mul_one(m.c3r2);
    S::law_mul_one(m.c3r3);
    S::law_mul_zero(m.c0r0);
    S::law_mul_zero(m.c0r1);
    S::law_mul_zero(m.c0r2);
    S::law_mul_zero(m.c0r3);
    S::law_mul_zero(m.c1r0);
    S::law_mul_zero(m.c1r1);
    S::law_mul_zero(m.c1r2);
    S::law_mul_zero(m.c1r3);
    S::law_mul_zero(m.c2r0);
    S::law_mul_zero(m.c2r1);
    S::law_mul_zero(m.c2r2);
    S::law_mul_zero(m.c2r3);
    S::law_mul_zero(m.c3r0);
    S::law_mul_zero(m.c3r1);
    S::law_mul_zero(m.c3r2);
    S::law_mul_zero(m.c3r3);
    S::law_add_zero(m.c0r0);
    S::law_add_zero(m.c0r1);
    S::law_add_zero(m.c0r2);
    S::law_add_zero(m.c0r3);
    S::law_add_zero(m.c1r0);
    S::law_add_zero(m.c1r1);
    S::law_add_zero(m.c1r2);
    S::law_add_zero(m.c1r3);
    S::law_add_zero(m.c2r0);
    S::law_add_zero(m.c2r1);
    S::law_add_zero(m.c2r2);
    S::law_add_zero(m.c2r3);
    S::law_add_zero(m.c3r0);
    S::law_add_zero(m.c3r1);
    S::law_add_zero(m.c3r2);
    S::law_add_zero(m.c3r3);
}

/// Matrix addition is commutative, exactly.
pub proof fn addition_commutative_2x2<S: Scalar>(a: Matrix2x2<S>, b: Matrix2x2<S>)
    ensures
        a.smadd(b) == b.smadd(a),
{
    S::law_add_comm(a.c0r0, b.c0r0);
    S::law_add_comm(a.c0r1, b.c0r1);
    S::law_add_comm(a.c1r0, b.c1r0);
    S::law_add_comm(a.c1r1, b.c1r1);
}

/// The zero matrix is a two-sided unit for matrix addition, exactly.
pub proof fn addition_zero_2x2<S: Scalar>(m: Matrix2x2<S>)
    ensures
        m.smadd(Matrix2x2::<S>::smzero()) == m,
        Matrix2x2::<S>::smzero().smadd(m) == m,
{
    S::law_add_zero(m.c0r0);
    S::law_add_zero(m.c0r1);
    S::law_add_zero(m.c1r0);
    S::law_add_zero(m.c1r1);
}

/// Matrix addition is commutative, exactly.
pub proof fn addition_commutative_3x3<S: Scalar>(a: Matrix3x3<S>, b: Matrix3x3<S>)
    ensures
        a.smadd(b) == b.smadd(a),
{
    S::law_add_comm(a.c0r0, b.c0r0);
    S::law_add_comm(a.c0r1, b.c0r1);
    S::law_add_comm(a.c0r2, b.c0r2);
    S::law_add_comm(a.c1r0, b.c1r0);
    S::law_add_comm(a.c1r1, b.c1r1);
    S::law_add_comm(a.c1r2, b.c1r2);
    S::law_add_comm(a.c2r0, b.c2r0);
    S::law_add_comm(a.c2r1, b.c2r1);
    S::law_add_comm(a.c2r2, b.c2r2);
}

/// The zero matrix is a two-sided unit for matrix addition, exactly.
pub proof fn addition_zero_3x3<S: Scalar>(m: Matrix3x3<S>)
    ensures
        m.smadd(Matrix3x3::<S>::smzero()) == m,
        Matrix3x3::<S>::smzero().smadd(m) == m,
{
    S::law_add_zero(m.c0r0);
    S::law_add_zero(m.c0r1);
    S::law_add_zero(m.c0r2);
    S::law_add_zero(m.c1r0);
    S::law_add_zero(m.c1r1);
    S::law_add_zero(m.c1r2);
    S::law_add_zero(m.c2r0);
    S::law_add_zero(m.c2r1);
    S::law_add_zero(m.c2r2);
}

/// Matrix addition is commutative, exactly.
pub proof fn addition_commutative_4x4<S: Scalar>(a: Matrix4x4<S>, b: Matrix4x4<S>)
    ensures
        a.smadd(b) == b.smadd(a),
{
    S::law_add_comm(a.c0r0, b.c0r0);
    S::law_add_comm(a.c0r1, b.c0r1);
    S::law_add_comm(a.c0r2, b.c0r2);
    S::law_add_comm(a.c0r3, b.c0r3);
    S::law_add_comm(a.c1r0, b.c1r0);
    S::law_add_comm(a.c1r1, b.c1r1);
    S::law_add_comm(a.c1r2, b.c1r2);
    S::law_add_comm(a.c1r3, b.c1r3);
    S::law_add_comm(a.c2r0, b.c2r0);
    S::law_add_comm(a.c2r1, b.c2r1);
    S::law_add_comm(a.c2r2, b.c2r2);
    S::law_add_comm(a.c2r3, b.c2r3);
    S::law_add_comm(a.c3r0, b.c3r0);
    S::law_add_comm(a.c3r1, b.c3r1);
    S::law_add_comm(a.c3r2, b.c3r2);
    S::law_add_comm(a.c3r3, b.c3r3);
}

/// The zero matrix is a two-sided unit for matrix addition, exactly.
pub proof fn addition_zero_4x4<S: Scalar>(m: Matrix4x4<S>)
    ensures
        m.smadd(Matrix4x4::<S>::smzero()) == m,
        Matrix4x4::<S>::smzero().smadd(m) == m,
{
    S::law_add_zero(m.c0r0);
    S::law_add_zero(m.c0r1);
    S::law_add_zero(m.c0r2);
    S::law_add_zero(m.c0r3);
    S::law_add_zero(m.c1r0);
    S::law_add_zero(m.c1r1);
    S::law_add_zero(m.c1r2);
    S::law_add_zero(m.c1r3);
    S::law_add_zero(m.c2r0);
    S::law_add_zero(m.c2r1);
    S::law_add_zero(m.c2r2);
    S::law_add_zero(m.c2r3);
    S::law_add_zero(m.c3r0);
    S::law_add_zero(m.c3r1);
    S::law_add_zero(m.c3r2);
    S::law_add_zero(m.c3r3);
}

/// A three-by-three matrix whose last two columns are identical has
/// determinant zero, exactly.
pub proof fn determinant_zero_equal_columns_12_3x3<S: Scalar>(m: Matrix3x3<S>)
    requires
        m.c1r0 == m.c2r0,
        m.c1r1 == m.c2r1,
        m.c1r2 == m.c2r2,
    ensures
        m.sdet() == S::szero(),
{
    S::law_sub_self(m.c1r1.smul(m.c1r2));
    S::law_sub_self(m.c1r0.smul(m.c1r2));
    S::law_sub_self(m.c1r0.smul(m.c1r1));
    S::law_mul_zero(m.c0r0);
    S::law_mul_zero(m.c0r1);
    S::law_mul_zero(m.c0r2);
    S::law_sub_zero(S::szero());
    S::law_add_zero(S::szero());
}

/// A four-by-four matrix whose first two columns are identical has
/// determinant zero, exactly.
pub proof fn determinant_zero_equal_columns_01_4x4<S: Scalar>(m: Matrix4x4<S>)
    requires
        m.c0r0 == m.c1r0,
        m.c0r1 == m.c1r1,
        m.c0r2 == m.c1r2,
        m.c0r3 == m.c1r3,
    ensures
        m.sdet() == S::szero(),
{
    S::law_sub_self(m.c0r0.smul(m.c0r1));
    S::law_sub_self(m.c0r2.smul(m.c0r3));
    let s1 = m.c0r0.smul(m.c2r1).ssub(m.c2r0.smul(m.c0r1));
    let s2 = m.c0r0.smul(m.c3r1).ssub(m.c3r0.smul(m.c0r1));
    let c4 = m.c0r2.smul(m.c3r3).ssub(m.c3r2.smul(m.c0r3));
    let c3m = m.c0r2.smul(m.c2r3).ssub(m.c2r2.smul(m.c0r3));
    let c5 = m.c2r2.smul(m.c3r3).ssub(m.c3r2.smul(m.c2r3));
    S::law_mul_zero(c5);
    S::law_mul_zero(s2.smul(c3m));
    S::law_mul_zero(s1.smul(c4));
    let a = s1.smul(c4);
    let b = s2.smul(c3m);
    S::law_sub_zero(S::szero());
    S::law_add_zero(S::szero());
    S::law_sub_add(S::szero(), a);
    S::law_add_assoc(S::szero().ssub(a), b, a);
    S::law_add_comm(b, a);
    S::law_add_assoc(S::szero().ssub(a), a, b);
    S::law_add_zero(b);
    S::law_sub_self(b);
    S::law_mul_zero(m.c2r0.smul(m.c3r1).ssub(m.c3r0.smul(m.c2r1)));
}

/// A four-by-four matrix whose last two columns are identical has
/// determinant zero, exactly.
pub proof fn determinant_zero_equal_columns_23_4x4<S: Scalar>(m: Matrix4x4<S>)
    requires
        m.c2r0 == m.c3r0,
        m.c2r1 == m.c3r1,
        m.c2r2 == m.c3r2,
        m.c2r3 == m.c3r3,
    ensures
        m.sdet() == S::szero(),
{
    S::law_sub_self(m.c2r0.smul(m.c2r1));
    S::law_sub_self(m.c2r2.smul(m.c2r3));
    let s0 = m.c0r0.smul(m.c1r1).ssub(m.c1r0.smul(m.c0r1));
    let s1 = m.c0r0.smul(m.c2r1).ssub(m.c2r0.smul(m.c0r1));
    let s3 = m.c1r0.smul(m.c2r1).ssub(m.c2r0.smul(m.c1r1));
    let c4 = m.c1r2.smul(m.c3r3).ssub(m.c3r2.smul(m.c1r3));
    let c4b = m.c1r2.smul(m.c2r3).ssub(m.c2r2.smul(m.c1r3));
    let c2m = m.c0r2.smul(m.c3r3).ssub(m.c3r2.smul(m.c0r3));
    let c2b = m.c0r2.smul(m.c2r3).ssub(m.c2r2.smul(m.c0r3));
    S::law_mul_zero(s0);
    S::law_mul_zero(m.c0r2.smul(m.c1r3).ssub(m.c1r2.smul(m.c0r3)));
    let x = s1.smul(c4b);
    let y = s3.smul(c2b);
    S::law_sub_zero(S::szero());
    S::law_sub_add(S::szero(), x);
    S::law_add_assoc(S::szero().ssub(x), x, y);
    S::law_add_zero(y);
    S::law_sub_self(y);
    S::law_add_zero(S::szero());
}

} // verus!
