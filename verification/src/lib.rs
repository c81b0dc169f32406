//! A Euclidean geometry and linear-algebra core for graphics and simulation
//! code: points, vectors, square matrices up to dimension four, quaternions,
//! rotations, and camera projection transforms, parameterized over a scalar
//! capability that numeric types supply.

mod angle;
mod laws;
mod matrix;
mod point;
mod projection;
mod quaternion;
mod rotation;
mod scalar;
mod vector;

pub use angle::Degrees;
pub use angle::Radians;
pub use laws::addition_commutative_2x2;
pub use laws::addition_commutative_3x3;
pub use laws::addition_commutative_4x4;
pub use laws::addition_zero_2x2;
pub use laws::addition_zero_3x3;
pub use laws::addition_zero_4x4;
pub use laws::determinant_lower_triangular_2x2;
pub use laws::determinant_lower_triangular_3x3;
pub use laws::determinant_lower_triangular_4x4;
pub use laws::determinant_upper_triangular_2x2;
pub use laws::determinant_upper_triangular_3x3;
pub use laws::determinant_upper_triangular_4x4;
pub use laws::determinant_zero_equal_columns_01_4x4;
pub use laws::determinant_zero_equal_columns_12_3x3;
pub use laws::determinant_zero_equal_columns_23_4x4;
pub use laws::determinant_zero_equal_columns_2x2;
pub use laws::determinant_zero_equal_rows_01_3x3;
pub use laws::determinant_zero_equal_rows_01_4x4;
pub use laws::determinant_zero_equal_rows_12_3x3;
pub use laws::determinant_zero_equal_rows_23_4x4;
pub use laws::determinant_zero_equal_rows_2x2;
pub use laws::identity_multiplication_2x2;
pub use laws::identity_multiplication_3x3;
pub use laws::identity_multiplication_4x4;
pub use laws::transpose_involution_2x2;
pub use laws::transpose_involution_3x3;
pub use laws::transpose_involution_4x4;
pub use laws::transpose_product_2x2;
pub use laws::transpose_product_3x3;
pub use laws::transpose_product_4x4;
pub use matrix::Matrix2x2;
pub use matrix::Matrix3x3;
pub use matrix::Matrix4x4;
pub use point::Point1;
pub use point::Point2;
pub use point::Point3;
pub use projection::OrthographicFovProjection3;
pub use projection::OrthographicFovSpec;
pub use projection::OrthographicProjection3;
pub use projection::OrthographicSpec;
pub use projection::PerspectiveFovProjection3;
pub use projection::PerspectiveFovSpec;
pub use projection::PerspectiveProjection3;
pub use projection::PerspectiveSpec;
pub use quaternion::Quaternion;
pub use rotation::Rotation2;
pub use rotation::Rotation3;
pub use rotation::Rotation;
pub use rotation::RotationMatrix2;
pub use rotation::RotationMatrix3;
pub use scalar::One;
pub use scalar::Scalar;
pub use scalar::ScalarFloat;
pub use scalar::Zero;
pub use vector::ProjectOn;
pub use vector::Vector1;
pub use vector::Vector2;
pub use vector::Vector3;
pub use vector::Vector4;

