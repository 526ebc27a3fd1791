//! Vectors of dimension 2, 3 and 4 and square matrices of order 2, 3 and 4,
//! generic over a numeric element type, with verified arithmetic.
//!
//! A [`Vector`] or [`Matrix`] holds its elements in an array of fixed length
//! and is a plain value: every operation but the setters and the compound
//! assignments returns a new one. The element type supplies the arithmetic
//! through the operators of `std::ops`; contracts speak of it through the
//! operators' specifications, so that an operation is defined exactly where
//! each step of it is (for a fixed-width integer, where nothing overflows).
//!
//! What no operator gives is handed in by the caller: the additive and the
//! multiplicative identity, the cosine and sine of an angle, the length of a
//! vector. For the element types that are integers ([`Integral`]) the
//! identities are known, so that the products and the identity matrix are
//! there as operators, and the module [`laws`] proves the usual algebra of
//! them.
pub mod dot;
pub mod elementwise;
pub mod error;
pub mod laws;
pub mod matrix;
pub mod scalar;
pub mod sums;
pub mod vector;

pub use crate::error::DimensionMismatch;
pub use crate::matrix::transform_traits::{Transform2x2, Transform3x3, Transform4x4};
pub use crate::matrix::{
    Matrix, Matrix2x2, Matrix2x2i32, Matrix2x2i64, Matrix3x3, Matrix3x3i32, Matrix3x3i64,
    Matrix4x4, Matrix4x4i32, Matrix4x4i64,
};
pub use crate::scalar::Integral;
pub use crate::vector::vector_ops::{Vector2Ops, Vector3Ops};
pub use crate::vector::{
    Vector, Vector2, Vector2i32, Vector2i64, Vector3, Vector3i32, Vector3i64, Vector4, Vector4i32,
    Vector4i64,
};
