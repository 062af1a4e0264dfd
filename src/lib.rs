//! Traits for generic linear algebra: a scalar contract, a vector contract and a matrix contract,
//! with implementations for `Vec<S>` and fixed-length arrays `[S; N]` (vectors) and for the
//! dynamically-sized row-major matrix `Mat<S>`. The vector and matrix types of ndarray (`NdVec`,
//! `NdMat`), nalgebra (`NaDVec`, `NaDMat`, and the fixed-shape `NaSMat`) and faer (`FaerVec`,
//! `FaerMat`) implement the same contracts: each holds the backend's value, which does the
//! storage, construction and element access.
//!
//! Generic numerical code is written once against `Vector` and `Matrix` and runs on any of these
//! types. Each operation's contract states its result over a mathematical model: a vector is the
//! sequence of its elements, a matrix its shape and its entries read row by row.

pub mod array_impl;
pub mod elementwise;
pub mod faer_impl;
pub mod laws;
pub mod mat;
pub mod matrix;
pub mod nalgebra_impl;
pub mod ndarray_impl;
pub mod scalar;
pub mod vec_impl;
pub mod vector;

pub use crate::faer_impl::{FaerMat, FaerVec};
pub use crate::mat::Mat;
pub use crate::matrix::{Matrix, MatrixVectors};
pub use crate::nalgebra_impl::{NaDMat, NaDVec, NaSMat};
pub use crate::ndarray_impl::{NdMat, NdVec};
pub use crate::scalar::Scalar;
pub use crate::vector::Vector;
