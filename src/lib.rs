//! Fixed-size square matrices (2x2, 3x3, 4x4) over `i32` scalars, stored
//! column-major.
//!
//! Every operation is pure and states its result over the mathematical
//! model of `model`: a matrix is the sequence of its columns. Arithmetic is
//! exact; an operation whose result would not fit in `i32` is ruled out by
//! its precondition. Fuzzy equality compares within `model::EPSILON`, and
//! exact equality compares entries as they are. Inversion is not provided.

pub mod laws;
pub mod mat2;
pub mod mat3;
pub mod mat4;
pub mod matrix;
pub mod model;
pub mod quat;
pub mod vector;
