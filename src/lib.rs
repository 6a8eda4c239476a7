//! Exact 2x2 column-major integer matrices and 2-vectors.
//!
//! Every operation is stated in its contract over the mathematical matrix
//! (`Matrix`, entries of type `int`) that a `Mat2` stands for.
pub mod algebra;
mod mat2;
mod vec2;

pub use mat2::{abs_diff, mat2, Mat2, Matrix};
pub use vec2::{Vec2, Vector};
