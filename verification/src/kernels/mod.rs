pub mod affine;
pub mod binary;
pub mod cast;
pub mod conv;
pub mod fill;
pub mod indexing;
pub mod matmul;
pub mod reduce;
pub mod ternary;
pub mod unary;
