//! Fixed-size linear algebra over machine integers: vectors and matrices
//! with compile-time dimensions, elementwise arithmetic, dot and cross
//! products, transposition, matrix multiplication and the adjugate.

pub mod math;
