//! Operators.

pub mod binary;
pub mod overflow;
pub mod unary;
