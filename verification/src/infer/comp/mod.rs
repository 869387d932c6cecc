//! Composite expressions.

pub mod array;
pub mod cast;
pub mod comptime;
pub mod index;
pub mod range;
pub mod tuple;
