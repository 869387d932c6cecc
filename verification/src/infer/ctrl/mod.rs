//! Control flow.

pub mod branch;
pub mod diverge;
pub mod exits;
pub mod loops;
