//! The mode discipline: states of bindings and what moves them.

pub mod exit;
pub mod helpers;
pub mod lattice;
pub mod linear;
pub mod transitions;
