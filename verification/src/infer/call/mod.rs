//! Calls.

pub mod args;
pub mod capability;
pub mod comptime_purity;
pub mod direct;
pub mod err_propagation;
pub mod indirect;
pub mod variant;
