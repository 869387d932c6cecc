//! Recursion between functions: strongly connected components of the call
//! graph.

pub mod callees;
pub mod graph;
pub mod group_laws;
pub mod map;
pub mod occurs;
pub mod reach;
pub mod state;
pub mod tarjan;
