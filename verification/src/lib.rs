//! Type, mode and effect inference for function bodies.
//!
//! The crate walks the typed form of a function body ([`hir`]) and writes the
//! type of every node into it, follows the state of every binding, gathers the
//! effects that the body performs, and reports what does not fit
//! ([`diag`], with the texts in [`render`]).
//!
//! Each judgement of [`infer`] comes as a pair: a spec function, whose name
//! ends in `_rule`, that says what the judgement makes of a node in a given
//! environment and context, and an executable function that is proved to do
//! exactly that. The laws of the whole stand in [`infer::laws`] and
//! [`infer::env_laws`], and beside the types that they are about.

pub mod capability;
pub mod comptime_builtin;
pub mod cx;
pub mod diag;
pub mod effect;
pub mod hir;
pub mod implicit_spec;
pub mod infer;
pub mod intern;
pub mod intrinsic;
pub mod list;
pub mod lookup_laws;
pub mod package;
pub mod prim;
pub mod render;
pub mod sig;
pub mod span;
pub mod syntax;
pub mod table;
pub mod text;
pub mod ty;
