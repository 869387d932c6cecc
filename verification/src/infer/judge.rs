//! What a walk over a node leaves behind.

use vstd::prelude::*;

use super::cx::{kept, Ic};
use super::env::TyEnv;
use crate::hir::{HirExpr, HirExprKind};
use crate::ty::TyId;

verus! {

/// Environment, context and node after a walk, and the type that was found.
pub struct Judged<N> {
    /// The environment.
    pub env: TyEnv,
    /// The context.
    pub ic: Ic,
    /// The node with its types filled in.
    pub node: N,
    /// The type.
    pub ty: TyId,
}

/// Environment, context and node after a walk that finds no type.
pub struct Walked<N> {
    /// The environment.
    pub env: TyEnv,
    /// The context.
    pub ic: Ic,
    /// The node with its types filled in.
    pub node: N,
}

/// The result of a walk.
pub open spec fn judged<N>(env: TyEnv, ic: Ic, node: N, ty: TyId) -> Judged<N> {
    Judged { env, ic, node, ty }
}

/// The result of a walk that finds no type.
pub open spec fn walked<N>(env: TyEnv, ic: Ic, node: N) -> Walked<N> {
    Walked { env, ic, node }
}

/// The result for `expr` where the result for what it consists of is `inner`
/// and `kind` is its new form.
pub open spec fn expr_judged<N>(expr: HirExpr, kind: HirExprKind, inner: Judged<N>) -> Judged<
    HirExpr,
> {
    judged(inner.env, inner.ic, HirExpr { span: expr.span, kind, ty: inner.ty }, inner.ty)
}

/// What every walk leaves alone: the number of open frames, and what [`kept`]
/// says of the context.
pub open spec fn sound(env: TyEnv, ic: Ic, env_after: TyEnv, ic_after: Ic) -> bool {
    env_after.frames() == env.frames() && kept(ic, ic_after)
}

} // verus!
