//! Laws of conditionals.

use vstd::prelude::*;

use super::block::synth_block_rule;
use super::ctrl::branch::{branch_block_rule, branch_rule, if_rule, types_joined};
use super::ctrl::exits::{block_exits, exits};
use super::cx::Ic;
use super::env::TyEnv;
use super::env_laws::aligned;
use super::expr::{check_expr_rule, synth_control_rule, synth_expr_rule};
use super::join_laws::{at_most, lemma_aligned, lemma_join};
use super::mode::lattice::BindingState;
use crate::diag::Message;
use crate::hir::{HirBlock, HirExpr, HirExprKind, HirIf};
use crate::intern::Symbol;
use crate::prim::Primitive;
use crate::span::Span;
use crate::ty::TyId;

verus! {

/// A conditional.
pub open spec fn if_of(
    cond: HirExpr,
    then_block: HirBlock,
    else_branch: Option<HirExpr>,
    span: Span,
) -> HirExpr {
    HirExpr {
        span,
        kind: HirExprKind::If(Box::new(HirIf { cond, then_block, else_branch })),
        ty: TyId::Error,
    }
}

proof fn lemma_if(env: TyEnv, node: HirIf, span: Span, ic: Ic)
    ensures
        ({
            let expr = if_of(node.cond, node.then_block, node.else_branch, span);
            let j = synth_expr_rule(env, expr, ic);
            let f = if_rule(env, node, None, ic, span);
            j.env == f.env && j.ic == f.ic && j.ty == f.ty
        }),
{
    reveal(synth_expr_rule);
    reveal(synth_control_rule);
    reveal(if_rule);
    let expr = if_of(node.cond, node.then_block, node.else_branch, span);
    assert(synth_expr_rule(env, expr, ic) == synth_control_rule(env, expr, ic));
}

proof fn lemma_branches(env: TyEnv, expr: HirExpr, block: HirBlock, ic: Ic)
    ensures
        branch_rule(env, expr, None, ic) == synth_expr_rule(env, expr, ic),
        branch_block_rule(env, block, None, ic) == synth_block_rule(env, block, ic),
{
    reveal(synth_expr_rule);
    reveal(synth_block_rule);
}

/// Both branches of a conditional start with the states after the condition,
/// which must be `bool`. After it, a name is at most in the state that it has
/// at the end of each branch that does not always leave the function, and
/// valid exactly where it is valid at the end of both; where one branch always
/// leaves, the states are those of the other.
pub proof fn law_if_else(
    env: TyEnv,
    cond: HirExpr,
    then_block: HirBlock,
    other: HirExpr,
    span: Span,
    ic: Ic,
    x: Symbol,
)
    requires
        ({
            let c = check_expr_rule(env, cond, TyId::Prim(Primitive::Bool), ic);
            let t = synth_block_rule(c.env, then_block, c.ic);
            let e = synth_expr_rule(c.env, other, t.ic);
            aligned(t.env, e.env)
        }),
    ensures
        ({
            let c = check_expr_rule(env, cond, TyId::Prim(Primitive::Bool), ic);
            let t = synth_block_rule(c.env, then_block, c.ic);
            let e = synth_expr_rule(c.env, other, t.ic);
            let j = synth_expr_rule(env, if_of(cond, then_block, Some(other), span), ic);
            let left = block_exits(t.node);
            let right = exits(e.node);
            let valid = Some(BindingState::Valid);
            &&& !left && !right ==> at_most(j.env, t.env, x) && at_most(j.env, e.env, x)
            &&& !left && !right ==> (j.env.state_of(x) == valid <==> t.env.state_of(x) == valid
                && e.env.state_of(x) == valid)
            &&& left && !right ==> j.env == e.env
            &&& !left && right ==> j.env == t.env
        }),
{
    let c = check_expr_rule(env, cond, TyId::Prim(Primitive::Bool), ic);
    let t = synth_block_rule(c.env, then_block, c.ic);
    let e = synth_expr_rule(c.env, other, t.ic);
    lemma_if(env, HirIf { cond, then_block, else_branch: Some(other) }, span, ic);
    lemma_branches(c.env, other, then_block, c.ic);
    lemma_branches(c.env, other, then_block, t.ic);
    lemma_if_parts(env, cond, then_block, Some(other), span, ic);
    lemma_aligned(t.env, e.env, t.env, x);
    lemma_join(e.env, t.env, x);
}

proof fn lemma_if_parts(
    env: TyEnv,
    cond: HirExpr,
    then_block: HirBlock,
    other: Option<HirExpr>,
    span: Span,
    ic: Ic,
)
    ensures
        ({
            let c = check_expr_rule(env, cond, TyId::Prim(Primitive::Bool), ic);
            let t = branch_block_rule(c.env, then_block, None, c.ic);
            let f = if_rule(env, HirIf { cond, then_block, else_branch: other }, None, ic, span);
            match other {
                Some(o) => {
                    let e = branch_rule(c.env, o, None, t.ic);
                    let joined = types_joined(t.ty, e.ty, e.ic, span);
                    &&& f.ty == joined.ty
                    &&& f.ic == joined.ic
                    &&& !block_exits(t.node) && exits(e.node) ==> f.env == t.env
                    &&& block_exits(t.node) && !exits(e.node) ==> f.env == e.env
                    &&& block_exits(t.node) == exits(e.node) ==> f.env == e.env.joined(t.env)
                },
                None => {
                    let joined = types_joined(t.ty, TyId::Prim(Primitive::Unit), t.ic, span);
                    &&& f.ty == joined.ty
                    &&& f.ic == joined.ic
                    &&& !block_exits(t.node) ==> f.env == c.env.joined(t.env)
                    &&& block_exits(t.node) ==> f.env == c.env
                },
            }
        }),
{
    reveal(if_rule);
    reveal(check_expr_rule);
}

/// A conditional without an `else` may be passed by: a name is valid after it
/// exactly where it is valid after the condition and at the end of the branch,
/// unless the branch always leaves.
pub proof fn law_if_only(
    env: TyEnv,
    cond: HirExpr,
    then_block: HirBlock,
    span: Span,
    ic: Ic,
    x: Symbol,
)
    requires
        ({
            let c = check_expr_rule(env, cond, TyId::Prim(Primitive::Bool), ic);
            aligned(c.env, synth_block_rule(c.env, then_block, c.ic).env)
        }),
    ensures
        ({
            let c = check_expr_rule(env, cond, TyId::Prim(Primitive::Bool), ic);
            let t = synth_block_rule(c.env, then_block, c.ic);
            let j = synth_expr_rule(env, if_of(cond, then_block, None, span), ic);
            let valid = Some(BindingState::Valid);
            &&& block_exits(t.node) ==> j.env == c.env
            &&& !block_exits(t.node) ==> at_most(j.env, t.env, x) && at_most(j.env, c.env, x)
            &&& !block_exits(t.node) ==> (j.env.state_of(x) == valid <==> t.env.state_of(x) == valid
                && c.env.state_of(x) == valid)
        }),
{
    let c = check_expr_rule(env, cond, TyId::Prim(Primitive::Bool), ic);
    let t = synth_block_rule(c.env, then_block, c.ic);
    lemma_if(env, HirIf { cond, then_block, else_branch: None }, span, ic);
    lemma_branches(c.env, cond, then_block, c.ic);
    lemma_if_parts(env, cond, then_block, None, span, ic);
    lemma_join(c.env, t.env, x);
}

/// The type of a conditional: that of both branches, or of the one that does
/// not diverge; branches of two different known types are reported. Without an
/// `else` the other branch is `()`.
pub proof fn law_if_types(
    env: TyEnv,
    cond: HirExpr,
    then_block: HirBlock,
    other: Option<HirExpr>,
    span: Span,
    ic: Ic,
)
    ensures
        ({
            let c = check_expr_rule(env, cond, TyId::Prim(Primitive::Bool), ic);
            let t = synth_block_rule(c.env, then_block, c.ic);
            let (second, last) = match other {
                Some(o) => (
                    synth_expr_rule(c.env, o, t.ic).ty,
                    synth_expr_rule(c.env, o, t.ic).ic,
                ),
                None => (TyId::Prim(Primitive::Unit), t.ic),
            };
            let never = TyId::Prim(Primitive::Never);
            let j = synth_expr_rule(env, if_of(cond, then_block, other, span), ic);
            &&& t.ty == second ==> j.ty == second && j.ic == last
            &&& t.ty == TyId::Error || second == TyId::Error ==> j.ty == TyId::Error && j.ic == last
            &&& t.ty == never && second != TyId::Error ==> j.ty == second && j.ic == last
            &&& second == never && t.ty != TyId::Error ==> j.ty == t.ty && j.ic == last
            &&& t.ty != second && t.ty != TyId::Error && second != TyId::Error && t.ty != never
                && second != never ==> j.ty == TyId::Error && j.ic == last.error(
                span,
                (Message::BranchMismatch { first: t.ty, second }),
            )
        }),
{
    let c = check_expr_rule(env, cond, TyId::Prim(Primitive::Bool), ic);
    let t = synth_block_rule(c.env, then_block, c.ic);
    lemma_if(env, HirIf { cond, then_block, else_branch: other }, span, ic);
    lemma_branches(c.env, cond, then_block, c.ic);
    match other {
        Some(o) => lemma_branches(c.env, o, then_block, t.ic),
        None => {},
    }
    lemma_if_parts(env, cond, then_block, other, span, ic);
    reveal(types_joined);
}

} // verus!
