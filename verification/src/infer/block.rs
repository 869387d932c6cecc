//! Blocks.

use vstd::prelude::*;

use super::cx::{group_grown, Ic, InferCx};
use super::env::TyEnv;
use super::expr::{check_expr, check_expr_rule, synth_expr, synth_expr_rule};
use super::judge::{judged, sound, walked, Judged, Walked};
use super::mode::linear::{check_block_exit_linear, consume_moved_linear, frame_leaks, moved_out};
use super::path::{bridge, check_synth_against_expected};
use super::stmt::{infer_stmt, infer_stmt_rule};
use crate::hir::{HirBlock, HirExpr, HirStmt};
use crate::list::List;
use crate::prim::Primitive;
use crate::ty::TyId;

verus! {

broadcast use group_grown;

/// Statements in order.
#[verifier::opaque]
pub open spec fn infer_stmts_rule(env: TyEnv, stmts: List<HirStmt>, ic: Ic) -> Walked<List<HirStmt>>
    decreases stmts, 0nat,
{
    match stmts {
        List::Nil => walked(env, ic, stmts),
        List::Cons(stmt, rest) => {
            let first = infer_stmt_rule(env, *stmt, ic);
            let others = infer_stmts_rule(first.env, *rest, first.ic);
            walked(
                others.env,
                others.ic,
                List::Cons(Box::new(first.node), Box::new(others.node)),
            )
        },
    }
}

/// The end of a block: a `linear` binding that is its value is consumed, none
/// may be left over, and its frame is closed.
pub open spec fn block_closed(
    block: HirBlock,
    stmts: List<HirStmt>,
    trailing: Judged<Option<HirExpr>>,
) -> Judged<HirBlock> {
    let env = match trailing.node {
        Some(expr) => moved_out(trailing.env, expr, trailing.ic),
        None => trailing.env,
    };
    judged(
        env.exited(),
        frame_leaks(env, block.span, trailing.ic),
        HirBlock { span: block.span, stmts, trailing: trailing.node, ty: trailing.ty },
        trailing.ty,
    )
}

/// A block on its own: its type is that of its trailing expression.
#[verifier::opaque]
pub open spec fn synth_block_rule(env: TyEnv, block: HirBlock, ic: Ic) -> Judged<HirBlock>
    decreases block, 1nat,
{
    let s = infer_stmts_rule(env.entered(), block.stmts, ic);
    let t = match block.trailing {
        Some(expr) => {
            let j = synth_expr_rule(s.env, expr, s.ic);
            judged(j.env, j.ic, Some(j.node), j.ty)
        },
        None => judged(s.env, s.ic, None, TyId::Prim(Primitive::Unit)),
    };
    block_closed(block, s.node, t)
}

/// A block where a type is expected: it is expected of the trailing
/// expression.
#[verifier::opaque]
pub open spec fn check_block_rule(env: TyEnv, block: HirBlock, expected: TyId, ic: Ic) -> Judged<
    HirBlock,
>
    decreases block, 1nat,
{
    let s = infer_stmts_rule(env.entered(), block.stmts, ic);
    let t = match block.trailing {
        Some(expr) => {
            let j = check_expr_rule(s.env, expr, expected, s.ic);
            judged(j.env, j.ic, Some(j.node), j.ty)
        },
        None => {
            let b = bridge(TyId::Prim(Primitive::Unit), expected, s.ic, block.span);
            judged(s.env, b.ic, None, b.ty)
        },
    };
    block_closed(block, s.node, t)
}

fn infer_stmts(env: &mut TyEnv, stmts: &mut List<HirStmt>, ic: &mut InferCx<'_>)
    ensures
        walked(*final(env), final(ic)@, *final(stmts)) == infer_stmts_rule(
            *old(env),
            *old(stmts),
            old(ic)@,
        ),
        sound(*old(env), old(ic)@, *final(env), final(ic)@),
    decreases *old(stmts), 0nat,
{
    proof {
        reveal(infer_stmts_rule);
        reveal(infer_stmt_rule);
    }
    match stmts {
        List::Nil => {},
        List::Cons(stmt, rest) => {
            infer_stmt(env, stmt, ic);
            infer_stmts(env, rest, ic);
        },
    }
}

fn close_block(env: &mut TyEnv, block: &HirBlock, ic: &mut InferCx<'_>)
    requires
        old(env).frames() > 1,
    ensures
        judged(*final(env), final(ic)@, *block, block.ty) == block_closed(
            *block,
            block.stmts,
            judged(*old(env), old(ic)@, block.trailing, block.ty),
        ),
        final(env).frames() == old(env).frames() - 1,
        super::cx::kept(old(ic)@, final(ic)@),
{
    match &block.trailing {
        Some(expr) => {
            consume_moved_linear(env, expr, ic);
        },
        None => {},
    }
    check_block_exit_linear(env, block.span, ic);
    env.exit_scope();
}

/// Check a block against a type.
pub fn check_block(env: &mut TyEnv, block: &mut HirBlock, expected: TyId, ic: &mut InferCx<'_>) -> (r:
    TyId)
    ensures
        judged(*final(env), final(ic)@, *final(block), r) == check_block_rule(
            *old(env),
            *old(block),
            expected,
            old(ic)@,
        ),
        sound(*old(env), old(ic)@, *final(env), final(ic)@),
    decreases *old(block), 1nat,
{
    proof {
        reveal(check_block_rule);
        reveal(infer_stmts_rule);
        reveal(check_expr_rule);
    }
    env.enter_scope();
    infer_stmts(env, &mut block.stmts, ic);
    let ty = match &mut block.trailing {
        Some(expr) => {
            check_expr(env, expr, expected, ic);
            expr.ty
        },
        None => check_synth_against_expected(
            TyId::Prim(Primitive::Unit),
            expected,
            ic,
            block.span,
        ),
    };
    block.ty = ty;
    close_block(env, block, ic);
    ty
}

/// Synthesise the type of a block.
pub fn synth_block(env: &mut TyEnv, block: &mut HirBlock, ic: &mut InferCx<'_>) -> (r: TyId)
    ensures
        judged(*final(env), final(ic)@, *final(block), r) == synth_block_rule(
            *old(env),
            *old(block),
            old(ic)@,
        ),
        sound(*old(env), old(ic)@, *final(env), final(ic)@),
    decreases *old(block), 1nat,
{
    proof {
        reveal(synth_block_rule);
        reveal(infer_stmts_rule);
        reveal(synth_expr_rule);
    }
    env.enter_scope();
    infer_stmts(env, &mut block.stmts, ic);
    let ty = match &mut block.trailing {
        Some(expr) => synth_expr(env, expr, ic),
        None => TyId::Prim(Primitive::Unit),
    };
    block.ty = ty;
    close_block(env, block, ic);
    ty
}

} // verus!
