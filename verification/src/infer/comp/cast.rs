//! Casts.

use vstd::prelude::*;

use super::super::cx::{group_grown, Ic, InferCx};
use super::super::env::TyEnv;
use super::super::expr::{check_expr, check_expr_rule, synth_expr, synth_expr_rule};
use super::super::judge::{judged, sound, Judged};
use super::super::op::binary::{integer, is_integer, is_numeric, numeric};
use super::super::op::overflow::{attach_overflow_row_for_cast, overflow_step};
use super::range::{int_literal, is_int_literal};
use crate::diag::Message;
use crate::hir::HirCast;
use crate::span::Span;
use crate::syntax::CastMode;
use crate::ty::TyId;

verus! {

broadcast use group_grown;

/// The overflow of a checked cast.
pub open spec fn cast_effect(mode: CastMode, ic: Ic, span: Span) -> Ic {
    if mode == CastMode::Checked {
        overflow_step(ic, span, Message::OverflowCast)
    } else {
        ic
    }
}

/// A cast between numbers. An integer literal that is cast to an integer type
/// has that type at once.
#[verifier::opaque]
pub open spec fn synth_cast_rule(env: TyEnv, node: HirCast, ic: Ic, span: Span) -> Judged<HirCast>
    decreases node, 0nat,
{
    let target = node.target_ty;
    if int_literal(node.operand) && integer(ic, target) {
        let j = check_expr_rule(env, node.operand, target, ic);
        judged(
            j.env,
            cast_effect(node.mode, j.ic, span),
            HirCast { operand: j.node, ..node },
            target,
        )
    } else {
        let j = synth_expr_rule(env, node.operand, ic);
        let after = HirCast { operand: j.node, ..node };
        if j.ty == TyId::Error || target == TyId::Error {
            judged(j.env, j.ic, after, TyId::Error)
        } else if numeric(j.ic, j.ty) && numeric(j.ic, target) {
            judged(j.env, cast_effect(node.mode, j.ic, span), after, target)
        } else {
            judged(
                j.env,
                j.ic.error(span, Message::BadCast { from: j.ty, to: target }),
                after,
                TyId::Error,
            )
        }
    }
}

/// Synthesise a cast.
pub fn synth_cast(env: &mut TyEnv, node: &mut HirCast, ic: &mut InferCx<'_>, span: Span) -> (r: TyId)
    ensures
        judged(*final(env), final(ic)@, *final(node), r) == synth_cast_rule(
            *old(env),
            *old(node),
            old(ic)@,
            span,
        ),
        sound(*old(env), old(ic)@, *final(env), final(ic)@),
    decreases *old(node), 0nat,
{
    proof {
        reveal(synth_cast_rule);
        reveal(synth_expr_rule);
        reveal(check_expr_rule);
    }
    let target = node.target_ty;
    let mode = node.mode;
    if is_int_literal(&node.operand) && is_integer(ic, target) {
        check_expr(env, &mut node.operand, target, ic);
        if mode == CastMode::Checked {
            attach_overflow_row_for_cast(ic, span);
        }
        return target;
    }
    let ty = synth_expr(env, &mut node.operand, ic);
    let error = ic.ty_error();
    if ty == error || target == error {
        return error;
    }
    if is_numeric(ic, ty) && is_numeric(ic, target) {
        if mode == CastMode::Checked {
            attach_overflow_row_for_cast(ic, span);
        }
        return target;
    }
    ic.emit_typecheck_error(span, Message::BadCast { from: ty, to: target });
    error
}

} // verus!
