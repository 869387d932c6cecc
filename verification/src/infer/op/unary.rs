//! Unary operators.

use vstd::prelude::*;

use super::super::cx::{group_grown, Ic, InferCx};
use super::super::env::TyEnv;
use super::super::expr::{check_expr, check_expr_rule, synth_expr, synth_expr_rule};
use super::super::judge::{judged, sound, Judged};
use super::super::lit::{fits_in_primitive_negated, fits_negated};
use super::super::path::{bridge, check_synth_against_expected};
use super::binary::{integer, is_integer, is_numeric, numeric};
use crate::diag::Message;
use crate::hir::{HirExpr, HirExprKind, HirUnary};
use crate::prim::Primitive;
use crate::span::Span;
use crate::syntax::{Literal, UnOp};
use crate::ty::{TyId, TyKind};

verus! {

broadcast use group_grown;

/// Whether `operand` is an integer literal whose negation is a value of
/// `expected`.
pub open spec fn negated_literal(operand: HirExpr, expected: TyId, ic: Ic) -> bool {
    match (operand.kind, ic.kind(expected)) {
        (
            HirExprKind::Literal(Literal::Int { value, .. }),
            TyKind::Primitive(p),
        ) => p.integer_kind() && fits_negated(value as nat, p),
        _ => false,
    }
}

/// A unary operation where a type is expected: `-` and `~` expect it of their
/// operand.
#[verifier::opaque]
pub open spec fn check_unary_rule(
    env: TyEnv,
    unary: HirUnary,
    expected: TyId,
    ic: Ic,
    span: Span,
) -> Judged<HirUnary>
    decreases unary, 2nat,
{
    if unary.op == UnOp::Neg && numeric(ic, expected) && negated_literal(
        unary.operand,
        expected,
        ic,
    ) {
        judged(
            env,
            ic,
            HirUnary { op: unary.op, operand: HirExpr { ty: expected, ..unary.operand } },
            expected,
        )
    } else if (unary.op == UnOp::Neg && numeric(ic, expected)) || (unary.op == UnOp::BitNot
        && integer(ic, expected)) {
        let j = check_expr_rule(env, unary.operand, expected, ic);
        judged(j.env, j.ic, HirUnary { op: unary.op, operand: j.node }, expected)
    } else {
        let j = synth_unary_rule(env, unary, ic, span);
        let t = bridge(j.ty, expected, j.ic, span);
        judged(j.env, t.ic, j.node, t.ty)
    }
}

/// A unary operation on its own.
#[verifier::opaque]
pub open spec fn synth_unary_rule(env: TyEnv, unary: HirUnary, ic: Ic, span: Span) -> Judged<
    HirUnary,
>
    decreases unary, 1nat,
{
    match unary.op {
        UnOp::Not => {
            let bool_ty = TyId::Prim(Primitive::Bool);
            let j = check_expr_rule(env, unary.operand, bool_ty, ic);
            judged(j.env, j.ic, HirUnary { op: unary.op, operand: j.node }, bool_ty)
        },
        UnOp::Neg => {
            let j = synth_expr_rule(env, unary.operand, ic);
            let node = HirUnary { op: unary.op, operand: j.node };
            if j.ty == TyId::Error || numeric(j.ic, j.ty) {
                judged(j.env, j.ic, node, j.ty)
            } else {
                judged(
                    j.env,
                    j.ic.error(span, Message::NegNotNumeric { ty: j.ty }),
                    node,
                    TyId::Error,
                )
            }
        },
        UnOp::BitNot => {
            let j = synth_expr_rule(env, unary.operand, ic);
            let node = HirUnary { op: unary.op, operand: j.node };
            if j.ty == TyId::Error || integer(j.ic, j.ty) {
                judged(j.env, j.ic, node, j.ty)
            } else {
                judged(
                    j.env,
                    j.ic.error(span, Message::BitNotNotInteger { ty: j.ty }),
                    node,
                    TyId::Error,
                )
            }
        },
    }
}

fn is_negated_literal(operand: &HirExpr, expected: TyId, ic: &InferCx<'_>) -> (r: bool)
    ensures
        r == negated_literal(*operand, expected, ic@),
{
    match (&operand.kind, ic.kind(expected)) {
        (
            HirExprKind::Literal(Literal::Int { value, .. }),
            TyKind::Primitive(p),
        ) => p.is_integer() && fits_in_primitive_negated(*value, p),
        _ => false,
    }
}

/// Check a unary operation against a type.
pub fn check_unary(
    env: &mut TyEnv,
    unary: &mut HirUnary,
    expected: TyId,
    ic: &mut InferCx<'_>,
    span: Span,
) -> (r: TyId)
    ensures
        judged(*final(env), final(ic)@, *final(unary), r) == check_unary_rule(
            *old(env),
            *old(unary),
            expected,
            old(ic)@,
            span,
        ),
        sound(*old(env), old(ic)@, *final(env), final(ic)@),
    decreases *old(unary), 2nat,
{
    proof {
        reveal(check_unary_rule);
        reveal(synth_unary_rule);
        reveal(check_expr_rule);
    }
    match unary.op {
        UnOp::Neg => {
            if is_numeric(ic, expected) {
                if is_negated_literal(&unary.operand, expected, ic) {
                    unary.operand.ty = expected;
                    return expected;
                }
                check_expr(env, &mut unary.operand, expected, ic);
                return expected;
            }
        },
        UnOp::BitNot => {
            if is_integer(ic, expected) {
                check_expr(env, &mut unary.operand, expected, ic);
                return expected;
            }
        },
        UnOp::Not => {},
    }
    let synth = synth_unary(env, unary, ic, span);
    check_synth_against_expected(synth, expected, ic, span)
}

/// Synthesise the type of a unary operation.
pub fn synth_unary(env: &mut TyEnv, unary: &mut HirUnary, ic: &mut InferCx<'_>, span: Span) -> (r:
    TyId)
    ensures
        judged(*final(env), final(ic)@, *final(unary), r) == synth_unary_rule(
            *old(env),
            *old(unary),
            old(ic)@,
            span,
        ),
        sound(*old(env), old(ic)@, *final(env), final(ic)@),
    decreases *old(unary), 1nat,
{
    proof {
        reveal(synth_unary_rule);
        reveal(synth_expr_rule);
        reveal(check_expr_rule);
    }
    let error = ic.ty_error();
    match unary.op {
        UnOp::Neg => {
            let ty = synth_expr(env, &mut unary.operand, ic);
            if ty == error || is_numeric(ic, ty) {
                return ty;
            }
            ic.emit_typecheck_error(span, Message::NegNotNumeric { ty });
            error
        },
        UnOp::Not => {
            let bool_ty = TyId::Prim(Primitive::Bool);
            check_expr(env, &mut unary.operand, bool_ty, ic);
            bool_ty
        },
        UnOp::BitNot => {
            let ty = synth_expr(env, &mut unary.operand, ic);
            if ty == error || is_integer(ic, ty) {
                return ty;
            }
            ic.emit_typecheck_error(span, Message::BitNotNotInteger { ty });
            error
        },
    }
}

} // verus!
