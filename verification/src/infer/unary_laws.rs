//! Laws of unary operators, and of operators where a type is expected.

use vstd::prelude::*;

use super::cx::Ic;
use super::env::TyEnv;
use super::expr::{check_expr_rule, synth_expr_rule, synth_operation_rule};
use super::op::binary::{check_binary_rule, synth_binary_rule};
use super::op::unary::synth_unary_rule;
use super::op_laws::{binary_of, number, unary_of, whole};
use super::path::bridge;
use crate::diag::Message;
use crate::hir::{HirBinary, HirExpr, HirUnary};
use crate::prim::Primitive;
use crate::span::Span;
use crate::syntax::{BinOp, UnOp};
use crate::ty::TyId;

verus! {

proof fn lemma_unary(env: TyEnv, op: UnOp, operand: HirExpr, span: Span, ic: Ic)
    ensures
        ({
            let j = synth_expr_rule(env, unary_of(op, operand, span), ic);
            let u = synth_unary_rule(env, HirUnary { op, operand }, ic, span);
            j.env == u.env && j.ic == u.ic && j.ty == u.ty
        }),
{
    reveal(synth_expr_rule);
    reveal(synth_operation_rule);
    reveal(synth_unary_rule);
    let expr = unary_of(op, operand, span);
    assert(synth_expr_rule(env, expr, ic) == synth_operation_rule(env, expr, ic));
}

/// `!` takes and gives `bool`.
pub proof fn law_not(env: TyEnv, operand: HirExpr, span: Span, ic: Ic)
    ensures
        ({
            let bool_ty = TyId::Prim(Primitive::Bool);
            let j = synth_expr_rule(env, unary_of(UnOp::Not, operand, span), ic);
            let o = check_expr_rule(env, operand, bool_ty, ic);
            j.ty == bool_ty && j.env == o.env && j.ic == o.ic
        }),
{
    lemma_unary(env, UnOp::Not, operand, span, ic);
    reveal(synth_unary_rule);
    reveal(check_expr_rule);
}

/// `-` keeps a type of numbers, the complement of bits one of whole numbers;
/// any other known type is reported.
pub proof fn law_negation(env: TyEnv, op: UnOp, operand: HirExpr, span: Span, ic: Ic, p: Primitive)
    requires
        op == UnOp::Neg || op == UnOp::BitNot,
        synth_expr_rule(env, operand, ic).ty == TyId::Prim(p),
    ensures
        ({
            let j = synth_expr_rule(env, unary_of(op, operand, span), ic);
            let o = synth_expr_rule(env, operand, ic);
            let fits = if op == UnOp::Neg {
                number(p)
            } else {
                whole(p)
            };
            &&& j.env == o.env
            &&& fits ==> j.ty == TyId::Prim(p) && j.ic == o.ic
            &&& !fits ==> j.ty == TyId::Error && j.ic == o.ic.error(
                span,
                (if op == UnOp::Neg {
                    Message::NegNotNumeric { ty: TyId::Prim(p) }
                } else {
                    Message::BitNotNotInteger { ty: TyId::Prim(p) }
                }),
            )
        }),
{
    lemma_unary(env, op, operand, span, ic);
    reveal(synth_unary_rule);
    reveal(synth_expr_rule);
}

/// Where a type of numbers is expected of an operation that keeps it, that type
/// is expected of both operands.
pub proof fn law_expected_operands(
    env: TyEnv,
    op: BinOp,
    lhs: HirExpr,
    rhs: HirExpr,
    span: Span,
    ic: Ic,
    p: Primitive,
)
    requires
        ({
            let arithmetic = op == BinOp::Add || op == BinOp::Sub || op == BinOp::Mul || op
                == BinOp::Div;
            let bits = op == BinOp::Mod || op == BinOp::WrapAdd || op == BinOp::WrapSub || op
                == BinOp::WrapMul || op == BinOp::SatAdd || op == BinOp::SatSub || op
                == BinOp::SatMul || op == BinOp::BitAnd || op == BinOp::BitOr || op
                == BinOp::BitXor || op == BinOp::Shl || op == BinOp::Shr;
            (arithmetic && number(p)) || (bits && whole(p))
        }),
    ensures
        ({
            let j = check_expr_rule(env, binary_of(op, lhs, rhs, span), TyId::Prim(p), ic);
            let l = check_expr_rule(env, lhs, TyId::Prim(p), ic);
            let r = check_expr_rule(l.env, rhs, TyId::Prim(p), l.ic);
            j.ty == TyId::Prim(p) && j.env == r.env && j.ic == r.ic
        }),
{
    reveal(check_expr_rule);
    reveal(check_binary_rule);
    let b = check_binary_rule(env, HirBinary { op, lhs, rhs }, TyId::Prim(p), ic, span);
}

/// Where another type is expected of an operation than it gives, that is
/// reported: a comparison or `&&` is not a number.
pub proof fn law_expected_bool(
    env: TyEnv,
    op: BinOp,
    lhs: HirExpr,
    rhs: HirExpr,
    span: Span,
    ic: Ic,
    expected: TyId,
)
    requires
        op == BinOp::And || op == BinOp::Or || op == BinOp::Eq || op == BinOp::Ne || op == BinOp::Lt
            || op == BinOp::Le || op == BinOp::Gt || op == BinOp::Ge,
        expected != TyId::Error,
    ensures
        ({
            let bool_ty = TyId::Prim(Primitive::Bool);
            let j = check_expr_rule(env, binary_of(op, lhs, rhs, span), expected, ic);
            let b = synth_expr_rule(env, binary_of(op, lhs, rhs, span), ic);
            &&& j.env == b.env
            &&& expected == bool_ty ==> j.ty == bool_ty && j.ic == b.ic
            &&& expected != bool_ty ==> j.ty == TyId::Error && j.ic == b.ic.error(
                span,
                (Message::TypeMismatch { expected, found: bool_ty }),
            )
        }),
{
    reveal(check_expr_rule);
    reveal(check_binary_rule);
    reveal(synth_binary_rule);
    reveal(synth_expr_rule);
    reveal(synth_operation_rule);
    reveal(bridge);
    let expr = binary_of(op, lhs, rhs, span);
    let node = HirBinary { op, lhs, rhs };
    let c = check_binary_rule(env, node, expected, ic, span);
    let b = synth_binary_rule(env, node, ic, span);
    assert(synth_expr_rule(env, expr, ic) == synth_operation_rule(env, expr, ic));
}

} // verus!
