//! Binary operators.

use vstd::prelude::*;

use super::super::cx::{group_grown, Ic, InferCx};
use super::super::env::TyEnv;
use super::super::expr::{check_expr, check_expr_rule, synth_expr, synth_expr_rule};
use super::super::judge::{judged, sound, Judged};
use super::super::path::{bridge, check_synth_against_expected};
use super::overflow::{attach_overflow_row, overflow_step};
use crate::diag::Message;
use crate::hir::HirBinary;
use crate::prim::Primitive;
use crate::span::Span;
use crate::syntax::BinOp;
use crate::ty::{TyId, TyKind};

verus! {

broadcast use group_grown;

/// Classes of binary operators.
#[derive(Copy, Clone, Debug, PartialEq, Eq, Structural)]
pub enum BinClass {
    /// `+ - * /` on numbers.
    Arithmetic,
    /// `%`, wrapping and saturating arithmetic, bit operations and shifts on
    /// integers.
    Integer,
    /// `+? -? *? %?` on integers, which raise an overflow.
    CheckedArith,
    /// `== != < <= > >=`
    Comparison,
    /// `&& ||`
    Logical,
}

/// The class of an operator.
pub open spec fn class_of(op: BinOp) -> BinClass {
    match op {
        BinOp::Add | BinOp::Sub | BinOp::Mul | BinOp::Div => BinClass::Arithmetic,
        BinOp::CheckAdd
        | BinOp::CheckSub
        | BinOp::CheckMul
        | BinOp::CheckMod => BinClass::CheckedArith,
        BinOp::Eq | BinOp::Ne | BinOp::Lt | BinOp::Le | BinOp::Gt | BinOp::Ge => BinClass::Comparison,
        BinOp::And | BinOp::Or => BinClass::Logical,
        _ => BinClass::Integer,
    }
}

fn classify(op: BinOp) -> (r: BinClass)
    ensures
        r == class_of(op),
{
    match op {
        BinOp::Add | BinOp::Sub | BinOp::Mul | BinOp::Div => BinClass::Arithmetic,
        BinOp::CheckAdd
        | BinOp::CheckSub
        | BinOp::CheckMul
        | BinOp::CheckMod => BinClass::CheckedArith,
        BinOp::Eq | BinOp::Ne | BinOp::Lt | BinOp::Le | BinOp::Gt | BinOp::Ge => BinClass::Comparison,
        BinOp::And | BinOp::Or => BinClass::Logical,
        _ => BinClass::Integer,
    }
}

/// Whether the operator compares by order.
pub open spec fn orders(op: BinOp) -> bool {
    op == BinOp::Lt || op == BinOp::Le || op == BinOp::Gt || op == BinOp::Ge
}

/// Whether `ty` is a numeric primitive.
pub open spec fn numeric(ic: Ic, ty: TyId) -> bool {
    match ic.kind(ty) {
        TyKind::Primitive(p) => p.numeric_kind(),
        _ => false,
    }
}

/// Whether `ty` is an integer primitive.
pub open spec fn integer(ic: Ic, ty: TyId) -> bool {
    match ic.kind(ty) {
        TyKind::Primitive(p) => p.integer_kind(),
        _ => false,
    }
}

/// Whether `ty` is a floating-point primitive.
pub open spec fn floating(ic: Ic, ty: TyId) -> bool {
    match ic.kind(ty) {
        TyKind::Primitive(p) => p.float_kind(),
        _ => false,
    }
}

/// Whether `ty` is a numeric primitive.
pub fn is_numeric(ic: &InferCx<'_>, ty: TyId) -> (r: bool)
    ensures
        r == numeric(ic@, ty),
{
    match ic.kind(ty) {
        TyKind::Primitive(p) => p.is_numeric(),
        _ => false,
    }
}

/// Whether `ty` is an integer primitive.
pub fn is_integer(ic: &InferCx<'_>, ty: TyId) -> (r: bool)
    ensures
        r == integer(ic@, ty),
{
    match ic.kind(ty) {
        TyKind::Primitive(p) => p.is_integer(),
        _ => false,
    }
}

fn is_floating(ic: &InferCx<'_>, ty: TyId) -> (r: bool)
    ensures
        r == floating(ic@, ty),
{
    match ic.kind(ty) {
        TyKind::Primitive(p) => p.is_float(),
        _ => false,
    }
}

/// Both operands where `expected` is expected of each.
pub open spec fn operands_checked(env: TyEnv, binary: HirBinary, expected: TyId, ic: Ic) -> Judged<
    HirBinary,
>
    decreases binary, 0nat,
{
    let l = check_expr_rule(env, binary.lhs, expected, ic);
    let r = check_expr_rule(l.env, binary.rhs, expected, l.ic);
    judged(r.env, r.ic, HirBinary { op: binary.op, lhs: l.node, rhs: r.node }, expected)
}

/// The left operand on its own, the right one where the type of the left is
/// expected; with the type of the left.
pub open spec fn operands_unified(env: TyEnv, binary: HirBinary, ic: Ic) -> Judged<HirBinary>
    decreases binary, 0nat,
{
    let l = synth_expr_rule(env, binary.lhs, ic);
    let r = check_expr_rule(l.env, binary.rhs, l.ty, l.ic);
    judged(r.env, r.ic, HirBinary { op: binary.op, lhs: l.node, rhs: r.node }, l.ty)
}

/// The report on integer operators with operands of type `ty`.
pub open spec fn integer_message(ic: Ic, op: BinOp, ty: TyId) -> Message {
    if (op == BinOp::Mod || op == BinOp::CheckMod) && floating(ic, ty) {
        Message::FloatModulo { op, ty }
    } else {
        Message::NotInteger { op, ty }
    }
}

/// What comes of unified operands.
pub open spec fn unified_result(class: BinClass, u: Judged<HirBinary>, span: Span) -> Judged<
    HirBinary,
> {
    let op = u.node.op;
    match class {
        BinClass::Arithmetic => if u.ty == TyId::Error || numeric(u.ic, u.ty) {
            u
        } else {
            judged(
                u.env,
                u.ic.error(span, Message::NotNumeric { op, ty: u.ty }),
                u.node,
                TyId::Error,
            )
        },
        BinClass::Comparison => {
            let bool_ty = TyId::Prim(Primitive::Bool);
            if u.ty != TyId::Error && orders(op) && !numeric(u.ic, u.ty) {
                judged(
                    u.env,
                    u.ic.error(span, Message::NotOrdered { op, ty: u.ty }),
                    u.node,
                    bool_ty,
                )
            } else {
                judged(u.env, u.ic, u.node, bool_ty)
            }
        },
        _ => if u.ty == TyId::Error {
            u
        } else if integer(u.ic, u.ty) {
            if class == BinClass::CheckedArith {
                judged(
                    u.env,
                    overflow_step(u.ic, span, Message::OverflowOperator { op }),
                    u.node,
                    u.ty,
                )
            } else {
                u
            }
        } else {
            judged(u.env, u.ic.error(span, integer_message(u.ic, op, u.ty)), u.node, TyId::Error)
        },
    }
}

/// A binary operation on its own.
#[verifier::opaque]
pub open spec fn synth_binary_rule(env: TyEnv, binary: HirBinary, ic: Ic, span: Span) -> Judged<
    HirBinary,
>
    decreases binary, 1nat,
{
    match class_of(binary.op) {
        BinClass::Logical => operands_checked(env, binary, TyId::Prim(Primitive::Bool), ic),
        class => unified_result(class, operands_unified(env, binary, ic), span),
    }
}

/// A binary operation where a type is expected: where its operands have the
/// type of the result, that type is expected of them.
#[verifier::opaque]
pub open spec fn check_binary_rule(
    env: TyEnv,
    binary: HirBinary,
    expected: TyId,
    ic: Ic,
    span: Span,
) -> Judged<HirBinary>
    decreases binary, 2nat,
{
    let class = class_of(binary.op);
    if class == BinClass::Arithmetic && numeric(ic, expected) {
        operands_checked(env, binary, expected, ic)
    } else if class == BinClass::Integer && integer(ic, expected) {
        operands_checked(env, binary, expected, ic)
    } else if class == BinClass::CheckedArith && integer(ic, expected) {
        let j = operands_checked(env, binary, expected, ic);
        judged(
            j.env,
            overflow_step(j.ic, span, Message::OverflowOperator { op: binary.op }),
            j.node,
            expected,
        )
    } else {
        let j = synth_binary_rule(env, binary, ic, span);
        let t = bridge(j.ty, expected, j.ic, span);
        judged(j.env, t.ic, j.node, t.ty)
    }
}

fn check_operands(env: &mut TyEnv, binary: &mut HirBinary, expected: TyId, ic: &mut InferCx<'_>)
    ensures
        judged(*final(env), final(ic)@, *final(binary), expected) == operands_checked(
            *old(env),
            *old(binary),
            expected,
            old(ic)@,
        ),
        sound(*old(env), old(ic)@, *final(env), final(ic)@),
    decreases *old(binary), 0nat,
{
    proof {
        reveal(check_expr_rule);
    }
    check_expr(env, &mut binary.lhs, expected, ic);
    check_expr(env, &mut binary.rhs, expected, ic);
}

fn unify_operands(env: &mut TyEnv, binary: &mut HirBinary, ic: &mut InferCx<'_>) -> (r: TyId)
    ensures
        judged(*final(env), final(ic)@, *final(binary), r) == operands_unified(
            *old(env),
            *old(binary),
            old(ic)@,
        ),
        sound(*old(env), old(ic)@, *final(env), final(ic)@),
    decreases *old(binary), 0nat,
{
    proof {
        reveal(synth_expr_rule);
        reveal(check_expr_rule);
    }
    let lhs_ty = synth_expr(env, &mut binary.lhs, ic);
    check_expr(env, &mut binary.rhs, lhs_ty, ic);
    lhs_ty
}

/// Synthesise the type of a binary operation.
pub fn synth_binary(env: &mut TyEnv, binary: &mut HirBinary, ic: &mut InferCx<'_>, span: Span) -> (r:
    TyId)
    ensures
        judged(*final(env), final(ic)@, *final(binary), r) == synth_binary_rule(
            *old(env),
            *old(binary),
            old(ic)@,
            span,
        ),
        sound(*old(env), old(ic)@, *final(env), final(ic)@),
    decreases *old(binary), 1nat,
{
    proof {
        reveal(synth_binary_rule);
    }
    let op = binary.op;
    match classify(op) {
        BinClass::Logical => {
            let bool_ty = TyId::Prim(Primitive::Bool);
            check_operands(env, binary, bool_ty, ic);
            bool_ty
        },
        BinClass::Arithmetic => {
            let ty = unify_operands(env, binary, ic);
            if ty == ic.ty_error() || is_numeric(ic, ty) {
                return ty;
            }
            ic.emit_typecheck_error(span, Message::NotNumeric { op, ty });
            ic.ty_error()
        },
        BinClass::Comparison => {
            let ty = unify_operands(env, binary, ic);
            if ty != ic.ty_error() && requires_ordering(op) && !is_numeric(ic, ty) {
                ic.emit_typecheck_error(span, Message::NotOrdered { op, ty });
            }
            TyId::Prim(Primitive::Bool)
        },
        BinClass::Integer => {
            let ty = unify_operands(env, binary, ic);
            require_integer(ty, op, ic, span)
        },
        BinClass::CheckedArith => {
            let ty = unify_operands(env, binary, ic);
            let unified = require_integer(ty, op, ic, span);
            if unified == ic.ty_error() {
                return unified;
            }
            attach_overflow_row(ic, op, span);
            unified
        },
    }
}

fn requires_ordering(op: BinOp) -> (r: bool)
    ensures
        r == orders(op),
{
    match op {
        BinOp::Lt | BinOp::Le | BinOp::Gt | BinOp::Ge => true,
        _ => false,
    }
}

fn require_integer(ty: TyId, op: BinOp, ic: &mut InferCx<'_>, span: Span) -> (r: TyId)
    ensures
        r == (if ty == TyId::Error || integer(old(ic)@, ty) {
            ty
        } else {
            TyId::Error
        }),
        final(ic)@ == (if ty == TyId::Error || integer(old(ic)@, ty) {
            old(ic)@
        } else {
            old(ic)@.error(span, integer_message(old(ic)@, op, ty))
        }),
{
    let error = ic.ty_error();
    if ty == error || is_integer(ic, ty) {
        return ty;
    }
    let modulo = match op {
        BinOp::Mod | BinOp::CheckMod => true,
        _ => false,
    };
    if modulo && is_floating(ic, ty) {
        ic.emit_typecheck_error(span, Message::FloatModulo { op, ty });
    } else {
        ic.emit_typecheck_error(span, Message::NotInteger { op, ty });
    }
    error
}

/// Check a binary operation against a type.
pub fn check_binary(
    env: &mut TyEnv,
    binary: &mut HirBinary,
    expected: TyId,
    ic: &mut InferCx<'_>,
    span: Span,
) -> (r: TyId)
    ensures
        judged(*final(env), final(ic)@, *final(binary), r) == check_binary_rule(
            *old(env),
            *old(binary),
            expected,
            old(ic)@,
            span,
        ),
        sound(*old(env), old(ic)@, *final(env), final(ic)@),
    decreases *old(binary), 2nat,
{
    proof {
        reveal(check_binary_rule);
        reveal(synth_binary_rule);
    }
    let op = binary.op;
    match classify(op) {
        BinClass::Arithmetic => {
            if is_numeric(ic, expected) {
                check_operands(env, binary, expected, ic);
                return expected;
            }
        },
        BinClass::Integer => {
            if is_integer(ic, expected) {
                check_operands(env, binary, expected, ic);
                return expected;
            }
        },
        BinClass::CheckedArith => {
            if is_integer(ic, expected) {
                check_operands(env, binary, expected, ic);
                attach_overflow_row(ic, op, span);
                return expected;
            }
        },
        _ => {},
    }
    let synth = synth_binary(env, binary, ic, span);
    check_synth_against_expected(synth, expected, ic, span)
}

} // verus!
