//! Laws of operators.

use vstd::prelude::*;

use super::cx::Ic;
use super::env::TyEnv;
use super::expr::{check_expr_rule, synth_expr_rule, synth_operation_rule};
use super::name_laws::{holds, is_name, law_read_checked};
use super::op::binary::synth_binary_rule;
use super::op::overflow::{declared_overflow, overflow_entry, overflow_ty};
use crate::diag::Message;
use crate::effect::{EffectEntry, PureEffect};
use crate::hir::{HirBinary, HirExpr, HirExprKind, HirUnary};
use crate::intern::Symbol;
use crate::list::List;
use crate::prim::Primitive;
use crate::span::Span;
use crate::syntax::{BinOp, UnOp};
use crate::ty::TyId;

verus! {

/// The types of whole numbers.
pub open spec fn whole(p: Primitive) -> bool {
    ||| p == Primitive::I8 || p == Primitive::I16 || p == Primitive::I32 || p == Primitive::I64
    ||| p == Primitive::I128 || p == Primitive::Isize
    ||| p == Primitive::U8 || p == Primitive::U16 || p == Primitive::U32 || p == Primitive::U64
    ||| p == Primitive::U128 || p == Primitive::Usize
}

/// The types of numbers.
pub open spec fn number(p: Primitive) -> bool {
    whole(p) || p == Primitive::F32 || p == Primitive::F64
}

/// A binary operation.
pub open spec fn binary_of(op: BinOp, lhs: HirExpr, rhs: HirExpr, span: Span) -> HirExpr {
    HirExpr {
        span,
        kind: HirExprKind::Binary(Box::new(HirBinary { op, lhs, rhs })),
        ty: TyId::Error,
    }
}

/// A unary operation.
pub open spec fn unary_of(op: UnOp, operand: HirExpr, span: Span) -> HirExpr {
    HirExpr {
        span,
        kind: HirExprKind::Unary(Box::new(HirUnary { op, operand })),
        ty: TyId::Error,
    }
}

proof fn lemma_binary(env: TyEnv, op: BinOp, lhs: HirExpr, rhs: HirExpr, span: Span, ic: Ic)
    ensures
        ({
            let j = synth_expr_rule(env, binary_of(op, lhs, rhs, span), ic);
            let b = synth_binary_rule(env, HirBinary { op, lhs, rhs }, ic, span);
            j.env == b.env && j.ic == b.ic && j.ty == b.ty
        }),
{
    reveal(synth_expr_rule);
    reveal(synth_operation_rule);
    reveal(synth_binary_rule);
    let expr = binary_of(op, lhs, rhs, span);
    assert(synth_expr_rule(env, expr, ic) == synth_operation_rule(env, expr, ic));
}

/// `&&` and `||` take two operands of type `bool` and give `bool`; they report
/// nothing of their own.
pub proof fn law_logical(env: TyEnv, op: BinOp, lhs: HirExpr, rhs: HirExpr, span: Span, ic: Ic)
    requires
        op == BinOp::And || op == BinOp::Or,
    ensures
        ({
            let bool_ty = TyId::Prim(Primitive::Bool);
            let j = synth_expr_rule(env, binary_of(op, lhs, rhs, span), ic);
            let l = check_expr_rule(env, lhs, bool_ty, ic);
            let r = check_expr_rule(l.env, rhs, bool_ty, l.ic);
            j.ty == bool_ty && j.env == r.env && j.ic == r.ic
        }),
{
    lemma_binary(env, op, lhs, rhs, span, ic);
    reveal(synth_binary_rule);
    reveal(check_expr_rule);
}

/// `&&` and `||` on two names: nothing is reported where both are of type
/// `bool`, and each operand of another known type is.
pub proof fn law_logical_names(
    env: TyEnv,
    op: BinOp,
    lhs: HirExpr,
    rhs: HirExpr,
    x: Symbol,
    y: Symbol,
    tx: TyId,
    ty: TyId,
    span: Span,
    ic: Ic,
)
    requires
        op == BinOp::And || op == BinOp::Or,
        is_name(lhs, x) && holds(env, x, tx),
        is_name(rhs, y) && holds(env, y, ty),
        tx != TyId::Error && tx != TyId::Prim(Primitive::Never),
        ty != TyId::Error && ty != TyId::Prim(Primitive::Never),
    ensures
        ({
            let expected = TyId::Prim(Primitive::Bool);
            let j = synth_expr_rule(env, binary_of(op, lhs, rhs, span), ic);
            let first = if tx == expected {
                ic
            } else {
                ic.error(lhs.span, Message::TypeMismatch { expected, found: tx })
            };
            &&& j.ty == expected
            &&& j.env == env
            &&& ty == expected ==> j.ic == first
            &&& ty != expected ==> j.ic == first.error(
                rhs.span,
                (Message::TypeMismatch { expected, found: ty }),
            )
        }),
{
    let bool_ty = TyId::Prim(Primitive::Bool);
    law_logical(env, op, lhs, rhs, span, ic);
    law_read_checked(env, lhs, x, tx, bool_ty, ic);
    let l = check_expr_rule(env, lhs, bool_ty, ic);
    law_read_checked(env, rhs, y, ty, bool_ty, l.ic);
}

/// `+`, `-`, `*` and `/` give the type of their left operand, which the right
/// operand must have too; it must be a type of numbers.
pub proof fn law_arithmetic(
    env: TyEnv,
    op: BinOp,
    lhs: HirExpr,
    rhs: HirExpr,
    span: Span,
    ic: Ic,
    p: Primitive,
)
    requires
        op == BinOp::Add || op == BinOp::Sub || op == BinOp::Mul || op == BinOp::Div,
        synth_expr_rule(env, lhs, ic).ty == TyId::Prim(p),
    ensures
        ({
            let j = synth_expr_rule(env, binary_of(op, lhs, rhs, span), ic);
            let l = synth_expr_rule(env, lhs, ic);
            let r = check_expr_rule(l.env, rhs, TyId::Prim(p), l.ic);
            &&& j.env == r.env
            &&& number(p) ==> j.ty == TyId::Prim(p) && j.ic == r.ic
            &&& !number(p) ==> j.ty == TyId::Error && j.ic == r.ic.error(
                span,
                (Message::NotNumeric { op, ty: TyId::Prim(p) }),
            )
        }),
{
    lemma_binary(env, op, lhs, rhs, span, ic);
    reveal(synth_binary_rule);
    reveal(synth_expr_rule);
    reveal(check_expr_rule);
}

/// `%`, the wrapping and saturating operators and those on bits are for whole
/// numbers: they give the type of their left operand, which the right operand
/// must have too.
pub proof fn law_integer_operator(
    env: TyEnv,
    op: BinOp,
    lhs: HirExpr,
    rhs: HirExpr,
    span: Span,
    ic: Ic,
    p: Primitive,
)
    requires
        op == BinOp::Mod || op == BinOp::WrapAdd || op == BinOp::WrapSub || op == BinOp::WrapMul
            || op == BinOp::SatAdd || op == BinOp::SatSub || op == BinOp::SatMul || op
            == BinOp::BitAnd || op == BinOp::BitOr || op == BinOp::BitXor || op == BinOp::Shl || op
            == BinOp::Shr,
        synth_expr_rule(env, lhs, ic).ty == TyId::Prim(p),
    ensures
        ({
            let j = synth_expr_rule(env, binary_of(op, lhs, rhs, span), ic);
            let l = synth_expr_rule(env, lhs, ic);
            let r = check_expr_rule(l.env, rhs, TyId::Prim(p), l.ic);
            &&& j.env == r.env
            &&& whole(p) ==> j.ty == TyId::Prim(p) && j.ic == r.ic
            &&& !whole(p) ==> j.ty == TyId::Error && j.ic == r.ic.error(
                span,
                (if op == BinOp::Mod && number(p) {
                    Message::FloatModulo { op, ty: TyId::Prim(p) }
                } else {
                    Message::NotInteger { op, ty: TyId::Prim(p) }
                }),
            )
        }),
{
    lemma_binary(env, op, lhs, rhs, span, ic);
    reveal(synth_binary_rule);
    reveal(synth_expr_rule);
    reveal(check_expr_rule);
}

/// The checked operators are for whole numbers. They raise the `Overflow` that
/// a handler or the declared row names; where there is none, that is reported.
pub proof fn law_checked_operator(
    env: TyEnv,
    op: BinOp,
    lhs: HirExpr,
    rhs: HirExpr,
    span: Span,
    ic: Ic,
    p: Primitive,
)
    requires
        op == BinOp::CheckAdd || op == BinOp::CheckSub || op == BinOp::CheckMul || op
            == BinOp::CheckMod,
        synth_expr_rule(env, lhs, ic).ty == TyId::Prim(p),
    ensures
        ({
            let j = synth_expr_rule(env, binary_of(op, lhs, rhs, span), ic);
            let l = synth_expr_rule(env, lhs, ic);
            let r = check_expr_rule(l.env, rhs, TyId::Prim(p), l.ic);
            &&& j.env == r.env
            &&& whole(p) ==> j.ty == TyId::Prim(p)
            &&& whole(p) && overflow_ty(r.ic) is Some ==> j.ic.row == r.ic.row.push(
                EffectEntry::Pure(PureEffect::Raise(overflow_ty(r.ic)->0)),
            ) && j.ic.diags == r.ic.diags
            &&& whole(p) && overflow_ty(r.ic) is None ==> j.ic == r.ic.error(
                span,
                (Message::OverflowOperator { op }),
            )
            &&& !whole(p) ==> j.ty == TyId::Error && j.ic.row == r.ic.row
        }),
{
    lemma_binary(env, op, lhs, rhs, span, ic);
    reveal(synth_binary_rule);
    reveal(synth_expr_rule);
    reveal(check_expr_rule);
}

/// The innermost handler of an `Overflow` comes first, and the declared row
/// counts where no handler names one.
pub proof fn law_overflow(ic: Ic, entry: EffectEntry, ty: TyId)
    requires
        overflow_entry(ic, entry) == Some(ty),
    ensures
        entry == EffectEntry::Pure(PureEffect::Raise(ty)),
        ic.handled.len() > 0 && ic.handled.last() == entry ==> overflow_ty(ic) == Some(ty),
        ic.handled.len() == 0 && ic.declared_row.list == List::Cons(
            Box::new(entry),
            Box::new(List::Nil),
        ) ==> overflow_ty(ic) == Some(ty),
        ic.handled.len() == 0 && ic.declared_row.list == List::<EffectEntry>::Nil ==> overflow_ty(
            ic,
        ) is None,
{
    reveal(overflow_ty);
    reveal_with_fuel(declared_overflow, 2);
}

/// A comparison gives `bool`. Any two values of one type can be compared for
/// equality; only numbers have an order.
pub proof fn law_comparison(
    env: TyEnv,
    op: BinOp,
    lhs: HirExpr,
    rhs: HirExpr,
    span: Span,
    ic: Ic,
    p: Primitive,
)
    requires
        op == BinOp::Eq || op == BinOp::Ne || op == BinOp::Lt || op == BinOp::Le || op == BinOp::Gt
            || op == BinOp::Ge,
        synth_expr_rule(env, lhs, ic).ty == TyId::Prim(p),
    ensures
        ({
            let j = synth_expr_rule(env, binary_of(op, lhs, rhs, span), ic);
            let l = synth_expr_rule(env, lhs, ic);
            let r = check_expr_rule(l.env, rhs, TyId::Prim(p), l.ic);
            &&& j.env == r.env
            &&& j.ty == TyId::Prim(Primitive::Bool)
            &&& number(p) || op == BinOp::Eq || op == BinOp::Ne ==> j.ic == r.ic
            &&& !number(p) && op != BinOp::Eq && op != BinOp::Ne ==> j.ic == r.ic.error(
                span,
                (Message::NotOrdered { op, ty: TyId::Prim(p) }),
            )
        }),
{
    lemma_binary(env, op, lhs, rhs, span, ic);
    reveal(synth_binary_rule);
    reveal(synth_expr_rule);
    reveal(check_expr_rule);
}

} // verus!
