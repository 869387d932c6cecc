//! Laws of fields and casts.

use vstd::prelude::*;

use super::comp::cast::synth_cast_rule;
use super::cx::Ic;
use super::diverge_laws::expr_of;
use super::env::TyEnv;
use super::expr::{synth_access_rule, synth_expr_rule, synth_operation_rule};
use super::field::synth_field_rule;
use super::name_laws::{holds, is_name};
use super::op::overflow::overflow_ty;
use super::op_laws::number;
use crate::cx::{field_named, FieldInfo, TypeDeclShape};
use crate::diag::Message;
use crate::effect::{EffectEntry, PureEffect};
use crate::hir::{HirCast, HirExpr, HirExprKind, HirField};
use crate::intern::Symbol;
use crate::list::List;
use crate::prim::Primitive;
use crate::span::Span;
use crate::syntax::{CastMode, Ident};
use crate::ty::{BindingId, TyId, TyKind};

verus! {

/// A field of a valid name has the type that its product type declares for it.
pub proof fn law_field(
    env: TyEnv,
    receiver: HirExpr,
    x: Symbol,
    ty: TyId,
    name: Ident,
    id: BindingId,
    fields: List<FieldInfo>,
    span: Span,
    ic: Ic,
)
    requires
        is_name(receiver, x),
        holds(env, x, ty),
        ty != TyId::Error,
        ic.kind(ty) == TyKind::Nominal(id),
        match ic.ty_cx.layout(id) {
            Some(info) => info.kind == TypeDeclShape::Product(fields),
            None => false,
        },
    ensures
        ({
            let node = HirField { receiver, name };
            let j = synth_expr_rule(env, expr_of(HirExprKind::Field(Box::new(node)), span), ic);
            &&& j.env == env
            &&& declares_field(fields, name.name) ==> j.ic == ic && field_has(
                fields,
                name.name,
                j.ty,
            )
            &&& !declares_field(fields, name.name) ==> j.ty == TyId::Error && j.ic == ic.error(
                span,
                (Message::TypeNoField { ty, field: name.name }),
            )
        }),
{
    reveal(synth_expr_rule);
    reveal(synth_access_rule);
    reveal(synth_field_rule);
    let node = HirField { receiver, name };
    let expr = expr_of(HirExprKind::Field(Box::new(node)), span);
    assert(synth_expr_rule(env, expr, ic) == synth_access_rule(env, expr, ic));
    let f = synth_field_rule(env, node, ic, span);
    lemma_declared(fields, name.name);
}

/// Whether a field of that name is declared.
pub open spec fn declares_field(fields: List<FieldInfo>, name: Symbol) -> bool
    decreases fields,
{
    match fields {
        List::Nil => false,
        List::Cons(f, rest) => f.name == name || declares_field(*rest, name),
    }
}

/// Whether the first field of that name has the type `ty`.
pub open spec fn field_has(fields: List<FieldInfo>, name: Symbol, ty: TyId) -> bool
    decreases fields,
{
    match fields {
        List::Nil => false,
        List::Cons(f, rest) => if f.name == name {
            f.ty == ty
        } else {
            field_has(*rest, name, ty)
        },
    }
}

proof fn lemma_declared(fields: List<FieldInfo>, name: Symbol)
    ensures
        match field_named(fields, name) {
            Some(f) => declares_field(fields, name) && field_has(fields, name, f.ty),
            None => !declares_field(fields, name),
        },
    decreases fields,
{
    match fields {
        List::Nil => {},
        List::Cons(_, rest) => lemma_declared(*rest, name),
    }
}

/// A cast between two types of numbers gives the target type; a checked one may
/// raise the `Overflow` in reach. Any other cast between known types is
/// reported.
pub proof fn law_cast(
    env: TyEnv,
    operand: HirExpr,
    from: Primitive,
    to: Primitive,
    mode: CastMode,
    span: Span,
    ic: Ic,
)
    requires
        !(operand.kind is Literal),
        synth_expr_rule(env, operand, ic).ty == TyId::Prim(from),
    ensures
        ({
            let o = synth_expr_rule(env, operand, ic);
            let node = HirCast { operand, target_ty: TyId::Prim(to), mode };
            let j = synth_expr_rule(env, expr_of(HirExprKind::Cast(Box::new(node)), span), ic);
            let good = number(from) && number(to);
            &&& j.env == o.env
            &&& good ==> j.ty == TyId::Prim(to)
            &&& good && mode == CastMode::Trap ==> j.ic == o.ic
            &&& good && mode == CastMode::Checked && overflow_ty(o.ic) is Some ==> j.ic.row
                == o.ic.row.push(EffectEntry::Pure(PureEffect::Raise(overflow_ty(o.ic)->0)))
            &&& good && mode == CastMode::Checked && overflow_ty(o.ic) is None ==> j.ic
                == o.ic.error(span, Message::OverflowCast)
            &&& !good ==> j.ty == TyId::Error && j.ic == o.ic.error(
                span,
                (Message::BadCast { from: TyId::Prim(from), to: TyId::Prim(to) }),
            )
        }),
{
    reveal(synth_expr_rule);
    reveal(synth_operation_rule);
    reveal(synth_cast_rule);
    let node = HirCast { operand, target_ty: TyId::Prim(to), mode };
    let expr = expr_of(HirExprKind::Cast(Box::new(node)), span);
    assert(synth_expr_rule(env, expr, ic) == synth_operation_rule(env, expr, ic));
    let c = synth_cast_rule(env, node, ic, span);
}

} // verus!
