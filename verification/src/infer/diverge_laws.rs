//! Laws of what leaves the ordinary flow, and of the effects that it performs.

use vstd::prelude::*;

use super::ctrl::diverge::{
    synth_divergent_rule, synth_panic_rule, synth_raise_rule, synth_return_rule,
};
use super::cx::Ic;
use super::env::TyEnv;
use super::expr::{check_expr_rule, synth_control_rule, synth_expr_rule, synth_region_rule};
use super::spawn::synth_await_rule;
use crate::effect::{EffectEntry, PureEffect};
use crate::hir::{HirExpr, HirExprKind};
use crate::prim::Primitive;
use crate::span::Span;
use crate::ty::TyId;

verus! {

/// An expression of the given kind.
pub open spec fn expr_of(kind: HirExprKind, span: Span) -> HirExpr {
    HirExpr { span, kind, ty: TyId::Error }
}

/// `raise e` performs `err: T` after the effects of `e`, where `T` is the type
/// of `e`, and diverges.
pub proof fn law_raise(env: TyEnv, payload: HirExpr, span: Span, ic: Ic)
    ensures
        ({
            let e = synth_expr_rule(env, payload, ic);
            let j = synth_expr_rule(
                env,
                expr_of(HirExprKind::Raise(Box::new(payload)), span),
                ic,
            );
            &&& j.ty == TyId::Prim(Primitive::Never)
            &&& j.env == e.env
            &&& j.ic.diags == e.ic.diags
            &&& e.ty != TyId::Error ==> j.ic.row == e.ic.row.push(
                EffectEntry::Pure(PureEffect::Raise(e.ty)),
            )
            &&& e.ty == TyId::Error ==> j.ic.row == e.ic.row
        }),
{
    reveal(synth_expr_rule);
    reveal(synth_control_rule);
    reveal(synth_raise_rule);
    let expr = expr_of(HirExprKind::Raise(Box::new(payload)), span);
    assert(synth_expr_rule(env, expr, ic) == synth_control_rule(env, expr, ic));
    let r = synth_raise_rule(env, payload, ic);
}

/// `panic e` performs `panic` after the effects of `e`, and diverges.
pub proof fn law_panic(env: TyEnv, payload: HirExpr, span: Span, ic: Ic)
    ensures
        ({
            let e = synth_expr_rule(env, payload, ic);
            let j = synth_expr_rule(
                env,
                expr_of(HirExprKind::Panic(Box::new(payload)), span),
                ic,
            );
            &&& j.ty == TyId::Prim(Primitive::Never)
            &&& j.env == e.env
            &&& j.ic.diags == e.ic.diags
            &&& j.ic.row == e.ic.row.push(EffectEntry::Pure(PureEffect::Panic))
        }),
{
    reveal(synth_expr_rule);
    reveal(synth_control_rule);
    reveal(synth_panic_rule);
    let expr = expr_of(HirExprKind::Panic(Box::new(payload)), span);
    assert(synth_expr_rule(env, expr, ic) == synth_control_rule(env, expr, ic));
    let r = synth_panic_rule(env, payload, ic);
}

/// `await e` has the type of `e` and performs `cancellation` after the effects
/// of `e`.
pub proof fn law_await(env: TyEnv, inner: HirExpr, span: Span, ic: Ic)
    ensures
        ({
            let e = synth_expr_rule(env, inner, ic);
            let j = synth_expr_rule(env, expr_of(HirExprKind::Await(Box::new(inner)), span), ic);
            &&& j.ty == e.ty
            &&& j.env == e.env
            &&& j.ic.diags == e.ic.diags
            &&& j.ic.row == e.ic.row.push(EffectEntry::Pure(PureEffect::Cancellation))
        }),
{
    reveal(synth_expr_rule);
    reveal(synth_region_rule);
    reveal(synth_await_rule);
    let expr = expr_of(HirExprKind::Await(Box::new(inner)), span);
    assert(synth_expr_rule(env, expr, ic) == synth_region_rule(env, expr, ic));
    let r = synth_await_rule(env, inner, ic);
}

/// `return e` expects the return type of `e` and diverges; what it performs and
/// reports is what `e` does.
pub proof fn law_return(env: TyEnv, payload: HirExpr, span: Span, ic: Ic)
    requires
        ic.return_ty != TyId::Error,
    ensures
        ({
            let e = check_expr_rule(env, payload, ic.return_ty, ic);
            let j = synth_expr_rule(
                env,
                expr_of(HirExprKind::Return(Some(Box::new(payload))), span),
                ic,
            );
            &&& j.ty == TyId::Prim(Primitive::Never)
            &&& j.ic == e.ic
        }),
{
    reveal(synth_expr_rule);
    reveal(synth_control_rule);
    reveal(synth_return_rule);
    reveal(check_expr_rule);
    let expr = expr_of(HirExprKind::Return(Some(Box::new(payload))), span);
    assert(synth_expr_rule(env, expr, ic) == synth_control_rule(env, expr, ic));
    let r = synth_return_rule(env, Some(Box::new(payload)), ic);
}

/// `break` and `continue` diverge and perform nothing of their own.
pub proof fn law_break(env: TyEnv, payload: HirExpr, span: Span, ic: Ic)
    ensures
        ({
            let e = synth_expr_rule(env, payload, ic);
            let with = synth_expr_rule(
                env,
                expr_of(HirExprKind::Break(Some(Box::new(payload))), span),
                ic,
            );
            let without = synth_expr_rule(env, expr_of(HirExprKind::Break(None), span), ic);
            let next = synth_expr_rule(env, expr_of(HirExprKind::Continue, span), ic);
            let never = TyId::Prim(Primitive::Never);
            &&& with.ty == never && with.ic == e.ic && with.env == e.env
            &&& without.ty == never && without.ic == ic && without.env == env
            &&& next.ty == never && next.ic == ic && next.env == env
        }),
{
    reveal(synth_expr_rule);
    reveal(synth_control_rule);
    reveal(synth_divergent_rule);
    let some = expr_of(HirExprKind::Break(Some(Box::new(payload))), span);
    let none = expr_of(HirExprKind::Break(None), span);
    let next = expr_of(HirExprKind::Continue, span);
    assert(synth_expr_rule(env, some, ic) == synth_control_rule(env, some, ic));
    assert(synth_expr_rule(env, none, ic) == synth_control_rule(env, none, ic));
    assert(synth_expr_rule(env, next, ic) == synth_control_rule(env, next, ic));
    let a = synth_divergent_rule(env, Some(Box::new(payload)), ic);
    let b = synth_divergent_rule(env, None, ic);
}

} // verus!
