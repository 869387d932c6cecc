//! Expressions that leave the enclosing construct.

use vstd::prelude::*;

use super::super::cx::{group_grown, Ic, InferCx};
use super::super::env::TyEnv;
use super::super::expr::{check_expr, check_expr_rule, synth_expr, synth_expr_rule};
use super::super::judge::{judged, sound, Judged};
use super::super::mode::linear::{consume_moved_linear, moved_out};
use crate::effect::{EffectEntry, PureEffect};
use crate::hir::HirExpr;
use crate::prim::Primitive;
use crate::ty::TyId;

verus! {

broadcast use group_grown;

/// `break value`: the value is walked, the result is `never`.
#[verifier::opaque]
pub open spec fn synth_divergent_rule(env: TyEnv, payload: Option<Box<HirExpr>>, ic: Ic) -> Judged<
    Option<Box<HirExpr>>,
>
    decreases payload, 0nat,
{
    match payload {
        Some(expr) => {
            let j = synth_expr_rule(env, *expr, ic);
            judged(j.env, j.ic, Some(Box::new(j.node)), TyId::Prim(Primitive::Never))
        },
        None => judged(env, ic, payload, TyId::Prim(Primitive::Never)),
    }
}

/// `return value`: the value has the return type of the function, where there
/// is one; a `linear` binding that is returned is consumed.
#[verifier::opaque]
pub open spec fn synth_return_rule(env: TyEnv, payload: Option<Box<HirExpr>>, ic: Ic) -> Judged<
    Option<Box<HirExpr>>,
>
    decreases payload, 0nat,
{
    match payload {
        Some(expr) => {
            let j = if ic.return_ty == TyId::Error {
                synth_expr_rule(env, *expr, ic)
            } else {
                check_expr_rule(env, *expr, ic.return_ty, ic)
            };
            judged(
                moved_out(j.env, j.node, j.ic),
                j.ic,
                Some(Box::new(j.node)),
                TyId::Prim(Primitive::Never),
            )
        },
        None => judged(env, ic, payload, TyId::Prim(Primitive::Never)),
    }
}

/// `raise value`: performs `err: T` for the type of the value.
#[verifier::opaque]
pub open spec fn synth_raise_rule(env: TyEnv, payload: HirExpr, ic: Ic) -> Judged<HirExpr>
    decreases payload, 2nat,
{
    let j = synth_expr_rule(env, payload, ic);
    let after = if j.ty == TyId::Error {
        j.ic
    } else {
        j.ic.perform(EffectEntry::Pure(PureEffect::Raise(j.ty)))
    };
    judged(j.env, after, j.node, TyId::Prim(Primitive::Never))
}

/// `panic message`: performs `panic`.
#[verifier::opaque]
pub open spec fn synth_panic_rule(env: TyEnv, payload: HirExpr, ic: Ic) -> Judged<HirExpr>
    decreases payload, 2nat,
{
    let j = synth_expr_rule(env, payload, ic);
    judged(
        j.env,
        j.ic.perform(EffectEntry::Pure(PureEffect::Panic)),
        j.node,
        TyId::Prim(Primitive::Never),
    )
}

/// Synthesise `break`.
pub fn synth_divergent(env: &mut TyEnv, payload: &mut Option<Box<HirExpr>>, ic: &mut InferCx<'_>) -> (r:
    TyId)
    ensures
        judged(*final(env), final(ic)@, *final(payload), r) == synth_divergent_rule(
            *old(env),
            *old(payload),
            old(ic)@,
        ),
        sound(*old(env), old(ic)@, *final(env), final(ic)@),
    decreases *old(payload), 0nat,
{
    proof {
        reveal(synth_divergent_rule);
        reveal(synth_expr_rule);
    }
    match payload {
        Some(expr) => {
            synth_expr(env, expr, ic);
        },
        None => {},
    }
    TyId::Prim(Primitive::Never)
}

/// Synthesise `return`.
pub fn synth_return(env: &mut TyEnv, payload: &mut Option<Box<HirExpr>>, ic: &mut InferCx<'_>) -> (r:
    TyId)
    ensures
        judged(*final(env), final(ic)@, *final(payload), r) == synth_return_rule(
            *old(env),
            *old(payload),
            old(ic)@,
        ),
        sound(*old(env), old(ic)@, *final(env), final(ic)@),
    decreases *old(payload), 0nat,
{
    proof {
        reveal(synth_return_rule);
        reveal(synth_expr_rule);
        reveal(check_expr_rule);
    }
    match payload {
        Some(expr) => {
            let expected = ic.fn_return_ty;
            if expected == ic.ty_error() {
                synth_expr(env, expr, ic);
            } else {
                check_expr(env, expr, expected, ic);
            }
            consume_moved_linear(env, expr, ic);
        },
        None => {},
    }
    TyId::Prim(Primitive::Never)
}

/// Synthesise `raise`.
pub fn synth_raise(env: &mut TyEnv, payload: &mut HirExpr, ic: &mut InferCx<'_>) -> (r: TyId)
    ensures
        judged(*final(env), final(ic)@, *final(payload), r) == synth_raise_rule(
            *old(env),
            *old(payload),
            old(ic)@,
        ),
        sound(*old(env), old(ic)@, *final(env), final(ic)@),
    decreases *old(payload), 2nat,
{
    proof {
        reveal(synth_raise_rule);
        reveal(synth_expr_rule);
    }
    let ty = synth_expr(env, payload, ic);
    if ty != ic.ty_error() {
        ic.push_effect_entry(EffectEntry::Pure(PureEffect::Raise(ty)));
    }
    TyId::Prim(Primitive::Never)
}

/// Synthesise `panic`.
pub fn synth_panic(env: &mut TyEnv, payload: &mut HirExpr, ic: &mut InferCx<'_>) -> (r: TyId)
    ensures
        judged(*final(env), final(ic)@, *final(payload), r) == synth_panic_rule(
            *old(env),
            *old(payload),
            old(ic)@,
        ),
        sound(*old(env), old(ic)@, *final(env), final(ic)@),
    decreases *old(payload), 2nat,
{
    proof {
        reveal(synth_panic_rule);
        reveal(synth_expr_rule);
    }
    synth_expr(env, payload, ic);
    ic.push_effect_entry(EffectEntry::Pure(PureEffect::Panic));
    TyId::Prim(Primitive::Never)
}

} // verus!
