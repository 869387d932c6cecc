//! Loops.

use vstd::prelude::*;

use super::super::block::{synth_block, synth_block_rule};
use super::super::cx::{group_grown, Ic, InferCx};
use super::super::env::TyEnv;
use super::super::expr::{check_expr, check_expr_rule, synth_expr, synth_expr_rule};
use super::super::judge::{judged, sound, Judged};
use super::super::mode::exit::{field_ty, product_field};
use super::super::mode::transitions::{check_loop_reentry, reentry};
use super::super::op::binary::{integer, is_integer};
use crate::effect::{EffectEntry, PureEffect};
use crate::hir::{HirExpr, HirExprKind, HirLoop};
use crate::intern::Symbol;
use crate::prim::Primitive;
use crate::ty::{TyId, TyKind};

verus! {

broadcast use group_grown;

/// The binding at the head of a chain of fields and positions.
pub open spec fn head_binding(expr: HirExpr) -> Option<Symbol>
    decreases expr,
{
    match expr.kind {
        HirExprKind::Path(path) => path.single(),
        HirExprKind::Field(access) => head_binding(access.receiver),
        HirExprKind::TupleIndex(access) => head_binding(access.receiver),
        _ => None,
    }
}

/// `ty` where it is an integer type.
pub open spec fn integer_only(ic: Ic, ty: Option<TyId>) -> Option<TyId> {
    match ty {
        Some(t) => if integer(ic, t) {
            Some(t)
        } else {
            None
        },
        None => None,
    }
}

/// The type of the binding at the head of `expr`.
pub open spec fn head_ty(expr: HirExpr, env: TyEnv) -> Option<TyId> {
    match head_binding(expr) {
        Some(head) => env.ty_of(head),
        None => None,
    }
}

/// The integer type of the first operand of a measure that has one of its own:
/// a name, a field, a position or a cast, but not a literal.
pub open spec fn measure_ty(expr: HirExpr, env: TyEnv, ic: Ic) -> Option<TyId>
    decreases expr,
{
    match expr.kind {
        HirExprKind::Path(path) => match path.single() {
            Some(name) => integer_only(ic, env.ty_of(name)),
            None => None,
        },
        HirExprKind::Field(access) => match head_ty(access.receiver, env) {
            Some(ty) => integer_only(ic, product_field(ic, ty, access.name.name)),
            None => None,
        },
        HirExprKind::TupleIndex(access) => match head_ty(access.receiver, env) {
            Some(ty) => match ic.kind(ty) {
                TyKind::Tuple(elems) => integer_only(ic, elems.nth(access.index as nat)),
                _ => None,
            },
            None => None,
        },
        HirExprKind::Cast(cast) => integer_only(ic, Some(cast.target_ty)),
        HirExprKind::Binary(binary) => match measure_ty(binary.lhs, env, ic) {
            Some(ty) => Some(ty),
            None => measure_ty(binary.rhs, env, ic),
        },
        HirExprKind::Unary(unary) => measure_ty(unary.operand, env, ic),
        _ => None,
    }
}

/// The measure of a loop, or the divergence of a loop without one.
pub open spec fn measure_rule(env: TyEnv, measure: Option<HirExpr>, ic: Ic) -> Judged<
    Option<HirExpr>,
>
    decreases measure, 0nat,
{
    match measure {
        Some(expr) => {
            let j = match measure_ty(expr, env, ic) {
                Some(ty) => check_expr_rule(env, expr, ty, ic),
                None => synth_expr_rule(env, expr, ic),
            };
            judged(j.env, j.ic, Some(j.node), j.ty)
        },
        None => judged(
            env,
            ic.perform(EffectEntry::Pure(PureEffect::Divergence)),
            measure,
            TyId::Error,
        ),
    }
}

/// A loop: its body must leave every outer binding in the state in which it
/// found it; afterwards the states are those before the body.
#[verifier::opaque]
pub open spec fn synth_loop_rule(env: TyEnv, node: HirLoop, ic: Ic) -> Judged<HirLoop>
    decreases node, 0nat,
{
    let m = measure_rule(env, node.decreases, ic);
    let b = synth_block_rule(m.env, node.body, m.ic);
    judged(
        m.env,
        reentry(b.env, m.env, b.ic, node.body.span),
        HirLoop { body: b.node, decreases: m.node },
        TyId::Prim(Primitive::Never),
    )
}

fn path_head_binding(expr: &HirExpr) -> (r: Option<Symbol>)
    ensures
        r == head_binding(*expr),
    decreases expr,
{
    match &expr.kind {
        HirExprKind::Path(path) => path.as_single(),
        HirExprKind::Field(access) => path_head_binding(&access.receiver),
        HirExprKind::TupleIndex(access) => path_head_binding(&access.receiver),
        _ => None,
    }
}

fn if_integer(ic: &InferCx<'_>, ty: Option<TyId>) -> (r: Option<TyId>)
    ensures
        r == integer_only(ic@, ty),
{
    match ty {
        Some(t) => if is_integer(ic, t) {
            Some(t)
        } else {
            None
        },
        None => None,
    }
}

fn head_type(expr: &HirExpr, env: &TyEnv) -> (r: Option<TyId>)
    ensures
        r == head_ty(*expr, *env),
{
    match path_head_binding(expr) {
        Some(head) => env.lookup(head),
        None => None,
    }
}

fn probe_integer_expected(expr: &HirExpr, env: &TyEnv, ic: &InferCx<'_>) -> (r: Option<TyId>)
    ensures
        r == measure_ty(*expr, *env, ic@),
    decreases expr,
{
    match &expr.kind {
        HirExprKind::Path(path) => match path.as_single() {
            Some(name) => if_integer(ic, env.lookup(name)),
            None => None,
        },
        HirExprKind::Field(access) => match head_type(&access.receiver, env) {
            Some(ty) => if_integer(ic, field_ty(ty, access.name.name, ic)),
            None => None,
        },
        HirExprKind::TupleIndex(access) => match head_type(&access.receiver, env) {
            Some(ty) => match ic.kind(ty) {
                TyKind::Tuple(elems) => if_integer(ic, elems.get(access.index as usize)),
                _ => None,
            },
            None => None,
        },
        HirExprKind::Cast(cast) => if_integer(ic, Some(cast.target_ty)),
        HirExprKind::Binary(binary) => match probe_integer_expected(&binary.lhs, env, ic) {
            Some(ty) => Some(ty),
            None => probe_integer_expected(&binary.rhs, env, ic),
        },
        HirExprKind::Unary(unary) => probe_integer_expected(&unary.operand, env, ic),
        _ => None,
    }
}

/// Synthesise a loop.
pub fn synth_loop(env: &mut TyEnv, node: &mut HirLoop, ic: &mut InferCx<'_>) -> (r: TyId)
    ensures
        judged(*final(env), final(ic)@, *final(node), r) == synth_loop_rule(
            *old(env),
            *old(node),
            old(ic)@,
        ),
        sound(*old(env), old(ic)@, *final(env), final(ic)@),
    decreases *old(node), 0nat,
{
    proof {
        reveal(synth_loop_rule);
        reveal(synth_expr_rule);
        reveal(check_expr_rule);
        reveal(synth_block_rule);
    }
    match &mut node.decreases {
        Some(measure) => match probe_integer_expected(measure, env, ic) {
            Some(ty) => {
                check_expr(env, measure, ty, ic);
            },
            None => {
                synth_expr(env, measure, ic);
            },
        },
        None => {
            ic.push_effect_entry(EffectEntry::Pure(PureEffect::Divergence));
        },
    }
    let pre = env.dup();
    let span = node.body.span;
    synth_block(env, &mut node.body, ic);
    check_loop_reentry(env, &pre, ic, span);
    *env = pre;
    TyId::Prim(Primitive::Never)
}

} // verus!
