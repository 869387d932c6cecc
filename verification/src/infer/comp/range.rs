//! Ranges.

use vstd::prelude::*;

use super::super::cx::{group_grown, Ic, InferCx};
use super::super::env::TyEnv;
use super::super::expr::{check_expr, check_expr_rule, synth_expr, synth_expr_rule};
use super::super::judge::{judged, sound, Judged};
use super::super::path::{failed, typed, Typed};
use crate::diag::Message;
use crate::hir::{HirExpr, HirExprKind, HirRange};
use crate::implicit_spec::ImplicitSpec;
use crate::prim::Primitive;
use crate::span::Span;
use crate::syntax::Literal;
use crate::ty::{TyId, TyKind};

verus! {

broadcast use group_grown;

/// The types of two endpoints that both have one of their own.
#[derive(Copy, Clone)]
pub struct Endpoints {
    /// Of the lower endpoint.
    pub lo: TyId,
    /// Of the upper endpoint.
    pub hi: TyId,
}

/// Whether an expression is a bare integer literal.
pub open spec fn int_literal(expr: HirExpr) -> bool {
    match expr.kind {
        HirExprKind::Literal(Literal::Int { .. }) => true,
        _ => false,
    }
}

/// Whether an expression is a bare integer literal.
pub fn is_int_literal(expr: &HirExpr) -> (r: bool)
    ensures
        r == int_literal(*expr),
{
    match &expr.kind {
        HirExprKind::Literal(Literal::Int { .. }) => true,
        _ => false,
    }
}

/// The endpoints of a range that has both. A bare literal takes the type of
/// the other endpoint, two bare literals are `i64`; where both have a type of
/// their own, the two types are given.
#[verifier::opaque]
pub open spec fn endpoints_rule(env: TyEnv, range: HirRange, ic: Ic) -> (
    Judged<HirRange>,
    Option<Endpoints>,
)
    decreases range, 0nat,
{
    match (range.lo, range.hi) {
        (Some(lo), Some(hi)) => if int_literal(lo) && int_literal(hi) {
            let l = synth_expr_rule(env, lo, ic);
            let h = synth_expr_rule(l.env, hi, l.ic);
            let node = HirRange { lo: Some(l.node), hi: Some(h.node), kind: range.kind };
            (judged(h.env, h.ic, node, TyId::Prim(Primitive::I64)), None)
        } else if int_literal(hi) {
            let l = synth_expr_rule(env, lo, ic);
            let h = check_expr_rule(l.env, hi, l.ty, l.ic);
            let node = HirRange { lo: Some(l.node), hi: Some(h.node), kind: range.kind };
            (judged(h.env, h.ic, node, l.ty), None)
        } else if int_literal(lo) {
            let h = synth_expr_rule(env, hi, ic);
            let l = check_expr_rule(h.env, lo, h.ty, h.ic);
            let node = HirRange { lo: Some(l.node), hi: Some(h.node), kind: range.kind };
            (judged(l.env, l.ic, node, h.ty), None)
        } else {
            let l = synth_expr_rule(env, lo, ic);
            let h = synth_expr_rule(l.env, hi, l.ic);
            let node = HirRange { lo: Some(l.node), hi: Some(h.node), kind: range.kind };
            (judged(h.env, h.ic, node, l.ty), Some(Endpoints { lo: l.ty, hi: h.ty }))
        },
        _ => (judged(env, ic, range, TyId::Error), None),
    }
}

/// Infer the endpoints of a range that has both.
pub fn infer_endpoints(env: &mut TyEnv, range: &mut HirRange, ic: &mut InferCx<'_>) -> (r: (
    TyId,
    Option<Endpoints>,
))
    ensures
        (judged(*final(env), final(ic)@, *final(range), r.0), r.1) == endpoints_rule(
            *old(env),
            *old(range),
            old(ic)@,
        ),
        sound(*old(env), old(ic)@, *final(env), final(ic)@),
    decreases *old(range), 0nat,
{
    proof {
        reveal(endpoints_rule);
        reveal(synth_expr_rule);
        reveal(check_expr_rule);
    }
    match (&mut range.lo, &mut range.hi) {
        (Some(lo), Some(hi)) => {
            let lo_literal = is_int_literal(lo);
            let hi_literal = is_int_literal(hi);
            if lo_literal && hi_literal {
                synth_expr(env, lo, ic);
                synth_expr(env, hi, ic);
                (TyId::Prim(Primitive::I64), None)
            } else if hi_literal {
                let ty = synth_expr(env, lo, ic);
                check_expr(env, hi, ty, ic);
                (ty, None)
            } else if lo_literal {
                let ty = synth_expr(env, hi, ic);
                check_expr(env, lo, ty, ic);
                (ty, None)
            } else {
                let lo_ty = synth_expr(env, lo, ic);
                let hi_ty = synth_expr(env, hi, ic);
                (lo_ty, Some(Endpoints { lo: lo_ty, hi: hi_ty }))
            }
        },
        _ => (ic.ty_error(), None),
    }
}

/// What a range with elements of type `ty` is: numbers give a request for the
/// range type, which is made later.
pub open spec fn range_of(ty: TyId, ic: Ic, span: Span) -> Typed {
    if ty == TyId::Error {
        typed(ic, ty)
    } else {
        match ic.kind(ty) {
            TyKind::Primitive(p) if !p.numeric_kind() => failed(
                ic,
                span,
                Message::RangeNotNumeric { ty },
            ),
            _ => typed(ic.need(ImplicitSpec::Range, ty, span), TyId::Error),
        }
    }
}

/// An optional expression on its own.
pub open spec fn optional_rule(env: TyEnv, expr: Option<HirExpr>, ic: Ic) -> Judged<Option<HirExpr>>
    decreases expr, 0nat,
{
    match expr {
        Some(e) => {
            let j = synth_expr_rule(env, e, ic);
            judged(j.env, j.ic, Some(j.node), j.ty)
        },
        None => judged(env, ic, expr, TyId::Error),
    }
}

/// A range as a value. A range with an open end has no element type.
#[verifier::opaque]
pub open spec fn synth_range_rule(env: TyEnv, range: HirRange, ic: Ic, span: Span) -> Judged<
    HirRange,
>
    decreases range, 1nat,
{
    if range.lo is Some && range.hi is Some {
        let (j, both) = endpoints_rule(env, range, ic);
        let t = match both {
            Some(e) => if e.lo == TyId::Error || e.hi == TyId::Error {
                typed(j.ic, TyId::Error)
            } else if e.lo != e.hi {
                failed(j.ic, span, Message::RangeMismatch { lo: e.lo, hi: e.hi })
            } else {
                range_of(e.lo, j.ic, span)
            },
            None => range_of(j.ty, j.ic, span),
        };
        judged(j.env, t.ic, j.node, t.ty)
    } else {
        let l = optional_rule(env, range.lo, ic);
        let h = optional_rule(l.env, range.hi, l.ic);
        judged(
            h.env,
            h.ic,
            HirRange { lo: l.node, hi: h.node, kind: range.kind },
            TyId::Error,
        )
    }
}

fn infer_optional(env: &mut TyEnv, expr: &mut Option<HirExpr>, ic: &mut InferCx<'_>) -> (r: TyId)
    ensures
        judged(*final(env), final(ic)@, *final(expr), r) == optional_rule(
            *old(env),
            *old(expr),
            old(ic)@,
        ),
        sound(*old(env), old(ic)@, *final(env), final(ic)@),
    decreases *old(expr), 0nat,
{
    proof {
        reveal(synth_expr_rule);
    }
    match expr {
        Some(e) => synth_expr(env, e, ic),
        None => ic.ty_error(),
    }
}

/// Synthesise a range.
pub fn synth_range(env: &mut TyEnv, range: &mut HirRange, ic: &mut InferCx<'_>, span: Span) -> (r:
    TyId)
    ensures
        judged(*final(env), final(ic)@, *final(range), r) == synth_range_rule(
            *old(env),
            *old(range),
            old(ic)@,
            span,
        ),
        sound(*old(env), old(ic)@, *final(env), final(ic)@),
    decreases *old(range), 1nat,
{
    proof {
        reveal(synth_range_rule);
        reveal(endpoints_rule);
    }
    let error = ic.ty_error();
    if range.lo.is_none() || range.hi.is_none() {
        infer_optional(env, &mut range.lo, ic);
        infer_optional(env, &mut range.hi, ic);
        return error;
    }
    let (ty, both) = infer_endpoints(env, range, ic);
    let element_ty = match both {
        Some(e) => {
            if e.lo == error || e.hi == error {
                return error;
            }
            if e.lo != e.hi {
                ic.emit_typecheck_error(span, Message::RangeMismatch { lo: e.lo, hi: e.hi });
                return error;
            }
            e.lo
        },
        None => ty,
    };
    if element_ty == error {
        return element_ty;
    }
    match ic.kind(element_ty) {
        TyKind::Primitive(p) => {
            if !p.is_numeric() {
                ic.emit_typecheck_error(span, Message::RangeNotNumeric { ty: element_ty });
                return error;
            }
        },
        _ => {},
    }
    ic.register_implicit_spec(ImplicitSpec::Range, element_ty, span);
    error
}

} // verus!
