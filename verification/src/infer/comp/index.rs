//! Indexing.

use vstd::prelude::*;

use super::super::cx::{group_grown, Ic, InferCx};
use super::super::env::TyEnv;
use super::super::expr::{check_expr, check_expr_rule, synth_expr, synth_expr_rule};
use super::super::judge::{judged, sound, Judged};
use super::super::path::{failed, typed, Typed};
use crate::diag::Message;
use crate::hir::{HirExpr, HirExprKind, HirIndex, HirRange};
use crate::prim::Primitive;
use crate::span::Span;
use crate::ty::{TyId, TyKind};

verus! {

broadcast use group_grown;

/// An optional expression where a type is expected.
pub open spec fn optional_check_rule(env: TyEnv, expr: Option<HirExpr>, expected: TyId, ic: Ic) -> Judged<
    Option<HirExpr>,
>
    decreases expr, 0nat,
{
    match expr {
        Some(e) => {
            let j = check_expr_rule(env, e, expected, ic);
            judged(j.env, j.ic, Some(j.node), expected)
        },
        None => judged(env, ic, expr, expected),
    }
}

/// The range of a sub-slice: its endpoints are `usize`.
pub open spec fn subrange_rule(env: TyEnv, range: HirRange, ic: Ic) -> Judged<HirRange>
    decreases range, 0nat,
{
    let usize_ty = TyId::Prim(Primitive::Usize);
    let l = optional_check_rule(env, range.lo, usize_ty, ic);
    let h = optional_check_rule(l.env, range.hi, usize_ty, l.ic);
    judged(h.env, h.ic, HirRange { lo: l.node, hi: h.node, kind: range.kind }, TyId::Error)
}

/// The type of a sub-slice of a value of type `ty`.
pub open spec fn subslice(ty: TyId, ic: Ic, span: Span) -> Typed {
    if ty == TyId::Error {
        typed(ic, ty)
    } else {
        match ic.kind(ty) {
            TyKind::Slice(_) => typed(ic, ty),
            _ => failed(ic, span, Message::SubrangeNotSlice { ty }),
        }
    }
}

/// The type of an element of a value of type `ty`.
pub open spec fn element(ty: TyId, ic: Ic, span: Span) -> Typed {
    if ty == TyId::Error {
        typed(ic, ty)
    } else {
        match ic.kind(ty) {
            TyKind::Slice(elem) => typed(ic, elem),
            _ => failed(ic, span, Message::IndexNotSlice { ty }),
        }
    }
}

/// An index operation: `xs[i]` is an element, `xs[lo..hi]` a sub-slice.
#[verifier::opaque]
pub open spec fn synth_index_rule(env: TyEnv, node: HirIndex, ic: Ic, span: Span) -> Judged<HirIndex>
    decreases node, 0nat,
{
    let r = synth_expr_rule(env, node.receiver, ic);
    match node.index.kind {
        HirExprKind::Range(range) => {
            let i = subrange_rule(r.env, *range, r.ic);
            let t = subslice(r.ty, i.ic, span);
            let index = HirExpr {
                span: node.index.span,
                kind: HirExprKind::Range(Box::new(i.node)),
                ty: TyId::Error,
            };
            judged(i.env, t.ic, HirIndex { receiver: r.node, index }, t.ty)
        },
        _ => {
            let i = check_expr_rule(r.env, node.index, TyId::Prim(Primitive::Usize), r.ic);
            let t = element(r.ty, i.ic, span);
            judged(i.env, t.ic, HirIndex { receiver: r.node, index: i.node }, t.ty)
        },
    }
}

fn check_optional(
    env: &mut TyEnv,
    expr: &mut Option<HirExpr>,
    expected: TyId,
    ic: &mut InferCx<'_>,
)
    ensures
        judged(*final(env), final(ic)@, *final(expr), expected) == optional_check_rule(
            *old(env),
            *old(expr),
            expected,
            old(ic)@,
        ),
        sound(*old(env), old(ic)@, *final(env), final(ic)@),
    decreases *old(expr), 0nat,
{
    proof {
        reveal(check_expr_rule);
    }
    match expr {
        Some(e) => {
            check_expr(env, e, expected, ic);
        },
        None => {},
    }
}

/// Synthesise an index operation.
pub fn synth_index(env: &mut TyEnv, node: &mut HirIndex, ic: &mut InferCx<'_>, span: Span) -> (r:
    TyId)
    ensures
        judged(*final(env), final(ic)@, *final(node), r) == synth_index_rule(
            *old(env),
            *old(node),
            old(ic)@,
            span,
        ),
        sound(*old(env), old(ic)@, *final(env), final(ic)@),
    decreases *old(node), 0nat,
{
    proof {
        reveal(synth_index_rule);
        reveal(synth_expr_rule);
        reveal(check_expr_rule);
    }
    let recv_ty = synth_expr(env, &mut node.receiver, ic);
    let error = ic.ty_error();
    let usize_ty = TyId::Prim(Primitive::Usize);
    match &mut node.index.kind {
        HirExprKind::Range(range) => {
            check_optional(env, &mut range.lo, usize_ty, ic);
            check_optional(env, &mut range.hi, usize_ty, ic);
            node.index.ty = error;
            if recv_ty == error {
                return error;
            }
            match ic.kind(recv_ty) {
                TyKind::Slice(_) => recv_ty,
                _ => {
                    ic.emit_typecheck_error(span, Message::SubrangeNotSlice { ty: recv_ty });
                    error
                },
            }
        },
        _ => {
            check_expr(env, &mut node.index, usize_ty, ic);
            if recv_ty == error {
                return error;
            }
            match ic.kind(recv_ty) {
                TyKind::Slice(elem) => elem,
                _ => {
                    ic.emit_typecheck_error(span, Message::IndexNotSlice { ty: recv_ty });
                    error
                },
            }
        },
    }
}

} // verus!
