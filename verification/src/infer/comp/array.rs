//! Array literals.

use vstd::prelude::*;

use super::super::cx::{group_grown, Ic, InferCx};
use super::super::env::TyEnv;
use super::super::expr::{check_expr, check_expr_rule, synth_expr, synth_expr_rule};
use super::super::judge::{judged, sound, walked, Judged, Walked};
use super::super::path::{bridge, check_synth_against_expected};
use crate::diag::Message;
use crate::hir::HirExpr;
use crate::list::List;
use crate::span::Span;
use crate::ty::{TyId, TyKind};

verus! {

broadcast use group_grown;

/// Expressions in order, all where the same type is expected.
#[verifier::opaque]
pub open spec fn check_all_rule(env: TyEnv, exprs: List<HirExpr>, ty: TyId, ic: Ic) -> Walked<
    List<HirExpr>,
>
    decreases exprs, 0nat,
{
    match exprs {
        List::Nil => walked(env, ic, exprs),
        List::Cons(expr, rest) => {
            let first = check_expr_rule(env, *expr, ty, ic);
            let others = check_all_rule(first.env, *rest, ty, first.ic);
            walked(
                others.env,
                others.ic,
                List::Cons(Box::new(first.node), Box::new(others.node)),
            )
        },
    }
}

/// An array literal on its own: the first element gives the element type.
#[verifier::opaque]
pub open spec fn synth_array_rule(env: TyEnv, elems: List<HirExpr>, ic: Ic, span: Span) -> Judged<
    List<HirExpr>,
>
    decreases elems, 1nat,
{
    match elems {
        List::Nil => judged(env, ic.error(span, Message::EmptyArray), elems, TyId::Error),
        List::Cons(head, rest) => {
            let first = synth_expr_rule(env, *head, ic);
            let others = check_all_rule(first.env, *rest, first.ty, first.ic);
            let node = List::Cons(Box::new(first.node), Box::new(others.node));
            if first.ty == TyId::Error {
                judged(others.env, others.ic, node, TyId::Error)
            } else {
                let kind = TyKind::Slice(first.ty);
                judged(others.env, others.ic.stored(kind), node, others.ic.handle(kind))
            }
        },
    }
}

/// An array literal where a type is expected: the element type of a slice type
/// is expected of its elements.
#[verifier::opaque]
pub open spec fn check_array_rule(
    env: TyEnv,
    elems: List<HirExpr>,
    expected: TyId,
    ic: Ic,
    span: Span,
) -> Judged<List<HirExpr>>
    decreases elems, 2nat,
{
    match ic.kind(expected) {
        TyKind::Slice(elem) => {
            let w = check_all_rule(env, elems, elem, ic);
            judged(w.env, w.ic, w.node, expected)
        },
        _ => {
            let j = synth_array_rule(env, elems, ic, span);
            let t = bridge(j.ty, expected, j.ic, span);
            judged(j.env, t.ic, j.node, t.ty)
        },
    }
}

fn check_all(env: &mut TyEnv, exprs: &mut List<HirExpr>, ty: TyId, ic: &mut InferCx<'_>)
    ensures
        walked(*final(env), final(ic)@, *final(exprs)) == check_all_rule(
            *old(env),
            *old(exprs),
            ty,
            old(ic)@,
        ),
        sound(*old(env), old(ic)@, *final(env), final(ic)@),
    decreases *old(exprs), 0nat,
{
    proof {
        reveal(check_all_rule);
        reveal(check_expr_rule);
    }
    match exprs {
        List::Nil => {},
        List::Cons(expr, rest) => {
            check_expr(env, expr, ty, ic);
            check_all(env, rest, ty, ic);
        },
    }
}

/// Synthesise an array literal.
pub fn synth_array(env: &mut TyEnv, elems: &mut List<HirExpr>, ic: &mut InferCx<'_>, span: Span) -> (r:
    TyId)
    ensures
        judged(*final(env), final(ic)@, *final(elems), r) == synth_array_rule(
            *old(env),
            *old(elems),
            old(ic)@,
            span,
        ),
        sound(*old(env), old(ic)@, *final(env), final(ic)@),
    decreases *old(elems), 1nat,
{
    proof {
        reveal(synth_array_rule);
        reveal(synth_expr_rule);
        reveal(check_all_rule);
    }
    match elems {
        List::Nil => {
            ic.emit_typecheck_error(span, Message::EmptyArray);
            ic.ty_error()
        },
        List::Cons(first, rest) => {
            let elem_ty = synth_expr(env, first, ic);
            check_all(env, rest, elem_ty, ic);
            if elem_ty == ic.ty_error() {
                return elem_ty;
            }
            ic.intern_kind(TyKind::Slice(elem_ty))
        },
    }
}

/// Check an array literal against a type.
pub fn check_array(
    env: &mut TyEnv,
    elems: &mut List<HirExpr>,
    expected: TyId,
    ic: &mut InferCx<'_>,
    span: Span,
) -> (r: TyId)
    ensures
        judged(*final(env), final(ic)@, *final(elems), r) == check_array_rule(
            *old(env),
            *old(elems),
            expected,
            old(ic)@,
            span,
        ),
        sound(*old(env), old(ic)@, *final(env), final(ic)@),
    decreases *old(elems), 2nat,
{
    proof {
        reveal(check_array_rule);
        reveal(check_all_rule);
        reveal(synth_array_rule);
    }
    match ic.kind(expected) {
        TyKind::Slice(elem) => {
            check_all(env, elems, elem, ic);
            return expected;
        },
        _ => {},
    }
    let synth = synth_array(env, elems, ic, span);
    check_synth_against_expected(synth, expected, ic, span)
}

} // verus!
