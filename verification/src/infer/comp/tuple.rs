//! Tuples and positional access.

use vstd::prelude::*;

use super::super::cx::{group_grown, kept, Ic, InferCx};
use super::super::env::TyEnv;
use super::super::expr::{check_expr, check_expr_rule, synth_expr, synth_expr_rule};
use super::super::judge::{judged, sound, walked, Judged, Walked};
use super::super::path::{bridge, check_synth_against_expected, failed, typed, Typed};
use crate::cx::{field_tys, field_types, VariantPayloadInfo};
use crate::diag::Message;
use crate::hir::{HirExpr, HirTupleIndex};
use crate::list::List;
use crate::prim::Primitive;
use crate::span::Span;
use crate::ty::{TyId, TyKind};

verus! {

broadcast use group_grown;

/// Expressions in order, and their types.
#[verifier::opaque]
pub open spec fn synth_exprs_rule(env: TyEnv, exprs: List<HirExpr>, ic: Ic) -> (
    Walked<List<HirExpr>>,
    List<TyId>,
)
    decreases exprs, 0nat,
{
    match exprs {
        List::Nil => (walked(env, ic, exprs), List::Nil),
        List::Cons(expr, rest) => {
            let first = synth_expr_rule(env, *expr, ic);
            let (others, tys) = synth_exprs_rule(first.env, *rest, first.ic);
            (
                walked(
                    others.env,
                    others.ic,
                    List::Cons(Box::new(first.node), Box::new(others.node)),
                ),
                List::Cons(Box::new(first.ty), Box::new(tys)),
            )
        },
    }
}

/// Expressions in order, each where its type is expected.
#[verifier::opaque]
pub open spec fn check_each_rule(env: TyEnv, exprs: List<HirExpr>, tys: List<TyId>, ic: Ic) -> Walked<
    List<HirExpr>,
>
    decreases exprs, 0nat,
{
    match (exprs, tys) {
        (List::Cons(expr, rest), List::Cons(ty, more)) => {
            let first = check_expr_rule(env, *expr, *ty, ic);
            let others = check_each_rule(first.env, *rest, *more, first.ic);
            walked(
                others.env,
                others.ic,
                List::Cons(Box::new(first.node), Box::new(others.node)),
            )
        },
        _ => walked(env, ic, exprs),
    }
}

/// A tuple on its own; it has at least two elements.
#[verifier::opaque]
pub open spec fn synth_tuple_rule(env: TyEnv, elems: List<HirExpr>, ic: Ic, span: Span) -> Judged<
    List<HirExpr>,
>
    decreases elems, 1nat,
{
    if elems.length() < 2 {
        judged(env, ic.error(span, Message::TupleTooShort), elems, TyId::Error)
    } else {
        let (w, tys) = synth_exprs_rule(env, elems, ic);
        let kind = TyKind::Tuple(tys);
        judged(w.env, w.ic.stored(kind), w.node, w.ic.handle(kind))
    }
}

/// A tuple where a type is expected: the elements of a tuple type of the same
/// length are expected of its elements.
#[verifier::opaque]
pub open spec fn check_tuple_rule(
    env: TyEnv,
    elems: List<HirExpr>,
    expected: TyId,
    ic: Ic,
    span: Span,
) -> Judged<List<HirExpr>>
    decreases elems, 2nat,
{
    match ic.kind(expected) {
        TyKind::Tuple(tys) if tys.length() == elems.length() => {
            let w = check_each_rule(env, elems, tys, ic);
            judged(w.env, w.ic, w.node, expected)
        },
        _ => {
            let j = synth_tuple_rule(env, elems, ic, span);
            let t = bridge(j.ty, expected, j.ic, span);
            judged(j.env, t.ic, j.node, t.ty)
        },
    }
}

/// The kind of the payload of a variant as one value: `()` without a payload,
/// else the tuple of its elements.
pub open spec fn payload_kind(payload: VariantPayloadInfo) -> TyKind {
    let tys = match payload {
        VariantPayloadInfo::Unit => List::Nil,
        VariantPayloadInfo::Tuple(elems) => elems,
        VariantPayloadInfo::Struct(fields) => field_types(fields),
    };
    composite_kind(tys)
}

/// The kind of values of the given types as one value.
pub open spec fn composite_kind(tys: List<TyId>) -> TyKind {
    match tys {
        List::Nil => TyKind::Primitive(Primitive::Unit),
        _ => TyKind::Tuple(tys),
    }
}

/// The type of the values of the given types as one value.
pub fn payload_composite(ic: &mut InferCx<'_>, tys: List<TyId>) -> (r: TyId)
    ensures
        final(ic)@ == old(ic)@.stored(composite_kind(tys)),
        r == old(ic)@.handle(composite_kind(tys)),
        kept(old(ic)@, final(ic)@),
{
    match &tys {
        List::Nil => TyId::Prim(Primitive::Unit),
        List::Cons(_, _) => ic.intern_kind(TyKind::Tuple(tys)),
    }
}

/// A positional access to a value of type `ty`: an element of a tuple, or the
/// payload of a variant of a sum type by the variant's position.
pub open spec fn position_of(ty: TyId, index: u32, ic: Ic, span: Span) -> Typed {
    if ty == TyId::Error {
        typed(ic, ty)
    } else {
        match ic.kind(ty) {
            TyKind::Tuple(elems) => match elems.nth(index as nat) {
                Some(elem) => typed(ic, elem),
                None => failed(
                    ic,
                    span,
                    Message::TupleIndexOut { index, ty, len: elems.length() },
                ),
            },
            TyKind::Nominal(id) => match ic.ty_cx.sum_variants(id) {
                Some(variants) => match variants.nth(index as nat) {
                    Some(v) => typed(
                        ic.stored(payload_kind(v.payload)),
                        ic.handle(payload_kind(v.payload)),
                    ),
                    None => failed(
                        ic,
                        span,
                        Message::VariantIndexOut { index, ty, count: variants.length() },
                    ),
                },
                None => failed(ic, span, Message::PositionalNotSum { index, ty }),
            },
            _ => failed(ic, span, Message::TupleIndexOn { index, ty }),
        }
    }
}

/// A positional access.
#[verifier::opaque]
pub open spec fn synth_tuple_index_rule(env: TyEnv, node: HirTupleIndex, ic: Ic, span: Span) -> Judged<
    HirTupleIndex,
>
    decreases node, 0nat,
{
    let r = synth_expr_rule(env, node.receiver, ic);
    let t = position_of(r.ty, node.index, r.ic, span);
    judged(r.env, t.ic, HirTupleIndex { receiver: r.node, index: node.index }, t.ty)
}

fn synth_exprs(env: &mut TyEnv, exprs: &mut List<HirExpr>, ic: &mut InferCx<'_>) -> (r: List<TyId>)
    ensures
        (walked(*final(env), final(ic)@, *final(exprs)), r) == synth_exprs_rule(
            *old(env),
            *old(exprs),
            old(ic)@,
        ),
        sound(*old(env), old(ic)@, *final(env), final(ic)@),
    decreases *old(exprs), 0nat,
{
    proof {
        reveal(synth_exprs_rule);
        reveal(synth_expr_rule);
    }
    match exprs {
        List::Nil => List::Nil,
        List::Cons(expr, rest) => {
            let ty = synth_expr(env, expr, ic);
            let tys = synth_exprs(env, rest, ic);
            List::cons(ty, tys)
        },
    }
}

fn check_each(env: &mut TyEnv, exprs: &mut List<HirExpr>, tys: &List<TyId>, ic: &mut InferCx<'_>)
    ensures
        walked(*final(env), final(ic)@, *final(exprs)) == check_each_rule(
            *old(env),
            *old(exprs),
            *tys,
            old(ic)@,
        ),
        sound(*old(env), old(ic)@, *final(env), final(ic)@),
    decreases *old(exprs), 0nat,
{
    proof {
        reveal(check_each_rule);
        reveal(check_expr_rule);
    }
    match exprs {
        List::Nil => {},
        List::Cons(expr, rest) => match tys {
            List::Nil => {},
            List::Cons(ty, more) => {
                check_expr(env, expr, **ty, ic);
                check_each(env, rest, more, ic);
            },
        },
    }
}

/// Synthesise a tuple.
pub fn synth_tuple(env: &mut TyEnv, elems: &mut List<HirExpr>, ic: &mut InferCx<'_>, span: Span) -> (r:
    TyId)
    ensures
        judged(*final(env), final(ic)@, *final(elems), r) == synth_tuple_rule(
            *old(env),
            *old(elems),
            old(ic)@,
            span,
        ),
        sound(*old(env), old(ic)@, *final(env), final(ic)@),
    decreases *old(elems), 1nat,
{
    proof {
        reveal(synth_tuple_rule);
        reveal(synth_exprs_rule);
    }
    if elems.len() < 2 {
        ic.emit_typecheck_error(span, Message::TupleTooShort);
        return ic.ty_error();
    }
    let tys = synth_exprs(env, elems, ic);
    ic.intern_kind(TyKind::Tuple(tys))
}

/// Check a tuple against a type.
pub fn check_tuple(
    env: &mut TyEnv,
    elems: &mut List<HirExpr>,
    expected: TyId,
    ic: &mut InferCx<'_>,
    span: Span,
) -> (r: TyId)
    ensures
        judged(*final(env), final(ic)@, *final(elems), r) == check_tuple_rule(
            *old(env),
            *old(elems),
            expected,
            old(ic)@,
            span,
        ),
        sound(*old(env), old(ic)@, *final(env), final(ic)@),
    decreases *old(elems), 2nat,
{
    proof {
        reveal(check_tuple_rule);
        reveal(check_each_rule);
        reveal(synth_tuple_rule);
    }
    match ic.kind(expected) {
        TyKind::Tuple(tys) => {
            if tys.len() == elems.len() {
                check_each(env, elems, &tys, ic);
                return expected;
            }
        },
        _ => {},
    }
    let synth = synth_tuple(env, elems, ic, span);
    check_synth_against_expected(synth, expected, ic, span)
}

/// Synthesise a positional access.
pub fn synth_tuple_index(
    env: &mut TyEnv,
    node: &mut HirTupleIndex,
    ic: &mut InferCx<'_>,
    span: Span,
) -> (r: TyId)
    ensures
        judged(*final(env), final(ic)@, *final(node), r) == synth_tuple_index_rule(
            *old(env),
            *old(node),
            old(ic)@,
            span,
        ),
        sound(*old(env), old(ic)@, *final(env), final(ic)@),
    decreases *old(node), 0nat,
{
    proof {
        reveal(synth_tuple_index_rule);
        reveal(synth_expr_rule);
    }
    let index = node.index;
    let ty = synth_expr(env, &mut node.receiver, ic);
    let error = ic.ty_error();
    if ty == error {
        return error;
    }
    match ic.kind(ty) {
        TyKind::Tuple(elems) => match elems.get(index as usize) {
            Some(elem) => elem,
            None => {
                ic.emit_typecheck_error(
                    span,
                    Message::TupleIndexOut { index, ty, len: elems.len() },
                );
                error
            },
        },
        TyKind::Nominal(id) => match ic.ty_cx.sum(id) {
            Some(variants) => match variants.get_ref(index as usize) {
                Some(v) => {
                    let tys = match &v.payload {
                        VariantPayloadInfo::Unit => List::Nil,
                        VariantPayloadInfo::Tuple(elems) => elems.dup(),
                        VariantPayloadInfo::Struct(fields) => field_tys(fields),
                    };
                    payload_composite(ic, tys)
                },
                None => {
                    ic.emit_typecheck_error(
                        span,
                        Message::VariantIndexOut { index, ty, count: variants.len() },
                    );
                    error
                },
            },
            None => {
                ic.emit_typecheck_error(span, Message::PositionalNotSum { index, ty });
                error
            },
        },
        _ => {
            ic.emit_typecheck_error(span, Message::TupleIndexOn { index, ty });
            error
        },
    }
}

} // verus!
