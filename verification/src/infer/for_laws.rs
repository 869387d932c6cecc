//! Laws of `for` and of ranges.

use vstd::prelude::*;

use super::block::synth_block_rule;
use super::comp::range::{endpoints_rule, int_literal, range_of, synth_range_rule};
use super::cx::Ic;
use super::diverge_laws::expr_of;
use super::env::{Bound, TyEnv};
use super::expr::{synth_control_rule, synth_expr_rule, synth_operation_rule};
use super::for_loop::{for_element_rule, synth_for_rule};
use super::mode::lattice::BindingState;
use super::mode::transitions::reentry;
use super::name_laws::{holds, is_name, law_read};
use super::pat::bind_pat_rule;
use super::pattern_laws::name_pat;
use crate::diag::Message;
use crate::hir::{HirBlock, HirExpr, HirExprKind, HirFor, HirRange};
use crate::implicit_spec::ImplicitSpec;
use crate::intern::Symbol;
use crate::prim::Primitive;
use crate::span::Span;
use crate::syntax::{Ident, RangeKind};
use crate::ty::{TyId, TyKind};

verus! {

/// A slice that is walked gives its elements; of a slice or a range alone can
/// a `for` walk the elements.
pub proof fn law_for_slice(env: TyEnv, iter: HirExpr, ic: Ic)
    requires
        !(iter.kind is Range),
    ensures
        ({
            let i = synth_expr_rule(env, iter, ic);
            let e = for_element_rule(env, iter, ic);
            &&& e.env == i.env
            &&& i.ic.kind(i.ty) matches TyKind::Slice(elem) ==> e.ty == elem && e.ic == i.ic
            &&& !(i.ic.kind(i.ty) is Slice) ==> e.ty == TyId::Error
            &&& !(i.ic.kind(i.ty) is Slice) && i.ty != TyId::Error ==> e.ic == i.ic.error(
                iter.span,
                (Message::ForNotIterable { ty: i.ty }),
            )
        }),
{
    reveal(for_element_rule);
    reveal(synth_expr_rule);
}

/// A range that is walked, from one name to another of the same type, gives
/// elements of that type; two types are reported.
pub proof fn law_for_range(
    env: TyEnv,
    lo: HirExpr,
    hi: HirExpr,
    kind: RangeKind,
    a: Symbol,
    b: Symbol,
    s: TyId,
    t: TyId,
    span: Span,
    ic: Ic,
)
    requires
        is_name(lo, a),
        is_name(hi, b),
        holds(env, a, s),
        holds(env, b, t),
        s != TyId::Error,
        t != TyId::Error,
    ensures
        ({
            let range = HirRange { lo: Some(lo), hi: Some(hi), kind };
            let expr = expr_of(HirExprKind::Range(Box::new(range)), span);
            let e = for_element_rule(env, expr, ic);
            let j = synth_expr_rule(env, expr, ic);
            &&& e.env == env && j.env == env
            &&& s == t ==> e.ty == s && e.ic == ic
            &&& s != t ==> e.ty == TyId::Error && e.ic == ic.error(
                span,
                (Message::ForRangeMismatch { lo: s, hi: t }),
            )
            &&& s != t ==> j.ty == TyId::Error && j.ic == ic.error(
                span,
                (Message::RangeMismatch { lo: s, hi: t }),
            )
            &&& s == t ==> {
                let numeric = match ic.kind(s) {
                    TyKind::Primitive(p) => p.numeric_kind(),
                    _ => true,
                };
                &&& numeric ==> j.ic == ic.need(ImplicitSpec::Range, s, span)
                &&& !numeric ==> j.ic == ic.error(span, (Message::RangeNotNumeric { ty: s }))
            }
        }),
{
    law_read(env, lo, a, ic);
    law_read(env, hi, b, ic);
    lemma_range(env, lo, hi, kind, span, ic);
}

proof fn lemma_range(
    env: TyEnv,
    lo: HirExpr,
    hi: HirExpr,
    kind: RangeKind,
    span: Span,
    ic: Ic,
)
    requires
        lo.kind is Path,
        hi.kind is Path,
    ensures
        ({
            let range = HirRange { lo: Some(lo), hi: Some(hi), kind };
            let expr = expr_of(HirExprKind::Range(Box::new(range)), span);
            let e = for_element_rule(env, expr, ic);
            let j = synth_expr_rule(env, expr, ic);
            let l = synth_expr_rule(env, lo, ic);
            let h = synth_expr_rule(l.env, hi, l.ic);
            l.ty != TyId::Error && h.ty != TyId::Error ==> {
                &&& e.env == h.env && j.env == h.env
                &&& l.ty == h.ty ==> {
                    &&& e.ty == l.ty && e.ic == h.ic
                    &&& j.ty == range_of(l.ty, h.ic, span).ty
                    &&& j.ic == range_of(l.ty, h.ic, span).ic
                }
                &&& l.ty != h.ty ==> {
                    &&& e.ty == TyId::Error && j.ty == TyId::Error
                    &&& e.ic == h.ic.error(span, (Message::ForRangeMismatch { lo: l.ty, hi: h.ty }))
                    &&& j.ic == h.ic.error(span, (Message::RangeMismatch { lo: l.ty, hi: h.ty }))
                }
            }
        }),
{
    reveal(for_element_rule);
    reveal(endpoints_rule);
    reveal(synth_expr_rule);
    reveal(synth_operation_rule);
    reveal(synth_range_rule);
    let range = HirRange { lo: Some(lo), hi: Some(hi), kind };
    let expr = expr_of(HirExprKind::Range(Box::new(range)), span);
    assert(!int_literal(lo) && !int_literal(hi));
    let p = endpoints_rule(env, range, ic);
    let r = synth_range_rule(env, range, ic, span);
    assert(synth_expr_rule(env, expr, ic) == synth_operation_rule(env, expr, ic));
}

/// A `for` has the unit type; its body sees the element under its name, valid
/// and of the element type; after it everything is as it was before the first
/// round, and a change of state in the body is reported as on re-entry.
pub proof fn law_for(
    env: TyEnv,
    ident: Ident,
    iter: HirExpr,
    body: HirBlock,
    at: Span,
    span: Span,
    ic: Ic,
)
    ensures
        ({
            let e = for_element_rule(env, iter, ic);
            let inside = e.env.entered().with(
                Bound {
                    name: ident.name,
                    ty: e.ty,
                    state: BindingState::Valid,
                    mutable: true,
                },
            );
            let b = synth_block_rule(inside, body, e.ic);
            let node = HirFor { pat: name_pat(ident, at), iter, body };
            let j = synth_expr_rule(env, expr_of(HirExprKind::For(Box::new(node)), span), ic);
            &&& j.ty == TyId::Prim(Primitive::Unit)
            &&& j.env == e.env
            &&& j.ic == reentry(b.env.exited(), e.env, b.ic, body.span)
        }),
{
    reveal(synth_expr_rule);
    reveal(synth_control_rule);
    reveal(synth_for_rule);
    reveal(for_element_rule);
    reveal(bind_pat_rule);
    reveal(synth_block_rule);
    let node = HirFor { pat: name_pat(ident, at), iter, body };
    let expr = expr_of(HirExprKind::For(Box::new(node)), span);
    assert(synth_expr_rule(env, expr, ic) == synth_control_rule(env, expr, ic));
    let f = synth_for_rule(env, node, ic);
}

} // verus!
