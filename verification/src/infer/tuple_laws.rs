//! Laws of tuples.

use vstd::prelude::*;

use super::comp::tuple::{synth_exprs_rule, synth_tuple_index_rule, synth_tuple_rule};
use super::cx::Ic;
use super::diverge_laws::expr_of;
use super::env::TyEnv;
use super::expr::{synth_expr_rule, synth_operation_rule};
use crate::diag::Message;
use crate::hir::{HirExpr, HirExprKind, HirTupleIndex};
use crate::list::List;
use crate::span::Span;
use crate::ty::{law_ty_intern, TyId, TyKind};

verus! {

/// A pair has a tuple type of the types of its two parts.
pub proof fn law_pair(env: TyEnv, first: HirExpr, second: HirExpr, span: Span, ic: Ic)
    ensures
        ({
            let elems = List::Cons(
                Box::new(first),
                Box::new(List::Cons(Box::new(second), Box::new(List::Nil))),
            );
            let a = synth_expr_rule(env, first, ic);
            let b = synth_expr_rule(a.env, second, a.ic);
            let j = synth_expr_rule(env, expr_of(HirExprKind::Tuple(elems), span), ic);
            &&& b.ic.tys.len() < usize::MAX ==> j.ic.kind(j.ty) == TyKind::Tuple(
                List::Cons(
                    Box::new(a.ty),
                    Box::new(List::Cons(Box::new(b.ty), Box::new(List::Nil))),
                ),
            )
            &&& j.env == b.env
            &&& j.ic.diags == b.ic.diags
            &&& j.ic.row == b.ic.row
        }),
{
    let none: List<HirExpr> = List::Nil;
    let tail = List::Cons(Box::new(second), Box::new(none));
    let elems = List::Cons(Box::new(first), Box::new(tail));
    assert(none.length() == 0);
    assert(tail.length() == 1);
    assert(elems.length() == 2);
    lemma_two(env, first, second, ic);
    lemma_tuple(env, elems, span, ic);
    let a = synth_expr_rule(env, first, ic);
    let b = synth_expr_rule(a.env, second, a.ic);
    if b.ic.tys.len() < usize::MAX {
        law_ty_intern(b.ic.tys, TyKind::Tuple(synth_exprs_rule(env, elems, ic).1), a.ty);
    }
}

proof fn lemma_tuple(env: TyEnv, elems: List<HirExpr>, span: Span, ic: Ic)
    requires
        elems.length() >= 2,
    ensures
        ({
            let j = synth_expr_rule(env, expr_of(HirExprKind::Tuple(elems), span), ic);
            let (w, tys) = synth_exprs_rule(env, elems, ic);
            &&& j.env == w.env
            &&& j.ic == w.ic.stored(TyKind::Tuple(tys))
            &&& j.ty == w.ic.handle(TyKind::Tuple(tys))
        }),
{
    reveal(synth_expr_rule);
    reveal(synth_operation_rule);
    reveal(synth_tuple_rule);
    reveal(synth_exprs_rule);
    let expr = expr_of(HirExprKind::Tuple(elems), span);
    assert(synth_expr_rule(env, expr, ic) == synth_operation_rule(env, expr, ic));
    let t = synth_tuple_rule(env, elems, ic, span);
}

proof fn lemma_two(env: TyEnv, first: HirExpr, second: HirExpr, ic: Ic)
    ensures
        ({
            let elems = List::Cons(
                Box::new(first),
                Box::new(List::Cons(Box::new(second), Box::new(List::Nil))),
            );
            let a = synth_expr_rule(env, first, ic);
            let b = synth_expr_rule(a.env, second, a.ic);
            let (w, tys) = synth_exprs_rule(env, elems, ic);
            &&& w.env == b.env
            &&& w.ic == b.ic
            &&& tys == List::Cons(
                Box::new(a.ty),
                Box::new(List::Cons(Box::new(b.ty), Box::new(List::Nil))),
            )
        }),
{
    let none: List<HirExpr> = List::Nil;
    let tail = List::Cons(Box::new(second), Box::new(none));
    let a = synth_expr_rule(env, first, ic);
    let b = synth_expr_rule(a.env, second, a.ic);
    reveal(synth_exprs_rule);
    reveal(synth_expr_rule);
    let w0 = synth_exprs_rule(b.env, none, b.ic);
    let w1 = synth_exprs_rule(a.env, tail, a.ic);
    assert(w1.1 == List::Cons(Box::new(b.ty), Box::new(List::<TyId>::Nil)));
}

/// A place of a tuple has the type of that place; a place that it does not have
/// is reported.
pub proof fn law_tuple_place(
    env: TyEnv,
    receiver: HirExpr,
    elems: List<TyId>,
    index: u32,
    span: Span,
    ic: Ic,
)
    requires
        ({
            let r = synth_expr_rule(env, receiver, ic);
            r.ty != TyId::Error && r.ic.kind(r.ty) == TyKind::Tuple(elems)
        }),
    ensures
        ({
            let r = synth_expr_rule(env, receiver, ic);
            let node = HirTupleIndex { receiver, index };
            let j = synth_expr_rule(env, expr_of(HirExprKind::TupleIndex(Box::new(node)), span), ic);
            &&& j.env == r.env
            &&& elems.nth(index as nat) matches Some(t) ==> j.ty == t && j.ic == r.ic
            &&& elems.nth(index as nat) is None ==> j.ty == TyId::Error && j.ic == r.ic.error(
                span,
                (Message::TupleIndexOut { index, ty: r.ty, len: elems.length() }),
            )
        }),
{
    reveal(synth_expr_rule);
    reveal(synth_operation_rule);
    reveal(synth_tuple_index_rule);
    let node = HirTupleIndex { receiver, index };
    let expr = expr_of(HirExprKind::TupleIndex(Box::new(node)), span);
    assert(synth_expr_rule(env, expr, ic) == synth_operation_rule(env, expr, ic));
    let t = synth_tuple_index_rule(env, node, ic, span);
}

} // verus!
