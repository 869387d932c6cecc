//! Laws of slices.

use vstd::prelude::*;

use super::comp::array::{check_all_rule, synth_array_rule};
use super::comp::index::synth_index_rule;
use super::cx::Ic;
use super::diverge_laws::expr_of;
use super::env::TyEnv;
use super::expr::{check_expr_rule, synth_expr_rule, synth_operation_rule};
use crate::diag::Message;
use crate::hir::{HirExpr, HirExprKind, HirIndex};
use crate::list::List;
use crate::prim::Primitive;
use crate::span::Span;
use crate::ty::{law_ty_intern, TyId, TyKind};

verus! {

/// An element of a slice has the element type, at an index of type `usize`;
/// what is not a slice has no elements.
pub proof fn law_index(env: TyEnv, receiver: HirExpr, index: HirExpr, span: Span, ic: Ic)
    requires
        !(index.kind is Range),
        synth_expr_rule(env, receiver, ic).ty != TyId::Error,
    ensures
        ({
            let r = synth_expr_rule(env, receiver, ic);
            let i = check_expr_rule(r.env, index, TyId::Prim(Primitive::Usize), r.ic);
            let node = HirIndex { receiver, index };
            let j = synth_expr_rule(env, expr_of(HirExprKind::Index(Box::new(node)), span), ic);
            &&& j.env == i.env
            &&& i.ic.kind(r.ty) matches TyKind::Slice(elem) ==> j.ty == elem && j.ic == i.ic
            &&& !(i.ic.kind(r.ty) is Slice) ==> j.ty == TyId::Error && j.ic == i.ic.error(
                span,
                (Message::IndexNotSlice { ty: r.ty }),
            )
        }),
{
    reveal(synth_expr_rule);
    reveal(synth_operation_rule);
    reveal(synth_index_rule);
    reveal(check_expr_rule);
    let node = HirIndex { receiver, index };
    let expr = expr_of(HirExprKind::Index(Box::new(node)), span);
    assert(synth_expr_rule(env, expr, ic) == synth_operation_rule(env, expr, ic));
    let t = synth_index_rule(env, node, ic, span);
}

/// An array of one element is a slice of its type.
pub proof fn law_array(env: TyEnv, first: HirExpr, span: Span, ic: Ic)
    ensures
        ({
            let elems = List::Cons(Box::new(first), Box::new(List::Nil));
            let a = synth_expr_rule(env, first, ic);
            let j = synth_expr_rule(env, expr_of(HirExprKind::Array(elems), span), ic);
            &&& j.env == a.env
            &&& j.ic.diags == a.ic.diags
            &&& a.ty == TyId::Error ==> j.ty == TyId::Error
            &&& a.ty != TyId::Error && a.ic.tys.len() < usize::MAX ==> j.ic.kind(j.ty)
                == TyKind::Slice(a.ty)
        }),
{
    let none: List<HirExpr> = List::Nil;
    let elems = List::Cons(Box::new(first), Box::new(none));
    reveal(synth_expr_rule);
    reveal(synth_operation_rule);
    reveal(synth_array_rule);
    reveal(check_all_rule);
    let expr = expr_of(HirExprKind::Array(elems), span);
    assert(synth_expr_rule(env, expr, ic) == synth_operation_rule(env, expr, ic));
    let t = synth_array_rule(env, elems, ic, span);
    let a = synth_expr_rule(env, first, ic);
    let w = check_all_rule(a.env, none, a.ty, a.ic);
    if a.ic.tys.len() < usize::MAX {
        law_ty_intern(a.ic.tys, TyKind::Slice(a.ty), a.ty);
    }
}

} // verus!
