//! Laws of expressions that hand the expected type on to their parts.

use vstd::prelude::*;

use super::block::{check_block_rule, infer_stmts_rule};
use super::comp::array::{check_all_rule, check_array_rule};
use super::comp::tuple::{check_each_rule, check_tuple_rule};
use super::cx::Ic;
use super::diverge_laws::expr_of;
use super::env::TyEnv;
use super::expr::check_expr_rule;
use super::mode::linear::{frame_leaks, moved_out};
use super::path::bridge;
use crate::diag::Message;
use crate::hir::{HirBlock, HirExpr, HirExprKind};
use crate::list::List;
use crate::prim::Primitive;
use crate::span::Span;
use crate::ty::{TyId, TyKind};

verus! {

/// A pair where a pair is expected: each place is held against its type, the
/// second in what the first left.
pub proof fn law_expected_pair(
    env: TyEnv,
    first: HirExpr,
    second: HirExpr,
    a: TyId,
    b: TyId,
    expected: TyId,
    span: Span,
    ic: Ic,
)
    requires
        ic.kind(expected) == TyKind::Tuple(
            List::Cons(Box::new(a), Box::new(List::Cons(Box::new(b), Box::new(List::Nil)))),
        ),
    ensures
        ({
            let elems = List::Cons(
                Box::new(first),
                Box::new(List::Cons(Box::new(second), Box::new(List::Nil))),
            );
            let p = check_expr_rule(env, first, a, ic);
            let q = check_expr_rule(p.env, second, b, p.ic);
            let j = check_expr_rule(env, expr_of(HirExprKind::Tuple(elems), span), expected, ic);
            j.env == q.env && j.ic == q.ic && j.ty == expected
        }),
{
    let elems = List::Cons(
        Box::new(first),
        Box::new(List::Cons(Box::new(second), Box::new(List::Nil))),
    );
    let tys = List::Cons(Box::new(a), Box::new(List::Cons(Box::new(b), Box::new(List::Nil))));
    lemma_counts(first, second, a, b);
    lemma_each(env, first, second, a, b, ic);
    lemma_tuple(env, elems, tys, expected, span, ic);
}

proof fn lemma_counts(first: HirExpr, second: HirExpr, a: TyId, b: TyId)
    ensures
        ({
            let elems = List::Cons(
                Box::new(first),
                Box::new(List::Cons(Box::new(second), Box::new(List::Nil))),
            );
            let tys = List::Cons(
                Box::new(a),
                Box::new(List::Cons(Box::new(b), Box::new(List::Nil))),
            );
            elems.length() == 2 && tys.length() == 2
        }),
{
    let none: List<HirExpr> = List::Nil;
    let no_tys: List<TyId> = List::Nil;
    assert(none.length() == 0 && no_tys.length() == 0);
    let one = List::Cons(Box::new(second), Box::new(none));
    let one_ty = List::Cons(Box::new(b), Box::new(no_tys));
    assert(one.length() == 1 && one_ty.length() == 1);
}

proof fn lemma_each(env: TyEnv, first: HirExpr, second: HirExpr, a: TyId, b: TyId, ic: Ic)
    ensures
        ({
            let elems = List::Cons(
                Box::new(first),
                Box::new(List::Cons(Box::new(second), Box::new(List::Nil))),
            );
            let tys = List::Cons(
                Box::new(a),
                Box::new(List::Cons(Box::new(b), Box::new(List::Nil))),
            );
            let p = check_expr_rule(env, first, a, ic);
            let q = check_expr_rule(p.env, second, b, p.ic);
            let w = check_each_rule(env, elems, tys, ic);
            w.env == q.env && w.ic == q.ic
        }),
{
    reveal(check_each_rule);
    reveal(check_expr_rule);
    let none: List<HirExpr> = List::Nil;
    let no_tys: List<TyId> = List::Nil;
    let one = List::Cons(Box::new(second), Box::new(none));
    let one_ty = List::Cons(Box::new(b), Box::new(no_tys));
    let p = check_expr_rule(env, first, a, ic);
    let q = check_expr_rule(p.env, second, b, p.ic);
    let w0 = check_each_rule(q.env, none, no_tys, q.ic);
    let w1 = check_each_rule(p.env, one, one_ty, p.ic);
    assert(w1.env == q.env && w1.ic == q.ic);
}

proof fn lemma_tuple(
    env: TyEnv,
    elems: List<HirExpr>,
    tys: List<TyId>,
    expected: TyId,
    span: Span,
    ic: Ic,
)
    requires
        ic.kind(expected) == TyKind::Tuple(tys),
        tys.length() == elems.length(),
    ensures
        ({
            let w = check_each_rule(env, elems, tys, ic);
            let j = check_expr_rule(env, expr_of(HirExprKind::Tuple(elems), span), expected, ic);
            j.env == w.env && j.ic == w.ic && j.ty == expected
        }),
{
    reveal(check_expr_rule);
    reveal(check_tuple_rule);
    reveal(check_each_rule);
    let t = check_tuple_rule(env, elems, expected, ic, span);
}

/// The elements of a list where a slice is expected are held against the
/// element type, in order; the list has the expected type.
pub proof fn law_expected_list(
    env: TyEnv,
    elems: List<HirExpr>,
    elem: TyId,
    expected: TyId,
    span: Span,
    ic: Ic,
)
    requires
        ic.kind(expected) == TyKind::Slice(elem),
    ensures
        ({
            let j = check_expr_rule(env, expr_of(HirExprKind::Array(elems), span), expected, ic);
            &&& j.ty == expected
            &&& elems == List::<HirExpr>::Nil ==> j.env == env && j.ic == ic
            &&& elems matches List::Cons(first, rest) ==> {
                let p = check_expr_rule(env, *first, elem, ic);
                let others = check_all_rule(p.env, *rest, elem, p.ic);
                j.env == others.env && j.ic == others.ic
            }
        }),
{
    reveal(check_expr_rule);
    reveal(check_array_rule);
    reveal(check_all_rule);
    let a = check_array_rule(env, elems, expected, ic, span);
    let w = check_all_rule(env, elems, elem, ic);
}

/// A block where a type is expected holds its last expression against that
/// type; one without a last expression has the unit type.
pub proof fn law_expected_block(env: TyEnv, block: HirBlock, expected: TyId, span: Span, ic: Ic)
    ensures
        ({
            let s = infer_stmts_rule(env.entered(), block.stmts, ic);
            let expr = expr_of(HirExprKind::Block(Box::new(block)), span);
            let j = check_expr_rule(env, expr, expected, ic);
            match block.trailing {
                Some(e) => {
                    let t = check_expr_rule(s.env, e, expected, s.ic);
                    let end = moved_out(t.env, t.node, t.ic);
                    &&& j.ty == t.ty
                    &&& j.env == end.exited()
                    &&& j.ic == frame_leaks(end, block.span, t.ic)
                },
                None => {
                    &&& j.env == s.env.exited()
                    &&& expected == TyId::Prim(Primitive::Unit) ==> j.ty == expected && j.ic
                        == frame_leaks(s.env, block.span, s.ic)
                    &&& expected != TyId::Prim(Primitive::Unit) && expected != TyId::Error ==> j.ty
                        == TyId::Error && j.ic == frame_leaks(
                        s.env,
                        block.span,
                        s.ic.error(
                            block.span,
                            Message::TypeMismatch {
                                expected,
                                found: TyId::Prim(Primitive::Unit),
                            },
                        ),
                    )
                },
            }
        }),
{
    reveal(check_expr_rule);
    reveal(check_block_rule);
    reveal(infer_stmts_rule);
    reveal(bridge);
    let b = check_block_rule(env, block, expected, ic);
}

} // verus!
