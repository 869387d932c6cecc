//! Loops over ranges and slices.

use vstd::prelude::*;

use super::block::{synth_block, synth_block_rule};
use super::comp::range::{endpoints_rule, infer_endpoints, Endpoints};
use super::cx::{group_grown, Ic, InferCx};
use super::env::TyEnv;
use super::expr::{synth_expr, synth_expr_rule};
use super::judge::{judged, sound, Judged};
use super::mode::lattice::BindingState;
use super::mode::transitions::{check_loop_reentry, reentry};
use super::pat::{bind_pat, bind_pat_rule};
use super::path::{failed, typed, Typed};
use crate::diag::Message;
use crate::hir::{HirExpr, HirExprKind, HirFor};
use crate::prim::Primitive;
use crate::span::Span;
use crate::ty::{TyId, TyKind};

verus! {

broadcast use group_grown;

/// The element type of a range that is walked: both endpoints have it.
pub open spec fn range_element(e: Endpoints, ic: Ic, span: Span) -> Typed {
    if e.lo == TyId::Error || e.hi == TyId::Error {
        typed(ic, TyId::Error)
    } else if e.lo != e.hi {
        failed(ic, span, Message::ForRangeMismatch { lo: e.lo, hi: e.hi })
    } else {
        typed(ic, e.lo)
    }
}

/// The element type of what a `for` walks: a range with both endpoints, or a
/// slice. A range that lacks an endpoint has no type of its own, and is
/// reported here.
#[verifier::opaque]
pub open spec fn for_element_rule(env: TyEnv, iter: HirExpr, ic: Ic) -> Judged<HirExpr>
    decreases iter, 3nat,
{
    match iter.kind {
        HirExprKind::Range(range) if range.lo is Some && range.hi is Some => {
            let (j, e) = endpoints_rule(env, *range, ic);
            let t = match e {
                Some(e) => range_element(e, j.ic, iter.span),
                None => typed(j.ic, j.ty),
            };
            judged(
                j.env,
                t.ic,
                HirExpr { kind: HirExprKind::Range(Box::new(j.node)), ..iter },
                t.ty,
            )
        },
        _ => {
            let j = synth_expr_rule(env, iter, ic);
            match j.ic.kind(j.ty) {
                TyKind::Slice(elem) => judged(j.env, j.ic, j.node, elem),
                _ => if j.ty == TyId::Error && !(iter.kind is Range) {
                    j
                } else {
                    judged(
                        j.env,
                        j.ic.error(iter.span, Message::ForNotIterable { ty: j.ty }),
                        j.node,
                        TyId::Error,
                    )
                },
            }
        },
    }
}

/// A `for`: the pattern is bound in a frame of its own; the states afterwards
/// are those before the body.
#[verifier::opaque]
pub open spec fn synth_for_rule(env: TyEnv, node: HirFor, ic: Ic) -> Judged<HirFor>
    decreases node, 0nat,
{
    let e = for_element_rule(env, node.iter, ic);
    let p = bind_pat_rule(e.env.entered(), node.pat, e.ty, BindingState::Valid, true, e.ic);
    let b = synth_block_rule(p.env, node.body, p.ic);
    judged(
        e.env,
        reentry(b.env.exited(), e.env, b.ic, node.body.span),
        HirFor { pat: p.node, iter: e.node, body: b.node },
        TyId::Prim(Primitive::Unit),
    )
}

fn synth_for_element_ty(env: &mut TyEnv, iter: &mut HirExpr, ic: &mut InferCx<'_>) -> (r: TyId)
    ensures
        judged(*final(env), final(ic)@, *final(iter), r) == for_element_rule(
            *old(env),
            *old(iter),
            old(ic)@,
        ),
        sound(*old(env), old(ic)@, *final(env), final(ic)@),
    decreases *old(iter), 3nat,
{
    proof {
        reveal(for_element_rule);
        reveal(endpoints_rule);
        reveal(synth_expr_rule);
    }
    let span = iter.span;
    let error = ic.ty_error();
    let mut open_range = false;
    match &mut iter.kind {
        HirExprKind::Range(range) => {
            if range.lo.is_some() && range.hi.is_some() {
                let (ty, both) = infer_endpoints(env, range, ic);
                return match both {
                    Some(e) => {
                        if e.lo == error || e.hi == error {
                            error
                        } else if e.lo != e.hi {
                            ic.emit_typecheck_error(
                                span,
                                Message::ForRangeMismatch { lo: e.lo, hi: e.hi },
                            );
                            error
                        } else {
                            e.lo
                        }
                    },
                    None => ty,
                };
            }
            open_range = true;
        },
        _ => {},
    }
    let iter_ty = synth_expr(env, iter, ic);
    match ic.kind(iter_ty) {
        TyKind::Slice(elem) => elem,
        _ => {
            if iter_ty != error || open_range {
                ic.emit_typecheck_error(span, Message::ForNotIterable { ty: iter_ty });
            }
            error
        },
    }
}

/// Synthesise a `for`.
pub fn synth_for(env: &mut TyEnv, node: &mut HirFor, ic: &mut InferCx<'_>) -> (r: TyId)
    ensures
        judged(*final(env), final(ic)@, *final(node), r) == synth_for_rule(
            *old(env),
            *old(node),
            old(ic)@,
        ),
        sound(*old(env), old(ic)@, *final(env), final(ic)@),
    decreases *old(node), 0nat,
{
    proof {
        reveal(synth_for_rule);
        reveal(for_element_rule);
        reveal(bind_pat_rule);
        reveal(synth_block_rule);
    }
    let element_ty = synth_for_element_ty(env, &mut node.iter, ic);
    let pre = env.dup();
    env.enter_scope();
    bind_pat(env, &mut node.pat, element_ty, ic);
    let span = node.body.span;
    synth_block(env, &mut node.body, ic);
    env.exit_scope();
    check_loop_reentry(env, &pre, ic, span);
    *env = pre;
    TyId::Prim(Primitive::Unit)
}

} // verus!
