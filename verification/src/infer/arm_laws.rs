//! What a match comes down to.

use vstd::prelude::*;

use super::ctrl::branch::{arm_rule, arms_rule, exhaustiveness, match_rule, post_with, types_joined};
use super::cx::Ic;
use super::env::TyEnv;
use super::expr::{synth_control_rule, synth_expr_rule};
use super::path::typed;
use crate::hir::{HirExpr, HirExprKind, HirMatch, HirMatchArm};
use crate::list::List;
use crate::span::Span;
use crate::ty::TyId;

verus! {

/// A match.
pub open spec fn match_of(scrutinee: HirExpr, arms: List<HirMatchArm>, span: Span) -> HirExpr {
    HirExpr {
        span,
        kind: HirExprKind::Match(Box::new(HirMatch { scrutinee, arms })),
        ty: TyId::Error,
    }
}

pub(crate) proof fn lemma_match(
    env: TyEnv,
    scrutinee: HirExpr,
    arms: List<HirMatchArm>,
    span: Span,
    ic: Ic,
)
    ensures
        ({
            let s = synth_expr_rule(env, scrutinee, ic);
            let start = exhaustiveness(s.node, arms, s.ic);
            let j = synth_expr_rule(env, match_of(scrutinee, arms, span), ic);
            let r = arms_rule(s.env, arms, s.ty, None, None, None, start, span);
            &&& j.env == match r.post {
                Some(post) => post,
                None => s.env,
            }
            &&& j.ic == r.ic
        }),
{
    reveal(synth_expr_rule);
    reveal(synth_control_rule);
    reveal(match_rule);
    reveal(arms_rule);
    let expr = match_of(scrutinee, arms, span);
    assert(synth_expr_rule(env, expr, ic) == synth_control_rule(env, expr, ic));
    let m = match_rule(env, HirMatch { scrutinee, arms }, None, ic, span);
}

/// Arms one by one: the first is walked from the states that the match was
/// entered with, and the others go on with what it left.
pub(crate) proof fn lemma_first_arm(
    entering: TyEnv,
    arm: HirMatchArm,
    rest: List<HirMatchArm>,
    scrut_ty: TyId,
    post: Option<TyEnv>,
    ty: Option<TyId>,
    ic: Ic,
    span: Span,
)
    ensures
        ({
            let arms = List::Cons(Box::new(arm), Box::new(rest));
            let a = arm_rule(entering, arm, scrut_ty, None, ic);
            let t = match ty {
                None => typed(a.ic, a.ty),
                Some(before) => types_joined(before, a.ty, a.ic, span),
            };
            let next = post_with(post, a);
            let r = arms_rule(entering, rest, scrut_ty, None, next, Some(t.ty), t.ic, span);
            let whole = arms_rule(entering, arms, scrut_ty, None, post, ty, ic, span);
            whole.post == r.post && whole.ic == r.ic && whole.ty == r.ty
        }),
{
    reveal(arms_rule);
    reveal(arm_rule);
}

pub(crate) proof fn lemma_no_arm(
    entering: TyEnv,
    scrut_ty: TyId,
    post: Option<TyEnv>,
    ty: Option<TyId>,
    ic: Ic,
    span: Span,
)
    ensures
        ({
            let r = arms_rule(entering, List::Nil, scrut_ty, None, post, ty, ic, span);
            r.post == post && r.ic == ic && r.ty == ty
        }),
{
    reveal(arms_rule);
}

} // verus!
