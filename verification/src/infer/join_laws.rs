//! Laws of the states where paths meet.

use vstd::prelude::*;

use super::arm_laws::{lemma_first_arm, lemma_match, lemma_no_arm, match_of};
use super::ctrl::branch::{arm_rule, arms_rule, exhaustiveness, post_with, types_joined};
use super::ctrl::exits::exits;
use super::cx::Ic;
use super::env::{frame_find, frame_join, frames_find, frames_join, Bound, TyEnv};
use super::env_laws::{aligned, frame_aligned, frames_aligned, law_join};
use super::expr::synth_expr_rule;
use super::mode::lattice::{law_below, law_glb_greatest, law_join_is_meet, BindingState};
use super::path::typed;
use crate::hir::{HirExpr, HirMatchArm};
use crate::intern::Symbol;
use crate::list::List;
use crate::span::Span;
use crate::ty::TyId;

verus! {

/// Where an arm of a match ends: whether it always leaves the function, and
/// the states at its end.
pub struct End {
    /// Whether the arm always leaves the function.
    pub exits: bool,
    /// The states.
    pub env: TyEnv,
}

/// The ends of the arms of a match. Every arm starts with the states that the
/// match was entered with; the context goes from arm to arm.
pub open spec fn ends(
    entering: TyEnv,
    arms: List<HirMatchArm>,
    scrut_ty: TyId,
    ty: Option<TyId>,
    ic: Ic,
    span: Span,
) -> List<End>
    decreases arms,
{
    match arms {
        List::Nil => List::Nil,
        List::Cons(arm, rest) => {
            let a = arm_rule(entering, *arm, scrut_ty, None, ic);
            let t = match ty {
                None => typed(a.ic, a.ty),
                Some(before) => types_joined(before, a.ty, a.ic, span),
            };
            List::Cons(
                Box::new(End { exits: exits(a.node.body), env: a.env }),
                Box::new(ends(entering, *rest, scrut_ty, Some(t.ty), t.ic, span)),
            )
        },
    }
}

/// Whether every end has the bindings of `env`.
pub open spec fn all_aligned(env: TyEnv, list: List<End>) -> bool
    decreases list,
{
    match list {
        List::Nil => true,
        List::Cons(end, rest) => aligned(env, end.env) && all_aligned(env, *rest),
    }
}

/// Whether `end` is one of the ends that reach the join.
pub open spec fn reaches_join(list: List<End>, end: TyEnv) -> bool
    decreases list,
{
    match list {
        List::Nil => false,
        List::Cons(head, rest) => (!head.exits && head.env == end) || reaches_join(*rest, end),
    }
}

/// Whether the state of `x` in `low` is at most that in `high`.
pub open spec fn at_most(low: TyEnv, high: TyEnv, x: Symbol) -> bool {
    match (low.state_of(x), high.state_of(x)) {
        (Some(a), Some(b)) => a@.below(b@),
        (None, None) => true,
        _ => false,
    }
}

/// Whether `x` is valid at every end that reaches the join.
pub open spec fn valid_at_all(list: List<End>, x: Symbol) -> bool {
    forall|end: TyEnv| #[trigger]
        reaches_join(list, end) ==> end.state_of(x) == Some(BindingState::Valid)
}

pub(crate) proof fn lemma_aligned(a: TyEnv, b: TyEnv, c: TyEnv, x: Symbol)
    requires
        aligned(a, b),
    ensures
        aligned(b, a),
        aligned(a, c) ==> aligned(b, c),
        aligned(a, b.joined(c)),
        a.state_of(x) is Some <==> b.state_of(x) is Some,
{
    lemma_frames(a.outer, b.outer, c.outer, x);
    lemma_frame(a.top, b.top, c.top, x);
}

proof fn lemma_frame(
    a: List<Bound>,
    b: List<Bound>,
    c: List<Bound>,
    x: Symbol,
)
    requires
        frame_aligned(a, b),
    ensures
        frame_aligned(b, a),
        frame_aligned(a, c) ==> frame_aligned(b, c),
        frame_aligned(a, frame_join(b, c)),
        frame_find(a, x) is Some <==> frame_find(b, x) is Some,
    decreases a,
{
    lemma_frame_join(b, c);
    match (a, b) {
        (List::Cons(_, s), List::Cons(_, t)) => {
            match c {
                List::Cons(_, u) => lemma_frame(*s, *t, *u, x),
                List::Nil => lemma_frame(*s, *t, c, x),
            }
            lemma_frame(*s, *t, c, x);
        },
        _ => {},
    }
}

proof fn lemma_frame_join(b: List<Bound>, c: List<Bound>)
    ensures
        frame_aligned(b, frame_join(b, c)),
    decreases b,
{
    match b {
        List::Nil => {},
        List::Cons(_, rest) => lemma_frame_join(*rest, c),
    }
}

proof fn lemma_frame_trans(
    a: List<Bound>,
    b: List<Bound>,
    c: List<Bound>,
)
    requires
        frame_aligned(a, b),
        frame_aligned(b, c),
    ensures
        frame_aligned(a, c),
    decreases a,
{
    match (a, b, c) {
        (List::Cons(_, s), List::Cons(_, t), List::Cons(_, u)) => lemma_frame_trans(*s, *t, *u),
        _ => {},
    }
}

proof fn lemma_frames(
    a: List<List<Bound>>,
    b: List<List<Bound>>,
    c: List<List<Bound>>,
    x: Symbol,
)
    requires
        frames_aligned(a, b),
    ensures
        frames_aligned(b, a),
        frames_aligned(a, c) ==> frames_aligned(b, c),
        frames_aligned(a, frames_join(b, c)),
        frames_find(a, x) is Some <==> frames_find(b, x) is Some,
    decreases a,
{
    match (a, b) {
        (List::Cons(f, s), List::Cons(g, t)) => match c {
            List::Cons(h, u) => {
                lemma_frame(*f, *g, *h, x);
                lemma_frames(*s, *t, *u, x);
            },
            List::Nil => {
                lemma_frame(*f, *g, List::Nil, x);
                lemma_frames(*s, *t, c, x);
            },
        },
        _ => {},
    }
}

/// A join is at most either side, and valid where both are.
pub(crate) proof fn lemma_join(a: TyEnv, b: TyEnv, x: Symbol)
    requires
        aligned(a, b),
    ensures
        at_most(a.joined(b), a, x),
        at_most(a.joined(b), b, x),
        a.joined(b).state_of(x) == Some(BindingState::Valid) <==> a.state_of(x) == Some(
            BindingState::Valid,
        ) && b.state_of(x) == Some(BindingState::Valid),
{
    law_join(a, b, x);
    lemma_aligned(a, b, b, x);
    match (a.state_of(x), b.state_of(x)) {
        (Some(s), Some(t)) => {
            law_join_is_meet(s, t);
            law_glb_greatest(s@, t@, s@);
        },
        _ => {},
    }
}

proof fn lemma_at_most(a: TyEnv, b: TyEnv, c: TyEnv, x: Symbol)
    ensures
        at_most(a, b, x) && at_most(b, c, x) ==> at_most(a, c, x),
        at_most(a, a, x),
{
    match (a.state_of(x), b.state_of(x), c.state_of(x)) {
        (Some(s), Some(t), Some(u)) => law_below(s@, t@, u@),
        (Some(s), _, _) => law_below(s@, s@, s@),
        _ => {},
    }
}

proof fn lemma_valid(head: End, rest: List<End>, x: Symbol)
    ensures
        valid_at_all(List::Cons(Box::new(head), Box::new(rest)), x) <==> valid_at_all(rest, x) && (
        !head.exits ==> head.env.state_of(x) == Some(BindingState::Valid)),
{
    let all = List::Cons(Box::new(head), Box::new(rest));
    assert forall|end: TyEnv| #[trigger] reaches_join(rest, end) implies reaches_join(all, end) by {}
    assert(reaches_join(all, head.env) || head.exits);
    assert forall|end: TyEnv| #[trigger] reaches_join(all, end) implies reaches_join(rest, end) || (
    !head.exits && head.env == end) by {}
}

proof fn lemma_arms(
    entering: TyEnv,
    arms: List<HirMatchArm>,
    scrut_ty: TyId,
    post: Option<TyEnv>,
    ty: Option<TyId>,
    ic: Ic,
    span: Span,
    x: Symbol,
)
    requires
        all_aligned(entering, ends(entering, arms, scrut_ty, ty, ic, span)),
        post matches Some(p) ==> aligned(entering, p),
    ensures
        ({
            let all = ends(entering, arms, scrut_ty, ty, ic, span);
            let r = arms_rule(entering, arms, scrut_ty, None, post, ty, ic, span);
            &&& r.post matches Some(q) ==> {
                &&& aligned(entering, q)
                &&& post matches Some(p) ==> at_most(q, p, x)
                &&& forall|end: TyEnv| #[trigger] reaches_join(all, end) ==> at_most(q, end, x)
                &&& q.state_of(x) == Some(BindingState::Valid) <==> valid_at_all(all, x) && (
                post matches Some(p) ==> p.state_of(x) == Some(BindingState::Valid))
            }
            &&& r.post is None ==> post is None && forall|end: TyEnv| !(#[trigger] reaches_join(
                all,
                end,
            ))
        }),
    decreases arms,
{
    let all = ends(entering, arms, scrut_ty, ty, ic, span);
    match arms {
        List::Nil => {
            lemma_no_arm(entering, scrut_ty, post, ty, ic, span);
            match post {
                Some(p) => lemma_at_most(p, p, p, x),
                None => {},
            }
        },
        List::Cons(arm, rest) => {
            let a = arm_rule(entering, *arm, scrut_ty, None, ic);
            let t = match ty {
                None => typed(a.ic, a.ty),
                Some(before) => types_joined(before, a.ty, a.ic, span),
            };
            let next = post_with(post, a);
            lemma_first_arm(entering, *arm, *rest, scrut_ty, post, ty, ic, span);
            let others = ends(entering, *rest, scrut_ty, Some(t.ty), t.ic, span);
            match post {
                Some(p) => {
                    if !exits(a.node.body) {
                        lemma_aligned(entering, p, a.env, x);
                        lemma_join(p, a.env, x);
                    }
                },
                None => {},
            }
            lemma_valid(End { exits: exits(a.node.body), env: a.env }, others, x);
            lemma_arms(entering, *rest, scrut_ty, next, Some(t.ty), t.ic, span, x);
            let r = arms_rule(entering, *rest, scrut_ty, None, next, Some(t.ty), t.ic, span);
            let whole = arms_rule(entering, arms, scrut_ty, None, post, ty, ic, span);
            assert(whole.post == r.post);
            assert(reaches_join(all, a.env) || exits(a.node.body));
            match r.post {
                Some(q) => {
                    match next {
                        Some(n) => {
                            lemma_at_most(q, n, a.env, x);
                            lemma_at_most(n, n, n, x);
                            match post {
                                Some(p) => lemma_at_most(q, n, p, x),
                                None => {},
                            }
                        },
                        None => {},
                    }
                    assert forall|end: TyEnv| #[trigger] reaches_join(all, end) implies at_most(
                        q,
                        end,
                        x,
                    ) by {
                        assert(reaches_join(others, end) || (!exits(a.node.body) && a.env == end));
                    }
                },
                None => {
                    assert forall|end: TyEnv| !(#[trigger] reaches_join(all, end)) by {
                        assert(!reaches_join(others, end));
                    }
                },
            }
        },
    }
}

/// After a match the state of every name is at most its state at the end of
/// each arm that does not always leave the function, and a name is valid
/// exactly where it is valid at the end of every such arm. Where all arms
/// leave, the states are those that the match was entered with.
pub proof fn law_match_joins(
    env: TyEnv,
    scrutinee: HirExpr,
    arms: List<HirMatchArm>,
    span: Span,
    ic: Ic,
    x: Symbol,
)
    requires
        ({
            let s = synth_expr_rule(env, scrutinee, ic);
            let start = exhaustiveness(s.node, arms, s.ic);
            all_aligned(s.env, ends(s.env, arms, s.ty, None, start, span))
        }),
    ensures
        ({
            let s = synth_expr_rule(env, scrutinee, ic);
            let start = exhaustiveness(s.node, arms, s.ic);
            let all = ends(s.env, arms, s.ty, None, start, span);
            let j = synth_expr_rule(env, match_of(scrutinee, arms, span), ic);
            let joins = exists|end: TyEnv| reaches_join(all, end);
            &&& forall|end: TyEnv| #[trigger] reaches_join(all, end) ==> at_most(j.env, end, x)
            &&& joins ==> (j.env.state_of(x) == Some(BindingState::Valid) <==> valid_at_all(all, x))
            &&& !joins ==> j.env == s.env
        }),
{
    let s = synth_expr_rule(env, scrutinee, ic);
    let start = exhaustiveness(s.node, arms, s.ic);
    lemma_match(env, scrutinee, arms, span, ic);
    lemma_arms(s.env, arms, s.ty, None, None, start, span, x);
    let r = arms_rule(s.env, arms, s.ty, None, None, None, start, span);
    lemma_post(s.env, arms, s.ty, None, None, start, span);
}

proof fn lemma_post(
    entering: TyEnv,
    arms: List<HirMatchArm>,
    scrut_ty: TyId,
    post: Option<TyEnv>,
    ty: Option<TyId>,
    ic: Ic,
    span: Span,
)
    ensures
        ({
            let all = ends(entering, arms, scrut_ty, ty, ic, span);
            let r = arms_rule(entering, arms, scrut_ty, None, post, ty, ic, span);
            r.post is Some && post is None ==> exists|end: TyEnv| reaches_join(all, end)
        }),
    decreases arms,
{
    match arms {
        List::Nil => lemma_no_arm(entering, scrut_ty, post, ty, ic, span),
        List::Cons(arm, rest) => {
            let a = arm_rule(entering, *arm, scrut_ty, None, ic);
            let t = match ty {
                None => typed(a.ic, a.ty),
                Some(before) => types_joined(before, a.ty, a.ic, span),
            };
            let next = post_with(post, a);
            lemma_first_arm(entering, *arm, *rest, scrut_ty, post, ty, ic, span);
            let all = ends(entering, arms, scrut_ty, ty, ic, span);
            let others = ends(entering, *rest, scrut_ty, Some(t.ty), t.ic, span);
            lemma_post(entering, *rest, scrut_ty, next, Some(t.ty), t.ic, span);
            let r = arms_rule(entering, *rest, scrut_ty, None, next, Some(t.ty), t.ic, span);
            if !exits(a.node.body) {
                assert(reaches_join(all, a.env));
            } else if r.post is Some && post is None {
                let end = choose|end: TyEnv| reaches_join(others, end);
                assert(reaches_join(all, end));
            }
        },
    }
}

} // verus!
