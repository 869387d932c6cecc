//! Branches and the join of their states and types.

use vstd::prelude::*;

use super::super::block::{check_block, check_block_rule, synth_block, synth_block_rule};
use super::super::cx::{group_grown, kept, Ic, InferCx};
use super::super::env::TyEnv;
use super::super::expr::{check_expr, check_expr_rule, synth_expr, synth_expr_rule};
use super::super::judge::{judged, sound, Judged};
use super::super::mode::lattice::BindingState;
use super::super::pat::{bind_pat, bind_pat_rule};
use super::super::path::{failed, literal_ty, synth_literal, typed, Typed};
use super::exits::{block_always_exits, block_exits, expr_always_exits, exits};
use crate::cx::VariantInfo;
use crate::diag::{DiagnosticClass, Message};
use crate::hir::{HirBlock, HirExpr, HirIf, HirMatch, HirMatchArm, HirPatKind};
use crate::intern::Symbol;
use crate::list::List;
use crate::prim::Primitive;
use crate::span::Span;
use crate::syntax::Literal;
use crate::ty::{TyId, TyKind};

verus! {

broadcast use group_grown;

/// The type of two branches together: an error is passed on, equal types
/// agree, `never` gives way to the other.
#[verifier::opaque]
pub open spec fn types_joined(a: TyId, b: TyId, ic: Ic, span: Span) -> Typed {
    let never = TyId::Prim(Primitive::Never);
    if a == TyId::Error || b == TyId::Error {
        typed(ic, TyId::Error)
    } else if a == b || b == never {
        typed(ic, a)
    } else if a == never {
        typed(ic, b)
    } else {
        failed(ic, span, Message::BranchMismatch { first: a, second: b })
    }
}

/// Join the types of two branches.
pub fn join_types(a: TyId, b: TyId, ic: &mut InferCx<'_>, span: Span) -> (r: TyId)
    ensures
        typed(final(ic)@, r) == types_joined(a, b, old(ic)@, span),
        kept(old(ic)@, final(ic)@),
{
    proof {
        reveal(types_joined);
    }
    let err = ic.ty_error();
    let never = TyId::Prim(Primitive::Never);
    if a == err || b == err {
        return err;
    }
    if a == b {
        return a;
    }
    if a == never {
        return b;
    }
    if b == never {
        return a;
    }
    ic.emit_typecheck_error(span, Message::BranchMismatch { first: a, second: b });
    err
}

/// The states where two paths join. A path that always leaves the function
/// does not reach the join, so only the other counts.
pub open spec fn paths_joined(
    first: TyEnv,
    first_exits: bool,
    second: TyEnv,
    second_exits: bool,
) -> TyEnv {
    if !first_exits && second_exits {
        first
    } else if first_exits && !second_exits {
        second
    } else {
        second.joined(first)
    }
}

/// An expression, where a type may be expected.
pub open spec fn branch_rule(env: TyEnv, expr: HirExpr, expected: Option<TyId>, ic: Ic) -> Judged<
    HirExpr,
>
    decreases expr, 3nat,
{
    match expected {
        Some(ty) => check_expr_rule(env, expr, ty, ic),
        None => synth_expr_rule(env, expr, ic),
    }
}

/// A block, where a type may be expected.
pub open spec fn branch_block_rule(env: TyEnv, block: HirBlock, expected: Option<TyId>, ic: Ic) -> Judged<
    HirBlock,
>
    decreases block, 2nat,
{
    match expected {
        Some(ty) => check_block_rule(env, block, ty, ic),
        None => synth_block_rule(env, block, ic),
    }
}

/// A conditional: both branches start from the states after the condition.
#[verifier::opaque]
pub open spec fn if_rule(env: TyEnv, node: HirIf, expected: Option<TyId>, ic: Ic, span: Span) -> Judged<
    HirIf,
>
    decreases node, 0nat,
{
    let c = check_expr_rule(env, node.cond, TyId::Prim(Primitive::Bool), ic);
    let t = branch_block_rule(c.env, node.then_block, expected, c.ic);
    match node.else_branch {
        Some(other) => {
            let e = branch_rule(c.env, other, expected, t.ic);
            let j = types_joined(t.ty, e.ty, e.ic, span);
            judged(
                paths_joined(t.env, block_exits(t.node), e.env, exits(e.node)),
                j.ic,
                HirIf { cond: c.node, then_block: t.node, else_branch: Some(e.node) },
                j.ty,
            )
        },
        None => {
            let j = types_joined(t.ty, TyId::Prim(Primitive::Unit), t.ic, span);
            judged(
                paths_joined(t.env, block_exits(t.node), c.env, false),
                j.ic,
                HirIf { cond: c.node, then_block: t.node, else_branch: None },
                j.ty,
            )
        },
    }
}

/// A literal pattern other than an integer has the type of the scrutinee.
pub open spec fn literal_pat_check(kind: HirPatKind, scrut_ty: TyId, ic: Ic) -> Ic {
    match kind {
        HirPatKind::Literal(lit) => if scrut_ty == TyId::Error || lit is Int || literal_ty(lit)
            == scrut_ty {
            ic
        } else {
            ic.error(
                Span::dummy_span(),
                Message::LiteralPatMismatch { literal: literal_ty(lit), scrutinee: scrut_ty },
            )
        },
        _ => ic,
    }
}

/// An arm of a match, from the states that the match was entered with.
#[verifier::opaque]
pub open spec fn arm_rule(
    env: TyEnv,
    arm: HirMatchArm,
    scrut_ty: TyId,
    expected: Option<TyId>,
    ic: Ic,
) -> Judged<HirMatchArm>
    decreases arm, 0nat,
{
    let p = bind_pat_rule(env.entered(), arm.pat, scrut_ty, BindingState::Valid, true, ic);
    let ic_p = literal_pat_check(p.node.kind, scrut_ty, p.ic);
    match arm.guard {
        Some(guard) => {
            let g = check_expr_rule(p.env, guard, TyId::Prim(Primitive::Bool), ic_p);
            let b = branch_rule(g.env, arm.body, expected, g.ic);
            judged(
                b.env.exited(),
                b.ic,
                HirMatchArm { span: arm.span, pat: p.node, guard: Some(g.node), body: b.node },
                b.ty,
            )
        },
        None => {
            let b = branch_rule(p.env, arm.body, expected, ic_p);
            judged(
                b.env.exited(),
                b.ic,
                HirMatchArm { span: arm.span, pat: p.node, guard: None, body: b.node },
                b.ty,
            )
        },
    }
}

/// Arms of a match: the states of the arms that reach the join, joined, the
/// type of the arms together, the context and the arms.
pub struct Arms {
    /// The joined states, once an arm reaches the join.
    pub post: Option<TyEnv>,
    /// The joined type, once there is an arm.
    pub ty: Option<TyId>,
    /// The context.
    pub ic: Ic,
    /// The arms with their types filled in.
    pub node: List<HirMatchArm>,
}

/// The joined states with those of an arm.
pub open spec fn post_with(post: Option<TyEnv>, arm: Judged<HirMatchArm>) -> Option<TyEnv> {
    if exits(arm.node.body) {
        post
    } else {
        match post {
            None => Some(arm.env),
            Some(acc) => Some(acc.joined(arm.env)),
        }
    }
}

/// Arms in order, with what the arms before them left.
#[verifier::opaque]
pub open spec fn arms_rule(
    entering: TyEnv,
    arms: List<HirMatchArm>,
    scrut_ty: TyId,
    expected: Option<TyId>,
    post: Option<TyEnv>,
    ty: Option<TyId>,
    ic: Ic,
    span: Span,
) -> Arms
    decreases arms, 0nat,
{
    match arms {
        List::Nil => Arms { post, ty, ic, node: arms },
        List::Cons(arm, rest) => {
            let a = arm_rule(entering, *arm, scrut_ty, expected, ic);
            let t = match ty {
                None => typed(a.ic, a.ty),
                Some(before) => types_joined(before, a.ty, a.ic, span),
            };
            let others = arms_rule(
                entering,
                *rest,
                scrut_ty,
                expected,
                post_with(post, a),
                Some(t.ty),
                t.ic,
                span,
            );
            Arms { node: List::Cons(Box::new(a.node), Box::new(others.node)), ..others }
        },
    }
}

/// A match.
#[verifier::opaque]
pub open spec fn match_rule(env: TyEnv, node: HirMatch, expected: Option<TyId>, ic: Ic, span: Span) -> Judged<
    HirMatch,
>
    decreases node, 0nat,
{
    let s = synth_expr_rule(env, node.scrutinee, ic);
    let checked = exhaustiveness(s.node, node.arms, s.ic);
    let a = arms_rule(s.env, node.arms, s.ty, expected, None, None, checked, span);
    judged(
        match a.post {
            Some(post) => post,
            None => s.env,
        },
        a.ic,
        HirMatch { scrutinee: s.node, arms: a.node },
        match a.ty {
            Some(ty) => ty,
            None => TyId::Prim(Primitive::Never),
        },
    )
}

/// Whether a pattern matches every value.
pub open spec fn irrefutable(kind: HirPatKind) -> bool {
    kind is Wildcard || kind is Binding || kind is Error
}

/// Whether a pattern matches every value of the variant `name`, as far as the
/// variant goes.
pub open spec fn covers(kind: HirPatKind, name: Symbol) -> bool {
    irrefutable(kind) || match kind {
        HirPatKind::Variant(v) => match v.path.segments.last_of() {
            Some(leaf) => leaf.name == name,
            None => false,
        },
        _ => false,
    }
}

/// Whether some arm without a guard matches every value.
pub open spec fn has_catch_all(arms: List<HirMatchArm>) -> bool
    decreases arms,
{
    match arms {
        List::Nil => false,
        List::Cons(arm, rest) => (arm.guard is None && irrefutable(arm.pat.kind)) || has_catch_all(
            *rest,
        ),
    }
}

/// Whether some arm without a guard covers the variant `name`.
pub open spec fn variant_covered(arms: List<HirMatchArm>, name: Symbol) -> bool
    decreases arms,
{
    match arms {
        List::Nil => false,
        List::Cons(arm, rest) => (arm.guard is None && covers(arm.pat.kind, name))
            || variant_covered(*rest, name),
    }
}

/// Whether the arms cover every variant.
pub open spec fn all_covered(variants: List<VariantInfo>, arms: List<HirMatchArm>) -> bool
    decreases variants,
{
    match variants {
        List::Nil => true,
        List::Cons(v, rest) => variant_covered(arms, v.name) && all_covered(*rest, arms),
    }
}

/// A match over a sum type must cover every variant.
#[verifier::opaque]
pub open spec fn exhaustiveness(scrutinee: HirExpr, arms: List<HirMatchArm>, ic: Ic) -> Ic {
    match ic.kind(scrutinee.ty) {
        TyKind::Nominal(id) => match ic.ty_cx.sum_variants(id) {
            Some(variants) => if has_catch_all(arms) || all_covered(variants, arms) {
                ic
            } else {
                ic.emit(
                    DiagnosticClass::NonExhaustiveMatch,
                    scrutinee.span,
                    Message::NonExhaustive,
                )
            },
            None => ic,
        },
        _ => ic,
    }
}

/// Whether a pattern matches every value of its type.
pub fn pat_is_irrefutable(kind: &HirPatKind) -> (r: bool)
    ensures
        r == irrefutable(*kind),
{
    match kind {
        HirPatKind::Wildcard | HirPatKind::Binding(_) | HirPatKind::Error => true,
        _ => false,
    }
}

fn pat_covers_variant(kind: &HirPatKind, name: Symbol) -> (r: bool)
    ensures
        r == covers(*kind, name),
{
    match kind {
        HirPatKind::Wildcard | HirPatKind::Binding(_) | HirPatKind::Error => true,
        HirPatKind::Variant(v) => match v.path.segments.last() {
            Some(leaf) => leaf.name == name,
            None => false,
        },
        _ => false,
    }
}

fn any_catch_all(arms: &List<HirMatchArm>) -> (r: bool)
    ensures
        r == has_catch_all(*arms),
    decreases arms,
{
    match arms {
        List::Nil => false,
        List::Cons(arm, rest) => (arm.guard.is_none() && pat_is_irrefutable(&arm.pat.kind))
            || any_catch_all(rest),
    }
}

fn is_variant_covered(arms: &List<HirMatchArm>, name: Symbol) -> (r: bool)
    ensures
        r == variant_covered(*arms, name),
    decreases arms,
{
    match arms {
        List::Nil => false,
        List::Cons(arm, rest) => (arm.guard.is_none() && pat_covers_variant(&arm.pat.kind, name))
            || is_variant_covered(rest, name),
    }
}

fn are_all_covered(variants: &List<VariantInfo>, arms: &List<HirMatchArm>) -> (r: bool)
    ensures
        r == all_covered(*variants, *arms),
    decreases variants,
{
    match variants {
        List::Nil => true,
        List::Cons(v, rest) => is_variant_covered(arms, v.name) && are_all_covered(rest, arms),
    }
}

fn check_match_exhaustiveness(scrutinee: &HirExpr, arms: &List<HirMatchArm>, ic: &mut InferCx<'_>)
    ensures
        final(ic)@ == exhaustiveness(*scrutinee, *arms, old(ic)@),
        kept(old(ic)@, final(ic)@),
{
    proof {
        reveal(exhaustiveness);
    }
    match ic.kind(scrutinee.ty) {
        TyKind::Nominal(id) => match ic.ty_cx.sum(id) {
            Some(variants) => {
                if any_catch_all(arms) || are_all_covered(variants, arms) {
                    return;
                }
                ic.emit_diagnostic(
                    DiagnosticClass::NonExhaustiveMatch,
                    scrutinee.span,
                    Message::NonExhaustive,
                );
            },
            None => {},
        },
        _ => {},
    }
}

fn check_pat_against_scrutinee(kind: &HirPatKind, scrut_ty: TyId, ic: &mut InferCx<'_>)
    ensures
        final(ic)@ == literal_pat_check(*kind, scrut_ty, old(ic)@),
        kept(old(ic)@, final(ic)@),
{
    if scrut_ty == ic.ty_error() {
        return;
    }
    match kind {
        HirPatKind::Literal(lit) => {
            let literal = synth_literal(lit);
            let is_int = match lit {
                Literal::Int { .. } => true,
                _ => false,
            };
            if !is_int && literal != scrut_ty {
                ic.emit_typecheck_error(
                    Span::dummy(),
                    Message::LiteralPatMismatch { literal, scrutinee: scrut_ty },
                );
            }
        },
        _ => {},
    }
}

fn infer_branch(env: &mut TyEnv, expr: &mut HirExpr, expected: Option<TyId>, ic: &mut InferCx<'_>) -> (r:
    TyId)
    ensures
        judged(*final(env), final(ic)@, *final(expr), r) == branch_rule(
            *old(env),
            *old(expr),
            expected,
            old(ic)@,
        ),
        sound(*old(env), old(ic)@, *final(env), final(ic)@),
    decreases *old(expr), 3nat,
{
    proof {
        reveal(synth_expr_rule);
        reveal(check_expr_rule);
    }
    match expected {
        Some(ty) => {
            check_expr(env, expr, ty, ic);
            expr.ty
        },
        None => synth_expr(env, expr, ic),
    }
}

fn infer_branch_block(
    env: &mut TyEnv,
    block: &mut HirBlock,
    expected: Option<TyId>,
    ic: &mut InferCx<'_>,
) -> (r: TyId)
    ensures
        judged(*final(env), final(ic)@, *final(block), r) == branch_block_rule(
            *old(env),
            *old(block),
            expected,
            old(ic)@,
        ),
        sound(*old(env), old(ic)@, *final(env), final(ic)@),
    decreases *old(block), 2nat,
{
    proof {
        reveal(synth_block_rule);
        reveal(check_block_rule);
    }
    match expected {
        Some(ty) => check_block(env, block, ty, ic),
        None => synth_block(env, block, ic),
    }
}

/// Synthesise a conditional.
pub fn synth_if(env: &mut TyEnv, node: &mut HirIf, ic: &mut InferCx<'_>, span: Span) -> (r: TyId)
    ensures
        judged(*final(env), final(ic)@, *final(node), r) == if_rule(
            *old(env),
            *old(node),
            None,
            old(ic)@,
            span,
        ),
        sound(*old(env), old(ic)@, *final(env), final(ic)@),
    decreases *old(node), 1nat,
{
    proof {
        reveal(if_rule);
    }
    infer_if(env, node, None, ic, span)
}

/// Check a conditional against a type, which both branches are to have.
pub fn check_if(
    env: &mut TyEnv,
    node: &mut HirIf,
    expected: TyId,
    ic: &mut InferCx<'_>,
    span: Span,
) -> (r: TyId)
    ensures
        judged(*final(env), final(ic)@, *final(node), r) == if_rule(
            *old(env),
            *old(node),
            Some(expected),
            old(ic)@,
            span,
        ),
        sound(*old(env), old(ic)@, *final(env), final(ic)@),
    decreases *old(node), 1nat,
{
    proof {
        reveal(if_rule);
    }
    infer_if(env, node, Some(expected), ic, span)
}

/// Put the states of `first` and of `env` together, where two paths join.
pub fn join_paths(env: &mut TyEnv, first: TyEnv, first_exits: bool, second_exits: bool)
    requires
        old(env).frames() == first.frames(),
    ensures
        *final(env) == paths_joined(first, first_exits, *old(env), second_exits),
        final(env).frames() == old(env).frames(),
{
    if !first_exits && second_exits {
        *env = first;
    } else if first_exits && !second_exits {
    } else {
        env.merge_glb(&first);
    }
}

fn infer_if(
    env: &mut TyEnv,
    node: &mut HirIf,
    expected: Option<TyId>,
    ic: &mut InferCx<'_>,
    span: Span,
) -> (r: TyId)
    ensures
        judged(*final(env), final(ic)@, *final(node), r) == if_rule(
            *old(env),
            *old(node),
            expected,
            old(ic)@,
            span,
        ),
        sound(*old(env), old(ic)@, *final(env), final(ic)@),
    decreases *old(node), 0nat,
{
    proof {
        reveal(if_rule);
        reveal(check_expr_rule);
    }
    check_expr(env, &mut node.cond, TyId::Prim(Primitive::Bool), ic);
    let entering = env.dup();
    let then_ty = infer_branch_block(env, &mut node.then_block, expected, ic);
    let then_state = env.dup();
    *env = entering;
    let then_exits = block_always_exits(&node.then_block);
    let (else_ty, else_exits) = match &mut node.else_branch {
        Some(other) => {
            let ty = infer_branch(env, other, expected, ic);
            (ty, expr_always_exits(other))
        },
        None => (TyId::Prim(Primitive::Unit), false),
    };
    join_paths(env, then_state, then_exits, else_exits);
    join_types(then_ty, else_ty, ic, span)
}

fn infer_arm(
    env: &mut TyEnv,
    arm: &mut HirMatchArm,
    scrut_ty: TyId,
    expected: Option<TyId>,
    ic: &mut InferCx<'_>,
) -> (r: TyId)
    ensures
        judged(*final(env), final(ic)@, *final(arm), r) == arm_rule(
            *old(env),
            *old(arm),
            scrut_ty,
            expected,
            old(ic)@,
        ),
        sound(*old(env), old(ic)@, *final(env), final(ic)@),
    decreases *old(arm), 0nat,
{
    proof {
        reveal(arm_rule);
        reveal(bind_pat_rule);
        reveal(check_expr_rule);
    }
    env.enter_scope();
    bind_pat(env, &mut arm.pat, scrut_ty, ic);
    check_pat_against_scrutinee(&arm.pat.kind, scrut_ty, ic);
    match &mut arm.guard {
        Some(guard) => {
            check_expr(env, guard, TyId::Prim(Primitive::Bool), ic);
        },
        None => {},
    }
    let ty = infer_branch(env, &mut arm.body, expected, ic);
    env.exit_scope();
    ty
}

fn infer_arms(
    entering: &TyEnv,
    arms: &mut List<HirMatchArm>,
    scrut_ty: TyId,
    expected: Option<TyId>,
    post: Option<TyEnv>,
    ty: Option<TyId>,
    ic: &mut InferCx<'_>,
    span: Span,
) -> (r: (Option<TyEnv>, Option<TyId>))
    requires
        match post {
            Some(acc) => acc.frames() == entering.frames(),
            None => true,
        },
    ensures
        arms_out(r.0, r.1, final(ic)@, *final(arms)) == arms_rule(
            *entering,
            *old(arms),
            scrut_ty,
            expected,
            post,
            ty,
            old(ic)@,
            span,
        ),
        kept(old(ic)@, final(ic)@),
        match r.0 {
            Some(acc) => acc.frames() == entering.frames(),
            None => true,
        },
    decreases *old(arms), 0nat,
{
    proof {
        reveal(arms_rule);
        reveal(arm_rule);
    }
    match arms {
        List::Nil => (post, ty),
        List::Cons(arm, rest) => {
            let mut env = entering.dup();
            let body_ty = infer_arm(&mut env, arm, scrut_ty, expected, ic);
            let now = if expr_always_exits(&arm.body) {
                post
            } else {
                match post {
                    None => Some(env),
                    Some(acc) => {
                        let mut acc = acc;
                        acc.merge_glb(&env);
                        Some(acc)
                    },
                }
            };
            let joined = match ty {
                None => body_ty,
                Some(before) => join_types(before, body_ty, ic, span),
            };
            infer_arms(entering, rest, scrut_ty, expected, now, Some(joined), ic, span)
        },
    }
}

/// What a walk over arms leaves.
pub open spec fn arms_out(
    post: Option<TyEnv>,
    ty: Option<TyId>,
    ic: Ic,
    node: List<HirMatchArm>,
) -> Arms {
    Arms { post, ty, ic, node }
}

/// Synthesise a match.
pub fn synth_match(env: &mut TyEnv, node: &mut HirMatch, ic: &mut InferCx<'_>, span: Span) -> (r:
    TyId)
    ensures
        judged(*final(env), final(ic)@, *final(node), r) == match_rule(
            *old(env),
            *old(node),
            None,
            old(ic)@,
            span,
        ),
        sound(*old(env), old(ic)@, *final(env), final(ic)@),
    decreases *old(node), 1nat,
{
    proof {
        reveal(match_rule);
    }
    infer_match(env, node, None, ic, span)
}

/// Check a match against a type, which every arm is to have.
pub fn check_match(
    env: &mut TyEnv,
    node: &mut HirMatch,
    expected: TyId,
    ic: &mut InferCx<'_>,
    span: Span,
) -> (r: TyId)
    ensures
        judged(*final(env), final(ic)@, *final(node), r) == match_rule(
            *old(env),
            *old(node),
            Some(expected),
            old(ic)@,
            span,
        ),
        sound(*old(env), old(ic)@, *final(env), final(ic)@),
    decreases *old(node), 1nat,
{
    proof {
        reveal(match_rule);
    }
    infer_match(env, node, Some(expected), ic, span)
}

fn infer_match(
    env: &mut TyEnv,
    node: &mut HirMatch,
    expected: Option<TyId>,
    ic: &mut InferCx<'_>,
    span: Span,
) -> (r: TyId)
    ensures
        judged(*final(env), final(ic)@, *final(node), r) == match_rule(
            *old(env),
            *old(node),
            expected,
            old(ic)@,
            span,
        ),
        sound(*old(env), old(ic)@, *final(env), final(ic)@),
    decreases *old(node), 0nat,
{
    proof {
        reveal(match_rule);
        reveal(synth_expr_rule);
        reveal(arms_rule);
    }
    let scrut_ty = synth_expr(env, &mut node.scrutinee, ic);
    check_match_exhaustiveness(&node.scrutinee, &node.arms, ic);
    let (post, ty) = infer_arms(env, &mut node.arms, scrut_ty, expected, None, None, ic, span);
    match post {
        Some(states) => {
            *env = states;
        },
        None => {},
    }
    match ty {
        Some(joined) => joined,
        None => TyId::Prim(Primitive::Never),
    }
}

} // verus!
