//! Laws of loops.

use vstd::prelude::*;

use super::block::synth_block_rule;
use super::ctrl::loops::{measure_rule, synth_loop_rule};
use super::cx::Ic;
use super::diverge_laws::expr_of;
use super::env::{frame_find, frames_find, Bound, TyEnv};
use super::expr::{synth_control_rule, synth_expr_rule};
use super::mode::transitions::{reentry, reentry_frame, reentry_frames};
use crate::cx::names_has;
use crate::diag::{severity_of, DiagnosticClass, Message};
use crate::effect::{EffectEntry, PureEffect};
use crate::hir::{HirBlock, HirExprKind, HirLoop};
use crate::intern::Symbol;
use crate::list::List;
use crate::prim::Primitive;
use crate::span::Span;
use crate::ty::TyId;

verus! {

/// Whether the state of `x` in `post` differs from that in `pre`.
pub open spec fn changed(pre: TyEnv, post: TyEnv, x: Symbol) -> bool {
    match (pre.state_of(x), post.state_of(x)) {
        (Some(a), Some(b)) => a@ != b@,
        _ => false,
    }
}

/// Whether the binding differs from the state of its name in `pre`.
spec fn differs(pre: TyEnv, b: Bound) -> bool {
    match pre.state_of(b.name) {
        Some(s) => s@ != b.state@,
        None => false,
    }
}

proof fn lemma_frame_reports(
    frame: List<Bound>,
    pre: TyEnv,
    ic: Ic,
    reported: List<Symbol>,
    span: Span,
    x: Symbol,
)
    requires
        severity_of(ic.lints.levels, DiagnosticClass::TypecheckError) is Some,
    ensures
        ({
            let (after, seen) = reentry_frame(frame, pre, ic, reported, span);
            &&& after == Ic { diags: after.diags, ..ic }
            &&& after.diags.len() >= ic.diags.len()
            &&& after.diags.len() == ic.diags.len() ==> seen == reported
            &&& (frame_find(frame, x) matches Some(b) ==> differs(pre, b) && !names_has(
                reported,
                x,
            ) ==> after.diags.len() > ic.diags.len())
        }),
    decreases frame,
{
    match frame {
        List::Nil => {},
        List::Cons(b, rest) => {
            let now = List::Cons(Box::new(b.name), Box::new(reported));
            let reported_ic = ic.error(
                span,
                Message::LoopChangesState {
                    name: b.name,
                    before: pre.state_of(b.name)->0.word(),
                    after: b.state.word(),
                },
            );
            lemma_frame_reports(*rest, pre, reported_ic, now, span, x);
            lemma_frame_reports(*rest, pre, ic, reported, span, x);
        },
    }
}

proof fn lemma_frames_report(
    frames: List<List<Bound>>,
    pre: TyEnv,
    ic: Ic,
    reported: List<Symbol>,
    span: Span,
    x: Symbol,
)
    requires
        severity_of(ic.lints.levels, DiagnosticClass::TypecheckError) is Some,
    ensures
        ({
            let after = reentry_frames(frames, pre, ic, reported, span);
            &&& after.diags.len() >= ic.diags.len()
            &&& (frames_find(frames, x) matches Some(b) ==> differs(pre, b) && !names_has(
                reported,
                x,
            ) ==> after.diags.len() > ic.diags.len())
        }),
    decreases frames,
{
    match frames {
        List::Nil => {},
        List::Cons(frame, rest) => {
            lemma_frame_reports(*frame, pre, ic, reported, span, x);
            let (after, seen) = reentry_frame(*frame, pre, ic, reported, span);
            lemma_frames_report(*rest, pre, after, seen, span, x);
        },
    }
}

proof fn lemma_found(frame: List<Bound>, x: Symbol)
    ensures
        frame_find(frame, x) matches Some(b) ==> b.name == x,
    decreases frame,
{
    match frame {
        List::Nil => {},
        List::Cons(_, rest) => lemma_found(*rest, x),
    }
}

proof fn lemma_found_frames(frames: List<List<Bound>>, x: Symbol)
    ensures
        frames_find(frames, x) matches Some(b) ==> b.name == x,
    decreases frames,
{
    match frames {
        List::Nil => {},
        List::Cons(frame, rest) => {
            lemma_found(*frame, x);
            lemma_found_frames(*rest, x);
        },
    }
}

/// A loop body that leaves a name in another state than it found it in is
/// reported, unless typing errors are switched off.
pub proof fn law_reentry(post: TyEnv, pre: TyEnv, ic: Ic, span: Span, x: Symbol)
    requires
        severity_of(ic.lints.levels, DiagnosticClass::TypecheckError) is Some,
        changed(pre, post, x),
    ensures
        reentry(post, pre, ic, span).diags.len() > ic.diags.len(),
{
    reveal(reentry);
    let none: List<Symbol> = List::Nil;
    lemma_frame_reports(post.top, pre, ic, none, span, x);
    let (after, seen) = reentry_frame(post.top, pre, ic, none, span);
    lemma_frames_report(post.outer, pre, after, seen, span, x);
    lemma_found(post.top, x);
    lemma_found_frames(post.outer, x);
}

/// A loop without a measure performs `divergence` before its body; one with a
/// measure does not. A loop diverges, and after it the states are those before
/// its body.
pub proof fn law_loop(env: TyEnv, body: HirBlock, span: Span, ic: Ic, x: Symbol)
    ensures
        ({
            let start = Ic {
                row: ic.row.push(EffectEntry::Pure(PureEffect::Divergence)),
                ..ic
            };
            let b = synth_block_rule(env, body, start);
            let node = HirLoop { body, decreases: None };
            let j = synth_expr_rule(env, expr_of(HirExprKind::Loop(Box::new(node)), span), ic);
            &&& j.ty == TyId::Prim(Primitive::Never)
            &&& j.env == env
            &&& j.ic.row == b.ic.row
            &&& changed(env, b.env, x) && severity_of(
                b.ic.lints.levels,
                DiagnosticClass::TypecheckError,
            ) is Some ==> j.ic.diags.len() > b.ic.diags.len()
        }),
{
    let start = ic.perform(EffectEntry::Pure(PureEffect::Divergence));
    let b = synth_block_rule(env, body, start);
    let node = HirLoop { body, decreases: None };
    lemma_loop(env, node, span, ic);
    if changed(env, b.env, x) && severity_of(b.ic.lints.levels, DiagnosticClass::TypecheckError)
        is Some {
        law_reentry(b.env, env, b.ic, body.span, x);
    }
    lemma_reentry_row(b.env, env, b.ic, body.span);
}

proof fn lemma_loop(env: TyEnv, node: HirLoop, span: Span, ic: Ic)
    ensures
        ({
            let m = measure_rule(env, node.decreases, ic);
            let b = synth_block_rule(m.env, node.body, m.ic);
            let j = synth_expr_rule(env, expr_of(HirExprKind::Loop(Box::new(node)), span), ic);
            &&& j.ty == TyId::Prim(Primitive::Never)
            &&& j.env == m.env
            &&& j.ic == reentry(b.env, m.env, b.ic, node.body.span)
        }),
{
    reveal(synth_expr_rule);
    reveal(synth_control_rule);
    reveal(synth_loop_rule);
    reveal(synth_block_rule);
    let expr = expr_of(HirExprKind::Loop(Box::new(node)), span);
    assert(synth_expr_rule(env, expr, ic) == synth_control_rule(env, expr, ic));
    let l = synth_loop_rule(env, node, ic);
}

proof fn lemma_reentry_row(post: TyEnv, pre: TyEnv, ic: Ic, span: Span)
    ensures
        reentry(post, pre, ic, span).row == ic.row,
{
    reveal(reentry);
    lemma_frame_row(post.top, pre, ic, List::Nil, span);
    let (after, seen) = reentry_frame(post.top, pre, ic, List::Nil, span);
    lemma_frames_row(post.outer, pre, after, seen, span);
}

proof fn lemma_frame_row(
    frame: List<Bound>,
    pre: TyEnv,
    ic: Ic,
    reported: List<Symbol>,
    span: Span,
)
    ensures
        reentry_frame(frame, pre, ic, reported, span).0.row == ic.row,
    decreases frame,
{
    match frame {
        List::Nil => {},
        List::Cons(b, rest) => {
            let reported_ic = ic.error(
                span,
                Message::LoopChangesState {
                    name: b.name,
                    before: pre.state_of(b.name)->0.word(),
                    after: b.state.word(),
                },
            );
            lemma_frame_row(
                *rest,
                pre,
                reported_ic,
                List::Cons(Box::new(b.name), Box::new(reported)),
                span,
            );
            lemma_frame_row(*rest, pre, ic, reported, span);
        },
    }
}

proof fn lemma_frames_row(
    frames: List<List<Bound>>,
    pre: TyEnv,
    ic: Ic,
    reported: List<Symbol>,
    span: Span,
)
    ensures
        reentry_frames(frames, pre, ic, reported, span).row == ic.row,
    decreases frames,
{
    match frames {
        List::Nil => {},
        List::Cons(frame, rest) => {
            lemma_frame_row(*frame, pre, ic, reported, span);
            let (after, seen) = reentry_frame(*frame, pre, ic, reported, span);
            lemma_frames_row(*rest, pre, after, seen, span);
        },
    }
}

} // verus!
