//! Laws of function bodies.

use vstd::prelude::*;

use super::block::synth_block_rule;
use super::cx::Ic;
use super::env::{frame_find, frames_find, Bound, TyEnv};
use super::fn_body::{body_entered, containment, fn_body_rule, missing_effect, FnContext};
use super::laws::{law_containment, undeclared};
use super::mode::exit::{exit_binding, exit_frame, exit_frames, exit_reports};
use super::mode::helpers::{element_keys, members};
use super::mode::lattice::{name_inserted, BindingState};
use crate::cx::names_has;
use crate::diag::{severity_of, DiagnosticClass};
use crate::effect::{canonical, lists, EffectEntry, PureEffect};
use crate::hir::HirBlock;
use crate::intern::Symbol;
use crate::list::List;
use crate::span::Span;
use crate::text::decimal;
use crate::ty::{TyId, TyKind};

verus! {

/// Whether only names and diagnostics were added.
spec fn only_reports(before: Ic, after: Ic) -> bool {
    &&& after == Ic { diags: after.diags, syms: after.syms, ..before }
    &&& after.diags.len() >= before.diags.len()
}

proof fn lemma_element_keys(ic: Ic, elems: List<TyId>, at: usize, keys: List<Symbol>)
    ensures
        ({
            let after = element_keys(ic, elems, at, keys).0;
            only_reports(ic, after) && after.diags == ic.diags
        }),
    decreases elems,
{
    match elems {
        List::Nil => {},
        List::Cons(_, rest) => {
            let text = decimal(at as nat);
            let next = if at == usize::MAX {
                at
            } else {
                (at + 1) as usize
            };
            lemma_element_keys(
                ic.named(text),
                *rest,
                next,
                name_inserted(keys, ic.symbol(text)),
            );
        },
    }
}

proof fn lemma_members(ic: Ic, ty: TyId)
    ensures
        ({
            let after = members(ic, ty).0;
            only_reports(ic, after) && after.diags == ic.diags
        }),
{
    reveal(members);
    match ic.kind(ty) {
        TyKind::Tuple(elems) => lemma_element_keys(ic, elems, 0, List::Nil),
        _ => {},
    }
}

proof fn lemma_exit_binding(env: TyEnv, b: Bound, ic: Ic, span: Span, take_params: List<Symbol>)
    ensures
        ({
            let (after, found) = exit_binding(env, b, ic, span, take_params);
            let heard = severity_of(ic.lints.levels, DiagnosticClass::TypecheckError) is Some;
            &&& only_reports(ic, after)
            &&& found && heard ==> after.diags.len() > ic.diags.len()
            &&& b.state is Uninit ==> found
        }),
{
    match (b.state, env.ty_of(b.name)) {
        (BindingState::PartialInit(_), Some(ty)) => lemma_members(ic, ty),
        _ => {},
    }
}

proof fn lemma_exit_frame(
    frame: List<Bound>,
    env: TyEnv,
    ic: Ic,
    span: Span,
    take_params: List<Symbol>,
    reported: List<Symbol>,
    x: Symbol,
)
    ensures
        ({
            let (after, seen) = exit_frame(frame, env, ic, span, take_params, reported);
            let heard = severity_of(ic.lints.levels, DiagnosticClass::TypecheckError) is Some;
            &&& only_reports(ic, after)
            &&& heard && after.diags.len() == ic.diags.len() ==> seen == reported
            &&& (frame_find(frame, x) matches Some(b) ==> heard && b.state is Uninit && !names_has(
                reported,
                x,
            ) ==> after.diags.len() > ic.diags.len())
        }),
    decreases frame,
{
    match frame {
        List::Nil => {},
        List::Cons(b, rest) => {
            lemma_exit_binding(env, *b, ic, span, take_params);
            lemma_exit_frame(*rest, env, ic, span, take_params, reported, x);
            let (after, found) = exit_binding(env, *b, ic, span, take_params);
            let seen = if found {
                List::Cons(Box::new(b.name), Box::new(reported))
            } else {
                reported
            };
            lemma_exit_frame(*rest, env, after, span, take_params, seen, x);
        },
    }
}

proof fn lemma_exit_frames(
    frames: List<List<Bound>>,
    env: TyEnv,
    ic: Ic,
    span: Span,
    take_params: List<Symbol>,
    reported: List<Symbol>,
    x: Symbol,
)
    ensures
        ({
            let after = exit_frames(frames, env, ic, span, take_params, reported);
            let heard = severity_of(ic.lints.levels, DiagnosticClass::TypecheckError) is Some;
            &&& only_reports(ic, after)
            &&& (frames_find(frames, x) matches Some(b) ==> heard && b.state is Uninit
                && !names_has(reported, x) ==> after.diags.len() > ic.diags.len())
        }),
    decreases frames,
{
    match frames {
        List::Nil => {},
        List::Cons(frame, rest) => {
            lemma_exit_frame(*frame, env, ic, span, take_params, reported, x);
            let (after, seen) = exit_frame(*frame, env, ic, span, take_params, reported);
            lemma_exit_frames(*rest, env, after, span, take_params, seen, x);
        },
    }
}

/// What is reported at the exit of a function adds nothing but diagnostics,
/// and a binding that was never initialised is reported.
pub proof fn law_exit_uninit(
    env: TyEnv,
    ic: Ic,
    span: Span,
    take_params: List<Symbol>,
    x: Symbol,
)
    ensures
        ({
            let after = exit_reports(env, ic, span, take_params);
            &&& after.row == ic.row
            &&& after.lints == ic.lints
            &&& after.diags.len() >= ic.diags.len()
            &&& env.state_of(x) == Some(BindingState::Uninit) && severity_of(
                ic.lints.levels,
                DiagnosticClass::TypecheckError,
            ) is Some ==> after.diags.len() > ic.diags.len()
        }),
{
    reveal(exit_reports);
    let none: List<Symbol> = List::Nil;
    lemma_exit_frame(env.top, env, ic, span, take_params, none, x);
    let (after, seen) = exit_frame(env.top, env, ic, span, take_params, none);
    lemma_exit_frames(env.outer, env, after, span, take_params, seen, x);
}

/// A body that performs an effect which its function does not declare is
/// reported, and so is one that leaves a binding uninitialised.
pub proof fn law_body(
    env: TyEnv,
    body: HirBlock,
    f: FnContext,
    ic: Ic,
    e: EffectEntry,
    x: Symbol,
)
    ensures
        ({
            let b = synth_block_rule(env, body, body_entered(f, ic));
            let j = fn_body_rule(env, body, f, ic);
            let levels = b.ic.lints.levels;
            &&& j.env == b.env && j.ty == b.ty
            &&& j.ic.diags.len() >= b.ic.diags.len()
            &&& b.ic.row.contains(e) && !lists(f.declared.list, e) && severity_of(
                levels,
                missing_effect(e, f.declared, f.inject_divergence).0,
            ) is Some ==> j.ic.diags.len() > b.ic.diags.len()
            &&& b.env.state_of(x) == Some(BindingState::Uninit) && severity_of(
                levels,
                DiagnosticClass::TypecheckError,
            ) is Some ==> j.ic.diags.len() > b.ic.diags.len()
        }),
{
    let b = synth_block_rule(env, body, body_entered(f, ic));
    let exited = exit_reports(b.env, b.ic, f.exit_span, f.take_params);
    law_exit_uninit(b.env, b.ic, f.exit_span, f.take_params, x);
    law_containment(f.declared, f.exit_span, f.inject_divergence, exited, e);
    let missing = undeclared(canonical(exited.row), f.declared, f.inject_divergence, exited);
    if missing.contains(e) {
        assert(missing.len() > 0) by {
            if missing.len() == 0 {
                assert(missing == Set::<EffectEntry>::empty());
            }
        }
    }
    lemma_body(env, body, f, ic);
}

proof fn lemma_body(env: TyEnv, body: HirBlock, f: FnContext, ic: Ic)
    ensures
        ({
            let b = synth_block_rule(env, body, body_entered(f, ic));
            let exited = exit_reports(b.env, b.ic, f.exit_span, f.take_params);
            let checked = containment(f.declared, f.exit_span, f.inject_divergence, exited);
            let j = fn_body_rule(env, body, f, ic);
            j.env == b.env && j.ty == b.ty && j.ic.diags == checked.diags
        }),
{
    reveal(fn_body_rule);
    reveal(synth_block_rule);
}

/// A body starts with no effect performed, but for divergence where the
/// function takes part in a recursion without a measure.
pub proof fn law_body_start(f: FnContext, ic: Ic, e: EffectEntry)
    ensures
        body_entered(f, ic).row.contains(e) <==> f.inject_divergence && e == EffectEntry::Pure(
            PureEffect::Divergence,
        ),
        body_entered(f, ic).return_ty == f.return_ty,
        body_entered(f, ic).declared_row == f.declared,
        body_entered(f, ic).diags == ic.diags,
{
    let start = body_entered(f, ic);
    if f.inject_divergence {
        assert(start.row[0] == EffectEntry::Pure(PureEffect::Divergence));
        assert(start.row.len() == 1);
    }
}

} // verus!
