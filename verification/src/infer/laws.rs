//! Laws of inference.

use vstd::prelude::*;

use super::call::comptime_purity::{impure, purity_check};
use super::call::err_propagation::{propagation_check, unpropagated};
use super::ctrl::branch::{paths_joined, types_joined};
use super::cx::Ic;
use super::effect::{any_err, deeper, synth_try_rule};
use super::env::{Bound, TyEnv};
use super::env_laws::{law_restrict, law_transition};
use super::expr::synth_expr_rule;
use super::fn_body::{containment, fn_body_rule, missing_effect, missing_effects, FnContext};
use super::mode::exit::{exit_binding, exit_frame, exit_frames, exit_reports};
use super::mode::lattice::BindingState;
use super::mode::transitions::{binding_step, writes_immutable};
use super::path::{failed, path_value, typed};
use crate::diag::{severity_of, DiagnosticClass, Message};
use crate::effect::{
    canonical, law_row_canonical, lemma_head_first, lists, ordered, EffectEntry, EffectRow,
    PureEffect,
};
use crate::hir::{HirBlock, HirCallMode, HirExpr, HirPath};
use crate::intern::Symbol;
use crate::list::List;
use crate::prim::Primitive;
use crate::span::Span;
use crate::ty::TyId;

verus! {

/// A value that is taken is consumed: reading it or taking it again is
/// reported, and the state stays.
pub proof fn law_use_after_take(
    env: TyEnv,
    path: HirPath,
    name: Symbol,
    ic: Ic,
    span: Span,
)
    requires
        path.single() == Some(name),
        env.state_of(name) == Some(BindingState::Valid),
    ensures
        ({
            let s = binding_step(env, ic, HirCallMode::Take, name, span);
            &&& s.ic == ic
            &&& s.env.state_of(name) == Some(BindingState::Consumed)
            &&& path_value(path, s.env, ic, span) == failed(
                ic,
                span,
                (Message::NotReadable { name, state: BindingState::Consumed.word() }),
            )
            &&& binding_step(s.env, ic, HirCallMode::Take, name, span).env == s.env
            &&& binding_step(s.env, ic, HirCallMode::Take, name, span).ic != ic || severity_of(
                ic.lints.levels,
                DiagnosticClass::TypecheckError,
            ) is None
        }),
{
    reveal(path_value);
    law_transition(env, name, BindingState::Consumed, name);
    let s = binding_step(env, ic, HirCallMode::Take, name, span);
    let again = binding_step(s.env, ic, HirCallMode::Take, name, span);
    if severity_of(ic.lints.levels, DiagnosticClass::TypecheckError) is Some {
        assert(again.ic.diags.len() == ic.diags.len() + 1);
    }
}

/// An `init` argument makes an uninitialised mutable binding valid, and it can
/// be read from then on.
pub proof fn law_init_then_read(env: TyEnv, path: HirPath, name: Symbol, ic: Ic, span: Span)
    requires
        path.single() == Some(name),
        env.state_of(name) == Some(BindingState::Uninit),
        env.mutable_of(name) == Some(true),
    ensures
        ({
            let s = binding_step(env, ic, HirCallMode::Init, name, span);
            &&& s.ic == ic
            &&& s.env.state_of(name) == Some(BindingState::Valid)
            &&& path_value(path, s.env, ic, span) == typed(ic, env.ty_of(name)->0)
        }),
{
    reveal(path_value);
    law_transition(env, name, BindingState::Valid, name);
}

/// No binding of the scopes around a task can be borrowed for writing inside
/// it.
pub proof fn law_task_writes_nothing_outside(env: TyEnv, name: Symbol, mode: HirCallMode)
    requires
        env.find(name) is Some,
        mode != HirCallMode::Take,
    ensures
        writes_immutable(env.frozen().entered(), mode, name),
{
    law_restrict(env, name);
}

/// Joining types does not depend on the order of the branches, passes an error
/// on without a report, and lets `never` give way.
pub proof fn law_join_types(a: TyId, b: TyId, ic: Ic, span: Span)
    ensures
        types_joined(a, b, ic, span).ty == types_joined(b, a, ic, span).ty,
        types_joined(a, a, ic, span) == typed(ic, a),
        types_joined(TyId::Prim(Primitive::Never), b, ic, span) == typed(ic, b),
        types_joined(a, TyId::Prim(Primitive::Never), ic, span) == typed(ic, a),
        types_joined(a, TyId::Error, ic, span) == typed(ic, TyId::Error),
        types_joined(TyId::Error, b, ic, span) == typed(ic, TyId::Error),
{
    reveal(types_joined);
}

/// A path that always exits does not take part in a join.
pub proof fn law_exiting_path(first: TyEnv, second: TyEnv)
    ensures
        paths_joined(first, true, second, false) == second,
        paths_joined(first, false, second, true) == first,
{
}

/// Checking a function body leaves the settings and the row of the enclosing
/// function as they were.
pub proof fn law_fn_body_restores(env: TyEnv, body: HirBlock, f: FnContext, ic: Ic)
    ensures
        fn_body_rule(env, body, f, ic).ic.row == ic.row,
        fn_body_rule(env, body, f, ic).ic.declared_row == ic.declared_row,
        fn_body_rule(env, body, f, ic).ic.return_ty == ic.return_ty,
{
    reveal(fn_body_rule);
}

/// The entries of `entries` that are not declared and whose reports are not
/// switched off.
pub open spec fn undeclared(
    entries: List<EffectEntry>,
    declared: EffectRow,
    inject: bool,
    ic: Ic,
) -> Set<EffectEntry> {
    Set::new(
        |e: EffectEntry|
            lists(entries, e) && !lists(declared.list, e) && severity_of(
                ic.lints.levels,
                missing_effect(e, declared, inject).0,
            ) is Some,
    )
}

/// Whether `after` has, behind the diagnostics of `before`, one of the given
/// class, place and message.
pub open spec fn reports(
    before: Ic,
    after: Ic,
    class: DiagnosticClass,
    span: Span,
    message: Message,
) -> bool {
    exists|k: int|
        before.diags.len() <= k < after.diags.len() && (#[trigger] after.diags[k]).class == class
            && after.diags[k].span == span && after.diags[k].message == message
}

proof fn lemma_missing(
    entries: List<EffectEntry>,
    declared: EffectRow,
    span: Span,
    inject: bool,
    ic: Ic,
    e: EffectEntry,
)
    requires
        ordered(entries),
    ensures
        ({
            let after = missing_effects(entries, declared, span, inject, ic);
            let missing = undeclared(entries, declared, inject, ic);
            let (class, message) = missing_effect(e, declared, inject);
            &&& missing.finite()
            &&& after.diags.len() == ic.diags.len() + missing.len()
            &&& ic.diags.is_prefix_of(after.diags)
            &&& missing.contains(e) ==> reports(ic, after, class, span, message)
            &&& after == Ic { diags: after.diags, ..ic }
        }),
    decreases entries,
{
    let missing = undeclared(entries, declared, inject, ic);
    match entries {
        List::Nil => {
            assert(missing == Set::<EffectEntry>::empty());
        },
        List::Cons(head, tail) => {
            let (class, message) = missing_effect(*head, declared, inject);
            let next = if lists(declared.list, *head) {
                ic
            } else {
                ic.emit(class, span, message)
            };
            let others = undeclared(*tail, declared, inject, ic);
            lemma_missing(*tail, declared, span, inject, next, e);
            assert(undeclared(*tail, declared, inject, next) == others);
            if lists(*tail, *head) {
                lemma_head_first(entries, *head);
            }
            let after = missing_effects(entries, declared, span, inject, ic);
            if missing.contains(*head) {
                assert(missing == others.insert(*head));
                let k = ic.diags.len() as int;
                assert(after.diags[k] == next.diags[k]);
            } else {
                assert(missing == others);
            }
        },
    }
}

/// A body is reported once for each distinct effect that it performs and does
/// not declare, unless reports of that class are switched off, and for nothing
/// else; nothing but the diagnostics changes.
pub proof fn law_containment(declared: EffectRow, span: Span, inject: bool, ic: Ic, e: EffectEntry)
    ensures
        ({
            let after = containment(declared, span, inject, ic);
            let missing = undeclared(canonical(ic.row), declared, inject, ic);
            let (class, message) = missing_effect(e, declared, inject);
            &&& missing.contains(e) <==> ic.row.contains(e) && !lists(declared.list, e)
                && severity_of(ic.lints.levels, class) is Some
            &&& missing.finite()
            &&& after.diags.len() == ic.diags.len() + missing.len()
            &&& ic.diags.is_prefix_of(after.diags)
            &&& missing.contains(e) ==> reports(ic, after, class, span, message)
            &&& after == Ic { diags: after.diags, ..ic }
        }),
        (forall|x: EffectEntry| #[trigger] ic.row.contains(x) ==> lists(declared.list, x))
            ==> containment(declared, span, inject, ic) == ic,
{
    reveal(containment);
    law_row_canonical(ic.row);
    let entries = canonical(ic.row);
    lemma_missing(entries, declared, span, inject, ic, e);
    assert(lists(entries, e) <==> ic.row.contains(e));
    if forall|x: EffectEntry| #[trigger] ic.row.contains(x) ==> lists(declared.list, x) {
        let missing = undeclared(entries, declared, inject, ic);
        assert forall|x: EffectEntry| !missing.contains(x) by {
            assert(lists(entries, x) <==> ic.row.contains(x));
        }
        assert(missing == Set::<EffectEntry>::empty());
        let after = containment(declared, span, inject, ic);
        assert(after.diags == ic.diags);
    }
}

/// The errors of `entries` that no handler takes care of and that are not in
/// `emitted`.
pub open spec fn unhandled(
    entries: List<EffectEntry>,
    ic: Ic,
    emitted: List<EffectEntry>,
) -> Set<EffectEntry> {
    Set::new(
        |e: EffectEntry|
            lists(entries, e) && e.is_err() && !ic.handled.contains(e) && !lists(emitted, e),
    )
}

proof fn lemma_unpropagated(
    entries: List<EffectEntry>,
    callee: Symbol,
    span: Span,
    ic: Ic,
    emitted: List<EffectEntry>,
    ty: TyId,
)
    ensures
        ({
            let after = unpropagated(entries, callee, span, ic, emitted);
            let errors = unhandled(entries, ic, emitted);
            &&& errors.finite()
            &&& after.diags.len() == ic.diags.len() + if severity_of(
                ic.lints.levels,
                DiagnosticClass::EffectRowMismatch,
            ) is Some {
                errors.len()
            } else {
                0
            }
            &&& ic.diags.is_prefix_of(after.diags)
            &&& severity_of(ic.lints.levels, DiagnosticClass::EffectRowMismatch) is Some
                && errors.contains(EffectEntry::Pure(PureEffect::Raise(ty))) ==> reports(
                ic,
                after,
                DiagnosticClass::EffectRowMismatch,
                span,
                (Message::UnpropagatedError { callee, ty }),
            )
            &&& after == Ic { diags: after.diags, ..ic }
        }),
    decreases entries,
{
    let errors = unhandled(entries, ic, emitted);
    match entries {
        List::Nil => {
            assert(errors == Set::<EffectEntry>::empty());
        },
        List::Cons(head, tail) => match *head {
            EffectEntry::Pure(PureEffect::Raise(t)) if !ic.handled.contains(*head) && !lists(
                emitted,
                *head,
            ) => {
                let next = ic.emit(
                    DiagnosticClass::EffectRowMismatch,
                    span,
                    Message::UnpropagatedError { callee, ty: t },
                );
                let now = List::Cons(head, Box::new(emitted));
                lemma_unpropagated(*tail, callee, span, next, now, ty);
                let others = unhandled(*tail, next, now);
                assert(errors == others.insert(*head));
                assert(!others.contains(*head));
                let after = unpropagated(entries, callee, span, ic, emitted);
                let k = ic.diags.len() as int;
                if next.diags.len() > k {
                    assert(after.diags[k] == next.diags[k]);
                }
            },
            _ => {
                lemma_unpropagated(*tail, callee, span, ic, emitted, ty);
                assert(errors == unhandled(*tail, ic, emitted));
            },
        },
    }
}

/// An error of a callee must be propagated by `?` or handled: under a `?`
/// nothing is reported, and elsewhere each distinct error that no handler takes
/// care of is reported once and nothing else is, unless such reports are
/// switched off; nothing but the diagnostics changes.
pub proof fn law_propagation(
    entries: List<EffectEntry>,
    callee: Symbol,
    span: Span,
    ic: Ic,
    ty: TyId,
)
    ensures
        ic.try_depth > 0 ==> propagation_check(entries, callee, span, ic) == ic,
        severity_of(ic.lints.levels, DiagnosticClass::EffectRowMismatch) is None
            ==> propagation_check(entries, callee, span, ic) == ic,
        ic.try_depth == 0 && severity_of(
            ic.lints.levels,
            DiagnosticClass::EffectRowMismatch,
        ) is Some ==> ({
            let after = propagation_check(entries, callee, span, ic);
            let errors = unhandled(entries, ic, List::Nil);
            &&& errors.finite()
            &&& after.diags.len() == ic.diags.len() + errors.len()
            &&& ic.diags.is_prefix_of(after.diags)
            &&& errors.contains(EffectEntry::Pure(PureEffect::Raise(ty))) ==> reports(
                ic,
                after,
                DiagnosticClass::EffectRowMismatch,
                span,
                (Message::UnpropagatedError { callee, ty }),
            )
            &&& after == Ic { diags: after.diags, ..ic }
        }),
        (forall|x: EffectEntry| #[trigger]
            lists(entries, x) && x.is_err() ==> ic.handled.contains(x)) ==> propagation_check(
            entries,
            callee,
            span,
            ic,
        ) == ic,
{
    reveal(propagation_check);
    lemma_unpropagated(entries, callee, span, ic, List::Nil, ty);
    let errors = unhandled(entries, ic, List::Nil);
    let after = propagation_check(entries, callee, span, ic);
    if forall|x: EffectEntry| #[trigger] lists(entries, x) && x.is_err() ==> ic.handled.contains(x) {
        assert(errors == Set::<EffectEntry>::empty());
    }
    if after.diags.len() == ic.diags.len() {
        assert(after.diags == ic.diags);
    }
}

/// `?` lets every effect of its operand through and keeps its type. Only an
/// operand without an `err: T` is reported, unless typing errors are switched
/// off.
pub proof fn law_try(env: TyEnv, inner: HirExpr, ic: Ic, span: Span)
    ensures
        ({
            let j = synth_expr_rule(env, inner, Ic { try_depth: deeper(ic.try_depth), ..ic });
            let t = synth_try_rule(env, inner, ic, span);
            let after = Ic { try_depth: ic.try_depth, ..j.ic };
            &&& t.env == j.env
            &&& t.ic.row == j.ic.row
            &&& j.ty == TyId::Error || any_err(j.ic.row.skip(ic.row.len() as int)) ==> t.ty == j.ty
                && t.ic == after
            &&& j.ty != TyId::Error && !any_err(j.ic.row.skip(ic.row.len() as int)) ==> t.ty
                == TyId::Error && t.ic == after.error(span, Message::NoErrorToPropagate)
        }),
{
    reveal(synth_try_rule);
}

proof fn lemma_impure(entries: List<EffectEntry>, e: EffectEntry)
    ensures
        lists(impure(entries), e) <==> lists(entries, e) && !e.in_comptime_envelope(),
    decreases entries,
{
    match entries {
        List::Nil => {},
        List::Cons(head, tail) => {
            lemma_impure(*tail, e);
        },
    }
}

/// A call in a compile-time body is accepted exactly where the callee's row has
/// nothing but `panic` and `yield: T`.
pub proof fn law_purity(effects: EffectRow, callee: Symbol, span: Span, ic: Ic, e: EffectEntry)
    requires
        severity_of(ic.lints.levels, DiagnosticClass::ComptimePurityLoss) is Some,
    ensures
        purity_check(effects, callee, span, ic) == ic ==> (lists(effects.list, e)
            ==> e.in_comptime_envelope()),
        (forall|x: EffectEntry| #[trigger] lists(effects.list, x) ==> x.in_comptime_envelope())
            ==> purity_check(effects, callee, span, ic) == ic,
{
    reveal(purity_check);
    let entries = impure(effects.list);
    lemma_impure(effects.list, e);
    if purity_check(effects, callee, span, ic) == ic {
        if entries != List::<EffectEntry>::Nil {
            assert(purity_check(effects, callee, span, ic).diags.len() == ic.diags.len() + 1);
        }
    }
    if forall|x: EffectEntry| #[trigger] lists(effects.list, x) ==> x.in_comptime_envelope() {
        match entries {
            List::Nil => {},
            List::Cons(head, _) => {
                lemma_impure(effects.list, *head);
                assert(lists(entries, *head));
            },
        }
    }
}

/// Whether every binding of a frame is valid or consumed.
pub open spec fn frame_settled(frame: List<Bound>) -> bool
    decreases frame,
{
    match frame {
        List::Nil => true,
        List::Cons(b, rest) => (b.state is Valid || b.state is Consumed) && frame_settled(*rest),
    }
}

/// Whether every binding of the frames is valid or consumed.
pub open spec fn frames_settled(frames: List<List<Bound>>) -> bool
    decreases frames,
{
    match frames {
        List::Nil => true,
        List::Cons(frame, rest) => frame_settled(*frame) && frames_settled(*rest),
    }
}

proof fn lemma_settled_frame(
    frame: List<Bound>,
    env: TyEnv,
    ic: Ic,
    span: Span,
    take_params: List<Symbol>,
    seen: List<Symbol>,
)
    requires
        frame_settled(frame),
    ensures
        exit_frame(frame, env, ic, span, take_params, seen).0 == ic,
    decreases frame,
{
    match frame {
        List::Nil => {},
        List::Cons(b, rest) => {
            assert(exit_binding(env, *b, ic, span, take_params) == (ic, false));
            lemma_settled_frame(*rest, env, ic, span, take_params, seen);
        },
    }
}

proof fn lemma_settled_frames(
    frames: List<List<Bound>>,
    env: TyEnv,
    ic: Ic,
    span: Span,
    take_params: List<Symbol>,
    seen: List<Symbol>,
)
    requires
        frames_settled(frames),
    ensures
        exit_frames(frames, env, ic, span, take_params, seen) == ic,
    decreases frames,
{
    match frames {
        List::Nil => {},
        List::Cons(frame, rest) => {
            lemma_settled_frame(*frame, env, ic, span, take_params, seen);
            let (after, now) = exit_frame(*frame, env, ic, span, take_params, seen);
            lemma_settled_frames(*rest, env, ic, span, take_params, now);
        },
    }
}

/// A function whose bindings are all valid or consumed at its exit is accepted
/// there.
pub proof fn law_exit(env: TyEnv, ic: Ic, span: Span, take_params: List<Symbol>)
    requires
        frame_settled(env.top),
        frames_settled(env.outer),
    ensures
        exit_reports(env, ic, span, take_params) == ic,
{
    reveal(exit_reports);
    lemma_settled_frame(env.top, env, ic, span, take_params, List::Nil);
    let (after, seen) = exit_frame(env.top, env, ic, span, take_params, List::Nil);
    lemma_settled_frames(env.outer, env, ic, span, take_params, seen);
}

} // verus!
