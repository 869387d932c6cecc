//! Structured concurrency.

use vstd::prelude::*;

use super::block::{synth_block, synth_block_rule};
use super::cx::{group_grown, lemma_grown_discharged, Ic, InferCx};
use super::env::TyEnv;
use super::expr::{check_expr, check_expr_rule, synth_expr, synth_expr_rule};
use super::judge::{judged, sound, walked, Judged, Walked};
use super::mode::transitions::{apply_mode_transition, mode_step};
use super::row_acc::{discharged, law_discharge};
use crate::capability::CapabilityType;
use crate::diag::{DiagnosticClass, Message};
use crate::effect::{EffectEntry, PureEffect};
use crate::hir::{HirCallMode, HirExpr, HirScope, HirSpawn, HirSpawnArg};
use crate::list::List;
use crate::span::Span;
use crate::syntax::ScopeKind;
use crate::ty::{TyId, TyKind};

verus! {

broadcast use group_grown;

/// Values moved into a task: each is found in the parent scope and consumed
/// there.
#[verifier::opaque]
pub open spec fn spawn_args_rule(env: TyEnv, args: List<HirSpawnArg>, ic: Ic) -> Walked<
    List<HirSpawnArg>,
>
    decreases args, 0nat,
{
    match args {
        List::Nil => walked(env, ic, args),
        List::Cons(arg, rest) => {
            let (j, ty) = match arg.ty {
                Some(ty) => (check_expr_rule(env, arg.init, ty, ic), ty),
                None => {
                    let j = synth_expr_rule(env, arg.init, ic);
                    (j, j.ty)
                },
            };
            let s = mode_step(j.env, j.ic, HirCallMode::Take, j.node, arg.span);
            let others = spawn_args_rule(s.env, *rest, s.ic);
            walked(
                others.env,
                others.ic,
                List::Cons(
                    Box::new(HirSpawnArg { ty: Some(ty), init: j.node, ..*arg }),
                    Box::new(others.node),
                ),
            )
        },
    }
}

/// `env` with the moved values bound.
pub open spec fn spawn_bound(env: TyEnv, args: List<HirSpawnArg>) -> TyEnv
    decreases args,
{
    match args {
        List::Nil => env,
        List::Cons(arg, rest) => {
            let ty = match arg.ty {
                Some(ty) => ty,
                None => TyId::Error,
            };
            spawn_bound(env.with_valid(arg.name.name, ty), *rest)
        },
    }
}

/// A task: inside it the bindings of the parent scope are immutable.
#[verifier::opaque]
pub open spec fn synth_spawn_rule(env: TyEnv, spawn: HirSpawn, ic: Ic) -> Judged<HirSpawn>
    decreases spawn, 0nat,
{
    let a = spawn_args_rule(env, spawn.args, ic);
    let inside = spawn_bound(a.env.frozen().entered(), a.node);
    let b = synth_block_rule(inside, spawn.body, a.ic);
    judged(
        b.env.exited().thawed(a.env.flags()),
        b.ic,
        HirSpawn { span: spawn.span, args: a.node, body: b.node },
        b.ty,
    )
}

/// Whether one of `entries` is a capability whose binding has the type `cap`.
pub open spec fn row_has_capability(
    entries: List<EffectEntry>,
    env: TyEnv,
    cap: CapabilityType,
    ic: Ic,
) -> bool
    decreases entries,
{
    match entries {
        List::Nil => false,
        List::Cons(head, tail) => row_has_capability(*tail, env, cap, ic) || match *head {
            EffectEntry::Capability(sym) => match env.ty_of(sym) {
                Some(ty) => ic.kind(ty) == TyKind::Capability(cap),
                None => false,
            },
            _ => false,
        },
    }
}

/// A concurrency region needs an executor in the declared row.
pub open spec fn executor_checked(env: TyEnv, ic: Ic, span: Span) -> Ic {
    if row_has_capability(ic.declared_row.list, env, CapabilityType::Executor, ic) {
        ic
    } else {
        ic.emit(
            DiagnosticClass::ExecutorMissingInRow,
            span,
            Message::ExecutorMissing { declared: ic.declared_row },
        )
    }
}

/// A scope region. A concurrency region waits for its tasks, so their
/// cancellation does not leave it.
#[verifier::opaque]
pub open spec fn synth_scope_rule(env: TyEnv, scope: HirScope, ic: Ic, span: Span) -> Judged<HirScope>
    decreases scope, 0nat,
{
    match scope.kind {
        ScopeKind::Coherence => {
            let b = synth_block_rule(env, scope.body, ic);
            judged(b.env, b.ic, HirScope { body: b.node, ..scope }, b.ty)
        },
        ScopeKind::Exec => {
            let start = executor_checked(env, ic, span);
            let inside = match scope.name {
                Some(name) => env.entered().with_valid(name.name, TyId::Error),
                None => env.entered(),
            };
            let b = synth_block_rule(inside, scope.body, start);
            judged(
                b.env.exited(),
                Ic {
                    row: discharged(
                        b.ic.row,
                        start.row.len(),
                        EffectEntry::Pure(PureEffect::Cancellation),
                    ),
                    ..b.ic
                },
                HirScope { body: b.node, ..scope },
                b.ty,
            )
        },
    }
}

/// `task.await`: the value of the task; performs `cancellation`.
#[verifier::opaque]
pub open spec fn synth_await_rule(env: TyEnv, inner: HirExpr, ic: Ic) -> Judged<HirExpr>
    decreases inner, 2nat,
{
    let j = synth_expr_rule(env, inner, ic);
    judged(
        j.env,
        j.ic.perform(EffectEntry::Pure(PureEffect::Cancellation)),
        j.node,
        j.ty,
    )
}

fn infer_spawn_args(env: &mut TyEnv, args: &mut List<HirSpawnArg>, ic: &mut InferCx<'_>)
    ensures
        walked(*final(env), final(ic)@, *final(args)) == spawn_args_rule(
            *old(env),
            *old(args),
            old(ic)@,
        ),
        sound(*old(env), old(ic)@, *final(env), final(ic)@),
    decreases *old(args), 0nat,
{
    proof {
        reveal(spawn_args_rule);
        reveal(synth_expr_rule);
        reveal(check_expr_rule);
    }
    match args {
        List::Nil => {},
        List::Cons(arg, rest) => {
            let ty = match arg.ty {
                Some(ty) => {
                    check_expr(env, &mut arg.init, ty, ic);
                    ty
                },
                None => synth_expr(env, &mut arg.init, ic),
            };
            apply_mode_transition(env, HirCallMode::Take, &arg.init, arg.span, ic);
            arg.ty = Some(ty);
            infer_spawn_args(env, rest, ic);
        },
    }
}

fn bind_spawn_args(env: &mut TyEnv, args: &List<HirSpawnArg>)
    ensures
        *final(env) == spawn_bound(*old(env), *args),
        final(env).frames() == old(env).frames(),
    decreases args,
{
    match args {
        List::Nil => {},
        List::Cons(arg, rest) => {
            let ty = match arg.ty {
                Some(ty) => ty,
                None => TyId::Error,
            };
            env.bind(arg.name.name, ty);
            bind_spawn_args(env, rest);
        },
    }
}

/// Synthesise a task.
pub fn synth_spawn(env: &mut TyEnv, spawn: &mut HirSpawn, ic: &mut InferCx<'_>) -> (r: TyId)
    ensures
        judged(*final(env), final(ic)@, *final(spawn), r) == synth_spawn_rule(
            *old(env),
            *old(spawn),
            old(ic)@,
        ),
        sound(*old(env), old(ic)@, *final(env), final(ic)@),
    decreases *old(spawn), 0nat,
{
    proof {
        reveal(synth_spawn_rule);
        reveal(spawn_args_rule);
        reveal(synth_block_rule);
    }
    infer_spawn_args(env, &mut spawn.args, ic);
    let outer_mutability = env.restrict_mutability();
    env.enter_scope();
    bind_spawn_args(env, &spawn.args);
    let ty = synth_block(env, &mut spawn.body, ic);
    env.exit_scope();
    env.restore_mutability(outer_mutability);
    ty
}

fn has_capability(
    entries: &List<EffectEntry>,
    env: &TyEnv,
    cap: CapabilityType,
    ic: &InferCx<'_>,
) -> (r: bool)
    ensures
        r == row_has_capability(*entries, *env, cap, ic@),
    decreases entries,
{
    match entries {
        List::Nil => false,
        List::Cons(head, tail) => {
            let first = match **head {
                EffectEntry::Capability(sym) => match env.lookup(sym) {
                    Some(ty) => match ic.kind(ty) {
                        TyKind::Capability(found) => found == cap,
                        _ => false,
                    },
                    None => false,
                },
                _ => false,
            };
            first || has_capability(tail, env, cap, ic)
        },
    }
}

/// Whether the declared row has a capability whose binding has the type `cap`.
fn declared_row_has_capability(ic: &InferCx<'_>, env: &TyEnv, cap: CapabilityType) -> (r: bool)
    ensures
        r == row_has_capability(ic@.declared_row.list, *env, cap, ic@),
{
    has_capability(&ic.declared_row.list, env, cap, ic)
}

/// Synthesise a scope region; no `cancellation` leaves a concurrency region.
pub fn synth_scope(env: &mut TyEnv, scope: &mut HirScope, ic: &mut InferCx<'_>, span: Span) -> (r:
    TyId)
    ensures
        judged(*final(env), final(ic)@, *final(scope), r) == synth_scope_rule(
            *old(env),
            *old(scope),
            old(ic)@,
            span,
        ),
        sound(*old(env), old(ic)@, *final(env), final(ic)@),
        old(scope).kind is Exec ==> !final(ic)@.row.skip(old(ic)@.row.len() as int).contains(
            EffectEntry::Pure(PureEffect::Cancellation),
        ),
    decreases *old(scope), 0nat,
{
    proof {
        reveal(synth_scope_rule);
        reveal(synth_block_rule);
    }
    match scope.kind {
        ScopeKind::Coherence => synth_block(env, &mut scope.body, ic),
        ScopeKind::Exec => {
            if !declared_row_has_capability(ic, env, CapabilityType::Executor) {
                let declared = ic.declared_row.dup();
                ic.emit_diagnostic(
                    DiagnosticClass::ExecutorMissingInRow,
                    span,
                    Message::ExecutorMissing { declared },
                );
            }
            env.enter_scope();
            match scope.name {
                Some(name) => {
                    env.bind(name.name, TyId::Error);
                },
                None => {},
            }
            let checkpoint: usize = ic.row.checkpoint();
            let ghost start = ic@;
            let ty = synth_block(env, &mut scope.body, ic);
            let entry = EffectEntry::Pure(PureEffect::Cancellation);
            proof {
                lemma_grown_discharged(start, ic@, entry);
                law_discharge(ic@.row, start.row.len(), entry, entry);
            }
            ic.row.discharge_since(checkpoint, &entry);
            env.exit_scope();
            ty
        },
    }
}

/// Synthesise `task.await`.
pub fn synth_await(env: &mut TyEnv, inner: &mut HirExpr, ic: &mut InferCx<'_>) -> (r: TyId)
    ensures
        judged(*final(env), final(ic)@, *final(inner), r) == synth_await_rule(
            *old(env),
            *old(inner),
            old(ic)@,
        ),
        sound(*old(env), old(ic)@, *final(env), final(ic)@),
    decreases *old(inner), 2nat,
{
    proof {
        reveal(synth_await_rule);
        reveal(synth_expr_rule);
    }
    let ty = synth_expr(env, inner, ic);
    ic.push_effect_entry(EffectEntry::Pure(PureEffect::Cancellation));
    ty
}

} // verus!
