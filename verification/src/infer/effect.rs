//! Error propagation and handlers.

use vstd::prelude::*;

use super::block::{synth_block, synth_block_rule};
use super::ctrl::branch::{join_paths, paths_joined};
use super::ctrl::exits::{block_always_exits, block_exits, expr_always_exits, exits};
use super::cx::{group_grown, kept, lemma_checkpoint, lemma_grown_discharged, Ic, InferCx};
use super::env::TyEnv;
use super::expr::{check_expr, check_expr_rule, synth_expr, synth_expr_rule};
use super::judge::{judged, sound, Judged};
use super::path::{failed, typed, Typed};
use super::row_acc::discharged;
use crate::diag::Message;
use crate::effect::{EffectEntry, PureEffect};
use crate::hir::{HirExpr, HirHandle};
use crate::span::Span;
use crate::ty::TyId;

verus! {

broadcast use group_grown;

/// A handler other than of `err` is reported.
pub open spec fn handler_checked(node: HirHandle, ic: Ic) -> Ic {
    if ic.text(node.effect.name) == "err"@ {
        ic
    } else {
        ic.error(node.effect.span, Message::HandlerOnlyErr { name: node.effect.name })
    }
}

/// A handler: the error that it handles does not leave it. The guarded block
/// and the recovery start from the same states; only one of them runs.
#[verifier::opaque]
pub open spec fn synth_handle_rule(env: TyEnv, node: HirHandle, ic: Ic) -> Judged<HirHandle>
    decreases node, 0nat,
{
    let entry = EffectEntry::Pure(PureEffect::Raise(node.handled_ty));
    let start = handler_checked(node, ic);
    let b = synth_block_rule(env, node.body, Ic { handled: start.handled.push(entry), ..start });
    let left = Ic {
        handled: start.handled,
        row: discharged(b.ic.row, start.row.len(), entry),
        ..b.ic
    };
    let inside = match node.binder {
        Some(name) => env.entered().with_valid(name.name, node.handled_ty),
        None => env,
    };
    let r = if b.ty == TyId::Error {
        synth_expr_rule(inside, node.recovery, left)
    } else {
        check_expr_rule(inside, node.recovery, b.ty, left)
    };
    let outside = match node.binder {
        Some(_) => r.env.exited(),
        None => r.env,
    };
    judged(
        paths_joined(b.env, block_exits(b.node), outside, exits(r.node)),
        r.ic,
        HirHandle { recovery: r.node, body: b.node, ..node },
        b.ty,
    )
}

/// Whether some entry is an `err: T`.
pub open spec fn any_err(entries: Seq<EffectEntry>) -> bool {
    exists|i: int| 0 <= i < entries.len() && (#[trigger] entries[i]).is_err()
}

/// What comes of an operand under `?` that performed `entries`. Whether the
/// function declares them is for its exit to say.
pub open spec fn try_result(ty: TyId, entries: Seq<EffectEntry>, ic: Ic, span: Span) -> Typed {
    if ty == TyId::Error {
        typed(ic, ty)
    } else if any_err(entries) {
        typed(ic, ty)
    } else {
        failed(ic, span, Message::NoErrorToPropagate)
    }
}

/// One more than `n`, saturating.
pub open spec fn deeper(n: usize) -> usize {
    if n == usize::MAX {
        n
    } else {
        (n + 1) as usize
    }
}

/// `operand?`: the operand must perform an `err: T`; its value is the value of
/// the whole.
#[verifier::opaque]
pub open spec fn synth_try_rule(env: TyEnv, inner: HirExpr, ic: Ic, span: Span) -> Judged<HirExpr>
    decreases inner, 2nat,
{
    let j = synth_expr_rule(env, inner, Ic { try_depth: deeper(ic.try_depth), ..ic });
    let after = Ic { try_depth: ic.try_depth, ..j.ic };
    let t = try_result(j.ty, after.row.skip(ic.row.len() as int), after, span);
    judged(j.env, t.ic, j.node, t.ty)
}

/// Synthesise a handler.
pub fn synth_handle(env: &mut TyEnv, node: &mut HirHandle, ic: &mut InferCx<'_>) -> (r: TyId)
    ensures
        judged(*final(env), final(ic)@, *final(node), r) == synth_handle_rule(
            *old(env),
            *old(node),
            old(ic)@,
        ),
        sound(*old(env), old(ic)@, *final(env), final(ic)@),
    decreases *old(node), 0nat,
{
    proof {
        reveal(synth_handle_rule);
        reveal(synth_block_rule);
        reveal(synth_expr_rule);
        reveal(check_expr_rule);
    }
    let effect = node.effect;
    if !ic.lower.interner.reads(effect.name, "err") {
        ic.emit_typecheck_error(effect.span, Message::HandlerOnlyErr { name: effect.name });
    }
    let ghost start = ic@;
    let entering = env.dup();
    let handled_ty = node.handled_ty;
    let handled_entry = EffectEntry::Pure(PureEffect::Raise(handled_ty));
    let checkpoint: usize = ic.row.checkpoint();
    ic.discharged_effects.push(handled_entry);
    let ghost pushed = ic@;
    let body_ty = synth_block(env, &mut node.body, ic);
    ic.discharged_effects.pop();
    proof {
        assert(start.handled.push(handled_entry).drop_last() == start.handled);
        lemma_grown_discharged(pushed, ic@, handled_entry);
    }
    ic.row.discharge_since(checkpoint, &handled_entry);
    let body_exits = block_always_exits(&node.body);
    let mut body_state = entering;
    core::mem::swap(env, &mut body_state);
    let error = ic.ty_error();
    match node.binder {
        Some(name) => {
            env.enter_scope();
            env.bind(name.name, handled_ty);
        },
        None => {},
    }
    if body_ty == error {
        synth_expr(env, &mut node.recovery, ic);
    } else {
        check_expr(env, &mut node.recovery, body_ty, ic);
    }
    if node.binder.is_some() {
        env.exit_scope();
    }
    let recovery_exits = expr_always_exits(&node.recovery);
    assert(kept(start, ic@));
    join_paths(env, body_state, body_exits, recovery_exits);
    body_ty
}

fn performs_err(ic: &InferCx<'_>, cp: usize) -> (r: bool)
    requires
        cp <= ic@.row.len(),
    ensures
        r == any_err(ic@.row.skip(cp as int)),
{
    let entries = ic.row.entries_since(cp);
    let mut i: usize = 0;
    while i < entries.len()
        invariant
            i <= entries.len(),
            entries@ == ic@.row.skip(cp as int),
            forall|j: int| 0 <= j < i ==> !(#[trigger] entries@[j]).is_err(),
        decreases entries.len() - i,
    {
        match entries[i] {
            EffectEntry::Pure(PureEffect::Raise(_)) => {
                assert(entries@[i as int].is_err());
                return true;
            },
            _ => {},
        }
        i += 1;
    }
    false
}

/// Synthesise `operand?`.
pub fn synth_try(env: &mut TyEnv, inner: &mut HirExpr, ic: &mut InferCx<'_>, span: Span) -> (r: TyId)
    ensures
        judged(*final(env), final(ic)@, *final(inner), r) == synth_try_rule(
            *old(env),
            *old(inner),
            old(ic)@,
            span,
        ),
        sound(*old(env), old(ic)@, *final(env), final(ic)@),
    decreases *old(inner), 2nat,
{
    proof {
        reveal(synth_try_rule);
        reveal(synth_expr_rule);
    }
    let checkpoint: usize = ic.row.checkpoint();
    let depth: usize = ic.try_position_depth;
    if depth < usize::MAX {
        ic.try_position_depth = depth + 1;
    }
    let ghost before = ic@;
    let ty = synth_expr(env, inner, ic);
    proof {
        lemma_checkpoint(before, ic@);
    }
    ic.try_position_depth = depth;
    if ty == ic.ty_error() {
        return ic.ty_error();
    }
    if !performs_err(ic, checkpoint) {
        ic.emit_typecheck_error(span, Message::NoErrorToPropagate);
        return ic.ty_error();
    }
    ty
}

} // verus!
