//! Compile-time expressions.

use vstd::prelude::*;

use super::super::block::{synth_block, synth_block_rule};
use super::super::cx::{group_grown, lemma_grown_envelope, Ic, InferCx};
use super::super::env::TyEnv;
use super::super::expr::{synth_expr, synth_expr_rule};
use super::super::judge::{judged, sound, Judged};
use super::super::row_acc::{discharged_envelope, law_discharge_envelope};
use crate::effect::EffectEntry;
use crate::hir::{HirBlock, HirExpr};
use crate::ty::TyId;

verus! {

broadcast use group_grown;

/// The context after a compile-time body: `panic` and `yield: T` of the body
/// happen at compile time.
pub open spec fn comptime_left(before: Ic, after: Ic) -> Ic {
    Ic {
        row: discharged_envelope(after.row, before.row.len()),
        comptime: before.comptime,
        ..after
    }
}

/// Whether what was performed since `cp` has neither `panic` nor `yield: T`.
pub open spec fn outside_envelope(row: Seq<EffectEntry>, cp: nat) -> bool {
    forall|e: EffectEntry| #[trigger]
        row.skip(cp as int).contains(e) ==> !e.in_comptime_envelope()
}

proof fn lemma_outside_envelope(row: Seq<EffectEntry>, cp: nat)
    requires
        cp <= row.len(),
    ensures
        outside_envelope(discharged_envelope(row, cp), cp),
{
    assert forall|e: EffectEntry| #[trigger]
        discharged_envelope(row, cp).skip(cp as int).contains(e) implies !e.in_comptime_envelope() by {
        law_discharge_envelope(row, cp, e);
    }
}

/// `comptime expr`
#[verifier::opaque]
pub open spec fn synth_comptime_rule(env: TyEnv, inner: HirExpr, ic: Ic) -> Judged<HirExpr>
    decreases inner, 2nat,
{
    let j = synth_expr_rule(env, inner, Ic { comptime: true, ..ic });
    judged(j.env, comptime_left(ic, j.ic), j.node, j.ty)
}

/// `comptime { ... }`
#[verifier::opaque]
pub open spec fn synth_comptime_block_rule(env: TyEnv, block: HirBlock, ic: Ic) -> Judged<HirBlock>
    decreases block, 2nat,
{
    let j = synth_block_rule(env, block, Ic { comptime: true, ..ic });
    judged(j.env, comptime_left(ic, j.ic), j.node, j.ty)
}

/// Synthesise `comptime expr`: its `panic` and `yield: T` do not leave it.
pub fn synth_comptime(env: &mut TyEnv, inner: &mut HirExpr, ic: &mut InferCx<'_>) -> (r: TyId)
    ensures
        judged(*final(env), final(ic)@, *final(inner), r) == synth_comptime_rule(
            *old(env),
            *old(inner),
            old(ic)@,
        ),
        sound(*old(env), old(ic)@, *final(env), final(ic)@),
        outside_envelope(final(ic)@.row, old(ic)@.row.len()),
    decreases *old(inner), 2nat,
{
    proof {
        reveal(synth_comptime_rule);
        reveal(synth_expr_rule);
    }
    let prev = ic.in_comptime_context;
    let cp: usize = ic.row.checkpoint();
    ic.in_comptime_context = true;
    let ghost before = ic@;
    let ty = synth_expr(env, inner, ic);
    proof {
        lemma_grown_envelope(before, ic@);
        lemma_outside_envelope(ic@.row, before.row.len());
    }
    ic.row.discharge_comptime_envelope_since(cp);
    ic.in_comptime_context = prev;
    ty
}

/// Synthesise `comptime { ... }`: its `panic` and `yield: T` do not leave it.
pub fn synth_comptime_block(env: &mut TyEnv, block: &mut HirBlock, ic: &mut InferCx<'_>) -> (r: TyId)
    ensures
        judged(*final(env), final(ic)@, *final(block), r) == synth_comptime_block_rule(
            *old(env),
            *old(block),
            old(ic)@,
        ),
        sound(*old(env), old(ic)@, *final(env), final(ic)@),
        outside_envelope(final(ic)@.row, old(ic)@.row.len()),
    decreases *old(block), 2nat,
{
    proof {
        reveal(synth_comptime_block_rule);
        reveal(synth_block_rule);
    }
    let prev = ic.in_comptime_context;
    let cp: usize = ic.row.checkpoint();
    ic.in_comptime_context = true;
    let ghost before = ic@;
    let ty = synth_block(env, block, ic);
    proof {
        lemma_grown_envelope(before, ic@);
        lemma_outside_envelope(ic@.row, before.row.len());
    }
    ic.row.discharge_comptime_envelope_since(cp);
    ic.in_comptime_context = prev;
    ty
}

} // verus!
