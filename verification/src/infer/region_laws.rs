//! Laws of compile-time and scope regions.

use vstd::prelude::*;

use super::block::synth_block_rule;
use super::comp::comptime::{synth_comptime_block_rule, synth_comptime_rule};
use super::cx::Ic;
use super::diverge_laws::expr_of;
use super::env::TyEnv;
use super::expr::{synth_expr_rule, synth_region_rule};
use super::row_acc::{law_discharge, law_discharge_envelope};
use super::spawn::{executor_checked, synth_scope_rule};
use crate::effect::{EffectEntry, PureEffect};
use crate::hir::{HirBlock, HirExpr, HirExprKind, HirScope};
use crate::span::Span;
use crate::syntax::ScopeKind;

verus! {

/// Whether an effect may stay within compile-time code: `panic` and `yield`.
pub open spec fn stays(e: EffectEntry) -> bool {
    match e {
        EffectEntry::Pure(PureEffect::Panic) => true,
        EffectEntry::Pure(PureEffect::Yield(_)) => true,
        _ => false,
    }
}

/// A compile-time expression has the type that it has as compile-time code.
/// Only its `panic` and `yield` effects end with it, and what was performed
/// before stays.
pub proof fn law_comptime(env: TyEnv, inner: HirExpr, span: Span, ic: Ic, e: EffectEntry)
    requires
        synth_expr_rule(env, inner, Ic { comptime: true, ..ic }).ic.row.len() >= ic.row.len(),
    ensures
        ({
            let n = ic.row.len() as int;
            let o = synth_expr_rule(env, inner, Ic { comptime: true, ..ic });
            let j = synth_expr_rule(
                env,
                expr_of(HirExprKind::Comptime(Box::new(inner)), span),
                ic,
            );
            &&& j.ty == o.ty
            &&& j.env == o.env
            &&& j.ic.diags == o.ic.diags
            &&& j.ic.comptime == ic.comptime
            &&& j.ic.row.take(n) == o.ic.row.take(n)
            &&& j.ic.row.skip(n).contains(e) <==> o.ic.row.skip(n).contains(e) && !stays(e)
        }),
{
    reveal(synth_expr_rule);
    reveal(synth_region_rule);
    reveal(synth_comptime_rule);
    let expr = expr_of(HirExprKind::Comptime(Box::new(inner)), span);
    assert(synth_expr_rule(env, expr, ic) == synth_region_rule(env, expr, ic));
    let c = synth_comptime_rule(env, inner, ic);
    let o = synth_expr_rule(env, inner, Ic { comptime: true, ..ic });
    law_discharge_envelope(o.ic.row, ic.row.len(), e);
}

/// The same of a compile-time block.
pub proof fn law_comptime_block(env: TyEnv, block: HirBlock, span: Span, ic: Ic, e: EffectEntry)
    requires
        synth_block_rule(env, block, Ic { comptime: true, ..ic }).ic.row.len() >= ic.row.len(),
    ensures
        ({
            let n = ic.row.len() as int;
            let o = synth_block_rule(env, block, Ic { comptime: true, ..ic });
            let j = synth_expr_rule(
                env,
                expr_of(HirExprKind::ComptimeBlock(Box::new(block)), span),
                ic,
            );
            &&& j.ty == o.ty
            &&& j.env == o.env
            &&& j.ic.diags == o.ic.diags
            &&& j.ic.comptime == ic.comptime
            &&& j.ic.row.take(n) == o.ic.row.take(n)
            &&& j.ic.row.skip(n).contains(e) <==> o.ic.row.skip(n).contains(e) && !stays(e)
        }),
{
    reveal(synth_expr_rule);
    reveal(synth_region_rule);
    reveal(synth_comptime_block_rule);
    reveal(synth_block_rule);
    let expr = expr_of(HirExprKind::ComptimeBlock(Box::new(block)), span);
    assert(synth_expr_rule(env, expr, ic) == synth_region_rule(env, expr, ic));
    let c = synth_comptime_block_rule(env, block, ic);
    let o = synth_block_rule(env, block, Ic { comptime: true, ..ic });
    law_discharge_envelope(o.ic.row, ic.row.len(), e);
}

/// An exec scope takes care of the `cancellation` of its body and passes every
/// other effect on; it has the type of its body.
pub proof fn law_exec_scope(env: TyEnv, body: HirBlock, span: Span, ic: Ic, e: EffectEntry)
    requires
        ({
            let start = executor_checked(env, ic, span);
            synth_block_rule(env.entered(), body, start).ic.row.len() >= ic.row.len()
        }),
    ensures
        ({
            let n = ic.row.len() as int;
            let start = executor_checked(env, ic, span);
            let b = synth_block_rule(env.entered(), body, start);
            let scope = HirScope { kind: ScopeKind::Exec, name: None, body };
            let j = synth_expr_rule(env, expr_of(HirExprKind::Scope(Box::new(scope)), span), ic);
            &&& j.ty == b.ty
            &&& j.env == b.env.exited()
            &&& j.ic.diags == b.ic.diags
            &&& j.ic.row.take(n) == b.ic.row.take(n)
            &&& j.ic.row.skip(n).contains(e) <==> b.ic.row.skip(n).contains(e) && e
                != EffectEntry::Pure(PureEffect::Cancellation)
        }),
{
    reveal(synth_expr_rule);
    reveal(synth_region_rule);
    reveal(synth_scope_rule);
    reveal(synth_block_rule);
    let scope = HirScope { kind: ScopeKind::Exec, name: None, body };
    let expr = expr_of(HirExprKind::Scope(Box::new(scope)), span);
    assert(synth_expr_rule(env, expr, ic) == synth_region_rule(env, expr, ic));
    let s = synth_scope_rule(env, scope, ic, span);
    let start = executor_checked(env, ic, span);
    let b = synth_block_rule(env.entered(), body, start);
    law_discharge(b.ic.row, ic.row.len(), EffectEntry::Pure(PureEffect::Cancellation), e);
}

/// A coherence scope is its body.
pub proof fn law_coherence_scope(env: TyEnv, body: HirBlock, span: Span, ic: Ic)
    ensures
        ({
            let b = synth_block_rule(env, body, ic);
            let scope = HirScope { kind: ScopeKind::Coherence, name: None, body };
            let j = synth_expr_rule(env, expr_of(HirExprKind::Scope(Box::new(scope)), span), ic);
            j.ty == b.ty && j.env == b.env && j.ic == b.ic
        }),
{
    reveal(synth_expr_rule);
    reveal(synth_region_rule);
    reveal(synth_scope_rule);
    reveal(synth_block_rule);
    let scope = HirScope { kind: ScopeKind::Coherence, name: None, body };
    let expr = expr_of(HirExprKind::Scope(Box::new(scope)), span);
    assert(synth_expr_rule(env, expr, ic) == synth_region_rule(env, expr, ic));
    let s = synth_scope_rule(env, scope, ic, span);
}

} // verus!
