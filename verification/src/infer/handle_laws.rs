//! Laws of handlers and regions.

use vstd::prelude::*;

use super::block::synth_block_rule;
use super::ctrl::exits::{block_exits, exits};
use super::cx::Ic;
use super::diverge_laws::expr_of;
use super::effect::{any_err, deeper, synth_handle_rule, synth_try_rule};
use super::env::{Bound, TyEnv};
use super::env_laws::aligned;
use super::expr::{check_expr_rule, synth_expr_rule, synth_region_rule};
use super::join_laws::{at_most, lemma_aligned, lemma_join};
use super::judge::Judged;
use super::mode::lattice::BindingState;
use super::row_acc::{discharged, law_discharge};
use crate::diag::Message;
use crate::effect::{EffectEntry, PureEffect};
use crate::hir::{HirBlock, HirExpr, HirExprKind, HirHandle};
use crate::intern::Symbol;
use crate::span::Span;
use crate::ty::TyId;

verus! {

proof fn lemma_handle(env: TyEnv, node: HirHandle, span: Span, ic: Ic)
    ensures
        ({
            let j = synth_expr_rule(env, expr_of(HirExprKind::Handle(Box::new(node)), span), ic);
            let h = synth_handle_rule(env, node, ic);
            j.env == h.env && j.ic == h.ic && j.ty == h.ty
        }),
{
    reveal(synth_expr_rule);
    reveal(synth_region_rule);
    reveal(synth_handle_rule);
    let expr = expr_of(HirExprKind::Handle(Box::new(node)), span);
    assert(synth_expr_rule(env, expr, ic) == synth_region_rule(env, expr, ic));
}

/// The context in which the body of a handler is walked: the handled error is
/// taken care of.
pub open spec fn handled_body(env: TyEnv, node: HirHandle, ic: Ic) -> Judged<
    HirBlock,
> {
    synth_block_rule(
        env,
        node.body,
        Ic {
            handled: ic.handled.push(EffectEntry::Pure(PureEffect::Raise(node.handled_ty))),
            ..ic
        },
    )
}

/// The names that the recovery sees: those before the handler, and the binder
/// with the type of the error.
pub open spec fn recovery_env(env: TyEnv, node: HirHandle) -> TyEnv {
    match node.binder {
        Some(name) => env.entered().with(
            Bound {
                name: name.name,
                ty: node.handled_ty,
                state: BindingState::Valid,
                mutable: true,
            },
        ),
        None => env,
    }
}

/// A handler of `err` has the type of its body, which is expected of the
/// recovery. Of the effects of the body the recovery goes on with all but the
/// handled error; what was performed before stays.
pub proof fn law_handle(env: TyEnv, node: HirHandle, span: Span, ic: Ic, e: EffectEntry)
    requires
        ic.text(node.effect.name) == "err"@,
        handled_body(env, node, ic).ty != TyId::Error,
        handled_body(env, node, ic).ic.row.len() >= ic.row.len(),
        handled_body(env, node, ic).ic.row.take(ic.row.len() as int) == ic.row,
    ensures
        ({
            let b = handled_body(env, node, ic);
            let j = synth_expr_rule(env, expr_of(HirExprKind::Handle(Box::new(node)), span), ic);
            let handled = EffectEntry::Pure(PureEffect::Raise(node.handled_ty));
            exists|row: Seq<EffectEntry>| {
                let left = Ic { handled: ic.handled, row, ..b.ic };
                let r = check_expr_rule(recovery_env(env, node), node.recovery, b.ty, left);
                &&& j.ty == b.ty
                &&& j.ic == #[trigger] check_expr_rule(
                    recovery_env(env, node),
                    node.recovery,
                    b.ty,
                    Ic { handled: ic.handled, row, ..b.ic },
                ).ic
                &&& row.len() >= ic.row.len()
                &&& row.take(ic.row.len() as int) == ic.row
                &&& row.skip(ic.row.len() as int).contains(e) <==> b.ic.row.skip(
                    ic.row.len() as int,
                ).contains(e) && e != handled
            }
        }),
{
    let n = ic.row.len();
    let b = handled_body(env, node, ic);
    let handled = EffectEntry::Pure(PureEffect::Raise(node.handled_ty));
    lemma_handle(env, node, span, ic);
    law_discharge(b.ic.row, n, handled, e);
    let row = discharged(b.ic.row, n, handled);
    reveal(synth_handle_rule);
    reveal(synth_block_rule);
    reveal(check_expr_rule);
    assert(row.len() >= n) by {
        assert(b.ic.row.take(n as int).len() == n);
    }
    let left = Ic { handled: ic.handled, row, ..b.ic };
    let r = check_expr_rule(recovery_env(env, node), node.recovery, b.ty, left);
    let h = synth_handle_rule(env, node, ic);
    assert(h.ic == r.ic);
}

/// A handler of anything but `err` is reported.
pub proof fn law_handle_only_err(env: TyEnv, node: HirHandle, span: Span, ic: Ic)
    requires
        ic.text(node.effect.name) != "err"@,
    ensures
        ({
            let reported = ic.error(
                node.effect.span,
                Message::HandlerOnlyErr { name: node.effect.name },
            );
            let j = synth_expr_rule(env, expr_of(HirExprKind::Handle(Box::new(node)), span), ic);
            j.ty == handled_body(env, node, reported).ty
        }),
{
    lemma_handle(env, node, span, ic);
    reveal(synth_handle_rule);
    reveal(synth_block_rule);
}

/// `?` on an operand that performs an error has the type of the operand and
/// passes its effects on; the calls directly in the operand count as
/// propagated. An operand of a known type without an error is reported.
pub proof fn law_propagate(env: TyEnv, inner: HirExpr, span: Span, ic: Ic)
    requires
        synth_expr_rule(
            env,
            inner,
            Ic { try_depth: deeper(ic.try_depth), ..ic },
        ).ic.row.len() >= ic.row.len(),
    ensures
        ({
            let o = synth_expr_rule(env, inner, Ic { try_depth: deeper(ic.try_depth), ..ic });
            let j = synth_expr_rule(env, expr_of(HirExprKind::Try(Box::new(inner)), span), ic);
            let raised = exists|i: int|
                ic.row.len() <= i < o.ic.row.len() && (#[trigger] o.ic.row[i]).is_err();
            &&& deeper(ic.try_depth) > 0
            &&& j.env == o.env
            &&& j.ic.row == o.ic.row
            &&& o.ty == TyId::Error || raised ==> j.ty == o.ty && j.ic.diags == o.ic.diags
            &&& o.ty != TyId::Error && !raised ==> j.ty == TyId::Error && j.ic.diags == o.ic.error(
                span,
                Message::NoErrorToPropagate,
            ).diags
        }),
{
    reveal(synth_expr_rule);
    reveal(synth_region_rule);
    reveal(synth_try_rule);
    let expr = expr_of(HirExprKind::Try(Box::new(inner)), span);
    assert(synth_expr_rule(env, expr, ic) == synth_region_rule(env, expr, ic));
    let t = synth_try_rule(env, inner, ic, span);
    let o = synth_expr_rule(env, inner, Ic { try_depth: deeper(ic.try_depth), ..ic });
    let n = ic.row.len() as int;
    let tail = o.ic.row.skip(n);
    assert forall|i: int| n <= i < o.ic.row.len() && (#[trigger] o.ic.row[i]).is_err() implies any_err(
        tail,
    ) by {
        assert(tail[i - n] == o.ic.row[i]);
    }
    if any_err(tail) {
        let i = choose|i: int| 0 <= i < tail.len() && (#[trigger] tail[i]).is_err();
        assert(o.ic.row[n + i].is_err());
    }
}

/// After a handler a name is at most in the state that it has at the end of
/// the body and at the end of the recovery, and valid exactly where it is valid
/// at both; where one of them always leaves the function, the states are those
/// of the other.
pub proof fn law_handle_joins(env: TyEnv, node: HirHandle, span: Span, ic: Ic, x: Symbol)
    requires
        ic.text(node.effect.name) == "err"@,
        handled_body(env, node, ic).ty != TyId::Error,
        node.binder is None,
        aligned(handled_body(env, node, ic).env, recovery_end(env, node, ic).env),
    ensures
        ({
            let b = handled_body(env, node, ic);
            let r = recovery_end(env, node, ic);
            let j = synth_expr_rule(env, expr_of(HirExprKind::Handle(Box::new(node)), span), ic);
            let left = block_exits(b.node);
            let right = exits(r.node);
            let valid = Some(BindingState::Valid);
            &&& !left && !right ==> at_most(j.env, b.env, x) && at_most(j.env, r.env, x)
            &&& !left && !right ==> (j.env.state_of(x) == valid <==> b.env.state_of(x) == valid
                && r.env.state_of(x) == valid)
            &&& left && !right ==> j.env == r.env
            &&& !left && right ==> j.env == b.env
        }),
{
    let b = handled_body(env, node, ic);
    let r = recovery_end(env, node, ic);
    lemma_handle(env, node, span, ic);
    lemma_aligned(b.env, r.env, b.env, x);
    lemma_join(r.env, b.env, x);
    lemma_handle_env(env, node, ic);
}

/// The end of the recovery of a handler without a binder: it starts from the
/// states before the handler.
pub open spec fn recovery_end(env: TyEnv, node: HirHandle, ic: Ic) -> Judged<
    HirExpr,
> {
    let b = handled_body(env, node, ic);
    check_expr_rule(
        env,
        node.recovery,
        b.ty,
        Ic {
            handled: ic.handled,
            row: discharged(
                b.ic.row,
                ic.row.len(),
                EffectEntry::Pure(PureEffect::Raise(node.handled_ty)),
            ),
            ..b.ic
        },
    )
}

proof fn lemma_handle_env(env: TyEnv, node: HirHandle, ic: Ic)
    requires
        ic.text(node.effect.name) == "err"@,
        handled_body(env, node, ic).ty != TyId::Error,
        node.binder is None,
    ensures
        ({
            let b = handled_body(env, node, ic);
            let r = recovery_end(env, node, ic);
            let h = synth_handle_rule(env, node, ic);
            &&& !block_exits(b.node) && exits(r.node) ==> h.env == b.env
            &&& block_exits(b.node) && !exits(r.node) ==> h.env == r.env
            &&& block_exits(b.node) == exits(r.node) ==> h.env == r.env.joined(b.env)
        }),
{
    reveal(synth_handle_rule);
    reveal(synth_block_rule);
    reveal(check_expr_rule);
}

} // verus!
