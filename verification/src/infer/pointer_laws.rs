//! Laws of calls through function pointers.

use vstd::prelude::*;

use super::call::args::ArgSite;
use super::call::direct::{call_target, synth_call_rule};
use super::call::indirect::{indirect_call_rule, pointer_call_rule, pointer_tys};
use super::call_laws::{lemma_no_names, lemma_pointer_count, lemma_takes, mentions, takes_each};
use super::callee_laws::{call_of, lemma_propagation_row};
use super::cx::Ic;
use super::env::TyEnv;
use super::expr::{synth_access_rule, synth_expr_rule};
use super::mode::lattice::BindingState;
use super::name_laws::{holds, is_name, law_read};
use super::perform_laws::lemma_performed;
use crate::effect::{lists, EffectEntry};
use crate::hir::{HirCall, HirCallArg, HirExpr, HirExprKind};
use crate::intern::Symbol;
use crate::list::List;
use crate::package::{BindingKind, Resolved};
use crate::sig::FnPtrSig;
use crate::span::Span;
use crate::ty::{TyId, TyKind};

verus! {

/// A call through a function pointer that a name holds, with `take` on each
/// argument, consumes exactly the names that are given, has the return type of
/// the pointer and performs its effects.
pub proof fn law_pointer_takes(
    env: TyEnv,
    callee: HirExpr,
    name: Symbol,
    ty: TyId,
    args: List<HirCallArg>,
    sig: FnPtrSig,
    ic: Ic,
    span: Span,
    x: Symbol,
)
    requires
        is_name(callee, name),
        holds(env, name, ty),
        ic.kind(ty) == TyKind::FnPtr(Box::new(sig)),
        match (callee.kind, ic.package) {
            (HirExprKind::Path(path), Some(package)) => match package.target(path.span) {
                Some((Resolved::Binding(_), Some(entry))) => entry.kind == BindingKind::Local
                    || entry.kind == BindingKind::Param,
                _ => false,
            },
            _ => false,
        },
        !ic.comptime,
        ic.text(name) != "discriminant_of"@,
        takes_each(args, pointer_tys(sig.params), env),
    ensures
        ({
            let j = synth_expr_rule(env, call_of(callee, args, span), ic);
            &&& mentions(args, x) ==> j.env.state_of(x) == Some(BindingState::Consumed)
            &&& !mentions(args, x) ==> j.env.find(x) == env.find(x)
            &&& j.ty == sig.return_ty
            &&& forall|e: EffectEntry| #[trigger]
                lists(sig.effects.list, e) ==> j.ic.row.contains(e)
        }),
{
    reveal(synth_expr_rule);
    reveal(synth_access_rule);
    reveal(synth_call_rule);
    reveal(call_target);
    reveal(indirect_call_rule);
    reveal(pointer_call_rule);
    let tys = pointer_tys(sig.params);
    let expr = call_of(callee, args, span);
    let call = HirCall { callee, args };
    assert(synth_expr_rule(env, expr, ic) == synth_access_rule(env, expr, ic));
    law_read(env, callee, name, Ic { try_depth: 0, ..ic });
    assert(ty != TyId::Error);
    assert(synth_call_rule(env, call, ic, span) == indirect_call_rule(env, call, ic, span));
    let p = pointer_call_rule(env, args, sig, ic, span);
    lemma_pointer_count(sig.params);
    lemma_no_names(args, tys, env, ArgSite::Pointer, ic);
    lemma_takes(env, args, tys, ic, x);
    let performed = ic.perform_all(sig.effects.list);
    let interned = performed.named("<fn-pointer>"@);
    lemma_propagation_row(
        sig.effects.list,
        performed.symbol("<fn-pointer>"@),
        span,
        interned,
    );
    assert forall|e: EffectEntry| #[trigger]
        lists(sig.effects.list, e) implies interned.row.contains(e) by {
        lemma_performed(sig.effects.list, ic, e);
    }
}

} // verus!
