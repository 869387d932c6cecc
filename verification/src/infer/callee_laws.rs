//! What a call of a function comes down to.

use vstd::prelude::*;

use super::call::args::{check_args_rule, named_reports, ArgSite};
use super::call::comptime_purity::purity_check;
use super::call::direct::{
    call_performed, call_target, function_call_rule, param_types, synth_call_rule, target_call_rule,
    CallTarget,
};
use super::call::err_propagation::propagation_check;
use super::cx::Ic;
use super::env::TyEnv;
use super::expr::{synth_access_rule, synth_expr_rule};
use super::laws::law_propagation;
use super::name_laws::is_name;
use crate::cx::sig_for;
use crate::effect::EffectEntry;
use crate::hir::{HirCall, HirCallArg, HirExpr, HirExprKind};
use crate::intern::Symbol;
use crate::list::List;
use crate::package::{BindingKind, Resolved};
use crate::sig::FnSig;
use crate::span::Span;
use crate::ty::{BindingId, TyId};

verus! {

/// Whether `callee` is a path to the function `id`, which has the signature
/// `sig`, outside of compile-time code.
pub open spec fn is_function(callee: HirExpr, id: BindingId, sig: FnSig, ic: Ic) -> bool {
    &&& !ic.comptime
    &&& sig_for(ic.ty_cx.sigs, id) == Some(sig)
    &&& forall|n: Symbol| #[trigger] is_name(callee, n) ==> ic.text(n) != "discriminant_of"@
    &&& match (callee.kind, ic.package) {
        (HirExprKind::Path(path), Some(package)) => match package.target(path.span) {
            Some((Resolved::Binding(found), Some(entry))) => found == id && entry.kind
                == BindingKind::Function,
            _ => false,
        },
        _ => false,
    }
}

/// A call expression.
pub open spec fn call_of(callee: HirExpr, args: List<HirCallArg>, span: Span) -> HirExpr {
    HirExpr {
        span,
        kind: HirExprKind::Call(Box::new(HirCall { callee, args })),
        ty: TyId::Error,
    }
}

/// The name that a function was declared with.
pub open spec fn entry_name(callee: HirExpr, ic: Ic) -> Symbol {
    match (callee.kind, ic.package) {
        (HirExprKind::Path(path), Some(package)) => match package.target(path.span) {
            Some((_, Some(entry))) => entry.name,
            _ => arbitrary(),
        },
        _ => arbitrary(),
    }
}

pub(crate) proof fn lemma_call(
    env: TyEnv,
    callee: HirExpr,
    args: List<HirCallArg>,
    id: BindingId,
    sig: FnSig,
    ic: Ic,
    span: Span,
)
    requires
        is_function(callee, id, sig, ic),
    ensures
        ({
            let j = synth_expr_rule(env, call_of(callee, args, span), ic);
            let f = function_call_rule(env, args, id, entry_name(callee, ic), ic, span);
            j.env == f.env && j.ic == f.ic && j.ty == f.ty
        }),
{
    reveal(synth_expr_rule);
    reveal(synth_access_rule);
    reveal(synth_call_rule);
    reveal(target_call_rule);
    reveal(function_call_rule);
    reveal(call_target);
    let expr = call_of(callee, args, span);
    let call = HirCall { callee, args };
    match callee.kind {
        HirExprKind::Path(path) => {
            match path.single() {
                Some(n) => {
                    assert(is_name(callee, n));
                },
                None => {},
            }
            let target = call_target(path, ic);
            assert(target == CallTarget::Function(id, entry_name(callee, ic)));
            assert(target_call_rule(env, args, target, ic, span) == function_call_rule(
                env,
                args,
                id,
                entry_name(callee, ic),
                ic,
                span,
            ));
        },
        _ => {},
    }
    let j = synth_call_rule(env, call, ic, span);
    assert(synth_expr_rule(env, expr, ic) == synth_access_rule(env, expr, ic));
}

pub(crate) proof fn lemma_purity_row(sig: FnSig, name: Symbol, span: Span, ic: Ic)
    ensures
        purity_check(sig.effects, name, span, ic).row == ic.row,
{
    reveal(purity_check);
}

pub(crate) proof fn lemma_propagation_row(
    entries: List<EffectEntry>,
    name: Symbol,
    span: Span,
    ic: Ic,
)
    ensures
        ({
            let after = propagation_check(entries, name, span, ic);
            after == Ic { diags: after.diags, ..ic }
        }),
{
    law_propagation(entries, name, span, ic, TyId::Error);
}

/// A call with as many arguments as there are parameters: the arguments are
/// walked, and then the call is performed.
pub(crate) proof fn lemma_function(
    env: TyEnv,
    args: List<HirCallArg>,
    id: BindingId,
    name: Symbol,
    sig: FnSig,
    ic: Ic,
    span: Span,
)
    requires
        sig_for(ic.ty_cx.sigs, id) == Some(sig),
        args.length() == sig.params.length(),
    ensures
        ({
            let f = function_call_rule(env, args, id, name, ic, span);
            let named = named_reports(args, ArgSite::Function(name), ic);
            let w = check_args_rule(env, args, param_types(sig.params), true, named);
            &&& f.env == w.env
            &&& f.ic == call_performed(id, name, sig, w.node, w.ic, span)
            &&& f.ty == sig.return_ty
        }),
{
    reveal(function_call_rule);
    reveal(check_args_rule);
}

} // verus!
