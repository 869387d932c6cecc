//! Laws of mode keywords on arguments.

use vstd::prelude::*;

use super::arg_laws::{lemma_lone_arg, lemma_single, lemma_step};
use super::call::args::{arg_rule, check_args_rule, named_reports, ArgSite};
use super::call::capability::translated_all;
use super::call::direct::{call_performed, param_types};
use super::call::err_propagation::propagation_check;
use super::callee_laws::{call_of, entry_name, is_function, lemma_call, lemma_function};
use super::cx::Ic;
use super::env::{Bound, TyEnv};
use super::env_laws::law_transition;
use super::expr::synth_expr_rule;
use super::mode::lattice::BindingState;
use super::mode::transitions::binding_step;
use super::name_laws::is_name;
use crate::diag::{severity_of, DiagnosticClass, Message};
use crate::effect::EffectEntry;
use crate::hir::{HirCallArg, HirCallMode, HirExpr};
use crate::intern::Symbol;
use crate::list::List;
use crate::sig::{FnSig, Param};
use crate::span::Span;
use crate::ty::{BindingId, TyId};

verus! {

proof fn lemma_single_named(arg: HirCallArg, site: ArgSite, ic: Ic)
    requires
        arg.name is None,
    ensures
        named_reports(List::Cons(Box::new(arg), Box::new(List::Nil)), site, ic) == ic,
{
    reveal_with_fuel(named_reports, 2);
}

proof fn lemma_single_params(param: Param)
    ensures
        param_types(List::Cons(Box::new(param), Box::new(List::Nil))) == List::Cons(
            Box::new(param.ty),
            Box::new(List::Nil),
        ),
        (List::Cons(Box::new(param), Box::new(List::<Param>::Nil))).length() == 1,
{
    reveal_with_fuel(param_types, 2);
    let none: List<Param> = List::Nil;
    assert(none.length() == 0);
}

/// What a call without effects leaves behind once its arguments are walked.
proof fn lemma_quiet(
    id: BindingId,
    name: Symbol,
    sig: FnSig,
    args: List<HirCallArg>,
    ic: Ic,
    span: Span,
)
    requires
        sig.effects.list == List::<EffectEntry>::Nil,
        !ic.comptime,
    ensures
        call_performed(id, name, sig, args, ic, span).diags == ic.diags,
{
    let recorded = Ic { fn_calls: ic.fn_calls.insert(span, id), ..ic };
    let none: List<EffectEntry> = List::Nil;
    assert(translated_all(none, sig.params, None, args, recorded) == none);
    assert(recorded.perform_all(none) == recorded);
    reveal(propagation_check);
}

/// What a call does to the state of its only argument: `take` consumes a valid
/// name, `init` makes an uninitialised one valid, `mutable` leaves a valid one
/// as it is. In any other state the call is reported and the state stays, and
/// so it is where `init` or `mutable` names what may not be written.
pub proof fn law_call_mode(
    env: TyEnv,
    callee: HirExpr,
    arg: HirCallArg,
    mode: HirCallMode,
    x: Symbol,
    b: Bound,
    id: BindingId,
    sig: FnSig,
    param: Param,
    ic: Ic,
    span: Span,
)
    requires
        is_function(callee, id, sig, ic),
        sig.params == List::Cons(Box::new(param), Box::new(List::Nil)),
        b.ty != TyId::Error,
        sig.effects.list == List::<EffectEntry>::Nil,
        arg.mode == Some(mode),
        arg.name is None,
        is_name(arg.expr, x),
        env.find(x) == Some(b),
        b.ty == param.ty,
    ensures
        ({
            let args = List::Cons(Box::new(arg), Box::new(List::Nil));
            let j = synth_expr_rule(env, call_of(callee, args, span), ic);
            let written = mode == HirCallMode::Init || mode == HirCallMode::Mutable;
            let fits = if mode == HirCallMode::Init {
                b.state is Uninit
            } else {
                b.state is Valid
            };
            &&& j.ty == sig.return_ty
            &&& written && !b.mutable && (fits || mode == HirCallMode::Init) ==> j.env.state_of(x)
                == Some(b.state) && j.ic.diags == ic.emit(
                DiagnosticClass::ModeViolation,
                arg.span,
                (Message::ImmutableBorrow { mode, binding: x, member: None }),
            ).diags
            &&& fits && (!written || b.mutable) ==> j.ic.diags == ic.diags && j.env.state_of(x)
                == Some(
                if mode == HirCallMode::Take {
                    BindingState::Consumed
                } else {
                    BindingState::Valid
                },
            )
            &&& !fits ==> j.env.state_of(x) == Some(b.state)
            &&& !fits && severity_of(ic.lints.levels, DiagnosticClass::TypecheckError) is Some
                && severity_of(ic.lints.levels, DiagnosticClass::ModeViolation) is Some
                ==> j.ic.diags.len() > ic.diags.len()
        }),
{
    let args = List::Cons(Box::new(arg), Box::new(List::<HirCallArg>::Nil));
    lemma_call(env, callee, args, id, sig, ic, span);
    let none: List<HirCallArg> = List::Nil;
    let name = entry_name(callee, ic);
    lemma_single(env, arg, mode, x, b, ic);
    lemma_single_named(arg, ArgSite::Function(name), ic);
    lemma_single_params(param);
    law_transition(env, x, BindingState::Consumed, x);
    law_transition(env, x, BindingState::Valid, x);
    let tys = List::Cons(Box::new(b.ty), Box::new(List::<TyId>::Nil));
    let first = arg_rule(env, arg, Some(b.ty), ic);
    lemma_step(first.env, first.ic, mode, first.node.expr, x, first.node.span);
    lemma_lone_arg(env, arg, b.ty, ic);
    let w = check_args_rule(env, args, tys, true, ic);
    let s = binding_step(env, first.ic, mode, x, arg.span);
    assert(w.env == s.env && w.ic == s.ic);
    lemma_quiet(id, name, sig, w.node, w.ic, span);
    assert(args.length() == 1) by {
        assert(none.length() == 0);
    }
    lemma_function(env, args, id, name, sig, ic, span);
}

} // verus!
