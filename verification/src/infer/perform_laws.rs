//! Laws of the effects that calls perform.

use vstd::prelude::*;

use super::arg_laws::lemma_arg_name;
use super::call::args::{arg_rule, check_args_rule, named_reports, ArgSite};
use super::call::capability::{
    argument_source, parameter_source, source, translated, translated_all,
};
use super::call::comptime_purity::purity_check;
use super::call::direct::param_types;
use super::callee_laws::{
    call_of, entry_name, is_function, lemma_call, lemma_function, lemma_propagation_row,
    lemma_purity_row,
};
use super::cx::Ic;
use super::env::TyEnv;
use super::expr::{synth_access_rule, synth_expr_rule};
use super::method::{
    function_method_rule, method_args_rule, method_target, synth_method_call_rule, MethodTarget,
};
use super::mode::transitions::{optional_mode_step, step};
use super::name_laws::{holds, is_name, law_read};
use crate::effect::{lists, EffectEntry};
use crate::hir::{HirCallArg, HirExpr, HirExprKind, HirMethodCall};
use crate::intern::Symbol;
use crate::list::List;
use crate::sig::{FnSig, Param};
use crate::span::Span;
use crate::syntax::Ident;
use crate::ty::{BindingId, TyId};

verus! {

/// The argument for the first parameter named `param` is the name `from`.
pub open spec fn given(
    params: List<Param>,
    args: List<HirCallArg>,
    param: Symbol,
    from: Symbol,
) -> bool
    decreases params,
{
    match (params, args) {
        (List::Cons(p, more), List::Cons(arg, rest)) => if p.name == param {
            is_name(arg.expr, from)
        } else {
            given(*more, *rest, param, from)
        },
        _ => false,
    }
}

/// No parameter is named `param`.
pub open spec fn unknown(params: List<Param>, param: Symbol) -> bool
    decreases params,
{
    match params {
        List::Nil => true,
        List::Cons(p, more) => p.name != param && unknown(*more, param),
    }
}

proof fn lemma_given(
    params: List<Param>,
    env: TyEnv,
    args: List<HirCallArg>,
    tys: List<TyId>,
    moves: bool,
    ic: Ic,
    param: Symbol,
    from: Symbol,
)
    requires
        given(params, args, param, from),
    ensures
        given(params, check_args_rule(env, args, tys, moves, ic).node, param, from),
    decreases args,
{
    reveal(check_args_rule);
    match (args, tys) {
        (List::Cons(arg, rest), List::Cons(ty, more_tys)) => {
            let first = arg_rule(env, *arg, Some(*ty), ic);
            let s = if moves {
                optional_mode_step(
                    first.env,
                    first.ic,
                    first.node.mode,
                    first.node.expr,
                    first.node.span,
                )
            } else {
                step(first.env, first.ic)
            };
            match params {
                List::Cons(p, more) => {
                    if p.name == param {
                        lemma_arg_name(env, *arg, Some(*ty), ic, from);
                    } else {
                        lemma_given(*more, s.env, *rest, *more_tys, moves, s.ic, param, from);
                    }
                },
                List::Nil => {},
            }
        },
        _ => {},
    }
}

proof fn lemma_given_source(
    params: List<Param>,
    args: List<HirCallArg>,
    param: Symbol,
    from: Symbol,
)
    ensures
        given(params, args, param, from) ==> argument_source(params, args, param) == Some(from),
        unknown(params, param) ==> argument_source(params, args, param) is None,
    decreases params,
{
    match (params, args) {
        (List::Cons(p, more), List::Cons(arg, rest)) => {
            if p.name != param {
                lemma_given_source(*more, *rest, param, from);
            }
            reveal(source);
        },
        _ => {},
    }
}

pub(crate) proof fn lemma_performed(entries: List<EffectEntry>, ic: Ic, e: EffectEntry)
    ensures
        ({
            let after = ic.perform_all(entries);
            &&& lists(entries, e) || ic.row.contains(e) ==> after.row.contains(e)
            &&& after.row.contains(e) ==> lists(entries, e) || ic.row.contains(e)
            &&& after == Ic { row: after.row, ..ic }
        }),
    decreases entries,
{
    match entries {
        List::Nil => {},
        List::Cons(head, tail) => {
            let next = ic.perform(*head);
            lemma_performed(*tail, next, e);
            assert(next.row[ic.row.len() as int] == *head);
            if ic.row.contains(e) {
                let i = choose|i: int| 0 <= i < ic.row.len() && ic.row[i] == e;
                assert(next.row[i] == e);
            }
            if next.row.contains(e) {
                let i = choose|i: int| 0 <= i < next.row.len() && next.row[i] == e;
                if i < ic.row.len() {
                    assert(ic.row[i] == e);
                }
            }
        },
    }
}

proof fn lemma_translated(
    entries: List<EffectEntry>,
    params: List<Param>,
    receiver: Option<HirExpr>,
    args: List<HirCallArg>,
    ic: Ic,
    e: EffectEntry,
)
    requires
        lists(entries, e),
    ensures
        lists(
            translated_all(entries, params, receiver, args, ic),
            translated(e, params, receiver, args, ic),
        ),
    decreases entries,
{
    match entries {
        List::Nil => {},
        List::Cons(head, tail) => {
            if *head != e {
                lemma_translated(*tail, params, receiver, args, ic, e);
            }
        },
    }
}

/// The root of the capability that a name stands for.
pub open spec fn origin(ic: Ic, name: Symbol) -> Symbol {
    if ic.aliases.contains_key(name) {
        ic.aliases[name]
    } else {
        name
    }
}

/// A call of a function performs every effect that the function declares: a
/// pure effect as it is, the capability of a parameter as that of the name
/// that was given for it.
pub proof fn law_call_performs(
    env: TyEnv,
    callee: HirExpr,
    args: List<HirCallArg>,
    id: BindingId,
    sig: FnSig,
    ic: Ic,
    span: Span,
    e: EffectEntry,
    param: Symbol,
    from: Symbol,
)
    requires
        is_function(callee, id, sig, ic),
        args.length() == sig.params.length(),
        lists(sig.effects.list, e),
    ensures
        ({
            let j = synth_expr_rule(env, call_of(callee, args, span), ic);
            &&& e is Pure ==> j.ic.row.contains(e)
            &&& e == EffectEntry::Capability(param) && given(sig.params, args, param, from)
                ==> j.ic.row.contains(EffectEntry::Capability(origin(j.ic, from)))
            &&& e == EffectEntry::Capability(param) && unknown(sig.params, param)
                ==> j.ic.row.contains(e)
            &&& j.ic.fn_calls.contains_key(span) && j.ic.fn_calls[span] == id
            &&& j.ty == sig.return_ty
        }),
{
    lemma_call(env, callee, args, id, sig, ic, span);
    let name = entry_name(callee, ic);
    let named = named_reports(args, ArgSite::Function(name), ic);
    let tys = param_types(sig.params);
    let w = check_args_rule(env, args, tys, true, named);
    lemma_function(env, args, id, name, sig, ic, span);
    let pure = if w.ic.comptime {
        purity_check(sig.effects, name, span, w.ic)
    } else {
        w.ic
    };
    lemma_purity_row(sig, name, span, w.ic);
    let recorded = Ic { fn_calls: pure.fn_calls.insert(span, id), ..pure };
    let entries = translated_all(sig.effects.list, sig.params, None, w.node, recorded);
    let t = translated(e, sig.params, None, w.node, recorded);
    lemma_translated(sig.effects.list, sig.params, None, w.node, recorded, e);
    lemma_performed(entries, recorded, t);
    lemma_propagation_row(entries, name, span, recorded.perform_all(entries));
    if given(sig.params, args, param, from) {
        lemma_given(sig.params, env, args, tys, true, named, param, from);
    }
    lemma_given_source(sig.params, w.node, param, from);
}

/// A call of a function without parameters performs exactly what the function
/// declares.
pub proof fn law_call_performs_only(
    env: TyEnv,
    callee: HirExpr,
    id: BindingId,
    sig: FnSig,
    ic: Ic,
    span: Span,
    e: EffectEntry,
)
    requires
        is_function(callee, id, sig, ic),
        sig.params == List::<Param>::Nil,
    ensures
        ({
            let j = synth_expr_rule(env, call_of(callee, List::Nil, span), ic);
            &&& j.ic.row.contains(e) <==> ic.row.contains(e) || lists(sig.effects.list, e)
            &&& j.env == env
            &&& j.ty == sig.return_ty
        }),
{
    let args: List<HirCallArg> = List::Nil;
    lemma_call(env, callee, args, id, sig, ic, span);
    reveal(check_args_rule);
    lemma_function(env, args, id, entry_name(callee, ic), sig, ic, span);
    let name = entry_name(callee, ic);
    let recorded = Ic { fn_calls: ic.fn_calls.insert(span, id), ..ic };
    let entries = translated_all(sig.effects.list, sig.params, None, args, recorded);
    lemma_untranslated(sig.effects.list, recorded);
    lemma_performed(entries, recorded, e);
    lemma_propagation_row(entries, name, span, recorded.perform_all(entries));
}

proof fn lemma_untranslated(entries: List<EffectEntry>, ic: Ic)
    ensures
        translated_all(entries, List::Nil, None, List::Nil, ic) == entries,
    decreases entries,
{
    match entries {
        List::Nil => {},
        List::Cons(_, tail) => lemma_untranslated(*tail, ic),
    }
}

/// A method call.
pub open spec fn method_of(
    receiver: HirExpr,
    name: Ident,
    args: List<HirCallArg>,
    span: Span,
) -> HirExpr {
    HirExpr {
        span,
        kind: HirExprKind::MethodCall(Box::new(HirMethodCall { receiver, name, args })),
        ty: TyId::Error,
    }
}

/// A method call on a name that resolves to a function performs every effect
/// that the function declares: a pure effect as it is, the capability of its
/// first parameter as that of the receiver, and the capability of another
/// parameter as that of the name that was given for it. The function is
/// recorded for the call, and the call has the type that it returns.
pub proof fn law_method_performs(
    env: TyEnv,
    receiver: HirExpr,
    owner: Symbol,
    ty: TyId,
    name: Ident,
    args: List<HirCallArg>,
    id: BindingId,
    sig: FnSig,
    first: Param,
    others: List<Param>,
    ic: Ic,
    span: Span,
    e: EffectEntry,
    param: Symbol,
    from: Symbol,
)
    requires
        is_name(receiver, owner),
        holds(env, owner, ty),
        method_target(name.name, ty, ic) == MethodTarget::Function(id, sig),
        sig.params == List::Cons(Box::new(first), Box::new(others)),
        args.length() == others.length(),
        lists(sig.effects.list, e),
    ensures
        ({
            let j = synth_expr_rule(env, method_of(receiver, name, args, span), ic);
            &&& e is Pure ==> j.ic.row.contains(e)
            &&& e == EffectEntry::Capability(first.name) ==> j.ic.row.contains(
                EffectEntry::Capability(origin(j.ic, owner)),
            )
            &&& e == EffectEntry::Capability(param) && param != first.name && given(
                others,
                args,
                param,
                from,
            ) ==> j.ic.row.contains(EffectEntry::Capability(origin(j.ic, from)))
            &&& e == EffectEntry::Capability(param) && param != first.name && unknown(
                others,
                param,
            ) ==> j.ic.row.contains(e)
            &&& j.ty == sig.return_ty
        }),
{
    reveal(synth_expr_rule);
    reveal(synth_access_rule);
    reveal(synth_method_call_rule);
    reveal(method_args_rule);
    reveal(function_method_rule);
    reveal(check_args_rule);
    let expr = method_of(receiver, name, args, span);
    let call = HirMethodCall { receiver, name, args };
    assert(synth_expr_rule(env, expr, ic) == synth_access_rule(env, expr, ic));
    let m = synth_method_call_rule(env, call, ic, span);
    let inner = Ic { try_depth: 0, ..ic };
    law_read(env, receiver, owner, inner);
    let r = synth_expr_rule(env, receiver, inner);
    let recorded = Ic { methods: ic.methods.insert(span, id), ..ic };
    let tys = param_types(others);
    let w = check_args_rule(env, args, tys, false, recorded);
    assert(method_args_rule(env, args, r.node, name.name, ty, ic, span) == function_method_rule(
        env,
        args,
        r.node,
        name.name,
        id,
        sig,
        ic,
        span,
    ));
    let entries = translated_all(sig.effects.list, sig.params, Some(r.node), w.node, w.ic);
    let t = translated(e, sig.params, Some(r.node), w.node, w.ic);
    lemma_translated(sig.effects.list, sig.params, Some(r.node), w.node, w.ic, e);
    lemma_performed(entries, w.ic, t);
    lemma_propagation_row(entries, name.name, span, w.ic.perform_all(entries));
    if given(others, args, param, from) {
        lemma_given(others, env, args, tys, false, recorded, param, from);
    }
    lemma_given_source(others, w.node, param, from);
    assert(is_name(r.node, owner));
    assert(source(r.node) == Some(owner)) by {
        reveal(source);
    }
    assert(parameter_source(sig.params, Some(r.node), w.node, first.name) == Some(owner));
}

} // verus!
