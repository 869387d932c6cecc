//! Laws of calls: what becomes of arguments that are taken.

use vstd::prelude::*;

use super::arg_laws::{lemma_read_arg, lemma_step};
use super::call::args::{arg_rule, check_args_rule, named_reports, ArgSite};
use super::call::direct::param_types;
use super::call::indirect::pointer_tys;
use super::callee_laws::{call_of, entry_name, is_function, lemma_call, lemma_function};
use super::cx::Ic;
use super::env::TyEnv;
use super::env_laws::law_transition;
use super::expr::synth_expr_rule;
use super::mode::lattice::BindingState;
use super::mode::transitions::optional_mode_step;
use super::name_laws::{holds, is_name};
use crate::hir::{HirCallArg, HirCallMode, HirExpr};
use crate::intern::Symbol;
use crate::list::List;
use crate::sig::{FnPtrParam, FnSig, Param};
use crate::span::Span;
use crate::ty::{BindingId, TyId};

verus! {

/// Whether the function's arguments are names that are valid, taken, of the
/// types `tys` and different from each other.
pub open spec fn takes_each(args: List<HirCallArg>, tys: List<TyId>, env: TyEnv) -> bool
    decreases args,
{
    match (args, tys) {
        (List::Nil, List::Nil) => true,
        (List::Cons(arg, rest), List::Cons(ty, more)) => {
            &&& arg.mode == Some(HirCallMode::Take)
            &&& arg.name is None
            &&& exists|x: Symbol| #[trigger]
                is_name(arg.expr, x) && holds(env, x, *ty) && !mentions(*rest, x)
            &&& takes_each(*rest, *more, env)
        },
        _ => false,
    }
}

/// Whether one of the arguments is the name `x`.
pub open spec fn mentions(args: List<HirCallArg>, x: Symbol) -> bool
    decreases args,
{
    match args {
        List::Nil => false,
        List::Cons(arg, rest) => is_name(arg.expr, x) || mentions(*rest, x),
    }
}

pub(crate) proof fn lemma_takes(
    env: TyEnv,
    args: List<HirCallArg>,
    tys: List<TyId>,
    ic: Ic,
    x: Symbol,
)
    requires
        takes_each(args, tys, env),
    ensures
        ({
            let w = check_args_rule(env, args, tys, true, ic);
            &&& w.ic == ic
            &&& mentions(args, x) ==> w.env.state_of(x) == Some(BindingState::Consumed)
            &&& !mentions(args, x) ==> w.env.find(x) == env.find(x)
        }),
    decreases args,
{
    reveal(check_args_rule);
    reveal(arg_rule);
    match (args, tys) {
        (List::Cons(arg, rest), List::Cons(ty, more)) => {
            let y = choose|y: Symbol| #[trigger]
                is_name(arg.expr, y) && holds(env, y, *ty) && !mentions(*rest, y);
            lemma_read_arg(env, *arg, y, *ty, ic);
            let first = arg_rule(env, *arg, Some(*ty), ic);
            assert(first.env == env && first.ic == ic);
            let next = env.moved(y, BindingState::Consumed);
            law_transition(env, y, BindingState::Consumed, x);
            law_transition(env, y, BindingState::Consumed, y);
            let s = optional_mode_step(
                first.env,
                first.ic,
                first.node.mode,
                first.node.expr,
                first.node.span,
            );
            lemma_step(env, ic, HirCallMode::Take, first.node.expr, y, first.node.span);
            assert(s.env == next && s.ic == ic);
            lemma_takes_kept(*rest, *more, env, y);
            lemma_takes(next, *rest, *more, ic, x);
            lemma_one_name(arg.expr, x, y);
            let others = check_args_rule(next, *rest, *more, true, ic);
            let all = check_args_rule(env, args, tys, true, ic);
            assert(all.env == others.env && all.ic == others.ic);
        },
        _ => {},
    }
}

pub(crate) proof fn lemma_one_name(expr: HirExpr, x: Symbol, y: Symbol)
    ensures
        is_name(expr, x) && is_name(expr, y) ==> x == y,
{
}

pub(crate) proof fn lemma_takes_kept(args: List<HirCallArg>, tys: List<TyId>, env: TyEnv, y: Symbol)
    requires
        takes_each(args, tys, env),
        !mentions(args, y),
    ensures
        takes_each(args, tys, env.moved(y, BindingState::Consumed)),
    decreases args,
{
    match (args, tys) {
        (List::Cons(arg, rest), List::Cons(ty, more)) => {
            let x = choose|x: Symbol| #[trigger]
                is_name(arg.expr, x) && holds(env, x, *ty) && !mentions(*rest, x);
            law_transition(env, y, BindingState::Consumed, x);
            lemma_takes_kept(*rest, *more, env, y);
            assert(is_name(arg.expr, x) && holds(env.moved(y, BindingState::Consumed), x, *ty)
                && !mentions(*rest, x));
        },
        _ => {},
    }
}

pub(crate) proof fn lemma_no_names(
    args: List<HirCallArg>,
    tys: List<TyId>,
    env: TyEnv,
    site: ArgSite,
    ic: Ic,
)
    requires
        takes_each(args, tys, env),
    ensures
        named_reports(args, site, ic) == ic,
        args.length() == tys.length(),
    decreases args,
{
    match (args, tys) {
        (List::Cons(_, rest), List::Cons(_, more)) => {
            lemma_no_names(*rest, *more, env, site, ic);
        },
        _ => {},
    }
}

pub(crate) proof fn lemma_param_count(params: List<Param>)
    ensures
        param_types(params).length() == params.length(),
    decreases params,
{
    match params {
        List::Nil => {},
        List::Cons(_, rest) => lemma_param_count(*rest),
    }
}

pub(crate) proof fn lemma_pointer_count(params: List<FnPtrParam>)
    ensures
        pointer_tys(params).length() == params.length(),
    decreases params,
{
    match params {
        List::Nil => {},
        List::Cons(_, rest) => lemma_pointer_count(*rest),
    }
}

/// The types of parameters, in order.
pub open spec fn has_types(params: List<Param>, tys: List<TyId>) -> bool
    decreases params,
{
    match (params, tys) {
        (List::Nil, List::Nil) => true,
        (List::Cons(p, rest), List::Cons(ty, more)) => p.ty == *ty && has_types(*rest, *more),
        _ => false,
    }
}

pub(crate) proof fn lemma_has_types(params: List<Param>, tys: List<TyId>)
    requires
        has_types(params, tys),
    ensures
        param_types(params) == tys,
    decreases params,
{
    match (params, tys) {
        (List::Cons(_, rest), List::Cons(_, more)) => lemma_has_types(*rest, *more),
        _ => {},
    }
}

/// After a call of a function that is given valid names of its parameters'
/// types with `take`, exactly these names are consumed, and the call has the
/// type that the function returns.
pub proof fn law_call_takes(
    env: TyEnv,
    callee: HirExpr,
    args: List<HirCallArg>,
    tys: List<TyId>,
    id: BindingId,
    sig: FnSig,
    ic: Ic,
    span: Span,
    x: Symbol,
)
    requires
        is_function(callee, id, sig, ic),
        has_types(sig.params, tys),
        takes_each(args, tys, env),
    ensures
        ({
            let j = synth_expr_rule(env, call_of(callee, args, span), ic);
            &&& mentions(args, x) ==> j.env.state_of(x) == Some(BindingState::Consumed)
            &&& !mentions(args, x) ==> j.env.find(x) == env.find(x)
            &&& j.ty == sig.return_ty
        }),
{
    lemma_call(env, callee, args, id, sig, ic, span);
    lemma_has_types(sig.params, tys);
    lemma_param_count(sig.params);
    lemma_no_names(args, tys, env, ArgSite::Function(entry_name(callee, ic)), ic);
    lemma_takes(env, args, tys, ic, x);
    lemma_function(env, args, id, entry_name(callee, ic), sig, ic, span);
}

} // verus!
