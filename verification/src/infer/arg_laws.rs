//! Laws of names as arguments.

use vstd::prelude::*;

use super::call::args::{arg_rule, check_args_rule};
use super::ctrl::branch::branch_rule;
use super::cx::Ic;
use super::env::{Bound, TyEnv};
use super::expr::{check_expr_rule, synth_expr_rule};
use super::mode::transitions::{binding_step, mode_step, optional_mode_step};
use super::name_laws::{holds, is_name, law_read, law_read_checked};
use super::path::bridge;
use crate::diag::Message;
use crate::hir::{HirCallArg, HirCallMode, HirExpr};
use crate::intern::Symbol;
use crate::list::List;
use crate::span::Span;
use crate::ty::TyId;

verus! {

/// A valid name as an argument, taken or borrowed: nothing changes yet.
pub(crate) proof fn lemma_read_arg(env: TyEnv, arg: HirCallArg, x: Symbol, ty: TyId, ic: Ic)
    requires
        is_name(arg.expr, x),
        holds(env, x, ty),
    ensures
        ({
            let w = arg_rule(env, arg, Some(ty), ic);
            &&& w.env == env
            &&& w.ic == ic
            &&& w.node.mode == arg.mode
            &&& w.node.span == arg.span
            &&& is_name(w.node.expr, x)
        }),
{
    let inner = Ic { try_depth: 0, ..ic };
    reveal(arg_rule);
    reveal(check_expr_rule);
    reveal(bridge);
    law_read_checked(env, arg.expr, x, ty, ty, inner);
    assert(branch_rule(env, arg.expr, Some(ty), inner) == check_expr_rule(
        env,
        arg.expr,
        ty,
        inner,
    ));
}

/// The step that a mode keyword makes on a name, in words of the states.
pub(crate) proof fn lemma_single(
    env: TyEnv,
    arg: HirCallArg,
    mode: HirCallMode,
    x: Symbol,
    b: Bound,
    ic: Ic,
)
    requires
        arg.mode == Some(mode),
        is_name(arg.expr, x),
        env.find(x) == Some(b),
    ensures
        ({
            let first = arg_rule(env, arg, Some(b.ty), ic);
            &&& first.env == env
            &&& first.node.mode == arg.mode
            &&& first.node.span == arg.span
            &&& is_name(first.node.expr, x)
            &&& mode == HirCallMode::Init || b.state is Valid ==> first.ic == ic
            &&& mode != HirCallMode::Init && !(b.state is Valid) ==> first.ic == ic.error(
                arg.expr.span,
                (Message::NotReadable { name: x, state: b.state.word() }),
            )
        }),
{
    let inner = Ic { try_depth: 0, ..ic };
    reveal(arg_rule);
    reveal(synth_expr_rule);
    reveal(check_expr_rule);
    reveal(bridge);
    law_read(env, arg.expr, x, inner);
    assert(branch_rule(env, arg.expr, Some(b.ty), inner) == check_expr_rule(
        env,
        arg.expr,
        b.ty,
        inner,
    ));
}

pub(crate) proof fn lemma_arg_name(
    env: TyEnv,
    arg: HirCallArg,
    expected: Option<TyId>,
    ic: Ic,
    from: Symbol,
)
    requires
        is_name(arg.expr, from),
    ensures
        is_name(arg_rule(env, arg, expected, ic).node.expr, from),
{
    reveal(arg_rule);
    reveal(check_expr_rule);
    reveal(synth_expr_rule);
}

/// A mode keyword on a name makes the step of that name.
pub(crate) proof fn lemma_step(
    env: TyEnv,
    ic: Ic,
    mode: HirCallMode,
    expr: HirExpr,
    x: Symbol,
    span: Span,
)
    requires
        is_name(expr, x),
    ensures
        optional_mode_step(env, ic, Some(mode), expr, span) == binding_step(
            env,
            ic,
            mode,
            x,
            span,
        ),
{
    reveal(mode_step);
}

/// One argument alone.
pub(crate) proof fn lemma_lone_arg(env: TyEnv, arg: HirCallArg, ty: TyId, ic: Ic)
    ensures
        ({
            let args = List::Cons(Box::new(arg), Box::new(List::Nil));
            let tys = List::Cons(Box::new(ty), Box::new(List::Nil));
            let w = check_args_rule(env, args, tys, true, ic);
            let first = arg_rule(env, arg, Some(ty), ic);
            let s = optional_mode_step(
                first.env,
                first.ic,
                first.node.mode,
                first.node.expr,
                first.node.span,
            );
            w.env == s.env && w.ic == s.ic
        }),
{
    reveal(check_args_rule);
    reveal(arg_rule);
    let first = arg_rule(env, arg, Some(ty), ic);
    let s = optional_mode_step(
        first.env,
        first.ic,
        first.node.mode,
        first.node.expr,
        first.node.span,
    );
    let none: List<HirCallArg> = List::Nil;
    let rest = check_args_rule(s.env, none, List::Nil, true, s.ic);
    assert(rest.env == s.env && rest.ic == s.ic);
}

} // verus!
