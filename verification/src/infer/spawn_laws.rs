//! Laws of what a task takes along.

use vstd::prelude::*;

use super::arg_laws::lemma_step;
use super::cx::Ic;
use super::env::{Bound, TyEnv};
use super::env_laws::{law_bind, law_transition};
use super::expr::synth_expr_rule;
use super::mode::lattice::BindingState;
use super::mode::transitions::{mode_step, optional_mode_step};
use super::name_laws::{holds, is_name, law_read};
use super::spawn::{spawn_args_rule, spawn_bound};
use crate::hir::{HirCallMode, HirSpawnArg};
use crate::intern::Symbol;
use crate::list::List;
use crate::ty::TyId;

verus! {

/// A name that a task takes along is consumed outside, and inside is a valid
/// binding of the same type under its new name. No other name changes.
pub proof fn law_spawn_takes(
    env: TyEnv,
    arg: HirSpawnArg,
    x: Symbol,
    ty: TyId,
    ic: Ic,
    inside: TyEnv,
    y: Symbol,
)
    requires
        is_name(arg.init, x),
        holds(env, x, ty),
        arg.ty is None,
    ensures
        ({
            let args = List::Cons(Box::new(arg), Box::new(List::Nil));
            let w = spawn_args_rule(env, args, ic);
            let task = spawn_bound(inside, w.node);
            &&& w.ic == ic
            &&& w.env.state_of(x) == Some(BindingState::Consumed)
            &&& y != x ==> w.env.find(y) == env.find(y)
            &&& task.ty_of(arg.name.name) == Some(ty)
            &&& task.state_of(arg.name.name) == Some(BindingState::Valid)
            &&& y != arg.name.name ==> task.find(y) == inside.find(y)
        }),
{
    law_read(env, arg.init, x, ic);
    let j = synth_expr_rule(env, arg.init, ic);
    lemma_step(env, ic, HirCallMode::Take, j.node, x, arg.span);
    law_transition(env, x, BindingState::Consumed, x);
    law_transition(env, x, BindingState::Consumed, y);
    lemma_args(env, arg, ic);
    let b = Bound { name: arg.name.name, ty, state: BindingState::Valid, mutable: true };
    law_bind(inside, b, arg.name.name);
    law_bind(inside, b, y);
    let node = HirSpawnArg { ty: Some(ty), init: j.node, ..arg };
    let none: List<HirSpawnArg> = List::Nil;
    let nodes = List::Cons(Box::new(node), Box::new(none));
    assert(spawn_bound(inside.with(b), none) == inside.with(b));
    assert(spawn_bound(inside, nodes) == inside.with(b));
}

proof fn lemma_args(env: TyEnv, arg: HirSpawnArg, ic: Ic)
    requires
        arg.ty is None,
    ensures
        ({
            let args = List::Cons(Box::new(arg), Box::new(List::Nil));
            let w = spawn_args_rule(env, args, ic);
            let j = synth_expr_rule(env, arg.init, ic);
            let s = optional_mode_step(j.env, j.ic, Some(HirCallMode::Take), j.node, arg.span);
            &&& w.env == s.env
            &&& w.ic == s.ic
            &&& w.node == List::Cons(
                Box::new(HirSpawnArg { ty: Some(j.ty), init: j.node, ..arg }),
                Box::new(List::Nil),
            )
        }),
{
    reveal(spawn_args_rule);
    reveal(synth_expr_rule);
    let none: List<HirSpawnArg> = List::Nil;
    let j = synth_expr_rule(env, arg.init, ic);
    let s = mode_step(j.env, j.ic, HirCallMode::Take, j.node, arg.span);
    let w = spawn_args_rule(s.env, none, s.ic);
    assert(w.env == s.env && w.ic == s.ic && w.node == none);
}

} // verus!
