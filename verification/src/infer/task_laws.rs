//! Laws of closures and of spawned tasks.

use vstd::prelude::*;

use super::block::synth_block_rule;
use super::closure::{
    captures_bound, closure_context, closure_params, params_bound, synth_closure_rule, take_names,
};
use super::cx::Ic;
use super::diverge_laws::expr_of;
use super::env::{Bound, TyEnv};
use super::env_laws::{law_bind, law_restrict, law_scope};
use super::expr::{synth_access_rule, synth_expr_rule, synth_region_rule};
use super::fn_body::fn_body_rule;
use super::mode::lattice::BindingState;
use super::spawn::{spawn_args_rule, spawn_bound, synth_spawn_rule};
use crate::cx::names_has;
use crate::hir::{HirBlock, HirClosure, HirClosureParam, HirExprKind, HirSpawn};
use crate::intern::Symbol;
use crate::list::List;
use crate::sig::{FnPtrParam, FnPtrSig, ParamMode};
use crate::span::Span;
use crate::syntax::Ident;
use crate::ty::{TyId, TyKind};

verus! {

/// A closure's type is a function pointer with its parameters, return type and
/// effects; it changes no binding of the place where it stands, and performs
/// nothing there.
pub proof fn law_closure(env: TyEnv, closure: HirClosure, span: Span, ic: Ic)
    ensures
        ({
            let kind = TyKind::FnPtr(
                Box::new(
                    FnPtrSig {
                        params: closure_params(closure.params),
                        return_ty: closure.ret_ty,
                        effects: closure.effects,
                    },
                ),
            );
            let j = synth_expr_rule(
                env,
                expr_of(HirExprKind::Closure(Box::new(closure)), span),
                ic,
            );
            j.env == env && j.ty == ic.handle(kind) && j.ic.row == ic.row
        }),
{
    reveal(synth_expr_rule);
    reveal(synth_access_rule);
    reveal(synth_closure_rule);
    reveal(fn_body_rule);
    let expr = expr_of(HirExprKind::Closure(Box::new(closure)), span);
    assert(synth_expr_rule(env, expr, ic) == synth_access_rule(env, expr, ic));
    let c = synth_closure_rule(env, closure, ic);
}

/// The pointer type of a closure has a parameter for each of the closure's, in
/// order, with its mode and type.
pub proof fn law_closure_params(params: List<HirClosureParam>, k: nat)
    ensures
        closure_params(params).nth(k) == (match params.nth(k) {
            Some(p) => Some(FnPtrParam { mode: p.mode, ty: p.ty }),
            None => None,
        }),
    decreases params,
{
    match params {
        List::Nil => {},
        List::Cons(_, rest) => {
            if k > 0 {
                law_closure_params(*rest, (k - 1) as nat);
            }
        },
    }
}

/// Whether a parameter has that name.
pub open spec fn has_param(params: List<HirClosureParam>, x: Symbol) -> bool
    decreases params,
{
    match params {
        List::Nil => false,
        List::Cons(p, rest) => p.name.name == x || has_param(*rest, x),
    }
}

/// Whether every parameter of that name has that type.
pub open spec fn param_typed(params: List<HirClosureParam>, x: Symbol, ty: TyId) -> bool
    decreases params,
{
    match params {
        List::Nil => true,
        List::Cons(p, rest) => (p.name.name == x ==> p.ty == ty) && param_typed(*rest, x, ty),
    }
}

/// Whether `x` is captured.
pub open spec fn captured(captures: List<Ident>, x: Symbol) -> bool
    decreases captures,
{
    match captures {
        List::Nil => false,
        List::Cons(c, rest) => c.name == x || captured(*rest, x),
    }
}

proof fn lemma_params(env: TyEnv, params: List<HirClosureParam>, x: Symbol, ty: TyId)
    requires
        param_typed(params, x, ty),
    ensures
        params_bound(env, params).find(x) == (if has_param(params, x) {
            Some(Bound { name: x, ty, state: BindingState::Valid, mutable: true })
        } else {
            env.find(x)
        }),
    decreases params,
{
    match params {
        List::Nil => {},
        List::Cons(p, rest) => {
            let b = Bound { name: p.name.name, ty: p.ty, state: BindingState::Valid, mutable: true };
            law_bind(env, b, x);
            lemma_params(env.with(b), *rest, x, ty);
        },
    }
}

proof fn lemma_captures(env: TyEnv, captures: List<Ident>, outer: TyEnv, x: Symbol)
    ensures
        captures_bound(env, captures, outer).find(x) == (if captured(captures, x) {
            Some(
                Bound {
                    name: x,
                    ty: match outer.ty_of(x) {
                        Some(ty) => ty,
                        None => TyId::Error,
                    },
                    state: BindingState::Valid,
                    mutable: true,
                },
            )
        } else {
            env.find(x)
        }),
    decreases captures,
{
    match captures {
        List::Nil => {},
        List::Cons(c, rest) => {
            let ty = match outer.ty_of(c.name) {
                Some(ty) => ty,
                None => TyId::Error,
            };
            let b = Bound { name: c.name, ty, state: BindingState::Valid, mutable: true };
            law_bind(env, b, x);
            lemma_captures(env.with(b), *rest, outer, x);
        },
    }
}

/// Inside a closure a capture has its outer type, a parameter its declared
/// type, and no other name is bound; its body is judged there as a function
/// with the closure's effects and return type.
pub proof fn law_closure_body(
    env: TyEnv,
    closure: HirClosure,
    span: Span,
    ic: Ic,
    x: Symbol,
    ty: TyId,
)
    requires
        param_typed(closure.params, x, ty),
    ensures
        exists|inside: TyEnv, start: Ic|
            {
                let j = synth_expr_rule(
                    env,
                    expr_of(HirExprKind::Closure(Box::new(closure)), span),
                    ic,
                );
                &&& j.ic == (#[trigger] fn_body_rule(
                    inside,
                    closure.body,
                    closure_context(closure),
                    start,
                )).ic
                &&& start == Ic { tys: start.tys, ..ic }
                &&& captured(closure.captures, x) ==> inside.ty_of(x) == (match env.ty_of(x) {
                    Some(t) => Some(t),
                    None => Some(TyId::Error),
                })
                &&& !captured(closure.captures, x) && has_param(closure.params, x)
                    ==> inside.ty_of(x) == Some(ty)
                &&& !captured(closure.captures, x) && !has_param(closure.params, x)
                    ==> inside.find(x) is None
                &&& inside.find(x) is Some ==> inside.state_of(x) == Some(BindingState::Valid)
            },
        closure_context(closure).declared == closure.effects,
        closure_context(closure).return_ty == closure.ret_ty,
        !closure_context(closure).inject_divergence,
{
    let kind = TyKind::FnPtr(
        Box::new(
            FnPtrSig {
                params: closure_params(closure.params),
                return_ty: closure.ret_ty,
                effects: closure.effects,
            },
        ),
    );
    let args = params_bound(TyEnv::fresh(), closure.params);
    let inside = captures_bound(args, closure.captures, env);
    lemma_params(TyEnv::fresh(), closure.params, x, ty);
    lemma_captures(args, closure.captures, env, x);
    assert(TyEnv::fresh().find(x) is None);
    reveal(synth_expr_rule);
    reveal(synth_access_rule);
    reveal(synth_closure_rule);
    reveal(fn_body_rule);
    let expr = expr_of(HirExprKind::Closure(Box::new(closure)), span);
    assert(synth_expr_rule(env, expr, ic) == synth_access_rule(env, expr, ic));
    let c = synth_closure_rule(env, closure, ic);
    let b = fn_body_rule(inside, closure.body, closure_context(closure), ic.stored(kind));
    assert(synth_expr_rule(env, expr, ic).ic == b.ic);
}

/// A closure's `take` parameters are those that are declared so.
pub proof fn law_take_names(params: List<HirClosureParam>, x: Symbol)
    ensures
        names_has(take_names(params), x) <==> exists|k: nat|
            {
                &&& (#[trigger] params.nth(k)) matches Some(p)
                &&& p.mode == ParamMode::Take
                &&& p.name.name == x
            },
    decreases params,
{
    match params {
        List::Nil => {
            assert(forall|k: nat| #[trigger] params.nth(k) is None);
        },
        List::Cons(p, rest) => {
            law_take_names(*rest, x);
            assert(params.nth(0) == Some(*p));
            if exists|k: nat|
                {
                    &&& (#[trigger] rest.nth(k)) matches Some(q)
                    &&& q.mode == ParamMode::Take
                    &&& q.name.name == x
                } {
                let k = choose|k: nat|
                    {
                        &&& (#[trigger] rest.nth(k)) matches Some(q)
                        &&& q.mode == ParamMode::Take
                        &&& q.name.name == x
                    };
                assert((k + 1 - 1) as nat == k);
                assert(params.nth(k + 1) == rest.nth(k));
            }
            if exists|k: nat|
                {
                    &&& (#[trigger] params.nth(k)) matches Some(q)
                    &&& q.mode == ParamMode::Take
                    &&& q.name.name == x
                } {
                let k = choose|k: nat|
                    {
                        &&& (#[trigger] params.nth(k)) matches Some(q)
                        &&& q.mode == ParamMode::Take
                        &&& q.name.name == x
                    };
                if k > 0 {
                    assert(params.nth(k) == rest.nth((k - 1) as nat));
                }
            }
        },
    }
}

/// A task that takes nothing along: its body sees every binding of the parent
/// in its state and with its type, and can change none of them.
pub proof fn law_spawn_body(env: TyEnv, body: HirBlock, at: Span, span: Span, ic: Ic, x: Symbol)
    ensures
        exists|inside: TyEnv|
            {
                let node = HirSpawn { span: at, args: List::Nil, body };
                let j = synth_expr_rule(env, expr_of(HirExprKind::Spawn(Box::new(node)), span), ic);
                let b = #[trigger] synth_block_rule(inside, body, ic);
                &&& j.ty == b.ty
                &&& j.ic == b.ic
                &&& inside.ty_of(x) == env.ty_of(x)
                &&& inside.state_of(x) == env.state_of(x)
                &&& inside.find(x) is Some ==> inside.mutable_of(x) == Some(false)
            },
{
    reveal(synth_expr_rule);
    reveal(synth_region_rule);
    reveal(synth_spawn_rule);
    reveal(spawn_args_rule);
    reveal(synth_block_rule);
    let node = HirSpawn { span: at, args: List::Nil, body };
    let expr = expr_of(HirExprKind::Spawn(Box::new(node)), span);
    assert(synth_expr_rule(env, expr, ic) == synth_region_rule(env, expr, ic));
    let s = synth_spawn_rule(env, node, ic);
    let a = spawn_args_rule(env, node.args, ic);
    assert(a.env == env && a.ic == ic && a.node == node.args);
    let inside = env.frozen().entered();
    assert(spawn_bound(inside, a.node) == inside);
    law_restrict(env, x);
    let any = Bound { name: x, ty: TyId::Error, state: BindingState::Valid, mutable: true };
    law_scope(env.frozen(), any, x);
    let b = synth_block_rule(inside, body, ic);
    assert(s.ic == b.ic && s.ty == b.ty);
}

} // verus!
