//! Closures.

use vstd::prelude::*;

use super::cx::{group_grown, Ic, InferCx};
use super::env::TyEnv;
use super::fn_body::{check_fn_body, fn_body_rule, FnContext};
use super::judge::{judged, sound, Judged};
use crate::hir::{HirClosure, HirClosureParam};
use crate::intern::Symbol;
use crate::list::List;
use crate::sig::{FnPtrParam, FnPtrSig, ParamMode};
use crate::syntax::Ident;
use crate::ty::{TyId, TyKind};

verus! {

broadcast use group_grown;

/// The parameters with their names left out.
pub open spec fn closure_params(params: List<HirClosureParam>) -> List<FnPtrParam>
    decreases params,
{
    match params {
        List::Nil => List::Nil,
        List::Cons(p, rest) => List::Cons(
            Box::new(FnPtrParam { mode: p.mode, ty: p.ty }),
            Box::new(closure_params(*rest)),
        ),
    }
}

/// The names of the `take` parameters.
pub open spec fn take_names(params: List<HirClosureParam>) -> List<Symbol>
    decreases params,
{
    match params {
        List::Nil => List::Nil,
        List::Cons(p, rest) => if p.mode == ParamMode::Take {
            List::Cons(Box::new(p.name.name), Box::new(take_names(*rest)))
        } else {
            take_names(*rest)
        },
    }
}

/// `env` with the parameters bound.
pub open spec fn params_bound(env: TyEnv, params: List<HirClosureParam>) -> TyEnv
    decreases params,
{
    match params {
        List::Nil => env,
        List::Cons(p, rest) => params_bound(env.with_valid(p.name.name, p.ty), *rest),
    }
}

/// `env` with the captures bound to their types in `outer`.
pub open spec fn captures_bound(env: TyEnv, captures: List<Ident>, outer: TyEnv) -> TyEnv
    decreases captures,
{
    match captures {
        List::Nil => env,
        List::Cons(c, rest) => {
            let ty = match outer.ty_of(c.name) {
                Some(ty) => ty,
                None => TyId::Error,
            };
            captures_bound(env.with_valid(c.name, ty), *rest, outer)
        },
    }
}

/// How a closure is declared.
pub open spec fn closure_context(closure: HirClosure) -> FnContext {
    FnContext {
        declared: closure.effects,
        return_ty: closure.ret_ty,
        exit_span: closure.span,
        inject_divergence: false,
        take_params: take_names(closure.params),
    }
}

/// A closure: a function pointer whose body sees only its parameters and
/// captures.
#[verifier::opaque]
pub open spec fn synth_closure_rule(env: TyEnv, closure: HirClosure, ic: Ic) -> Judged<HirClosure>
    decreases closure, 0nat,
{
    let kind = TyKind::FnPtr(
        Box::new(
            FnPtrSig {
                params: closure_params(closure.params),
                return_ty: closure.ret_ty,
                effects: closure.effects,
            },
        ),
    );
    let inside = captures_bound(
        params_bound(TyEnv::fresh(), closure.params),
        closure.captures,
        env,
    );
    let b = fn_body_rule(inside, closure.body, closure_context(closure), ic.stored(kind));
    judged(env, b.ic, HirClosure { body: b.node, ..closure }, ic.handle(kind))
}

fn pointer_params(params: &List<HirClosureParam>) -> (r: List<FnPtrParam>)
    ensures
        r == closure_params(*params),
    decreases params,
{
    match params {
        List::Nil => List::Nil,
        List::Cons(p, rest) => List::cons(
            FnPtrParam { mode: p.mode, ty: p.ty },
            pointer_params(rest),
        ),
    }
}

fn take_params(params: &List<HirClosureParam>) -> (r: List<Symbol>)
    ensures
        r == take_names(*params),
    decreases params,
{
    match params {
        List::Nil => List::Nil,
        List::Cons(p, rest) => if p.mode == ParamMode::Take {
            List::cons(p.name.name, take_params(rest))
        } else {
            take_params(rest)
        },
    }
}

fn bind_params(env: &mut TyEnv, params: &List<HirClosureParam>)
    ensures
        *final(env) == params_bound(*old(env), *params),
    decreases params,
{
    match params {
        List::Nil => {},
        List::Cons(p, rest) => {
            env.bind(p.name.name, p.ty);
            bind_params(env, rest);
        },
    }
}

fn bind_captures(env: &mut TyEnv, captures: &List<Ident>, outer: &TyEnv)
    ensures
        *final(env) == captures_bound(*old(env), *captures, *outer),
    decreases captures,
{
    match captures {
        List::Nil => {},
        List::Cons(c, rest) => {
            let ty = match outer.lookup(c.name) {
                Some(ty) => ty,
                None => TyId::Error,
            };
            env.bind(c.name, ty);
            bind_captures(env, rest, outer);
        },
    }
}

/// Synthesise a closure.
pub fn synth_closure(env: &mut TyEnv, closure: &mut HirClosure, ic: &mut InferCx<'_>) -> (r: TyId)
    ensures
        judged(*final(env), final(ic)@, *final(closure), r) == synth_closure_rule(
            *old(env),
            *old(closure),
            old(ic)@,
        ),
        sound(*old(env), old(ic)@, *final(env), final(ic)@),
    decreases *old(closure), 0nat,
{
    proof {
        reveal(synth_closure_rule);
        reveal(fn_body_rule);
    }
    let fn_ty = ic.intern_kind(
        TyKind::FnPtr(
            Box::new(
                FnPtrSig {
                    params: pointer_params(&closure.params),
                    return_ty: closure.ret_ty,
                    effects: closure.effects.dup(),
                },
            ),
        ),
    );
    let mut body_env = TyEnv::new();
    bind_params(&mut body_env, &closure.params);
    bind_captures(&mut body_env, &closure.captures, env);
    let f = FnContext {
        declared: closure.effects.dup(),
        return_ty: closure.ret_ty,
        exit_span: closure.span,
        inject_divergence: false,
        take_params: take_params(&closure.params),
    };
    check_fn_body(&mut body_env, &mut closure.body, &f, ic);
    fn_ty
}

} // verus!
