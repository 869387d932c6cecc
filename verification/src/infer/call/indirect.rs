//! Calls through function pointers.

use vstd::prelude::*;

use super::super::cx::{group_grown, Ic, InferCx};
use super::super::env::TyEnv;
use super::super::expr::{synth_expr, synth_expr_rule};
use super::super::judge::{judged, sound, Judged};
use super::args::{
    check_args, check_args_rule, named_reports, report_named, synth_args_for_diagnostics,
    synth_args_rule, ArgSite,
};
use super::capability::push_effect_entries;
use super::err_propagation::{check_err_propagation, propagation_check};
use crate::diag::Message;
use crate::hir::{HirCall, HirCallArg};
use crate::list::List;
use crate::sig::{FnPtrParam, FnPtrSig};
use crate::span::Span;
use crate::ty::{TyId, TyKind};

verus! {

broadcast use group_grown;

/// The types of parameters.
pub open spec fn pointer_tys(params: List<FnPtrParam>) -> List<TyId>
    decreases params,
{
    match params {
        List::Nil => List::Nil,
        List::Cons(p, rest) => List::Cons(Box::new(p.ty), Box::new(pointer_tys(*rest))),
    }
}

fn pointer_param_tys(params: &List<FnPtrParam>) -> (r: List<TyId>)
    ensures
        r == pointer_tys(*params),
    decreases params,
{
    match params {
        List::Nil => List::Nil,
        List::Cons(p, rest) => List::cons(p.ty, pointer_param_tys(rest)),
    }
}

/// The arguments of a call through a pointer with the given signature.
#[verifier::opaque]
pub open spec fn pointer_call_rule(
    env: TyEnv,
    args: List<HirCallArg>,
    sig: FnPtrSig,
    ic: Ic,
    span: Span,
) -> Judged<List<HirCallArg>>
    decreases args, 1nat,
{
    if args.length() != sig.params.length() {
        let w = synth_args_rule(env, args, ic);
        judged(
            w.env,
            w.ic.error(
                span,
                Message::PointerArity {
                    arity: sig.params.length(),
                    supplied: args.length(),
                },
            ),
            w.node,
            TyId::Error,
        )
    } else {
        let named = named_reports(args, ArgSite::Pointer, ic);
        let w = check_args_rule(env, args, pointer_tys(sig.params), true, named);
        let performed = w.ic.perform_all(sig.effects.list);
        let interned = performed.named("<fn-pointer>"@);
        judged(
            w.env,
            propagation_check(
                sig.effects.list,
                performed.symbol("<fn-pointer>"@),
                span,
                interned,
            ),
            w.node,
            sig.return_ty,
        )
    }
}

/// A call of a value: the value is a function pointer. An enclosing `?` does
/// not reach into the value.
#[verifier::opaque]
pub open spec fn indirect_call_rule(env: TyEnv, call: HirCall, ic: Ic, span: Span) -> Judged<HirCall>
    decreases call, 0nat,
{
    let c = synth_expr_rule(env, call.callee, Ic { try_depth: 0, ..ic });
    let after = Ic { try_depth: ic.try_depth, ..c.ic };
    if c.ty == TyId::Error {
        let w = synth_args_rule(c.env, call.args, after);
        judged(w.env, w.ic, HirCall { callee: c.node, args: w.node }, TyId::Error)
    } else {
        match after.kind(c.ty) {
            TyKind::FnPtr(sig) => {
                let j = pointer_call_rule(c.env, call.args, *sig, after, span);
                judged(j.env, j.ic, HirCall { callee: c.node, args: j.node }, j.ty)
            },
            _ => {
                let w = synth_args_rule(c.env, call.args, after);
                judged(
                    w.env,
                    w.ic.error(span, Message::CannotCallValue { ty: c.ty }),
                    HirCall { callee: c.node, args: w.node },
                    TyId::Error,
                )
            },
        }
    }
}

fn synth_pointer_call(
    env: &mut TyEnv,
    args: &mut List<HirCallArg>,
    sig: &FnPtrSig,
    ic: &mut InferCx<'_>,
    span: Span,
) -> (r: TyId)
    ensures
        judged(*final(env), final(ic)@, *final(args), r) == pointer_call_rule(
            *old(env),
            *old(args),
            *sig,
            old(ic)@,
            span,
        ),
        sound(*old(env), old(ic)@, *final(env), final(ic)@),
    decreases *old(args), 1nat,
{
    proof {
        reveal(pointer_call_rule);
        reveal(synth_args_rule);
        reveal(check_args_rule);
    }
    let supplied: usize = args.len();
    let arity: usize = sig.params.len();
    if supplied != arity {
        synth_args_for_diagnostics(env, args, ic);
        ic.emit_typecheck_error(span, Message::PointerArity { arity, supplied });
        return ic.ty_error();
    }
    report_named(args, &ArgSite::Pointer, ic);
    let tys = pointer_param_tys(&sig.params);
    check_args(env, args, &tys, true, ic);
    push_effect_entries(ic, &sig.effects.list);
    let name = ic.intern("<fn-pointer>");
    check_err_propagation(&sig.effects.list, name, span, ic);
    sig.return_ty
}

/// Synthesise a call of a value.
pub fn synth_indirect_call(
    env: &mut TyEnv,
    call: &mut HirCall,
    ic: &mut InferCx<'_>,
    span: Span,
) -> (r: TyId)
    ensures
        judged(*final(env), final(ic)@, *final(call), r) == indirect_call_rule(
            *old(env),
            *old(call),
            old(ic)@,
            span,
        ),
        sound(*old(env), old(ic)@, *final(env), final(ic)@),
    decreases *old(call), 0nat,
{
    proof {
        reveal(indirect_call_rule);
        reveal(synth_expr_rule);
        reveal(synth_args_rule);
        reveal(pointer_call_rule);
    }
    let saved: usize = ic.try_position_depth;
    ic.try_position_depth = 0;
    let callee_ty = synth_expr(env, &mut call.callee, ic);
    ic.try_position_depth = saved;
    if callee_ty == ic.ty_error() {
        synth_args_for_diagnostics(env, &mut call.args, ic);
        return ic.ty_error();
    }
    match ic.kind(callee_ty) {
        TyKind::FnPtr(sig) => synth_pointer_call(env, &mut call.args, &sig, ic, span),
        _ => {
            synth_args_for_diagnostics(env, &mut call.args, ic);
            ic.emit_typecheck_error(span, Message::CannotCallValue { ty: callee_ty });
            ic.ty_error()
        },
    }
}

} // verus!
