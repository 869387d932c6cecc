//! Laws of what a call is held to.

use vstd::prelude::*;

use super::call::args::synth_args_rule;
use super::call::direct::function_call_rule;
use super::callee_laws::{call_of, entry_name, is_function, lemma_call, lemma_function};
use super::cx::Ic;
use super::env::TyEnv;
use super::expr::synth_expr_rule;
use crate::diag::Message;
use crate::hir::{HirCallArg, HirExpr};
use crate::list::List;
use crate::sig::FnSig;
use crate::span::Span;
use crate::ty::{BindingId, TyId};

verus! {

/// A call with as many arguments as the function has parameters has the
/// function's return type; any other number of arguments is reported, and the
/// call has the error type.
pub proof fn law_call_arity(
    env: TyEnv,
    callee: HirExpr,
    args: List<HirCallArg>,
    id: BindingId,
    sig: FnSig,
    span: Span,
    ic: Ic,
)
    requires
        is_function(callee, id, sig, ic),
    ensures
        ({
            let j = synth_expr_rule(env, call_of(callee, args, span), ic);
            let w = synth_args_rule(env, args, ic);
            &&& args.length() == sig.params.length() ==> j.ty == sig.return_ty
            &&& args.length() != sig.params.length() ==> {
                &&& j.ty == TyId::Error
                &&& j.env == w.env
                &&& j.ic == w.ic.error(
                    span,
                    Message::FunctionArity {
                        name: entry_name(callee, ic),
                        arity: sig.params.length(),
                        supplied: args.length(),
                    },
                )
            }
        }),
{
    let name = entry_name(callee, ic);
    lemma_call(env, callee, args, id, sig, ic, span);
    if args.length() == sig.params.length() {
        lemma_function(env, args, id, name, sig, ic, span);
    } else {
        lemma_wrong_count(env, args, id, sig, span, callee, ic);
    }
}

proof fn lemma_wrong_count(
    env: TyEnv,
    args: List<HirCallArg>,
    id: BindingId,
    sig: FnSig,
    span: Span,
    callee: HirExpr,
    ic: Ic,
)
    requires
        is_function(callee, id, sig, ic),
        args.length() != sig.params.length(),
    ensures
        ({
            let name = entry_name(callee, ic);
            let f = function_call_rule(env, args, id, name, ic, span);
            let w = synth_args_rule(env, args, ic);
            &&& f.ty == TyId::Error
            &&& f.env == w.env
            &&& f.ic == w.ic.error(
                span,
                Message::FunctionArity {
                    name,
                    arity: sig.params.length(),
                    supplied: args.length(),
                },
            )
        }),
{
    reveal(function_call_rule);
    reveal(synth_args_rule);
}

} // verus!
