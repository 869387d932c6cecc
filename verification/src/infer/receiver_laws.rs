//! Laws of the receiver of a method call, and of the methods of capabilities.

use vstd::prelude::*;

use super::call::args::{check_args_rule, synth_args_rule};
use super::call::direct::param_types;
use super::cx::Ic;
use super::derive_laws::{derived_in, law_source};
use super::env::TyEnv;
use super::expr::{synth_access_rule, synth_expr_rule};
use super::method::{
    capability_call_rule, capability_performed, capability_reports, function_method_rule,
    method_args_rule, method_target, synth_method_call_rule, MethodTarget,
};
use super::mode::lattice::BindingState;
use super::mode::linear::{linear, moved_out};
use super::name_laws::{holds, is_name, law_read};
use super::perform_laws::{method_of, origin};
use super::stmt_laws::law_moved_out;
use crate::capability::CapabilityType;
use crate::diag::Message;
use crate::effect::EffectEntry;
use crate::hir::{HirCallArg, HirExpr, HirMethodCall};
use crate::intern::Symbol;
use crate::intrinsic::CapabilityMethod;
use crate::list::List;
use crate::sig::{FnSig, Param, ParamMode};
use crate::span::Span;
use crate::syntax::Ident;
use crate::ty::{BindingId, TyId};

verus! {

pub(crate) proof fn lemma_method(
    env: TyEnv,
    receiver: HirExpr,
    owner: Symbol,
    ty: TyId,
    name: Ident,
    args: List<HirCallArg>,
    span: Span,
    ic: Ic,
)
    requires
        is_name(receiver, owner),
        holds(env, owner, ty),
    ensures
        ({
            let j = synth_expr_rule(env, method_of(receiver, name, args, span), ic);
            let node = HirExpr { ty, ..receiver };
            let m = method_args_rule(env, args, node, name.name, ty, ic, span);
            j.env == m.env && j.ic == m.ic && j.ty == m.ty
        }),
{
    reveal(synth_expr_rule);
    reveal(synth_access_rule);
    reveal(synth_method_call_rule);
    reveal(method_args_rule);
    let expr = method_of(receiver, name, args, span);
    let call = HirMethodCall { receiver, name, args };
    assert(synth_expr_rule(env, expr, ic) == synth_access_rule(env, expr, ic));
    let m = synth_method_call_rule(env, call, ic, span);
    law_read(env, receiver, owner, Ic { try_depth: 0, ..ic });
    let r = synth_expr_rule(env, receiver, Ic { try_depth: 0, ..ic });
    assert(r.node == HirExpr { ty, ..receiver });
}

/// A method that takes its receiver consumes a `linear` value that is the
/// receiver; one that does not, or a receiver of another type, leaves it
/// valid. Another number of arguments is reported.
pub proof fn law_receiver(
    env: TyEnv,
    receiver: HirExpr,
    owner: Symbol,
    ty: TyId,
    name: Ident,
    id: BindingId,
    sig: FnSig,
    first: Param,
    others: List<Param>,
    span: Span,
    ic: Ic,
    y: Symbol,
)
    requires
        is_name(receiver, owner),
        holds(env, owner, ty),
        method_target(name.name, ty, ic) == MethodTarget::Function(id, sig),
        sig.params == List::Cons(Box::new(first), Box::new(others)),
        y != owner,
    ensures
        ({
            let none: List<HirCallArg> = List::Nil;
            let j = synth_expr_rule(env, method_of(receiver, name, none, span), ic);
            let lone = others == List::<Param>::Nil;
            &&& lone && first.mode == ParamMode::Take && linear(ic, ty) ==> j.env.state_of(owner)
                == Some(BindingState::Consumed)
            &&& lone && !(first.mode == ParamMode::Take && linear(ic, ty)) ==> j.env == env
            &&& j.env.find(y) == env.find(y)
            &&& lone ==> j.ty == sig.return_ty
            &&& others.length() != 0 ==> j.ty == TyId::Error && j.env == env && j.ic.diags
                == ic.error(
                span,
                Message::MethodArity { name: name.name, arity: others.length(), supplied: 0 },
            ).diags
        }),
{
    let none: List<HirCallArg> = List::Nil;
    lemma_method(env, receiver, owner, ty, name, none, span, ic);
    let node = HirExpr { ty, ..receiver };
    lemma_function_method(env, node, ty, name.name, id, sig, first, others, span, ic);
    let b = env.find(owner)->0;
    let recorded = Ic { methods: ic.methods.insert(span, id), ..ic };
    law_moved_out(env, node, owner, b, recorded, y);
}

proof fn lemma_function_method(
    env: TyEnv,
    node: HirExpr,
    ty: TyId,
    name: Symbol,
    id: BindingId,
    sig: FnSig,
    first: Param,
    others: List<Param>,
    span: Span,
    ic: Ic,
)
    requires
        method_target(name, ty, ic) == MethodTarget::Function(id, sig),
        sig.params == List::Cons(Box::new(first), Box::new(others)),
    ensures
        ({
            let none: List<HirCallArg> = List::Nil;
            let m = method_args_rule(env, none, node, name, ty, ic, span);
            let recorded = Ic { methods: ic.methods.insert(span, id), ..ic };
            &&& others == List::<Param>::Nil ==> m.ty == sig.return_ty && m.env == (if first.mode
                == ParamMode::Take {
                moved_out(env, node, recorded)
            } else {
                env
            })
            &&& others.length() != 0 ==> m.ty == TyId::Error && m.env == env && m.ic
                == recorded.error(
                span,
                Message::MethodArity { name, arity: others.length(), supplied: 0 },
            )
            &&& m.env == env || m.env == moved_out(env, node, recorded)
        }),
{
    reveal(method_args_rule);
    reveal(function_method_rule);
    reveal(check_args_rule);
    reveal(synth_args_rule);
    let none: List<HirCallArg> = List::Nil;
    assert(none.length() == 0);
    let f = function_method_rule(env, none, node, name, id, sig, ic, span);
    let recorded = Ic { methods: ic.methods.insert(span, id), ..ic };
    let w = check_args_rule(env, none, param_types(others), false, recorded);
    assert(w.env == env && w.ic == recorded);
    let reported = recorded.error(
        span,
        Message::MethodArity { name, arity: others.length(), supplied: 0 },
    );
    let v = synth_args_rule(env, none, reported);
    assert(v.env == env && v.ic == reported);
}

/// `fork` of an allocator that is a name gives an allocator and uses the
/// capability that the name stands for; nothing moves.
pub proof fn law_fork(
    env: TyEnv,
    receiver: HirExpr,
    owner: Symbol,
    ty: TyId,
    name: Ident,
    span: Span,
    ic: Ic,
)
    requires
        is_name(receiver, owner),
        holds(env, owner, ty),
        method_target(name.name, ty, ic) == MethodTarget::Capability(
            CapabilityMethod::AllocatorFork,
        ),
    ensures
        ({
            let none: List<HirCallArg> = List::Nil;
            let j = synth_expr_rule(env, method_of(receiver, name, none, span), ic);
            &&& j.env == env
            &&& j.ty == TyId::Cap(CapabilityType::Allocator)
            &&& j.ic.diags == ic.diags
            &&& j.ic.row == ic.row.push(EffectEntry::Capability(origin(ic, owner)))
        }),
{
    let none: List<HirCallArg> = List::Nil;
    lemma_method(env, receiver, owner, ty, name, none, span, ic);
    let node = HirExpr { ty, ..receiver };
    assert(is_name(node, owner));
    assert(derived_in(node, owner, 0));
    law_source(node, owner);
    lemma_fork(env, node, name.name, ty, span, ic);
}

proof fn lemma_fork(env: TyEnv, node: HirExpr, name: Symbol, ty: TyId, span: Span, ic: Ic)
    requires
        method_target(name, ty, ic) == MethodTarget::Capability(CapabilityMethod::AllocatorFork),
    ensures
        ({
            let none: List<HirCallArg> = List::Nil;
            let m = method_args_rule(env, none, node, name, ty, ic, span);
            &&& m.env == env
            &&& m.ty == TyId::Cap(CapabilityType::Allocator)
            &&& m.ic == capability_performed(node, CapabilityMethod::AllocatorFork, ic, span)
        }),
{
    reveal(method_args_rule);
    reveal(capability_call_rule);
    let none: List<HirCallArg> = List::Nil;
    assert(none.length() == 0);
    let c = capability_call_rule(env, none, node, CapabilityMethod::AllocatorFork, ic, span);
    assert(capability_reports(none, CapabilityMethod::AllocatorFork, ic) == ic);
}

} // verus!
