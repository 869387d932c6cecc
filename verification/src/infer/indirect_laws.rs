//! Laws of calls of values and of allocation.

use vstd::prelude::*;

use super::call::args::{arg_rule, synth_args_rule};
use super::call::direct::synth_call_rule;
use super::call::indirect::{indirect_call_rule, pointer_call_rule};
use super::callee_laws::{call_of, lemma_propagation_row};
use super::cx::Ic;
use super::derive_laws::{derived_in, law_source};
use super::env::TyEnv;
use super::expr::{synth_access_rule, synth_expr_rule};
use super::method::{
    alloc_array_rule, alloc_error, alloc_performed, capability_call_rule, capability_performed,
    capability_reports, element_arg_rule, last_arg_rule, method_args_rule, method_target,
    MethodTarget,
};
use super::name_laws::{holds, is_name};
use super::perform_laws::{lemma_performed, method_of, origin};
use super::receiver_laws::lemma_method;
use crate::diag::Message;
use crate::effect::{lists, EffectEntry, PureEffect};
use crate::hir::{HirCall, HirCallArg, HirExpr};
use crate::intern::Symbol;
use crate::intrinsic::CapabilityMethod;
use crate::list::List;
use crate::prim::Primitive;
use crate::sig::FnPtrSig;
use crate::span::Span;
use crate::syntax::Ident;
use crate::ty::{TyId, TyKind};

verus! {

/// A call of an expression that is no path: a function pointer gives its
/// return type where there is an argument for each parameter, and another
/// number is reported; a value of any other type cannot be called.
pub proof fn law_call_value(
    env: TyEnv,
    callee: HirExpr,
    args: List<HirCallArg>,
    sig: FnPtrSig,
    span: Span,
    ic: Ic,
)
    requires
        !(callee.kind is Path),
    ensures
        ({
            let c = synth_expr_rule(env, callee, Ic { try_depth: 0, ..ic });
            let after = Ic { try_depth: ic.try_depth, ..c.ic };
            let w = synth_args_rule(c.env, args, after);
            let j = synth_expr_rule(env, call_of(callee, args, span), ic);
            let pointer = after.kind(c.ty) == TyKind::FnPtr(Box::new(sig));
            let fits = args.length() == sig.params.length();
            &&& c.ty != TyId::Error && pointer && fits ==> j.ty == sig.return_ty
            &&& c.ty != TyId::Error && pointer && !fits ==> j.ty == TyId::Error && j.ic
                == w.ic.error(
                span,
                Message::PointerArity { arity: sig.params.length(), supplied: args.length() },
            )
            &&& c.ty != TyId::Error && !(after.kind(c.ty) is FnPtr) ==> j.ty == TyId::Error && j.ic
                == w.ic.error(span, (Message::CannotCallValue { ty: c.ty }))
            &&& c.ty == TyId::Error ==> j.ty == TyId::Error && j.ic == w.ic
        }),
{
    reveal(synth_expr_rule);
    reveal(synth_access_rule);
    reveal(synth_call_rule);
    reveal(indirect_call_rule);
    reveal(pointer_call_rule);
    reveal(synth_args_rule);
    let expr = call_of(callee, args, span);
    let call = HirCall { callee, args };
    assert(synth_expr_rule(env, expr, ic) == synth_access_rule(env, expr, ic));
    assert(synth_call_rule(env, call, ic, span) == indirect_call_rule(env, call, ic, span));
    let c = synth_expr_rule(env, callee, Ic { try_depth: 0, ..ic });
    let after = Ic { try_depth: ic.try_depth, ..c.ic };
    let p = pointer_call_rule(c.env, args, sig, after, span);
}

proof fn lemma_alloc_error(ic: Ic)
    ensures
        ({
            let found = alloc_error(ic).0;
            found.row == ic.row && found.diags == ic.diags && found.aliases == ic.aliases
        }),
{
}

/// `alloc_array(T, n)` of an allocator that is a name holds `n` against
/// `usize`, gives a slice of `T`, and performs the capability that the name
/// stands for and the error of an allocation.
pub proof fn law_alloc_array(
    env: TyEnv,
    receiver: HirExpr,
    owner: Symbol,
    ty: TyId,
    name: Ident,
    elem: HirCallArg,
    count: HirCallArg,
    span: Span,
    ic: Ic,
)
    requires
        is_name(receiver, owner),
        holds(env, owner, ty),
        method_target(name.name, ty, ic) == MethodTarget::Capability(
            CapabilityMethod::AllocatorAllocArray,
        ),
        elem.name is None,
        elem.mode is None,
        count.name is None,
        count.mode is None,
    ensures
        ({
            let args = List::Cons(
                Box::new(elem),
                Box::new(List::Cons(Box::new(count), Box::new(List::Nil))),
            );
            let e = element_arg_rule(env, elem, ic);
            let w = arg_rule(e.env, count, Some(TyId::Prim(Primitive::Usize)), e.ic);
            let j = synth_expr_rule(env, method_of(receiver, name, args, span), ic);
            let used = capability_performed(
                HirExpr { ty, ..receiver },
                CapabilityMethod::AllocatorAllocArray,
                w.ic,
                span,
            );
            &&& j.env == w.env
            &&& j.ty == alloc_performed(used, span).handle(TyKind::Slice(e.ty))
            &&& j.ic.row.contains(EffectEntry::Capability(origin(w.ic, owner)))
            &&& alloc_error(used).1 matches Some(err) ==> j.ic.row.contains(
                EffectEntry::Pure(PureEffect::Raise(err)),
            )
        }),
{
    let args = List::Cons(
        Box::new(elem),
        Box::new(List::Cons(Box::new(count), Box::new(List::Nil))),
    );
    lemma_method(env, receiver, owner, ty, name, args, span, ic);
    let node = HirExpr { ty, ..receiver };
    assert(is_name(node, owner));
    assert(derived_in(node, owner, 0));
    law_source(node, owner);
    lemma_alloc(env, node, name.name, ty, elem, count, span, ic);
    let e = element_arg_rule(env, elem, ic);
    let w = arg_rule(e.env, count, Some(TyId::Prim(Primitive::Usize)), e.ic);
    let used = capability_performed(node, CapabilityMethod::AllocatorAllocArray, w.ic, span);
    let cap = EffectEntry::Capability(origin(w.ic, owner));
    assert(used.row.last() == cap);
    assert(used.row.contains(cap));
    lemma_alloc_performed(used, span, cap);
}

proof fn lemma_alloc_performed(ic: Ic, span: Span, e: EffectEntry)
    requires
        ic.row.contains(e),
    ensures
        alloc_performed(ic, span).row.contains(e),
        alloc_error(ic).1 matches Some(err) ==> alloc_performed(ic, span).row.contains(
            EffectEntry::Pure(PureEffect::Raise(err)),
        ),
{
    lemma_alloc_error(ic);
    let (found, err) = alloc_error(ic);
    let none: List<EffectEntry> = List::Nil;
    let entries = match err {
        Some(ty) => List::Cons(Box::new(EffectEntry::Pure(PureEffect::Raise(ty))), Box::new(none)),
        None => none,
    };
    let performed = found.perform_all(entries);
    lemma_performed(entries, found, e);
    match err {
        Some(ty) => {
            let raised = EffectEntry::Pure(PureEffect::Raise(ty));
            assert(lists(entries, raised));
            lemma_performed(entries, found, raised);
        },
        None => {},
    }
    lemma_propagation_row(
        entries,
        performed.symbol("alloc_array"@),
        span,
        performed.named("alloc_array"@),
    );
}

proof fn lemma_alloc(
    env: TyEnv,
    node: HirExpr,
    name: Symbol,
    ty: TyId,
    elem: HirCallArg,
    count: HirCallArg,
    span: Span,
    ic: Ic,
)
    requires
        method_target(name, ty, ic) == MethodTarget::Capability(
            CapabilityMethod::AllocatorAllocArray,
        ),
        elem.name is None,
        elem.mode is None,
        count.name is None,
        count.mode is None,
    ensures
        ({
            let method = CapabilityMethod::AllocatorAllocArray;
            let args = List::Cons(
                Box::new(elem),
                Box::new(List::Cons(Box::new(count), Box::new(List::Nil))),
            );
            let e = element_arg_rule(env, elem, ic);
            let w = arg_rule(e.env, count, Some(TyId::Prim(Primitive::Usize)), e.ic);
            let m = method_args_rule(env, args, node, name, ty, ic, span);
            let performed = alloc_performed(
                capability_performed(node, method, w.ic, span),
                span,
            );
            &&& m.env == w.env
            &&& m.ty == performed.handle(TyKind::Slice(e.ty))
            &&& m.ic == performed.stored(TyKind::Slice(e.ty))
        }),
{
    reveal(method_args_rule);
    reveal(capability_call_rule);
    reveal(alloc_array_rule);
    reveal(element_arg_rule);
    reveal(last_arg_rule);
    reveal(arg_rule);
    let method = CapabilityMethod::AllocatorAllocArray;
    let none: List<HirCallArg> = List::Nil;
    let one = List::Cons(Box::new(count), Box::new(none));
    let args = List::Cons(Box::new(elem), Box::new(one));
    assert(none.length() == 0);
    assert(one.length() == 1);
    assert(args.length() == 2);
    assert(capability_reports(none, method, ic) == ic);
    assert(capability_reports(one, method, ic) == ic);
    assert(capability_reports(args, method, ic) == ic);
    let c = capability_call_rule(env, args, node, method, ic, span);
    let a = alloc_array_rule(env, args, node, ic, span);
    let e = element_arg_rule(env, elem, ic);
    let w = last_arg_rule(e.env, one, Primitive::Usize, e.ic);
}

} // verus!
