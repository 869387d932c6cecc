//! Method calls.

use vstd::prelude::*;

use super::call::args::{
    arg_rule, check_arg_expr, check_args, check_args_rule, synth_args_for_diagnostics,
    synth_args_rule,
};
use super::call::capability::{
    call_source, capability_source, capability_source_of_call, push_effect_entries, source,
    translate_entries, translated_all,
};
use super::call::direct::{param_types, param_tys};
use super::call::err_propagation::{check_err_propagation, propagation_check};
use super::cx::{group_grown, kept, Ic, InferCx};
use super::env::TyEnv;
use super::expr::{synth_expr, synth_expr_rule};
use super::judge::{judged, sound, walked, Judged, Walked};
use super::mode::linear::{consume_moved_linear, moved_out};
use super::path::{bridge, check_synth_against_expected, failed, typed, Typed};
use crate::capability::CapabilityType;
use crate::cx::SigEntry;
use crate::diag::Message;
use crate::effect::{EffectEntry, PureEffect};
use crate::hir::{HirCallArg, HirExpr, HirExprKind, HirMethodCall};
use crate::intern::Symbol;
use crate::intrinsic::{
    capability_method, resolve_capability_method, CapabilityMethod, IntrinsicKind,
};
use crate::list::List;
use crate::package::{item_in, BindingKind, ResolvedPackage};
use crate::prim::Primitive;
use crate::sig::{FnSig, Param, ParamMode};
use crate::span::Span;
use crate::ty::{BindingId, TyId, TyInterner, TyKind};

verus! {

broadcast use group_grown;

/// What a method call calls.
pub enum MethodTarget {
    /// An operation of a built-in type.
    Intrinsic(IntrinsicKind),
    /// A method of a capability.
    Capability(CapabilityMethod),
    /// A function whose first parameter takes the receiver.
    Function(BindingId, FnSig),
    /// Nothing.
    Unresolved,
}

/// The operation that a built-in type has under a name.
pub open spec fn intrinsic_of(text: Seq<char>, ty: TyId, ic: Ic) -> Option<IntrinsicKind> {
    match ic.kind(ty) {
        TyKind::Primitive(Primitive::String) => if text == "bytes"@ {
            Some(IntrinsicKind::StringBytes)
        } else {
            None
        },
        TyKind::Slice(_) => if text == "len"@ {
            Some(IntrinsicKind::SliceLen)
        } else {
            None
        },
        _ => None,
    }
}

fn resolve_intrinsic(name: Symbol, ty: TyId, ic: &InferCx<'_>) -> (r: Option<IntrinsicKind>)
    ensures
        r == intrinsic_of(ic@.text(name), ty, ic@),
{
    match ic.kind(ty) {
        TyKind::Primitive(Primitive::String) => if ic.lower.interner.reads(name, "bytes") {
            Some(IntrinsicKind::StringBytes)
        } else {
            None
        },
        TyKind::Slice(_) => if ic.lower.interner.reads(name, "len") {
            Some(IntrinsicKind::SliceLen)
        } else {
            None
        },
        _ => None,
    }
}

/// The kind of the result of an intrinsic operation.
pub open spec fn intrinsic_kind(intrinsic: IntrinsicKind) -> TyKind {
    match intrinsic {
        IntrinsicKind::StringBytes => TyKind::Slice(TyId::Prim(Primitive::U8)),
        IntrinsicKind::SliceLen | IntrinsicKind::DiscriminantOf => TyKind::Primitive(
            Primitive::Usize,
        ),
    }
}

/// The type of the result of an intrinsic operation.
pub fn intrinsic_result_ty(intrinsic: IntrinsicKind, interner: &mut TyInterner) -> (r: TyId)
    ensures
        (final(interner)@, r) == crate::ty::ty_interned(old(interner)@, intrinsic_kind(intrinsic)),
{
    match intrinsic {
        IntrinsicKind::StringBytes => {
            let element = interner.prim(Primitive::U8);
            interner.intern_kind(TyKind::Slice(element))
        },
        IntrinsicKind::SliceLen | IntrinsicKind::DiscriminantOf => interner.prim(Primitive::Usize),
    }
}

/// The first signature of a function with the given name whose first parameter
/// has the type `ty`.
pub open spec fn method_sig(
    sigs: List<SigEntry>,
    package: ResolvedPackage,
    name: Symbol,
    ty: TyId,
) -> Option<(BindingId, FnSig)>
    decreases sigs,
{
    match sigs {
        List::Nil => None,
        List::Cons(entry, rest) => if fits_method(*entry, package, name, ty) {
            Some((entry.id, entry.sig))
        } else {
            method_sig(*rest, package, name, ty)
        },
    }
}

/// Whether a signature is of a function with the given name whose first
/// parameter has the type `ty`.
pub open spec fn fits_method(
    entry: SigEntry,
    package: ResolvedPackage,
    name: Symbol,
    ty: TyId,
) -> bool {
    match (package.entry(entry.id), entry.sig.params) {
        (Some(binding), List::Cons(first, _)) => binding.name == name && first.ty == ty,
        _ => false,
    }
}

fn entry_fits(entry: &SigEntry, package: &ResolvedPackage, name: Symbol, ty: TyId) -> (r: bool)
    ensures
        r == fits_method(*entry, *package, name, ty),
{
    match (package.binding(entry.id), &entry.sig.params) {
        (Some(binding), List::Cons(first, _)) => binding.name == name && first.ty == ty,
        _ => false,
    }
}

fn find_method(sigs: &List<SigEntry>, package: &ResolvedPackage, name: Symbol, ty: TyId) -> (r:
    Option<(BindingId, FnSig)>)
    ensures
        r == method_sig(*sigs, *package, name, ty),
    decreases sigs,
{
    match sigs {
        List::Nil => None,
        List::Cons(entry, rest) => if entry_fits(entry, package, name, ty) {
            Some((entry.id, entry.sig.dup()))
        } else {
            find_method(rest, package, name, ty)
        },
    }
}

/// What a call of the method `name` of a value of type `ty` calls.
#[verifier::opaque]
pub open spec fn method_target(name: Symbol, ty: TyId, ic: Ic) -> MethodTarget {
    match intrinsic_of(ic.text(name), ty, ic) {
        Some(intrinsic) => MethodTarget::Intrinsic(intrinsic),
        None => match capability_target(name, ty, ic) {
            Some(method) => MethodTarget::Capability(method),
            None => match ic.package {
                Some(package) => match method_sig(ic.ty_cx.sigs, package, name, ty) {
                    Some((id, sig)) => MethodTarget::Function(id, sig),
                    None => MethodTarget::Unresolved,
                },
                None => MethodTarget::Unresolved,
            },
        },
    }
}

/// The capability method `name` of a value of type `ty`.
pub open spec fn capability_target(name: Symbol, ty: TyId, ic: Ic) -> Option<CapabilityMethod> {
    match ic.kind(ty) {
        TyKind::Capability(cap) => capability_method(cap, ic.text(name)),
        _ => None,
    }
}

fn resolve_method(name: Symbol, ty: TyId, ic: &InferCx<'_>) -> (r: MethodTarget)
    ensures
        r == method_target(name, ty, ic@),
{
    proof {
        reveal(method_target);
    }
    match resolve_intrinsic(name, ty, ic) {
        Some(intrinsic) => {
            return MethodTarget::Intrinsic(intrinsic);
        },
        None => {},
    }
    match ic.kind(ty) {
        TyKind::Capability(cap) => match resolve_capability_method(
            cap,
            ic.lower.interner.resolve(name),
        ) {
            Some(method) => {
                return MethodTarget::Capability(method);
            },
            None => {},
        },
        _ => {},
    }
    match ic.lower.package {
        Some(package) => match find_method(&ic.ty_cx.sigs, package, name, ty) {
            Some((id, sig)) => MethodTarget::Function(id, sig),
            None => MethodTarget::Unresolved,
        },
        None => MethodTarget::Unresolved,
    }
}

/// Number of arguments of a capability method.
pub open spec fn capability_arguments(method: CapabilityMethod) -> usize {
    match method {
        CapabilityMethod::AllocatorAllocArray => 2,
        CapabilityMethod::AllocatorFork => 0,
        CapabilityMethod::RandomDeterministic => 1,
    }
}

/// Number of arguments of a capability method.
pub fn capability_method_arity(method: CapabilityMethod) -> (r: usize)
    ensures
        r == capability_arguments(method),
{
    match method {
        CapabilityMethod::AllocatorAllocArray => 2,
        CapabilityMethod::AllocatorFork => 0,
        CapabilityMethod::RandomDeterministic => 1,
    }
}

/// The reports on names and mode keywords of the arguments of a capability
/// method.
pub open spec fn capability_reports(args: List<HirCallArg>, method: CapabilityMethod, ic: Ic) -> Ic
    decreases args,
{
    match args {
        List::Nil => ic,
        List::Cons(arg, rest) => {
            let named = match arg.name {
                Some(name) => ic.error(
                    arg.span,
                    Message::CapabilityNamedArgument { field: name.name, method },
                ),
                None => ic,
            };
            let moded = if arg.mode is Some {
                named.error(arg.span, Message::CapabilityModeArgument { method })
            } else {
                named
            };
            capability_reports(*rest, method, moded)
        },
    }
}

fn report_capability_args(args: &List<HirCallArg>, method: CapabilityMethod, ic: &mut InferCx<'_>)
    ensures
        final(ic)@ == capability_reports(*args, method, old(ic)@),
        kept(old(ic)@, final(ic)@),
    decreases args,
{
    match args {
        List::Nil => {},
        List::Cons(arg, rest) => {
            match arg.name {
                Some(name) => {
                    ic.emit_typecheck_error(
                        arg.span,
                        Message::CapabilityNamedArgument { field: name.name, method },
                    );
                },
                None => {},
            }
            if arg.mode.is_some() {
                ic.emit_typecheck_error(arg.span, Message::CapabilityModeArgument { method });
            }
            report_capability_args(rest, method, ic);
        },
    }
}

/// The context after a capability method is recorded and the capability that
/// its receiver comes from is performed.
pub open spec fn capability_performed(
    receiver: HirExpr,
    method: CapabilityMethod,
    ic: Ic,
    span: Span,
) -> Ic {
    let recorded = Ic { cap_calls: ic.cap_calls.insert(span, method), ..ic };
    let from = match source(receiver) {
        Some(s) => Some(s),
        None => call_source(receiver),
    };
    match from {
        Some(s) => recorded.perform(EffectEntry::Capability(recorded.root(s))),
        None => recorded,
    }
}

fn perform_capability(
    receiver: &HirExpr,
    method: CapabilityMethod,
    ic: &mut InferCx<'_>,
    span: Span,
)
    ensures
        final(ic)@ == capability_performed(*receiver, method, old(ic)@, span),
        kept(old(ic)@, final(ic)@),
{
    ic.capability_method_calls.insert(span, method);
    let from = match capability_source(receiver) {
        Some(s) => Some(s),
        None => capability_source_of_call(receiver),
    };
    match from {
        Some(s) => {
            let root = ic.capability_root(s);
            ic.push_effect_entry(EffectEntry::Capability(root));
        },
        None => {},
    }
}

/// The error type of an allocation, where the package has the module that
/// declares it; its name and path are interned.
pub open spec fn alloc_error(ic: Ic) -> (Ic, Option<TyId>) {
    match ic.package {
        None => (ic, None),
        Some(package) => {
            let ic1 = ic.named("std"@);
            let ic2 = ic1.named("mem"@);
            let ic3 = ic2.named("alloc"@);
            let ic4 = ic3.named("AllocError"@);
            let path = List::Cons(
                Box::new(ic.symbol("std"@)),
                Box::new(
                    List::Cons(
                        Box::new(ic1.symbol("mem"@)),
                        Box::new(
                            List::Cons(Box::new(ic2.symbol("alloc"@)), Box::new(List::Nil)),
                        ),
                    ),
                ),
            );
            match item_in(package.modules, 0, path, ic3.symbol("AllocError"@)) {
                Some(id) => match package.entry(id) {
                    Some(entry) if entry.kind == BindingKind::TypeDecl => {
                        let kind = TyKind::Nominal(id);
                        (ic4.stored(kind), Some(ic4.handle(kind)))
                    },
                    _ => (ic4, None),
                },
                None => (ic4, None),
            }
        },
    }
}

fn lookup_alloc_error_ty(ic: &mut InferCx<'_>) -> (r: Option<TyId>)
    ensures
        (final(ic)@, r) == alloc_error(old(ic)@),
        kept(old(ic)@, final(ic)@),
{
    let package = match ic.lower.package {
        Some(package) => package,
        None => {
            return None;
        },
    };
    let std_sym = ic.intern("std");
    let mem_sym = ic.intern("mem");
    let alloc_sym = ic.intern("alloc");
    let error_sym = ic.intern("AllocError");
    let path = List::cons(std_sym, List::cons(mem_sym, List::cons(alloc_sym, List::Nil)));
    match package.lookup_item(&path, error_sym) {
        Some(id) => match package.binding(id) {
            Some(entry) => match entry.kind {
                BindingKind::TypeDecl => Some(ic.intern_kind(TyKind::Nominal(id))),
                _ => None,
            },
            None => None,
        },
        None => None,
    }
}

/// The context after an allocation: its error, where there is one, is
/// performed.
pub open spec fn alloc_performed(ic: Ic, span: Span) -> Ic {
    let (found, err) = alloc_error(ic);
    let entries = match err {
        Some(ty) => List::Cons(
            Box::new(EffectEntry::Pure(PureEffect::Raise(ty))),
            Box::new(List::Nil),
        ),
        None => List::Nil,
    };
    let performed = found.perform_all(entries);
    propagation_check(
        entries,
        performed.symbol("alloc_array"@),
        span,
        performed.named("alloc_array"@),
    )
}

fn perform_alloc(ic: &mut InferCx<'_>, span: Span)
    ensures
        final(ic)@ == alloc_performed(old(ic)@, span),
        kept(old(ic)@, final(ic)@),
{
    let entries = match lookup_alloc_error_ty(ic) {
        Some(ty) => List::cons(EffectEntry::Pure(PureEffect::Raise(ty)), List::Nil),
        None => List::Nil,
    };
    push_effect_entries(ic, &entries);
    let name = ic.intern("alloc_array");
    check_err_propagation(&entries, name, span, ic);
}

/// The type that the first argument of `alloc_array` names.
pub open spec fn element_named(expr: HirExpr, ic: Ic) -> Typed {
    match expr.kind {
        HirExprKind::Path(path) => typed(
            ic,
            if ic.type_paths.contains_key(path.span) {
                ic.type_paths[path.span]
            } else {
                TyId::Error
            },
        ),
        _ => failed(ic, expr.span, Message::AllocArrayNeedsType),
    }
}

fn element_of(expr: &HirExpr, ic: &mut InferCx<'_>) -> (r: TyId)
    ensures
        typed(final(ic)@, r) == element_named(*expr, old(ic)@),
        kept(old(ic)@, final(ic)@),
{
    match &expr.kind {
        HirExprKind::Path(path) => match ic.comptime_type_paths.get(path.span) {
            Some(ty) => ty,
            None => ic.ty_error(),
        },
        _ => {
            ic.emit_typecheck_error(expr.span, Message::AllocArrayNeedsType);
            ic.ty_error()
        },
    }
}

/// The first argument of `alloc_array`: a type, named in a compile-time
/// position.
#[verifier::opaque]
pub open spec fn element_arg_rule(env: TyEnv, arg: HirCallArg, ic: Ic) -> Judged<HirCallArg>
    decreases arg, 0nat,
{
    let j = synth_expr_rule(env, arg.expr, Ic { comptime: true, ..ic });
    let after = Ic { comptime: ic.comptime, ..j.ic };
    let b = bridge(j.ty, TyId::Prim(Primitive::Type), after, arg.expr.span);
    let t = element_named(j.node, b.ic);
    judged(j.env, t.ic, HirCallArg { expr: j.node, ..arg }, t.ty)
}

fn synth_element_arg(env: &mut TyEnv, arg: &mut HirCallArg, ic: &mut InferCx<'_>) -> (r: TyId)
    ensures
        judged(*final(env), final(ic)@, *final(arg), r) == element_arg_rule(
            *old(env),
            *old(arg),
            old(ic)@,
        ),
        sound(*old(env), old(ic)@, *final(env), final(ic)@),
    decreases *old(arg), 0nat,
{
    proof {
        reveal(element_arg_rule);
        reveal(synth_expr_rule);
    }
    let span = arg.expr.span;
    let saved = ic.in_comptime_context;
    ic.in_comptime_context = true;
    let synth = synth_expr(env, &mut arg.expr, ic);
    ic.in_comptime_context = saved;
    check_synth_against_expected(synth, TyId::Prim(Primitive::Type), ic, span);
    element_of(&arg.expr, ic)
}

/// A last argument of a primitive type.
#[verifier::opaque]
pub open spec fn last_arg_rule(env: TyEnv, args: List<HirCallArg>, prim: Primitive, ic: Ic) -> Walked<
    List<HirCallArg>,
>
    decreases args, 0nat,
{
    match args {
        List::Nil => walked(env, ic, args),
        List::Cons(arg, rest) => {
            let w = arg_rule(env, *arg, Some(TyId::Prim(prim)), ic);
            walked(w.env, w.ic, List::Cons(Box::new(w.node), rest))
        },
    }
}

fn check_last_arg(
    env: &mut TyEnv,
    args: &mut List<HirCallArg>,
    prim: Primitive,
    ic: &mut InferCx<'_>,
)
    ensures
        walked(*final(env), final(ic)@, *final(args)) == last_arg_rule(
            *old(env),
            *old(args),
            prim,
            old(ic)@,
        ),
        sound(*old(env), old(ic)@, *final(env), final(ic)@),
    decreases *old(args), 0nat,
{
    proof {
        reveal(last_arg_rule);
        reveal(arg_rule);
    }
    match args {
        List::Nil => {},
        List::Cons(arg, _) => check_arg_expr(env, arg, TyId::Prim(prim), ic),
    }
}

/// `allocator.alloc_array(T, n)`: a slice of `n` values of type `T`.
#[verifier::opaque]
pub open spec fn alloc_array_rule(
    env: TyEnv,
    args: List<HirCallArg>,
    receiver: HirExpr,
    ic: Ic,
    span: Span,
) -> Judged<List<HirCallArg>>
    decreases args, 1nat,
{
    match args {
        List::Nil => judged(env, ic, args, TyId::Error),
        List::Cons(arg, rest) => {
            let e = element_arg_rule(env, *arg, ic);
            let w = last_arg_rule(e.env, *rest, Primitive::Usize, e.ic);
            let used = capability_performed(
                receiver,
                CapabilityMethod::AllocatorAllocArray,
                w.ic,
                span,
            );
            let performed = alloc_performed(used, span);
            let kind = TyKind::Slice(e.ty);
            judged(
                w.env,
                performed.stored(kind),
                List::Cons(Box::new(e.node), Box::new(w.node)),
                performed.handle(kind),
            )
        },
    }
}

fn synth_alloc_array(
    env: &mut TyEnv,
    args: &mut List<HirCallArg>,
    receiver: &HirExpr,
    ic: &mut InferCx<'_>,
    span: Span,
) -> (r: TyId)
    ensures
        judged(*final(env), final(ic)@, *final(args), r) == alloc_array_rule(
            *old(env),
            *old(args),
            *receiver,
            old(ic)@,
            span,
        ),
        sound(*old(env), old(ic)@, *final(env), final(ic)@),
    decreases *old(args), 1nat,
{
    proof {
        reveal(alloc_array_rule);
        reveal(element_arg_rule);
        reveal(last_arg_rule);
    }
    match args {
        List::Nil => ic.ty_error(),
        List::Cons(arg, rest) => {
            let element = synth_element_arg(env, arg, ic);
            check_last_arg(env, rest, Primitive::Usize, ic);
            perform_capability(receiver, CapabilityMethod::AllocatorAllocArray, ic, span);
            perform_alloc(ic, span);
            ic.intern_kind(TyKind::Slice(element))
        },
    }
}

/// A call of a capability method.
#[verifier::opaque]
pub open spec fn capability_call_rule(
    env: TyEnv,
    args: List<HirCallArg>,
    receiver: HirExpr,
    method: CapabilityMethod,
    ic: Ic,
    span: Span,
) -> Judged<List<HirCallArg>>
    decreases args, 2nat,
{
    if args.length() != capability_arguments(method) {
        let w = synth_args_rule(env, args, ic);
        judged(
            w.env,
            w.ic.error(
                span,
                Message::CapabilityMethodArity {
                    method,
                    arity: capability_arguments(method),
                    supplied: args.length(),
                },
            ),
            w.node,
            TyId::Error,
        )
    } else {
        let start = capability_reports(args, method, ic);
        match method {
            CapabilityMethod::AllocatorAllocArray => alloc_array_rule(
                env,
                args,
                receiver,
                start,
                span,
            ),
            CapabilityMethod::AllocatorFork => judged(
                env,
                capability_performed(receiver, method, start, span),
                args,
                TyId::Cap(CapabilityType::Allocator),
            ),
            CapabilityMethod::RandomDeterministic => {
                let w = last_arg_rule(env, args, Primitive::U64, start);
                judged(
                    w.env,
                    capability_performed(receiver, method, w.ic, span),
                    w.node,
                    TyId::Cap(CapabilityType::DeterministicRandom),
                )
            },
        }
    }
}

fn synth_capability_method_call(
    env: &mut TyEnv,
    args: &mut List<HirCallArg>,
    receiver: &HirExpr,
    method: CapabilityMethod,
    ic: &mut InferCx<'_>,
    span: Span,
) -> (r: TyId)
    ensures
        judged(*final(env), final(ic)@, *final(args), r) == capability_call_rule(
            *old(env),
            *old(args),
            *receiver,
            method,
            old(ic)@,
            span,
        ),
        sound(*old(env), old(ic)@, *final(env), final(ic)@),
    decreases *old(args), 2nat,
{
    proof {
        reveal(capability_call_rule);
        reveal(synth_args_rule);
        reveal(alloc_array_rule);
        reveal(last_arg_rule);
    }
    let supplied: usize = args.len();
    let arity: usize = capability_method_arity(method);
    if supplied != arity {
        synth_args_for_diagnostics(env, args, ic);
        ic.emit_typecheck_error(
            span,
            Message::CapabilityMethodArity { method, arity, supplied },
        );
        return ic.ty_error();
    }
    report_capability_args(args, method, ic);
    match method {
        CapabilityMethod::AllocatorAllocArray => synth_alloc_array(env, args, receiver, ic, span),
        CapabilityMethod::AllocatorFork => {
            perform_capability(receiver, method, ic, span);
            ic.lower.ty_interner.capability(CapabilityType::Allocator)
        },
        CapabilityMethod::RandomDeterministic => {
            check_last_arg(env, args, Primitive::U64, ic);
            perform_capability(receiver, method, ic, span);
            ic.lower.ty_interner.capability(CapabilityType::DeterministicRandom)
        },
    }
}

/// The parameters after the first.
pub open spec fn other_params(params: List<Param>) -> List<Param> {
    match params {
        List::Nil => List::Nil,
        List::Cons(_, rest) => *rest,
    }
}

/// Whether the first parameter is a `take` parameter.
pub open spec fn takes_receiver(params: List<Param>) -> bool {
    match params {
        List::Nil => false,
        List::Cons(first, _) => first.mode == ParamMode::Take,
    }
}

/// A call of a function as a method.
#[verifier::opaque]
pub open spec fn function_method_rule(
    env: TyEnv,
    args: List<HirCallArg>,
    receiver: HirExpr,
    name: Symbol,
    id: BindingId,
    sig: FnSig,
    ic: Ic,
    span: Span,
) -> Judged<List<HirCallArg>>
    decreases args, 1nat,
{
    let recorded = Ic { methods: ic.methods.insert(span, id), ..ic };
    let others = other_params(sig.params);
    if args.length() != others.length() {
        let w = synth_args_rule(
            env,
            args,
            recorded.error(
                span,
                Message::MethodArity { name, arity: others.length(), supplied: args.length() },
            ),
        );
        judged(w.env, w.ic, w.node, TyId::Error)
    } else {
        let w = check_args_rule(env, args, param_types(others), false, recorded);
        let moved = if takes_receiver(sig.params) {
            moved_out(w.env, receiver, w.ic)
        } else {
            w.env
        };
        let entries = translated_all(
            sig.effects.list,
            sig.params,
            Some(receiver),
            w.node,
            w.ic,
        );
        judged(
            moved,
            propagation_check(entries, name, span, w.ic.perform_all(entries)),
            w.node,
            sig.return_ty,
        )
    }
}

fn synth_function_method(
    env: &mut TyEnv,
    args: &mut List<HirCallArg>,
    receiver: &HirExpr,
    name: Symbol,
    id: BindingId,
    sig: &FnSig,
    ic: &mut InferCx<'_>,
    span: Span,
) -> (r: TyId)
    ensures
        judged(*final(env), final(ic)@, *final(args), r) == function_method_rule(
            *old(env),
            *old(args),
            *receiver,
            name,
            id,
            *sig,
            old(ic)@,
            span,
        ),
        sound(*old(env), old(ic)@, *final(env), final(ic)@),
    decreases *old(args), 1nat,
{
    proof {
        reveal(function_method_rule);
        reveal(synth_args_rule);
        reveal(check_args_rule);
    }
    ic.method_resolutions.insert(span, id);
    let (others, takes) = match &sig.params {
        List::Nil => (List::Nil, false),
        List::Cons(first, rest) => (rest.dup(), first.mode == ParamMode::Take),
    };
    let supplied: usize = args.len();
    let arity: usize = others.len();
    if supplied != arity {
        ic.emit_typecheck_error(span, Message::MethodArity { name, arity, supplied });
        synth_args_for_diagnostics(env, args, ic);
        return ic.ty_error();
    }
    let tys = param_tys(&others);
    check_args(env, args, &tys, false, ic);
    if takes {
        consume_moved_linear(env, receiver, ic);
    }
    let entries = translate_entries(&sig.effects.list, &sig.params, Some(receiver), args, ic);
    push_effect_entries(ic, &entries);
    check_err_propagation(&entries, name, span, ic);
    sig.return_ty
}

/// The arguments of a method call.
#[verifier::opaque]
pub open spec fn method_args_rule(
    env: TyEnv,
    args: List<HirCallArg>,
    receiver: HirExpr,
    name: Symbol,
    ty: TyId,
    ic: Ic,
    span: Span,
) -> Judged<List<HirCallArg>>
    decreases args, 3nat,
{
    match method_target(name, ty, ic) {
        MethodTarget::Intrinsic(intrinsic) => {
            let w = synth_args_rule(
                env,
                args,
                Ic { intrinsics: ic.intrinsics.insert(span, intrinsic), ..ic },
            );
            let kind = intrinsic_kind(intrinsic);
            judged(w.env, w.ic.stored(kind), w.node, w.ic.handle(kind))
        },
        MethodTarget::Capability(method) => capability_call_rule(
            env,
            args,
            receiver,
            method,
            ic,
            span,
        ),
        MethodTarget::Function(id, sig) => function_method_rule(
            env,
            args,
            receiver,
            name,
            id,
            sig,
            ic,
            span,
        ),
        MethodTarget::Unresolved => {
            let w = synth_args_rule(
                env,
                args,
                ic.error(span, Message::MethodUnresolved { name, ty }),
            );
            judged(w.env, w.ic, w.node, TyId::Error)
        },
    }
}

/// A method call. An enclosing `?` does not reach into the receiver.
#[verifier::opaque]
pub open spec fn synth_method_call_rule(env: TyEnv, call: HirMethodCall, ic: Ic, span: Span) -> Judged<
    HirMethodCall,
>
    decreases call, 0nat,
{
    let r = synth_expr_rule(env, call.receiver, Ic { try_depth: 0, ..ic });
    let after = Ic { try_depth: ic.try_depth, ..r.ic };
    let j = method_args_rule(r.env, call.args, r.node, call.name.name, r.ty, after, span);
    judged(
        j.env,
        j.ic,
        HirMethodCall { receiver: r.node, name: call.name, args: j.node },
        j.ty,
    )
}

fn synth_method_args(
    env: &mut TyEnv,
    args: &mut List<HirCallArg>,
    receiver: &HirExpr,
    name: Symbol,
    ty: TyId,
    ic: &mut InferCx<'_>,
    span: Span,
) -> (r: TyId)
    ensures
        judged(*final(env), final(ic)@, *final(args), r) == method_args_rule(
            *old(env),
            *old(args),
            *receiver,
            name,
            ty,
            old(ic)@,
            span,
        ),
        sound(*old(env), old(ic)@, *final(env), final(ic)@),
    decreases *old(args), 3nat,
{
    proof {
        reveal(method_args_rule);
        reveal(synth_args_rule);
        reveal(capability_call_rule);
        reveal(function_method_rule);
    }
    match resolve_method(name, ty, ic) {
        MethodTarget::Intrinsic(intrinsic) => {
            ic.intrinsic_calls.insert(span, intrinsic);
            synth_args_for_diagnostics(env, args, ic);
            let ghost walked_ic = ic@;
            let r = intrinsic_result_ty(intrinsic, &mut ic.lower.ty_interner);
            assert(ic@ == walked_ic.stored(intrinsic_kind(intrinsic)));
            r
        },
        MethodTarget::Capability(method) => synth_capability_method_call(
            env,
            args,
            receiver,
            method,
            ic,
            span,
        ),
        MethodTarget::Function(id, sig) => synth_function_method(
            env,
            args,
            receiver,
            name,
            id,
            &sig,
            ic,
            span,
        ),
        MethodTarget::Unresolved => {
            ic.emit_typecheck_error(span, Message::MethodUnresolved { name, ty });
            synth_args_for_diagnostics(env, args, ic);
            ic.ty_error()
        },
    }
}

/// Synthesise a method call.
pub fn synth_method_call(
    env: &mut TyEnv,
    call: &mut HirMethodCall,
    ic: &mut InferCx<'_>,
    span: Span,
) -> (r: TyId)
    ensures
        judged(*final(env), final(ic)@, *final(call), r) == synth_method_call_rule(
            *old(env),
            *old(call),
            old(ic)@,
            span,
        ),
        sound(*old(env), old(ic)@, *final(env), final(ic)@),
    decreases *old(call), 0nat,
{
    proof {
        reveal(synth_method_call_rule);
        reveal(synth_expr_rule);
        reveal(method_args_rule);
    }
    let saved: usize = ic.try_position_depth;
    ic.try_position_depth = 0;
    let ty = synth_expr(env, &mut call.receiver, ic);
    ic.try_position_depth = saved;
    synth_method_args(env, &mut call.args, &call.receiver, call.name.name, ty, ic, span)
}

} // verus!
