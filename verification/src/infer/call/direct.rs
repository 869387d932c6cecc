//! Calls of named functions, and the dispatch of calls.

use vstd::prelude::*;

use super::super::comptime_call::{
    builtin_call_rule, supports_call_rule, synth_comptime_builtin_call, synth_target_supports_call,
};
use super::super::cx::{group_grown, Ic, InferCx};
use super::super::env::TyEnv;
use super::super::judge::{judged, sound, Judged};
use super::args::{
    arg_rule, check_args, check_args_rule, find_moded, find_named, first_moded, first_named,
    named_reports, report_named, synth_arg_expr, synth_args_for_diagnostics, synth_args_rule,
    ArgSite,
};
use super::capability::{push_effect_entries, translate_entries, translated_all};
use super::comptime_purity::{check_comptime_purity, purity_check};
use super::err_propagation::{check_err_propagation, propagation_check};
use super::indirect::{indirect_call_rule, synth_indirect_call};
use super::variant::{synth_variant_constructor, variant_call_rule, VariantSite};
use crate::comptime_builtin::ComptimeBuiltin;
use crate::cx::{sig_for, TypeDeclShape, VariantPayloadInfo};
use crate::diag::Message;
use crate::hir::{HirCall, HirCallArg, HirExpr, HirExprKind, HirPath};
use crate::intern::Symbol;
use crate::intrinsic::IntrinsicKind;
use crate::list::List;
use crate::package::{mono_named, BindingKind, Resolved};
use crate::prim::Primitive;
use crate::sig::{FnSig, Param};
use crate::span::Span;
use crate::ty::{BindingId, TyId, TyKind};

verus! {

broadcast use group_grown;

/// The types of parameters.
pub open spec fn param_types(params: List<Param>) -> List<TyId>
    decreases params,
{
    match params {
        List::Nil => List::Nil,
        List::Cons(p, rest) => List::Cons(Box::new(p.ty), Box::new(param_types(*rest))),
    }
}

/// The types of parameters.
pub fn param_tys(params: &List<Param>) -> (r: List<TyId>)
    ensures
        r == param_types(*params),
    decreases params,
{
    match params {
        List::Nil => List::Nil,
        List::Cons(p, rest) => List::cons(p.ty, param_tys(rest)),
    }
}

impl Ic {
    /// The signature of a function, declared or specialised.
    pub open spec fn signature(self, id: BindingId) -> Option<FnSig> {
        match sig_for(self.ty_cx.sigs, id) {
            Some(sig) => Some(sig),
            None => match self.mono {
                Some(mono) => sig_for(mono.sigs, id),
                None => None,
            },
        }
    }
}

fn find_signature(id: BindingId, ic: &InferCx<'_>) -> (r: Option<FnSig>)
    ensures
        r == ic@.signature(id),
{
    match ic.ty_cx.sig(id) {
        Some(sig) => Some(sig),
        None => match ic.mono_fns {
            Some(mono) => mono.sig(id),
            None => None,
        },
    }
}

/// The context after a call whose arguments were walked: the row of the callee
/// is performed, with the caller's capabilities in place of the callee's.
pub open spec fn call_performed(
    id: BindingId,
    name: Symbol,
    sig: FnSig,
    args: List<HirCallArg>,
    ic: Ic,
    span: Span,
) -> Ic {
    let pure = if ic.comptime {
        purity_check(sig.effects, name, span, ic)
    } else {
        ic
    };
    let recorded = Ic { fn_calls: pure.fn_calls.insert(span, id), ..pure };
    let entries = translated_all(sig.effects.list, sig.params, None, args, recorded);
    propagation_check(entries, name, span, recorded.perform_all(entries))
}

/// A call of a named function.
#[verifier::opaque]
pub open spec fn function_call_rule(
    env: TyEnv,
    args: List<HirCallArg>,
    id: BindingId,
    name: Symbol,
    ic: Ic,
    span: Span,
) -> Judged<List<HirCallArg>>
    decreases args, 1nat,
{
    match ic.signature(id) {
        None => {
            let w = synth_args_rule(env, args, ic);
            judged(w.env, w.ic.error(span, Message::NoSignature { name }), w.node, TyId::Error)
        },
        Some(sig) => if args.length() != sig.params.length() {
            let w = synth_args_rule(env, args, ic);
            judged(
                w.env,
                w.ic.error(
                    span,
                    Message::FunctionArity {
                        name,
                        arity: sig.params.length(),
                        supplied: args.length(),
                    },
                ),
                w.node,
                TyId::Error,
            )
        } else {
            let named = named_reports(args, ArgSite::Function(name), ic);
            let w = check_args_rule(env, args, param_types(sig.params), true, named);
            judged(
                w.env,
                call_performed(id, name, sig, w.node, w.ic, span),
                w.node,
                sig.return_ty,
            )
        },
    }
}

fn perform_call(
    id: BindingId,
    name: Symbol,
    sig: &FnSig,
    args: &List<HirCallArg>,
    ic: &mut InferCx<'_>,
    span: Span,
)
    ensures
        final(ic)@ == call_performed(id, name, *sig, *args, old(ic)@, span),
        super::super::cx::kept(old(ic)@, final(ic)@),
{
    if ic.in_comptime_context {
        check_comptime_purity(&sig.effects, name, span, ic);
    }
    ic.comptime_fn_calls.insert(span, id);
    let entries = translate_entries(&sig.effects.list, &sig.params, None, args, ic);
    push_effect_entries(ic, &entries);
    check_err_propagation(&entries, name, span, ic);
}

/// Synthesise a call of a named function.
pub fn synth_resolved_function_call(
    env: &mut TyEnv,
    args: &mut List<HirCallArg>,
    id: BindingId,
    name: Symbol,
    ic: &mut InferCx<'_>,
    span: Span,
) -> (r: TyId)
    ensures
        judged(*final(env), final(ic)@, *final(args), r) == function_call_rule(
            *old(env),
            *old(args),
            id,
            name,
            old(ic)@,
            span,
        ),
        sound(*old(env), old(ic)@, *final(env), final(ic)@),
    decreases *old(args), 1nat,
{
    proof {
        reveal(function_call_rule);
        reveal(synth_args_rule);
        reveal(check_args_rule);
    }
    let sig = match find_signature(id, ic) {
        Some(sig) => sig,
        None => {
            synth_args_for_diagnostics(env, args, ic);
            ic.emit_typecheck_error(span, Message::NoSignature { name });
            return ic.ty_error();
        },
    };
    let supplied: usize = args.len();
    let arity: usize = sig.params.len();
    if supplied != arity {
        synth_args_for_diagnostics(env, args, ic);
        ic.emit_typecheck_error(span, Message::FunctionArity { name, arity, supplied });
        return ic.ty_error();
    }
    report_named(args, &ArgSite::Function(name), ic);
    let tys = param_tys(&sig.params);
    check_args(env, args, &tys, true, ic);
    perform_call(id, name, &sig, args, ic, span);
    sig.return_ty
}

/// The reports on names and mode keywords of the argument of
/// `discriminant_of`.
pub open spec fn discriminant_reports(args: List<HirCallArg>, ic: Ic) -> Ic {
    let named = match first_named(args) {
        Some((span, _)) => ic.error(span, Message::DiscriminantNamedArgument),
        None => ic,
    };
    match first_moded(args) {
        Some(span) => named.error(span, Message::DiscriminantModeArgument),
        None => named,
    }
}

/// Whether `ty` is a sum type.
pub open spec fn is_sum(ic: Ic, ty: TyId) -> bool {
    match ic.kind(ty) {
        TyKind::Nominal(id) => ic.ty_cx.sum_variants(id) is Some,
        _ => false,
    }
}

fn is_sum_type(ty: TyId, ic: &InferCx<'_>) -> (r: bool)
    ensures
        r == is_sum(ic@, ty),
{
    match ic.kind(ty) {
        TyKind::Nominal(id) => ic.ty_cx.sum(id).is_some(),
        _ => false,
    }
}

/// A call of `discriminant_of`: the position of the variant of a value of a
/// sum type.
#[verifier::opaque]
pub open spec fn discriminant_call_rule(env: TyEnv, args: List<HirCallArg>, ic: Ic, span: Span) -> Judged<
    List<HirCallArg>,
>
    decreases args, 1nat,
{
    let start = discriminant_reports(args, ic);
    match args {
        List::Cons(arg, rest) if *rest == List::<HirCallArg>::Nil => {
            let w = arg_rule(env, *arg, None, start);
            let node = List::Cons(Box::new(w.node), rest);
            let ty = w.node.expr.ty;
            if ty == TyId::Error {
                judged(w.env, w.ic, node, TyId::Error)
            } else if is_sum(w.ic, ty) {
                judged(
                    w.env,
                    Ic {
                        intrinsics: w.ic.intrinsics.insert(span, IntrinsicKind::DiscriminantOf),
                        ..w.ic
                    },
                    node,
                    TyId::Prim(Primitive::Usize),
                )
            } else {
                judged(
                    w.env,
                    w.ic.error(span, Message::DiscriminantNotSum { ty }),
                    node,
                    TyId::Error,
                )
            }
        },
        _ => {
            let w = synth_args_rule(env, args, start);
            judged(
                w.env,
                w.ic.error(span, Message::DiscriminantArity { supplied: args.length() }),
                w.node,
                TyId::Error,
            )
        },
    }
}

fn synth_discriminant_of_call(
    env: &mut TyEnv,
    args: &mut List<HirCallArg>,
    ic: &mut InferCx<'_>,
    span: Span,
) -> (r: TyId)
    ensures
        judged(*final(env), final(ic)@, *final(args), r) == discriminant_call_rule(
            *old(env),
            *old(args),
            old(ic)@,
            span,
        ),
        sound(*old(env), old(ic)@, *final(env), final(ic)@),
    decreases *old(args), 1nat,
{
    proof {
        reveal(discriminant_call_rule);
        reveal(synth_args_rule);
        reveal(arg_rule);
    }
    match find_named(args) {
        Some((at, _)) => {
            ic.emit_typecheck_error(at, Message::DiscriminantNamedArgument);
        },
        None => {},
    }
    match find_moded(args) {
        Some(at) => {
            ic.emit_typecheck_error(at, Message::DiscriminantModeArgument);
        },
        None => {},
    }
    let supplied: usize = args.len();
    let alone = match args {
        List::Cons(_, rest) => rest.is_empty(),
        List::Nil => false,
    };
    if !alone {
        synth_args_for_diagnostics(env, args, ic);
        ic.emit_typecheck_error(span, Message::DiscriminantArity { supplied });
        return ic.ty_error();
    }
    match args {
        List::Cons(arg, _) => {
            synth_arg_expr(env, arg, ic);
            let ty = arg.expr.ty;
            if ty == ic.ty_error() {
                return ic.ty_error();
            }
            if !is_sum_type(ty, ic) {
                ic.emit_typecheck_error(span, Message::DiscriminantNotSum { ty });
                return ic.ty_error();
            }
            ic.intrinsic_calls.insert(span, IntrinsicKind::DiscriminantOf);
            TyId::Prim(Primitive::Usize)
        },
        List::Nil => ic.ty_error(),
    }
}

/// What a call of a path calls.
pub enum CallTarget {
    /// A compile-time built-in.
    Builtin(ComptimeBuiltin),
    /// `target.supports`.
    Supports,
    /// `discriminant_of`.
    Discriminant,
    /// A named function.
    Function(BindingId, Symbol),
    /// A constructor of a variant.
    Variant(VariantSite, Option<VariantPayloadInfo>),
    /// A value.
    Value,
    /// Nothing, without a report.
    Unknown,
    /// Nothing, with a report.
    Wrong(Message),
}

/// What a call of a path that names no built-in calls.
pub open spec fn package_target(path: HirPath, ic: Ic) -> CallTarget {
    match ic.package {
        None => CallTarget::Wrong(Message::CallsNeedPackage),
        Some(package) => match package.target(path.span) {
            Some((Resolved::Binding(id), Some(entry))) => binding_target(
                path,
                id,
                entry.name,
                entry.kind,
                ic,
            ),
            Some((Resolved::Module(_), _)) => CallTarget::Wrong(Message::CannotCallModule),
            Some(_) => CallTarget::Unknown,
            None => match specialised(path, ic) {
                Some((id, name)) => CallTarget::Function(id, name),
                None => CallTarget::Wrong(Message::NoResolution { path: path.segments }),
            },
        },
    }
}

/// The specialised function that a path of one segment names.
pub open spec fn specialised(path: HirPath, ic: Ic) -> Option<(BindingId, Symbol)> {
    match (path.single(), ic.mono) {
        (Some(name), Some(mono)) => match mono_named(mono.by_name, name) {
            Some(id) => Some((id, name)),
            None => None,
        },
        _ => None,
    }
}

/// What a call of a path that resolves to a binding calls.
pub open spec fn binding_target(
    path: HirPath,
    id: BindingId,
    name: Symbol,
    kind: BindingKind,
    ic: Ic,
) -> CallTarget {
    match constructed(path, id, kind, ic) {
        Some((variant, payload)) => CallTarget::Variant(
            VariantSite { id, ty_name: name, variant },
            payload,
        ),
        None => match kind {
            BindingKind::Param | BindingKind::Local => CallTarget::Value,
            BindingKind::Function => CallTarget::Function(id, name),
            _ => CallTarget::Wrong(Message::CannotCall { kind, name }),
        },
    }
}

/// The variant that a qualified path into a sum type names, and its payload
/// where the type has such a variant.
pub open spec fn constructed(path: HirPath, id: BindingId, kind: BindingKind, ic: Ic) -> Option<
    (Symbol, Option<VariantPayloadInfo>),
> {
    if kind == BindingKind::TypeDecl || kind == BindingKind::SpecInvocation {
        match (path.qualified_leaf(), ic.ty_cx.layout(id)) {
            (Some(variant), Some(info)) if info.kind is Sum => Some(
                (variant, info.variant_payload(variant)),
            ),
            _ => None,
        }
    } else {
        None
    }
}

/// What a call of a path calls: a built-in by its name, else what the package
/// resolves the path to.
#[verifier::opaque]
pub open spec fn call_target(path: HirPath, ic: Ic) -> CallTarget {
    let builtin = match path.single() {
        Some(name) if ic.comptime => ComptimeBuiltin::named(ic.text(name)),
        _ => None,
    };
    match builtin {
        Some(b) => CallTarget::Builtin(b),
        None => if names_supports(path, ic) {
            CallTarget::Supports
        } else if names_discriminant(path, ic) {
            CallTarget::Discriminant
        } else {
            package_target(path, ic)
        },
    }
}

/// Whether a path in a compile-time body is `target.supports`.
pub open spec fn names_supports(path: HirPath, ic: Ic) -> bool {
    match path.pair() {
        Some((head, leaf)) => ic.comptime && ic.text(head) == "target"@ && ic.text(leaf)
            == "supports"@,
        None => false,
    }
}

/// Whether a path is `discriminant_of`.
pub open spec fn names_discriminant(path: HirPath, ic: Ic) -> bool {
    match path.single() {
        Some(name) => ic.text(name) == "discriminant_of"@,
        None => false,
    }
}

fn resolve_constructed(path: &HirPath, id: BindingId, kind: BindingKind, ic: &InferCx<'_>) -> (r:
    Option<(Symbol, Option<VariantPayloadInfo>)>)
    ensures
        r == constructed(*path, id, kind, ic@),
{
    match kind {
        BindingKind::TypeDecl | BindingKind::SpecInvocation => {},
        _ => {
            return None;
        },
    }
    match (path.as_qualified_leaf(), ic.ty_cx.type_decl(id)) {
        (Some(variant), Some(info)) => match info.kind {
            TypeDeclShape::Sum(_) => Some((variant, info.variant(variant))),
            TypeDeclShape::Product(_) => None,
        },
        _ => None,
    }
}

fn resolve_binding(
    path: &HirPath,
    id: BindingId,
    name: Symbol,
    kind: BindingKind,
    ic: &InferCx<'_>,
) -> (r: CallTarget)
    ensures
        r == binding_target(*path, id, name, kind, ic@),
{
    match resolve_constructed(path, id, kind, ic) {
        Some((variant, payload)) => CallTarget::Variant(
            VariantSite { id, ty_name: name, variant },
            payload,
        ),
        None => match kind {
            BindingKind::Param | BindingKind::Local => CallTarget::Value,
            BindingKind::Function => CallTarget::Function(id, name),
            _ => CallTarget::Wrong(Message::CannotCall { kind, name }),
        },
    }
}

fn resolve_specialised(path: &HirPath, ic: &InferCx<'_>) -> (r: Option<(BindingId, Symbol)>)
    ensures
        r == specialised(*path, ic@),
{
    match (path.as_single(), ic.mono_fns) {
        (Some(name), Some(mono)) => match mono.lookup(name) {
            Some(id) => Some((id, name)),
            None => None,
        },
        _ => None,
    }
}

fn resolve_in_package(path: &HirPath, ic: &InferCx<'_>) -> (r: CallTarget)
    ensures
        r == package_target(*path, ic@),
{
    let package = match ic.lower.package {
        Some(package) => package,
        None => {
            return CallTarget::Wrong(Message::CallsNeedPackage);
        },
    };
    match package.lookup_path(path.span) {
        Some((Resolved::Binding(id), Some(entry))) => resolve_binding(
            path,
            id,
            entry.name,
            entry.kind,
            ic,
        ),
        Some((Resolved::Module(_), _)) => CallTarget::Wrong(Message::CannotCallModule),
        Some(_) => CallTarget::Unknown,
        None => match resolve_specialised(path, ic) {
            Some((id, name)) => CallTarget::Function(id, name),
            None => CallTarget::Wrong(Message::NoResolution { path: path.segments.dup() }),
        },
    }
}

/// What a call of a path calls.
pub fn resolve_callee(path: &HirPath, ic: &InferCx<'_>) -> (r: CallTarget)
    ensures
        r == call_target(*path, ic@),
{
    proof {
        reveal(call_target);
    }
    match path.as_single() {
        Some(name) => {
            if ic.in_comptime_context {
                match ComptimeBuiltin::from_name(ic.lower.interner.resolve(name)) {
                    Some(b) => {
                        return CallTarget::Builtin(b);
                    },
                    None => {},
                }
            }
            if ic.lower.interner.reads(name, "discriminant_of") {
                return CallTarget::Discriminant;
            }
        },
        None => match path.as_pair() {
            Some((head, leaf)) => {
                if ic.in_comptime_context && ic.lower.interner.reads(head, "target")
                    && ic.lower.interner.reads(leaf, "supports") {
                    return CallTarget::Supports;
                }
            },
            None => {},
        },
    }
    resolve_in_package(path, ic)
}

/// The arguments of a call of a path.
#[verifier::opaque]
pub open spec fn target_call_rule(
    env: TyEnv,
    args: List<HirCallArg>,
    target: CallTarget,
    ic: Ic,
    span: Span,
) -> Judged<List<HirCallArg>>
    decreases args, 3nat,
{
    match target {
        CallTarget::Builtin(builtin) => builtin_call_rule(env, args, builtin, ic, span),
        CallTarget::Supports => supports_call_rule(env, args, ic, span),
        CallTarget::Discriminant => discriminant_call_rule(env, args, ic, span),
        CallTarget::Function(id, name) => function_call_rule(env, args, id, name, ic, span),
        CallTarget::Variant(site, payload) => variant_call_rule(env, args, site, payload, ic, span),
        CallTarget::Value | CallTarget::Unknown => {
            let w = synth_args_rule(env, args, ic);
            judged(w.env, w.ic, w.node, TyId::Error)
        },
        CallTarget::Wrong(message) => {
            let w = synth_args_rule(env, args, ic);
            judged(w.env, w.ic.error(span, message), w.node, TyId::Error)
        },
    }
}

/// A call.
#[verifier::opaque]
pub open spec fn synth_call_rule(env: TyEnv, call: HirCall, ic: Ic, span: Span) -> Judged<HirCall>
    decreases call, 1nat,
{
    match call.callee.kind {
        HirExprKind::Path(path) => {
            let target = call_target(path, ic);
            if target is Value {
                indirect_call_rule(env, call, ic, span)
            } else {
                let j = target_call_rule(env, call.args, target, ic, span);
                judged(
                    j.env,
                    j.ic,
                    HirCall {
                        callee: HirExpr { ty: TyId::Error, ..call.callee },
                        args: j.node,
                    },
                    j.ty,
                )
            }
        },
        _ => indirect_call_rule(env, call, ic, span),
    }
}

fn synth_target_call(
    env: &mut TyEnv,
    args: &mut List<HirCallArg>,
    target: CallTarget,
    ic: &mut InferCx<'_>,
    span: Span,
) -> (r: TyId)
    ensures
        judged(*final(env), final(ic)@, *final(args), r) == target_call_rule(
            *old(env),
            *old(args),
            target,
            old(ic)@,
            span,
        ),
        sound(*old(env), old(ic)@, *final(env), final(ic)@),
    decreases *old(args), 3nat,
{
    proof {
        reveal(target_call_rule);
        reveal(builtin_call_rule);
        reveal(supports_call_rule);
        reveal(discriminant_call_rule);
        reveal(function_call_rule);
        reveal(variant_call_rule);
        reveal(synth_args_rule);
    }
    match target {
        CallTarget::Builtin(builtin) => synth_comptime_builtin_call(env, args, builtin, ic, span),
        CallTarget::Supports => synth_target_supports_call(env, args, ic, span),
        CallTarget::Discriminant => synth_discriminant_of_call(env, args, ic, span),
        CallTarget::Function(id, name) => synth_resolved_function_call(
            env,
            args,
            id,
            name,
            ic,
            span,
        ),
        CallTarget::Variant(site, payload) => synth_variant_constructor(
            env,
            args,
            &site,
            &payload,
            ic,
            span,
        ),
        CallTarget::Value | CallTarget::Unknown => {
            synth_args_for_diagnostics(env, args, ic);
            ic.ty_error()
        },
        CallTarget::Wrong(message) => {
            synth_args_for_diagnostics(env, args, ic);
            ic.emit_typecheck_error(span, message);
            ic.ty_error()
        },
    }
}

/// Synthesise a call.
pub fn synth_call(env: &mut TyEnv, call: &mut HirCall, ic: &mut InferCx<'_>, span: Span) -> (r: TyId)
    ensures
        judged(*final(env), final(ic)@, *final(call), r) == synth_call_rule(
            *old(env),
            *old(call),
            old(ic)@,
            span,
        ),
        sound(*old(env), old(ic)@, *final(env), final(ic)@),
    decreases *old(call), 1nat,
{
    proof {
        reveal(synth_call_rule);
        reveal(indirect_call_rule);
        reveal(target_call_rule);
    }
    let target = match &call.callee.kind {
        HirExprKind::Path(path) => resolve_callee(path, ic),
        _ => CallTarget::Value,
    };
    match target {
        CallTarget::Value => synth_indirect_call(env, call, ic, span),
        _ => {
            call.callee.ty = ic.ty_error();
            synth_target_call(env, &mut call.args, target, ic, span)
        },
    }
}

} // verus!
