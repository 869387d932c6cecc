//! Laws of calls that construct a variant.

use vstd::prelude::*;

use super::call::args::{check_args_rule, named_reports, synth_args_rule, ArgSite};
use super::call::direct::{call_target, synth_call_rule, target_call_rule, CallTarget};
use super::call::variant::{lone, tuple_payload_rule, variant_call_rule, VariantSite};
use super::callee_laws::call_of;
use super::cx::Ic;
use super::env::TyEnv;
use super::expr::{synth_access_rule, synth_expr_rule};
use crate::cx::VariantPayloadInfo;
use crate::diag::Message;
use crate::hir::{HirCall, HirCallArg, HirExpr, HirExprKind, HirPath};
use crate::intern::Symbol;
use crate::list::List;
use crate::package::{BindingEntry, BindingKind, Resolved};
use crate::span::Span;
use crate::ty::{BindingId, TyId, TyKind};

verus! {

/// Whether `callee` is a path to the variant `variant` of the sum type `id`,
/// with that payload, outside of compile-time code.
pub open spec fn is_constructor(
    callee: HirExpr,
    path: HirPath,
    id: BindingId,
    entry: BindingEntry,
    variant: Symbol,
    payload: Option<VariantPayloadInfo>,
    ic: Ic,
) -> bool {
    &&& callee.kind == HirExprKind::Path(path)
    &&& !ic.comptime
    &&& path.qualified_leaf() == Some(variant)
    &&& entry.kind == BindingKind::TypeDecl
    &&& ic.package matches Some(package) && package.target(path.span) == Some(
        (Resolved::Binding(id), Some(entry)),
    )
    &&& ic.ty_cx.layout(id) matches Some(info) && info.kind is Sum && info.variant_payload(variant)
        == payload
}

proof fn lemma_construct(
    env: TyEnv,
    callee: HirExpr,
    path: HirPath,
    args: List<HirCallArg>,
    id: BindingId,
    entry: BindingEntry,
    variant: Symbol,
    payload: Option<VariantPayloadInfo>,
    span: Span,
    ic: Ic,
)
    requires
        is_constructor(callee, path, id, entry, variant, payload, ic),
    ensures
        ({
            let j = synth_expr_rule(env, call_of(callee, args, span), ic);
            let site = VariantSite { id, ty_name: entry.name, variant };
            let v = variant_call_rule(env, args, site, payload, ic, span);
            j.env == v.env && j.ic == v.ic && j.ty == v.ty
        }),
{
    reveal(synth_expr_rule);
    reveal(synth_access_rule);
    reveal(synth_call_rule);
    reveal(target_call_rule);
    reveal(variant_call_rule);
    reveal(call_target);
    let expr = call_of(callee, args, span);
    let call = HirCall { callee, args };
    let site = VariantSite { id, ty_name: entry.name, variant };
    assert(path.single() is None) by {
        match path.segments {
            List::Cons(_, tail) => {
                match *tail {
                    List::Nil => {
                        assert(tail.last_of() is None);
                    },
                    _ => {},
                }
            },
            List::Nil => {},
        }
    }
    let target = call_target(path, ic);
    assert(target == CallTarget::Variant(site, payload));
    let t = target_call_rule(env, args, target, ic, span);
    assert(t == variant_call_rule(env, args, site, payload, ic, span));
    let c = synth_call_rule(env, call, ic, span);
    assert(synth_expr_rule(env, expr, ic) == synth_access_rule(env, expr, ic));
}

/// A constructor without a payload, called with nothing, gives the sum type;
/// arguments for it are reported, and so is a variant that the type lacks.
pub proof fn law_construct_unit(
    env: TyEnv,
    callee: HirExpr,
    path: HirPath,
    args: List<HirCallArg>,
    id: BindingId,
    entry: BindingEntry,
    variant: Symbol,
    payload: Option<VariantPayloadInfo>,
    span: Span,
    ic: Ic,
)
    requires
        is_constructor(callee, path, id, entry, variant, payload, ic),
        payload is None || payload == Some(VariantPayloadInfo::Unit),
    ensures
        ({
            let j = synth_expr_rule(env, call_of(callee, args, span), ic);
            let kind = TyKind::Nominal(id);
            let w = synth_args_rule(env, args, ic.stored(kind));
            &&& payload is Some && args == List::<HirCallArg>::Nil ==> j.env == env && j.ty
                == ic.handle(kind) && j.ic == ic.stored(kind)
            &&& payload is Some && args != List::<HirCallArg>::Nil ==> j.ty == TyId::Error && j.ic
                == w.ic.error(
                span,
                Message::VariantNoPayload {
                    ty_name: entry.name,
                    variant,
                    supplied: args.length(),
                },
            )
            &&& payload is None ==> j.ty == TyId::Error && j.ic == w.ic.error(
                span,
                (Message::NoSuchVariant { variant, ty_name: entry.name }),
            )
        }),
{
    lemma_construct(env, callee, path, args, id, entry, variant, payload, span, ic);
    reveal(variant_call_rule);
    reveal(synth_args_rule);
}

/// A constructor over a tuple, called with two or more arguments, gives the
/// sum type where there is one argument for each element, and holds each
/// against its element; another number is reported.
pub proof fn law_construct_tuple(
    env: TyEnv,
    callee: HirExpr,
    path: HirPath,
    args: List<HirCallArg>,
    id: BindingId,
    entry: BindingEntry,
    variant: Symbol,
    elems: List<TyId>,
    span: Span,
    ic: Ic,
)
    requires
        is_constructor(
            callee,
            path,
            id,
            entry,
            variant,
            Some(VariantPayloadInfo::Tuple(elems)),
            ic,
        ),
        args.length() >= 2,
    ensures
        ({
            let j = synth_expr_rule(env, call_of(callee, args, span), ic);
            let kind = TyKind::Nominal(id);
            let start = ic.stored(kind);
            let w = synth_args_rule(env, args, start);
            let site = ArgSite::Variant(entry.name, variant);
            let c = check_args_rule(env, args, elems, false, named_reports(args, site, start));
            &&& args.length() == elems.length() ==> j.ty == ic.handle(kind) && j.env == c.env && j.ic
                == c.ic
            &&& args.length() != elems.length() ==> j.ty == TyId::Error && j.env == w.env && j.ic
                == w.ic.error(
                span,
                Message::VariantArity {
                    ty_name: entry.name,
                    variant,
                    arity: elems.length(),
                    supplied: args.length(),
                },
            )
        }),
{
    let payload = Some(VariantPayloadInfo::Tuple(elems));
    lemma_construct(env, callee, path, args, id, entry, variant, payload, span, ic);
    lemma_not_lone(args);
    let site = VariantSite { id, ty_name: entry.name, variant };
    lemma_tuple_payload(env, args, site, elems, span, ic);
}

proof fn lemma_not_lone(args: List<HirCallArg>)
    requires
        args.length() >= 2,
    ensures
        !lone(args),
{
    match args {
        List::Cons(_, rest) => {
            match *rest {
                List::Nil => {
                    assert(rest.length() == 0);
                },
                _ => {},
            }
        },
        List::Nil => {},
    }
}

proof fn lemma_tuple_payload(
    env: TyEnv,
    args: List<HirCallArg>,
    site: VariantSite,
    elems: List<TyId>,
    span: Span,
    ic: Ic,
)
    requires
        !lone(args),
    ensures
        ({
            let payload = Some(VariantPayloadInfo::Tuple(elems));
            let j = variant_call_rule(env, args, site, payload, ic, span);
            let kind = TyKind::Nominal(site.id);
            let start = ic.stored(kind);
            let w = synth_args_rule(env, args, start);
            let at = ArgSite::Variant(site.ty_name, site.variant);
            let c = check_args_rule(env, args, elems, false, named_reports(args, at, start));
            &&& args.length() == elems.length() ==> j.ty == ic.handle(kind) && j.env == c.env && j.ic
                == c.ic
            &&& args.length() != elems.length() ==> j.ty == TyId::Error && j.env == w.env && j.ic
                == w.ic.error(
                span,
                Message::VariantArity {
                    ty_name: site.ty_name,
                    variant: site.variant,
                    arity: elems.length(),
                    supplied: args.length(),
                },
            )
        }),
{
    reveal(variant_call_rule);
    reveal(tuple_payload_rule);
    reveal(synth_args_rule);
    reveal(check_args_rule);
    let kind = TyKind::Nominal(site.id);
    let start = ic.stored(kind);
    let t = tuple_payload_rule(env, args, site, elems, ic.handle(kind), start, span);
}

} // verus!
