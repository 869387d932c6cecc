//! Constructors of sum types.

use vstd::prelude::*;

use super::super::comp::tuple::{composite_kind, payload_composite};
use super::super::cx::{group_grown, Ic, InferCx};
use super::super::env::TyEnv;
use super::super::judge::{judged, sound, walked, Judged, Walked};
use super::super::path::{bridge, check_synth_against_expected};
use super::args::{
    arg_rule, check_arg_expr, check_args, check_args_rule, named_reports, report_named,
    synth_arg_expr, synth_args_for_diagnostics, synth_args_rule, ArgSite,
};
use crate::cx::{
    field_named, field_types, field_tys, fields_missing, find_field, has_name, missing_fields,
    names_has, FieldInfo, VariantPayloadInfo,
};
use crate::diag::Message;
use crate::hir::{HirCallArg, HirExpr};
use crate::intern::Symbol;
use crate::list::List;
use crate::span::Span;
use crate::ty::{BindingId, TyId, TyKind};

verus! {

broadcast use group_grown;

/// The variant that a call constructs.
pub struct VariantSite {
    /// The sum type.
    pub id: BindingId,
    /// Its name.
    pub ty_name: Symbol,
    /// The variant.
    pub variant: Symbol,
}

/// Whether `args` is a single positional argument.
pub open spec fn lone(args: List<HirCallArg>) -> bool {
    match args {
        List::Cons(arg, rest) => *rest == List::<HirCallArg>::Nil && arg.name is None,
        List::Nil => false,
    }
}

/// A single positional argument on its own.
#[verifier::opaque]
pub open spec fn lone_rule(env: TyEnv, args: List<HirCallArg>, ic: Ic) -> Judged<List<HirCallArg>>
    decreases args, 0nat,
{
    match args {
        List::Nil => judged(env, ic, args, TyId::Error),
        List::Cons(arg, rest) => {
            let w = arg_rule(env, *arg, None, ic);
            judged(w.env, w.ic, List::Cons(Box::new(w.node), rest), w.node.expr.ty)
        },
    }
}

/// A single argument with its type replaced.
pub open spec fn lone_stamped(args: List<HirCallArg>, ty: TyId) -> List<HirCallArg> {
    match args {
        List::Nil => args,
        List::Cons(arg, rest) => List::Cons(
            Box::new(HirCallArg { expr: HirExpr { ty, ..arg.expr }, ..*arg }),
            rest,
        ),
    }
}

/// Where the value of the first argument stands.
pub open spec fn lone_span(args: List<HirCallArg>) -> Span {
    match args {
        List::Nil => Span::dummy_span(),
        List::Cons(arg, _) => arg.expr.span,
    }
}

/// Where the first argument stands.
pub open spec fn lone_arg_span(args: List<HirCallArg>) -> Span {
    match args {
        List::Nil => Span::dummy_span(),
        List::Cons(arg, _) => arg.span,
    }
}

/// A tuple payload: one value of the composite type of the elements, or one
/// argument for each element.
#[verifier::opaque]
pub open spec fn tuple_payload_rule(
    env: TyEnv,
    args: List<HirCallArg>,
    site: VariantSite,
    elems: List<TyId>,
    nominal: TyId,
    ic: Ic,
    span: Span,
) -> Judged<List<HirCallArg>>
    decreases args, 1nat,
{
    if lone(args) {
        let kind = composite_kind(elems);
        let j = lone_rule(env, args, ic.stored(kind));
        if j.ty == ic.handle(kind) {
            judged(j.env, j.ic, j.node, nominal)
        } else {
            match elems {
                List::Cons(elem, more) if *more == List::<TyId>::Nil => {
                    let t = bridge(j.ty, *elem, j.ic, lone_span(j.node));
                    judged(j.env, t.ic, lone_stamped(j.node, t.ty), nominal)
                },
                _ => judged(
                    j.env,
                    j.ic.error(
                        span,
                        Message::VariantArityOne {
                            ty_name: site.ty_name,
                            variant: site.variant,
                            arity: elems.length(),
                        },
                    ),
                    j.node,
                    TyId::Error,
                ),
            }
        }
    } else if args.length() != elems.length() {
        let w = synth_args_rule(env, args, ic);
        judged(
            w.env,
            w.ic.error(
                span,
                Message::VariantArity {
                    ty_name: site.ty_name,
                    variant: site.variant,
                    arity: elems.length(),
                    supplied: args.length(),
                },
            ),
            w.node,
            TyId::Error,
        )
    } else {
        let named = named_reports(args, ArgSite::Variant(site.ty_name, site.variant), ic);
        let w = check_args_rule(env, args, elems, false, named);
        judged(w.env, w.ic, w.node, nominal)
    }
}

/// Named arguments against the fields of a struct payload, and the names seen
/// so far after them.
#[verifier::opaque]
pub open spec fn named_args_rule(
    env: TyEnv,
    args: List<HirCallArg>,
    site: VariantSite,
    fields: List<FieldInfo>,
    seen: List<Symbol>,
    ic: Ic,
) -> (Walked<List<HirCallArg>>, List<Symbol>)
    decreases args, 0nat,
{
    match args {
        List::Nil => (walked(env, ic, args), seen),
        List::Cons(arg, rest) => {
            let (first, now) = match arg.name {
                None => (
                    arg_rule(
                        env,
                        *arg,
                        None,
                        ic.error(
                            arg.span,
                            Message::VariantNeedsNames {
                                ty_name: site.ty_name,
                                variant: site.variant,
                            },
                        ),
                    ),
                    seen,
                ),
                Some(name) => match field_named(fields, name.name) {
                    Some(f) => (
                        arg_rule(
                            env,
                            *arg,
                            Some(f.ty),
                            if names_has(seen, name.name) {
                                ic.error(
                                    arg.span,
                                    Message::VariantDuplicateField { field: name.name },
                                )
                            } else {
                                ic
                            },
                        ),
                        List::Cons(Box::new(name.name), Box::new(seen)),
                    ),
                    None => (
                        arg_rule(
                            env,
                            *arg,
                            None,
                            ic.error(
                                arg.span,
                                Message::VariantNoField {
                                    ty_name: site.ty_name,
                                    variant: site.variant,
                                    field: name.name,
                                },
                            ),
                        ),
                        seen,
                    ),
                },
            };
            let (others, all) = named_args_rule(first.env, *rest, site, fields, now, first.ic);
            (
                walked(
                    others.env,
                    others.ic,
                    List::Cons(Box::new(first.node), Box::new(others.node)),
                ),
                all,
            )
        },
    }
}

/// A struct payload: one value of the composite type of the fields, or named
/// arguments in any order.
#[verifier::opaque]
pub open spec fn struct_payload_rule(
    env: TyEnv,
    args: List<HirCallArg>,
    site: VariantSite,
    fields: List<FieldInfo>,
    nominal: TyId,
    ic: Ic,
    span: Span,
) -> Judged<List<HirCallArg>>
    decreases args, 1nat,
{
    if lone(args) {
        let kind = composite_kind(field_types(fields));
        let j = lone_rule(env, args, ic.stored(kind));
        let reported = if j.ty == ic.handle(kind) {
            j.ic
        } else {
            j.ic.error(
                lone_arg_span(args),
                Message::VariantNeedsNames { ty_name: site.ty_name, variant: site.variant },
            )
        };
        judged(j.env, reported, j.node, nominal)
    } else {
        let (w, seen) = named_args_rule(env, args, site, fields, List::Nil, ic);
        let missing = fields_missing(fields, seen, List::Nil);
        let reported = if missing == List::<Symbol>::Nil {
            w.ic
        } else {
            w.ic.error(
                span,
                Message::VariantMissing {
                    ty_name: site.ty_name,
                    variant: site.variant,
                    missing,
                },
            )
        };
        judged(w.env, reported, w.node, nominal)
    }
}

/// A call that constructs a variant; its type is the sum type.
#[verifier::opaque]
pub open spec fn variant_call_rule(
    env: TyEnv,
    args: List<HirCallArg>,
    site: VariantSite,
    payload: Option<VariantPayloadInfo>,
    ic: Ic,
    span: Span,
) -> Judged<List<HirCallArg>>
    decreases args, 2nat,
{
    let kind = TyKind::Nominal(site.id);
    let start = ic.stored(kind);
    let nominal = ic.handle(kind);
    match payload {
        None => {
            let w = synth_args_rule(env, args, start);
            judged(
                w.env,
                w.ic.error(
                    span,
                    Message::NoSuchVariant { variant: site.variant, ty_name: site.ty_name },
                ),
                w.node,
                TyId::Error,
            )
        },
        Some(VariantPayloadInfo::Unit) => if args == List::<HirCallArg>::Nil {
            judged(env, start, args, nominal)
        } else {
            let w = synth_args_rule(env, args, start);
            judged(
                w.env,
                w.ic.error(
                    span,
                    Message::VariantNoPayload {
                        ty_name: site.ty_name,
                        variant: site.variant,
                        supplied: args.length(),
                    },
                ),
                w.node,
                TyId::Error,
            )
        },
        Some(VariantPayloadInfo::Tuple(elems)) => tuple_payload_rule(
            env,
            args,
            site,
            elems,
            nominal,
            start,
            span,
        ),
        Some(VariantPayloadInfo::Struct(fields)) => struct_payload_rule(
            env,
            args,
            site,
            fields,
            nominal,
            start,
            span,
        ),
    }
}

fn is_lone(args: &List<HirCallArg>) -> (r: bool)
    ensures
        r == lone(*args),
{
    match args {
        List::Cons(arg, rest) => rest.is_empty() && arg.name.is_none(),
        List::Nil => false,
    }
}

fn synth_lone(env: &mut TyEnv, args: &mut List<HirCallArg>, ic: &mut InferCx<'_>) -> (r: TyId)
    ensures
        judged(*final(env), final(ic)@, *final(args), r) == lone_rule(
            *old(env),
            *old(args),
            old(ic)@,
        ),
        sound(*old(env), old(ic)@, *final(env), final(ic)@),
    decreases *old(args), 0nat,
{
    proof {
        reveal(lone_rule);
        reveal(arg_rule);
    }
    match args {
        List::Nil => TyId::Error,
        List::Cons(arg, _) => {
            synth_arg_expr(env, arg, ic);
            arg.expr.ty
        },
    }
}

fn stamp_lone(args: &mut List<HirCallArg>, ty: TyId)
    ensures
        *final(args) == lone_stamped(*old(args), ty),
{
    match args {
        List::Nil => {},
        List::Cons(arg, _) => {
            arg.expr.ty = ty;
        },
    }
}

fn span_of_lone(args: &List<HirCallArg>) -> (r: (Span, Span))
    ensures
        r == (lone_arg_span(*args), lone_span(*args)),
{
    match args {
        List::Nil => (Span::dummy(), Span::dummy()),
        List::Cons(arg, _) => (arg.span, arg.expr.span),
    }
}

fn check_tuple_payload(
    env: &mut TyEnv,
    args: &mut List<HirCallArg>,
    site: &VariantSite,
    elems: &List<TyId>,
    nominal: TyId,
    ic: &mut InferCx<'_>,
    span: Span,
) -> (r: TyId)
    ensures
        judged(*final(env), final(ic)@, *final(args), r) == tuple_payload_rule(
            *old(env),
            *old(args),
            *site,
            *elems,
            nominal,
            old(ic)@,
            span,
        ),
        sound(*old(env), old(ic)@, *final(env), final(ic)@),
    decreases *old(args), 1nat,
{
    proof {
        reveal(tuple_payload_rule);
        reveal(lone_rule);
        reveal(synth_args_rule);
        reveal(check_args_rule);
    }
    let (ty_name, variant) = (site.ty_name, site.variant);
    if is_lone(args) {
        let composite = payload_composite(ic, elems.dup());
        let arg_ty = synth_lone(env, args, ic);
        if arg_ty == composite {
            return nominal;
        }
        match elems {
            List::Cons(elem, more) => if more.is_empty() {
                let (_, at) = span_of_lone(args);
                let bridged = check_synth_against_expected(arg_ty, **elem, ic, at);
                stamp_lone(args, bridged);
                return nominal;
            },
            List::Nil => {},
        }
        ic.emit_typecheck_error(
            span,
            Message::VariantArityOne { ty_name, variant, arity: elems.len() },
        );
        return ic.ty_error();
    }
    let supplied: usize = args.len();
    let arity: usize = elems.len();
    if supplied != arity {
        synth_args_for_diagnostics(env, args, ic);
        ic.emit_typecheck_error(
            span,
            Message::VariantArity { ty_name, variant, arity, supplied },
        );
        return ic.ty_error();
    }
    report_named(args, &ArgSite::Variant(ty_name, variant), ic);
    check_args(env, args, elems, false, ic);
    nominal
}

fn check_named_args(
    env: &mut TyEnv,
    args: &mut List<HirCallArg>,
    site: &VariantSite,
    fields: &List<FieldInfo>,
    seen: List<Symbol>,
    ic: &mut InferCx<'_>,
) -> (r: List<Symbol>)
    ensures
        (walked(*final(env), final(ic)@, *final(args)), r) == named_args_rule(
            *old(env),
            *old(args),
            *site,
            *fields,
            seen,
            old(ic)@,
        ),
        sound(*old(env), old(ic)@, *final(env), final(ic)@),
    decreases *old(args), 0nat,
{
    proof {
        reveal(named_args_rule);
        reveal(arg_rule);
    }
    match args {
        List::Nil => seen,
        List::Cons(arg, rest) => match arg.name {
            None => {
                ic.emit_typecheck_error(
                    arg.span,
                    Message::VariantNeedsNames { ty_name: site.ty_name, variant: site.variant },
                );
                synth_arg_expr(env, arg, ic);
                check_named_args(env, rest, site, fields, seen, ic)
            },
            Some(name) => match find_field(fields, name.name) {
                Some(f) => {
                    if has_name(&seen, name.name) {
                        ic.emit_typecheck_error(
                            arg.span,
                            Message::VariantDuplicateField { field: name.name },
                        );
                    }
                    check_arg_expr(env, arg, f.ty, ic);
                    check_named_args(env, rest, site, fields, List::cons(name.name, seen), ic)
                },
                None => {
                    ic.emit_typecheck_error(
                        arg.span,
                        Message::VariantNoField {
                            ty_name: site.ty_name,
                            variant: site.variant,
                            field: name.name,
                        },
                    );
                    synth_arg_expr(env, arg, ic);
                    check_named_args(env, rest, site, fields, seen, ic)
                },
            },
        },
    }
}

fn check_struct_payload(
    env: &mut TyEnv,
    args: &mut List<HirCallArg>,
    site: &VariantSite,
    fields: &List<FieldInfo>,
    nominal: TyId,
    ic: &mut InferCx<'_>,
    span: Span,
) -> (r: TyId)
    ensures
        judged(*final(env), final(ic)@, *final(args), r) == struct_payload_rule(
            *old(env),
            *old(args),
            *site,
            *fields,
            nominal,
            old(ic)@,
            span,
        ),
        sound(*old(env), old(ic)@, *final(env), final(ic)@),
    decreases *old(args), 1nat,
{
    proof {
        reveal(struct_payload_rule);
        reveal(lone_rule);
        reveal(named_args_rule);
    }
    let (ty_name, variant) = (site.ty_name, site.variant);
    if is_lone(args) {
        let composite = payload_composite(ic, field_tys(fields));
        let (at, _) = span_of_lone(args);
        let arg_ty = synth_lone(env, args, ic);
        if arg_ty != composite {
            ic.emit_typecheck_error(at, Message::VariantNeedsNames { ty_name, variant });
        }
        return nominal;
    }
    let seen = check_named_args(env, args, site, fields, List::Nil, ic);
    let missing = missing_fields(fields, &seen, &List::Nil);
    if !missing.is_empty() {
        ic.emit_typecheck_error(span, Message::VariantMissing { ty_name, variant, missing });
    }
    nominal
}

/// Synthesise a call that constructs a variant.
pub fn synth_variant_constructor(
    env: &mut TyEnv,
    args: &mut List<HirCallArg>,
    site: &VariantSite,
    payload: &Option<VariantPayloadInfo>,
    ic: &mut InferCx<'_>,
    span: Span,
) -> (r: TyId)
    ensures
        judged(*final(env), final(ic)@, *final(args), r) == variant_call_rule(
            *old(env),
            *old(args),
            *site,
            *payload,
            old(ic)@,
            span,
        ),
        sound(*old(env), old(ic)@, *final(env), final(ic)@),
    decreases *old(args), 2nat,
{
    proof {
        reveal(variant_call_rule);
        reveal(synth_args_rule);
        reveal(tuple_payload_rule);
        reveal(struct_payload_rule);
    }
    let (ty_name, variant) = (site.ty_name, site.variant);
    let nominal = ic.intern_kind(TyKind::Nominal(site.id));
    match payload {
        None => {
            synth_args_for_diagnostics(env, args, ic);
            ic.emit_typecheck_error(span, Message::NoSuchVariant { variant, ty_name });
            ic.ty_error()
        },
        Some(VariantPayloadInfo::Unit) => {
            if args.is_empty() {
                return nominal;
            }
            let supplied: usize = args.len();
            synth_args_for_diagnostics(env, args, ic);
            ic.emit_typecheck_error(
                span,
                Message::VariantNoPayload { ty_name, variant, supplied },
            );
            ic.ty_error()
        },
        Some(VariantPayloadInfo::Tuple(elems)) => check_tuple_payload(
            env,
            args,
            site,
            elems,
            nominal,
            ic,
            span,
        ),
        Some(VariantPayloadInfo::Struct(fields)) => check_struct_payload(
            env,
            args,
            site,
            fields,
            nominal,
            ic,
            span,
        ),
    }
}

} // verus!
