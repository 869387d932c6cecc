//! Patterns and the names that they bind.

use vstd::prelude::*;

use super::cx::{group_grown, Ic, InferCx};
use super::env::{Bound, TyEnv};
use super::expr::{check_expr, check_expr_rule};
use super::judge::{sound, walked, Walked};
use super::mode::lattice::BindingState;
use crate::cx::{
    field_named, field_tys, field_types, fields_missing, find_field, has_name, missing_fields,
    names_has, FieldInfo, TypeDeclShape, VariantPayloadInfo,
};
use crate::diag::Message;
use crate::hir::{
    HirAtPat, HirGuardPat, HirPat, HirPatKind, HirPath, HirSlicePat, HirStructPat,
    HirStructPatField, HirVariantPat, HirVariantPatPayload,
};
use crate::intern::Symbol;
use crate::list::List;
use crate::prim::Primitive;
use crate::span::Span;
use crate::ty::{TyId, TyKind};

verus! {

broadcast use group_grown;

/// The names of `pat` bound where a value of type `ty` is matched.
#[verifier::opaque]
pub open spec fn bind_pat_rule(
    env: TyEnv,
    pat: HirPat,
    ty: TyId,
    state: BindingState,
    mutable: bool,
    ic: Ic,
) -> Walked<HirPat>
    decreases pat, 1nat,
{
    match pat.kind {
        HirPatKind::Binding(ident) => walked(
            env.with(Bound { name: ident.name, ty, state, mutable }),
            ic,
            HirPat { ty, ..pat },
        ),
        HirPatKind::Tuple(elems) => {
            let w = bind_tuple_pat_rule(env, elems, ty, ic, pat.span);
            walked(w.env, w.ic, HirPat { span: pat.span, kind: HirPatKind::Tuple(w.node), ty })
        },
        HirPatKind::Variant(variant) => {
            let w = bind_variant_pat_rule(env, *variant, ty, ic, pat.span);
            walked(
                w.env,
                w.ic,
                HirPat { span: pat.span, kind: HirPatKind::Variant(Box::new(w.node)), ty },
            )
        },
        HirPatKind::Struct(product) => {
            let w = bind_struct_pat_rule(env, *product, ty, ic, pat.span);
            walked(
                w.env,
                w.ic,
                HirPat { span: pat.span, kind: HirPatKind::Struct(Box::new(w.node)), ty },
            )
        },
        HirPatKind::Guard(guard) => {
            let w = bind_pat_rule(env, guard.pat, ty, state, mutable, ic);
            let c = check_expr_rule(w.env, guard.cond, TyId::Prim(Primitive::Bool), w.ic);
            walked(
                c.env,
                c.ic,
                HirPat {
                    span: pat.span,
                    kind: HirPatKind::Guard(Box::new(HirGuardPat { pat: w.node, cond: c.node })),
                    ty,
                },
            )
        },
        HirPatKind::AtBinding(at) => {
            let w = bind_pat_rule(
                env.with(Bound { name: at.name.name, ty, state, mutable }),
                at.inner,
                ty,
                state,
                mutable,
                ic,
            );
            walked(
                w.env,
                w.ic,
                HirPat {
                    span: pat.span,
                    kind: HirPatKind::AtBinding(Box::new(HirAtPat { name: at.name, inner: w.node })),
                    ty,
                },
            )
        },
        HirPatKind::Slice(slice) => {
            let w = bind_slice_pat_rule(env, *slice, ty, ic, pat.span);
            walked(
                w.env,
                w.ic,
                HirPat { span: pat.span, kind: HirPatKind::Slice(Box::new(w.node)), ty },
            )
        },
        _ => walked(env, ic, HirPat { ty, ..pat }),
    }
}

/// Patterns that are all matched against the same type.
#[verifier::opaque]
pub open spec fn bind_pats_rule(env: TyEnv, pats: List<HirPat>, ty: TyId, ic: Ic) -> Walked<
    List<HirPat>,
>
    decreases pats, 0nat,
{
    match pats {
        List::Nil => walked(env, ic, pats),
        List::Cons(pat, rest) => {
            let first = bind_pat_rule(env, *pat, ty, BindingState::Valid, true, ic);
            let others = bind_pats_rule(first.env, *rest, ty, first.ic);
            walked(
                others.env,
                others.ic,
                List::Cons(Box::new(first.node), Box::new(others.node)),
            )
        },
    }
}

/// Patterns that are matched each against its type.
#[verifier::opaque]
pub open spec fn bind_each_rule(env: TyEnv, pats: List<HirPat>, tys: List<TyId>, ic: Ic) -> Walked<
    List<HirPat>,
>
    decreases pats, 0nat,
{
    match (pats, tys) {
        (List::Cons(pat, rest), List::Cons(ty, more)) => {
            let first = bind_pat_rule(env, *pat, *ty, BindingState::Valid, true, ic);
            let others = bind_each_rule(first.env, *rest, *more, first.ic);
            walked(
                others.env,
                others.ic,
                List::Cons(Box::new(first.node), Box::new(others.node)),
            )
        },
        _ => walked(env, ic, pats),
    }
}

/// The element type of a matched slice.
pub open spec fn slice_element(ty: TyId, ic: Ic) -> Option<TyId> {
    if ty == TyId::Error {
        Some(TyId::Error)
    } else {
        match ic.kind(ty) {
            TyKind::Slice(elem) => Some(elem),
            _ => None,
        }
    }
}

/// A slice pattern: the elements have the element type, the rest the type of
/// the whole.
#[verifier::opaque]
pub open spec fn bind_slice_pat_rule(env: TyEnv, slice: HirSlicePat, ty: TyId, ic: Ic, span: Span) -> Walked<
    HirSlicePat,
>
    decreases slice, 0nat,
{
    let (elem, entered) = match slice_element(ty, ic) {
        Some(elem) => (elem, ic),
        None => (TyId::Error, ic.error(span, Message::SlicePatNotSlice { ty })),
    };
    let p = bind_pats_rule(env, slice.prefix, elem, entered);
    let rest_env = match slice.rest {
        Some(Some(name)) => p.env.with_valid(
            name.name,
            if elem == TyId::Error {
                elem
            } else {
                ty
            },
        ),
        _ => p.env,
    };
    let s = bind_pats_rule(rest_env, slice.suffix, elem, p.ic);
    walked(s.env, s.ic, HirSlicePat { prefix: p.node, rest: slice.rest, suffix: s.node })
}

/// A tuple pattern: the scrutinee must be a tuple of as many elements.
#[verifier::opaque]
pub open spec fn bind_tuple_pat_rule(
    env: TyEnv,
    elems: List<HirPat>,
    ty: TyId,
    ic: Ic,
    span: Span,
) -> Walked<List<HirPat>>
    decreases elems, 1nat,
{
    if ty == TyId::Error {
        bind_pats_rule(env, elems, TyId::Error, ic)
    } else {
        match ic.kind(ty) {
            TyKind::Tuple(tys) if tys.length() == elems.length() => bind_each_rule(
                env,
                elems,
                tys,
                ic,
            ),
            _ => bind_pats_rule(
                env,
                elems,
                TyId::Error,
                ic.error(span, Message::TuplePatMismatch { arity: elems.length(), ty }),
            ),
        }
    }
}

/// Sub-patterns of a variant pattern that matches nothing known.
#[verifier::opaque]
pub open spec fn payload_error_rule(env: TyEnv, payload: HirVariantPatPayload, ic: Ic) -> Walked<
    HirVariantPatPayload,
>
    decreases payload, 0nat,
{
    match payload {
        HirVariantPatPayload::Unit => walked(env, ic, payload),
        HirVariantPatPayload::Tuple(pats) => {
            let w = bind_pats_rule(env, pats, TyId::Error, ic);
            walked(w.env, w.ic, HirVariantPatPayload::Tuple(w.node))
        },
        HirVariantPatPayload::Struct(fields) => {
            let w = bind_fields_error_rule(env, fields, ic);
            walked(w.env, w.ic, HirVariantPatPayload::Struct(w.node))
        },
    }
}

/// Field patterns of a type that is not known.
#[verifier::opaque]
pub open spec fn bind_fields_error_rule(env: TyEnv, fields: List<HirStructPatField>, ic: Ic) -> Walked<
    List<HirStructPatField>,
>
    decreases fields, 0nat,
{
    match fields {
        List::Nil => walked(env, ic, fields),
        List::Cons(f, rest) => {
            let first = bind_pat_rule(env, f.pat, TyId::Error, BindingState::Valid, true, ic);
            let others = bind_fields_error_rule(first.env, *rest, first.ic);
            walked(
                others.env,
                others.ic,
                List::Cons(
                    Box::new(HirStructPatField { pat: first.node, ..*f }),
                    Box::new(others.node),
                ),
            )
        },
    }
}

/// Positional sub-patterns for elements of the given types.
pub open spec fn bind_positional(
    env: TyEnv,
    pats: List<HirPat>,
    tys: List<TyId>,
    ic: Ic,
    span: Span,
    mismatch: Message,
) -> Walked<HirVariantPatPayload>
    decreases pats, 1nat,
{
    let w = if pats.length() != tys.length() {
        bind_pats_rule(env, pats, TyId::Error, ic.error(span, mismatch))
    } else {
        bind_each_rule(env, pats, tys, ic)
    };
    walked(w.env, w.ic, HirVariantPatPayload::Tuple(w.node))
}

/// The sub-patterns of a variant pattern against the declared payload.
#[verifier::opaque]
pub open spec fn bind_payload_rule(
    env: TyEnv,
    payload: HirVariantPatPayload,
    info: VariantPayloadInfo,
    variant: Symbol,
    ic: Ic,
    span: Span,
) -> Walked<HirVariantPatPayload>
    decreases payload, 1nat,
{
    match (payload, info) {
        (HirVariantPatPayload::Unit, VariantPayloadInfo::Unit) => walked(env, ic, payload),
        (HirVariantPatPayload::Tuple(pats), VariantPayloadInfo::Tuple(elems)) => bind_positional(
            env,
            pats,
            elems,
            ic,
            span,
            Message::VariantPatArity {
                variant,
                arity: elems.length(),
                supplied: pats.length(),
            },
        ),
        (HirVariantPatPayload::Tuple(pats), VariantPayloadInfo::Struct(fields)) => bind_positional(
            env,
            pats,
            field_types(fields),
            ic,
            span,
            Message::VariantPatFieldArity {
                variant,
                arity: fields.length(),
                supplied: pats.length(),
            },
        ),
        (HirVariantPatPayload::Struct(pats), VariantPayloadInfo::Struct(fields)) => {
            let w = bind_struct_fields_rule(
                env,
                pats,
                fields,
                false,
                ic,
                span,
                variant,
            );
            walked(w.env, w.ic, HirVariantPatPayload::Struct(w.node))
        },
        _ => payload_error_rule(
            env,
            payload,
            ic.error(span, Message::VariantPatShape { variant }),
        ),
    }
}

/// A variant pattern: the last segment names a variant of the scrutinee's sum
/// type.
#[verifier::opaque]
pub open spec fn bind_variant_pat_rule(
    env: TyEnv,
    pat: HirVariantPat,
    ty: TyId,
    ic: Ic,
    span: Span,
) -> Walked<HirVariantPat>
    decreases pat, 0nat,
{
    let w = if ty == TyId::Error {
        payload_error_rule(env, pat.payload, ic)
    } else {
        match (ic.kind(ty), pat.path.segments.last_of()) {
            (TyKind::Nominal(id), Some(leaf)) => {
                let payload = match ic.ty_cx.layout(id) {
                    Some(info) => info.variant_payload(leaf.name),
                    None => None,
                };
                match payload {
                    Some(info) => bind_payload_rule(env, pat.payload, info, leaf.name, ic, span),
                    None => payload_error_rule(
                        env,
                        pat.payload,
                        ic.error(span, Message::PatNoVariant { variant: leaf.name, ty }),
                    ),
                }
            },
            (TyKind::Nominal(_), None) => payload_error_rule(env, pat.payload, ic),
            _ => payload_error_rule(
                env,
                pat.payload,
                ic.error(span, Message::VariantPatNotSum { ty }),
            ),
        }
    };
    walked(w.env, w.ic, HirVariantPat { path: pat.path, payload: w.node })
}

/// What a struct pattern matches: the declared fields, or what is wrong.
pub enum StructShape {
    /// The fields.
    Fields(List<FieldInfo>),
    /// Nothing known, without a report.
    Unknown,
    /// Nothing, with a report.
    Wrong(Message),
}

/// What a struct pattern on a value of type `ty` matches: the fields of a
/// product type.
pub open spec fn struct_shape(ty: TyId, ic: Ic) -> StructShape {
    if ty == TyId::Error {
        StructShape::Unknown
    } else {
        match ic.kind(ty) {
            TyKind::Nominal(id) => match ic.ty_cx.layout(id) {
                None => StructShape::Wrong(Message::NoLayout { ty }),
                Some(info) => match info.kind {
                    TypeDeclShape::Product(fields) => StructShape::Fields(fields),
                    TypeDeclShape::Sum(_) => StructShape::Wrong(Message::StructPatOnSum { ty }),
                },
            },
            _ => StructShape::Wrong(Message::StructPatNotProduct { ty }),
        }
    }
}

/// What reports on a struct pattern call the type: the last segment of the
/// path, or the type itself where the path is empty.
pub open spec fn pattern_type_text(path: HirPath, ty: TyId, ic: Ic) -> Seq<char> {
    match path.segments.last_of() {
        Some(leaf) => ic.text(leaf.name),
        None => ic.words().ty(ty),
    }
}

/// A struct pattern: every declared field is matched once, or the rest is
/// left out with `..`.
#[verifier::opaque]
pub open spec fn bind_struct_pat_rule(env: TyEnv, pat: HirStructPat, ty: TyId, ic: Ic, span: Span) -> Walked<
    HirStructPat,
>
    decreases pat, 0nat,
{
    let w = match struct_shape(ty, ic) {
        StructShape::Fields(declared) => {
            let text = pattern_type_text(pat.path, ty, ic);
            bind_struct_fields_rule(
                env,
                pat.fields,
                declared,
                pat.rest,
                ic.named(text),
                span,
                ic.symbol(text),
            )
        },
        StructShape::Unknown => bind_fields_error_rule(env, pat.fields, ic),
        StructShape::Wrong(message) => bind_fields_error_rule(
            env,
            pat.fields,
            ic.error(span, message),
        ),
    };
    walked(w.env, w.ic, HirStructPat { path: pat.path, fields: w.node, rest: pat.rest })
}

/// Field patterns in order, and the names seen so far after them.
#[verifier::opaque]
pub open spec fn bind_named_rule(
    env: TyEnv,
    pats: List<HirStructPatField>,
    declared: List<FieldInfo>,
    seen: List<Symbol>,
    ic: Ic,
    owner: Symbol,
) -> (Walked<List<HirStructPatField>>, List<Symbol>)
    decreases pats, 0nat,
{
    match pats {
        List::Nil => (walked(env, ic, pats), seen),
        List::Cons(f, rest) => {
            let name = f.name.name;
            let (ty, known) = match field_named(declared, name) {
                Some(info) => (info.ty, true),
                None => (TyId::Error, false),
            };
            let first = bind_pat_rule(env, f.pat, ty, BindingState::Valid, true, ic);
            let after = if !known {
                first.ic.error(f.span, Message::NamedTypeNoField { owner, field: name })
            } else if names_has(seen, name) {
                first.ic.error(f.span, Message::DuplicateFieldPattern { field: name })
            } else {
                first.ic
            };
            let now = if known {
                List::Cons(Box::new(name), Box::new(seen))
            } else {
                seen
            };
            let (others, all) = bind_named_rule(
                first.env,
                *rest,
                declared,
                now,
                after,
                owner,
            );
            (
                walked(
                    others.env,
                    others.ic,
                    List::Cons(
                        Box::new(HirStructPatField { pat: first.node, ..*f }),
                        Box::new(others.node),
                    ),
                ),
                all,
            )
        },
    }
}

/// Field patterns against declared fields.
#[verifier::opaque]
pub open spec fn bind_struct_fields_rule(
    env: TyEnv,
    pats: List<HirStructPatField>,
    declared: List<FieldInfo>,
    rest: bool,
    ic: Ic,
    span: Span,
    owner: Symbol,
) -> Walked<List<HirStructPatField>>
    decreases pats, 1nat,
{
    let (w, seen) = bind_named_rule(env, pats, declared, List::Nil, ic, owner);
    let missing = fields_missing(declared, seen, List::Nil);
    if rest || missing == List::<Symbol>::Nil {
        w
    } else {
        walked(
            w.env,
            w.ic.error(span, Message::StructPatMissing { owner, missing }),
            w.node,
        )
    }
}

/// Bind the names of a pattern as valid, mutable bindings.
pub fn bind_pat(env: &mut TyEnv, pat: &mut HirPat, ty: TyId, ic: &mut InferCx<'_>)
    ensures
        walked(*final(env), final(ic)@, *final(pat)) == bind_pat_rule(
            *old(env),
            *old(pat),
            ty,
            BindingState::Valid,
            true,
            old(ic)@,
        ),
        sound(*old(env), old(ic)@, *final(env), final(ic)@),
    decreases *old(pat), 2nat,
{
    proof {
        reveal(bind_pat_rule);
    }
    bind_pat_with_state_mut(env, pat, ty, BindingState::Valid, true, ic);
}

/// Bind the names of a pattern.
pub fn bind_pat_with_state_mut(
    env: &mut TyEnv,
    pat: &mut HirPat,
    ty: TyId,
    state: BindingState,
    mutable: bool,
    ic: &mut InferCx<'_>,
)
    ensures
        walked(*final(env), final(ic)@, *final(pat)) == bind_pat_rule(
            *old(env),
            *old(pat),
            ty,
            state,
            mutable,
            old(ic)@,
        ),
        sound(*old(env), old(ic)@, *final(env), final(ic)@),
    decreases *old(pat), 1nat,
{
    proof {
        reveal(bind_pat_rule);
        reveal(bind_tuple_pat_rule);
        reveal(bind_variant_pat_rule);
        reveal(bind_struct_pat_rule);
        reveal(bind_slice_pat_rule);
        reveal(check_expr_rule);
    }
    pat.ty = ty;
    let span = pat.span;
    match &mut pat.kind {
        HirPatKind::Binding(ident) => {
            env.bind_with_state_mut(ident.name, ty, state, mutable);
        },
        HirPatKind::Tuple(elems) => {
            bind_tuple_pat(env, elems, ty, ic, span);
        },
        HirPatKind::Variant(variant) => {
            bind_variant_pat(env, variant, ty, ic, span);
        },
        HirPatKind::Struct(product) => {
            bind_struct_pat(env, product, ty, ic, span);
        },
        HirPatKind::Guard(guard) => {
            bind_pat_with_state_mut(env, &mut guard.pat, ty, state, mutable, ic);
            check_expr(env, &mut guard.cond, TyId::Prim(Primitive::Bool), ic);
        },
        HirPatKind::AtBinding(at) => {
            env.bind_with_state_mut(at.name.name, ty, state.dup(), mutable);
            bind_pat_with_state_mut(env, &mut at.inner, ty, state, mutable, ic);
        },
        HirPatKind::Slice(slice) => {
            bind_slice_pat(env, slice, ty, ic, span);
        },
        _ => {},
    }
}

fn bind_pats(env: &mut TyEnv, pats: &mut List<HirPat>, ty: TyId, ic: &mut InferCx<'_>)
    ensures
        walked(*final(env), final(ic)@, *final(pats)) == bind_pats_rule(
            *old(env),
            *old(pats),
            ty,
            old(ic)@,
        ),
        sound(*old(env), old(ic)@, *final(env), final(ic)@),
    decreases *old(pats), 0nat,
{
    proof {
        reveal(bind_pats_rule);
        reveal(bind_pat_rule);
    }
    match pats {
        List::Nil => {},
        List::Cons(pat, rest) => {
            bind_pat(env, pat, ty, ic);
            bind_pats(env, rest, ty, ic);
        },
    }
}

fn bind_each(env: &mut TyEnv, pats: &mut List<HirPat>, tys: &List<TyId>, ic: &mut InferCx<'_>)
    ensures
        walked(*final(env), final(ic)@, *final(pats)) == bind_each_rule(
            *old(env),
            *old(pats),
            *tys,
            old(ic)@,
        ),
        sound(*old(env), old(ic)@, *final(env), final(ic)@),
    decreases *old(pats), 0nat,
{
    proof {
        reveal(bind_each_rule);
        reveal(bind_pat_rule);
    }
    match pats {
        List::Nil => {},
        List::Cons(pat, rest) => match tys {
            List::Nil => {},
            List::Cons(ty, more) => {
                bind_pat(env, pat, **ty, ic);
                bind_each(env, rest, more, ic);
            },
        },
    }
}

fn bind_slice_pat(env: &mut TyEnv, slice: &mut HirSlicePat, ty: TyId, ic: &mut InferCx<'_>, span: Span)
    ensures
        walked(*final(env), final(ic)@, *final(slice)) == bind_slice_pat_rule(
            *old(env),
            *old(slice),
            ty,
            old(ic)@,
            span,
        ),
        sound(*old(env), old(ic)@, *final(env), final(ic)@),
    decreases *old(slice), 0nat,
{
    proof {
        reveal(bind_slice_pat_rule);
        reveal(bind_pats_rule);
    }
    let error = ic.ty_error();
    let elem = if ty == error {
        error
    } else {
        match ic.kind(ty) {
            TyKind::Slice(elem) => elem,
            _ => {
                ic.emit_typecheck_error(span, Message::SlicePatNotSlice { ty });
                error
            },
        }
    };
    bind_pats(env, &mut slice.prefix, elem, ic);
    match slice.rest {
        Some(Some(name)) => {
            let rest_ty = if elem == error {
                error
            } else {
                ty
            };
            env.bind(name.name, rest_ty);
        },
        _ => {},
    }
    bind_pats(env, &mut slice.suffix, elem, ic);
}

fn bind_tuple_pat(env: &mut TyEnv, elems: &mut List<HirPat>, ty: TyId, ic: &mut InferCx<'_>, span: Span)
    ensures
        walked(*final(env), final(ic)@, *final(elems)) == bind_tuple_pat_rule(
            *old(env),
            *old(elems),
            ty,
            old(ic)@,
            span,
        ),
        sound(*old(env), old(ic)@, *final(env), final(ic)@),
    decreases *old(elems), 1nat,
{
    proof {
        reveal(bind_tuple_pat_rule);
        reveal(bind_pats_rule);
        reveal(bind_each_rule);
    }
    let error = ic.ty_error();
    if ty == error {
        bind_pats(env, elems, error, ic);
        return;
    }
    match ic.kind(ty) {
        TyKind::Tuple(tys) => {
            if tys.len() == elems.len() {
                bind_each(env, elems, &tys, ic);
                return;
            }
        },
        _ => {},
    }
    ic.emit_typecheck_error(span, Message::TuplePatMismatch { arity: elems.len(), ty });
    bind_pats(env, elems, error, ic);
}

fn bind_payload_with_error(
    env: &mut TyEnv,
    payload: &mut HirVariantPatPayload,
    ic: &mut InferCx<'_>,
)
    ensures
        walked(*final(env), final(ic)@, *final(payload)) == payload_error_rule(
            *old(env),
            *old(payload),
            old(ic)@,
        ),
        sound(*old(env), old(ic)@, *final(env), final(ic)@),
    decreases *old(payload), 0nat,
{
    proof {
        reveal(payload_error_rule);
        reveal(bind_pats_rule);
        reveal(bind_fields_error_rule);
    }
    match payload {
        HirVariantPatPayload::Unit => {},
        HirVariantPatPayload::Tuple(pats) => {
            let error = ic.ty_error();
            bind_pats(env, pats, error, ic);
        },
        HirVariantPatPayload::Struct(fields) => {
            bind_fields_with_error(env, fields, ic);
        },
    }
}

fn bind_fields_with_error(
    env: &mut TyEnv,
    fields: &mut List<HirStructPatField>,
    ic: &mut InferCx<'_>,
)
    ensures
        walked(*final(env), final(ic)@, *final(fields)) == bind_fields_error_rule(
            *old(env),
            *old(fields),
            old(ic)@,
        ),
        sound(*old(env), old(ic)@, *final(env), final(ic)@),
    decreases *old(fields), 0nat,
{
    proof {
        reveal(bind_fields_error_rule);
        reveal(bind_pat_rule);
    }
    match fields {
        List::Nil => {},
        List::Cons(f, rest) => {
            let error = ic.ty_error();
            bind_pat(env, &mut f.pat, error, ic);
            bind_fields_with_error(env, rest, ic);
        },
    }
}

fn bind_payload(
    env: &mut TyEnv,
    payload: &mut HirVariantPatPayload,
    info: VariantPayloadInfo,
    variant: Symbol,
    ic: &mut InferCx<'_>,
    span: Span,
)
    ensures
        walked(*final(env), final(ic)@, *final(payload)) == bind_payload_rule(
            *old(env),
            *old(payload),
            info,
            variant,
            old(ic)@,
            span,
        ),
        sound(*old(env), old(ic)@, *final(env), final(ic)@),
    decreases *old(payload), 1nat,
{
    proof {
        reveal(bind_payload_rule);
        reveal(payload_error_rule);
        reveal(bind_pats_rule);
        reveal(bind_each_rule);
        reveal(bind_struct_fields_rule);
    }
    let error = ic.ty_error();
    match (&mut *payload, &info) {
        (HirVariantPatPayload::Unit, VariantPayloadInfo::Unit) => {
            return;
        },
        (HirVariantPatPayload::Tuple(pats), VariantPayloadInfo::Tuple(elems)) => {
            if pats.len() != elems.len() {
                ic.emit_typecheck_error(
                    span,
                    Message::VariantPatArity {
                        variant,
                        arity: elems.len(),
                        supplied: pats.len(),
                    },
                );
                bind_pats(env, pats, error, ic);
            } else {
                bind_each(env, pats, elems, ic);
            }
            return;
        },
        (HirVariantPatPayload::Tuple(pats), VariantPayloadInfo::Struct(fields)) => {
            let tys = field_tys(fields);
            proof {
                lemma_field_types_length(*fields);
            }
            if pats.len() != fields.len() {
                ic.emit_typecheck_error(
                    span,
                    Message::VariantPatFieldArity {
                        variant,
                        arity: fields.len(),
                        supplied: pats.len(),
                    },
                );
                bind_pats(env, pats, error, ic);
            } else {
                bind_each(env, pats, &tys, ic);
            }
            return;
        },
        (HirVariantPatPayload::Struct(pats), VariantPayloadInfo::Struct(fields)) => {
            bind_struct_fields(env, pats, fields, false, ic, span, variant);
            return;
        },
        _ => {},
    }
    ic.emit_typecheck_error(span, Message::VariantPatShape { variant });
    bind_payload_with_error(env, payload, ic);
}

proof fn lemma_field_types_length(fields: List<FieldInfo>)
    ensures
        field_types(fields).length() == fields.length(),
    decreases fields,
{
    match fields {
        List::Nil => {},
        List::Cons(_, rest) => {
            lemma_field_types_length(*rest);
        },
    }
}

fn bind_variant_pat(
    env: &mut TyEnv,
    pat: &mut HirVariantPat,
    ty: TyId,
    ic: &mut InferCx<'_>,
    span: Span,
)
    ensures
        walked(*final(env), final(ic)@, *final(pat)) == bind_variant_pat_rule(
            *old(env),
            *old(pat),
            ty,
            old(ic)@,
            span,
        ),
        sound(*old(env), old(ic)@, *final(env), final(ic)@),
    decreases *old(pat), 0nat,
{
    proof {
        reveal(bind_variant_pat_rule);
        reveal(payload_error_rule);
        reveal(bind_payload_rule);
    }
    if ty == ic.ty_error() {
        bind_payload_with_error(env, &mut pat.payload, ic);
        return;
    }
    let sum_id = match ic.kind(ty) {
        TyKind::Nominal(id) => id,
        _ => {
            ic.emit_typecheck_error(span, Message::VariantPatNotSum { ty });
            bind_payload_with_error(env, &mut pat.payload, ic);
            return;
        },
    };
    let variant = match pat.path.segments.last() {
        Some(leaf) => leaf.name,
        None => {
            bind_payload_with_error(env, &mut pat.payload, ic);
            return;
        },
    };
    let payload_info = match ic.ty_cx.type_decl(sum_id) {
        Some(info) => info.variant(variant),
        None => None,
    };
    match payload_info {
        Some(info) => {
            bind_payload(env, &mut pat.payload, info, variant, ic, span);
        },
        None => {
            ic.emit_typecheck_error(span, Message::PatNoVariant { variant, ty });
            bind_payload_with_error(env, &mut pat.payload, ic);
        },
    }
}

fn bind_struct_pat(
    env: &mut TyEnv,
    pat: &mut HirStructPat,
    ty: TyId,
    ic: &mut InferCx<'_>,
    span: Span,
)
    ensures
        walked(*final(env), final(ic)@, *final(pat)) == bind_struct_pat_rule(
            *old(env),
            *old(pat),
            ty,
            old(ic)@,
            span,
        ),
        sound(*old(env), old(ic)@, *final(env), final(ic)@),
    decreases *old(pat), 0nat,
{
    proof {
        reveal(bind_struct_pat_rule);
        reveal(bind_fields_error_rule);
        reveal(bind_struct_fields_rule);
    }
    if ty == ic.ty_error() {
        bind_fields_with_error(env, &mut pat.fields, ic);
        return;
    }
    let prod_id = match ic.kind(ty) {
        TyKind::Nominal(id) => id,
        _ => {
            ic.emit_typecheck_error(span, Message::StructPatNotProduct { ty });
            bind_fields_with_error(env, &mut pat.fields, ic);
            return;
        },
    };
    match ic.ty_cx.type_decl(prod_id) {
        Some(info) => match &info.kind {
            TypeDeclShape::Product(fields) => {
                let text = match pat.path.segments.last() {
                    Some(leaf) => ic.lower.interner.resolve(leaf.name).to_owned(),
                    None => ic.display_ty(ty),
                };
                let owner = ic.intern(text.as_str());
                bind_struct_fields(env, &mut pat.fields, fields, pat.rest, ic, span, owner);
            },
            TypeDeclShape::Sum(_) => {
                ic.emit_typecheck_error(span, Message::StructPatOnSum { ty });
                bind_fields_with_error(env, &mut pat.fields, ic);
            },
        },
        None => {
            ic.emit_typecheck_error(span, Message::NoLayout { ty });
            bind_fields_with_error(env, &mut pat.fields, ic);
        },
    }
}

fn bind_named(
    env: &mut TyEnv,
    pats: &mut List<HirStructPatField>,
    declared: &List<FieldInfo>,
    seen: List<Symbol>,
    ic: &mut InferCx<'_>,
    owner: Symbol,
) -> (r: List<Symbol>)
    ensures
        (walked(*final(env), final(ic)@, *final(pats)), r) == bind_named_rule(
            *old(env),
            *old(pats),
            *declared,
            seen,
            old(ic)@,
            owner,
        ),
        sound(*old(env), old(ic)@, *final(env), final(ic)@),
    decreases *old(pats), 0nat,
{
    proof {
        reveal(bind_named_rule);
        reveal(bind_pat_rule);
    }
    match pats {
        List::Nil => seen,
        List::Cons(f, rest) => {
            let name = f.name.name;
            match find_field(declared, name) {
                Some(info) => {
                    bind_pat(env, &mut f.pat, info.ty, ic);
                    if has_name(&seen, name) {
                        ic.emit_typecheck_error(
                            f.span,
                            Message::DuplicateFieldPattern { field: name },
                        );
                    }
                    bind_named(env, rest, declared, List::cons(name, seen), ic, owner)
                },
                None => {
                    let error = ic.ty_error();
                    bind_pat(env, &mut f.pat, error, ic);
                    ic.emit_typecheck_error(
                        f.span,
                        Message::NamedTypeNoField { owner, field: name },
                    );
                    bind_named(env, rest, declared, seen, ic, owner)
                },
            }
        },
    }
}

fn bind_struct_fields(
    env: &mut TyEnv,
    pats: &mut List<HirStructPatField>,
    declared: &List<FieldInfo>,
    rest: bool,
    ic: &mut InferCx<'_>,
    span: Span,
    owner: Symbol,
)
    ensures
        walked(*final(env), final(ic)@, *final(pats)) == bind_struct_fields_rule(
            *old(env),
            *old(pats),
            *declared,
            rest,
            old(ic)@,
            span,
            owner,
        ),
        sound(*old(env), old(ic)@, *final(env), final(ic)@),
    decreases *old(pats), 1nat,
{
    proof {
        reveal(bind_struct_fields_rule);
        reveal(bind_named_rule);
    }
    let seen = bind_named(env, pats, declared, List::Nil, ic, owner);
    if rest {
        return;
    }
    let missing = missing_fields(declared, &seen, &List::Nil);
    if !missing.is_empty() {
        ic.emit_typecheck_error(span, Message::StructPatMissing { owner, missing });
    }
}

} // verus!
