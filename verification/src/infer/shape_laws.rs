//! Laws of struct patterns and slice patterns.

use vstd::prelude::*;

use super::cx::Ic;
use super::env::{Bound, TyEnv};
use super::env_laws::law_bind;
use super::mode::lattice::BindingState;
use super::pat::{
    bind_named_rule, bind_pat_rule, bind_pats_rule, bind_slice_pat_rule, bind_struct_fields_rule,
    bind_struct_pat_rule, pattern_type_text,
};
use super::pattern_laws::name_pat;
use crate::cx::{field_named, fields_missing, names_has, FieldInfo};
use crate::diag::{severity_of, DiagnosticClass, Message};
use crate::hir::{HirPat, HirPatKind, HirPath, HirSlicePat, HirStructPat, HirStructPatField};
use crate::intern::Symbol;
use crate::list::List;
use crate::lookup_laws::{fields_distinct, is_field, law_missing};
use crate::span::Span;
use crate::syntax::Ident;
use crate::ty::{BindingId, TyId, TyKind};

verus! {

/// `[first, ..middle, last]` on a slice: the ends have the element type, the
/// middle the type of the whole.
pub proof fn law_slice_pattern(
    env: TyEnv,
    first: Ident,
    middle: Ident,
    last: Ident,
    at: Span,
    ty: TyId,
    elem: TyId,
    ic: Ic,
)
    requires
        ty != TyId::Error,
        elem != TyId::Error,
        first.name != middle.name,
        first.name != last.name,
        middle.name != last.name,
        ic.kind(ty) == TyKind::Slice(elem),
    ensures
        ({
            let node = HirSlicePat {
                prefix: List::Cons(Box::new(name_pat(first, at)), Box::new(List::Nil)),
                rest: Some(Some(middle)),
                suffix: List::Cons(Box::new(name_pat(last, at)), Box::new(List::Nil)),
            };
            let pat = HirPat {
                span: at,
                kind: HirPatKind::Slice(Box::new(node)),
                ty: TyId::Error,
            };
            let w = bind_pat_rule(env, pat, ty, BindingState::Valid, true, ic);
            &&& w.ic == ic
            &&& w.env.ty_of(first.name) == Some(elem)
            &&& w.env.ty_of(middle.name) == Some(ty)
            &&& w.env.ty_of(last.name) == Some(elem)
        }),
{
    let node = HirSlicePat {
        prefix: List::Cons(Box::new(name_pat(first, at)), Box::new(List::Nil)),
        rest: Some(Some(middle)),
        suffix: List::Cons(Box::new(name_pat(last, at)), Box::new(List::Nil)),
    };
    let a = Bound { name: first.name, ty: elem, state: BindingState::Valid, mutable: true };
    let m = Bound { name: middle.name, ty, state: BindingState::Valid, mutable: true };
    let z = Bound { name: last.name, ty: elem, state: BindingState::Valid, mutable: true };
    lemma_one_name(env, first, at, elem, ic);
    lemma_one_name(env.with(a).with(m), last, at, elem, ic);
    lemma_slice(env, node, at, ty, elem, ic);
    law_bind(env, a, first.name);
    law_bind(env.with(a), m, first.name);
    law_bind(env.with(a), m, middle.name);
    law_bind(env.with(a).with(m), z, first.name);
    law_bind(env.with(a).with(m), z, middle.name);
    law_bind(env.with(a).with(m), z, last.name);
}

proof fn lemma_one_name(env: TyEnv, ident: Ident, at: Span, ty: TyId, ic: Ic)
    ensures
        ({
            let pats = List::Cons(Box::new(name_pat(ident, at)), Box::new(List::Nil));
            let w = bind_pats_rule(env, pats, ty, ic);
            &&& w.ic == ic
            &&& w.env == env.with(
                Bound { name: ident.name, ty, state: BindingState::Valid, mutable: true },
            )
        }),
{
    reveal(bind_pats_rule);
    reveal(bind_pat_rule);
    let none: List<HirPat> = List::Nil;
    let p = bind_pat_rule(env, name_pat(ident, at), ty, BindingState::Valid, true, ic);
    let w = bind_pats_rule(p.env, none, ty, p.ic);
}

proof fn lemma_slice(env: TyEnv, node: HirSlicePat, at: Span, ty: TyId, elem: TyId, ic: Ic)
    requires
        ty != TyId::Error,
        elem != TyId::Error,
        ic.kind(ty) == TyKind::Slice(elem),
        node.rest matches Some(Some(_)),
    ensures
        ({
            let pat = HirPat {
                span: at,
                kind: HirPatKind::Slice(Box::new(node)),
                ty: TyId::Error,
            };
            let w = bind_pat_rule(env, pat, ty, BindingState::Valid, true, ic);
            let p = bind_pats_rule(env, node.prefix, elem, ic);
            let m = Bound {
                name: node.rest->0->0.name,
                ty,
                state: BindingState::Valid,
                mutable: true,
            };
            let s = bind_pats_rule(p.env.with(m), node.suffix, elem, p.ic);
            w.env == s.env && w.ic == s.ic
        }),
{
    reveal(bind_pat_rule);
    reveal(bind_slice_pat_rule);
    reveal(bind_pats_rule);
    let w = bind_slice_pat_rule(env, node, ty, ic, at);
}

/// A struct pattern with one field.
pub open spec fn field_pat(
    path: HirPath,
    field: Ident,
    name: Ident,
    rest: bool,
    at: Span,
) -> HirPat {
    let f = HirStructPatField { span: at, name: field, pat: name_pat(name, at) };
    let node = HirStructPat {
        path,
        fields: List::Cons(Box::new(f), Box::new(List::Nil)),
        rest,
    };
    HirPat { span: at, kind: HirPatKind::Struct(Box::new(node)), ty: TyId::Error }
}

/// `T { field: name, .. }` binds the name to the field's type. A field that
/// the type does not have is reported, and so is one that is left out without
/// `..`.
pub proof fn law_struct_pattern(
    env: TyEnv,
    path: HirPath,
    field: Ident,
    name: Ident,
    rest: bool,
    at: Span,
    ty: TyId,
    id: BindingId,
    fields: List<FieldInfo>,
    ic: Ic,
    other: Symbol,
)
    requires
        ty != TyId::Error,
        ic.kind(ty) == TyKind::Nominal(id),
        ic.ty_cx.product_fields(id) == Some(fields),
        fields_distinct(fields, List::Nil),
        severity_of(ic.lints.levels, DiagnosticClass::TypecheckError) is Some,
    ensures
        ({
            let w = bind_pat_rule(
                env,
                field_pat(path, field, name, rest, at),
                ty,
                BindingState::Valid,
                true,
                ic,
            );
            let found = field_named(fields, field.name);
            &&& w.env.find(name.name) is Some
            &&& w.env.state_of(name.name) == Some(BindingState::Valid)
            &&& found matches Some(info) ==> w.env.ty_of(name.name) == Some(info.ty)
            &&& found is None ==> w.env.ty_of(name.name) == Some(TyId::Error) && w.ic.diags.len()
                > ic.diags.len()
            &&& found is Some && rest ==> w.ic.diags == ic.diags
            &&& !rest && is_field(fields, other) && other != field.name ==> w.ic.diags.len()
                > ic.diags.len()
            &&& w.ic.row == ic.row
        }),
{
    let f = HirStructPatField { span: at, name: field, pat: name_pat(name, at) };
    let pats = List::Cons(Box::new(f), Box::new(List::Nil));
    let text = pattern_type_text(path, ty, ic);
    let start = ic.named(text);
    let owner = ic.symbol(text);
    lemma_struct(env, path, field, name, rest, at, ty, id, fields, ic);
    lemma_named(env, f, name, at, fields, start, owner);
    let (ty_f, known) = match field_named(fields, field.name) {
        Some(info) => (info.ty, true),
        None => (TyId::Error, false),
    };
    let b = Bound { name: name.name, ty: ty_f, state: BindingState::Valid, mutable: true };
    law_bind(env, b, name.name);
    let none: List<Symbol> = List::Nil;
    let seen = if known {
        List::Cons(Box::new(field.name), Box::new(none))
    } else {
        none
    };
    law_missing(fields, seen, none, other);
    assert(names_has(seen, other) ==> other == field.name) by {
        assert(!names_has(none, other));
    }
    let no_missing: List<Symbol> = List::Nil;
    assert(!names_has(no_missing, other));
}

proof fn lemma_named(
    env: TyEnv,
    f: HirStructPatField,
    name: Ident,
    at: Span,
    fields: List<FieldInfo>,
    ic: Ic,
    owner: Symbol,
)
    requires
        f.pat == name_pat(name, at),
    ensures
        ({
            let pats = List::Cons(Box::new(f), Box::new(List::Nil));
            let (w, seen) = bind_named_rule(env, pats, fields, List::Nil, ic, owner);
            let found = field_named(fields, f.name.name);
            let ty = match found {
                Some(info) => info.ty,
                None => TyId::Error,
            };
            &&& w.env == env.with(
                Bound { name: name.name, ty, state: BindingState::Valid, mutable: true },
            )
            &&& found is Some ==> w.ic == ic && seen == List::Cons(
                Box::new(f.name.name),
                Box::new(List::Nil),
            )
            &&& found is None ==> seen == List::<Symbol>::Nil && w.ic == ic.error(
                f.span,
                (Message::NamedTypeNoField { owner, field: f.name.name }),
            )
        }),
{
    reveal(bind_named_rule);
    reveal(bind_pat_rule);
    let none: List<Symbol> = List::Nil;
    let no_pats: List<HirStructPatField> = List::Nil;
    assert(!names_has(none, f.name.name));
    let (ty, known) = match field_named(fields, f.name.name) {
        Some(info) => (info.ty, true),
        None => (TyId::Error, false),
    };
    let p = bind_pat_rule(env, f.pat, ty, BindingState::Valid, true, ic);
    let after = if !known {
        p.ic.error(f.span, Message::NamedTypeNoField { owner, field: f.name.name })
    } else {
        p.ic
    };
    let now = if known {
        List::Cons(Box::new(f.name.name), Box::new(none))
    } else {
        none
    };
    let w = bind_named_rule(p.env, no_pats, fields, now, after, owner);
}

proof fn lemma_struct(
    env: TyEnv,
    path: HirPath,
    field: Ident,
    name: Ident,
    rest: bool,
    at: Span,
    ty: TyId,
    id: BindingId,
    fields: List<FieldInfo>,
    ic: Ic,
)
    requires
        ty != TyId::Error,
        ic.kind(ty) == TyKind::Nominal(id),
        ic.ty_cx.product_fields(id) == Some(fields),
    ensures
        ({
            let w = bind_pat_rule(
                env,
                field_pat(path, field, name, rest, at),
                ty,
                BindingState::Valid,
                true,
                ic,
            );
            let f = HirStructPatField { span: at, name: field, pat: name_pat(name, at) };
            let pats = List::Cons(Box::new(f), Box::new(List::Nil));
            let text = pattern_type_text(path, ty, ic);
            let owner = ic.symbol(text);
            let (n, seen) = bind_named_rule(env, pats, fields, List::Nil, ic.named(text), owner);
            let missing = fields_missing(fields, seen, List::Nil);
            &&& w.env == n.env
            &&& w.ic == (if rest || missing == List::<Symbol>::Nil {
                n.ic
            } else {
                n.ic.error(at, (Message::StructPatMissing { owner, missing }))
            })
        }),
{
    reveal(bind_pat_rule);
    reveal(bind_struct_pat_rule);
    reveal(bind_struct_fields_rule);
    reveal(bind_named_rule);
    let f = HirStructPatField { span: at, name: field, pat: name_pat(name, at) };
    let pats = List::Cons(Box::new(f), Box::new(List::Nil));
    let node = HirStructPat { path, fields: pats, rest };
    let text = pattern_type_text(path, ty, ic);
    let owner = ic.symbol(text);
    let w = bind_struct_pat_rule(env, node, ty, ic, at);
    let v = bind_struct_fields_rule(env, pats, fields, rest, ic.named(text), at, owner);
}

} // verus!
