//! Laws of struct literals.

use vstd::prelude::*;

use super::cx::Ic;
use super::diverge_laws::expr_of;
use super::env::TyEnv;
use super::expr::{check_expr_rule, synth_access_rule, synth_expr_rule};
use super::struct_lit::{lit_fields_rule, lit_target, synth_struct_lit_rule};
use crate::cx::{field_named, fields_missing, names_has, FieldInfo, TypeDeclShape};
use crate::diag::{severity_of, DiagnosticClass, Message};
use crate::hir::{HirExprKind, HirPath, HirStructLit, HirStructLitField};
use crate::intern::Symbol;
use crate::list::List;
use crate::package::{BindingKind, Resolved};
use crate::span::Span;
use crate::ty::{law_ty_intern, BindingId, TyId, TyKind};

verus! {

/// Whether a path names the product type `id` with these fields.
pub open spec fn is_product(path: HirPath, id: BindingId, fields: List<FieldInfo>, ic: Ic) -> bool {
    &&& match ic.package {
        Some(package) => match package.target(path.span) {
            Some((Resolved::Binding(found), Some(entry))) => found == id && entry.kind
                == BindingKind::TypeDecl,
            _ => false,
        },
        None => false,
    }
    &&& match ic.ty_cx.layout(id) {
        Some(info) => info.kind == TypeDeclShape::Product(fields),
        None => false,
    }
}

/// The name that the type at a path was declared with.
pub open spec fn product_name(path: HirPath, ic: Ic) -> Symbol {
    match ic.package {
        Some(package) => match package.target(path.span) {
            Some((_, Some(entry))) => entry.name,
            _ => arbitrary(),
        },
        None => arbitrary(),
    }
}

proof fn lemma_lit(
    env: TyEnv,
    path: HirPath,
    inits: List<HirStructLitField>,
    id: BindingId,
    fields: List<FieldInfo>,
    span: Span,
    ic: Ic,
)
    requires
        is_product(path, id, fields, ic),
    ensures
        ({
            let name = product_name(path, ic);
            let node = HirStructLit { path, fields: inits };
            let j = synth_expr_rule(env, expr_of(HirExprKind::StructLit(Box::new(node)), span), ic);
            let (w, seen) = lit_fields_rule(env, inits, fields, List::Nil, name, ic);
            let missing = fields_missing(fields, seen, List::Nil);
            let last = if missing == List::<Symbol>::Nil {
                w.ic
            } else {
                w.ic.error(span, Message::StructLitMissing { name, missing })
            };
            &&& j.env == w.env
            &&& j.ic == last.stored(TyKind::Nominal(id))
            &&& j.ty == last.handle(TyKind::Nominal(id))
        }),
{
    reveal(synth_expr_rule);
    reveal(synth_access_rule);
    reveal(synth_struct_lit_rule);
    reveal(lit_target);
    reveal(lit_fields_rule);
    let node = HirStructLit { path, fields: inits };
    let expr = expr_of(HirExprKind::StructLit(Box::new(node)), span);
    assert(synth_expr_rule(env, expr, ic) == synth_access_rule(env, expr, ic));
    let s = synth_struct_lit_rule(env, node, ic, span);
}

/// A literal without initialisers: it is of the named type, and each declared
/// field is missing; a product type without fields misses nothing.
pub proof fn law_empty_literal(
    env: TyEnv,
    path: HirPath,
    id: BindingId,
    fields: List<FieldInfo>,
    span: Span,
    ic: Ic,
)
    requires
        is_product(path, id, fields, ic),
        ic.tys.len() < usize::MAX,
    ensures
        ({
            let node = HirStructLit { path, fields: List::Nil };
            let j = synth_expr_rule(env, expr_of(HirExprKind::StructLit(Box::new(node)), span), ic);
            &&& j.env == env
            &&& j.ic.kind(j.ty) == TyKind::Nominal(id)
            &&& fields is Nil ==> j.ic.diags == ic.diags
            &&& fields is Cons && severity_of(ic.lints.levels, DiagnosticClass::TypecheckError)
                is Some ==> j.ic.diags.len() == ic.diags.len() + 1
        }),
{
    let none: List<HirStructLitField> = List::Nil;
    lemma_lit(env, path, none, id, fields, span, ic);
    reveal(lit_fields_rule);
    let w = lit_fields_rule(env, none, fields, List::Nil, product_name(path, ic), ic);
    law_ty_intern(ic.tys, TyKind::Nominal(id), TyId::Error);
    lemma_all_missing(fields, List::Nil);
}

proof fn lemma_all_missing(fields: List<FieldInfo>, seen: List<Symbol>)
    ensures
        fields is Cons ==> fields_missing(fields, List::Nil, seen) != List::<Symbol>::Nil || seen
            != List::<Symbol>::Nil,
        fields is Nil ==> fields_missing(fields, List::Nil, List::Nil) == List::<Symbol>::Nil,
{
}

/// An initialiser is expected to have the type of its field. A field that the
/// type does not declare is reported.
pub proof fn law_initialiser(
    env: TyEnv,
    path: HirPath,
    init: HirStructLitField,
    id: BindingId,
    field: FieldInfo,
    span: Span,
    ic: Ic,
)
    requires
        is_product(path, id, List::Cons(Box::new(field), Box::new(List::Nil)), ic),
        init.mode is None,
    ensures
        ({
            let inits = List::Cons(Box::new(init), Box::new(List::Nil));
            let node = HirStructLit { path, fields: inits };
            let j = synth_expr_rule(env, expr_of(HirExprKind::StructLit(Box::new(node)), span), ic);
            let v = check_expr_rule(env, init.value, field.ty, ic);
            let u = synth_expr_rule(env, init.value, ic);
            &&& init.name.name == field.name ==> j.ic.diags == v.ic.diags && j.env == v.env
            &&& init.name.name != field.name && severity_of(
                u.ic.lints.levels,
                DiagnosticClass::TypecheckError,
            ) is Some ==> j.ic.diags.len() == u.ic.diags.len() + 2 && j.env == u.env
        }),
{
    let none: List<HirStructLitField> = List::Nil;
    let inits = List::Cons(Box::new(init), Box::new(none));
    let declared = List::Cons(Box::new(field), Box::new(List::<FieldInfo>::Nil));
    let name = product_name(path, ic);
    lemma_lit(env, path, inits, id, declared, span, ic);
    lemma_one_init(env, init, field, name, ic);
    reveal_with_fuel(fields_missing, 3);
    reveal_with_fuel(names_has, 3);
}

proof fn lemma_one_init(env: TyEnv, init: HirStructLitField, field: FieldInfo, name: Symbol, ic: Ic)
    requires
        init.mode is None,
    ensures
        ({
            let inits = List::Cons(Box::new(init), Box::new(List::Nil));
            let declared = List::Cons(Box::new(field), Box::new(List::Nil));
            let (w, seen) = lit_fields_rule(env, inits, declared, List::Nil, name, ic);
            let v = check_expr_rule(env, init.value, field.ty, ic);
            let u = synth_expr_rule(env, init.value, ic);
            &&& init.name.name == field.name ==> w.env == v.env && w.ic == v.ic && seen
                == List::Cons(Box::new(field.name), Box::new(List::<Symbol>::Nil))
            &&& init.name.name != field.name ==> w.env == u.env && seen == List::<Symbol>::Nil
                && w.ic == u.ic.error(
                init.span,
                (Message::NamedTypeNoField { owner: name, field: init.name.name }),
            )
        }),
{
    let none: List<HirStructLitField> = List::Nil;
    let declared = List::Cons(Box::new(field), Box::new(List::<FieldInfo>::Nil));
    reveal(lit_fields_rule);
    reveal(check_expr_rule);
    reveal(synth_expr_rule);
    reveal_with_fuel(field_named, 3);
    let v = check_expr_rule(env, init.value, field.ty, ic);
    let u = synth_expr_rule(env, init.value, ic);
    let after = if init.name.name == field.name {
        (v.env, v.ic, List::Cons(Box::new(field.name), Box::new(List::<Symbol>::Nil)))
    } else {
        (
            u.env,
            u.ic.error(
                init.span,
                Message::NamedTypeNoField { owner: name, field: init.name.name },
            ),
            List::<Symbol>::Nil,
        )
    };
    let last = lit_fields_rule(after.0, none, declared, after.2, name, after.1);
}

} // verus!
