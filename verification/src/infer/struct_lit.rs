//! Struct literals.

use vstd::prelude::*;

use super::cx::{group_grown, Ic, InferCx};
use super::env::TyEnv;
use super::expr::{check_expr, check_expr_rule, synth_expr, synth_expr_rule};
use super::judge::{judged, sound, walked, Judged, Walked};
use super::mode::transitions::{apply_struct_field_mode_transition, optional_mode_step};
use crate::cx::{
    field_named, fields_missing, find_field, has_name, missing_fields, names_has, FieldInfo,
    TypeDeclShape,
};
use crate::diag::Message;
use crate::hir::{HirPath, HirStructLit, HirStructLitField};
use crate::intern::Symbol;
use crate::list::List;
use crate::package::{BindingKind, Resolved};
use crate::span::Span;
use crate::ty::{BindingId, TyId, TyKind};

verus! {

broadcast use group_grown;

/// What a struct literal constructs: the declared fields of a product type,
/// or what is wrong.
pub enum LitTarget {
    /// A product type.
    Product {
        /// The type.
        id: BindingId,
        /// Its name.
        name: Symbol,
        /// Its fields.
        fields: List<FieldInfo>,
    },
    /// Nothing, without a report.
    Unknown,
    /// Nothing, with a report.
    Wrong(Message),
}

/// What a struct literal with the given path constructs.
#[verifier::opaque]
pub open spec fn lit_target(path: HirPath, ic: Ic) -> LitTarget {
    match ic.package {
        None => LitTarget::Wrong(Message::StructLitNeedsPackage),
        Some(package) => match package.target(path.span) {
            Some((Resolved::Binding(id), Some(entry))) => if entry.kind != BindingKind::TypeDecl
                && entry.kind != BindingKind::SpecInvocation {
                LitTarget::Wrong(Message::CannotConstruct { kind: entry.kind, name: entry.name })
            } else {
                match ic.ty_cx.layout(id) {
                    None => LitTarget::Wrong(Message::NoLayoutNamed { name: entry.name }),
                    Some(info) => match info.kind {
                        TypeDeclShape::Product(fields) => LitTarget::Product {
                            id,
                            name: entry.name,
                            fields,
                        },
                        TypeDeclShape::Sum(_) => LitTarget::Wrong(
                            Message::StructLitOnSum { name: entry.name },
                        ),
                    },
                }
            },
            Some((Resolved::Module(_), _)) => LitTarget::Wrong(Message::StructLitModule),
            Some(_) => LitTarget::Unknown,
            None => LitTarget::Wrong(Message::StructLitNoResolution),
        },
    }
}

/// Initialisers on their own.
#[verifier::opaque]
pub open spec fn inits_rule(env: TyEnv, fields: List<HirStructLitField>, ic: Ic) -> Walked<
    List<HirStructLitField>,
>
    decreases fields, 0nat,
{
    match fields {
        List::Nil => walked(env, ic, fields),
        List::Cons(f, rest) => {
            let first = synth_expr_rule(env, f.value, ic);
            let others = inits_rule(first.env, *rest, first.ic);
            walked(
                others.env,
                others.ic,
                List::Cons(
                    Box::new(HirStructLitField { value: first.node, ..*f }),
                    Box::new(others.node),
                ),
            )
        },
    }
}

/// Initialisers against declared fields, and the names seen so far after them.
#[verifier::opaque]
pub open spec fn lit_fields_rule(
    env: TyEnv,
    fields: List<HirStructLitField>,
    declared: List<FieldInfo>,
    seen: List<Symbol>,
    name: Symbol,
    ic: Ic,
) -> (Walked<List<HirStructLitField>>, List<Symbol>)
    decreases fields, 0nat,
{
    match fields {
        List::Nil => (walked(env, ic, fields), seen),
        List::Cons(f, rest) => {
            let field = f.name.name;
            let (after, now) = match field_named(declared, field) {
                Some(info) => {
                    let j = check_expr_rule(env, f.value, info.ty, ic);
                    let node = HirStructLitField { value: j.node, ..*f };
                    let s = optional_mode_step(j.env, j.ic, f.mode, j.node, f.span);
                    let reported = if names_has(seen, field) {
                        s.ic.error(f.span, Message::DuplicateInitialiser { field })
                    } else {
                        s.ic
                    };
                    (
                        walked(s.env, reported, node),
                        List::Cons(Box::new(field), Box::new(seen)),
                    )
                },
                None => {
                    let j = synth_expr_rule(env, f.value, ic);
                    (
                        walked(
                            j.env,
                            j.ic.error(
                                f.span,
                                Message::NamedTypeNoField { owner: name, field },
                            ),
                            HirStructLitField { value: j.node, ..*f },
                        ),
                        seen,
                    )
                },
            };
            let (others, all) = lit_fields_rule(after.env, *rest, declared, now, name, after.ic);
            (
                walked(
                    others.env,
                    others.ic,
                    List::Cons(Box::new(after.node), Box::new(others.node)),
                ),
                all,
            )
        },
    }
}

/// A struct literal: every declared field is initialised once.
#[verifier::opaque]
pub open spec fn synth_struct_lit_rule(env: TyEnv, node: HirStructLit, ic: Ic, span: Span) -> Judged<
    HirStructLit,
>
    decreases node, 0nat,
{
    match lit_target(node.path, ic) {
        LitTarget::Product { id, name, fields } => {
            let (w, seen) = lit_fields_rule(env, node.fields, fields, List::Nil, name, ic);
            let missing = fields_missing(fields, seen, List::Nil);
            let reported = if missing == List::<Symbol>::Nil {
                w.ic
            } else {
                w.ic.error(span, Message::StructLitMissing { name, missing })
            };
            let kind = TyKind::Nominal(id);
            judged(
                w.env,
                reported.stored(kind),
                HirStructLit { path: node.path, fields: w.node },
                reported.handle(kind),
            )
        },
        LitTarget::Unknown => {
            let w = inits_rule(env, node.fields, ic);
            judged(w.env, w.ic, HirStructLit { path: node.path, fields: w.node }, TyId::Error)
        },
        LitTarget::Wrong(message) => {
            let w = inits_rule(env, node.fields, ic);
            judged(
                w.env,
                w.ic.error(span, message),
                HirStructLit { path: node.path, fields: w.node },
                TyId::Error,
            )
        },
    }
}

fn resolve_lit(path: &HirPath, ic: &InferCx<'_>) -> (r: LitTarget)
    ensures
        r == lit_target(*path, ic@),
{
    proof {
        reveal(lit_target);
    }
    let package = match ic.lower.package {
        Some(package) => package,
        None => {
            return LitTarget::Wrong(Message::StructLitNeedsPackage);
        },
    };
    match package.lookup_path(path.span) {
        Some((Resolved::Binding(id), Some(entry))) => {
            match entry.kind {
                BindingKind::TypeDecl | BindingKind::SpecInvocation => {},
                _ => {
                    return LitTarget::Wrong(
                        Message::CannotConstruct { kind: entry.kind, name: entry.name },
                    );
                },
            }
            match ic.ty_cx.type_decl(id) {
                None => LitTarget::Wrong(Message::NoLayoutNamed { name: entry.name }),
                Some(info) => match &info.kind {
                    TypeDeclShape::Product(fields) => LitTarget::Product {
                        id,
                        name: entry.name,
                        fields: fields.dup(),
                    },
                    TypeDeclShape::Sum(_) => LitTarget::Wrong(
                        Message::StructLitOnSum { name: entry.name },
                    ),
                },
            }
        },
        Some((Resolved::Module(_), _)) => LitTarget::Wrong(Message::StructLitModule),
        Some(_) => LitTarget::Unknown,
        None => LitTarget::Wrong(Message::StructLitNoResolution),
    }
}

fn synth_initializers_for_diagnostics(
    env: &mut TyEnv,
    fields: &mut List<HirStructLitField>,
    ic: &mut InferCx<'_>,
)
    ensures
        walked(*final(env), final(ic)@, *final(fields)) == inits_rule(
            *old(env),
            *old(fields),
            old(ic)@,
        ),
        sound(*old(env), old(ic)@, *final(env), final(ic)@),
    decreases *old(fields), 0nat,
{
    proof {
        reveal(inits_rule);
        reveal(synth_expr_rule);
    }
    match fields {
        List::Nil => {},
        List::Cons(f, rest) => {
            synth_expr(env, &mut f.value, ic);
            synth_initializers_for_diagnostics(env, rest, ic);
        },
    }
}

fn check_lit_fields(
    env: &mut TyEnv,
    fields: &mut List<HirStructLitField>,
    declared: &List<FieldInfo>,
    seen: List<Symbol>,
    name: Symbol,
    ic: &mut InferCx<'_>,
) -> (r: List<Symbol>)
    ensures
        (walked(*final(env), final(ic)@, *final(fields)), r) == lit_fields_rule(
            *old(env),
            *old(fields),
            *declared,
            seen,
            name,
            old(ic)@,
        ),
        sound(*old(env), old(ic)@, *final(env), final(ic)@),
    decreases *old(fields), 0nat,
{
    proof {
        reveal(lit_fields_rule);
        reveal(synth_expr_rule);
        reveal(check_expr_rule);
    }
    match fields {
        List::Nil => seen,
        List::Cons(f, rest) => {
            let field = f.name.name;
            match find_field(declared, field) {
                Some(info) => {
                    check_expr(env, &mut f.value, info.ty, ic);
                    apply_struct_field_mode_transition(env, f, ic);
                    if has_name(&seen, field) {
                        ic.emit_typecheck_error(f.span, Message::DuplicateInitialiser { field });
                    }
                    check_lit_fields(env, rest, declared, List::cons(field, seen), name, ic)
                },
                None => {
                    synth_expr(env, &mut f.value, ic);
                    ic.emit_typecheck_error(
                        f.span,
                        Message::NamedTypeNoField { owner: name, field },
                    );
                    check_lit_fields(env, rest, declared, seen, name, ic)
                },
            }
        },
    }
}

/// Synthesise a struct literal.
pub fn synth_struct_lit(
    env: &mut TyEnv,
    node: &mut HirStructLit,
    ic: &mut InferCx<'_>,
    span: Span,
) -> (r: TyId)
    ensures
        judged(*final(env), final(ic)@, *final(node), r) == synth_struct_lit_rule(
            *old(env),
            *old(node),
            old(ic)@,
            span,
        ),
        sound(*old(env), old(ic)@, *final(env), final(ic)@),
    decreases *old(node), 0nat,
{
    proof {
        reveal(synth_struct_lit_rule);
        reveal(inits_rule);
        reveal(lit_fields_rule);
    }
    match resolve_lit(&node.path, ic) {
        LitTarget::Product { id, name, fields } => {
            let seen = check_lit_fields(env, &mut node.fields, &fields, List::Nil, name, ic);
            let missing = missing_fields(&fields, &seen, &List::Nil);
            if !missing.is_empty() {
                ic.emit_typecheck_error(span, Message::StructLitMissing { name, missing });
            }
            ic.intern_kind(TyKind::Nominal(id))
        },
        LitTarget::Unknown => {
            synth_initializers_for_diagnostics(env, &mut node.fields, ic);
            ic.ty_error()
        },
        LitTarget::Wrong(message) => {
            synth_initializers_for_diagnostics(env, &mut node.fields, ic);
            ic.emit_typecheck_error(span, message);
            ic.ty_error()
        },
    }
}

} // verus!
