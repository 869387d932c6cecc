//! Paths and literals.

use vstd::prelude::*;

use super::cx::{group_grown, kept, Ic, InferCx};
use super::env::TyEnv;
use super::lit::{fits, fits_in_primitive};
use crate::capability::CapabilityType;
use crate::cx::{const_for, sig_for, TypeDeclShape, VariantPayloadInfo};
use crate::diag::Message;
use crate::hir::HirPath;
use crate::package::{BindingEntry, BindingKind, Resolved};
use crate::prim::Primitive;
use crate::span::Span;
use crate::syntax::Literal;
use crate::ty::{BindingId, TyId, TyKind};

verus! {

broadcast use group_grown;

/// Context and type after a step.
pub struct Typed {
    /// The context.
    pub ic: Ic,
    /// The type.
    pub ty: TyId,
}

/// The step to a context and a type.
pub open spec fn typed(ic: Ic, ty: TyId) -> Typed {
    Typed { ic, ty }
}

/// An error step.
pub open spec fn failed(ic: Ic, span: Span, message: Message) -> Typed {
    typed(ic.error(span, message), TyId::Error)
}

/// The type of a literal on its own.
pub open spec fn literal_ty(lit: Literal) -> TyId {
    match lit {
        Literal::Int { .. } => TyId::Prim(Primitive::I64),
        Literal::Float(_) => TyId::Prim(Primitive::F64),
        Literal::Str(_) => TyId::Prim(Primitive::String),
        Literal::Bool(_) => TyId::Prim(Primitive::Bool),
        Literal::Unit => TyId::Prim(Primitive::Unit),
    }
}

/// The type of a literal on its own.
pub fn synth_literal(lit: &Literal) -> (r: TyId)
    ensures
        r == literal_ty(*lit),
{
    match lit {
        Literal::Int { .. } => TyId::Prim(Primitive::I64),
        Literal::Float(_) => TyId::Prim(Primitive::F64),
        Literal::Str(_) => TyId::Prim(Primitive::String),
        Literal::Bool(_) => TyId::Prim(Primitive::Bool),
        Literal::Unit => TyId::Prim(Primitive::Unit),
    }
}

/// A type found where another is expected: equal types agree, an error is
/// passed on silently, `never` stands for any type.
#[verifier::opaque]
pub open spec fn bridge(found: TyId, expected: TyId, ic: Ic, span: Span) -> Typed {
    if found == expected {
        typed(ic, expected)
    } else if found == TyId::Error || expected == TyId::Error {
        typed(ic, TyId::Error)
    } else if found == TyId::Prim(Primitive::Never) {
        typed(ic, expected)
    } else {
        failed(ic, span, Message::TypeMismatch { expected, found })
    }
}

/// Hold a type that was found against the one that is expected.
pub fn check_synth_against_expected(found: TyId, expected: TyId, ic: &mut InferCx<'_>, span: Span) -> (r:
    TyId)
    ensures
        typed(final(ic)@, r) == bridge(found, expected, old(ic)@, span),
        kept(old(ic)@, final(ic)@),
{
    proof {
        reveal(bridge);
    }
    if found == expected {
        return expected;
    }
    let error = ic.ty_error();
    if found == error || expected == error {
        return error;
    }
    if found == TyId::Prim(Primitive::Never) {
        return expected;
    }
    ic.emit_typecheck_error(span, Message::TypeMismatch { expected, found });
    error
}

/// A literal where a type is expected: an integer literal has any integer type
/// that holds its value, a float literal either float type, any other literal
/// its own type.
#[verifier::opaque]
pub open spec fn literal_check(lit: Literal, expected: TyId, ic: Ic, span: Span) -> Typed {
    match (lit, ic.kind(expected)) {
        (Literal::Int { value, .. }, TyKind::Primitive(p)) if p.integer_kind() => if fits(
            value as nat,
            p,
        ) {
            typed(ic, expected)
        } else {
            failed(ic, span, Message::LiteralTooLarge { value, prim: p })
        },
        (Literal::Float(_), TyKind::Primitive(p)) if p.float_kind() => typed(ic, expected),
        _ => bridge(literal_ty(lit), expected, ic, span),
    }
}

/// Check a literal against a type.
pub fn check_literal(lit: &Literal, expected: TyId, ic: &mut InferCx<'_>, span: Span) -> (r: TyId)
    ensures
        typed(final(ic)@, r) == literal_check(*lit, expected, old(ic)@, span),
        kept(old(ic)@, final(ic)@),
{
    proof {
        reveal(literal_check);
    }
    match ic.kind(expected) {
        TyKind::Primitive(p) => {
            match lit {
                Literal::Int { value, .. } => {
                    if p.is_integer() {
                        if fits_in_primitive(*value, p) {
                            return expected;
                        }
                        ic.emit_typecheck_error(
                            span,
                            Message::LiteralTooLarge { value: *value, prim: p },
                        );
                        return ic.ty_error();
                    }
                },
                Literal::Float(_) => {
                    if p.is_float() {
                        return expected;
                    }
                },
                _ => {},
            }
        },
        _ => {},
    }
    let synth = synth_literal(lit);
    check_synth_against_expected(synth, expected, ic, span)
}

/// The type that a name stands for in a compile-time body: a primitive or a
/// capability.
pub open spec fn catalogue_type(text: Seq<char>) -> Option<TyId> {
    match Primitive::named(text) {
        Some(p) => Some(TyId::Prim(p)),
        None => match CapabilityType::named(text) {
            Some(c) => Some(TyId::Cap(c)),
            None => None,
        },
    }
}

impl Ic {
    /// With the type that the path at `span` names.
    pub open spec fn names_type(self, span: Span, ty: TyId) -> Ic {
        Ic { type_paths: self.type_paths.insert(span, ty), ..self }
    }
}

/// Whether a name stands for a type.
pub open spec fn is_type_binding(kind: BindingKind) -> bool {
    kind == BindingKind::TypeDecl || kind == BindingKind::SpecInvocation
}

/// A resolved item used as a value.
pub open spec fn item_value(
    path: HirPath,
    id: BindingId,
    entry: BindingEntry,
    ic: Ic,
    span: Span,
) -> Typed {
    let nominal = TyKind::Nominal(id);
    if ic.comptime && is_type_binding(entry.kind) {
        typed(
            ic.stored(nominal).names_type(path.span, ic.handle(nominal)),
            TyId::Prim(Primitive::Type),
        )
    } else {
        match (path.qualified_leaf(), ic.ty_cx.layout(id)) {
            (Some(leaf), Some(info)) if is_type_binding(entry.kind) && info.kind is Sum => {
                match info.variant_payload(leaf) {
                    Some(VariantPayloadInfo::Unit) => typed(ic.stored(nominal), ic.handle(nominal)),
                    Some(_) => failed(
                        ic,
                        span,
                        Message::VariantNeedsArguments { ty_name: entry.name, variant: leaf },
                    ),
                    None => failed(
                        ic,
                        span,
                        Message::NoSuchVariant { variant: leaf, ty_name: entry.name },
                    ),
                }
            },
            _ => match (entry.kind, sig_for(ic.ty_cx.sigs, id), const_for(ic.ty_cx.consts, id)) {
                (BindingKind::Function, Some(sig), _) => {
                    let kind = TyKind::FnPtr(Box::new(sig.pointer()));
                    typed(ic.stored(kind), ic.handle(kind))
                },
                (BindingKind::Const, _, Some(ty)) => typed(ic, ty),
                (BindingKind::Param, _, _) | (BindingKind::Local, _, _) => failed(
                    ic,
                    span,
                    Message::NotInEnvironment { name: entry.name },
                ),
                _ => failed(
                    ic,
                    span,
                    Message::NotAValue { kind: entry.kind, name: entry.name },
                ),
            },
        }
    }
}

/// A path that is neither a local nor a catalogue name.
pub open spec fn resolved_value(path: HirPath, ic: Ic, span: Span) -> Typed {
    let target = match ic.package {
        Some(package) => package.target(path.span),
        None => None,
    };
    match target {
        Some((Resolved::Binding(id), Some(entry))) => item_value(path, id, entry, ic, span),
        Some((Resolved::Module(_), _)) => failed(ic, span, Message::ModuleAsValue),
        Some(_) => typed(ic, TyId::Error),
        None => match path.single() {
            Some(name) => failed(ic, span, Message::CannotFindBinding { name }),
            None => failed(ic, span, Message::QualifiedPath),
        },
    }
}

/// A path as a value: a local in scope, else a catalogue type in a
/// compile-time body, else what the package resolved it to.
#[verifier::opaque]
pub open spec fn path_value(path: HirPath, env: TyEnv, ic: Ic, span: Span) -> Typed {
    match path.single() {
        None => resolved_value(path, ic, span),
        Some(name) => match env.find(name) {
            Some(bound) => if bound.state is Valid {
                typed(ic, bound.ty)
            } else {
                failed(ic, span, Message::NotReadable { name, state: bound.state.word() })
            },
            None => match catalogue_type(ic.text(name)) {
                Some(ty) if ic.comptime => typed(
                    ic.names_type(path.span, ty),
                    TyId::Prim(Primitive::Type),
                ),
                _ => resolved_value(path, ic, span),
            },
        },
    }
}

fn record_comptime_type_path(ic: &mut InferCx<'_>, span: Span, ty: TyId)
    ensures
        final(ic)@ == old(ic)@.names_type(span, ty),
        kept(old(ic)@, final(ic)@),
{
    ic.comptime_type_paths.insert(span, ty);
}

fn synth_item(
    path: &HirPath,
    id: BindingId,
    entry: BindingEntry,
    ic: &mut InferCx<'_>,
    span: Span,
) -> (r: TyId)
    ensures
        typed(final(ic)@, r) == item_value(*path, id, entry, old(ic)@, span),
        kept(old(ic)@, final(ic)@),
{
    let is_type = match entry.kind {
        BindingKind::TypeDecl | BindingKind::SpecInvocation => true,
        _ => false,
    };
    if ic.in_comptime_context && is_type {
        let nominal = ic.intern_kind(TyKind::Nominal(id));
        record_comptime_type_path(ic, path.span, nominal);
        return TyId::Prim(Primitive::Type);
    }
    if is_type {
        match (path.as_qualified_leaf(), ic.ty_cx.type_decl(id)) {
            (Some(leaf), Some(info)) => {
                match &info.kind {
                    TypeDeclShape::Sum(_) => {
                        return match info.variant(leaf) {
                            Some(VariantPayloadInfo::Unit) => ic.intern_kind(TyKind::Nominal(id)),
                            Some(_) => {
                                ic.emit_typecheck_error(
                                    span,
                                    Message::VariantNeedsArguments {
                                        ty_name: entry.name,
                                        variant: leaf,
                                    },
                                );
                                ic.ty_error()
                            },
                            None => {
                                ic.emit_typecheck_error(
                                    span,
                                    Message::NoSuchVariant { variant: leaf, ty_name: entry.name },
                                );
                                ic.ty_error()
                            },
                        };
                    },
                    TypeDeclShape::Product(_) => {},
                }
            },
            _ => {},
        }
    }
    match entry.kind {
        BindingKind::Function => match ic.ty_cx.sig(id) {
            Some(sig) => {
                return ic.intern_kind(TyKind::FnPtr(Box::new(sig.to_fn_ptr_sig())));
            },
            None => {},
        },
        BindingKind::Const => match ic.ty_cx.const_ty(id) {
            Some(ty) => {
                return ty;
            },
            None => {},
        },
        BindingKind::Param | BindingKind::Local => {
            ic.emit_typecheck_error(span, Message::NotInEnvironment { name: entry.name });
            return ic.ty_error();
        },
        _ => {},
    }
    ic.emit_typecheck_error(span, Message::NotAValue { kind: entry.kind, name: entry.name });
    ic.ty_error()
}

fn synth_resolved_path(path: &HirPath, ic: &mut InferCx<'_>, span: Span) -> (r: TyId)
    ensures
        typed(final(ic)@, r) == resolved_value(*path, old(ic)@, span),
        kept(old(ic)@, final(ic)@),
{
    match ic.lower.package {
        Some(package) => match package.lookup_path(path.span) {
            Some((Resolved::Binding(id), Some(entry))) => {
                return synth_item(path, id, entry, ic, span);
            },
            Some((Resolved::Module(_), _)) => {
                ic.emit_typecheck_error(span, Message::ModuleAsValue);
                return ic.ty_error();
            },
            Some(_) => {
                return ic.ty_error();
            },
            None => {},
        },
        None => {},
    }
    match path.as_single() {
        Some(name) => {
            ic.emit_typecheck_error(span, Message::CannotFindBinding { name });
        },
        None => {
            ic.emit_typecheck_error(span, Message::QualifiedPath);
        },
    }
    ic.ty_error()
}

/// Synthesise the type of a path.
pub fn synth_path(path: &HirPath, env: &TyEnv, ic: &mut InferCx<'_>, span: Span) -> (r: TyId)
    ensures
        typed(final(ic)@, r) == path_value(*path, *env, old(ic)@, span),
        kept(old(ic)@, final(ic)@),
{
    proof {
        reveal(path_value);
    }
    let name = match path.as_single() {
        Some(name) => name,
        None => {
            return synth_resolved_path(path, ic, span);
        },
    };
    match (env.lookup(name), env.lookup_state(name)) {
        (Some(ty), Some(state)) => {
            if state.is_readable() {
                return ty;
            }
            ic.emit_typecheck_error(
                span,
                Message::NotReadable { name, state: state.state_word() },
            );
            return ic.ty_error();
        },
        _ => {},
    }
    if ic.in_comptime_context {
        match Primitive::from_name(ic.lower.interner.resolve(name)) {
            Some(p) => {
                record_comptime_type_path(ic, path.span, TyId::Prim(p));
                return TyId::Prim(Primitive::Type);
            },
            None => {},
        }
        match CapabilityType::from_name(ic.lower.interner.resolve(name)) {
            Some(c) => {
                record_comptime_type_path(ic, path.span, TyId::Cap(c));
                return TyId::Prim(Primitive::Type);
            },
            None => {},
        }
    }
    synth_resolved_path(path, ic, span)
}

/// `never` and equal types are accepted without a report; the result is the
/// expected type or, where something was wrong, the error type.
pub proof fn law_bridge(found: TyId, expected: TyId, ic: Ic, span: Span)
    ensures
        bridge(found, expected, ic, span).ty == expected || bridge(found, expected, ic, span).ty
            == TyId::Error,
        bridge(expected, expected, ic, span) == typed(ic, expected),
        expected != TyId::Error ==> bridge(TyId::Prim(Primitive::Never), expected, ic, span)
            == typed(ic, expected),
{
    reveal(bridge);
}

} // verus!
