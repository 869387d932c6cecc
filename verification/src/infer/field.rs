//! Field access.

use vstd::prelude::*;

use super::cx::{group_grown, kept, Ic, InferCx};
use super::env::TyEnv;
use super::expr::{synth_expr, synth_expr_rule};
use super::judge::{judged, sound, Judged};
use super::mode::exit::{field_ty, product_field};
use super::mode::helpers::{bound_name, path_binding};
use super::path::{failed, typed, Typed};
use crate::diag::Message;
use crate::hir::{HirExpr, HirField};
use crate::intern::Symbol;
use crate::span::Span;
use crate::ty::{TyId, TyKind};

verus! {

broadcast use group_grown;

/// The type of a field of a value of type `ty`.
pub open spec fn field_of(ty: TyId, name: Symbol, ic: Ic, span: Span) -> Typed {
    if ty == TyId::Error {
        typed(ic, ty)
    } else {
        match ic.kind(ty) {
            TyKind::Nominal(_) => match product_field(ic, ty, name) {
                Some(t) => typed(ic, t),
                None => failed(ic, span, Message::TypeNoField { ty, field: name }),
            },
            _ => failed(ic, span, Message::FieldOnNonProduct { field: name, ty }),
        }
    }
}

/// A field access. A field of a binding is read on its own: only the field
/// need be valid.
#[verifier::opaque]
pub open spec fn synth_field_rule(env: TyEnv, node: HirField, ic: Ic, span: Span) -> Judged<HirField>
    decreases node, 0nat,
{
    let name = node.name.name;
    let bound = match bound_name(node.receiver) {
        Some(binding) => env.find(binding),
        None => None,
    };
    match bound {
        Some(b) => {
            let state = b.state.of_field(name);
            if state is Valid {
                let receiver = HirExpr { ty: b.ty, ..node.receiver };
                let t = field_of(b.ty, name, ic, span);
                judged(env, t.ic, HirField { receiver, name: node.name }, t.ty)
            } else {
                let reported = ic.error(
                    span,
                    Message::FieldNotReadable {
                        binding: bound_name(node.receiver)->0,
                        field: name,
                        state: state.word(),
                    },
                );
                let r = synth_expr_rule(env, node.receiver, reported);
                judged(
                    r.env,
                    r.ic,
                    HirField { receiver: r.node, name: node.name },
                    TyId::Error,
                )
            }
        },
        None => {
            let r = synth_expr_rule(env, node.receiver, ic);
            let t = field_of(r.ty, name, r.ic, span);
            judged(r.env, t.ic, HirField { receiver: r.node, name: node.name }, t.ty)
        },
    }
}

fn synth_field_after_gate(ty: TyId, name: Symbol, ic: &mut InferCx<'_>, span: Span) -> (r: TyId)
    ensures
        typed(final(ic)@, r) == field_of(ty, name, old(ic)@, span),
        kept(old(ic)@, final(ic)@),
{
    let error = ic.ty_error();
    if ty == error {
        return error;
    }
    match ic.kind(ty) {
        TyKind::Nominal(_) => match field_ty(ty, name, ic) {
            Some(t) => t,
            None => {
                ic.emit_typecheck_error(span, Message::TypeNoField { ty, field: name });
                error
            },
        },
        _ => {
            ic.emit_typecheck_error(span, Message::FieldOnNonProduct { field: name, ty });
            error
        },
    }
}

/// Synthesise a field access.
pub fn synth_field(env: &mut TyEnv, node: &mut HirField, ic: &mut InferCx<'_>, span: Span) -> (r:
    TyId)
    ensures
        judged(*final(env), final(ic)@, *final(node), r) == synth_field_rule(
            *old(env),
            *old(node),
            old(ic)@,
            span,
        ),
        sound(*old(env), old(ic)@, *final(env), final(ic)@),
    decreases *old(node), 0nat,
{
    proof {
        reveal(synth_field_rule);
        reveal(synth_expr_rule);
    }
    let name = node.name.name;
    match path_binding(&node.receiver) {
        Some(binding) => match (env.lookup_state(binding), env.lookup(binding)) {
            (Some(state), Some(ty)) => {
                let field_state = state.field_state(name);
                if !field_state.is_readable() {
                    ic.emit_typecheck_error(
                        span,
                        Message::FieldNotReadable {
                            binding,
                            field: name,
                            state: field_state.state_word(),
                        },
                    );
                    synth_expr(env, &mut node.receiver, ic);
                    return ic.ty_error();
                }
                node.receiver.ty = ty;
                return synth_field_after_gate(ty, name, ic, span);
            },
            _ => {},
        },
        None => {},
    }
    let ty = synth_expr(env, &mut node.receiver, ic);
    synth_field_after_gate(ty, name, ic, span)
}

} // verus!
