//! The consumption discipline of `linear` types.

use vstd::prelude::*;

use super::super::cx::{group_grown, kept, Ic, InferCx};
use super::super::env::{Bound, TyEnv};
use super::helpers::{bound_name, path_binding};
use super::lattice::BindingState;
use crate::diag::Message;
use crate::hir::HirExpr;
use crate::list::List;
use crate::span::Span;
use crate::syntax::Linearity;
use crate::ty::{TyId, TyKind};

verus! {

broadcast use group_grown;

/// Whether `ty` is a declared type that is `linear`.
pub open spec fn linear(ic: Ic, ty: TyId) -> bool {
    match ic.kind(ty) {
        TyKind::Nominal(id) => match ic.ty_cx.layout(id) {
            Some(info) => info.linearity == Some(Linearity::Linear),
            None => false,
        },
        _ => false,
    }
}

/// Whether `ty` is a declared type that is `linear`.
pub fn is_linear_type(ty: TyId, ic: &InferCx<'_>) -> (r: bool)
    ensures
        r == linear(ic@, ty),
{
    match ic.kind(ty) {
        TyKind::Nominal(id) => match ic.ty_cx.type_decl(id) {
            Some(info) => info.linearity == Some(Linearity::Linear),
            None => false,
        },
        _ => false,
    }
}

/// A valid `linear` binding that `expr` names is consumed.
#[verifier::opaque]
pub open spec fn moved_out(env: TyEnv, expr: HirExpr, ic: Ic) -> TyEnv {
    match bound_name(expr) {
        Some(name) => match env.find(name) {
            Some(bound) => if linear(ic, bound.ty) && bound.state is Valid {
                env.moved(name, BindingState::Consumed)
            } else {
                env
            },
            None => env,
        },
        None => env,
    }
}

/// Consume a valid `linear` binding that `expr` names.
pub fn consume_moved_linear(env: &mut TyEnv, expr: &HirExpr, ic: &InferCx<'_>)
    ensures
        *final(env) == moved_out(*old(env), *expr, ic@),
        final(env).frames() == old(env).frames(),
{
    proof {
        reveal(moved_out);
    }
    let sym = match path_binding(expr) {
        Some(sym) => sym,
        None => {
            return;
        },
    };
    let ty = match env.lookup(sym) {
        Some(ty) => ty,
        None => {
            return;
        },
    };
    if !is_linear_type(ty, ic) {
        return;
    }
    match env.lookup_state(sym) {
        Some(state) => {
            if state.is_readable() {
                env.transition(sym, BindingState::Consumed);
            }
        },
        None => {},
    }
}

/// Report each valid `linear` binding of a frame.
pub open spec fn leaks(frame: List<Bound>, span: Span, ic: Ic) -> Ic
    decreases frame,
{
    match frame {
        List::Nil => ic,
        List::Cons(b, rest) => if b.state is Valid && linear(ic, b.ty) {
            leaks(*rest, span, ic.error(span, Message::LinearUnconsumed { name: b.name }))
        } else {
            leaks(*rest, span, ic)
        },
    }
}

/// A frame that is closed may hold no valid `linear` binding.
#[verifier::opaque]
pub open spec fn frame_leaks(env: TyEnv, span: Span, ic: Ic) -> Ic {
    leaks(env.top, span, ic)
}

fn report_leaks(frame: &List<Bound>, span: Span, ic: &mut InferCx<'_>)
    ensures
        final(ic)@ == leaks(*frame, span, old(ic)@),
        kept(old(ic)@, final(ic)@),
    decreases frame,
{
    match frame {
        List::Nil => {},
        List::Cons(b, rest) => {
            if b.state.is_readable() && is_linear_type(b.ty, ic) {
                ic.emit_typecheck_error(span, Message::LinearUnconsumed { name: b.name });
            }
            report_leaks(rest, span, ic);
        },
    }
}

/// Report the valid `linear` bindings of the innermost frame.
pub fn check_block_exit_linear(env: &TyEnv, span: Span, ic: &mut InferCx<'_>)
    ensures
        final(ic)@ == frame_leaks(*env, span, old(ic)@),
        kept(old(ic)@, final(ic)@),
{
    proof {
        reveal(frame_leaks);
    }
    report_leaks(&env.top, span, ic);
}

} // verus!
