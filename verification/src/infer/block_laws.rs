//! Laws of blocks and of the consumption of `linear` values.

use vstd::prelude::*;

use super::block::{infer_stmts_rule, synth_block_rule};
use super::cx::Ic;
use super::diverge_laws::expr_of;
use super::env::{frame_find, Bound, TyEnv};
use super::expr::{synth_control_rule, synth_expr_rule};
use super::mode::linear::{frame_leaks, leaks, linear, moved_out};
use crate::diag::{severity_of, DiagnosticClass, Message};
use crate::hir::{HirBlock, HirExprKind};
use crate::intern::Symbol;
use crate::list::List;
use crate::prim::Primitive;
use crate::span::Span;
use crate::ty::TyId;

verus! {

/// A block has the type of its last expression, or the unit type; what it
/// performs is what its statements and that expression perform.
pub proof fn law_block(env: TyEnv, block: HirBlock, span: Span, ic: Ic)
    ensures
        ({
            let s = infer_stmts_rule(env.entered(), block.stmts, ic);
            let j = synth_expr_rule(env, expr_of(HirExprKind::Block(Box::new(block)), span), ic);
            match block.trailing {
                Some(e) => {
                    let t = synth_expr_rule(s.env, e, s.ic);
                    let end = moved_out(t.env, t.node, t.ic);
                    &&& j.ty == t.ty
                    &&& j.env == end.exited()
                    &&& j.ic == frame_leaks(end, block.span, t.ic)
                },
                None => {
                    &&& j.ty == TyId::Prim(Primitive::Unit)
                    &&& j.env == s.env.exited()
                    &&& j.ic == frame_leaks(s.env, block.span, s.ic)
                },
            }
        }),
{
    reveal(synth_expr_rule);
    reveal(synth_control_rule);
    reveal(synth_block_rule);
    reveal(infer_stmts_rule);
    let expr = expr_of(HirExprKind::Block(Box::new(block)), span);
    assert(synth_expr_rule(env, expr, ic) == synth_control_rule(env, expr, ic));
    let b = synth_block_rule(env, block, ic);
}

/// Whether a binding of the frame is valid and `linear`.
pub open spec fn holds_linear(frame: List<Bound>, ic: Ic) -> bool
    decreases frame,
{
    match frame {
        List::Nil => false,
        List::Cons(b, rest) => (b.state is Valid && linear(ic, b.ty)) || holds_linear(*rest, ic),
    }
}

/// Closing a frame reports where a binding of it is still valid and `linear`,
/// and only there; it changes nothing else.
pub proof fn law_leaks(frame: List<Bound>, span: Span, ic: Ic)
    ensures
        ({
            let after = leaks(frame, span, ic);
            let heard = severity_of(ic.lints.levels, DiagnosticClass::TypecheckError) is Some;
            &&& after == Ic { diags: after.diags, ..ic }
            &&& after.diags.len() >= ic.diags.len()
            &&& holds_linear(frame, ic) && heard ==> after.diags.len() > ic.diags.len()
            &&& !holds_linear(frame, ic) ==> after == ic
        }),
    decreases frame,
{
    match frame {
        List::Nil => {},
        List::Cons(b, rest) => {
            let next = ic.error(span, Message::LinearUnconsumed { name: b.name });
            law_leaks(*rest, span, next);
            law_leaks(*rest, span, ic);
        },
    }
}

proof fn lemma_held(frame: List<Bound>, ic: Ic, x: Symbol)
    ensures
        (frame_find(frame, x) matches Some(b) ==> b.state is Valid && linear(ic, b.ty)
            ==> holds_linear(frame, ic)),
    decreases frame,
{
    match frame {
        List::Nil => {},
        List::Cons(_, rest) => lemma_held(*rest, ic, x),
    }
}

/// A `linear` value that is still valid where its block ends is reported.
pub proof fn law_block_leak(env: TyEnv, block: HirBlock, span: Span, ic: Ic, x: Symbol, b: Bound)
    requires
        block.trailing is None,
    ensures
        ({
            let s = infer_stmts_rule(env.entered(), block.stmts, ic);
            let j = synth_expr_rule(env, expr_of(HirExprKind::Block(Box::new(block)), span), ic);
            let heard = severity_of(s.ic.lints.levels, DiagnosticClass::TypecheckError) is Some;
            frame_find(s.env.top, x) == Some(b) && b.state is Valid && linear(s.ic, b.ty) && heard
                ==> j.ic.diags.len() > s.ic.diags.len()
        }),
{
    law_block(env, block, span, ic);
    let s = infer_stmts_rule(env.entered(), block.stmts, ic);
    reveal(frame_leaks);
    law_leaks(s.env.top, block.span, s.ic);
    lemma_held(s.env.top, s.ic, x);
}

} // verus!
