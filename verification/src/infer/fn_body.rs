//! Function bodies.

use vstd::prelude::*;

use super::block::{synth_block, synth_block_rule};
use super::cx::{extends, group_grown, grown, kept, Ic, InferCx};
use super::env::TyEnv;
use super::judge::{judged, sound, Judged};
use super::mode::exit::{check_fn_body_exit, exit_reports};
use super::row_acc::EffectAcc;
use crate::diag::{DiagnosticClass, Message};
use crate::effect::{canonical, lists, EffectEntry, EffectRow, PureEffect};
use crate::hir::HirBlock;
use crate::intern::Symbol;
use crate::list::List;
use crate::span::Span;
use crate::ty::TyId;

verus! {

broadcast use group_grown;

/// How a function is declared, as far as its body is checked against it.
pub struct FnContext {
    /// The declared effect row.
    pub declared: EffectRow,
    /// The return type.
    pub return_ty: TyId,
    /// Where findings at the exit are reported.
    pub exit_span: Span,
    /// Whether the function is recursive without a measure.
    pub inject_divergence: bool,
    /// The `take` parameters.
    pub take_params: List<Symbol>,
}

/// Class and text of the report on an effect that is not declared.
pub open spec fn missing_effect(entry: EffectEntry, declared: EffectRow, inject: bool) -> (
    DiagnosticClass,
    Message,
) {
    if entry == EffectEntry::Pure(PureEffect::Divergence) {
        if inject {
            (DiagnosticClass::TerminationUnproven, Message::TerminationUnproven { declared })
        } else {
            (DiagnosticClass::DivergenceNotAdmitted, Message::DivergenceNotAdmitted { declared })
        }
    } else {
        (DiagnosticClass::EffectRowMismatch, Message::EffectNotDeclared { entry, declared })
    }
}

/// The reports on the entries that are not declared, in order.
pub open spec fn missing_effects(
    entries: List<EffectEntry>,
    declared: EffectRow,
    span: Span,
    inject: bool,
    ic: Ic,
) -> Ic
    decreases entries,
{
    match entries {
        List::Nil => ic,
        List::Cons(head, tail) => {
            let after = if lists(declared.list, *head) {
                ic
            } else {
                let (class, message) = missing_effect(*head, declared, inject);
                ic.emit(class, span, message)
            };
            missing_effects(*tail, declared, span, inject, after)
        },
    }
}

/// Every effect of the body must be declared.
#[verifier::opaque]
pub open spec fn containment(declared: EffectRow, span: Span, inject: bool, ic: Ic) -> Ic {
    missing_effects(canonical(ic.row), declared, span, inject, ic)
}

/// The context at the start of a body.
pub open spec fn body_entered(f: FnContext, ic: Ic) -> Ic {
    let start = Ic {
        declared_row: f.declared,
        row: Seq::empty(),
        return_ty: f.return_ty,
        ..ic
    };
    if f.inject_divergence {
        start.perform(EffectEntry::Pure(PureEffect::Divergence))
    } else {
        start
    }
}

/// A function body: its states at the exit and its effects are checked, and
/// the settings of the enclosing function are put back.
#[verifier::opaque]
pub open spec fn fn_body_rule(env: TyEnv, body: HirBlock, f: FnContext, ic: Ic) -> Judged<HirBlock>
    decreases body, 2nat,
{
    let b = synth_block_rule(env, body, body_entered(f, ic));
    let exited = exit_reports(b.env, b.ic, f.exit_span, f.take_params);
    let checked = containment(f.declared, f.exit_span, f.inject_divergence, exited);
    judged(
        b.env,
        Ic {
            declared_row: ic.declared_row,
            row: ic.row,
            return_ty: ic.return_ty,
            ..checked
        },
        b.node,
        b.ty,
    )
}

fn project_missing(entry: EffectEntry, declared: &EffectRow, inject: bool) -> (r: (
    DiagnosticClass,
    Message,
))
    ensures
        r == missing_effect(entry, *declared, inject),
{
    match entry {
        EffectEntry::Pure(PureEffect::Divergence) => {
            if inject {
                (
                    DiagnosticClass::TerminationUnproven,
                    Message::TerminationUnproven { declared: declared.dup() },
                )
            } else {
                (
                    DiagnosticClass::DivergenceNotAdmitted,
                    Message::DivergenceNotAdmitted { declared: declared.dup() },
                )
            }
        },
        _ => (
            DiagnosticClass::EffectRowMismatch,
            Message::EffectNotDeclared { entry, declared: declared.dup() },
        ),
    }
}

fn report_missing(
    entries: &List<EffectEntry>,
    declared: &EffectRow,
    span: Span,
    inject: bool,
    ic: &mut InferCx<'_>,
)
    ensures
        final(ic)@ == missing_effects(*entries, *declared, span, inject, old(ic)@),
        kept(old(ic)@, final(ic)@),
    decreases entries,
{
    match entries {
        List::Nil => {},
        List::Cons(head, tail) => {
            if !declared.contains(head) {
                let (class, message) = project_missing(**head, declared, inject);
                ic.emit_diagnostic(class, span, message);
            }
            report_missing(tail, declared, span, inject, ic);
        },
    }
}

fn check_row_containment(ic: &mut InferCx<'_>, declared: &EffectRow, exit_span: Span, inject: bool)
    ensures
        final(ic)@ == containment(*declared, exit_span, inject, old(ic)@),
        kept(old(ic)@, final(ic)@),
{
    proof {
        reveal(containment);
    }
    let actual = ic.row.to_row();
    report_missing(&actual.list, declared, exit_span, inject, ic);
}

/// Check a function body.
pub fn check_fn_body(env: &mut TyEnv, body: &mut HirBlock, f: &FnContext, ic: &mut InferCx<'_>) -> (r:
    TyId)
    ensures
        judged(*final(env), final(ic)@, *final(body), r) == fn_body_rule(
            *old(env),
            *old(body),
            *f,
            old(ic)@,
        ),
        sound(*old(env), old(ic)@, *final(env), final(ic)@),
    decreases *old(body), 2nat,
{
    proof {
        reveal(fn_body_rule);
        reveal(synth_block_rule);
    }
    let ghost before = ic@;
    let mut prev_declared = f.declared.dup();
    core::mem::swap(&mut ic.declared_row, &mut prev_declared);
    let mut prev_row = EffectAcc::new();
    core::mem::swap(&mut ic.row, &mut prev_row);
    let prev_return_ty = ic.fn_return_ty;
    ic.fn_return_ty = f.return_ty;
    let ghost start = ic@;
    if f.inject_divergence {
        ic.push_effect_entry(EffectEntry::Pure(PureEffect::Divergence));
    }
    let ty = synth_block(env, body, ic);
    check_fn_body_exit(env, ic, f.exit_span, &f.take_params);
    check_row_containment(ic, &f.declared, f.exit_span, f.inject_divergence);
    let ghost last = ic@;
    ic.declared_row = prev_declared;
    ic.row = prev_row;
    ic.fn_return_ty = prev_return_ty;
    proof {
        assert(grown(start.log(), last.log()));
        reveal(grown);
        assert(extends(before.row, ic@.row));
    }
    ty
}

} // verus!
