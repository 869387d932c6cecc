//! Laws of reports and of requests.

use vstd::prelude::*;

use super::cx::{requested, Ic};
use crate::diag::{severity_of, Diagnostic, DiagnosticClass, Message};
use crate::effect::EffectEntry;
use crate::implicit_spec::ImplicitSpec;
use crate::span::Span;
use crate::ty::TyId;

verus! {

/// A report is added behind the others, with its class, place and message and
/// the severity of its class; where the class is switched off nothing is
/// added.
pub proof fn law_emit(ic: Ic, class: DiagnosticClass, span: Span, message: Message)
    ensures
        ({
            let after = ic.emit(class, span, message);
            let heard = severity_of(ic.lints.levels, class);
            &&& after == Ic { diags: after.diags, ..ic }
            &&& ic.diags.is_prefix_of(after.diags)
            &&& heard is None ==> after.diags == ic.diags
            &&& heard matches Some(severity) ==> after.diags.len() == ic.diags.len() + 1
                && after.diags.last() == Diagnostic { class, severity, span, message }
        }),
        ic.error(span, message) == ic.emit(DiagnosticClass::TypecheckError, span, message),
{
}

/// An effect that is performed is in the row, behind what was there.
pub proof fn law_perform(ic: Ic, e: EffectEntry, other: EffectEntry)
    ensures
        ({
            let after = ic.perform(e);
            &&& after == Ic { row: after.row, ..ic }
            &&& ic.row.is_prefix_of(after.row)
            &&& after.row.contains(other) <==> other == e || ic.row.contains(other)
        }),
{
    let after = ic.perform(e);
    assert(after.row[ic.row.len() as int] == e);
    if ic.row.contains(other) {
        let i = choose|i: int| 0 <= i < ic.row.len() && ic.row[i] == other;
        assert(after.row[i] == other);
    }
    if after.row.contains(other) && other != e {
        let i = choose|i: int| 0 <= i < after.row.len() && after.row[i] == other;
        assert(ic.row[i] == other);
    }
}

/// What is needed is requested once: a first request is added, a second
/// changes nothing, and other requests stay as they are.
pub proof fn law_need(
    ic: Ic,
    kind: ImplicitSpec,
    ty: TyId,
    span: Span,
    again: Span,
    other_kind: ImplicitSpec,
    other: TyId,
)
    ensures
        ({
            let after = ic.need(kind, ty, span);
            &&& after == Ic { specs: after.specs, ..ic }
            &&& requested(after.specs, kind, ty)
            &&& after.need(kind, ty, again) == after
            &&& requested(ic.specs, kind, ty) ==> after == ic
            &&& !requested(ic.specs, kind, ty) ==> after.specs.len() == ic.specs.len() + 1
            &&& other_kind != kind || other != ty ==> (requested(after.specs, other_kind, other)
                <==> requested(ic.specs, other_kind, other))
        }),
{
    let after = ic.need(kind, ty, span);
    if !requested(ic.specs, kind, ty) {
        let n = ic.specs.len() as int;
        assert(after.specs[n].kind == kind && after.specs[n].type_arg == ty);
        assert(requested(after.specs, kind, ty));
        if requested(ic.specs, other_kind, other) {
            let i = choose|i: int|
                0 <= i < ic.specs.len() && (#[trigger] ic.specs[i]).kind == other_kind
                    && ic.specs[i].type_arg == other;
            assert(after.specs[i] == ic.specs[i]);
        }
        if (other_kind != kind || other != ty) && requested(after.specs, other_kind, other) {
            let i = choose|i: int|
                0 <= i < after.specs.len() && (#[trigger] after.specs[i]).kind == other_kind
                    && after.specs[i].type_arg == other;
            assert(after.specs[i] == ic.specs[i]);
        }
    }
}

} // verus!
