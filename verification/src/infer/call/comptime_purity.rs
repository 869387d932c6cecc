//! Purity of calls in compile-time bodies.

use vstd::prelude::*;

use super::super::cx::{group_grown, kept, Ic, InferCx};
use crate::diag::{DiagnosticClass, Message};
use crate::effect::{EffectEntry, EffectRow};
use crate::intern::Symbol;
use crate::list::List;
use crate::span::Span;

verus! {

broadcast use group_grown;

/// The entries that a compile-time body may not perform.
pub open spec fn impure(entries: List<EffectEntry>) -> List<EffectEntry>
    decreases entries,
{
    match entries {
        List::Nil => List::Nil,
        List::Cons(head, tail) => if head.in_comptime_envelope() {
            impure(*tail)
        } else {
            List::Cons(head, Box::new(impure(*tail)))
        },
    }
}

fn impure_entries(entries: &List<EffectEntry>) -> (r: List<EffectEntry>)
    ensures
        r == impure(*entries),
    decreases entries,
{
    match entries {
        List::Nil => List::Nil,
        List::Cons(head, tail) => if head.is_comptime_envelope() {
            impure_entries(tail)
        } else {
            List::cons(**head, impure_entries(tail))
        },
    }
}

/// A call in a compile-time body may only have `panic` and `yield: T` in its
/// row.
#[verifier::opaque]
pub open spec fn purity_check(effects: EffectRow, callee: Symbol, span: Span, ic: Ic) -> Ic {
    let entries = impure(effects.list);
    if entries == List::<EffectEntry>::Nil {
        ic
    } else {
        ic.emit(
            DiagnosticClass::ComptimePurityLoss,
            span,
            Message::ComptimeImpure { callee, entries },
        )
    }
}

/// Report a call that is not pure enough for a compile-time body.
pub fn check_comptime_purity(
    effects: &EffectRow,
    callee_name: Symbol,
    span: Span,
    ic: &mut InferCx<'_>,
)
    ensures
        final(ic)@ == purity_check(*effects, callee_name, span, old(ic)@),
        kept(old(ic)@, final(ic)@),
{
    proof {
        reveal(purity_check);
    }
    let entries = impure_entries(&effects.list);
    if entries.is_empty() {
        return;
    }
    ic.emit_diagnostic(
        DiagnosticClass::ComptimePurityLoss,
        span,
        Message::ComptimeImpure { callee: callee_name, entries },
    );
}

} // verus!
