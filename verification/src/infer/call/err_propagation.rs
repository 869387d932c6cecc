//! Propagation of errors out of calls.

use vstd::prelude::*;

use super::super::cx::{group_grown, kept, Ic, InferCx};
use crate::diag::{DiagnosticClass, Message};
use crate::effect::{lists, EffectEntry, EffectRow, PureEffect};
use crate::intern::Symbol;
use crate::list::List;
use crate::span::Span;

verus! {

broadcast use group_grown;

/// Whether an enclosing handler takes care of `entry`.
pub fn is_handled(ic: &InferCx<'_>, entry: EffectEntry) -> (r: bool)
    ensures
        r == ic@.handled.contains(entry),
{
    let n: usize = ic.discharged_effects.len();
    let mut i: usize = 0;
    while i < n
        invariant
            n == ic.discharged_effects.len(),
            i <= n,
            forall|j: int| 0 <= j < i ==> ic.discharged_effects@[j] != entry,
        decreases n - i,
    {
        if ic.discharged_effects[i] == entry {
            assert(ic@.handled[i as int] == entry);
            return true;
        }
        i += 1;
    }
    false
}

/// The reports on `entries`: one for each `err: T` that no handler takes care
/// of and that is not in `emitted`.
pub open spec fn unpropagated(
    entries: List<EffectEntry>,
    callee: Symbol,
    span: Span,
    ic: Ic,
    emitted: List<EffectEntry>,
) -> Ic
    decreases entries,
{
    match entries {
        List::Nil => ic,
        List::Cons(head, tail) => match *head {
            EffectEntry::Pure(PureEffect::Raise(ty)) if !ic.handled.contains(*head) && !lists(
                emitted,
                *head,
            ) => unpropagated(
                *tail,
                callee,
                span,
                ic.emit(
                    DiagnosticClass::EffectRowMismatch,
                    span,
                    Message::UnpropagatedError { callee, ty },
                ),
                List::Cons(head, Box::new(emitted)),
            ),
            _ => unpropagated(*tail, callee, span, ic, emitted),
        },
    }
}

/// Every `err: T` of a call must be under a `?` or inside a handler.
#[verifier::opaque]
pub open spec fn propagation_check(
    entries: List<EffectEntry>,
    callee: Symbol,
    span: Span,
    ic: Ic,
) -> Ic {
    if ic.try_depth > 0 {
        ic
    } else {
        unpropagated(entries, callee, span, ic, List::Nil)
    }
}

fn report_unpropagated(
    entries: &List<EffectEntry>,
    callee: Symbol,
    span: Span,
    ic: &mut InferCx<'_>,
    emitted: List<EffectEntry>,
)
    ensures
        final(ic)@ == unpropagated(*entries, callee, span, old(ic)@, emitted),
        kept(old(ic)@, final(ic)@),
    decreases entries,
{
    match entries {
        List::Nil => {},
        List::Cons(head, tail) => {
            let entry = **head;
            match entry {
                EffectEntry::Pure(PureEffect::Raise(ty)) => {
                    let known = EffectRow { list: emitted };
                    if !is_handled(ic, entry) && !known.contains(&entry) {
                        ic.emit_diagnostic(
                            DiagnosticClass::EffectRowMismatch,
                            span,
                            Message::UnpropagatedError { callee, ty },
                        );
                        report_unpropagated(
                            tail,
                            callee,
                            span,
                            ic,
                            List::cons(entry, known.list),
                        );
                    } else {
                        report_unpropagated(tail, callee, span, ic, known.list);
                    }
                },
                _ => {
                    report_unpropagated(tail, callee, span, ic, emitted);
                },
            }
        },
    }
}

/// Report the errors of a call that nothing propagates.
pub fn check_err_propagation(
    translated_entries: &List<EffectEntry>,
    callee_name: Symbol,
    span: Span,
    ic: &mut InferCx<'_>,
)
    ensures
        final(ic)@ == propagation_check(*translated_entries, callee_name, span, old(ic)@),
        kept(old(ic)@, final(ic)@),
{
    proof {
        reveal(propagation_check);
    }
    if ic.try_position_depth > 0 {
        return;
    }
    report_unpropagated(translated_entries, callee_name, span, ic, List::Nil);
}

} // verus!
