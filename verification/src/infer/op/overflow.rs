//! The `err: Overflow` effect of checked operators.

use vstd::prelude::*;

use super::super::cx::{group_grown, kept, Ic, InferCx};
use crate::diag::Message;
use crate::effect::{EffectEntry, PureEffect};
use crate::list::List;
use crate::span::Span;
use crate::syntax::BinOp;
use crate::ty::{TyId, TyKind};

verus! {

broadcast use group_grown;

/// Whether `ty` is a declared type named `Overflow`.
pub open spec fn named_overflow(ic: Ic, ty: TyId) -> bool {
    match (ic.package, ic.kind(ty)) {
        (Some(package), TyKind::Nominal(id)) => match package.entry(id) {
            Some(entry) => ic.text(entry.name) == "Overflow"@,
            None => false,
        },
        _ => false,
    }
}

/// The type of an entry `err: Overflow`.
pub open spec fn overflow_entry(ic: Ic, entry: EffectEntry) -> Option<TyId> {
    match entry {
        EffectEntry::Pure(PureEffect::Raise(ty)) => if named_overflow(ic, ty) {
            Some(ty)
        } else {
            None
        },
        _ => None,
    }
}

/// The overflow type of the last of `entries` that has one.
pub open spec fn handled_overflow(ic: Ic, entries: Seq<EffectEntry>) -> Option<TyId>
    decreases entries.len(),
{
    if entries.len() == 0 {
        None
    } else {
        match overflow_entry(ic, entries.last()) {
            Some(ty) => Some(ty),
            None => handled_overflow(ic, entries.drop_last()),
        }
    }
}

/// The overflow type of the first of `entries` that has one.
pub open spec fn declared_overflow(ic: Ic, entries: List<EffectEntry>) -> Option<TyId>
    decreases entries,
{
    match entries {
        List::Nil => None,
        List::Cons(head, tail) => match overflow_entry(ic, *head) {
            Some(ty) => Some(ty),
            None => declared_overflow(ic, *tail),
        },
    }
}

/// The overflow type in force: that of the innermost handler of an overflow,
/// else the one that the function declares.
#[verifier::opaque]
pub open spec fn overflow_ty(ic: Ic) -> Option<TyId> {
    match handled_overflow(ic, ic.handled) {
        Some(ty) => Some(ty),
        None => declared_overflow(ic, ic.declared_row.list),
    }
}

/// A checked operation raises the overflow in force, or is reported.
pub open spec fn overflow_step(ic: Ic, span: Span, message: Message) -> Ic {
    match overflow_ty(ic) {
        Some(ty) => ic.perform(EffectEntry::Pure(PureEffect::Raise(ty))),
        None => ic.error(span, message),
    }
}

fn entry_overflow(ic: &InferCx<'_>, entry: EffectEntry) -> (r: Option<TyId>)
    ensures
        r == overflow_entry(ic@, entry),
{
    match entry {
        EffectEntry::Pure(PureEffect::Raise(ty)) => {
            match (ic.lower.package, ic.kind(ty)) {
                (Some(package), TyKind::Nominal(id)) => match package.binding(id) {
                    Some(binding) => {
                        if ic.lower.interner.reads(binding.name, "Overflow") {
                            Some(ty)
                        } else {
                            None
                        }
                    },
                    None => None,
                },
                _ => None,
            }
        },
        _ => None,
    }
}

fn first_overflow(ic: &InferCx<'_>, entries: &List<EffectEntry>) -> (r: Option<TyId>)
    ensures
        r == declared_overflow(ic@, *entries),
    decreases entries,
{
    match entries {
        List::Nil => None,
        List::Cons(head, tail) => match entry_overflow(ic, **head) {
            Some(ty) => Some(ty),
            None => first_overflow(ic, tail),
        },
    }
}

fn find_overflow_ty(ic: &InferCx<'_>) -> (r: Option<TyId>)
    ensures
        r == overflow_ty(ic@),
{
    proof {
        reveal(overflow_ty);
    }
    let mut i: usize = ic.discharged_effects.len();
    assert(ic@.handled.take(i as int) == ic@.handled);
    while i > 0
        invariant
            i <= ic.discharged_effects.len(),
            handled_overflow(ic@, ic@.handled) == handled_overflow(
                ic@,
                ic@.handled.take(i as int),
            ),
        decreases i,
    {
        let ghost part = ic@.handled.take(i as int);
        i -= 1;
        assert(part.drop_last() == ic@.handled.take(i as int));
        match entry_overflow(ic, ic.discharged_effects[i]) {
            Some(ty) => {
                proof {
                    reveal(overflow_ty);
                }
                return Some(ty);
            },
            None => {},
        }
    }
    first_overflow(ic, &ic.declared_row.list)
}

/// Raise the overflow of a checked operator.
pub fn attach_overflow_row(ic: &mut InferCx<'_>, op: BinOp, span: Span)
    ensures
        final(ic)@ == overflow_step(old(ic)@, span, Message::OverflowOperator { op }),
        kept(old(ic)@, final(ic)@),
{
    match find_overflow_ty(ic) {
        Some(ty) => {
            ic.push_effect_entry(EffectEntry::Pure(PureEffect::Raise(ty)));
        },
        None => {
            ic.emit_typecheck_error(span, Message::OverflowOperator { op });
        },
    }
}

/// Raise the overflow of a checked cast.
pub fn attach_overflow_row_for_cast(ic: &mut InferCx<'_>, span: Span)
    ensures
        final(ic)@ == overflow_step(old(ic)@, span, Message::OverflowCast),
        kept(old(ic)@, final(ic)@),
{
    match find_overflow_ty(ic) {
        Some(ty) => {
            ic.push_effect_entry(EffectEntry::Pure(PureEffect::Raise(ty)));
        },
        None => {
            ic.emit_typecheck_error(span, Message::OverflowCast);
        },
    }
}

} // verus!
