//! Which capability of the caller a callee's capability stands for.

use vstd::prelude::*;

use super::super::cx::{group_grown, kept, Ic, InferCx};
use crate::effect::EffectEntry;
use crate::hir::{HirCallArg, HirExpr, HirExprKind};
use crate::intern::Symbol;
use crate::list::List;
use crate::sig::Param;

verus! {

broadcast use group_grown;

/// Greatest number of derivation steps that are traced.
pub const CAPABILITY_DERIVATION_DEPTH: usize = 32;

/// The binding that a capability comes from: a name stands for itself, a field
/// and a method call come from their receiver, any other call from its first
/// argument.
pub open spec fn source_within(expr: HirExpr, depth: nat) -> Option<Symbol>
    decreases depth,
{
    if depth == 0 {
        None
    } else {
        let less = (depth - 1) as nat;
        match expr.kind {
            HirExprKind::Path(path) => path.single(),
            HirExprKind::Field(access) => source_within(access.receiver, less),
            HirExprKind::MethodCall(call) => source_within(call.receiver, less),
            HirExprKind::Call(call) => match call.callee.kind {
                HirExprKind::Field(access) => source_within(access.receiver, less),
                _ => match call.args {
                    List::Cons(first, _) => source_within(first.expr, less),
                    List::Nil => None,
                },
            },
            _ => None,
        }
    }
}

/// The binding that a capability comes from.
#[verifier::opaque]
pub open spec fn source(expr: HirExpr) -> Option<Symbol> {
    source_within(expr, CAPABILITY_DERIVATION_DEPTH as nat)
}

/// The binding that the capability made by a call comes from; no other
/// expression makes one.
#[verifier::opaque]
pub open spec fn call_source(expr: HirExpr) -> Option<Symbol> {
    match expr.kind {
        HirExprKind::MethodCall(_) | HirExprKind::Call(_) => source(expr),
        _ => None,
    }
}

fn capability_source_depth(expr: &HirExpr, depth: usize) -> (r: Option<Symbol>)
    ensures
        r == source_within(*expr, depth as nat),
    decreases depth,
{
    if depth == 0 {
        return None;
    }
    match &expr.kind {
        HirExprKind::Path(path) => path.as_single(),
        HirExprKind::Field(access) => capability_source_depth(&access.receiver, depth - 1),
        HirExprKind::MethodCall(call) => capability_source_depth(&call.receiver, depth - 1),
        HirExprKind::Call(call) => match &call.callee.kind {
            HirExprKind::Field(access) => capability_source_depth(&access.receiver, depth - 1),
            _ => match &call.args {
                List::Cons(first, _) => capability_source_depth(&first.expr, depth - 1),
                List::Nil => None,
            },
        },
        _ => None,
    }
}

/// The binding that a capability comes from.
pub fn capability_source(expr: &HirExpr) -> (r: Option<Symbol>)
    ensures
        r == source(*expr),
{
    proof {
        reveal(source);
    }
    capability_source_depth(expr, CAPABILITY_DERIVATION_DEPTH)
}

/// The binding that the capability made by a call comes from.
pub fn capability_source_of_call(expr: &HirExpr) -> (r: Option<Symbol>)
    ensures
        r == call_source(*expr),
{
    proof {
        reveal(call_source);
    }
    match &expr.kind {
        HirExprKind::MethodCall(_) | HirExprKind::Call(_) => capability_source(expr),
        _ => None,
    }
}

/// The source of the argument for the parameter `name`.
pub open spec fn argument_source(params: List<Param>, args: List<HirCallArg>, name: Symbol) -> Option<
    Symbol,
>
    decreases params,
{
    match (params, args) {
        (List::Cons(p, more), List::Cons(a, rest)) => if p.name == name {
            source(a.expr)
        } else {
            argument_source(*more, *rest, name)
        },
        _ => None,
    }
}

fn find_argument_source(params: &List<Param>, args: &List<HirCallArg>, name: Symbol) -> (r: Option<
    Symbol,
>)
    ensures
        r == argument_source(*params, *args, name),
    decreases params,
{
    match (params, args) {
        (List::Cons(p, more), List::Cons(a, rest)) => if p.name == name {
            capability_source(&a.expr)
        } else {
            find_argument_source(more, rest, name)
        },
        _ => None,
    }
}

/// The source of what the caller hands to the parameter `name`; in a method
/// call the receiver is the first argument.
pub open spec fn parameter_source(
    params: List<Param>,
    receiver: Option<HirExpr>,
    args: List<HirCallArg>,
    name: Symbol,
) -> Option<Symbol> {
    match receiver {
        None => argument_source(params, args, name),
        Some(receiver) => match params {
            List::Nil => None,
            List::Cons(p, more) => if p.name == name {
                source(receiver)
            } else {
                argument_source(*more, args, name)
            },
        },
    }
}

/// A row entry of the callee as the caller sees it: a capability of a
/// parameter becomes the capability that the caller handed over, everything
/// else stays.
pub open spec fn translated(
    entry: EffectEntry,
    params: List<Param>,
    receiver: Option<HirExpr>,
    args: List<HirCallArg>,
    ic: Ic,
) -> EffectEntry {
    match entry {
        EffectEntry::Capability(name) => match parameter_source(params, receiver, args, name) {
            Some(raw) => EffectEntry::Capability(ic.root(raw)),
            None => entry,
        },
        EffectEntry::Pure(_) => entry,
    }
}

/// A row entry of the callee as the caller sees it.
pub fn translate_entry(
    entry: EffectEntry,
    params: &List<Param>,
    receiver: Option<&HirExpr>,
    args: &List<HirCallArg>,
    ic: &InferCx<'_>,
) -> (r: EffectEntry)
    ensures
        r == translated(
            entry,
            *params,
            match receiver {
                Some(e) => Some(*e),
                None => None,
            },
            *args,
            ic@,
        ),
{
    match entry {
        EffectEntry::Capability(name) => {
            let raw = match receiver {
                None => find_argument_source(params, args, name),
                Some(receiver) => match params {
                    List::Nil => None,
                    List::Cons(p, more) => if p.name == name {
                        capability_source(receiver)
                    } else {
                        find_argument_source(more, args, name)
                    },
                },
            };
            match raw {
                Some(raw) => EffectEntry::Capability(ic.capability_root(raw)),
                None => entry,
            }
        },
        EffectEntry::Pure(_) => entry,
    }
}

/// The entries of the callee as the caller sees them.
pub open spec fn translated_all(
    entries: List<EffectEntry>,
    params: List<Param>,
    receiver: Option<HirExpr>,
    args: List<HirCallArg>,
    ic: Ic,
) -> List<EffectEntry>
    decreases entries,
{
    match entries {
        List::Nil => List::Nil,
        List::Cons(head, tail) => List::Cons(
            Box::new(translated(*head, params, receiver, args, ic)),
            Box::new(translated_all(*tail, params, receiver, args, ic)),
        ),
    }
}

/// The entries of the callee as the caller sees them.
pub fn translate_entries(
    entries: &List<EffectEntry>,
    params: &List<Param>,
    receiver: Option<&HirExpr>,
    args: &List<HirCallArg>,
    ic: &InferCx<'_>,
) -> (r: List<EffectEntry>)
    ensures
        r == translated_all(
            *entries,
            *params,
            match receiver {
                Some(e) => Some(*e),
                None => None,
            },
            *args,
            ic@,
        ),
    decreases entries,
{
    match entries {
        List::Nil => List::Nil,
        List::Cons(head, tail) => {
            let first = translate_entry(**head, params, receiver, args, ic);
            List::cons(first, translate_entries(tail, params, receiver, args, ic))
        },
    }
}

impl Ic {
    /// With several effects, in order.
    pub open spec fn perform_all(self, entries: List<EffectEntry>) -> Ic
        decreases entries,
    {
        match entries {
            List::Nil => self,
            List::Cons(head, tail) => self.perform(*head).perform_all(*tail),
        }
    }
}

/// Record several effects, in order.
pub fn push_effect_entries(ic: &mut InferCx<'_>, entries: &List<EffectEntry>)
    ensures
        final(ic)@ == old(ic)@.perform_all(*entries),
        kept(old(ic)@, final(ic)@),
    decreases entries,
{
    match entries {
        List::Nil => {},
        List::Cons(head, tail) => {
            ic.push_effect_entry(**head);
            push_effect_entries(ic, tail);
        },
    }
}

/// A pure effect of a callee is an effect of its caller unchanged, and a
/// capability entry stays a capability entry.
pub proof fn law_translation(
    entry: EffectEntry,
    params: List<Param>,
    receiver: Option<HirExpr>,
    args: List<HirCallArg>,
    ic: Ic,
)
    ensures
        entry is Pure ==> translated(entry, params, receiver, args, ic) == entry,
        entry is Capability ==> translated(entry, params, receiver, args, ic) is Capability,
{
}

} // verus!
