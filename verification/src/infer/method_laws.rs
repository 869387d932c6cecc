//! Laws of method resolution.

use vstd::prelude::*;

use super::cx::Ic;
use super::method::{method_sig, method_target, MethodTarget};
use crate::capability::CapabilityType;
use crate::cx::SigEntry;
use crate::intern::Symbol;
use crate::intrinsic::{law_capability_catalogue, CapabilityMethod, IntrinsicKind};
use crate::list::List;
use crate::package::ResolvedPackage;
use crate::prim::Primitive;
use crate::ty::{TyId, TyKind};

verus! {

/// Whether an entry is a function of that name whose first parameter has the
/// type `ty`.
pub open spec fn is_method(
    entry: SigEntry,
    package: ResolvedPackage,
    name: Symbol,
    ty: TyId,
) -> bool {
    match (package.entry(entry.id), entry.sig.params) {
        (Some(binding), List::Cons(first, _)) => binding.name == name && first.ty == ty,
        _ => false,
    }
}

/// Whether an entry is in the list.
pub open spec fn has_entry(sigs: List<SigEntry>, entry: SigEntry) -> bool
    decreases sigs,
{
    match sigs {
        List::Nil => false,
        List::Cons(head, rest) => *head == entry || has_entry(*rest, entry),
    }
}

proof fn lemma_method_sig(sigs: List<SigEntry>, package: ResolvedPackage, name: Symbol, ty: TyId)
    ensures
        match method_sig(sigs, package, name, ty) {
            Some((id, sig)) => exists|entry: SigEntry| #[trigger]
                has_entry(sigs, entry) && entry.id == id && entry.sig == sig && is_method(
                    entry,
                    package,
                    name,
                    ty,
                ),
            None => forall|entry: SigEntry| #[trigger]
                has_entry(sigs, entry) ==> !is_method(entry, package, name, ty),
        },
    decreases sigs,
{
    match sigs {
        List::Nil => {},
        List::Cons(head, rest) => {
            lemma_method_sig(*rest, package, name, ty);
            assert(has_entry(sigs, *head));
            if !is_method(*head, package, name, ty) {
                match method_sig(*rest, package, name, ty) {
                    Some((id, sig)) => {
                        let entry = choose|entry: SigEntry| #[trigger]
                            has_entry(*rest, entry) && entry.id == id && entry.sig == sig
                                && is_method(entry, package, name, ty);
                        assert(has_entry(sigs, entry));
                    },
                    None => {
                        assert forall|entry: SigEntry| #[trigger]
                            has_entry(sigs, entry) implies !is_method(entry, package, name, ty) by {
                            assert(*head == entry || has_entry(*rest, entry));
                        }
                    },
                }
            }
        },
    }
}

/// `bytes` of a text and `len` of a slice come first, then the methods of a
/// capability, then a function of that name whose first parameter has the type
/// of the receiver. Where there is none of these the method is unknown.
pub proof fn law_method_resolution(name: Symbol, ty: TyId, ic: Ic)
    ensures
        ({
            let target = method_target(name, ty, ic);
            let text = ic.text(name);
            let kind = ic.kind(ty);
            &&& kind == TyKind::Primitive(Primitive::String) && text == "bytes"@ ==> target
                == MethodTarget::Intrinsic(IntrinsicKind::StringBytes)
            &&& kind is Slice && text == "len"@ ==> target == MethodTarget::Intrinsic(
                IntrinsicKind::SliceLen,
            )
            &&& kind == TyKind::Capability(CapabilityType::Allocator) && text == "alloc_array"@
                ==> target == MethodTarget::Capability(CapabilityMethod::AllocatorAllocArray)
            &&& kind == TyKind::Capability(CapabilityType::Allocator) && text == "fork"@ ==> target
                == MethodTarget::Capability(CapabilityMethod::AllocatorFork)
            &&& kind is Nominal && ic.package is Some ==> match target {
                MethodTarget::Function(id, sig) => exists|entry: SigEntry| #[trigger]
                    has_entry(ic.ty_cx.sigs, entry) && entry.id == id && entry.sig == sig
                        && is_method(entry, ic.package->0, name, ty),
                MethodTarget::Unresolved => forall|entry: SigEntry| #[trigger]
                    has_entry(ic.ty_cx.sigs, entry) ==> !is_method(entry, ic.package->0, name, ty),
                _ => false,
            }
            &&& kind is Nominal && ic.package is None ==> target is Unresolved
        }),
{
    reveal(method_target);
    match ic.package {
        Some(package) => lemma_method_sig(ic.ty_cx.sigs, package, name, ty),
        None => {},
    }
    law_capability_catalogue(
        CapabilityType::Allocator,
        ic.text(name),
        CapabilityMethod::AllocatorAllocArray,
    );
    law_capability_catalogue(
        CapabilityType::Allocator,
        ic.text(name),
        CapabilityMethod::AllocatorFork,
    );
}

} // verus!
