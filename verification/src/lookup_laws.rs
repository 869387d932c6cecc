//! Laws of the tables: what is found is what was recorded first.

use vstd::prelude::*;

use crate::cx::{
    const_for, decl_for, field_named, fields_missing, names_has, payload_named, sig_for, ConstEntry,
    FieldInfo, SigEntry, TypeDeclEntry, VariantInfo,
};
use crate::diag::{severity_of, DiagnosticClass, LintLevel, Severity};
use crate::intern::Symbol;
use crate::list::List;
use crate::package::{
    item_in, item_index, mono_named, resolution_at, ItemEntry, Module, MonoName, Resolution,
};
use crate::sig::{unnamed, FnPtrParam, Param};
use crate::span::Span;
use crate::ty::{BindingId, ModuleId};

verus! {

/// Whether the entry at position `k` is for `id`.
pub open spec fn sig_at(list: List<SigEntry>, id: BindingId, k: nat) -> bool {
    match list.nth(k) {
        Some(e) => e.id == id,
        None => false,
    }
}

/// A signature that is recorded for an item is found under its key, the first
/// that is recorded; nothing is found under a key that nothing is recorded for.
pub proof fn law_sig_found(list: List<SigEntry>, id: BindingId, k: nat)
    ensures
        sig_at(list, id, k) && (forall|j: nat| j < k ==> !#[trigger] sig_at(list, id, j))
            ==> sig_for(list, id) == (match list.nth(k) {
            Some(e) => Some(e.sig),
            None => None,
        }),
        (forall|j: nat| !#[trigger] sig_at(list, id, j)) ==> sig_for(list, id) is None,
    decreases list,
{
    match list {
        List::Nil => {},
        List::Cons(e, rest) => {
            law_sig_found(*rest, id, if k > 0 {
                (k - 1) as nat
            } else {
                0
            });
            assert(sig_at(list, id, 0) == (e.id == id));
            assert forall|j: nat| #[trigger] sig_at(*rest, id, j) == sig_at(list, id, j + 1) by {
                assert((j + 1 - 1) as nat == j);
            }
        },
    }
}

/// Whether the entry at position `k` is for `id`.
pub open spec fn const_at(list: List<ConstEntry>, id: BindingId, k: nat) -> bool {
    match list.nth(k) {
        Some(e) => e.id == id,
        None => false,
    }
}

/// A type that is recorded for a constant is found under its key, the first
/// that is recorded; nothing is found under a key that nothing is recorded for.
pub proof fn law_const_found(list: List<ConstEntry>, id: BindingId, k: nat)
    ensures
        const_at(list, id, k) && (forall|j: nat| j < k ==> !#[trigger] const_at(list, id, j))
            ==> const_for(list, id) == (match list.nth(k) {
            Some(e) => Some(e.ty),
            None => None,
        }),
        (forall|j: nat| !#[trigger] const_at(list, id, j)) ==> const_for(list, id) is None,
    decreases list,
{
    match list {
        List::Nil => {},
        List::Cons(e, rest) => {
            law_const_found(*rest, id, if k > 0 {
                (k - 1) as nat
            } else {
                0
            });
            assert(const_at(list, id, 0) == (e.id == id));
            assert forall|j: nat| #[trigger] const_at(*rest, id, j) == const_at(
                list,
                id,
                j + 1,
            ) by {
                assert((j + 1 - 1) as nat == j);
            }
        },
    }
}

/// Whether the entry at position `k` is for `id`.
pub open spec fn decl_at(list: List<TypeDeclEntry>, id: BindingId, k: nat) -> bool {
    match list.nth(k) {
        Some(e) => e.id == id,
        None => false,
    }
}

/// A layout that is recorded for a type is found under its key, the first that
/// is recorded; nothing is found under a key that nothing is recorded for.
pub proof fn law_decl_found(list: List<TypeDeclEntry>, id: BindingId, k: nat)
    ensures
        decl_at(list, id, k) && (forall|j: nat| j < k ==> !#[trigger] decl_at(list, id, j))
            ==> decl_for(list, id) == (match list.nth(k) {
            Some(e) => Some(e.info),
            None => None,
        }),
        (forall|j: nat| !#[trigger] decl_at(list, id, j)) ==> decl_for(list, id) is None,
    decreases list,
{
    match list {
        List::Nil => {},
        List::Cons(e, rest) => {
            law_decl_found(*rest, id, if k > 0 {
                (k - 1) as nat
            } else {
                0
            });
            assert(decl_at(list, id, 0) == (e.id == id));
            assert forall|j: nat| #[trigger] decl_at(*rest, id, j) == decl_at(list, id, j + 1) by {
                assert((j + 1 - 1) as nat == j);
            }
        },
    }
}

/// Whether the entry at position `k` is for `name`.
pub open spec fn field_at(list: List<FieldInfo>, name: Symbol, k: nat) -> bool {
    match list.nth(k) {
        Some(e) => e.name == name,
        None => false,
    }
}

/// A field is found under its key, the first that is recorded; nothing is found
/// under a key that nothing is recorded for.
pub proof fn law_field_found(list: List<FieldInfo>, name: Symbol, k: nat)
    ensures
        field_at(list, name, k) && (forall|j: nat| j < k ==> !#[trigger] field_at(list, name, j))
            ==> field_named(list, name) == (match list.nth(k) {
            Some(e) => Some(e),
            None => None,
        }),
        (forall|j: nat| !#[trigger] field_at(list, name, j)) ==> field_named(list, name) is None,
    decreases list,
{
    match list {
        List::Nil => {},
        List::Cons(e, rest) => {
            law_field_found(*rest, name, if k > 0 {
                (k - 1) as nat
            } else {
                0
            });
            assert(field_at(list, name, 0) == (e.name == name));
            assert forall|j: nat| #[trigger] field_at(*rest, name, j) == field_at(
                list,
                name,
                j + 1,
            ) by {
                assert((j + 1 - 1) as nat == j);
            }
        },
    }
}

/// Whether the entry at position `k` is for `name`.
pub open spec fn payload_at(list: List<VariantInfo>, name: Symbol, k: nat) -> bool {
    match list.nth(k) {
        Some(e) => e.name == name,
        None => false,
    }
}

/// A variant's payload is found under its key, the first that is recorded; nothing is found
/// under a key that nothing is recorded for.
pub proof fn law_payload_found(list: List<VariantInfo>, name: Symbol, k: nat)
    ensures
        payload_at(list, name, k) && (forall|j: nat| j < k ==> !#[trigger] payload_at(list, name, j))
            ==> payload_named(list, name) == (match list.nth(k) {
            Some(e) => Some(e.payload),
            None => None,
        }),
        (forall|j: nat| !#[trigger] payload_at(list, name, j)) ==> payload_named(list, name) is None,
    decreases list,
{
    match list {
        List::Nil => {},
        List::Cons(e, rest) => {
            law_payload_found(*rest, name, if k > 0 {
                (k - 1) as nat
            } else {
                0
            });
            assert(payload_at(list, name, 0) == (e.name == name));
            assert forall|j: nat| #[trigger] payload_at(*rest, name, j) == payload_at(
                list,
                name,
                j + 1,
            ) by {
                assert((j + 1 - 1) as nat == j);
            }
        },
    }
}

/// Whether the entry at position `k` is for `span`.
pub open spec fn resolved_at(list: List<Resolution>, span: Span, k: nat) -> bool {
    match list.nth(k) {
        Some(e) => e.span == span,
        None => false,
    }
}

/// What a path stands for is found under its key, the first that is recorded; nothing is found
/// under a key that nothing is recorded for.
pub proof fn law_resolution_found(list: List<Resolution>, span: Span, k: nat)
    ensures
        resolved_at(list, span, k) && (forall|j: nat| j < k ==> !#[trigger] resolved_at(list, span, j))
            ==> resolution_at(list, span) == (match list.nth(k) {
            Some(e) => Some(e.target),
            None => None,
        }),
        (forall|j: nat| !#[trigger] resolved_at(list, span, j)) ==> resolution_at(list, span) is None,
    decreases list,
{
    match list {
        List::Nil => {},
        List::Cons(e, rest) => {
            law_resolution_found(*rest, span, if k > 0 {
                (k - 1) as nat
            } else {
                0
            });
            assert(resolved_at(list, span, 0) == (e.span == span));
            assert forall|j: nat| #[trigger] resolved_at(*rest, span, j) == resolved_at(
                list,
                span,
                j + 1,
            ) by {
                assert((j + 1 - 1) as nat == j);
            }
        },
    }
}

/// Whether the entry at position `k` is for `name`.
pub open spec fn item_at(list: List<ItemEntry>, name: Symbol, k: nat) -> bool {
    match list.nth(k) {
        Some(e) => e.name == name,
        None => false,
    }
}

/// The index of an item is found under its key, the first that is recorded; nothing is found
/// under a key that nothing is recorded for.
pub proof fn law_item_found(list: List<ItemEntry>, name: Symbol, k: nat)
    ensures
        item_at(list, name, k) && (forall|j: nat| j < k ==> !#[trigger] item_at(list, name, j))
            ==> item_index(list, name) == (match list.nth(k) {
            Some(e) => Some(e.index),
            None => None,
        }),
        (forall|j: nat| !#[trigger] item_at(list, name, j)) ==> item_index(list, name) is None,
    decreases list,
{
    match list {
        List::Nil => {},
        List::Cons(e, rest) => {
            law_item_found(*rest, name, if k > 0 {
                (k - 1) as nat
            } else {
                0
            });
            assert(item_at(list, name, 0) == (e.name == name));
            assert forall|j: nat| #[trigger] item_at(*rest, name, j) == item_at(
                list,
                name,
                j + 1,
            ) by {
                assert((j + 1 - 1) as nat == j);
            }
        },
    }
}

/// Whether the entry at position `k` is for `name`.
pub open spec fn mono_at(list: List<MonoName>, name: Symbol, k: nat) -> bool {
    match list.nth(k) {
        Some(e) => e.name == name,
        None => false,
    }
}

/// A monomorphic function is found under its key, the first that is recorded; nothing is found
/// under a key that nothing is recorded for.
pub proof fn law_mono_found(list: List<MonoName>, name: Symbol, k: nat)
    ensures
        mono_at(list, name, k) && (forall|j: nat| j < k ==> !#[trigger] mono_at(list, name, j))
            ==> mono_named(list, name) == (match list.nth(k) {
            Some(e) => Some(e.id),
            None => None,
        }),
        (forall|j: nat| !#[trigger] mono_at(list, name, j)) ==> mono_named(list, name) is None,
    decreases list,
{
    match list {
        List::Nil => {},
        List::Cons(e, rest) => {
            law_mono_found(*rest, name, if k > 0 {
                (k - 1) as nat
            } else {
                0
            });
            assert(mono_at(list, name, 0) == (e.name == name));
            assert forall|j: nat| #[trigger] mono_at(*rest, name, j) == mono_at(
                list,
                name,
                j + 1,
            ) by {
                assert((j + 1 - 1) as nat == j);
            }
        },
    }
}

/// Whether the level at position `k` is for `class`.
pub open spec fn level_at(list: List<LintLevel>, class: DiagnosticClass, k: nat) -> bool {
    match list.nth(k) {
        Some(l) => l.class == class,
        None => false,
    }
}

/// A class has the severity that is set for it first, and is an error where
/// none is set.
pub proof fn law_severity(list: List<LintLevel>, class: DiagnosticClass, k: nat)
    ensures
        level_at(list, class, k) && (forall|j: nat| j < k ==> !#[trigger] level_at(list, class, j))
            ==> severity_of(list, class) == (match list.nth(k) {
            Some(l) => l.severity,
            None => None,
        }),
        (forall|j: nat| !#[trigger] level_at(list, class, j)) ==> severity_of(list, class) == Some(
            Severity::Error,
        ),
    decreases list,
{
    match list {
        List::Nil => {},
        List::Cons(l, rest) => {
            law_severity(*rest, class, if k > 0 {
                (k - 1) as nat
            } else {
                0
            });
            assert(level_at(list, class, 0) == (l.class == class));
            assert forall|j: nat| #[trigger] level_at(*rest, class, j) == level_at(
                list,
                class,
                j + 1,
            ) by {
                assert((j + 1 - 1) as nat == j);
            }
        },
    }
}

/// A function used as a value keeps its parameters in order, with their modes
/// and types.
pub proof fn law_unnamed(params: List<Param>, k: nat)
    ensures
        unnamed(params).nth(k) == (match params.nth(k) {
            Some(p) => Some(FnPtrParam { mode: p.mode, ty: p.ty }),
            None => None,
        }),
    decreases params,
{
    match params {
        List::Nil => {},
        List::Cons(_, rest) => {
            if k > 0 {
                law_unnamed(*rest, (k - 1) as nat);
            }
        },
    }
}

/// Whether a field has that name.
pub open spec fn is_field(fields: List<FieldInfo>, name: Symbol) -> bool
    decreases fields,
{
    match fields {
        List::Nil => false,
        List::Cons(f, rest) => f.name == name || is_field(*rest, name),
    }
}

/// Whether no two fields share a name, nor any with `earlier`.
pub open spec fn fields_distinct(fields: List<FieldInfo>, earlier: List<Symbol>) -> bool
    decreases fields,
{
    match fields {
        List::Nil => true,
        List::Cons(f, rest) => !names_has(earlier, f.name) && fields_distinct(
            *rest,
            List::Cons(Box::new(f.name), Box::new(earlier)),
        ),
    }
}

/// The fields that are missing are those of the type that are not given.
pub proof fn law_missing(
    fields: List<FieldInfo>,
    given: List<Symbol>,
    earlier: List<Symbol>,
    x: Symbol,
)
    requires
        fields_distinct(fields, earlier),
    ensures
        names_has(fields_missing(fields, given, earlier), x) <==> is_field(fields, x) && !names_has(
            given,
            x,
        ),
    decreases fields,
{
    match fields {
        List::Nil => {},
        List::Cons(f, rest) => {
            law_missing(*rest, given, List::Cons(Box::new(f.name), Box::new(earlier)), x);
        },
    }
}

/// Whether the module at position `k` has another path.
pub open spec fn module_differs(modules: List<Module>, path: List<Symbol>, k: nat) -> bool {
    match modules.nth(k) {
        Some(m) => m.path != path,
        None => true,
    }
}

/// An item of a module is found under the path of the module, first in order,
/// with the position of the module.
pub proof fn law_item_in(
    modules: List<Module>,
    at: usize,
    path: List<Symbol>,
    name: Symbol,
    m: Module,
    k: nat,
)
    requires
        modules.nth(k) == Some(m),
        m.path == path,
        forall|j: nat| j < k ==> module_differs(modules, path, j),
        at + k <= usize::MAX,
    ensures
        item_in(modules, at, path, name) == (match item_index(m.items, name) {
            Some(index) => Some(BindingId { module: ModuleId((at + k) as usize), index }),
            None => None,
        }),
    decreases modules,
{
    match modules {
        List::Nil => {},
        List::Cons(head, rest) => {
            if k > 0 {
                assert(module_differs(modules, path, 0));
                assert forall|j: nat| j < k - 1 implies module_differs(*rest, path, j) by {
                    assert((j + 1 - 1) as nat == j);
                    assert(module_differs(modules, path, j + 1));
                }
                law_item_in(*rest, (at + 1) as usize, path, name, m, (k - 1) as nat);
            }
        },
    }
}

} // verus!
