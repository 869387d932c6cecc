//! Places that the mode discipline tracks.

use vstd::prelude::*;

use super::super::cx::{group_grown, kept, Ic, InferCx};
use super::lattice::{name_inserted, FieldSet};
use crate::cx::FieldInfo;
use crate::hir::{HirExpr, HirExprKind};
use crate::intern::Symbol;
use crate::list::List;
use crate::text::{decimal, decimal_text};
use crate::ty::{TyId, TyKind};

verus! {

broadcast use group_grown;

/// The name that a path of one segment consists of.
pub open spec fn bound_name(expr: HirExpr) -> Option<Symbol> {
    match expr.kind {
        HirExprKind::Path(path) => path.single(),
        _ => None,
    }
}

/// The binding and field of `binding.field`.
pub open spec fn field_place(expr: HirExpr) -> Option<(Symbol, Symbol)> {
    match expr.kind {
        HirExprKind::Field(access) => match bound_name(access.receiver) {
            Some(binding) => Some((binding, access.name.name)),
            None => None,
        },
        _ => None,
    }
}

/// The binding and position of `binding.0`.
pub open spec fn element_place(expr: HirExpr) -> Option<(Symbol, u32)> {
    match expr.kind {
        HirExprKind::TupleIndex(access) => match bound_name(access.receiver) {
            Some(binding) => Some((binding, access.index)),
            None => None,
        },
        _ => None,
    }
}

/// The name that a path of one segment consists of.
pub fn path_binding(expr: &HirExpr) -> (r: Option<Symbol>)
    ensures
        r == bound_name(*expr),
{
    match &expr.kind {
        HirExprKind::Path(path) => path.as_single(),
        _ => None,
    }
}

/// The binding and field of `binding.field`.
pub fn field_projection_binding(expr: &HirExpr) -> (r: Option<(Symbol, Symbol)>)
    ensures
        r == field_place(*expr),
{
    match &expr.kind {
        HirExprKind::Field(access) => match path_binding(&access.receiver) {
            Some(binding) => Some((binding, access.name.name)),
            None => None,
        },
        _ => None,
    }
}

/// The binding and position of `binding.0`.
pub fn tuple_index_binding(expr: &HirExpr) -> (r: Option<(Symbol, u32)>)
    ensures
        r == element_place(*expr),
{
    match &expr.kind {
        HirExprKind::TupleIndex(access) => match path_binding(&access.receiver) {
            Some(binding) => Some((binding, access.index)),
            None => None,
        },
        _ => None,
    }
}

/// The names of the fields.
pub open spec fn field_names(fields: List<FieldInfo>) -> List<Symbol>
    decreases fields,
{
    match fields {
        List::Nil => List::Nil,
        List::Cons(f, rest) => name_inserted(field_names(*rest), f.name),
    }
}

fn names_of(fields: &List<FieldInfo>) -> (r: FieldSet)
    ensures
        r == (FieldSet { items: field_names(*fields) }),
    decreases fields,
{
    match fields {
        List::Nil => FieldSet::new(),
        List::Cons(f, rest) => {
            let mut set = names_of(rest);
            set.insert(f.name);
            set
        },
    }
}

/// The numerals of the positions from `at` on, one for each of `elems`, put
/// into `keys`; with the context in which they are interned.
pub open spec fn element_keys(
    ic: Ic,
    elems: List<TyId>,
    at: usize,
    keys: List<Symbol>,
) -> (Ic, List<Symbol>)
    decreases elems,
{
    match elems {
        List::Nil => (ic, keys),
        List::Cons(_, rest) => {
            let text = decimal(at as nat);
            let next = if at == usize::MAX {
                at
            } else {
                (at + 1) as usize
            };
            element_keys(ic.named(text), *rest, next, name_inserted(keys, ic.symbol(text)))
        },
    }
}

fn keys_of(ic: &mut InferCx<'_>, elems: &List<TyId>, at: usize, keys: FieldSet) -> (r: FieldSet)
    ensures
        (final(ic)@, r.items) == element_keys(old(ic)@, *elems, at, keys.items),
        kept(old(ic)@, final(ic)@),
    decreases elems,
{
    match elems {
        List::Nil => keys,
        List::Cons(_, rest) => {
            let mut keys = keys;
            let text = decimal_text(at);
            let sym = ic.intern(text.as_str());
            keys.insert(sym);
            let next: usize = if at == usize::MAX {
                at
            } else {
                at + 1
            };
            keys_of(ic, rest, next, keys)
        },
    }
}

/// The members of a type that are tracked one by one: the fields of a product
/// type by name, the elements of a tuple by the numerals of their positions.
/// With the context in which those numerals are interned.
#[verifier::opaque]
pub open spec fn members(ic: Ic, ty: TyId) -> (Ic, Option<FieldSet>) {
    match ic.kind(ty) {
        TyKind::Nominal(id) => match ic.ty_cx.product_fields(id) {
            Some(fields) => (ic, Some(FieldSet { items: field_names(fields) })),
            None => (ic, None),
        },
        TyKind::Tuple(elems) => {
            let (after, keys) = element_keys(ic, elems, 0, List::Nil);
            (after, Some(FieldSet { items: keys }))
        },
        _ => (ic, None),
    }
}

/// The members of a type that are tracked one by one.
pub fn type_field_set(ty: TyId, ic: &mut InferCx<'_>) -> (r: Option<FieldSet>)
    ensures
        (final(ic)@, r) == members(old(ic)@, ty),
        kept(old(ic)@, final(ic)@),
{
    proof {
        reveal(members);
    }
    match ic.kind(ty) {
        TyKind::Nominal(id) => match ic.ty_cx.product(id) {
            Some(fields) => Some(names_of(fields)),
            None => None,
        },
        TyKind::Tuple(elems) => {
            let keys = FieldSet::new();
            Some(keys_of(ic, &elems, 0, keys))
        },
        _ => None,
    }
}

} // verus!
