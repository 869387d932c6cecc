//! States of bindings where a function returns.

use vstd::prelude::*;

use super::super::cx::{group_grown, kept, Ic, InferCx};
use super::super::env::{Bound, TyEnv};
use super::helpers::{members, type_field_set};
use super::lattice::{filter_names, names_filtered, BindingState};
use crate::cx::{
    field_named, field_types, find_field, has_name, names_has, FieldInfo, TyCx, TypeDeclShape,
    VariantInfo, VariantPayloadInfo,
};
use crate::diag::Message;
use crate::intern::Symbol;
use crate::list::List;
use crate::prim::Primitive;
use crate::span::Span;
use crate::ty::{kind_of, TyId, TyKind};

verus! {

broadcast use group_grown;

/// Whether `ty` is an element of `list`.
pub open spec fn has_ty(list: List<TyId>, ty: TyId) -> bool
    decreases list,
{
    match list {
        List::Nil => false,
        List::Cons(head, tail) => *head == ty || has_ty(*tail, ty),
    }
}

fn ty_in(list: &List<TyId>, ty: TyId) -> (r: bool)
    ensures
        r == has_ty(*list, ty),
    decreases list,
{
    match list {
        List::Nil => false,
        List::Cons(head, tail) => **head == ty || ty_in(tail, ty),
    }
}

/// Number of the first `n` stored types that were not visited.
pub open spec fn unvisited(n: nat, visited: List<TyId>) -> nat
    decreases n,
{
    if n == 0 {
        0
    } else {
        let rest = unvisited((n - 1) as nat, visited);
        if has_ty(visited, TyId::Interned((n - 1) as usize)) {
            rest
        } else {
            rest + 1
        }
    }
}

/// Whether every type of `a` is one of `b`.
pub open spec fn all_visited(a: List<TyId>, b: List<TyId>) -> bool {
    forall|t: TyId| #[trigger] has_ty(a, t) ==> has_ty(b, t)
}

/// Visiting more leaves less unvisited.
proof fn lemma_unvisited(n: nat, a: List<TyId>, b: List<TyId>)
    requires
        all_visited(a, b),
    ensures
        unvisited(n, b) <= unvisited(n, a),
    decreases n,
{
    if n > 0 {
        lemma_unvisited((n - 1) as nat, a, b);
    }
}

/// Visiting a stored type for the first time leaves one less unvisited.
proof fn lemma_visit(n: nat, i: usize, visited: List<TyId>)
    requires
        !has_ty(visited, TyId::Interned(i)),
        i < n,
        n <= usize::MAX as nat + 1,
    ensures
        unvisited(n, List::Cons(Box::new(TyId::Interned(i)), Box::new(visited))) < unvisited(
            n,
            visited,
        ),
    decreases n,
{
    let after = List::Cons(Box::new(TyId::Interned(i)), Box::new(visited));
    let m = (n - 1) as nat;
    assert(has_ty(after, TyId::Interned(m as usize)) <==> (m as usize == i || has_ty(
        visited,
        TyId::Interned(m as usize),
    )));
    if i < m {
        lemma_visit(m, i, visited);
    } else {
        lemma_unvisited(m, visited, after);
    }
}

/// Whether a value of `ty` may be dropped silently, and the types visited on
/// the way. A type that is visited twice counts as not droppable.
pub open spec fn droppable(
    ty: TyId,
    tys: Seq<TyKind>,
    ty_cx: TyCx,
    visited: List<TyId>,
) -> (bool, List<TyId>)
    decreases unvisited(tys.len(), visited), 0nat, 0nat,
{
    if has_ty(visited, ty) {
        (false, visited)
    } else {
        let now: List<TyId> = List::Cons(Box::new(ty), Box::new(visited));
        match kind_of(tys, ty) {
            TyKind::Primitive(p) => (p.droppable_kind(), now),
            TyKind::Tuple(elems) => if unvisited(tys.len(), now) < unvisited(tys.len(), visited) {
                droppable_all(elems, tys, ty_cx, now)
            } else {
                (false, now)
            },
            TyKind::Nominal(id) => match ty_cx.layout(id) {
                None => (false, now),
                Some(info) => if info.linearity is Some || unvisited(tys.len(), now) >= unvisited(
                    tys.len(),
                    visited,
                ) {
                    (false, now)
                } else {
                    match info.kind {
                        TypeDeclShape::Product(fields) => droppable_fields(fields, tys, ty_cx, now),
                        TypeDeclShape::Sum(variants) => droppable_variants(
                            variants,
                            tys,
                            ty_cx,
                            now,
                        ),
                    }
                },
            },
            _ => (false, now),
        }
    }
}

/// Whether values of all of `elems` may be dropped, visiting from the left up
/// to the first that may not.
pub open spec fn droppable_all(
    elems: List<TyId>,
    tys: Seq<TyKind>,
    ty_cx: TyCx,
    visited: List<TyId>,
) -> (bool, List<TyId>)
    decreases unvisited(tys.len(), visited), 2nat, elems.count(),
{
    match elems {
        List::Nil => (true, visited),
        List::Cons(head, tail) => {
            let first = droppable(*head, tys, ty_cx, visited);
            if !first.0 || unvisited(tys.len(), first.1) > unvisited(tys.len(), visited) {
                (false, first.1)
            } else {
                droppable_all(*tail, tys, ty_cx, first.1)
            }
        },
    }
}

/// Whether values of all of the fields may be dropped.
pub open spec fn droppable_fields(
    fields: List<FieldInfo>,
    tys: Seq<TyKind>,
    ty_cx: TyCx,
    visited: List<TyId>,
) -> (bool, List<TyId>)
    decreases unvisited(tys.len(), visited), 2nat, fields.count(),
{
    match fields {
        List::Nil => (true, visited),
        List::Cons(head, tail) => {
            let first = droppable(head.ty, tys, ty_cx, visited);
            if !first.0 || unvisited(tys.len(), first.1) > unvisited(tys.len(), visited) {
                (false, first.1)
            } else {
                droppable_fields(*tail, tys, ty_cx, first.1)
            }
        },
    }
}

/// Whether the payloads of all of the variants may be dropped.
pub open spec fn droppable_variants(
    variants: List<VariantInfo>,
    tys: Seq<TyKind>,
    ty_cx: TyCx,
    visited: List<TyId>,
) -> (bool, List<TyId>)
    decreases unvisited(tys.len(), visited), 3nat, variants.count(),
{
    match variants {
        List::Nil => (true, visited),
        List::Cons(head, tail) => {
            let first = match head.payload {
                VariantPayloadInfo::Unit => (true, visited),
                VariantPayloadInfo::Tuple(elems) => droppable_all(elems, tys, ty_cx, visited),
                VariantPayloadInfo::Struct(fields) => droppable_fields(fields, tys, ty_cx, visited),
            };
            if !first.0 || unvisited(tys.len(), first.1) > unvisited(tys.len(), visited) {
                (false, first.1)
            } else {
                droppable_variants(*tail, tys, ty_cx, first.1)
            }
        },
    }
}

/// Whether a value of `ty` may be dropped silently.
pub open spec fn trivially_droppable(ic: Ic, ty: TyId) -> bool {
    droppable(ty, ic.tys, ic.ty_cx, List::Nil).0
}

/// Whether a type owns no resource itself, whatever its parts own: a primitive
/// type other than `String` and `HeapPtr`, a tuple, or a declared type that has
/// a layout and is neither `linear` nor `affine`.
pub open spec fn plain(ty: TyId, tys: Seq<TyKind>, ty_cx: TyCx) -> bool {
    match kind_of(tys, ty) {
        TyKind::Primitive(p) => p.droppable_kind(),
        TyKind::Tuple(_) => true,
        TyKind::Nominal(id) => match ty_cx.layout(id) {
            Some(info) => info.linearity is None,
            None => false,
        },
        _ => false,
    }
}

/// The types of `a` and then those of `b`.
pub open spec fn chained(a: List<TyId>, b: List<TyId>) -> List<TyId>
    decreases a,
{
    match a {
        List::Nil => b,
        List::Cons(head, tail) => List::Cons(head, Box::new(chained(*tail, b))),
    }
}

/// The types in a payload, in order.
pub open spec fn payload_types(payload: VariantPayloadInfo) -> List<TyId> {
    match payload {
        VariantPayloadInfo::Unit => List::Nil,
        VariantPayloadInfo::Tuple(elems) => elems,
        VariantPayloadInfo::Struct(fields) => field_types(fields),
    }
}

/// The types in the payloads of `variants`, in order.
pub open spec fn variant_types(variants: List<VariantInfo>) -> List<TyId>
    decreases variants,
{
    match variants {
        List::Nil => List::Nil,
        List::Cons(head, tail) => chained(payload_types(head.payload), variant_types(*tail)),
    }
}

/// The types that a value of type `ty` is made of, in order.
pub open spec fn parts(ty: TyId, tys: Seq<TyKind>, ty_cx: TyCx) -> List<TyId> {
    match kind_of(tys, ty) {
        TyKind::Tuple(elems) => elems,
        TyKind::Nominal(id) => match ty_cx.layout(id) {
            Some(info) => match info.kind {
                TypeDeclShape::Product(fields) => field_types(fields),
                TypeDeclShape::Sum(variants) => variant_types(variants),
            },
            None => List::Nil,
        },
        _ => List::Nil,
    }
}

/// Whether `to` is found from `from` by going to a part at most `steps` times.
pub open spec fn reaches(
    from: TyId,
    to: TyId,
    tys: Seq<TyKind>,
    ty_cx: TyCx,
    steps: nat,
) -> bool
    decreases steps,
{
    from == to || (steps > 0 && exists|part: TyId| #[trigger]
        has_ty(parts(from, tys, ty_cx), part) && reaches(
            part,
            to,
            tys,
            ty_cx,
            (steps - 1) as nat,
        ))
}

/// A walk forgets no type that was visited before.
proof fn lemma_walk_keeps(ty: TyId, tys: Seq<TyKind>, ty_cx: TyCx, visited: List<TyId>)
    ensures
        all_visited(visited, droppable(ty, tys, ty_cx, visited).1),
    decreases unvisited(tys.len(), visited), 0nat, 0nat,
{
    if !has_ty(visited, ty) {
        let now: List<TyId> = List::Cons(Box::new(ty), Box::new(visited));
        assert(all_visited(visited, now));
        if unvisited(tys.len(), now) < unvisited(tys.len(), visited) {
            match kind_of(tys, ty) {
                TyKind::Tuple(elems) => {
                    lemma_walk_all_keeps(elems, tys, ty_cx, now);
                },
                TyKind::Nominal(id) => match ty_cx.layout(id) {
                    None => {},
                    Some(info) => match info.kind {
                        TypeDeclShape::Product(fields) => {
                            lemma_walk_fields_keeps(fields, tys, ty_cx, now);
                        },
                        TypeDeclShape::Sum(variants) => {
                            lemma_walk_variants_keeps(variants, tys, ty_cx, now);
                        },
                    },
                },
                _ => {},
            }
        }
    }
}

proof fn lemma_walk_all_keeps(
    elems: List<TyId>,
    tys: Seq<TyKind>,
    ty_cx: TyCx,
    visited: List<TyId>,
)
    ensures
        all_visited(visited, droppable_all(elems, tys, ty_cx, visited).1),
    decreases unvisited(tys.len(), visited), 2nat, elems.count(),
{
    match elems {
        List::Nil => {},
        List::Cons(head, tail) => {
            let first = droppable(*head, tys, ty_cx, visited);
            lemma_walk_keeps(*head, tys, ty_cx, visited);
            lemma_unvisited(tys.len(), visited, first.1);
            lemma_walk_all_keeps(*tail, tys, ty_cx, first.1);
        },
    }
}

proof fn lemma_walk_fields_keeps(
    fields: List<FieldInfo>,
    tys: Seq<TyKind>,
    ty_cx: TyCx,
    visited: List<TyId>,
)
    ensures
        all_visited(visited, droppable_fields(fields, tys, ty_cx, visited).1),
        droppable_fields(fields, tys, ty_cx, visited) == droppable_all(
            field_types(fields),
            tys,
            ty_cx,
            visited,
        ),
    decreases unvisited(tys.len(), visited), 2nat, fields.count(),
{
    match fields {
        List::Nil => {},
        List::Cons(head, tail) => {
            let first = droppable(head.ty, tys, ty_cx, visited);
            lemma_walk_keeps(head.ty, tys, ty_cx, visited);
            lemma_unvisited(tys.len(), visited, first.1);
            lemma_walk_fields_keeps(*tail, tys, ty_cx, first.1);
        },
    }
}

proof fn lemma_walk_variants_keeps(
    variants: List<VariantInfo>,
    tys: Seq<TyKind>,
    ty_cx: TyCx,
    visited: List<TyId>,
)
    ensures
        all_visited(visited, droppable_variants(variants, tys, ty_cx, visited).1),
        droppable_variants(variants, tys, ty_cx, visited) == droppable_all(
            variant_types(variants),
            tys,
            ty_cx,
            visited,
        ),
    decreases unvisited(tys.len(), visited), 3nat, variants.count(),
{
    match variants {
        List::Nil => {},
        List::Cons(head, tail) => {
            let payload = payload_types(head.payload);
            let first = droppable_all(payload, tys, ty_cx, visited);
            lemma_walk_all_keeps(payload, tys, ty_cx, visited);
            match head.payload {
                VariantPayloadInfo::Struct(fields) => {
                    lemma_walk_fields_keeps(fields, tys, ty_cx, visited);
                },
                _ => {},
            }
            lemma_unvisited(tys.len(), visited, first.1);
            lemma_walk_chained(payload, variant_types(*tail), tys, ty_cx, visited);
            lemma_walk_variants_keeps(*tail, tys, ty_cx, first.1);
        },
    }
}

/// Walking one list after another is walking them chained.
proof fn lemma_walk_chained(
    a: List<TyId>,
    b: List<TyId>,
    tys: Seq<TyKind>,
    ty_cx: TyCx,
    visited: List<TyId>,
)
    ensures
        droppable_all(chained(a, b), tys, ty_cx, visited) == ({
            let first = droppable_all(a, tys, ty_cx, visited);
            if first.0 {
                droppable_all(b, tys, ty_cx, first.1)
            } else {
                first
            }
        }),
    decreases a,
{
    match a {
        List::Nil => {},
        List::Cons(head, tail) => {
            let first = droppable(*head, tys, ty_cx, visited);
            lemma_walk_chained(*tail, b, tys, ty_cx, first.1);
        },
    }
}

/// A type may be dropped silently where it was not visited before, is plain,
/// and its parts may be dropped in order; a list of types where the first may
/// be dropped and then the others. Nothing else decides.
pub proof fn law_droppable_walk(
    ty: TyId,
    elems: List<TyId>,
    tys: Seq<TyKind>,
    ty_cx: TyCx,
    visited: List<TyId>,
)
    requires
        tys.len() <= usize::MAX,
    ensures
        droppable(ty, tys, ty_cx, visited) == ({
            let now = List::Cons(Box::new(ty), Box::new(visited));
            if has_ty(visited, ty) {
                (false, visited)
            } else if !plain(ty, tys, ty_cx) {
                (false, now)
            } else {
                droppable_all(parts(ty, tys, ty_cx), tys, ty_cx, now)
            }
        }),
        droppable_all(elems, tys, ty_cx, visited) == (match elems {
            List::Nil => (true, visited),
            List::Cons(head, tail) => {
                let first = droppable(*head, tys, ty_cx, visited);
                if first.0 {
                    droppable_all(*tail, tys, ty_cx, first.1)
                } else {
                    first
                }
            },
        }),
{
    match elems {
        List::Nil => {},
        List::Cons(head, _) => {
            lemma_walk_keeps(*head, tys, ty_cx, visited);
            lemma_unvisited(tys.len(), visited, droppable(*head, tys, ty_cx, visited).1);
        },
    }
    if !has_ty(visited, ty) {
        let now: List<TyId> = List::Cons(Box::new(ty), Box::new(visited));
        match ty {
            TyId::Interned(i) if i < tys.len() => {
                lemma_visit(tys.len(), i, visited);
                match kind_of(tys, ty) {
                    TyKind::Nominal(id) => match ty_cx.layout(id) {
                        None => {},
                        Some(info) => match info.kind {
                            TypeDeclShape::Product(fields) => {
                                lemma_walk_fields_keeps(fields, tys, ty_cx, now);
                            },
                            TypeDeclShape::Sum(variants) => {
                                lemma_walk_variants_keeps(variants, tys, ty_cx, now);
                            },
                        },
                    },
                    _ => {},
                }
            },
            _ => {},
        }
    }
}

/// Of types that may all be dropped, each may be dropped where it stands.
proof fn lemma_each_droppable(
    elems: List<TyId>,
    part: TyId,
    tys: Seq<TyKind>,
    ty_cx: TyCx,
    visited: List<TyId>,
) -> (then: List<TyId>)
    requires
        tys.len() <= usize::MAX,
        droppable_all(elems, tys, ty_cx, visited).0,
        has_ty(elems, part),
    ensures
        droppable(part, tys, ty_cx, then).0,
        all_visited(visited, then),
    decreases elems,
{
    law_droppable_walk(part, elems, tys, ty_cx, visited);
    match elems {
        List::Nil => visited,
        List::Cons(head, tail) => if *head == part {
            visited
        } else {
            lemma_walk_keeps(*head, tys, ty_cx, visited);
            lemma_each_droppable(
                *tail,
                part,
                tys,
                ty_cx,
                droppable(*head, tys, ty_cx, visited).1,
            )
        },
    }
}

proof fn lemma_droppable_reach(
    ty: TyId,
    to: TyId,
    tys: Seq<TyKind>,
    ty_cx: TyCx,
    visited: List<TyId>,
    steps: nat,
)
    requires
        tys.len() <= usize::MAX,
        droppable(ty, tys, ty_cx, visited).0,
        reaches(ty, to, tys, ty_cx, steps),
    ensures
        plain(to, tys, ty_cx),
        !has_ty(visited, to),
    decreases steps,
{
    law_droppable_walk(ty, List::Nil, tys, ty_cx, visited);
    if ty != to {
        let part = choose|part: TyId| #[trigger]
            has_ty(parts(ty, tys, ty_cx), part) && reaches(
                part,
                to,
                tys,
                ty_cx,
                (steps - 1) as nat,
            );
        let now: List<TyId> = List::Cons(Box::new(ty), Box::new(visited));
        let then = lemma_each_droppable(parts(ty, tys, ty_cx), part, tys, ty_cx, now);
        assert(all_visited(visited, now));
        lemma_droppable_reach(part, to, tys, ty_cx, then, (steps - 1) as nat);
    }
}

/// A type that may be dropped silently reaches plain types only: no `String`,
/// `HeapPtr`, slice, capability, function pointer or error, and no declared
/// type that has no layout or is `linear` or `affine`. It does not reach itself
/// through its parts.
pub proof fn law_droppable(ty: TyId, to: TyId, ic: Ic, steps: nat)
    requires
        ic.tys.len() <= usize::MAX,
        trivially_droppable(ic, ty),
    ensures
        reaches(ty, to, ic.tys, ic.ty_cx, steps) ==> plain(to, ic.tys, ic.ty_cx),
        reaches(ty, to, ic.tys, ic.ty_cx, steps) ==> ({
            let kind = kind_of(ic.tys, to);
            &&& kind != TyKind::Primitive(Primitive::String)
            &&& kind != TyKind::Primitive(Primitive::HeapPtr)
            &&& !(kind is Slice || kind is Capability || kind is FnPtr || kind is Error)
            &&& kind matches TyKind::Nominal(id) ==> ic.ty_cx.layout(id) is Some
                && ic.ty_cx.layout(id)->Some_0.linearity is None
        }),
        has_ty(parts(ty, ic.tys, ic.ty_cx), to) ==> !reaches(to, ty, ic.tys, ic.ty_cx, steps),
{
    let none: List<TyId> = List::Nil;
    if reaches(ty, to, ic.tys, ic.ty_cx, steps) {
        lemma_droppable_reach(ty, to, ic.tys, ic.ty_cx, none, steps);
    }
    if has_ty(parts(ty, ic.tys, ic.ty_cx), to) && reaches(to, ty, ic.tys, ic.ty_cx, steps) {
        law_droppable_walk(ty, none, ic.tys, ic.ty_cx, none);
        let now = List::Cons(Box::new(ty), Box::new(none));
        let then = lemma_each_droppable(
            parts(ty, ic.tys, ic.ty_cx),
            to,
            ic.tys,
            ic.ty_cx,
            now,
        );
        lemma_droppable_reach(to, ty, ic.tys, ic.ty_cx, then, steps);
        assert(has_ty(now, ty));
    }
}

/// Whether a value of `ty` may be dropped at function exit without leaking an
/// owned resource.
pub fn is_trivially_droppable_at_exit(ty: TyId, ic: &InferCx<'_>) -> (r: bool)
    ensures
        r == trivially_droppable(ic@, ty),
{
    let mut visited: List<TyId> = List::Nil;
    droppable_walk(ty, ic, &mut visited)
}

/// Walk `ty`, recording the visited types.
pub fn droppable_walk(ty: TyId, ic: &InferCx<'_>, visited: &mut List<TyId>) -> (r: bool)
    ensures
        (r, *final(visited)) == droppable(ty, ic@.tys, ic@.ty_cx, *old(visited)),
        all_visited(*old(visited), *final(visited)),
    decreases unvisited(ic@.tys.len(), *old(visited)), 0nat, 0nat,
{
    if ty_in(visited, ty) {
        return false;
    }
    let stored: usize = ic.lower.ty_interner.len();
    let ghost before = *visited;
    let mut rest: List<TyId> = List::Nil;
    core::mem::swap(&mut rest, visited);
    *visited = List::Cons(Box::new(ty), Box::new(rest));
    proof {
        assert(all_visited(before, *visited));
        match ty {
            TyId::Interned(i) if i < stored => {
                lemma_visit(ic@.tys.len(), i, before);
            },
            _ => {},
        }
    }
    match ic.kind(ty) {
        TyKind::Primitive(p) => p.is_trivially_droppable(),
        TyKind::Tuple(elems) => walk_all(&elems, ic, visited),
        TyKind::Nominal(id) => match ic.ty_cx.type_decl(id) {
            None => false,
            Some(info) => {
                if info.linearity.is_some() {
                    false
                } else {
                    match &info.kind {
                        TypeDeclShape::Product(fields) => walk_fields(fields, ic, visited),
                        TypeDeclShape::Sum(variants) => walk_variants(variants, ic, visited),
                    }
                }
            },
        },
        _ => false,
    }
}

fn walk_all(elems: &List<TyId>, ic: &InferCx<'_>, visited: &mut List<TyId>) -> (r: bool)
    ensures
        (r, *final(visited)) == droppable_all(*elems, ic@.tys, ic@.ty_cx, *old(visited)),
        all_visited(*old(visited), *final(visited)),
    decreases unvisited(ic@.tys.len(), *old(visited)), 2nat, elems.count(),
{
    match elems {
        List::Nil => true,
        List::Cons(head, tail) => {
            let first = droppable_walk(**head, ic, visited);
            proof {
                lemma_unvisited(ic@.tys.len(), *old(visited), *visited);
            }
            if !first {
                false
            } else {
                walk_all(tail, ic, visited)
            }
        },
    }
}

fn walk_fields(fields: &List<FieldInfo>, ic: &InferCx<'_>, visited: &mut List<TyId>) -> (r: bool)
    ensures
        (r, *final(visited)) == droppable_fields(*fields, ic@.tys, ic@.ty_cx, *old(visited)),
        all_visited(*old(visited), *final(visited)),
    decreases unvisited(ic@.tys.len(), *old(visited)), 2nat, fields.count(),
{
    match fields {
        List::Nil => true,
        List::Cons(head, tail) => {
            let first = droppable_walk(head.ty, ic, visited);
            proof {
                lemma_unvisited(ic@.tys.len(), *old(visited), *visited);
            }
            if !first {
                false
            } else {
                walk_fields(tail, ic, visited)
            }
        },
    }
}

fn walk_variants(variants: &List<VariantInfo>, ic: &InferCx<'_>, visited: &mut List<TyId>) -> (r:
    bool)
    ensures
        (r, *final(visited)) == droppable_variants(*variants, ic@.tys, ic@.ty_cx, *old(visited)),
        all_visited(*old(visited), *final(visited)),
    decreases unvisited(ic@.tys.len(), *old(visited)), 3nat, variants.count(),
{
    match variants {
        List::Nil => true,
        List::Cons(head, tail) => {
            let first = match &head.payload {
                VariantPayloadInfo::Unit => true,
                VariantPayloadInfo::Tuple(elems) => walk_all(elems, ic, visited),
                VariantPayloadInfo::Struct(fields) => walk_fields(fields, ic, visited),
            };
            proof {
                lemma_unvisited(ic@.tys.len(), *old(visited), *visited);
            }
            if !first {
                false
            } else {
                walk_variants(tail, ic, visited)
            }
        },
    }
}

/// The type of `field` where `ty` is a declared product type that has it.
pub open spec fn product_field(ic: Ic, ty: TyId, field: Symbol) -> Option<TyId> {
    match ic.kind(ty) {
        TyKind::Nominal(id) => match ic.ty_cx.product_fields(id) {
            Some(fields) => match field_named(fields, field) {
                Some(f) => Some(f.ty),
                None => None,
            },
            None => None,
        },
        _ => None,
    }
}

/// The type of `field` where `ty` is a declared product type that has it.
pub fn field_ty(ty: TyId, field: Symbol, ic: &InferCx<'_>) -> (r: Option<TyId>)
    ensures
        r == product_field(ic@, ty, field),
{
    match ic.kind(ty) {
        TyKind::Nominal(id) => match ic.ty_cx.product(id) {
            Some(fields) => match find_field(fields, field) {
                Some(f) => Some(f.ty),
                None => None,
            },
            None => None,
        },
        _ => None,
    }
}

/// Whether each of `fields` is a field of `ty` that may be dropped silently.
pub open spec fn fields_droppable(ic: Ic, ty: TyId, fields: List<Symbol>) -> bool
    decreases fields,
{
    match fields {
        List::Nil => true,
        List::Cons(f, rest) => match product_field(ic, ty, *f) {
            Some(t) => trivially_droppable(ic, t) && fields_droppable(ic, ty, *rest),
            None => false,
        },
    }
}

fn all_droppable(ty: TyId, fields: &List<Symbol>, ic: &InferCx<'_>) -> (r: bool)
    ensures
        r == fields_droppable(ic@, ty, *fields),
    decreases fields,
{
    match fields {
        List::Nil => true,
        List::Cons(f, rest) => match field_ty(ty, **f, ic) {
            Some(t) => is_trivially_droppable_at_exit(t, ic) && all_droppable(ty, rest, ic),
            None => false,
        },
    }
}

/// What is reported of one binding at function exit, and whether anything is.
/// A valid or consumed binding is in order, and so is a partially initialised
/// `take` parameter whose remaining fields may be dropped.
pub open spec fn exit_binding(
    env: TyEnv,
    b: Bound,
    ic: Ic,
    span: Span,
    take_params: List<Symbol>,
) -> (Ic, bool) {
    match b.state {
        BindingState::Valid | BindingState::Consumed => (ic, false),
        BindingState::Uninit => (
            ic.error(span, Message::NotValidAtExit { name: b.name, state: b.state.word() }),
            true,
        ),
        BindingState::PartialInit(valid) => match env.ty_of(b.name) {
            None => (ic, false),
            Some(ty) => {
                let (after, all) = members(ic, ty);
                match all {
                    None => (after, false),
                    Some(all) => {
                        let missing = names_filtered(all.items, valid.items, false);
                        if missing == List::<Symbol>::Nil {
                            (after, false)
                        } else if names_has(take_params, b.name) && fields_droppable(
                            after,
                            ty,
                            valid.items,
                        ) {
                            (after, false)
                        } else {
                            (
                                after.error(span, Message::PartialAtExit { name: b.name, missing }),
                                true,
                            )
                        }
                    },
                }
            },
        },
    }
}

/// The reports on the bindings of one frame; a name is reported once.
pub open spec fn exit_frame(
    frame: List<Bound>,
    env: TyEnv,
    ic: Ic,
    span: Span,
    take_params: List<Symbol>,
    reported: List<Symbol>,
) -> (Ic, List<Symbol>)
    decreases frame,
{
    match frame {
        List::Nil => (ic, reported),
        List::Cons(b, rest) => if names_has(reported, b.name) {
            exit_frame(*rest, env, ic, span, take_params, reported)
        } else {
            let (after, found) = exit_binding(env, *b, ic, span, take_params);
            let seen = if found {
                List::Cons(Box::new(b.name), Box::new(reported))
            } else {
                reported
            };
            exit_frame(*rest, env, after, span, take_params, seen)
        },
    }
}

/// The reports on the bindings of all frames, from the inside out.
pub open spec fn exit_frames(
    frames: List<List<Bound>>,
    env: TyEnv,
    ic: Ic,
    span: Span,
    take_params: List<Symbol>,
    reported: List<Symbol>,
) -> Ic
    decreases frames,
{
    match frames {
        List::Nil => ic,
        List::Cons(frame, rest) => {
            let (after, seen) = exit_frame(*frame, env, ic, span, take_params, reported);
            exit_frames(*rest, env, after, span, take_params, seen)
        },
    }
}

/// The reports at function exit.
#[verifier::opaque]
pub open spec fn exit_reports(env: TyEnv, ic: Ic, span: Span, take_params: List<Symbol>) -> Ic {
    let (after, seen) = exit_frame(env.top, env, ic, span, take_params, List::Nil);
    exit_frames(env.outer, env, after, span, take_params, seen)
}

fn report_binding(
    env: &TyEnv,
    b: &Bound,
    ic: &mut InferCx<'_>,
    span: Span,
    take_params: &List<Symbol>,
) -> (r: bool)
    ensures
        (final(ic)@, r) == exit_binding(*env, *b, old(ic)@, span, *take_params),
        kept(old(ic)@, final(ic)@),
{
    match &b.state {
        BindingState::Valid | BindingState::Consumed => false,
        BindingState::Uninit => {
            ic.emit_typecheck_error(
                span,
                Message::NotValidAtExit { name: b.name, state: b.state.state_word() },
            );
            true
        },
        BindingState::PartialInit(valid) => {
            let ty = match env.lookup(b.name) {
                Some(ty) => ty,
                None => {
                    return false;
                },
            };
            let all = match type_field_set(ty, ic) {
                Some(all) => all,
                None => {
                    return false;
                },
            };
            let missing = filter_names(&all.items, &valid.items, false);
            if missing.is_empty() {
                return false;
            }
            if has_name(take_params, b.name) && all_droppable(ty, &valid.items, ic) {
                return false;
            }
            ic.emit_typecheck_error(span, Message::PartialAtExit { name: b.name, missing });
            true
        },
    }
}

fn report_frame(
    frame: &List<Bound>,
    env: &TyEnv,
    ic: &mut InferCx<'_>,
    span: Span,
    take_params: &List<Symbol>,
    reported: List<Symbol>,
) -> (r: List<Symbol>)
    ensures
        (final(ic)@, r) == exit_frame(*frame, *env, old(ic)@, span, *take_params, reported),
        kept(old(ic)@, final(ic)@),
    decreases frame,
{
    match frame {
        List::Nil => reported,
        List::Cons(b, rest) => {
            if has_name(&reported, b.name) {
                report_frame(rest, env, ic, span, take_params, reported)
            } else if report_binding(env, b, ic, span, take_params) {
                report_frame(rest, env, ic, span, take_params, List::cons(b.name, reported))
            } else {
                report_frame(rest, env, ic, span, take_params, reported)
            }
        },
    }
}

fn report_frames(
    frames: &List<List<Bound>>,
    env: &TyEnv,
    ic: &mut InferCx<'_>,
    span: Span,
    take_params: &List<Symbol>,
    reported: List<Symbol>,
)
    ensures
        final(ic)@ == exit_frames(*frames, *env, old(ic)@, span, *take_params, reported),
        kept(old(ic)@, final(ic)@),
    decreases frames,
{
    match frames {
        List::Nil => {},
        List::Cons(frame, rest) => {
            let seen = report_frame(frame, env, ic, span, take_params, reported);
            report_frames(rest, env, ic, span, take_params, seen);
        },
    }
}

/// Report the bindings that are not in order where a function returns.
pub fn check_fn_body_exit(
    env: &TyEnv,
    ic: &mut InferCx<'_>,
    exit_span: Span,
    take_param_syms: &List<Symbol>,
)
    ensures
        final(ic)@ == exit_reports(*env, old(ic)@, exit_span, *take_param_syms),
        kept(old(ic)@, final(ic)@),
{
    proof {
        reveal(exit_reports);
    }
    let seen = report_frame(&env.top, env, ic, exit_span, take_param_syms, List::Nil);
    report_frames(&env.outer, env, ic, exit_span, take_param_syms, seen);
}

} // verus!
