//! Laws of patterns.

use vstd::prelude::*;

use super::cx::Ic;
use super::env::{Bound, TyEnv};
use super::env_laws::law_bind;
use super::mode::lattice::BindingState;
use super::pat::{
    bind_each_rule, bind_pat_rule, bind_payload_rule, bind_tuple_pat_rule, bind_variant_pat_rule,
};
use crate::cx::VariantPayloadInfo;
use crate::hir::{HirAtPat, HirPat, HirPatKind, HirPath, HirVariantPat, HirVariantPatPayload};
use crate::intern::Symbol;
use crate::list::List;
use crate::span::Span;
use crate::syntax::{Ident, Literal};
use crate::ty::{BindingId, TyId, TyKind};

verus! {

/// A pattern that is a name.
pub open spec fn name_pat(ident: Ident, span: Span) -> HirPat {
    HirPat { span, kind: HirPatKind::Binding(ident), ty: TyId::Error }
}

/// A name binds the whole value; a wildcard, a literal and a range bind
/// nothing.
pub proof fn law_name_pattern(
    env: TyEnv,
    ident: Ident,
    lit: Literal,
    span: Span,
    ty: TyId,
    ic: Ic,
    x: Symbol,
)
    ensures
        ({
            let valid = BindingState::Valid;
            let b = bind_pat_rule(env, name_pat(ident, span), ty, valid, true, ic);
            let w = bind_pat_rule(
                env,
                HirPat { span, kind: HirPatKind::Wildcard, ty: TyId::Error },
                ty,
                valid,
                true,
                ic,
            );
            let l = bind_pat_rule(
                env,
                HirPat { span, kind: HirPatKind::Literal(lit), ty: TyId::Error },
                ty,
                valid,
                true,
                ic,
            );
            &&& b.ic == ic && w.ic == ic && l.ic == ic
            &&& w.env == env && l.env == env
            &&& b.env.find(ident.name) == Some(
                Bound { name: ident.name, ty, state: valid, mutable: true },
            )
            &&& x != ident.name ==> b.env.find(x) == env.find(x)
        }),
{
    reveal(bind_pat_rule);
    let bound = Bound { name: ident.name, ty, state: BindingState::Valid, mutable: true };
    law_bind(env, bound, ident.name);
    law_bind(env, bound, x);
}

/// Two names matched one by one against two types.
proof fn lemma_two_names(
    env: TyEnv,
    first: Ident,
    second: Ident,
    span: Span,
    a: TyId,
    b: TyId,
    ic: Ic,
)
    ensures
        ({
            let pats = List::Cons(
                Box::new(name_pat(first, span)),
                Box::new(List::Cons(Box::new(name_pat(second, span)), Box::new(List::Nil))),
            );
            let tys = List::Cons(
                Box::new(a),
                Box::new(List::Cons(Box::new(b), Box::new(List::Nil))),
            );
            let w = bind_each_rule(env, pats, tys, ic);
            &&& w.ic == ic
            &&& w.env == env.with(
                Bound { name: first.name, ty: a, state: BindingState::Valid, mutable: true },
            ).with(Bound { name: second.name, ty: b, state: BindingState::Valid, mutable: true })
        }),
{
    reveal(bind_each_rule);
    reveal(bind_pat_rule);
    let none: List<HirPat> = List::Nil;
    let no_tys: List<TyId> = List::Nil;
    let tail = List::Cons(Box::new(name_pat(second, span)), Box::new(none));
    let tail_tys = List::Cons(Box::new(b), Box::new(no_tys));
    let p = bind_pat_rule(env, name_pat(first, span), a, BindingState::Valid, true, ic);
    let q = bind_pat_rule(p.env, name_pat(second, span), b, BindingState::Valid, true, p.ic);
    let w0 = bind_each_rule(q.env, none, no_tys, q.ic);
    let w1 = bind_each_rule(p.env, tail, tail_tys, p.ic);
    assert(w1.env == q.env && w1.ic == q.ic);
}

proof fn lemma_pair_lengths(first: Ident, second: Ident, span: Span, a: TyId, b: TyId)
    ensures
        ({
            let pats = List::Cons(
                Box::new(name_pat(first, span)),
                Box::new(List::Cons(Box::new(name_pat(second, span)), Box::new(List::Nil))),
            );
            let tys = List::Cons(
                Box::new(a),
                Box::new(List::Cons(Box::new(b), Box::new(List::Nil))),
            );
            pats.length() == 2 && tys.length() == 2
        }),
{
    let none: List<HirPat> = List::Nil;
    let no_tys: List<TyId> = List::Nil;
    assert(none.length() == 0 && no_tys.length() == 0);
    let tail = List::Cons(Box::new(name_pat(second, span)), Box::new(none));
    let tail_tys = List::Cons(Box::new(b), Box::new(no_tys));
    assert(tail.length() == 1 && tail_tys.length() == 1);
}

/// A pair of names matched against a pair binds each name to its place.
pub proof fn law_tuple_pattern(
    env: TyEnv,
    first: Ident,
    second: Ident,
    span: Span,
    ty: TyId,
    a: TyId,
    b: TyId,
    ic: Ic,
)
    requires
        ty != TyId::Error,
        ic.kind(ty) == TyKind::Tuple(
            List::Cons(Box::new(a), Box::new(List::Cons(Box::new(b), Box::new(List::Nil)))),
        ),
        first.name != second.name,
    ensures
        ({
            let pats = List::Cons(
                Box::new(name_pat(first, span)),
                Box::new(List::Cons(Box::new(name_pat(second, span)), Box::new(List::Nil))),
            );
            let pat = HirPat { span, kind: HirPatKind::Tuple(pats), ty: TyId::Error };
            let w = bind_pat_rule(env, pat, ty, BindingState::Valid, true, ic);
            &&& w.ic == ic
            &&& w.env.ty_of(first.name) == Some(a)
            &&& w.env.ty_of(second.name) == Some(b)
            &&& w.env.state_of(first.name) == Some(BindingState::Valid)
            &&& w.env.state_of(second.name) == Some(BindingState::Valid)
        }),
{
    let pats = List::Cons(
        Box::new(name_pat(first, span)),
        Box::new(List::Cons(Box::new(name_pat(second, span)), Box::new(List::Nil))),
    );
    let pat = HirPat { span, kind: HirPatKind::Tuple(pats), ty: TyId::Error };
    lemma_two_names(env, first, second, span, a, b, ic);
    lemma_pair_lengths(first, second, span, a, b);
    lemma_tuple_pat(env, pats, span, ty, ic);
    let x = Bound { name: first.name, ty: a, state: BindingState::Valid, mutable: true };
    let y = Bound { name: second.name, ty: b, state: BindingState::Valid, mutable: true };
    law_bind(env, x, first.name);
    law_bind(env.with(x), y, first.name);
    law_bind(env.with(x), y, second.name);
}

proof fn lemma_tuple_pat(env: TyEnv, pats: List<HirPat>, span: Span, ty: TyId, ic: Ic)
    requires
        ty != TyId::Error,
    ensures
        ({
            let pat = HirPat { span, kind: HirPatKind::Tuple(pats), ty: TyId::Error };
            let w = bind_pat_rule(env, pat, ty, BindingState::Valid, true, ic);
            match ic.kind(ty) {
                TyKind::Tuple(tys) => tys.length() == pats.length() ==> {
                    let e = bind_each_rule(env, pats, tys, ic);
                    w.env == e.env && w.ic == e.ic
                },
                _ => true,
            }
        }),
{
    reveal(bind_pat_rule);
    reveal(bind_tuple_pat_rule);
    reveal(bind_each_rule);
    let t = bind_tuple_pat_rule(env, pats, ty, ic, span);
}

/// `name @ inner` binds the whole value and then what `inner` binds.
pub proof fn law_at_pattern(env: TyEnv, ident: Ident, inner: HirPat, span: Span, ty: TyId, ic: Ic)
    ensures
        ({
            let valid = BindingState::Valid;
            let node = HirAtPat { name: ident, inner };
            let pat = HirPat { span, kind: HirPatKind::AtBinding(Box::new(node)), ty: TyId::Error };
            let w = bind_pat_rule(env, pat, ty, valid, true, ic);
            let i = bind_pat_rule(
                env.with(Bound { name: ident.name, ty, state: valid, mutable: true }),
                inner,
                ty,
                valid,
                true,
                ic,
            );
            w.env == i.env && w.ic == i.ic
        }),
{
    reveal(bind_pat_rule);
}

/// A variant pattern over two names matched against a variant with two
/// elements binds each name to its element; a variant that the type does not
/// have is reported.
pub proof fn law_variant_pattern(
    env: TyEnv,
    path: HirPath,
    leaf: Ident,
    first: Ident,
    second: Ident,
    span: Span,
    ty: TyId,
    id: BindingId,
    a: TyId,
    b: TyId,
    ic: Ic,
)
    requires
        ty != TyId::Error,
        ic.kind(ty) == TyKind::Nominal(id),
        path.segments.last_of() == Some(leaf),
        match ic.ty_cx.layout(id) {
            Some(info) => info.variant_payload(leaf.name) == Some(
                VariantPayloadInfo::Tuple(
                    List::Cons(Box::new(a), Box::new(List::Cons(Box::new(b), Box::new(List::Nil)))),
                ),
            ),
            None => false,
        },
        first.name != second.name,
    ensures
        ({
            let pats = List::Cons(
                Box::new(name_pat(first, span)),
                Box::new(List::Cons(Box::new(name_pat(second, span)), Box::new(List::Nil))),
            );
            let node = HirVariantPat { path, payload: HirVariantPatPayload::Tuple(pats) };
            let pat = HirPat { span, kind: HirPatKind::Variant(Box::new(node)), ty: TyId::Error };
            let w = bind_pat_rule(env, pat, ty, BindingState::Valid, true, ic);
            &&& w.ic == ic
            &&& w.env.ty_of(first.name) == Some(a)
            &&& w.env.ty_of(second.name) == Some(b)
        }),
{
    let pats = List::Cons(
        Box::new(name_pat(first, span)),
        Box::new(List::Cons(Box::new(name_pat(second, span)), Box::new(List::Nil))),
    );
    let tys = List::Cons(Box::new(a), Box::new(List::Cons(Box::new(b), Box::new(List::Nil))));
    let node = HirVariantPat { path, payload: HirVariantPatPayload::Tuple(pats) };
    lemma_two_names(env, first, second, span, a, b, ic);
    lemma_pair_lengths(first, second, span, a, b);
    let x = Bound { name: first.name, ty: a, state: BindingState::Valid, mutable: true };
    let y = Bound { name: second.name, ty: b, state: BindingState::Valid, mutable: true };
    law_bind(env, x, first.name);
    law_bind(env.with(x), y, first.name);
    law_bind(env.with(x), y, second.name);
    lemma_variant_pat(env, path, leaf, pats, span, ty, id, tys, ic);
}

proof fn lemma_variant_pat(
    env: TyEnv,
    path: HirPath,
    leaf: Ident,
    pats: List<HirPat>,
    span: Span,
    ty: TyId,
    id: BindingId,
    tys: List<TyId>,
    ic: Ic,
)
    requires
        ty != TyId::Error,
        ic.kind(ty) == TyKind::Nominal(id),
        path.segments.last_of() == Some(leaf),
        match ic.ty_cx.layout(id) {
            Some(info) => info.variant_payload(leaf.name) == Some(VariantPayloadInfo::Tuple(tys)),
            None => false,
        },
        pats.length() == tys.length(),
    ensures
        ({
            let node = HirVariantPat { path, payload: HirVariantPatPayload::Tuple(pats) };
            let pat = HirPat { span, kind: HirPatKind::Variant(Box::new(node)), ty: TyId::Error };
            let w = bind_pat_rule(env, pat, ty, BindingState::Valid, true, ic);
            let e = bind_each_rule(env, pats, tys, ic);
            w.env == e.env && w.ic == e.ic
        }),
{
    reveal(bind_pat_rule);
    reveal(bind_variant_pat_rule);
    reveal(bind_payload_rule);
    reveal(bind_each_rule);
    let payload = HirVariantPatPayload::Tuple(pats);
    let node = HirVariantPat { path, payload };
    let v = bind_variant_pat_rule(env, node, ty, ic, span);
    let p = bind_payload_rule(env, payload, VariantPayloadInfo::Tuple(tys), leaf.name, ic, span);
}

} // verus!
