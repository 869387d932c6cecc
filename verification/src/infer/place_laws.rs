//! Laws of single fields of a binding.

use vstd::prelude::*;

use super::cx::Ic;
use super::env::{Bound, TyEnv};
use super::env_laws::law_transition;
use super::mode::helpers::{field_names, field_place, members};
use super::mode::lattice::{name_inserted, name_removed, BindingState, FieldSet};
use super::mode::transitions::{assign_step, member_moved, mode_step, optional_mode_step};
use crate::cx::{names_has, FieldInfo};
use crate::diag::Message;
use crate::hir::{HirCallMode, HirExpr};
use crate::intern::Symbol;
use crate::list::List;
use crate::lookup_laws::is_field;
use crate::span::Span;
use crate::ty::{BindingId, TyKind};

verus! {

/// Whether the field of a binding in that state holds a value.
pub open spec fn field_valid(state: BindingState, field: Symbol) -> bool {
    match state {
        BindingState::Valid => true,
        BindingState::PartialInit(set) => names_has(set.items, field),
        _ => false,
    }
}

proof fn lemma_inserted(list: List<Symbol>, sym: Symbol, x: Symbol)
    ensures
        names_has(name_inserted(list, sym), x) <==> x == sym || names_has(list, x),
    decreases list,
{
    match list {
        List::Nil => {
            let none: List<Symbol> = List::Nil;
            assert(!names_has(none, x));
            assert(names_has(List::Cons(Box::new(sym), Box::new(none)), x) <==> x == sym);
        },
        List::Cons(_, tail) => lemma_inserted(*tail, sym, x),
    }
}

proof fn lemma_removed(list: List<Symbol>, sym: Symbol, x: Symbol)
    ensures
        names_has(name_removed(list, sym), x) <==> x != sym && names_has(list, x),
    decreases list,
{
    match list {
        List::Nil => {},
        List::Cons(_, tail) => lemma_removed(*tail, sym, x),
    }
}

/// Once one member of a binding is made valid, or not, it is so, and every
/// other member is as it was.
pub proof fn law_member_moved(
    state: BindingState,
    member: Symbol,
    valid: bool,
    all: FieldSet,
    other: Symbol,
)
    requires
        names_has(all.items, member),
        names_has(all.items, other),
    ensures
        ({
            let after = member_moved(state, member, valid, all);
            &&& field_valid(after, member) == valid
            &&& other != member ==> field_valid(after, other) == field_valid(state, other)
            &&& !(after is Consumed)
        }),
{
    let before = match state {
        BindingState::Valid => all.items,
        BindingState::Uninit | BindingState::Consumed => List::Nil,
        BindingState::PartialInit(f) => f.items,
    };
    lemma_inserted(before, member, member);
    lemma_inserted(before, member, other);
    lemma_removed(before, member, member);
    lemma_removed(before, member, other);
    let after = FieldSet {
        items: if valid {
            name_inserted(before, member)
        } else {
            name_removed(before, member)
        },
    };
    if after@ == all@ {
        assert(all@.contains(member) && all@.contains(other));
        assert(after@.contains(member) && after@.contains(other));
    }
}

proof fn lemma_field_names(fields: List<FieldInfo>, x: Symbol)
    ensures
        names_has(field_names(fields), x) <==> is_field(fields, x),
    decreases fields,
{
    match fields {
        List::Nil => {},
        List::Cons(f, rest) => {
            lemma_field_names(*rest, x);
            lemma_inserted(field_names(*rest), f.name, x);
        },
    }
}

/// A mode keyword on `x.f`: `take` needs the field valid and leaves it not
/// valid, `mutable` needs it valid and leaves it so, `init` needs it not valid
/// and leaves it valid. A field in another state is reported and stays as it
/// is. No other field and no other binding changes.
pub proof fn law_field_mode(
    env: TyEnv,
    expr: HirExpr,
    x: Symbol,
    f: Symbol,
    b: Bound,
    id: BindingId,
    fields: List<FieldInfo>,
    mode: HirCallMode,
    span: Span,
    ic: Ic,
    g: Symbol,
    y: Symbol,
)
    requires
        field_place(expr) == Some((x, f)),
        env.find(x) == Some(b),
        b.mutable || mode == HirCallMode::Take,
        ic.kind(b.ty) == TyKind::Nominal(id),
        ic.ty_cx.product_fields(id) == Some(fields),
        is_field(fields, f),
        is_field(fields, g),
        f != g,
        x != y,
    ensures
        ({
            let s = optional_mode_step(env, ic, Some(mode), expr, span);
            let fits = field_valid(b.state, f) == (mode != HirCallMode::Init);
            let after = s.env.find(x)->0.state;
            &&& s.env.find(x) is Some
            &&& s.env.find(y) == env.find(y)
            &&& fits ==> s.ic == ic
            &&& fits ==> field_valid(after, f) == (mode != HirCallMode::Take)
            &&& field_valid(after, g) == field_valid(b.state, g)
            &&& !fits ==> s.env == env
            &&& !fits && mode != HirCallMode::Init ==> s.ic == ic.error(
                span,
                Message::FieldModeRequires {
                    mode,
                    binding: x,
                    field: f,
                    actual: b.state.of_field(f).word(),
                },
            )
            &&& !fits && mode == HirCallMode::Init ==> s.ic == ic.error(
                span,
                Message::FieldInitRequires {
                    binding: x,
                    field: f,
                    actual: b.state.of_field(f).word(),
                },
            )
        }),
{
    reveal(mode_step);
    reveal(members);
    lemma_field_names(fields, f);
    lemma_field_names(fields, g);
    let all = FieldSet { items: field_names(fields) };
    law_member_moved(b.state, f, true, all, g);
    law_member_moved(b.state, f, false, all, g);
    let made = member_moved(b.state, f, true, all);
    let unmade = member_moved(b.state, f, false, all);
    law_transition(env, x, made, x);
    law_transition(env, x, made, y);
    law_transition(env, x, unmade, x);
    law_transition(env, x, unmade, y);
}

/// An assignment to `x.f` makes the field valid; no other field and no other
/// binding changes.
pub proof fn law_field_assign(
    env: TyEnv,
    x: Symbol,
    f: Symbol,
    b: Bound,
    id: BindingId,
    fields: List<FieldInfo>,
    ic: Ic,
    g: Symbol,
    y: Symbol,
)
    requires
        env.find(x) == Some(b),
        ic.kind(b.ty) == TyKind::Nominal(id),
        ic.ty_cx.product_fields(id) == Some(fields),
        is_field(fields, f),
        is_field(fields, g),
        f != g,
        x != y,
    ensures
        ({
            let s = assign_step(env, ic, x, f);
            let after = s.env.find(x)->0.state;
            &&& s.ic == ic
            &&& s.env.find(x) is Some
            &&& field_valid(after, f)
            &&& field_valid(after, g) == field_valid(b.state, g)
            &&& s.env.find(y) == env.find(y)
        }),
{
    reveal(assign_step);
    reveal(members);
    lemma_field_names(fields, f);
    lemma_field_names(fields, g);
    let all = FieldSet { items: field_names(fields) };
    law_member_moved(b.state, f, true, all, g);
    let made = member_moved(b.state, f, true, all);
    law_transition(env, x, made, x);
    law_transition(env, x, made, y);
}

} // verus!
