//! States of a binding and their order.
//!
//! A binding is valid, partially initialised, not initialised, or consumed.
//! Where control paths join, the states of the paths are combined by their
//! greatest lower bound.

use vstd::prelude::*;

use crate::cx::{has_name, names_has};
use crate::diag::StateWord;
use crate::intern::Symbol;
use crate::list::List;

verus! {

/// `list` with `sym` put at its place in increasing order, unless it is there
/// already.
pub open spec fn name_inserted(list: List<Symbol>, sym: Symbol) -> List<Symbol>
    decreases list,
{
    match list {
        List::Nil => List::Cons(Box::new(sym), Box::new(List::Nil)),
        List::Cons(head, tail) => if *head == sym {
            list
        } else if sym.0 < head.0 {
            List::Cons(Box::new(sym), Box::new(list))
        } else {
            List::Cons(head, Box::new(name_inserted(*tail, sym)))
        },
    }
}

/// `list` without `sym`.
pub open spec fn name_removed(list: List<Symbol>, sym: Symbol) -> List<Symbol>
    decreases list,
{
    match list {
        List::Nil => List::Nil,
        List::Cons(head, tail) => if *head == sym {
            name_removed(*tail, sym)
        } else {
            List::Cons(head, Box::new(name_removed(*tail, sym)))
        },
    }
}

/// The elements of `list` that are (`keep`) or are not elements of `other`.
pub open spec fn names_filtered(list: List<Symbol>, other: List<Symbol>, keep: bool) -> List<Symbol>
    decreases list,
{
    match list {
        List::Nil => List::Nil,
        List::Cons(head, tail) => if names_has(other, *head) == keep {
            List::Cons(head, Box::new(names_filtered(*tail, other, keep)))
        } else {
            names_filtered(*tail, other, keep)
        },
    }
}

fn insert_name(list: &mut List<Symbol>, sym: Symbol)
    ensures
        *final(list) == name_inserted(*old(list), sym),
    decreases *old(list),
{
    match list {
        List::Nil => {
            *list = List::cons(sym, List::Nil);
        },
        List::Cons(head, tail) => {
            if **head == sym {
            } else if sym.0 < head.0 {
                let rest = List::Cons(Box::new(**head), Box::new(tail.dup()));
                *list = List::cons(sym, rest);
            } else {
                insert_name(tail, sym);
            }
        },
    }
}

fn remove_name(list: &List<Symbol>, sym: Symbol) -> (r: List<Symbol>)
    ensures
        r == name_removed(*list, sym),
    decreases list,
{
    match list {
        List::Nil => List::Nil,
        List::Cons(head, tail) => if **head == sym {
            remove_name(tail, sym)
        } else {
            List::cons(**head, remove_name(tail, sym))
        },
    }
}

/// The elements of `list` that are (`keep`) or are not elements of `other`.
pub fn filter_names(list: &List<Symbol>, other: &List<Symbol>, keep: bool) -> (r: List<Symbol>)
    ensures
        r == names_filtered(*list, *other, keep),
    decreases list,
{
    match list {
        List::Nil => List::Nil,
        List::Cons(head, tail) => if has_name(other, **head) == keep {
            List::cons(**head, filter_names(tail, other, keep))
        } else {
            filter_names(tail, other, keep)
        },
    }
}

/// Whether every element of `list` is an element of `other`.
fn all_in(list: &List<Symbol>, other: &List<Symbol>) -> (r: bool)
    ensures
        r == (forall|s: Symbol| #[trigger] names_has(*list, s) ==> names_has(*other, s)),
    decreases list,
{
    match list {
        List::Nil => true,
        List::Cons(head, tail) => {
            let first = has_name(other, **head);
            let others = all_in(tail, other);
            proof {
                assert(names_has(*list, **head));
                if first && others {
                    assert forall|s: Symbol| #[trigger] names_has(*list, s) implies names_has(
                        *other,
                        s,
                    ) by {
                        if s != **head {
                            assert(names_has(**tail, s));
                        }
                    }
                } else if first {
                    let s = choose|s: Symbol|
                        #[trigger] names_has(**tail, s) && !names_has(*other, s);
                    assert(names_has(*list, s));
                }
            }
            first && others
        },
    }
}

/// A set of field names.
#[derive(Debug)]
pub struct FieldSet {
    /// The names, in increasing order where they were put in one by one.
    pub items: List<Symbol>,
}

impl View for FieldSet {
    type V = Set<Symbol>;

    open spec fn view(&self) -> Set<Symbol> {
        Set::new(|s: Symbol| names_has(self.items, s))
    }
}

impl FieldSet {
    /// The set without names.
    pub fn new() -> (r: FieldSet)
        ensures
            r == (FieldSet { items: List::Nil }),
            r@ == Set::<Symbol>::empty(),
    {
        let r = FieldSet { items: List::Nil };
        assert(r@ == Set::<Symbol>::empty());
        r
    }

    /// Whether the set has `field`.
    pub fn contains(&self, field: Symbol) -> (r: bool)
        ensures
            r == self@.contains(field),
    {
        has_name(&self.items, field)
    }

    /// Whether the set has no name.
    pub fn is_empty(&self) -> (r: bool)
        ensures
            r == (self.items == List::<Symbol>::Nil),
            r == (self@ == Set::<Symbol>::empty()),
    {
        proof {
            match &self.items {
                List::Nil => {
                    assert(self@ == Set::<Symbol>::empty());
                },
                List::Cons(head, _) => {
                    assert(self@.contains(**head));
                },
            }
        }
        self.items.is_empty()
    }

    /// Put `field` into the set.
    pub fn insert(&mut self, field: Symbol)
        ensures
            *final(self) == (FieldSet { items: name_inserted(old(self).items, field) }),
            final(self)@ == old(self)@.insert(field),
    {
        proof {
            lemma_name_inserted(self.items, field);
        }
        insert_name(&mut self.items, field);
        assert(self@ == old(self)@.insert(field));
    }

    /// Take `field` out of the set.
    pub fn remove(&mut self, field: Symbol)
        ensures
            *final(self) == (FieldSet { items: name_removed(old(self).items, field) }),
            final(self)@ == old(self)@.remove(field),
    {
        proof {
            lemma_name_removed(self.items, field);
        }
        self.items = remove_name(&self.items, field);
        assert(self@ == old(self)@.remove(field));
    }

    /// The names in both sets.
    pub fn intersection(&self, other: &FieldSet) -> (r: FieldSet)
        ensures
            r == (FieldSet { items: names_filtered(self.items, other.items, true) }),
            r@ == self@.intersect(other@),
    {
        let r = FieldSet { items: filter_names(&self.items, &other.items, true) };
        proof {
            lemma_names_filtered(self.items, other.items, true);
            assert(r@ == self@.intersect(other@));
        }
        r
    }

    /// Whether both sets have the same names.
    pub fn same(&self, other: &FieldSet) -> (r: bool)
        ensures
            r == (self@ == other@),
    {
        let forth = all_in(&self.items, &other.items);
        let back = all_in(&other.items, &self.items);
        proof {
            if forth && back {
                assert(self@ == other@);
            } else if !forth {
                let s = choose|s: Symbol|
                    #[trigger] names_has(self.items, s) && !names_has(other.items, s);
                assert(self@.contains(s) && !other@.contains(s));
            } else {
                let s = choose|s: Symbol|
                    #[trigger] names_has(other.items, s) && !names_has(self.items, s);
                assert(other@.contains(s) && !self@.contains(s));
            }
        }
        forth && back
    }

    /// A copy of the set.
    pub fn dup(&self) -> (r: FieldSet)
        ensures
            r == *self,
    {
        FieldSet { items: self.items.dup() }
    }
}

proof fn lemma_name_inserted(list: List<Symbol>, sym: Symbol)
    ensures
        forall|s: Symbol| #[trigger]
            names_has(name_inserted(list, sym), s) <==> (s == sym || names_has(list, s)),
    decreases list,
{
    match list {
        List::Nil => {
            assert forall|s: Symbol| #[trigger]
                names_has(name_inserted(list, sym), s) <==> (s == sym || names_has(list, s)) by {
                let rest: List<Symbol> = List::Nil;
                assert(!names_has(rest, s));
            }
        },
        List::Cons(head, tail) => {
            lemma_name_inserted(*tail, sym);
            assert forall|s: Symbol| #[trigger]
                names_has(name_inserted(list, sym), s) <==> (s == sym || names_has(list, s)) by {
                assert(names_has(name_inserted(*tail, sym), s) <==> (s == sym || names_has(
                    *tail,
                    s,
                )));
            }
        },
    }
}

proof fn lemma_name_removed(list: List<Symbol>, sym: Symbol)
    ensures
        forall|s: Symbol| #[trigger]
            names_has(name_removed(list, sym), s) <==> (s != sym && names_has(list, s)),
    decreases list,
{
    match list {
        List::Nil => {},
        List::Cons(head, tail) => {
            lemma_name_removed(*tail, sym);
            assert forall|s: Symbol| #[trigger]
                names_has(name_removed(list, sym), s) <==> (s != sym && names_has(list, s)) by {
                assert(names_has(name_removed(*tail, sym), s) <==> (s != sym && names_has(
                    *tail,
                    s,
                )));
            }
        },
    }
}

proof fn lemma_names_filtered(list: List<Symbol>, other: List<Symbol>, keep: bool)
    ensures
        forall|s: Symbol| #[trigger]
            names_has(names_filtered(list, other, keep), s) <==> (names_has(list, s) && names_has(
                other,
                s,
            ) == keep),
    decreases list,
{
    match list {
        List::Nil => {},
        List::Cons(head, tail) => {
            lemma_names_filtered(*tail, other, keep);
            assert forall|s: Symbol| #[trigger]
                names_has(names_filtered(list, other, keep), s) <==> (names_has(list, s)
                    && names_has(other, s) == keep) by {
                assert(names_has(names_filtered(*tail, other, keep), s) <==> (names_has(*tail, s)
                    && names_has(other, s) == keep));
            }
        },
    }
}

/// State of a binding.
#[derive(Debug)]
pub enum BindingState {
    /// Moved out; the bottom of the order.
    Consumed,
    /// Declared, but without a value.
    Uninit,
    /// Only the listed fields have a value.
    PartialInit(FieldSet),
    /// Initialised; the top of the order.
    Valid,
}

/// A binding state with its fields as a mathematical set.
pub enum StateModel {
    /// Moved out.
    Consumed,
    /// Without a value.
    Uninit,
    /// Only these fields have a value.
    Partial(Set<Symbol>),
    /// Initialised.
    Valid,
}

impl StateModel {
    /// The greatest lower bound.
    pub open spec fn meet(self, other: StateModel) -> StateModel {
        match (self, other) {
            (StateModel::Consumed, _) => StateModel::Consumed,
            (_, StateModel::Consumed) => StateModel::Consumed,
            (StateModel::Uninit, _) => StateModel::Uninit,
            (_, StateModel::Uninit) => StateModel::Uninit,
            (StateModel::Valid, _) => other,
            (_, StateModel::Valid) => self,
            (StateModel::Partial(f), StateModel::Partial(g)) => StateModel::Partial(f.intersect(g)),
        }
    }

    /// The order: consumed below uninitialised below partially initialised
    /// (by inclusion of fields) below valid.
    pub open spec fn below(self, other: StateModel) -> bool {
        match (self, other) {
            (StateModel::Consumed, _) => true,
            (_, StateModel::Consumed) => false,
            (StateModel::Uninit, _) => true,
            (_, StateModel::Uninit) => false,
            (_, StateModel::Valid) => true,
            (StateModel::Valid, _) => false,
            (StateModel::Partial(f), StateModel::Partial(g)) => f.subset_of(g),
        }
    }

    /// State of one field.
    pub open spec fn of_field(self, field: Symbol) -> StateModel {
        match self {
            StateModel::Partial(f) => if f.contains(field) {
                StateModel::Valid
            } else {
                StateModel::Uninit
            },
            _ => self,
        }
    }
}

impl View for BindingState {
    type V = StateModel;

    open spec fn view(&self) -> StateModel {
        match *self {
            BindingState::Consumed => StateModel::Consumed,
            BindingState::Uninit => StateModel::Uninit,
            BindingState::PartialInit(fields) => StateModel::Partial(fields@),
            BindingState::Valid => StateModel::Valid,
        }
    }
}

impl BindingState {
    /// The state that [`BindingState::glb`] computes.
    pub open spec fn joined(self, other: BindingState) -> BindingState {
        match (self, other) {
            (BindingState::Consumed, _) => BindingState::Consumed,
            (_, BindingState::Consumed) => BindingState::Consumed,
            (BindingState::Uninit, _) => BindingState::Uninit,
            (_, BindingState::Uninit) => BindingState::Uninit,
            (BindingState::Valid, _) => other,
            (_, BindingState::Valid) => self,
            (
                BindingState::PartialInit(f),
                BindingState::PartialInit(g),
            ) => BindingState::PartialInit(
                FieldSet { items: names_filtered(f.items, g.items, true) },
            ),
        }
    }

    /// The state that [`BindingState::field_state`] computes.
    pub open spec fn of_field(self, field: Symbol) -> BindingState {
        match self {
            BindingState::PartialInit(f) => if names_has(f.items, field) {
                BindingState::Valid
            } else {
                BindingState::Uninit
            },
            _ => self,
        }
    }

    /// The word of the state.
    pub open spec fn word(self) -> StateWord {
        match self {
            BindingState::Consumed => StateWord::Consumed,
            BindingState::Uninit => StateWord::Uninit,
            BindingState::PartialInit(_) => StateWord::Partial,
            BindingState::Valid => StateWord::Valid,
        }
    }

    /// The greatest lower bound of two states.
    pub fn glb(&self, other: &BindingState) -> (r: BindingState)
        ensures
            r == self.joined(*other),
            r@ == self@.meet(other@),
    {
        match (self, other) {
            (BindingState::Consumed, _) => BindingState::Consumed,
            (_, BindingState::Consumed) => BindingState::Consumed,
            (BindingState::Uninit, _) => BindingState::Uninit,
            (_, BindingState::Uninit) => BindingState::Uninit,
            (BindingState::Valid, _) => other.dup(),
            (_, BindingState::Valid) => self.dup(),
            (
                BindingState::PartialInit(f),
                BindingState::PartialInit(g),
            ) => BindingState::PartialInit(f.intersection(g)),
        }
    }

    /// Whether the binding as a whole may be read: only where it is valid.
    pub fn is_readable(&self) -> (r: bool)
        ensures
            r == (self@ == StateModel::Valid),
    {
        match self {
            BindingState::Valid => true,
            _ => false,
        }
    }

    /// The word of the state.
    pub fn state_word(&self) -> (r: StateWord)
        ensures
            r == self.word(),
    {
        match self {
            BindingState::Consumed => StateWord::Consumed,
            BindingState::Uninit => StateWord::Uninit,
            BindingState::PartialInit(_) => StateWord::Partial,
            BindingState::Valid => StateWord::Valid,
        }
    }

    /// The state in words.
    pub fn describe(&self) -> (r: &'static str)
        ensures
            r@ == self.word().text(),
    {
        self.state_word().describe()
    }

    /// State of one field of the binding.
    pub fn field_state(&self, field: Symbol) -> (r: BindingState)
        ensures
            r == self.of_field(field),
            r@ == self@.of_field(field),
    {
        match self {
            BindingState::Consumed => BindingState::Consumed,
            BindingState::Uninit => BindingState::Uninit,
            BindingState::Valid => BindingState::Valid,
            BindingState::PartialInit(f) => {
                if f.contains(field) {
                    BindingState::Valid
                } else {
                    BindingState::Uninit
                }
            },
        }
    }

    /// Whether two states are the same.
    pub fn same(&self, other: &BindingState) -> (r: bool)
        ensures
            r == (self@ == other@),
    {
        match (self, other) {
            (BindingState::Consumed, BindingState::Consumed) => true,
            (BindingState::Uninit, BindingState::Uninit) => true,
            (BindingState::Valid, BindingState::Valid) => true,
            (BindingState::PartialInit(f), BindingState::PartialInit(g)) => f.same(g),
            _ => false,
        }
    }

    /// A copy of the state.
    pub fn dup(&self) -> (r: BindingState)
        ensures
            r == *self,
    {
        match self {
            BindingState::Consumed => BindingState::Consumed,
            BindingState::Uninit => BindingState::Uninit,
            BindingState::Valid => BindingState::Valid,
            BindingState::PartialInit(f) => BindingState::PartialInit(f.dup()),
        }
    }
}

/// The greatest lower bound is commutative, associative and idempotent, has
/// `Consumed` as its absorbing and `Valid` as its neutral state.
pub proof fn law_glb_algebra(a: StateModel, b: StateModel, c: StateModel)
    ensures
        a.meet(b) == b.meet(a),
        a.meet(b).meet(c) == a.meet(b.meet(c)),
        a.meet(a) == a,
        a.meet(StateModel::Consumed) == StateModel::Consumed,
        a.meet(StateModel::Valid) == a,
{
    match (a, b) {
        (StateModel::Partial(f), StateModel::Partial(g)) => {
            assert(f.intersect(g) == g.intersect(f));
            match c {
                StateModel::Partial(h) => {
                    assert(f.intersect(g).intersect(h) == f.intersect(g.intersect(h)));
                },
                _ => {},
            }
        },
        _ => {},
    }
    match a {
        StateModel::Partial(f) => {
            assert(f.intersect(f) == f);
        },
        _ => {},
    }
}

/// `meet` is the greatest lower bound of the order.
pub proof fn law_glb_greatest(a: StateModel, b: StateModel, c: StateModel)
    ensures
        a.meet(b).below(a),
        a.meet(b).below(b),
        c.below(a) && c.below(b) ==> c.below(a.meet(b)),
        a.below(b) <==> a.meet(b) == a,
{
    match (a, b) {
        (StateModel::Partial(f), StateModel::Partial(g)) => {
            if f.subset_of(g) {
                assert(f.intersect(g) == f);
            }
            if a.meet(b) == a {
                assert forall|s: Symbol| f.contains(s) implies g.contains(s) by {
                    assert(f.intersect(g).contains(s));
                }
            }
        },
        _ => {},
    }
}

/// The state of a field after a join is the join of its two states.
pub proof fn law_glb_fields(a: StateModel, b: StateModel, field: Symbol)
    ensures
        a.meet(b).of_field(field) == a.of_field(field).meet(b.of_field(field)),
{
}

/// Joining two states is taking the greatest lower bound of what they mean.
pub proof fn law_join_is_meet(a: BindingState, b: BindingState)
    ensures
        a.joined(b)@ == a@.meet(b@),
{
    match (a, b) {
        (BindingState::PartialInit(f), BindingState::PartialInit(g)) => {
            lemma_names_filtered(f.items, g.items, true);
            let both = FieldSet { items: names_filtered(f.items, g.items, true) };
            assert(both@ =~= f@.intersect(g@));
        },
        _ => {},
    }
}

/// The order of states is transitive, and a valid state is at its top.
pub proof fn law_below(a: StateModel, b: StateModel, c: StateModel)
    ensures
        a.below(a),
        a.below(b) && b.below(c) ==> a.below(c),
        a.below(StateModel::Valid),
        StateModel::Valid.below(a) ==> a == StateModel::Valid,
        StateModel::Consumed.below(a),
        a.below(StateModel::Consumed) ==> a == StateModel::Consumed,
{
}

} // verus!
