//! Effect rows.
//!
//! A row lists the effects that a computation may perform. Rows are kept in
//! one canonical order without repetitions, so that equal rows are equal
//! lists.

use vstd::prelude::*;

use crate::intern::Symbol;
use crate::list::List;
use crate::ty::TyId;

verus! {

/// An effect that is not tied to a capability.
#[derive(Copy, Clone, Debug, PartialEq, Eq, Structural)]
pub enum PureEffect {
    /// `panic`
    Panic,
    /// `err: T`
    Raise(TyId),
    /// `yield: T`
    Yield(TyId),
    /// `divergence`
    Divergence,
    /// `cancellation`
    Cancellation,
    /// `nondet`
    Nondet,
}

/// One entry of an effect row.
#[derive(Copy, Clone, Debug, PartialEq, Eq, Structural)]
pub enum EffectEntry {
    /// Use of the capability that the named parameter holds.
    Capability(Symbol),
    /// An effect without a capability.
    Pure(PureEffect),
}

impl EffectEntry {
    /// Sort key: class of the entry, class of its type, position.
    pub open spec fn key(self) -> (nat, nat, nat) {
        match self {
            EffectEntry::Capability(sym) => (0, 0, sym.0 as nat),
            EffectEntry::Pure(PureEffect::Panic) => (1, 0, 0),
            EffectEntry::Pure(PureEffect::Raise(ty)) => (2, ty.key().0, ty.key().1),
            EffectEntry::Pure(PureEffect::Yield(ty)) => (3, ty.key().0, ty.key().1),
            EffectEntry::Pure(PureEffect::Divergence) => (4, 0, 0),
            EffectEntry::Pure(PureEffect::Cancellation) => (5, 0, 0),
            EffectEntry::Pure(PureEffect::Nondet) => (6, 0, 0),
        }
    }

    /// Whether this entry stands before `other` in a row.
    pub open spec fn precedes(self, other: EffectEntry) -> bool {
        let (a, b) = (self.key(), other.key());
        a.0 < b.0 || (a.0 == b.0 && (a.1 < b.1 || (a.1 == b.1 && a.2 < b.2)))
    }

    /// Whether the entry is one that a compile-time body may perform:
    /// `panic` or `yield: T`.
    pub open spec fn in_comptime_envelope(self) -> bool {
        match self {
            EffectEntry::Pure(PureEffect::Panic) => true,
            EffectEntry::Pure(PureEffect::Yield(_)) => true,
            _ => false,
        }
    }

    /// Whether the entry is an `err: T` entry.
    pub open spec fn is_err(self) -> bool {
        match self {
            EffectEntry::Pure(PureEffect::Raise(_)) => true,
            _ => false,
        }
    }

    fn sort_key(self) -> (r: (usize, usize, usize))
        ensures
            r.0 as nat == self.key().0,
            r.1 as nat == self.key().1,
            r.2 as nat == self.key().2,
    {
        match self {
            EffectEntry::Capability(sym) => (0, 0, sym.0),
            EffectEntry::Pure(PureEffect::Panic) => (1, 0, 0),
            EffectEntry::Pure(PureEffect::Raise(ty)) => {
                let (c, i) = ty.sort_key();
                (2, c, i)
            },
            EffectEntry::Pure(PureEffect::Yield(ty)) => {
                let (c, i) = ty.sort_key();
                (3, c, i)
            },
            EffectEntry::Pure(PureEffect::Divergence) => (4, 0, 0),
            EffectEntry::Pure(PureEffect::Cancellation) => (5, 0, 0),
            EffectEntry::Pure(PureEffect::Nondet) => (6, 0, 0),
        }
    }

    /// Whether this entry stands before `other` in a row.
    pub fn is_before(self, other: EffectEntry) -> (r: bool)
        ensures
            r == self.precedes(other),
    {
        let (a0, a1, a2) = self.sort_key();
        let (b0, b1, b2) = other.sort_key();
        a0 < b0 || (a0 == b0 && (a1 < b1 || (a1 == b1 && a2 < b2)))
    }

    /// Whether the entry is `panic` or `yield: T`.
    pub fn is_comptime_envelope(self) -> (r: bool)
        ensures
            r == self.in_comptime_envelope(),
    {
        match self {
            EffectEntry::Pure(PureEffect::Panic) => true,
            EffectEntry::Pure(PureEffect::Yield(_)) => true,
            _ => false,
        }
    }
}

/// Whether `entry` is an element of `list`.
pub open spec fn lists(list: List<EffectEntry>, entry: EffectEntry) -> bool
    decreases list,
{
    match list {
        List::Nil => false,
        List::Cons(head, tail) => *head == entry || lists(*tail, entry),
    }
}

/// Whether `list` is in strictly increasing order.
pub open spec fn ordered(list: List<EffectEntry>) -> bool
    decreases list,
{
    match list {
        List::Nil => true,
        List::Cons(head, tail) => ordered(*tail) && match *tail {
            List::Nil => true,
            List::Cons(next, _) => head.precedes(*next),
        },
    }
}

/// `list` with `entry` put at its place, unless it is there already.
pub open spec fn inserted(list: List<EffectEntry>, entry: EffectEntry) -> List<EffectEntry>
    decreases list,
{
    match list {
        List::Nil => List::Cons(Box::new(entry), Box::new(List::Nil)),
        List::Cons(head, tail) => if *head == entry {
            list
        } else if entry.precedes(*head) {
            List::Cons(Box::new(entry), Box::new(list))
        } else {
            List::Cons(head, Box::new(inserted(*tail, entry)))
        },
    }
}

/// The canonical list of the entries of `entries`.
pub open spec fn canonical(entries: Seq<EffectEntry>) -> List<EffectEntry>
    decreases entries.len(),
{
    if entries.len() == 0 {
        List::Nil
    } else {
        inserted(canonical(entries.drop_last()), entries.last())
    }
}

/// A set of effect entries in canonical order.
#[derive(Debug, PartialEq, Eq)]
pub struct EffectRow {
    /// The entries.
    pub list: List<EffectEntry>,
}

impl EffectRow {
    /// Whether the row has no entry.
    pub open spec fn no_entries(self) -> bool {
        self.list == List::<EffectEntry>::Nil
    }

    /// The row without entries.
    pub fn empty() -> (r: EffectRow)
        ensures
            r == (EffectRow { list: List::Nil }),
    {
        EffectRow { list: List::Nil }
    }

    /// The row of the given entries.
    pub fn from_entries(entries: &Vec<EffectEntry>) -> (r: EffectRow)
        ensures
            r == (EffectRow { list: canonical(entries@) }),
    {
        let mut list: List<EffectEntry> = List::Nil;
        let mut i: usize = 0;
        assert(entries@.take(0) == Seq::<EffectEntry>::empty());
        while i < entries.len()
            invariant
                i <= entries.len(),
                list == canonical(entries@.take(i as int)),
            decreases entries.len() - i,
        {
            assert(entries@.take(i + 1).drop_last() == entries@.take(i as int));
            list = insert_entry(list, entries[i]);
            i += 1;
        }
        assert(entries@.take(i as int) == entries@);
        EffectRow { list }
    }

    /// Whether the row has `entry`.
    pub fn contains(&self, entry: &EffectEntry) -> (r: bool)
        ensures
            r == lists(self.list, *entry),
    {
        list_has(&self.list, *entry)
    }

    /// The entries in canonical order.
    pub fn entries(&self) -> (r: Vec<EffectEntry>)
        ensures
            r@ == self.list.seq(),
    {
        self.list.to_vec()
    }

    /// Number of entries.
    pub fn len(&self) -> (r: usize)
        ensures
            r == self.list.length(),
    {
        self.list.len()
    }

    /// Whether the row has no entry.
    pub fn is_empty(&self) -> (r: bool)
        ensures
            r == self.no_entries(),
    {
        self.list.is_empty()
    }

    /// A copy of the row.
    pub fn dup(&self) -> (r: EffectRow)
        ensures
            r == *self,
    {
        EffectRow { list: self.list.dup() }
    }

    /// Whether two rows are equal.
    pub fn same(&self, other: &EffectRow) -> (r: bool)
        ensures
            r == (*self == *other),
    {
        same_entries(&self.list, &other.list)
    }
}

fn list_has(list: &List<EffectEntry>, entry: EffectEntry) -> (r: bool)
    ensures
        r == lists(*list, entry),
    decreases list,
{
    match list {
        List::Nil => false,
        List::Cons(head, tail) => **head == entry || list_has(tail, entry),
    }
}

fn same_entries(a: &List<EffectEntry>, b: &List<EffectEntry>) -> (r: bool)
    ensures
        r == (*a == *b),
    decreases a,
{
    match (a, b) {
        (List::Nil, List::Nil) => true,
        (List::Cons(x, s), List::Cons(y, t)) => **x == **y && same_entries(s, t),
        _ => false,
    }
}

fn insert_entry(list: List<EffectEntry>, entry: EffectEntry) -> (r: List<EffectEntry>)
    ensures
        r == inserted(list, entry),
    decreases list,
{
    match list {
        List::Nil => List::cons(entry, List::Nil),
        List::Cons(head, tail) => {
            if *head == entry {
                List::Cons(head, tail)
            } else if entry.is_before(*head) {
                List::cons(entry, List::Cons(head, tail))
            } else {
                List::Cons(head, Box::new(insert_entry(*tail, entry)))
            }
        },
    }
}

/// Different entries have different places, so the order is total.
pub proof fn law_entry_order(a: EffectEntry, b: EffectEntry)
    ensures
        a == b || a.precedes(b) || b.precedes(a),
        !(a.precedes(b) && b.precedes(a)),
        !a.precedes(a),
{
}

/// `inserted` keeps the order and adds exactly `entry`.
proof fn lemma_inserted(list: List<EffectEntry>, entry: EffectEntry)
    ensures
        ordered(list) ==> ordered(inserted(list, entry)),
        forall|e: EffectEntry| #[trigger]
            lists(inserted(list, entry), e) <==> (e == entry || lists(list, e)),
    decreases list,
{
    match list {
        List::Nil => {
            assert forall|e: EffectEntry| #[trigger]
                lists(inserted(list, entry), e) <==> (e == entry || lists(list, e)) by {
                let tail: List<EffectEntry> = List::Nil;
                assert(!lists(tail, e));
            }
        },
        List::Cons(head, tail) => {
            lemma_inserted(*tail, entry);
            assert forall|e: EffectEntry| #[trigger]
                lists(inserted(list, entry), e) <==> (e == entry || lists(list, e)) by {
                assert(lists(inserted(*tail, entry), e) <==> (e == entry || lists(*tail, e)));
            }
        },
    }
}

/// A row built from entries is in canonical order and has exactly those
/// entries.
pub proof fn law_row_canonical(entries: Seq<EffectEntry>)
    ensures
        ordered(canonical(entries)),
        forall|e: EffectEntry| #[trigger] lists(canonical(entries), e) <==> entries.contains(e),
    decreases entries.len(),
{
    if entries.len() > 0 {
        let rest = entries.drop_last();
        law_row_canonical(rest);
        lemma_inserted(canonical(rest), entries.last());
        assert forall|e: EffectEntry| #[trigger]
            lists(canonical(entries), e) <==> entries.contains(e) by {
            assert(lists(canonical(entries), e) <==> (e == entries.last() || rest.contains(e)));
            if entries.contains(e) {
                let i = choose|i: int| 0 <= i < entries.len() && entries[i] == e;
                if i < rest.len() {
                    assert(rest[i] == e);
                }
            }
            if rest.contains(e) {
                let i = choose|i: int| 0 <= i < rest.len() && rest[i] == e;
                assert(entries[i] == e);
            }
            assert(entries[entries.len() - 1] == entries.last());
        }
    }
}

/// In an ordered list the head stands before every element of the tail.
pub(crate) proof fn lemma_head_first(list: List<EffectEntry>, e: EffectEntry)
    requires
        ordered(list),
        list is Cons,
        lists(*list->Cons_1, e),
    ensures
        list->Cons_0.precedes(e),
    decreases list,
{
    let tail = *list->Cons_1;
    match tail {
        List::Nil => {},
        List::Cons(next, rest) => {
            if *next != e {
                lemma_head_first(tail, e);
            }
        },
    }
}

/// Two canonical rows with the same entries are the same row.
pub proof fn law_row_identity(a: List<EffectEntry>, b: List<EffectEntry>)
    requires
        ordered(a),
        ordered(b),
        forall|e: EffectEntry| #[trigger] lists(a, e) <==> lists(b, e),
    ensures
        a == b,
    decreases a,
{
    match (a, b) {
        (List::Nil, List::Nil) => {},
        (List::Nil, List::Cons(h, _)) => {
            assert(lists(b, *h));
            assert(lists(a, *h));
        },
        (List::Cons(h, _), List::Nil) => {
            assert(lists(a, *h));
            assert(lists(b, *h));
        },
        (List::Cons(x, s), List::Cons(y, t)) => {
            assert(lists(a, *x) && lists(b, *y));
            assert(lists(b, *x) && lists(a, *y));
            if *x != *y {
                lemma_head_first(a, *y);
                lemma_head_first(b, *x);
            }
            assert forall|e: EffectEntry| #[trigger] lists(*s, e) <==> lists(*t, e) by {
                assert(lists(a, e) <==> lists(b, e));
                if lists(*s, e) {
                    lemma_head_first(a, e);
                }
                if lists(*t, e) {
                    lemma_head_first(b, e);
                }
            }
            law_row_identity(*s, *t);
        },
    }
}

} // verus!
