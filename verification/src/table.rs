//! Hash tables keyed by symbols and by source locations.
//!
//! Both tables rest on one `ahash::AHashMap` from a triple of integers to an
//! integer.

use ahash::AHashMap;
use vstd::prelude::*;

use crate::intern::Symbol;
use crate::span::Span;

verus! {

/// The hasher state inside an `AHashMap`; opaque here.
#[verifier::external_type_specification]
#[verifier::external_body]
pub struct ExRandomState(ahash::RandomState);

/// `ahash::AHashMap`; opaque here, its contents are named by [`entries_of`].
#[verifier::external_type_specification]
#[verifier::external_body]
#[verifier::reject_recursive_types(K)]
#[verifier::reject_recursive_types(V)]
#[verifier::reject_recursive_types(S)]
pub struct ExAHashMap<K, V, S>(ahash::AHashMap<K, V, S>);

/// Which key holds which value in a map.
pub uninterp spec fn entries_of(map: AHashMap<(usize, usize, usize), usize>) -> Map<
    (usize, usize, usize),
    usize,
>;

/// `AHashMap::default`: a map that holds no key.
#[verifier::external_body]
fn empty_map() -> (r: AHashMap<(usize, usize, usize), usize>)
    ensures
        forall|k: (usize, usize, usize)| !entries_of(r).contains_key(k),
{
    AHashMap::default()
}

/// `AHashMap::get`, with the found value copied out: the value that the map
/// holds for `key`, or `None` where it holds none.
#[verifier::external_body]
fn map_get(map: &AHashMap<(usize, usize, usize), usize>, key: (usize, usize, usize)) -> (r: Option<
    usize,
>)
    ensures
        r == (if entries_of(*map).contains_key(key) {
            Some(entries_of(*map)[key])
        } else {
            None
        }),
{
    map.get(&key).copied()
}

/// `AHashMap::insert`, with the replaced value left out: afterwards the map
/// holds `value` for `key`, and every other key as before.
#[verifier::external_body]
fn map_insert(
    map: &mut AHashMap<(usize, usize, usize), usize>,
    key: (usize, usize, usize),
    value: usize,
)
    ensures
        entries_of(*final(map)) == entries_of(*old(map)).insert(key, value),
{
    map.insert(key, value);
}

/// A map from symbols to symbols.
pub struct SymbolTable {
    map: AHashMap<(usize, usize, usize), usize>,
}

impl View for SymbolTable {
    type V = Map<Symbol, Symbol>;

    closed spec fn view(&self) -> Map<Symbol, Symbol> {
        Map::new(
            |s: Symbol| entries_of(self.map).contains_key((s.0, 0, 0)),
            |s: Symbol| Symbol(entries_of(self.map)[(s.0, 0, 0)]),
        )
    }
}

impl SymbolTable {
    /// A map without entries.
    pub fn new() -> (r: SymbolTable)
        ensures
            r@ == Map::<Symbol, Symbol>::empty(),
    {
        let r = SymbolTable { map: empty_map() };
        assert(r@ == Map::<Symbol, Symbol>::empty());
        r
    }

    /// What `key` maps to.
    pub fn get(&self, key: Symbol) -> (r: Option<Symbol>)
        ensures
            r == (if self@.contains_key(key) {
                Some(self@[key])
            } else {
                None
            }),
    {
        match map_get(&self.map, (key.0, 0, 0)) {
            Some(value) => Some(Symbol(value)),
            None => None,
        }
    }

    /// Map `key` to `value`.
    pub fn insert(&mut self, key: Symbol, value: Symbol)
        ensures
            final(self)@ == old(self)@.insert(key, value),
    {
        map_insert(&mut self.map, (key.0, 0, 0), value.0);
        assert(self@ == old(self)@.insert(key, value));
    }
}

/// The integers that stand for a source location.
pub open spec fn span_key(span: Span) -> (usize, usize, usize) {
    (span.file as usize, span.start as usize, span.end as usize)
}

/// A map from source locations to values.
pub struct SpanTable<V> {
    /// Where the value of a location stands in `rows`.
    index: AHashMap<(usize, usize, usize), usize>,
    /// Every inserted pair, oldest first.
    rows: Vec<(Span, V)>,
}

impl<V> View for SpanTable<V> {
    type V = Map<Span, V>;

    closed spec fn view(&self) -> Map<Span, V> {
        Map::new(
            |s: Span|
                {
                    &&& entries_of(self.index).contains_key(span_key(s))
                    &&& entries_of(self.index)[span_key(s)] < self.rows@.len()
                    &&& self.rows@[entries_of(self.index)[span_key(s)] as int].0 == s
                },
            |s: Span| self.rows@[entries_of(self.index)[span_key(s)] as int].1,
        )
    }
}

impl<V: Copy> SpanTable<V> {
    /// A map without entries.
    pub fn new() -> (r: SpanTable<V>)
        ensures
            r@ == Map::<Span, V>::empty(),
    {
        let r = SpanTable { index: empty_map(), rows: Vec::new() };
        assert(r@ == Map::<Span, V>::empty());
        r
    }

    /// What `span` maps to.
    pub fn get(&self, span: Span) -> (r: Option<V>)
        ensures
            r == (if self@.contains_key(span) {
                Some(self@[span])
            } else {
                None
            }),
    {
        match map_get(&self.index, (span.file as usize, span.start as usize, span.end as usize)) {
            Some(at) => if at < self.rows.len() && self.rows[at].0 == span {
                Some(self.rows[at].1)
            } else {
                None
            },
            None => None,
        }
    }

    /// Map `span` to `value`.
    pub fn insert(&mut self, span: Span, value: V)
        ensures
            final(self)@ == old(self)@.insert(span, value),
    {
        let at: usize = self.rows.len();
        self.rows.push((span, value));
        map_insert(
            &mut self.index,
            (span.file as usize, span.start as usize, span.end as usize),
            at,
        );
        assert(self@ == old(self)@.insert(span, value));
    }
}

} // verus!
