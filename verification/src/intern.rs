//! Interned identifier text.

use vstd::prelude::*;

use crate::text::same_text;

verus! {

/// Handle of an interned text.
#[derive(Copy, Clone, Debug, PartialEq, Eq, Structural, Hash)]
pub struct Symbol(pub usize);

/// What a symbol without an entry reads as.
pub open spec fn missing_text() -> Seq<char> {
    "<missing>"@
}

/// The text behind `sym` in a table of texts.
pub open spec fn text_of(table: Seq<Seq<char>>, sym: Symbol) -> Seq<char> {
    if sym.0 < table.len() {
        table[sym.0 as int]
    } else {
        missing_text()
    }
}

/// The position of the first entry of `table` from `from` on that reads `text`.
pub open spec fn position_from(table: Seq<Seq<char>>, text: Seq<char>, from: int) -> int
    decreases table.len() - from,
{
    if from >= table.len() {
        table.len() as int
    } else if table[from] == text {
        from
    } else {
        position_from(table, text, from + 1)
    }
}

/// The table and handle after interning `text`: the first entry that already
/// reads so, or a new entry at the end.
pub open spec fn interned(table: Seq<Seq<char>>, text: Seq<char>) -> (Seq<Seq<char>>, Symbol) {
    let at = position_from(table, text, 0);
    if at < table.len() {
        (table, Symbol(at as usize))
    } else {
        (table.push(text), Symbol(table.len() as usize))
    }
}

/// A growing table of distinct texts.
#[derive(Debug)]
pub struct Interner {
    entries: Vec<String>,
}

impl View for Interner {
    type V = Seq<Seq<char>>;

    closed spec fn view(&self) -> Seq<Seq<char>> {
        Seq::new(self.entries@.len(), |i: int| self.entries@[i]@)
    }
}

impl Interner {
    /// A table without entries.
    pub fn new() -> (r: Interner)
        ensures
            r@ == Seq::<Seq<char>>::empty(),
    {
        let r = Interner { entries: Vec::new() };
        assert(r@ == Seq::<Seq<char>>::empty());
        r
    }

    /// Whether every text has one entry only.
    pub open spec fn distinct(table: Seq<Seq<char>>) -> bool {
        forall|i: int, j: int| 0 <= i < j < table.len() ==> table[i] != table[j]
    }

    /// The text of `sym`.
    pub fn resolve(&self, sym: Symbol) -> (r: &str)
        ensures
            r@ == text_of(self@, sym),
    {
        if sym.0 < self.entries.len() {
            self.entries[sym.0].as_str()
        } else {
            "<missing>"
        }
    }

    /// Whether `sym` reads `text`.
    pub fn reads(&self, sym: Symbol, text: &str) -> (r: bool)
        ensures
            r == (text_of(self@, sym) == text@),
    {
        same_text(self.resolve(sym), text)
    }

    /// The handle of `text`, from a new entry where it has none yet.
    pub fn intern(&mut self, text: &str) -> (r: Symbol)
        ensures
            (final(self)@, r) == interned(old(self)@, text@),
    {
        let n: usize = self.entries.len();
        let mut i: usize = 0;
        while i < n
            invariant
                n == self.entries.len(),
                i <= n,
                position_from(self@, text@, 0) == position_from(self@, text@, i as int),
            decreases n - i,
        {
            if same_text(self.entries[i].as_str(), text) {
                return Symbol(i);
            }
            i += 1;
        }
        self.entries.push(text.to_owned());
        assert(self@ == old(self)@.push(text@));
        Symbol(n)
    }
}

/// Bounds and meaning of a found position.
proof fn lemma_position(table: Seq<Seq<char>>, text: Seq<char>, from: int)
    requires
        0 <= from <= table.len(),
    ensures
        from <= position_from(table, text, from) <= table.len(),
        position_from(table, text, from) < table.len() ==> table[position_from(table, text, from)]
            == text,
        position_from(table, text, from) == table.len() ==> forall|i: int|
            from <= i < table.len() ==> table[i] != text,
    decreases table.len() - from,
{
    if from < table.len() && table[from] != text {
        lemma_position(table, text, from + 1);
    }
}

/// Interning gives a handle that reads back as the text, keeps every earlier
/// handle's text, and keeps entries distinct.
pub proof fn law_intern(table: Seq<Seq<char>>, text: Seq<char>, sym: Symbol)
    requires
        table.len() < usize::MAX,
    ensures
        text_of(interned(table, text).0, interned(table, text).1) == text,
        sym.0 < table.len() ==> text_of(interned(table, text).0, sym) == text_of(table, sym),
        Interner::distinct(table) ==> Interner::distinct(interned(table, text).0),
{
    lemma_position(table, text, 0);
}

/// Interning the same text again changes nothing and gives the same handle.
pub proof fn law_intern_twice(table: Seq<Seq<char>>, text: Seq<char>)
    requires
        table.len() < usize::MAX,
    ensures
        interned(interned(table, text).0, text) == interned(table, text),
{
    lemma_position(table, text, 0);
    let once = interned(table, text);
    lemma_position(once.0, text, 0);
    if position_from(table, text, 0) == table.len() {
        assert(once.0[table.len() as int] == text);
        let at = position_from(once.0, text, 0);
        if at < table.len() {
            assert(once.0[at] == table[at]);
        }
    }
}

} // verus!
