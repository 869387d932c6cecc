//! Accumulation of the effects of a walk.

use vstd::prelude::*;

use crate::effect::{canonical, EffectEntry, EffectRow};

verus! {

/// `entries` without the occurrences of `entry`.
pub open spec fn without_entry(entries: Seq<EffectEntry>, entry: EffectEntry) -> Seq<EffectEntry>
    decreases entries.len(),
{
    if entries.len() == 0 {
        entries
    } else {
        let front = without_entry(entries.drop_last(), entry);
        if entries.last() == entry {
            front
        } else {
            front.push(entries.last())
        }
    }
}

/// `entries` without `panic` and `yield: T`.
pub open spec fn without_envelope(entries: Seq<EffectEntry>) -> Seq<EffectEntry>
    decreases entries.len(),
{
    if entries.len() == 0 {
        entries
    } else {
        let front = without_envelope(entries.drop_last());
        if entries.last().in_comptime_envelope() {
            front
        } else {
            front.push(entries.last())
        }
    }
}

/// The accumulated entries after discharging `entry` from position `cp` on.
pub open spec fn discharged(entries: Seq<EffectEntry>, cp: nat, entry: EffectEntry) -> Seq<
    EffectEntry,
> {
    entries.take(cp as int) + without_entry(entries.skip(cp as int), entry)
}

/// The accumulated entries after discharging `panic` and `yield: T` from
/// position `cp` on.
pub open spec fn discharged_envelope(entries: Seq<EffectEntry>, cp: nat) -> Seq<EffectEntry> {
    entries.take(cp as int) + without_envelope(entries.skip(cp as int))
}

/// An accumulator of effect entries, in the order in which they were pushed.
#[derive(Debug)]
pub struct EffectAcc {
    entries: Vec<EffectEntry>,
}

impl View for EffectAcc {
    type V = Seq<EffectEntry>;

    closed spec fn view(&self) -> Seq<EffectEntry> {
        self.entries@
    }
}

impl EffectAcc {
    /// An accumulator without entries.
    pub fn new() -> (r: EffectAcc)
        ensures
            r@ == Seq::<EffectEntry>::empty(),
    {
        EffectAcc { entries: Vec::new() }
    }

    /// Push an entry; repetitions are kept until [`EffectAcc::to_row`].
    pub fn push(&mut self, entry: EffectEntry)
        ensures
            final(self)@ == old(self)@.push(entry),
    {
        self.entries.push(entry);
    }

    /// The current position.
    pub fn checkpoint(&self) -> (r: usize)
        ensures
            r == self@.len(),
    {
        self.entries.len()
    }

    /// The entries pushed since position `cp`.
    pub fn entries_since(&self, cp: usize) -> (r: &[EffectEntry])
        requires
            cp <= self@.len(),
        ensures
            r@ == self@.skip(cp as int),
    {
        let r = vstd::slice::slice_subrange(self.entries.as_slice(), cp, self.entries.len());
        assert(r@ == self@.skip(cp as int));
        r
    }

    /// The accumulated entries as a row.
    pub fn to_row(&self) -> (r: EffectRow)
        ensures
            r == (EffectRow { list: canonical(self@) }),
    {
        EffectRow::from_entries(&self.entries)
    }

    /// Drop every entry.
    pub fn clear(&mut self)
        ensures
            final(self)@ == Seq::<EffectEntry>::empty(),
    {
        self.entries.clear();
    }

    /// Drop every occurrence of `entry` from position `cp` on.
    pub fn discharge_since(&mut self, cp: usize, entry: &EffectEntry)
        requires
            cp <= old(self)@.len(),
        ensures
            final(self)@ == discharged(old(self)@, cp as nat, *entry),
    {
        let ghost all = self@;
        let n: usize = self.entries.len();
        let mut write: usize = cp;
        let mut read: usize = cp;
        assert(all.subrange(cp as int, cp as int) == Seq::<EffectEntry>::empty());
        assert(all.take(cp as int) == all.take(cp as int) + Seq::<EffectEntry>::empty());
        while read < n
            invariant
                cp <= write <= read <= n,
                n == all.len(),
                self@.len() == n,
                self@.take(write as int) == all.take(cp as int) + without_entry(
                    all.subrange(cp as int, read as int),
                    *entry,
                ),
                forall|i: int| read <= i < n ==> self@[i] == all[i],
            decreases n - read,
        {
            let ghost part = all.subrange(cp as int, read as int);
            let ghost next = all.subrange(cp as int, read + 1);
            proof {
                assert(next.drop_last() == part);
                assert(next.last() == all[read as int]);
            }
            let item = self.entries[read];
            if !(item == *entry) {
                let ghost before = self@;
                self.entries.set(write, item);
                write += 1;
                proof {
                    assert(self@.take(write as int) == before.take(write - 1).push(item));
                    assert(all.take(cp as int) + without_entry(part, *entry).push(item) == (
                    all.take(cp as int) + without_entry(part, *entry)).push(item));
                }
            }
            read += 1;
        }
        assert(all.subrange(cp as int, n as int) == all.skip(cp as int));
        self.entries.truncate(write);
        assert(self@ == discharged(all, cp as nat, *entry));
    }

    /// Drop `panic` and `yield: T` from position `cp` on.
    pub fn discharge_comptime_envelope_since(&mut self, cp: usize)
        requires
            cp <= old(self)@.len(),
        ensures
            final(self)@ == discharged_envelope(old(self)@, cp as nat),
    {
        let ghost all = self@;
        let n: usize = self.entries.len();
        let mut write: usize = cp;
        let mut read: usize = cp;
        assert(all.subrange(cp as int, cp as int) == Seq::<EffectEntry>::empty());
        assert(all.take(cp as int) == all.take(cp as int) + Seq::<EffectEntry>::empty());
        while read < n
            invariant
                cp <= write <= read <= n,
                n == all.len(),
                self@.len() == n,
                self@.take(write as int) == all.take(cp as int) + without_envelope(
                    all.subrange(cp as int, read as int),
                ),
                forall|i: int| read <= i < n ==> self@[i] == all[i],
            decreases n - read,
        {
            let ghost part = all.subrange(cp as int, read as int);
            let ghost next = all.subrange(cp as int, read + 1);
            proof {
                assert(next.drop_last() == part);
                assert(next.last() == all[read as int]);
            }
            let item = self.entries[read];
            if !item.is_comptime_envelope() {
                let ghost before = self@;
                self.entries.set(write, item);
                write += 1;
                proof {
                    assert(self@.take(write as int) == before.take(write - 1).push(item));
                    assert(all.take(cp as int) + without_envelope(part).push(item) == (all.take(
                        cp as int,
                    ) + without_envelope(part)).push(item));
                }
            }
            read += 1;
        }
        assert(all.subrange(cp as int, n as int) == all.skip(cp as int));
        self.entries.truncate(write);
        assert(self@ == discharged_envelope(all, cp as nat));
    }
}

impl Default for EffectAcc {
    fn default() -> (r: EffectAcc)
        ensures
            r@ == Seq::<EffectEntry>::empty(),
    {
        EffectAcc::new()
    }
}

proof fn lemma_without_entry(entries: Seq<EffectEntry>, entry: EffectEntry, e: EffectEntry)
    ensures
        without_entry(entries, entry).contains(e) <==> (entries.contains(e) && e != entry),
    decreases entries.len(),
{
    if entries.len() > 0 {
        let rest = entries.drop_last();
        lemma_without_entry(rest, entry, e);
        let front = without_entry(rest, entry);
        assert(entries == rest.push(entries.last()));
        lemma_push_contains(rest, entries.last(), e);
        lemma_push_contains(front, entries.last(), e);
    }
}

proof fn lemma_without_envelope(entries: Seq<EffectEntry>, e: EffectEntry)
    ensures
        without_envelope(entries).contains(e) <==> (entries.contains(e)
            && !e.in_comptime_envelope()),
    decreases entries.len(),
{
    if entries.len() > 0 {
        let rest = entries.drop_last();
        lemma_without_envelope(rest, e);
        let front = without_envelope(rest);
        assert(entries == rest.push(entries.last()));
        lemma_push_contains(rest, entries.last(), e);
        lemma_push_contains(front, entries.last(), e);
    }
}

proof fn lemma_push_contains(s: Seq<EffectEntry>, x: EffectEntry, e: EffectEntry)
    ensures
        s.push(x).contains(e) <==> (s.contains(e) || x == e),
{
    if s.contains(e) {
        let i = choose|i: int| 0 <= i < s.len() && s[i] == e;
        assert(s.push(x)[i] == e);
    }
    assert(s.push(x)[s.len() as int] == x);
    if s.push(x).contains(e) && x != e {
        let i = choose|i: int| 0 <= i < s.push(x).len() && s.push(x)[i] == e;
        assert(s[i] == e);
    }
}

/// After a discharge the entries before the checkpoint are untouched, and of
/// those after it exactly the occurrences of the discharged entry are gone.
pub proof fn law_discharge(entries: Seq<EffectEntry>, cp: nat, entry: EffectEntry, e: EffectEntry)
    requires
        cp <= entries.len(),
    ensures
        discharged(entries, cp, entry).take(cp as int) == entries.take(cp as int),
        discharged(entries, cp, entry).skip(cp as int).contains(e) <==> (entries.skip(
            cp as int,
        ).contains(e) && e != entry),
{
    let tail = entries.skip(cp as int);
    lemma_without_entry(tail, entry, e);
    assert(discharged(entries, cp, entry).take(cp as int) == entries.take(cp as int));
    assert(discharged(entries, cp, entry).skip(cp as int) == without_entry(tail, entry));
}

/// After discharging the compile-time envelope the entries before the
/// checkpoint are untouched, and of those after it exactly `panic` and
/// `yield: T` are gone.
pub proof fn law_discharge_envelope(entries: Seq<EffectEntry>, cp: nat, e: EffectEntry)
    requires
        cp <= entries.len(),
    ensures
        discharged_envelope(entries, cp).take(cp as int) == entries.take(cp as int),
        discharged_envelope(entries, cp).skip(cp as int).contains(e) <==> (entries.skip(
            cp as int,
        ).contains(e) && !e.in_comptime_envelope()),
{
    let tail = entries.skip(cp as int);
    lemma_without_envelope(tail, e);
    assert(discharged_envelope(entries, cp).take(cp as int) == entries.take(cp as int));
    assert(discharged_envelope(entries, cp).skip(cp as int) == without_envelope(tail));
}

} // verus!
