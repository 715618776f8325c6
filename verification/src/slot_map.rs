//! A verified in-memory store over 256-bit words, recorded as the sequence of
//! writes made to it. Its view is the key-value map those writes build up,
//! with later writes winning; it backs the storage trie, the write overlay
//! and the transient store of the reference host.

use crate::bytes::Bytes32;
use vstd::prelude::*;

verus! {

/// The key-value map a sequence of writes stands for: each write inserts its
/// key, and a later write to the same key wins.
pub open spec fn entries_map(s: Seq<(Bytes32, Bytes32)>) -> Map<Seq<u8>, Seq<u8>>
    decreases s.len(),
{
    if s.len() == 0 {
        Map::<Seq<u8>, Seq<u8>>::empty()
    } else {
        entries_map(s.drop_last()).insert(s.last().0@, s.last().1@)
    }
}

/// Extending a write sequence by one entry inserts that entry's pair into
/// the map the sequence stands for.
pub proof fn lemma_entries_map_take_step(s: Seq<(Bytes32, Bytes32)>, i: int)
    requires
        0 <= i < s.len(),
    ensures
        entries_map(s.take(i + 1)) == entries_map(s.take(i)).insert(s[i].0@, s[i].1@),
{
    assert(s.take(i + 1).drop_last() =~= s.take(i));
    assert(s.take(i + 1).last() == s[i]);
}

/// An in-memory key-value store over 256-bit words.
#[derive(Clone, Debug)]
pub struct SlotMap {
    entries: Vec<(Bytes32, Bytes32)>,
}

impl View for SlotMap {
    type V = Map<Seq<u8>, Seq<u8>>;

    closed spec fn view(&self) -> Map<Seq<u8>, Seq<u8>> {
        entries_map(self.entries@)
    }
}

impl SlotMap {
    /// The number of recorded writes; an upper bound on the number of keys.
    pub closed spec fn write_count(&self) -> nat {
        self.entries@.len()
    }

    /// An empty store.
    pub fn new() -> (r: SlotMap)
        ensures
            r@ == Map::<Seq<u8>, Seq<u8>>::empty(),
            r.write_count() == 0,
    {
        SlotMap { entries: Vec::new() }
    }

    /// The number of writes recorded so far.
    pub fn len(&self) -> (r: usize)
        ensures
            r == self.write_count(),
    {
        self.entries.len()
    }

    /// Records a write: the view gains (or overwrites) the pair.
    pub fn insert(&mut self, key: Bytes32, value: Bytes32)
        ensures
            final(self)@ == old(self)@.insert(key@, value@),
            final(self).write_count() == old(self).write_count() + 1,
    {
        self.entries.push((key, value));
        proof {
            assert(self.entries@.drop_last() =~= old(self).entries@);
        }
    }

    /// Looks a key up: `Some` of the most recently written value when the key
    /// is present, `None` when it was never written.
    pub fn get(&self, key: &Bytes32) -> (r: Option<Bytes32>)
        ensures
            match r {
                Some(v) => self@.contains_key(key@) && v@ == self@[key@],
                None => !self@.contains_key(key@),
            },
    {
        let ghost full = self.entries@;
        proof {
            assert(full.take(full.len() as int) =~= full);
        }
        let mut i: usize = self.entries.len();
        while i > 0
            invariant
                i <= self.entries@.len(),
                self.entries@ == full,
                self@.contains_key(key@) == entries_map(full.take(i as int)).contains_key(key@),
                self@.contains_key(key@) ==> self@[key@] == entries_map(full.take(i as int))[key@],
            decreases i,
        {
            proof {
                lemma_entries_map_take_step(full, i - 1);
            }
            let entry = self.entries[i - 1];
            if entry.0 == *key {
                return Some(entry.1);
            }
            i -= 1;
        }
        proof {
            assert(full.take(0int) =~= Seq::<(Bytes32, Bytes32)>::empty());
        }
        None
    }

    /// Discards every write: the view becomes the empty map.
    pub fn clear(&mut self)
        ensures
            final(self)@ == Map::<Seq<u8>, Seq<u8>>::empty(),
            final(self).write_count() == 0,
    {
        self.entries.clear();
    }

    /// Replays every write of `other` onto `self`, in order: the view becomes
    /// the union of the two maps, with `other`'s pairs winning on shared keys.
    pub fn merge_from(&mut self, other: &SlotMap)
        ensures
            final(self)@ == old(self)@.union_prefer_right(other@),
    {
        let ghost src = other.entries@;
        let mut i: usize = 0;
        while i < other.entries.len()
            invariant
                i <= src.len(),
                other.entries@ == src,
                self@ == old(self)@.union_prefer_right(entries_map(src.take(i as int))),
            decreases src.len() - i,
        {
            proof {
                lemma_entries_map_take_step(src, i as int);
            }
            let entry = other.entries[i];
            let ghost before = self@;
            self.insert(entry.0, entry.1);
            proof {
                assert(before.union_prefer_right(
                    entries_map(src.take(i as int)).insert(entry.0@, entry.1@),
                ) =~= before.union_prefer_right(entries_map(src.take(i as int))).insert(
                    entry.0@,
                    entry.1@,
                ));
            }
            i += 1;
        }
        proof {
            assert(src.take(src.len() as int) =~= src);
        }
    }
}

} // verus!
