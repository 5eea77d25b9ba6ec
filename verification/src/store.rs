//! The time-indexed event store: a mapping from moment to event bytes plus a
//! pointer to the most recent moment written. Entries are created only by the
//! ingestion path, destroyed only by an admitted prune, and never updated in
//! place. The store is modelled by the map `feeds()` together with the pointer
//! `most_recent_moment()`.

use vstd::prelude::*;

verus! {

/// A comparable timestamp value used to index events
/// (for example, milliseconds since an epoch).
pub type Moment = u64;

/// Holds the events keyed by the moment they were fed, and the moment of the
/// most recent (last) successful feed. The pointer is advanced on every write,
/// last-write-wins, and is never rolled back by a prune.
pub struct EventStore {
    entries: Vec<(Moment, Vec<u8>)>,
    most_recent: Moment,
}

/// No two entries share a moment, so the association list denotes a map.
spec fn keys_unique(entries: Seq<(Moment, Vec<u8>)>) -> bool {
    forall|i: int, j: int|
        0 <= i < j < entries.len() ==> (#[trigger] entries[i]).0 != (#[trigger] entries[j]).0
}

/// The map an association list denotes (later entries win, which is moot once
/// keys are unique).
spec fn entries_map(entries: Seq<(Moment, Vec<u8>)>) -> Map<Moment, Seq<u8>>
    decreases entries.len(),
{
    if entries.len() == 0 {
        Map::empty()
    } else {
        entries_map(entries.drop_last()).insert(entries.last().0, entries.last().1@)
    }
}

/// A moment is a key of the denoted map exactly when some entry carries it.
proof fn lemma_entries_map_contains(entries: Seq<(Moment, Vec<u8>)>, t: Moment)
    ensures
        entries_map(entries).contains_key(t) <==> (exists|i: int|
            0 <= i < entries.len() && (#[trigger] entries[i]).0 == t),
    decreases entries.len(),
{
    if entries.len() == 0 {
    } else {
        lemma_entries_map_contains(entries.drop_last(), t);
        if entries.last().0 == t {
            assert((entries[entries.len() - 1]).0 == t);
        } else {
            if exists|i: int| 0 <= i < entries.len() && (#[trigger] entries[i]).0 == t {
                let i = choose|i: int| 0 <= i < entries.len() && (#[trigger] entries[i]).0 == t;
                assert((entries.drop_last()[i]).0 == t);
            }
            if exists|i: int|
                0 <= i < entries.drop_last().len() && (#[trigger] entries.drop_last()[i]).0 == t {
                let i = choose|i: int|
                    0 <= i < entries.drop_last().len() && (#[trigger] entries.drop_last()[i]).0
                        == t;
                assert((entries[i]).0 == t);
            }
        }
    }
}

/// With unique keys, the entry at index `i` gives the map's value at its moment.
proof fn lemma_entries_map_get(entries: Seq<(Moment, Vec<u8>)>, i: int)
    requires
        keys_unique(entries),
        0 <= i < entries.len(),
    ensures
        entries_map(entries).contains_key((entries[i]).0),
        entries_map(entries)[(entries[i]).0] == (entries[i]).1@,
    decreases entries.len(),
{
    if i == entries.len() - 1 {
    } else {
        let head = entries.drop_last();
        assert(keys_unique(head)) by {
            assert(forall|a: int, b: int|
                0 <= a < b < head.len() ==> (#[trigger] head[a]).0 != (#[trigger] head[b]).0);
        }
        lemma_entries_map_get(head, i);
        assert((head[i]).0 == (entries[i]).0 && (head[i]).1 == (entries[i]).1);
        assert(entries.last().0 != (entries[i]).0);
    }
}

/// With unique keys, removing the entry at index `i` removes exactly its
/// moment from the denoted map.
proof fn lemma_entries_map_remove(entries: Seq<(Moment, Vec<u8>)>, i: int)
    requires
        keys_unique(entries),
        0 <= i < entries.len(),
    ensures
        entries_map(entries.remove(i)) == entries_map(entries).remove((entries[i]).0),
    decreases entries.len(),
{
    let t = (entries[i]).0;
    let head = entries.drop_last();
    if i == entries.len() - 1 {
        assert(entries.remove(i) =~= head);
        lemma_entries_map_contains(head, t);
        assert(forall|j: int| 0 <= j < head.len() ==> (#[trigger] head[j]).0 != t);
        assert(!entries_map(head).contains_key(t));
        assert(entries_map(entries).remove(t) =~= entries_map(head));
    } else {
        let last = entries.last();
        assert(keys_unique(head)) by {
            assert(forall|a: int, b: int|
                0 <= a < b < head.len() ==> (#[trigger] head[a]).0 != (#[trigger] head[b]).0);
        }
        lemma_entries_map_remove(head, i);
        assert(entries.remove(i).last() == last);
        assert(entries.remove(i).drop_last() =~= head.remove(i));
        assert(entries_map(entries.remove(i)) == entries_map(head.remove(i)).insert(
            last.0,
            last.1@,
        ));
        assert(last.0 != t);
        assert(entries_map(head).remove(t).insert(last.0, last.1@) =~= entries_map(head).insert(
            last.0,
            last.1@,
        ).remove(t));
    }
}

impl EventStore {
    /// The store is well formed when no moment is stored twice.
    pub closed spec fn wf(self) -> bool {
        keys_unique(self.entries@)
    }

    /// The mathematical content of the store: moment to event bytes.
    pub closed spec fn feeds(self) -> Map<Moment, Seq<u8>> {
        entries_map(self.entries@)
    }

    /// The moment of the most recent successful write (zero before any write).
    pub closed spec fn most_recent_moment(self) -> Moment {
        self.most_recent
    }

    /// An empty store; the pointer defaults to the type's zero value.
    pub fn new() -> (s: EventStore)
        ensures
            s.wf(),
            s.feeds() == Map::<Moment, Seq<u8>>::empty(),
            s.most_recent_moment() == 0,
    {
        EventStore { entries: Vec::new(), most_recent: 0 }
    }

    /// Returns the event stored at `time`, or absent if none is.
    pub fn get(&self, time: Moment) -> (r: Option<&Vec<u8>>)
        requires
            self.wf(),
        ensures
            match r {
                Some(v) => self.feeds().contains_key(time) && v@ == self.feeds()[time],
                None => !self.feeds().contains_key(time),
            },
    {
        let n: usize = self.entries.len();
        let mut i: usize = 0;
        while i < n
            invariant
                n == self.entries.len(),
                i <= n,
                self.wf(),
                forall|j: int| 0 <= j < i ==> (#[trigger] self.entries@[j]).0 != time,
            decreases n - i,
        {
            if self.entries[i].0 == time {
                proof {
                    lemma_entries_map_get(self.entries@, i as int);
                }
                return Some(&self.entries[i].1);
            }
            i = i + 1;
        }
        proof {
            lemma_entries_map_contains(self.entries@, time);
        }
        None
    }

    /// Whether an entry is stored at `time`.
    pub fn contains(&self, time: Moment) -> (r: bool)
        requires
            self.wf(),
        ensures
            r == self.feeds().contains_key(time),
    {
        match self.get(time) {
            Some(_) => true,
            None => false,
        }
    }

    /// Deletes the entry at `time` if one is present; a silent no-op
    /// otherwise. The entry-level counterpart of `Map::remove`; the pointer is
    /// untouched either way.
    fn remove_key(&mut self, time: Moment)
        requires
            old(self).wf(),
        ensures
            final(self).wf(),
            final(self).feeds() == old(self).feeds().remove(time),
            final(self).most_recent_moment() == old(self).most_recent_moment(),
            forall|j: int|
                0 <= j < final(self).entries@.len() ==> (#[trigger] final(self).entries@[j]).0
                    != time,
    {
        let n: usize = self.entries.len();
        let mut i: usize = 0;
        while i < n
            invariant
                n == self.entries.len(),
                i <= n,
                self.wf(),
                *self == *old(self),
                forall|j: int| 0 <= j < i ==> (#[trigger] self.entries@[j]).0 != time,
            decreases n - i,
        {
            if self.entries[i].0 == time {
                proof {
                    lemma_entries_map_remove(self.entries@, i as int);
                }
                let ghost prev = self.entries@;
                self.entries.remove(i);
                proof {
                    assert(keys_unique(self.entries@)) by {
                        assert(forall|a: int, b: int|
                            0 <= a < b < self.entries@.len() ==> (#[trigger] self.entries@[a]).0
                                != (#[trigger] self.entries@[b]).0) by {
                            assert(forall|a: int|
                                0 <= a < self.entries@.len() ==> #[trigger] self.entries@[a] == (
                                if a < i { prev[a] } else { prev[a + 1] }));
                        }
                    }
                    assert(forall|j: int|
                        0 <= j < self.entries@.len() ==> (#[trigger] self.entries@[j]).0 != time)
                        by {
                        assert(forall|a: int|
                            0 <= a < self.entries@.len() ==> #[trigger] self.entries@[a] == (
                            if a < i { prev[a] } else { prev[a + 1] }));
                    }
                }
                return;
            }
            i = i + 1;
        }
        proof {
            lemma_entries_map_contains(self.entries@, time);
            assert(self.feeds().remove(time) =~= self.feeds());
        }
    }

    /// Inserts (or overwrites) the entry at `time` and unconditionally points
    /// `most_recent_moment` at `time`, even when `time` is older than the
    /// current pointer: last-write-wins on the pointer, not max-wins.
    pub fn put(&mut self, time: Moment, event: Vec<u8>)
        requires
            old(self).wf(),
        ensures
            final(self).wf(),
            final(self).feeds() == old(self).feeds().insert(time, event@),
            final(self).most_recent_moment() == time,
    {
        self.remove_key(time);
        let ghost cleared = self.entries@;
        self.entries.push((time, event));
        self.most_recent = time;
        proof {
            assert(self.entries@.drop_last() =~= cleared);
            assert(keys_unique(self.entries@)) by {
                assert(forall|a: int, b: int|
                    0 <= a < b < self.entries@.len() ==> (#[trigger] self.entries@[a]).0 != (
                    #[trigger] self.entries@[b]).0);
            }
            assert(self.feeds() == entries_map(cleared).insert(time, event@));
            assert(old(self).feeds().remove(time).insert(time, event@) =~= old(
                self,
            ).feeds().insert(time, event@));
        }
    }

    /// Deletes the entry at `time`; deleting an absent moment is a no-op.
    /// Never moves the most-recent pointer, even when the pruned moment is the
    /// most recent one.
    pub fn remove(&mut self, time: Moment)
        requires
            old(self).wf(),
        ensures
            final(self).wf(),
            final(self).feeds() == old(self).feeds().remove(time),
            !final(self).feeds().contains_key(time),
            final(self).most_recent_moment() == old(self).most_recent_moment(),
    {
        self.remove_key(time);
    }

    /// Returns the event at the most-recent pointer, or absent: either no
    /// write ever happened, or the most recent entry was itself pruned.
    pub fn most_recent(&self) -> (r: Option<&Vec<u8>>)
        requires
            self.wf(),
        ensures
            match r {
                Some(v) => self.feeds().contains_key(self.most_recent_moment()) && v@
                    == self.feeds()[self.most_recent_moment()],
                None => !self.feeds().contains_key(self.most_recent_moment()),
            },
    {
        self.get(self.most_recent)
    }
}

} // verus!
