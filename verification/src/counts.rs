//! The aggregation state: a running count per message value.
//!
//! The state is owned by the single aggregator task.  It maps each message
//! value seen so far to the number of times that value has been processed;
//! a value never seen counts as zero.  The representation is a list of
//! distinct (value, count) entries, viewed as a `Map<Seq<char>, nat>`.

use crate::record::record_of;
use crate::record::format_record;
use vstd::prelude::*;

verus! {

/// The map denoted by a list of (value, count) entries; a later entry for
/// the same value would shadow an earlier one, but the state keeps its
/// entries distinct.
pub open spec fn entries_map(entries: Seq<(String, u64)>) -> Map<Seq<char>, nat>
    decreases entries.len(),
{
    if entries.len() == 0 {
        Map::empty()
    } else {
        entries_map(entries.drop_last()).insert(entries.last().0@, entries.last().1 as nat)
    }
}

/// The count a state map holds for value `v`; an absent value counts as zero.
pub open spec fn count_of(m: Map<Seq<char>, nat>, v: Seq<char>) -> nat {
    if m.dom().contains(v) {
        m[v]
    } else {
        0
    }
}

/// Distinctness of the entry keys.
pub open spec fn keys_distinct(entries: Seq<(String, u64)>) -> bool {
    forall|i: int, j: int|
        0 <= i < entries.len() && 0 <= j < entries.len() && i != j ==> entries[i].0@
            != entries[j].0@
}

proof fn lemma_entries_map_dom(entries: Seq<(String, u64)>, v: Seq<char>)
    ensures
        entries_map(entries).dom().contains(v) <==> (exists|i: int|
            0 <= i < entries.len() && entries[i].0@ == v),
    decreases entries.len(),
{
    if entries.len() > 0 {
        lemma_entries_map_dom(entries.drop_last(), v);
        if entries.last().0@ == v {
            assert(entries[entries.len() - 1].0@ == v);
        } else if entries_map(entries).dom().contains(v) {
            let i = choose|i: int| 0 <= i < entries.drop_last().len() && entries.drop_last()[i].0@ == v;
            assert(entries[i].0@ == v);
        } else if exists|i: int| 0 <= i < entries.len() && entries[i].0@ == v {
            let i = choose|i: int| 0 <= i < entries.len() && entries[i].0@ == v;
            assert(i < entries.len() - 1);
            assert(entries.drop_last()[i].0@ == v);
        }
    }
}

proof fn lemma_entries_map_index(entries: Seq<(String, u64)>, i: int)
    requires
        keys_distinct(entries),
        0 <= i < entries.len(),
    ensures
        entries_map(entries).dom().contains(entries[i].0@),
        entries_map(entries)[entries[i].0@] == entries[i].1 as nat,
    decreases entries.len(),
{
    if i == entries.len() - 1 {
    } else {
        assert(keys_distinct(entries.drop_last()));
        assert(entries.drop_last()[i] == entries[i]);
        lemma_entries_map_index(entries.drop_last(), i);
        assert(entries.last().0@ != entries[i].0@);
    }
}

proof fn lemma_entries_map_update(entries: Seq<(String, u64)>, i: int, e: (String, u64))
    requires
        keys_distinct(entries),
        0 <= i < entries.len(),
        e.0@ == entries[i].0@,
    ensures
        entries_map(entries.update(i, e)) == entries_map(entries).insert(e.0@, e.1 as nat),
    decreases entries.len(),
{
    let upd = entries.update(i, e);
    if i == entries.len() - 1 {
        assert(upd.drop_last() =~= entries.drop_last());
        assert(upd.last() == e);
        assert(entries_map(entries.update(i, e)) =~= entries_map(entries).insert(
            e.0@,
            e.1 as nat,
        ));
    } else {
        assert(keys_distinct(entries.drop_last()));
        assert(entries.drop_last()[i] == entries[i]);
        lemma_entries_map_update(entries.drop_last(), i, e);
        assert(upd.drop_last() =~= entries.drop_last().update(i, e));
        assert(upd.last() == entries.last());
        assert(entries.last().0@ != e.0@);
        assert(entries_map(upd) =~= entries_map(entries).insert(e.0@, e.1 as nat));
    }
}

proof fn lemma_entries_map_push(entries: Seq<(String, u64)>, e: (String, u64))
    ensures
        entries_map(entries.push(e)) == entries_map(entries).insert(e.0@, e.1 as nat),
{
    assert(entries.push(e).drop_last() =~= entries);
    assert(entries.push(e).last() == e);
}

/// The aggregation state: one running count per message value.
pub struct CountState {
    entries: Vec<(String, u64)>,
}

impl View for CountState {
    type V = Map<Seq<char>, nat>;

    closed spec fn view(&self) -> Map<Seq<char>, nat> {
        entries_map(self.entries@)
    }
}

impl CountState {
    #[verifier::type_invariant]
    spec fn wf(self) -> bool {
        keys_distinct(self.entries@)
    }

    /// The empty state: every value counts as zero.
    pub fn new() -> (s: CountState)
        ensures
            s@ == Map::<Seq<char>, nat>::empty(),
    {
        CountState { entries: Vec::new() }
    }

    /// The position of `msg`'s entry, if the value has been seen.
    fn find_index(&self, msg: &String) -> (r: Option<usize>)
        ensures
            match r {
                Some(i) => i < self.entries@.len() && self.entries@[i as int].0@ == msg@,
                None => forall|i: int| 0 <= i < self.entries@.len() ==> self.entries@[i].0@ != msg@,
            },
    {
        let n = self.entries.len();
        let mut j: usize = 0;
        while j < n
            invariant
                n == self.entries@.len(),
                j <= n,
                forall|i: int| 0 <= i < j ==> self.entries@[i].0@ != msg@,
            decreases n - j,
        {
            if self.entries[j].0 == *msg {
                return Some(j);
            }
            j += 1;
        }
        None
    }

    /// The running count currently stored for `msg`.
    pub fn count(&self, msg: &String) -> (r: u64)
        ensures
            r as nat == count_of(self@, msg@),
    {
        proof {
            use_type_invariant(self);
        }
        match self.find_index(msg) {
            Some(i) => {
                proof {
                    lemma_entries_map_index(self.entries@, i as int);
                }
                self.entries[i].1
            },
            None => {
                proof {
                    lemma_entries_map_dom(self.entries@, msg@);
                }
                0
            },
        }
    }
}

/// Counts one more occurrence of `msg` and returns the result record for it.
///
/// The new count for `msg` is one more than the old one (an unseen value
/// counted as zero), no other value's count changes, and the returned record
/// reads `"<msg> appeared <new count> times"`.
pub fn process_message(msg: String, state: &mut CountState) -> (r: String)
    requires
        count_of(old(state)@, msg@) < u64::MAX,
    ensures
        final(state)@ == old(state)@.insert(msg@, count_of(old(state)@, msg@) + 1),
        r@ == record_of(msg@, count_of(old(state)@, msg@) + 1),
{
    proof {
        use_type_invariant(&*state);
    }
    match state.find_index(&msg) {
        Some(i) => {
            proof {
                lemma_entries_map_index(state.entries@, i as int);
            }
            let nc = state.entries[i].1 + 1;
            let r = format_record(msg.as_str(), nc);
            proof {
                lemma_entries_map_update(state.entries@, i as int, (msg, nc));
            }
            let mut entries: Vec<(String, u64)> = Vec::new();
            core::mem::swap(&mut entries, &mut state.entries);
            entries[i] = (msg, nc);
            proof {
                assert(keys_distinct(entries@));
            }
            core::mem::swap(&mut entries, &mut state.entries);
            r
        },
        None => {
            proof {
                lemma_entries_map_dom(state.entries@, msg@);
            }
            let r = format_record(msg.as_str(), 1);
            proof {
                lemma_entries_map_push(state.entries@, (msg, 1));
            }
            let mut entries: Vec<(String, u64)> = Vec::new();
            core::mem::swap(&mut entries, &mut state.entries);
            entries.push((msg, 1));
            core::mem::swap(&mut entries, &mut state.entries);
            r
        },
    }
}

} // verus!
