//! The correlation table: pending exchanges keyed by frame header.
//!
//! Every in-flight exchange registers its packed header key together with a
//! ticket naming its delivery channel. The background reader looks an
//! arriving frame's header up here; a hit removes the entry and hands the
//! ticket back, a miss means the frame is unsolicited. The table never
//! holds two entries under one header, which is what lets a response reach
//! exactly the caller that sent the matching request.

use vstd::prelude::*;
use crate::assoc::{assoc_map, lemma_assoc_lookup, lemma_assoc_push, lemma_assoc_remove,
    unique_keys};

verus! {

/// The shared table of pending exchanges.
pub struct CorrelationTable {
    entries: Vec<(u32, u64)>,
}

impl CorrelationTable {
    /// The table as a map from packed header key to delivery ticket.
    pub closed spec fn view(&self) -> Map<u32, u64> {
        assoc_map(self.entries@)
    }

    /// The table's internal invariant: one entry per header.
    pub closed spec fn wf(&self) -> bool {
        unique_keys(self.entries@)
    }

    /// An empty table.
    pub fn new() -> (r: CorrelationTable)
        ensures
            r.wf(),
            r@ == Map::<u32, u64>::empty(),
    {
        let r = CorrelationTable { entries: Vec::new() };
        proof {
            assert(r@ =~= Map::<u32, u64>::empty());
        }
        r
    }

    /// Whether some exchange is pending at all. The background reader skips
    /// its read when nothing is.
    pub fn is_empty(&self) -> (r: bool)
        ensures
            r <==> self@ == Map::<u32, u64>::empty(),
    {
        let r = self.entries.len() == 0;
        proof {
            if r {
                assert(self@ =~= Map::<u32, u64>::empty());
            } else {
                assert(self@.dom().contains(self.entries@[0].0));
            }
        }
        r
    }

    /// Whether an exchange is pending under this header key.
    pub fn contains(&self, key: u32) -> (r: bool)
        ensures
            r == self@.dom().contains(key),
    {
        let n = self.entries.len();
        let mut i: usize = 0;
        while i < n
            invariant
                n == self.entries@.len(),
                i <= n,
                forall|j: int| 0 <= j < i ==> (#[trigger] self.entries@[j]).0 != key,
            decreases n - i,
        {
            if self.entries[i].0 == key {
                return true;
            }
            i = i + 1;
        }
        false
    }

    /// Register a fresh exchange under a header no exchange is pending
    /// under.
    pub fn register(&mut self, key: u32, ticket: u64)
        requires
            old(self).wf(),
            !old(self)@.dom().contains(key),
        ensures
            final (self).wf(),
            final (self)@ == old(self)@.insert(key, ticket),
    {
        proof {
            lemma_assoc_push(self.entries@, key, ticket);
        }
        self.entries.push((key, ticket));
    }

    /// Take the pending exchange under this header out of the table, if
    /// there is one, and hand its ticket back.
    pub fn remove(&mut self, key: u32) -> (r: Option<u64>)
        requires
            old(self).wf(),
        ensures
            final (self).wf(),
            old(self)@.dom().contains(key) ==> {
                &&& r == Some(old(self)@[key])
                &&& final (self)@ == old(self)@.remove(key)
            },
            !old(self)@.dom().contains(key) ==> r is None && final (self)@ == old(self)@,
    {
        let n = self.entries.len();
        let mut i: usize = 0;
        while i < n
            invariant
                self == old(self),
                old(self).wf(),
                n == self.entries@.len(),
                i <= n,
                forall|j: int| 0 <= j < i ==> (#[trigger] self.entries@[j]).0 != key,
            decreases n - i,
        {
            if self.entries[i].0 == key {
                let (_, ticket) = self.entries.remove(i);
                proof {
                    lemma_assoc_lookup(old(self).entries@, i as int);
                    lemma_assoc_remove(old(self).entries@, i as int);
                }
                return Some(ticket);
            }
            i = i + 1;
        }
        proof {
            if self@.dom().contains(key) {
                let j = choose|j: int|
                    0 <= j < self.entries@.len() && (#[trigger] self.entries@[j]).0 == key;
                assert(false);
            }
        }
        None
    }
}

/// Registering or removing one header touches no other header's entry:
/// this is the table-level half of non-interference between exchanges with
/// distinct headers.
pub proof fn lemma_distinct_headers_independent(m: Map<u32, u64>, h1: u32, h2: u32, t: u64)
    requires
        h1 != h2,
    ensures
        m.insert(h2, t).dom().contains(h1) == m.dom().contains(h1),
        m.dom().contains(h1) ==> m.insert(h2, t)[h1] == m[h1],
        m.remove(h2).dom().contains(h1) == m.dom().contains(h1),
        m.dom().contains(h1) ==> m.remove(h2)[h1] == m[h1],
{
}

} // verus!
