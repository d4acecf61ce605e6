//! Identifier allocation for menu items.
//!
//! A `Counter` hands out monotonically increasing identifiers from a fixed
//! starting value. Every identifier is issued at most once for the lifetime
//! of the counter, so an activation notification can be traced back to the
//! single item that owns its identifier.

use vstd::prelude::*;

verus! {

/// Issues process-unique, monotonically increasing identifiers, starting
/// from a per-category base value.
pub struct Counter {
    start: u64,
    upcoming: u64,
    issued: Ghost<Seq<u64>>,
}

impl Counter {
    /// The base value this counter was created with.
    pub closed spec fn start_id(&self) -> u64 {
        self.start
    }

    /// The next identifier that will be issued: the high-water mark.
    pub closed spec fn next_id(&self) -> u64 {
        self.upcoming
    }

    /// All identifiers issued so far, in the order they were issued.
    pub closed spec fn issued_ids(&self) -> Seq<u64> {
        self.issued@
    }

    /// The counter has issued exactly the identifiers from its base up to,
    /// but not including, its high-water mark, in increasing order.
    pub closed spec fn wf(&self) -> bool {
        &&& self.start <= self.upcoming
        &&& self.issued@.len() == self.upcoming - self.start
        &&& forall|i: int|
            0 <= i < self.issued@.len() ==> #[trigger] self.issued@[i] == self.start + i
    }

    /// A fresh counter whose first identifier will be `start`.
    pub fn new_with_start(start: u64) -> (r: Counter)
        ensures
            r.wf(),
            r.start_id() == start,
            r.next_id() == start,
            r.issued_ids() == Seq::<u64>::empty(),
    {
        Counter { start, upcoming: start, issued: Ghost(Seq::empty()) }
    }

    /// Issues the next identifier. Allocation cannot fail; running a 64-bit
    /// counter to its end is out of scope, so the caller keeps the high-water
    /// mark below `u64::MAX`.
    pub fn next(&mut self) -> (id: u64)
        requires
            old(self).wf(),
            old(self).next_id() < u64::MAX,
        ensures
            final(self).wf(),
            id == old(self).next_id(),
            final(self).start_id() == old(self).start_id(),
            final(self).next_id() == old(self).next_id() + 1,
            final(self).issued_ids() == old(self).issued_ids().push(id),
    {
        let id = self.upcoming;
        self.upcoming = self.upcoming + 1;
        proof {
            self.issued@ = self.issued@.push(id);
        }
        id
    }

    /// The high-water mark: every issued identifier is below it, and the
    /// next call to `next` returns it.
    pub fn current(&self) -> (r: u64)
        ensures
            r == self.next_id(),
    {
        self.upcoming
    }
}

/// A counter's high-water mark never lies below its base.
pub proof fn lemma_counter_bounds(c: &Counter)
    requires
        c.wf(),
    ensures
        c.start_id() <= c.next_id(),
{
}

/// Identifiers strictly increase in the order they were issued, so no two
/// item-creation calls against one counter ever receive the same identifier.
pub proof fn lemma_issued_ids_strictly_increase(c: &Counter)
    requires
        c.wf(),
    ensures
        forall|i: int, j: int|
            0 <= i < j < c.issued_ids().len() ==> c.issued_ids()[i] < c.issued_ids()[j],
        forall|i: int, j: int|
            0 <= i < j < c.issued_ids().len() ==> c.issued_ids()[i] != c.issued_ids()[j],
{
}

/// Every identifier a counter has issued lies in `[start, next)`: the range
/// a category occupies is bounded by its base and its high-water mark.
pub proof fn lemma_issued_ids_in_range(c: &Counter)
    requires
        c.wf(),
    ensures
        forall|i: int|
            0 <= i < c.issued_ids().len()
                ==> c.start_id() <= #[trigger] c.issued_ids()[i] < c.next_id(),
{
}

} // verus!
