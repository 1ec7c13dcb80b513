//! Request ids: a counter that starts at 1 and moves up by one per call.

use vstd::prelude::*;

verus! {

/// The id that follows `id`: one more, and back to 0 after the largest `u64`.
pub open spec fn next_after(id: u64) -> u64 {
    if id == u64::MAX {
        0
    } else {
        (id + 1) as u64
    }
}

/// The id that a counter started at `start` hands out as its `k`-th id,
/// counting from 0.
pub open spec fn nth_id(start: u64, k: nat) -> u64
    decreases k,
{
    if k == 0 {
        start
    } else {
        next_after(nth_id(start, (k - 1) as nat))
    }
}

/// The source of request ids of one bridge.
#[derive(Debug)]
pub struct IdCounter {
    next: u64,
}

impl IdCounter {
    /// The id that the next call of [`IdCounter::allocate`] returns.
    pub closed spec fn peek(&self) -> u64 {
        self.next
    }

    /// A counter whose first id is 1.
    pub fn new() -> (counter: IdCounter)
        ensures
            counter.peek() == 1,
    {
        IdCounter { next: 1 }
    }

    /// Hands out the next id and moves the counter on.
    pub fn allocate(&mut self) -> (id: u64)
        ensures
            id == old(self).peek(),
            final(self).peek() == next_after(old(self).peek()),
    {
        let id: u64 = self.next;
        self.next = id.wrapping_add(1);
        id
    }
}

/// Below the largest `u64`, the `k`-th id of a counter is `start + k`.
pub proof fn lemma_nth_id_is_offset(start: u64, k: nat)
    requires
        start + k <= u64::MAX,
    ensures
        nth_id(start, k) == start + k,
    decreases k,
{
    if k > 0 {
        lemma_nth_id_is_offset(start, (k - 1) as nat);
    }
}

/// Ids never repeat and only grow: of two ids handed out by one counter
/// before it reaches the largest `u64`, the later one is the larger one.
pub proof fn lemma_ids_strictly_increase(start: u64, i: nat, j: nat)
    requires
        i < j,
        start + j <= u64::MAX,
    ensures
        nth_id(start, i) < nth_id(start, j),
        nth_id(start, i) != nth_id(start, j),
{
    lemma_nth_id_is_offset(start, i);
    lemma_nth_id_is_offset(start, j);
}

} // verus!
