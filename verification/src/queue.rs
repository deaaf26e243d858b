use vstd::prelude::*;

use crate::state::QueueItem;

verus! {

/// Shared ordered collection of pending test cases, the sole arbitration
/// point between workers. A worker takes one item with [`Queue::pop`],
/// returns it with [`Queue::finished`] once processed, and signals with
/// [`Queue::new_round`] that the pending set is exhausted, which moves every
/// processed item back into the pending set for the next generation pass.
/// Every item is owned at any instant by exactly one of the queue and one
/// worker; the lock around the queue is its callers' concern.
pub struct Queue {
    pending_items: Vec<QueueItem>,
    processed_items: Vec<QueueItem>,
}

impl Queue {
    /// The test cases waiting to be processed, in order.
    pub closed spec fn pending(self) -> Seq<QueueItem> {
        self.pending_items@
    }

    /// The test cases already processed in the current round, in order.
    pub closed spec fn processed(self) -> Seq<QueueItem> {
        self.processed_items@
    }

    pub fn new() -> (q: Queue)
        ensures
            q.pending() == Seq::<QueueItem>::empty(),
            q.processed() == Seq::<QueueItem>::empty(),
    {
        Queue { pending_items: Vec::new(), processed_items: Vec::new() }
    }

    /// How many test cases are pending.
    pub fn len(&self) -> (n: usize)
        ensures
            n == self.pending().len(),
    {
        self.pending_items.len()
    }

    /// Add a fresh test case to the pending set.
    pub fn add(&mut self, item: QueueItem)
        ensures
            final(self).pending() == old(self).pending().push(item),
            final(self).processed() == old(self).processed(),
    {
        self.pending_items.push(item);
    }

    /// Try to take one pending test case: the most recently added one, or
    /// `None` when the pending set is exhausted.
    pub fn pop(&mut self) -> (r: Option<QueueItem>)
        ensures
            final(self).processed() == old(self).processed(),
            old(self).pending().len() == 0 ==> r is None && final(self).pending() == old(
                self,
            ).pending(),
            old(self).pending().len() > 0 ==> r == Some(old(self).pending().last())
                && final(self).pending() == old(self).pending().drop_last(),
    {
        self.pending_items.pop()
    }

    /// Return a processed test case; it rejoins the pending set at the next
    /// round.
    pub fn finished(&mut self, item: QueueItem)
        ensures
            final(self).pending() == old(self).pending(),
            final(self).processed() == old(self).processed().push(item),
    {
        self.processed_items.push(item);
    }

    /// The pending test cases, in order, for checkpointing.
    pub fn pending_slice(&self) -> (r: &Vec<QueueItem>)
        ensures
            r@ == self.pending(),
    {
        &self.pending_items
    }

    /// The processed test cases of the current round, in order, for
    /// checkpointing.
    pub fn processed_slice(&self) -> (r: &Vec<QueueItem>)
        ensures
            r@ == self.processed(),
    {
        &self.processed_items
    }

    /// The generation pass over an exhausted pending set is complete: every
    /// processed item becomes pending again, in the order it was returned.
    pub fn new_round(&mut self)
        ensures
            final(self).pending() == old(self).pending() + old(self).processed(),
            final(self).processed() == Seq::<QueueItem>::empty(),
    {
        self.pending_items.append(&mut self.processed_items);
    }
}

} // verus!
