//! The bounded event queue between producer and consumer.
//!
//! The notification callback submits identifier bytes; the dispatcher
//! drains them. The queue is bounded with a drop-new policy: a submit
//! against a full queue refuses the item and returns at once, so the
//! producer can never block, and items that were accepted keep their
//! order. Button events are latency-sensitive, so a small depth is
//! the intended use; a backlog means the consumer is stuck.

use vstd::prelude::*;

verus! {

/// What one submit does to the queued identifiers: appends when there
/// is room, leaves the queue untouched when full. The second
/// component reports whether the item was accepted.
pub open spec fn spec_submit(q: Seq<u8>, cap: nat, id: u8) -> (Seq<u8>, bool) {
    if q.len() < cap {
        (q.push(id), true)
    } else {
        (q, false)
    }
}

/// Bounded FIFO of identifier bytes with a drop-new overflow policy.
pub struct EventQueue {
    items: Vec<u8>,
    capacity: usize,
}

impl View for EventQueue {
    type V = Seq<u8>;

    /// The queued identifiers, oldest first.
    closed spec fn view(&self) -> Seq<u8> {
        self.items@
    }
}

impl EventQueue {
    /// The bound the queue was created with.
    pub closed spec fn cap(&self) -> nat {
        self.capacity as nat
    }

    /// Well-formed: never more items than the bound allows.
    pub open spec fn wf(&self) -> bool {
        self@.len() <= self.cap()
    }

    /// An empty queue bounded at `capacity` items.
    pub fn new(capacity: usize) -> (q: EventQueue)
        ensures
            q.wf(),
            q@ =~= Seq::<u8>::empty(),
            q.cap() == capacity,
    {
        EventQueue { items: Vec::new(), capacity }
    }

    /// How many identifiers are waiting.
    pub fn len(&self) -> (n: usize)
        ensures
            n == self@.len(),
    {
        self.items.len()
    }

    /// Non-blocking enqueue. Appends `id` and reports acceptance when
    /// there is room; on a full queue the new item is dropped, the
    /// accepted items stay untouched, and `false` is reported.
    pub fn submit(&mut self, id: u8) -> (accepted: bool)
        requires
            old(self).wf(),
        ensures
            final(self).wf(),
            final(self).cap() == old(self).cap(),
            (final(self)@, accepted) == spec_submit(old(self)@, old(self).cap(), id),
    {
        if self.items.len() < self.capacity {
            self.items.push(id);
            true
        } else {
            false
        }
    }

    /// Dequeue the oldest identifier, or `None` on an empty queue.
    pub fn pop(&mut self) -> (r: Option<u8>)
        requires
            old(self).wf(),
        ensures
            final(self).wf(),
            final(self).cap() == old(self).cap(),
            old(self)@.len() == 0 ==> r is None && final(self)@ == old(self)@,
            old(self)@.len() > 0 ==> r == Some(old(self)@[0]) && final(self)@ == old(self)@.remove(
                0,
            ),
    {
        if self.items.len() == 0 {
            None
        } else {
            Some(self.items.remove(0))
        }
    }
}

/// Backpressure never reaches the producer: a submit against a
/// well-formed queue is defined for every identifier, keeps the queue
/// within its bound, and leaves every already-accepted item in its
/// place — an overflow drops only the new item.
pub proof fn lemma_queue_backpressure(q: Seq<u8>, cap: nat, id: u8)
    requires
        q.len() <= cap,
    ensures
        spec_submit(q, cap, id).0.len() <= cap,
        forall|i: int| 0 <= i < q.len() ==> spec_submit(q, cap, id).0[i] == q[i],
        spec_submit(q, cap, id).1 ==> spec_submit(q, cap, id).0 == q.push(id),
        !spec_submit(q, cap, id).1 ==> spec_submit(q, cap, id).0 == q,
{
}

} // verus!
