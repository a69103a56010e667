//! Bounded, lossy outgoing-event outbox.
//!
//! The queue decouples audio-rate producers from a slower event-consuming
//! host: a push onto a full queue is a silent no-op (never blocks, never
//! grows, never errors), and the consumer drains the queue by repeated pops.
//! The pop returns the most recently pushed entry (last in, first out).

use vstd::prelude::*;
use crate::AppMessage;

verus! {

/// What one lossy push leaves in a queue of the given capacity.
pub open spec fn spec_push(q: Seq<AppMessage>, capacity: int, m: AppMessage) -> Seq<AppMessage> {
    if q.len() < capacity {
        q.push(m)
    } else {
        q
    }
}

/// The queue contents after a whole sequence of pushes, oldest first.
pub open spec fn spec_push_all(q: Seq<AppMessage>, capacity: int, ms: Seq<AppMessage>) -> Seq<
    AppMessage,
>
    decreases ms.len(),
{
    if ms.len() == 0 {
        q
    } else {
        spec_push_all(spec_push(q, capacity, ms[0]), capacity, ms.subrange(1, ms.len() as int))
    }
}

/// One push never takes the length beyond capacity, never moves an existing
/// entry, and is a no-op on a full queue.
pub proof fn lemma_push_bounded(q: Seq<AppMessage>, capacity: int, m: AppMessage)
    requires
        q.len() <= capacity,
    ensures
        spec_push(q, capacity, m).len() <= capacity,
        forall|i: int| 0 <= i < q.len() ==> spec_push(q, capacity, m)[i] == q[i],
        q.len() == capacity ==> spec_push(q, capacity, m) == q,
{
}

/// Under any push sequence the length never exceeds capacity.
pub proof fn lemma_push_all_bounded(q: Seq<AppMessage>, capacity: int, ms: Seq<AppMessage>)
    requires
        q.len() <= capacity,
    ensures
        spec_push_all(q, capacity, ms).len() <= capacity,
    decreases ms.len(),
{
    if ms.len() > 0 {
        lemma_push_bounded(q, capacity, ms[0]);
        lemma_push_all_bounded(
            spec_push(q, capacity, ms[0]),
            capacity,
            ms.subrange(1, ms.len() as int),
        );
    }
}

/// Bounded, lossy event outbox with last-in-first-out consumption.
pub struct OutgoingEventQueue {
    items: Vec<AppMessage>,
    capacity: usize,
}

impl View for OutgoingEventQueue {
    type V = Seq<AppMessage>;

    closed spec fn view(&self) -> Seq<AppMessage> {
        self.items@
    }
}

impl OutgoingEventQueue {
    /// The fixed capacity the queue was created with.
    pub closed spec fn spec_capacity(&self) -> int {
        self.capacity as int
    }

    /// The length never exceeds the capacity.
    pub open spec fn wf(&self) -> bool {
        self@.len() <= self.spec_capacity()
    }

    /// An empty queue of the given capacity.
    pub fn new(capacity: usize) -> (r: Self)
        ensures
            r@ == Seq::<AppMessage>::empty(),
            r.spec_capacity() == capacity as int,
            r.wf(),
    {
        OutgoingEventQueue { items: Vec::new(), capacity }
    }

    pub fn capacity(&self) -> (r: usize)
        ensures
            r as int == self.spec_capacity(),
    {
        self.capacity
    }

    pub fn len(&self) -> (r: usize)
        ensures
            r as int == self@.len(),
    {
        self.items.len()
    }

    /// Appends the event if there is room, else silently drops it.
    pub fn push(&mut self, m: AppMessage)
        ensures
            final(self)@ == spec_push(old(self)@, old(self).spec_capacity(), m),
            final(self).spec_capacity() == old(self).spec_capacity(),
            old(self).wf() ==> final(self).wf(),
    {
        if self.items.len() < self.capacity {
            self.items.push(m);
        }
    }

    /// Removes and returns the most recently pushed entry, or `None` when
    /// the queue is empty.
    pub fn pop(&mut self) -> (r: Option<AppMessage>)
        ensures
            final(self).spec_capacity() == old(self).spec_capacity(),
            old(self)@.len() == 0 ==> r is None && final(self)@ == old(self)@,
            old(self)@.len() > 0 ==> r == Some(old(self)@.last()) && final(self)@ == old(
                self,
            )@.drop_last(),
            old(self).wf() ==> final(self).wf(),
    {
        self.items.pop()
    }
}

} // verus!
