//! Bounded FIFO queues with non-blocking enqueue.
//!
//! Every queue between the transport session, the engine and the
//! conversation actors is bounded and never blocks its producer: when a
//! queue is full the new item is dropped, and when its far end is gone the
//! producer learns so and treats it as a wiring fault.  This module models
//! that policy; the view of a queue is the sequence of items it holds, oldest
//! first.

use vstd::prelude::*;

verus! {

/// Outcome of a non-blocking enqueue.
#[derive(Debug, Clone, Copy, PartialEq, Eq, Structural)]
pub enum SendOutcome {
    /// The item was accepted and sits at the back of the queue.
    Sent,
    /// The queue already held `capacity` items; the item was dropped.
    Full,
    /// The consumer side is gone; the item was dropped.
    Closed,
}

/// A bounded FIFO queue.  Items enter at the back and leave at the front,
/// so the order of acceptance is the order of delivery.
pub struct ChannelQueue<T> {
    items: Vec<T>,
    capacity: usize,
    closed: bool,
}

impl<T> View for ChannelQueue<T> {
    type V = Seq<T>;

    closed spec fn view(&self) -> Seq<T> {
        self.items@
    }
}

impl<T> ChannelQueue<T> {
    /// The bound the queue was created with.
    pub closed spec fn capacity(&self) -> nat {
        self.capacity as nat
    }

    /// Whether the consumer side is gone.
    pub closed spec fn is_closed(&self) -> bool {
        self.closed
    }

    /// Well-formedness: the queue never holds more than its bound.
    pub open spec fn wf(&self) -> bool {
        self@.len() <= self.capacity() && 1 <= self.capacity()
    }

    /// An empty open queue with the given bound.
    pub fn new(capacity: usize) -> (q: Self)
        requires
            1 <= capacity,
        ensures
            q@ == Seq::<T>::empty(),
            q.capacity() == capacity,
            !q.is_closed(),
            q.wf(),
    {
        ChannelQueue { items: Vec::new(), capacity, closed: false }
    }

    /// Number of items currently queued.
    pub fn len(&self) -> (n: usize)
        ensures
            n == self@.len(),
    {
        self.items.len()
    }

    /// Non-blocking enqueue: accepts the item only if the queue is open and
    /// below its bound, and never blocks or reorders.
    pub fn try_send(&mut self, item: T) -> (r: SendOutcome)
        requires
            old(self).wf(),
        ensures
            final(self).wf(),
            final(self).capacity() == old(self).capacity(),
            final(self).is_closed() == old(self).is_closed(),
            old(self).is_closed() ==> r == SendOutcome::Closed && *final(self) == *old(self),
            !old(self).is_closed() && old(self)@.len() == old(self).capacity() ==> r
                == SendOutcome::Full && *final(self) == *old(self),
            !old(self).is_closed() && old(self)@.len() < old(self).capacity() ==> r
                == SendOutcome::Sent && final(self)@ == old(self)@.push(item),
    {
        if self.closed {
            SendOutcome::Closed
        } else if self.items.len() == self.capacity {
            SendOutcome::Full
        } else {
            self.items.push(item);
            SendOutcome::Sent
        }
    }

    /// Non-blocking dequeue: takes the oldest item, if any.
    pub fn try_recv(&mut self) -> (r: Option<T>)
        requires
            old(self).wf(),
        ensures
            final(self).wf(),
            final(self).capacity() == old(self).capacity(),
            final(self).is_closed() == old(self).is_closed(),
            old(self)@.len() == 0 ==> r is None && *final(self) == *old(self),
            old(self)@.len() > 0 ==> r == Some(old(self)@[0]) && final(self)@ == old(
                self,
            )@.drop_first(),
    {
        if self.items.len() == 0 {
            None
        } else {
            let item = self.items.remove(0);
            proof {
                assert(self@ =~= old(self)@.drop_first());
            }
            Some(item)
        }
    }

    /// Drops the consumer side: every later enqueue reports `Closed`.
    pub fn close(&mut self)
        requires
            old(self).wf(),
        ensures
            final(self).wf(),
            final(self)@ == old(self)@,
            final(self).capacity() == old(self).capacity(),
            final(self).is_closed(),
    {
        self.closed = true;
    }
}

} // verus!
