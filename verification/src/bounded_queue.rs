//! A fixed-capacity ring buffer with independent producer and consumer
//! cursors.
//!
//! The queue itself does no blocking and keeps no count of its occupancy:
//! it is made to sit behind a pair of semaphores that meter how far the
//! producer may run ahead of the consumer.  What is proved here is the ring
//! arithmetic: `put` writes at the producer cursor and advances it modulo
//! the capacity, `get` reads at the consumer cursor and advances it the
//! same way.

use vstd::prelude::*;

verus! {

/// Number of slots in every queue.
pub const CAPACITY: usize = 5;

/// A ring of [`CAPACITY`] slots with a producer and a consumer cursor.
pub struct BoundedQueue<T> {
    buffer: Vec<T>,
    producer: usize,
    consumer: usize,
}

impl<T: Copy + Default> BoundedQueue<T> {
    /// The slots of the ring, in storage order.
    pub closed spec fn slots(self) -> Seq<T> {
        self.buffer@
    }

    /// The slot the next `put` writes.
    pub closed spec fn producer_at(self) -> usize {
        self.producer
    }

    /// The slot the next `get` reads.
    pub closed spec fn consumer_at(self) -> usize {
        self.consumer
    }

    /// Internal consistency: the ring holds exactly [`CAPACITY`] slots and
    /// both cursors point into it.
    pub closed spec fn wf(self) -> bool {
        &&& self.buffer@.len() == CAPACITY
        &&& self.producer < CAPACITY
        &&& self.consumer < CAPACITY
    }

    /// A fresh ring, every slot carrying the element type's default value,
    /// both cursors on the first slot.
    pub fn new() -> (q: BoundedQueue<T>)
        ensures
            q.wf(),
            q.producer_at() == 0,
            q.consumer_at() == 0,
    {
        let mut buffer: Vec<T> = Vec::with_capacity(CAPACITY);
        let mut i: usize = 0;
        while i < CAPACITY
            invariant
                buffer@.len() == i,
                i <= CAPACITY,
            decreases CAPACITY - i,
        {
            buffer.push(T::default());
            i = i + 1;
        }
        BoundedQueue { buffer, producer: 0, consumer: 0 }
    }

    /// Writes `value` into the producer slot and advances the producer
    /// cursor one step around the ring.  An unconsumed element there is
    /// overwritten: keeping the producer in bounds is the affair of
    /// whatever meters the callers, not of the ring.
    pub fn put(&mut self, value: T)
        requires
            old(self).wf(),
        ensures
            final(self).wf(),
            final(self).slots() == old(self).slots().update(
                old(self).producer_at() as int,
                value,
            ),
            final(self).producer_at() == (old(self).producer_at() + 1) % (CAPACITY as int),
            final(self).consumer_at() == old(self).consumer_at(),
    {
        self.buffer.set(self.producer, value);
        self.producer = (self.producer + 1) % CAPACITY;
    }

    /// Reads the consumer slot and advances the consumer cursor one step
    /// around the ring.  The slot keeps its value; a slot never written
    /// yields the default the ring started with.
    pub fn get(&mut self) -> (value: T)
        requires
            old(self).wf(),
        ensures
            final(self).wf(),
            value == old(self).slots()[old(self).consumer_at() as int],
            final(self).slots() == old(self).slots(),
            final(self).consumer_at() == (old(self).consumer_at() + 1) % (CAPACITY as int),
            final(self).producer_at() == old(self).producer_at(),
    {
        let value = *vstd::slice::slice_index_get(self.buffer.as_slice(), self.consumer);
        self.consumer = (self.consumer + 1) % CAPACITY;
        value
    }
}

} // verus!
