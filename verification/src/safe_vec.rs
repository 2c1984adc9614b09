//! A growable array with an explicit capacity that doubles when it runs
//! out.
//!
//! When a push finds the array full, every element moves into a fresh,
//! twice-as-large allocation.  The storage here is safe, and what is proved
//! is the capacity bookkeeping and the element-preserving reallocation: a
//! reallocation changes the capacity and nothing else, and every element
//! comes through in order.

use vstd::prelude::*;

verus! {

/// A growable array: elements packed at the front of a buffer whose
/// capacity doubles on demand.
pub struct SafeVec<T> {
    data: Vec<T>,
    capacity: usize,
}

/// The capacity a full buffer grows to: double, saturating at the machine
/// limit; an empty buffer grows to one slot.
pub open spec fn grown_capacity(c: usize) -> usize {
    if c == 0 {
        1usize
    } else if c > usize::MAX / 2 {
        usize::MAX
    } else {
        (c * 2) as usize
    }
}

impl<T> SafeVec<T> {
    /// The elements held, in insertion order.
    pub closed spec fn elems(self) -> Seq<T> {
        self.data@
    }

    /// The current capacity.
    pub closed spec fn cap(self) -> usize {
        self.capacity
    }

    /// Internal consistency: the elements fit the capacity.
    pub closed spec fn wf(self) -> bool {
        self.data@.len() <= self.capacity
    }

    /// An empty array with room for `capacity` elements.
    pub fn new(capacity: usize) -> (v: SafeVec<T>)
        ensures
            v.wf(),
            v.elems() == Seq::<T>::empty(),
            v.cap() == capacity,
    {
        SafeVec { data: Vec::with_capacity(capacity), capacity }
    }

    /// Moves every element, in order, into a fresh buffer of the grown
    /// capacity.  Only the capacity changes.
    fn reallocate(&mut self)
        requires
            old(self).wf(),
        ensures
            final(self).elems() == old(self).elems(),
            final(self).cap() == grown_capacity(old(self).cap()),
            final(self).wf(),
    {
        let new_capacity: usize = if self.capacity == 0 {
            1
        } else if self.capacity > usize::MAX / 2 {
            usize::MAX
        } else {
            self.capacity * 2
        };
        let mut fresh: Vec<T> = Vec::with_capacity(new_capacity);
        fresh.append(&mut self.data);
        self.data = fresh;
        self.capacity = new_capacity;
    }

    /// Appends an element, growing the buffer first when it is full.
    pub fn push(&mut self, elem: T)
        requires
            old(self).wf(),
            old(self).elems().len() < usize::MAX,
        ensures
            final(self).wf(),
            final(self).elems() == old(self).elems().push(elem),
            final(self).cap() == if old(self).elems().len() < old(self).cap() {
                old(self).cap()
            } else {
                grown_capacity(old(self).cap())
            },
    {
        if self.data.len() == self.capacity {
            self.reallocate();
        }
        self.data.push(elem);
    }

    /// Removes and returns the last element.  An empty array has none to
    /// give, so that state is excluded by precondition rather than met with
    /// a panic.
    pub fn pop(&mut self) -> (elem: T)
        requires
            old(self).wf(),
            old(self).elems().len() > 0,
        ensures
            final(self).wf(),
            final(self).cap() == old(self).cap(),
            final(self).elems() == old(self).elems().drop_last(),
            elem == old(self).elems().last(),
    {
        self.data.pop().unwrap()
    }

    /// A reference to the element at `index`.  An index at or past the
    /// length is excluded by precondition rather than met with a panic.
    pub fn get(&self, index: usize) -> (elem: &T)
        requires
            self.wf(),
            index < self.elems().len(),
        ensures
            *elem == self.elems()[index as int],
    {
        vstd::slice::slice_index_get(self.data.as_slice(), index)
    }

    /// The number of elements held.
    pub fn len(&self) -> (n: usize)
        ensures
            n == self.elems().len(),
    {
        self.data.len()
    }
}

} // verus!
