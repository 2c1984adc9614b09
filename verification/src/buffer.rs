//! A byte buffer with a fixed capacity and a high-water length.
//!
//! The buffer offers two writes.  The unchecked one makes the caller
//! promise the index is in bounds — a promise that is a precondition here,
//! enforced by the verifier at every call site, where hand-managed storage
//! would leave a broken promise as undefined behaviour.  The checked write
//! tests the index itself and reports an error.

use vstd::prelude::*;

verus! {

/// A buffer of `capacity` bytes; `len` is one past the highest byte
/// written so far.
pub struct Buffer {
    data: Vec<u8>,
    len: usize,
    capacity: usize,
}

impl Buffer {
    /// The buffer's bytes, in storage order.
    pub closed spec fn bytes(self) -> Seq<u8> {
        self.data@
    }

    /// One past the highest index written so far.
    pub closed spec fn length(self) -> usize {
        self.len
    }

    /// The fixed capacity.
    pub closed spec fn cap(self) -> usize {
        self.capacity
    }

    /// Internal consistency: the storage spans the capacity and the
    /// high-water mark lies within it.
    pub closed spec fn wf(self) -> bool {
        &&& self.data@.len() == self.capacity
        &&& self.len <= self.capacity
    }

    /// A zeroed buffer of `capacity` bytes with nothing written yet.  A
    /// buffer of no bytes is refused, by precondition rather than by
    /// panic.
    pub fn new(capacity: usize) -> (b: Buffer)
        requires
            capacity >= 1,
        ensures
            b.wf(),
            b.cap() == capacity,
            b.length() == 0,
            b.bytes() == Seq::new(capacity as nat, |i: int| 0u8),
    {
        let mut data: Vec<u8> = Vec::with_capacity(capacity);
        let mut i: usize = 0;
        while i < capacity
            invariant
                i <= capacity,
                data@ == Seq::new(i as nat, |j: int| 0u8),
            decreases capacity - i,
        {
            data.push(0);
            i = i + 1;
        }
        Buffer { data, len: 0, capacity }
    }

    /// Writes a byte with the bounds check shifted onto the caller: the
    /// promise an unchecked write asks of its caller stands here as a
    /// precondition.  The high-water mark moves up to cover the written
    /// index.
    pub fn write_byte_at_unchecked(&mut self, index: usize, byte: u8)
        requires
            old(self).wf(),
            index < old(self).cap(),
        ensures
            final(self).wf(),
            final(self).cap() == old(self).cap(),
            final(self).bytes() == old(self).bytes().update(index as int, byte),
            final(self).length() == if index + 1 > old(self).length() {
                (index + 1) as usize
            } else {
                old(self).length()
            },
    {
        self.data.set(index, byte);
        if index + 1 > self.len {
            self.len = index + 1;
        }
    }

    /// Writes a byte after testing the bounds itself: an index past the
    /// capacity is refused with an error, and exactly those are.
    pub fn write_byte_at(&mut self, index: usize, byte: u8) -> (r: Result<(), &'static str>)
        requires
            old(self).wf(),
        ensures
            final(self).wf(),
            r is Ok <==> index < old(self).cap(),
            r is Ok ==> final(self).bytes() == old(self).bytes().update(index as int, byte)
                && final(self).length() == if index + 1 > old(self).length() {
                (index + 1) as usize
            } else {
                old(self).length()
            },
            r is Err ==> *final(self) == *old(self),
            final(self).cap() == old(self).cap(),
    {
        if index >= self.capacity {
            return Err("Index out of bounds");
        }
        self.write_byte_at_unchecked(index, byte);
        Ok(())
    }

    /// The fixed capacity, readable at run time.
    pub fn capacity(&self) -> (c: usize)
        ensures
            c == self.cap(),
    {
        self.capacity
    }

    /// The bytes written so far: the buffer's first `length` bytes.
    pub fn as_slice(&self) -> (s: &[u8])
        requires
            self.wf(),
        ensures
            s@ == self.bytes().take(self.length() as int),
    {
        vstd::slice::slice_subrange(self.data.as_slice(), 0, self.len)
    }
}

} // verus!
