//! A counting semaphore over a plain permit counter.
//!
//! A blocking semaphore pairs the counter with a condition variable and
//! waits while no permit is free.  With a single sequential caller such a
//! wait would never end, so acquiring here asks for a free permit up front;
//! what is verified is the counting itself.

use vstd::prelude::*;

verus! {

/// A pool of permits: `acquire` takes one, `release` returns one.
pub struct Semaphore {
    value: usize,
}

impl Semaphore {
    /// The number of free permits.
    pub closed spec fn permits(self) -> usize {
        self.value
    }

    /// A semaphore holding `value` free permits.
    pub fn new(value: usize) -> (s: Semaphore)
        ensures
            s.permits() == value,
    {
        Semaphore { value }
    }

    /// The number of free permits, readable without taking one.
    pub fn available(&self) -> (n: usize)
        ensures
            n == self.permits(),
    {
        self.value
    }

    /// Takes one permit.  Where a blocking semaphore would wait for one, a
    /// free permit is asked for up front instead.
    pub fn acquire(&mut self)
        requires
            old(self).permits() >= 1,
        ensures
            final(self).permits() == old(self).permits() - 1,
    {
        self.value = self.value - 1;
    }

    /// Returns one permit to the pool.
    pub fn release(&mut self)
        requires
            old(self).permits() < usize::MAX,
        ensures
            final(self).permits() == old(self).permits() + 1,
    {
        self.value = self.value + 1;
    }
}

} // verus!
