//! A lock that hands its value out through a guard.
//!
//! A spin lock shares its value through an atomic flag and an aliased
//! cell.  Here its protocol is made explicit over plain fields instead: the
//! value sits in the lock exactly while no guard is out, `lock` moves it
//! into a guard, and `unlock` moves it back and lowers the flag.  With a
//! single sequential caller, taking a lock that is already held would spin
//! forever, so that state is excluded by precondition.

use vstd::prelude::*;

verus! {

/// A lock around one value.
pub struct SpinLock<T> {
    locked: bool,
    value: Option<T>,
}

/// Exclusive access to the value of a [`SpinLock`], alive until it is given
/// back through [`SpinLock::unlock`].
pub struct LockGuard<T> {
    value: T,
}

impl<T> SpinLock<T> {
    /// The lock is currently held.
    pub closed spec fn is_locked(self) -> bool {
        self.locked
    }

    /// The value resting in the lock, while no guard holds it.
    pub closed spec fn stored(self) -> Option<T> {
        self.value
    }

    /// Internal consistency: the value rests in the lock exactly while the
    /// lock is not held.
    pub closed spec fn wf(self) -> bool {
        self.locked <==> self.value is None
    }

    /// A fresh, unheld lock around `value`.
    pub fn new(value: T) -> (lock: SpinLock<T>)
        ensures
            lock.wf(),
            !lock.is_locked(),
            lock.stored() == Some(value),
    {
        SpinLock { locked: false, value: Some(value) }
    }

    /// Acquires the lock and hands out its value in a guard.
    pub fn lock(&mut self) -> (guard: LockGuard<T>)
        requires
            old(self).wf(),
            !old(self).is_locked(),
        ensures
            final(self).wf(),
            final(self).is_locked(),
            old(self).stored() == Some(guard.entry()),
    {
        self.locked = true;
        let value = self.value.take().unwrap();
        LockGuard { value }
    }

    /// Releases the lock, putting the guard's value — mutated or not — back
    /// to rest in the lock.
    pub fn unlock(&mut self, guard: LockGuard<T>)
        requires
            old(self).wf(),
            old(self).is_locked(),
        ensures
            final(self).wf(),
            !final(self).is_locked(),
            final(self).stored() == Some(guard.entry()),
    {
        self.locked = false;
        self.value = Some(guard.into_entry());
    }
}

impl<T> LockGuard<T> {
    /// The value this guard holds.
    pub closed spec fn entry(self) -> T {
        self.value
    }

    /// Reads the held value.
    pub fn deref(&self) -> (r: &T)
        ensures
            *r == self.entry(),
    {
        &self.value
    }

    /// Mutable access to the held value; the guard follows the mutation.
    pub fn deref_mut(&mut self) -> (r: &mut T)
        ensures
            *r == old(self).entry(),
            final(self).entry() == *final(r),
    {
        &mut self.value
    }

    /// Takes the held value out of the guard.
    fn into_entry(self) -> (v: T)
        ensures
            v == self.entry(),
    {
        self.value
    }
}

} // verus!
