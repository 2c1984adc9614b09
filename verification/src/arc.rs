//! Owning and upgradeable handles onto one shared, heap-allocated payload.
//!
//! `SafeArc` is the owning handle: while one exists, the payload is
//! constructed and readable.  `Weak` is the non-owning handle: it does not
//! keep the payload alive and must prove liveness through `upgrade`, which
//! succeeds only while a strong owner remains.  Dropping the last `SafeArc`
//! destroys the payload; the allocation itself lives on until the last
//! `Weak` is gone.
//!
//! The counter protocol behind these guarantees — two counters, a collective
//! weak unit held by the strong handles, a sentinel-locked exclusivity
//! check — is stated and proved over plain values in [`crate::protocol`].
//! At run time the handles ride on the allocation of `std::sync::Arc`, whose
//! counters move by that same protocol.

use std::sync::Arc;
use vstd::prelude::*;

verus! {

/// The raw non-owning handle of the standard library.  Its type cannot be
/// named in verified signatures (its allocator parameter is unstable), so it
/// lives inside this struct, which the verifier treats as opaque.
#[verifier::external_body]
#[verifier::reject_recursive_types(T)]
struct RawWeak<T> {
    inner: std::sync::Weak<T>,
}

/// An owning handle: the payload is valid as long as one exists.
pub struct SafeArc<T> {
    inner: Arc<T>,
}

/// A non-owning handle: it keeps the allocation alive, not the payload, and
/// must be upgraded before each use.
#[verifier::reject_recursive_types(T)]
pub struct Weak<T> {
    raw: RawWeak<T>,
    referent: Ghost<T>,
}

/// Relies on `Arc::clone`: the new handle shares the allocation with the old
/// one, so it carries the same payload.
#[verifier::external_body]
fn arc_clone_raw<T>(a: &Arc<T>) -> (r: Arc<T>)
    ensures
        *r == **a,
{
    Arc::clone(a)
}

/// Relies on `Arc::downgrade`: the weak handle it returns refers to the same
/// allocation as the strong handle it came from.
#[verifier::external_body]
fn arc_downgrade_raw<T>(a: &Arc<T>) -> (w: RawWeak<T>) {
    RawWeak { inner: Arc::downgrade(a) }
}

/// Relies on `Weak::clone`: the clone refers to the same allocation as the
/// weak handle it came from.
#[verifier::external_body]
fn weak_clone_raw<T>(w: &RawWeak<T>) -> (r: RawWeak<T>) {
    RawWeak { inner: w.inner.clone() }
}

/// Relies on `Weak::upgrade`: it returns a strong handle only while the
/// payload still has a strong owner, and that handle shares the allocation
/// the weak handle refers to, so it carries the weak handle's referent.
#[verifier::external_body]
fn weak_upgrade_raw<T>(w: &Weak<T>) -> (r: Option<Arc<T>>)
    ensures
        r matches Some(a) ==> *a == w.value(),
{
    w.raw.inner.upgrade()
}

/// Relies on `Arc::get_mut`: it yields a mutable reference only when the
/// calling handle is the sole handle, strong or weak, onto the allocation,
/// so nothing else can observe the mutation.
#[verifier::external_body]
fn arc_get_mut_raw<'a, T>(a: &'a mut Arc<T>) -> (r: Option<&'a mut T>)
    ensures
        r matches Some(m) ==> *m == **old(a) && **final(a) == *final(m),
        r is None ==> **final(a) == **old(a),
{
    Arc::get_mut(a)
}

impl<T> SafeArc<T> {
    /// The payload this handle owns.
    pub closed spec fn value(self) -> T {
        *self.inner
    }

    /// Allocates a fresh payload with itself as the sole handle.
    pub fn new(data: T) -> (arc: SafeArc<T>)
        ensures
            arc.value() == data,
    {
        SafeArc { inner: Arc::new(data) }
    }

    /// A shared reference to the payload; holding a strong handle is proof
    /// enough that the payload is valid.
    pub fn deref(&self) -> (r: &T)
        ensures
            *r == self.value(),
    {
        &*self.inner
    }

    /// Grants mutable access to the payload exactly when this is provably
    /// the sole handle of any kind; otherwise another handle could observe
    /// the mutation, and nothing is granted.
    pub fn get_mut(arc: &mut SafeArc<T>) -> (r: Option<&mut T>)
        ensures
            r matches Some(m) ==> *m == old(arc).value() && final(arc).value() == *final(m),
            r is None ==> final(arc).value() == old(arc).value(),
    {
        arc_get_mut_raw(&mut arc.inner)
    }

    /// Mints a non-owning handle onto the same payload.
    pub fn downgrade(arc: &mut SafeArc<T>) -> (w: Weak<T>)
        ensures
            w.value() == old(arc).value(),
            final(arc).value() == old(arc).value(),
    {
        let raw = arc_downgrade_raw(&arc.inner);
        Weak { raw, referent: Ghost(arc.value()) }
    }
}

impl<T> Clone for SafeArc<T> {
    /// Mints one more owning handle onto the same payload.
    fn clone(&self) -> (r: Self)
        ensures
            r.value() == self.value(),
    {
        SafeArc { inner: arc_clone_raw(&self.inner) }
    }
}

impl<T> Weak<T> {
    /// The payload this handle refers to — whether or not it is still alive.
    pub closed spec fn value(self) -> T {
        self.referent@
    }

    /// Attempts to mint an owning handle: succeeds only while the payload
    /// still has a strong owner, and then hands back its value unchanged.
    pub fn upgrade(&self) -> (r: Option<SafeArc<T>>)
        ensures
            r matches Some(arc) ==> arc.value() == self.value(),
    {
        match weak_upgrade_raw(self) {
            Some(inner) => Some(SafeArc { inner }),
            None => None,
        }
    }
}

impl<T> Clone for Weak<T> {
    /// Mints one more non-owning handle onto the same allocation.
    fn clone(&self) -> (r: Self)
        ensures
            r.value() == self.value(),
    {
        Weak { raw: weak_clone_raw(&self.raw), referent: self.referent }
    }
}

} // verus!
