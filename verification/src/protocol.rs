//! The counter protocol of the shared-ownership control block.
//!
//! A control block carries two counters: `strong`, the number of live owning
//! handles, and `weak`, the number of live non-owning handles plus one
//! collective unit that all strong handles hold together for as long as at
//! least one of them exists.  The payload lives exactly as long as a strong
//! handle does; the block's memory lives exactly as long as the weak counter
//! is positive.
//!
//! This module states that protocol over plain counter values and proves it:
//! each operation of a handle is one transition of a [`BlockState`], and the
//! transitions preserve the block invariants and destroy the payload and
//! release the memory exactly once each.

use vstd::prelude::*;

verus! {

/// The reserved weak-counter value that marks the block as temporarily locked
/// while the exclusivity check of `get_mut` runs.  No ordinary count ever
/// takes this value.
pub const SENTINEL: usize = usize::MAX;

/// Largest strong count from which another strong handle may still be minted;
/// past it a clone storm is about to wrap the counter and the process aborts.
pub const STRONG_CLONE_LIMIT: usize = usize::MAX / 2;

/// The counter state of one control block, together with a record of how many
/// times the payload has been destroyed and the block's memory released.
///
/// The payload itself is not part of this model; `destroys == 0` stands for
/// "the payload is constructed and valid", and `frees == 0` for "the block's
/// memory is still allocated".
pub struct BlockState {
    /// Count of live strong handles.
    pub strong: usize,
    /// Count of live weak handles, plus the one collective unit held by the
    /// strong handles while at least one of them exists.
    pub weak: usize,
    /// How many times the payload has been destroyed.
    pub destroys: usize,
    /// How many times the block's memory has been released.
    pub frees: usize,
}

impl BlockState {
    /// The payload is constructed and valid.
    pub open spec fn payload_alive(self) -> bool {
        self.destroys == 0
    }

    /// The block's memory has not been released.
    pub open spec fn block_allocated(self) -> bool {
        self.frees == 0
    }

    /// The invariants of every reachable block state:
    /// the payload is valid exactly while a strong handle exists; the
    /// collective weak unit keeps the block alive while a strong handle
    /// exists; the memory is released exactly when the weak count reaches
    /// zero; destruction and release each happen at most once, in that
    /// order; and the weak count stays clear of the reserved sentinel.
    pub open spec fn wf(self) -> bool {
        &&& (self.strong > 0 <==> self.destroys == 0)
        &&& (self.strong > 0 ==> self.weak >= 1)
        &&& (self.weak == 0 <==> self.frees == 1)
        &&& self.destroys <= 1
        &&& self.frees <= 1
        &&& (self.frees == 1 ==> self.destroys == 1)
        &&& self.weak < SENTINEL
    }

    /// The state of a freshly allocated block: one strong handle, and the
    /// collective weak unit that it holds.
    pub open spec fn spec_new() -> BlockState {
        BlockState { strong: 1, weak: 1, destroys: 0, frees: 0 }
    }

    /// What cloning a strong handle does to the counters.
    pub open spec fn spec_clone_strong(self) -> BlockState
        recommends
            self.strong < SENTINEL,
    {
        BlockState { strong: (self.strong + 1) as usize, ..self }
    }

    /// What dropping a strong handle does: the handle that takes `strong`
    /// from one to zero destroys the payload and gives up the collective
    /// weak unit, which in turn may release the block.
    pub open spec fn spec_drop_strong(self) -> BlockState
        recommends
            self.wf(),
            self.strong >= 1,
    {
        if self.strong == 1 {
            let w = (self.weak - 1) as usize;
            BlockState {
                strong: 0,
                weak: w,
                destroys: (self.destroys + 1) as usize,
                frees: if w == 0 {
                    (self.frees + 1) as usize
                } else {
                    self.frees
                },
            }
        } else {
            BlockState { strong: (self.strong - 1) as usize, ..self }
        }
    }

    /// What cloning a weak handle does to the counters.
    pub open spec fn spec_clone_weak(self) -> BlockState
        recommends
            self.weak < SENTINEL,
    {
        BlockState { weak: (self.weak + 1) as usize, ..self }
    }

    /// What dropping a weak handle does: the handle that takes `weak` to
    /// zero releases the block's memory.
    pub open spec fn spec_drop_weak(self) -> BlockState
        recommends
            self.weak >= 1,
    {
        let w = (self.weak - 1) as usize;
        BlockState {
            weak: w,
            frees: if w == 0 {
                (self.frees + 1) as usize
            } else {
                self.frees
            },
            ..self
        }
    }

    /// What minting a weak handle from a strong one does to the counters.
    pub open spec fn spec_downgrade(self) -> BlockState
        recommends
            self.weak < SENTINEL,
    {
        BlockState { weak: (self.weak + 1) as usize, ..self }
    }

    /// Whether an upgrade of a weak handle succeeds: only while the payload
    /// still has a strong owner.
    pub open spec fn spec_upgrade_succeeds(self) -> bool {
        self.strong > 0
    }

    /// What an upgrade attempt does to the counters: a success mints one
    /// more strong handle; a failure changes nothing.
    pub open spec fn spec_upgrade(self) -> BlockState
        recommends
            self.strong < SENTINEL,
    {
        if self.strong > 0 {
            BlockState { strong: (self.strong + 1) as usize, ..self }
        } else {
            self
        }
    }
}

/// Allocates the model of a fresh block: `strong = 1`, and `weak = 1` for the
/// collective unit of the strong handles.
pub fn new_block() -> (s: BlockState)
    ensures
        s == BlockState::spec_new(),
        s.wf(),
        s.payload_alive(),
        s.block_allocated(),
{
    BlockState { strong: 1, weak: 1, destroys: 0, frees: 0 }
}

impl BlockState {
    /// One strong handle is cloned.  The caller holds a strong handle, so
    /// `strong >= 1`; past [`STRONG_CLONE_LIMIT`] a clone aborts the
    /// process rather than risk wrapping the counter, so those states are
    /// excluded here.
    pub fn clone_strong(&mut self)
        requires
            old(self).wf(),
            old(self).strong >= 1,
            old(self).strong <= STRONG_CLONE_LIMIT,
        ensures
            *final(self) == old(self).spec_clone_strong(),
            final(self).strong == old(self).strong + 1,
            final(self).weak == old(self).weak,
            final(self).payload_alive(),
            final(self).wf(),
    {
        self.strong = self.strong + 1;
    }

    /// One strong handle is dropped.  Exactly the drop that takes `strong`
    /// from one to zero destroys the payload, and then gives up the
    /// collective weak unit, which releases the block if no weak handle
    /// remains.
    pub fn drop_strong(&mut self) -> (destroyed: bool)
        requires
            old(self).wf(),
            old(self).strong >= 1,
        ensures
            *final(self) == old(self).spec_drop_strong(),
            destroyed <==> old(self).strong == 1,
            final(self).strong == old(self).strong - 1,
            destroyed ==> !final(self).payload_alive() && final(self).destroys == 1,
            !destroyed ==> final(self).payload_alive() && final(self).weak == old(self).weak,
            final(self).wf(),
    {
        let was_last = self.strong == 1;
        self.strong = self.strong - 1;
        if was_last {
            self.destroys = self.destroys + 1;
            self.drop_weak_unit();
        }
        was_last
    }

    /// One weak handle is cloned.  The caller holds a weak handle, so
    /// `weak >= 1`; the count must stay clear of the reserved sentinel.
    pub fn clone_weak(&mut self)
        requires
            old(self).wf(),
            old(self).weak >= 1,
            old(self).weak < SENTINEL - 1,
        ensures
            *final(self) == old(self).spec_clone_weak(),
            final(self).weak == old(self).weak + 1,
            final(self).strong == old(self).strong,
            final(self).wf(),
    {
        self.weak = self.weak + 1;
    }

    /// One weak handle is dropped.  The unit given up must not be the
    /// collective one of the strong handles: while `strong > 0` that unit is
    /// not a handle anyone could drop, so `weak >= 2` then.  The drop that
    /// takes `weak` to zero releases the block's memory.
    pub fn drop_weak(&mut self) -> (freed: bool)
        requires
            old(self).wf(),
            old(self).weak >= 1,
            old(self).strong > 0 ==> old(self).weak >= 2,
        ensures
            *final(self) == old(self).spec_drop_weak(),
            freed <==> old(self).weak == 1,
            final(self).weak == old(self).weak - 1,
            freed ==> !final(self).block_allocated() && final(self).frees == 1,
            !freed ==> final(self).frees == old(self).frees,
            final(self).destroys == old(self).destroys,
            final(self).wf(),
    {
        self.drop_weak_unit()
    }

    /// Gives up one unit of the weak count without asking who held it: the
    /// common tail of `drop_weak` and of the last strong drop, which gives
    /// up the collective unit.
    fn drop_weak_unit(&mut self) -> (freed: bool)
        requires
            old(self).wf(),
            old(self).weak >= 1,
            old(self).strong > 0 ==> old(self).weak >= 2,
        ensures
            *final(self) == old(self).spec_drop_weak(),
            freed <==> old(self).weak == 1,
            final(self).wf(),
    {
        let was_last = self.weak == 1;
        self.weak = self.weak - 1;
        if was_last {
            self.frees = self.frees + 1;
        }
        was_last
    }

    /// A weak handle is minted from a strong one.  Under concurrency this
    /// step spins while the weak count holds the sentinel; the sentinel is
    /// only ever held across a bounded window, and never between
    /// operations, so a well-formed state admits the increment at once.
    pub fn downgrade(&mut self)
        requires
            old(self).wf(),
            old(self).strong >= 1,
            old(self).weak < SENTINEL - 1,
        ensures
            *final(self) == old(self).spec_downgrade(),
            final(self).weak == old(self).weak + 1,
            final(self).strong == old(self).strong,
            final(self).payload_alive(),
            final(self).wf(),
    {
        self.weak = self.weak + 1;
    }

    /// An upgrade is attempted from a weak handle.  It succeeds exactly
    /// while the payload still has a strong owner, and then mints one more
    /// strong handle riding on the collective weak unit; a failure leaves
    /// the state untouched.
    pub fn upgrade(&mut self) -> (got: bool)
        requires
            old(self).wf(),
            old(self).weak >= 1,
            old(self).strong < SENTINEL,
        ensures
            *final(self) == old(self).spec_upgrade(),
            got <==> old(self).spec_upgrade_succeeds(),
            got <==> old(self).strong > 0,
            got ==> final(self).strong == old(self).strong + 1,
            !got ==> *final(self) == *old(self),
            final(self).weak == old(self).weak,
            final(self).wf(),
    {
        if self.strong == 0 {
            return false;
        }
        self.strong = self.strong + 1;
        true
    }

    /// The exclusivity check behind mutable access: lock the weak count at
    /// the sentinel, read the strong count, restore the weak count, and
    /// grant access only if this strong handle was the only handle of any
    /// kind.  The state always comes out as it went in.
    pub fn get_mut_check(&mut self) -> (unique: bool)
        requires
            old(self).wf(),
            old(self).strong >= 1,
        ensures
            *final(self) == *old(self),
            unique <==> (old(self).strong == 1 && old(self).weak == 1),
            final(self).wf(),
    {
        if self.weak != 1 {
            // the compare-and-swap of `weak` from 1 to the sentinel fails:
            // another weak handle exists, or another check is mid-flight
            return false;
        }
        // `weak` is locked at the sentinel: no downgrade or weak clone can
        // slip in while the strong count is read
        self.weak = SENTINEL;
        let unique = self.strong == 1;
        // restore unconditionally; nothing else touches `weak` meanwhile
        self.weak = 1;
        unique
    }
}

/// The state after cloning a strong handle `k` times over.
pub open spec fn clone_strong_n(s: BlockState, k: nat) -> BlockState
    decreases k,
{
    if k == 0 {
        s
    } else {
        clone_strong_n(s, (k - 1) as nat).spec_clone_strong()
    }
}

/// The state after dropping a strong handle `k` times over.
pub open spec fn drop_strong_n(s: BlockState, k: nat) -> BlockState
    decreases k,
{
    if k == 0 {
        s
    } else {
        drop_strong_n(s, (k - 1) as nat).spec_drop_strong()
    }
}

/// The state after dropping a weak handle `k` times over.
pub open spec fn drop_weak_n(s: BlockState, k: nat) -> BlockState
    decreases k,
{
    if k == 0 {
        s
    } else {
        drop_weak_n(s, (k - 1) as nat).spec_drop_weak()
    }
}

/// Cloning a strong handle `k` times adds `k` to the strong count and
/// touches nothing else.
pub proof fn lemma_clone_strong_n(s: BlockState, k: nat)
    requires
        s.wf(),
        s.strong >= 1,
        s.strong + k <= STRONG_CLONE_LIMIT + 1,
    ensures
        clone_strong_n(s, k).strong == s.strong + k,
        clone_strong_n(s, k).weak == s.weak,
        clone_strong_n(s, k).destroys == s.destroys,
        clone_strong_n(s, k).frees == s.frees,
        clone_strong_n(s, k).wf(),
    decreases k,
{
    if k > 0 {
        lemma_clone_strong_n(s, (k - 1) as nat);
    }
}

/// Dropping a strong handle `k` times, while more than `k` strong handles
/// exist, takes `k` off the strong count, destroys nothing and touches
/// nothing else.
pub proof fn lemma_drop_strong_n(s: BlockState, k: nat)
    requires
        s.wf(),
        s.strong > k,
    ensures
        drop_strong_n(s, k).strong == s.strong - k,
        drop_strong_n(s, k).weak == s.weak,
        drop_strong_n(s, k).destroys == s.destroys,
        drop_strong_n(s, k).frees == s.frees,
        drop_strong_n(s, k).wf(),
    decreases k,
{
    if k > 0 {
        lemma_drop_strong_n(s, (k - 1) as nat);
    }
}

/// Dropping a weak handle `k` times, after the payload is gone and while
/// more than `k` weak units remain, takes `k` off the weak count and keeps
/// the block allocated.
pub proof fn lemma_drop_weak_n(s: BlockState, k: nat)
    requires
        s.wf(),
        s.strong == 0,
        s.weak > k,
    ensures
        drop_weak_n(s, k).weak == s.weak - k,
        drop_weak_n(s, k).strong == 0,
        drop_weak_n(s, k).destroys == s.destroys,
        drop_weak_n(s, k).frees == s.frees,
        drop_weak_n(s, k).wf(),
    decreases k,
{
    if k > 0 {
        lemma_drop_weak_n(s, (k - 1) as nat);
    }
}

/// Law: for any `n >= 1`, creating one strong handle and cloning it `n - 1`
/// times over, then dropping `n - 1` of the `n` handles, leaves the payload
/// alive; dropping the last one destroys it exactly once, and, no weak
/// handle existing, releases the block as well.
pub proof fn lemma_last_strong_drop_destroys_once(n: nat)
    requires
        1 <= n <= STRONG_CLONE_LIMIT + 1,
    ensures
        ({
            let shared = drop_strong_n(
                clone_strong_n(BlockState::spec_new(), (n - 1) as nat),
                (n - 1) as nat,
            );
            &&& shared.payload_alive()
            &&& shared.destroys == 0
            &&& shared.strong == 1
            &&& shared.spec_drop_strong().destroys == 1
            &&& !shared.spec_drop_strong().payload_alive()
            &&& shared.spec_drop_strong().frees == 1
        }),
{
    let fresh = BlockState::spec_new();
    lemma_clone_strong_n(fresh, (n - 1) as nat);
    lemma_drop_strong_n(clone_strong_n(fresh, (n - 1) as nat), (n - 1) as nat);
}

/// Law: a downgrade followed by an upgrade succeeds while the strong handle
/// it came from remains alive, and the upgrade mints one more strong handle.
pub proof fn lemma_downgrade_then_upgrade(s: BlockState)
    requires
        s.wf(),
        s.strong >= 1,
        s.strong < SENTINEL,
        s.weak < SENTINEL - 1,
    ensures
        s.spec_downgrade().spec_upgrade_succeeds(),
        s.spec_downgrade().spec_upgrade().strong == s.strong + 1,
        s.spec_downgrade().spec_upgrade().wf(),
{
}

/// Law: once every strong handle is gone, an upgrade yields nothing and
/// changes nothing, no matter how many weak handles remain.
pub proof fn lemma_upgrade_after_last_strong(s: BlockState)
    requires
        s.wf(),
        s.strong == 0,
    ensures
        !s.spec_upgrade_succeeds(),
        s.spec_upgrade() == s,
{
}

/// Law: dropping the last strong handle while `k >= 1` weak handles remain
/// destroys the payload at once but keeps the block allocated; the block is
/// released only when the last of those weak handles is dropped.
pub proof fn lemma_weak_handles_keep_block(s: BlockState, k: nat)
    requires
        s.wf(),
        s.strong == 1,
        s.weak == k + 1,
        k >= 1,
    ensures
        ({
            let destroyed = s.spec_drop_strong();
            &&& !destroyed.payload_alive()
            &&& destroyed.destroys == 1
            &&& destroyed.block_allocated()
            &&& drop_weak_n(destroyed, (k - 1) as nat).block_allocated()
            &&& !drop_weak_n(destroyed, k).block_allocated()
            &&& drop_weak_n(destroyed, k).frees == 1
        }),
{
    let destroyed = s.spec_drop_strong();
    lemma_drop_weak_n(destroyed, (k - 1) as nat);
    assert(drop_weak_n(destroyed, k) == drop_weak_n(destroyed, (k - 1) as nat).spec_drop_weak());
}

} // verus!
