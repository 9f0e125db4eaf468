//! The counting permit pool's state machine.
//!
//! [`CapacityPool`] tracks how many of a fixed number of permits are still
//! available. Acquisition and release are the only transitions; neither
//! ever changes the capacity. [`CapacityPool::try_acquire`] decides, for
//! one acquisition attempt, whether a permit is issued now or the caller
//! must wait for a release: the waiting itself is the surrounding
//! program's affair, which retries after each release until a permit is
//! issued.

use vstd::prelude::*;

verus! {

/// An opaque unit issued by the pool: the right to hold one file
/// descriptor open until the permit is released.
pub struct Permit {
    issued: (),
}

/// A counting permit pool with a fixed capacity.
pub struct CapacityPool {
    capacity: u64,
    available: u64,
}

impl CapacityPool {
    /// Total permits in circulation, held and available together. Fixed
    /// for the pool's lifetime.
    pub closed spec fn capacity(self) -> u64 {
        self.capacity
    }

    /// Permits not currently held by anyone.
    pub closed spec fn available(self) -> u64 {
        self.available
    }

    /// Permits currently held by callers.
    pub open spec fn outstanding(self) -> int {
        self.capacity() - self.available()
    }

    /// Well-formedness: no more permits are available than exist.
    pub open spec fn wf(self) -> bool {
        self.available() <= self.capacity()
    }

    /// Whether an acquisition attempt would have to wait for a release.
    pub open spec fn would_block(self) -> bool {
        self.available() == 0
    }

    /// The pool after one acquisition attempt, paired with whether the
    /// attempt succeeded: a permit is issued exactly when one is
    /// available, and takes one away.
    pub closed spec fn spec_try_acquire(self) -> (CapacityPool, bool) {
        if self.available > 0 {
            (CapacityPool { capacity: self.capacity, available: (self.available - 1) as u64 }, true)
        } else {
            (self, false)
        }
    }

    /// The pool after one release: the permit returns to the pool.
    pub closed spec fn spec_release(self) -> CapacityPool {
        CapacityPool { capacity: self.capacity, available: (self.available + 1) as u64 }
    }

    /// A fresh pool with every permit available.
    pub fn new(capacity: u64) -> (pool: Self)
        ensures
            pool.wf(),
            pool.capacity() == capacity,
            pool.available() == capacity,
    {
        CapacityPool { capacity, available: capacity }
    }

    /// Total permits in circulation.
    pub fn capacity_value(&self) -> (r: u64)
        ensures
            r == self.capacity(),
    {
        self.capacity
    }

    /// Permits not currently held.
    pub fn available_permits(&self) -> (r: u64)
        ensures
            r == self.available(),
    {
        self.available
    }

    /// One acquisition attempt. Issues a permit exactly when one is
    /// available; otherwise the caller must wait for a release and try
    /// again. Never changes the capacity.
    pub fn try_acquire(&mut self) -> (r: Option<Permit>)
        requires
            old(self).wf(),
        ensures
            final(self).wf(),
            final(self).capacity() == old(self).capacity(),
            r is Some <==> !old(self).would_block(),
            !old(self).would_block() ==> final(self).available() == old(self).available() - 1,
            old(self).would_block() ==> *final(self) == *old(self),
            (*final(self), r is Some) == old(self).spec_try_acquire(),
    {
        if self.available > 0 {
            self.available = self.available - 1;
            Some(Permit { issued: () })
        } else {
            None
        }
    }

    /// The pool after a run of acquisition attempts, one after another.
    pub open spec fn spec_after_acquires(self, n: nat) -> CapacityPool
        decreases n,
    {
        if n == 0 {
            self
        } else {
            self.spec_after_acquires((n - 1) as nat).spec_try_acquire().0
        }
    }

    /// Whether every attempt in a run of acquisition attempts succeeded.
    pub open spec fn spec_all_acquires_succeed(self, n: nat) -> bool
        decreases n,
    {
        if n == 0 {
            true
        } else {
            self.spec_all_acquires_succeed((n - 1) as nat)
                && self.spec_after_acquires((n - 1) as nat).spec_try_acquire().1
        }
    }

    /// Returns a held permit to the pool. Never changes the capacity.
    pub fn release(&mut self, permit: Permit)
        requires
            old(self).wf(),
            old(self).outstanding() > 0,
        ensures
            final(self).wf(),
            final(self).capacity() == old(self).capacity(),
            final(self).available() == old(self).available() + 1,
            *final(self) == old(self).spec_release(),
    {
        self.available = self.available + 1;
    }
}

/// A run of acquisition attempts no longer than the available permits
/// succeeds throughout, takes one permit per attempt, and leaves the
/// capacity unchanged.
proof fn lemma_acquires_within_available_succeed(pool: CapacityPool, n: nat)
    requires
        pool.wf(),
        n <= pool.available(),
    ensures
        pool.spec_all_acquires_succeed(n),
        pool.spec_after_acquires(n).available() == pool.available() - n,
        pool.spec_after_acquires(n).capacity() == pool.capacity(),
        pool.spec_after_acquires(n).wf(),
    decreases n,
{
    if n > 0 {
        lemma_acquires_within_available_succeed(pool, (n - 1) as nat);
    }
}

/// On a fresh pool, any number of acquisitions up to the capacity all
/// succeed, none having to wait, and exactly that many permits are then
/// outstanding.
pub proof fn lemma_fresh_pool_admits_up_to_capacity(pool: CapacityPool, n: nat)
    requires
        pool.wf(),
        pool.available() == pool.capacity(),
        n <= pool.capacity(),
    ensures
        pool.spec_all_acquires_succeed(n),
        pool.spec_after_acquires(n).outstanding() == n,
{
    lemma_acquires_within_available_succeed(pool, n);
}

/// On an exhausted pool an acquisition attempt gets no permit and must
/// wait; after a single release exactly one waiting acquisition succeeds,
/// and the pool is exhausted again, so no second one does.
pub proof fn lemma_exhausted_pool_blocks_until_release(pool: CapacityPool)
    requires
        pool.wf(),
        pool.would_block(),
        pool.capacity() > 0,
    ensures
        !pool.spec_try_acquire().1,
        pool.spec_try_acquire().0 == pool,
        pool.spec_release().spec_try_acquire().1,
        pool.spec_release().spec_try_acquire().0.would_block(),
{
}

/// Neither transition changes the pool's capacity: once computed, the
/// capacity is stable across every acquisition and release.
pub proof fn lemma_capacity_stable(pool: CapacityPool)
    ensures
        pool.spec_try_acquire().0.capacity() == pool.capacity(),
        pool.spec_release().capacity() == pool.capacity(),
{
}

} // verus!
