//! A model of the bounded connection pool: `capacity` connections exist in
//! all, and `available` of them are currently free. Acquisition fails at
//! once when the pool is exhausted; it never waits.

use vstd::prelude::*;

verus! {

/// The bounded, reusable set of database connections that every operation
/// draws from.
#[derive(Debug)]
pub struct Pool {
    pub capacity: usize,
    pub available: usize,
}

impl Pool {
    /// Free connections never outnumber the connections that exist.
    pub open spec fn wf(&self) -> bool {
        self.available <= self.capacity
    }

    /// Whether an operation that asks for a connection now would get one.
    pub open spec fn has_free(&self) -> bool {
        self.available > 0
    }

    /// A fresh pool has every connection free.
    pub fn new(capacity: usize) -> (p: Pool)
        ensures
            p.wf(),
            p.capacity == capacity,
            p.available == capacity,
    {
        Pool { capacity, available: capacity }
    }

    /// Check a connection out. This fails (returns `false`) exactly when
    /// the pool is exhausted, rather than waiting for a connection.
    pub fn try_acquire(&mut self) -> (got: bool)
        requires
            old(self).wf(),
        ensures
            final(self).wf(),
            final(self).capacity == old(self).capacity,
            got == old(self).has_free(),
            got ==> final(self).available == old(self).available - 1,
            !got ==> *final(self) == *old(self),
    {
        if self.available > 0 {
            self.available = self.available - 1;
            true
        } else {
            false
        }
    }

    /// Return a checked-out connection to the pool.
    pub fn release(&mut self)
        requires
            old(self).wf(),
            old(self).available < old(self).capacity,
        ensures
            final(self).wf(),
            final(self).capacity == old(self).capacity,
            final(self).available == old(self).available + 1,
    {
        self.available = self.available + 1;
    }
}

} // verus!
