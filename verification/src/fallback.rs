//! Platform fallback for systems with no descriptor-limit concept.
//!
//! [`NoRlimit`] offers the same acquisition vocabulary as the real pool
//! but never constrains and never blocks: every function here returns
//! immediately, so any number of acquisitions and releases goes through
//! without waiting and without error.

use vstd::prelude::*;

verus! {

/// Inert stand-in for the capacity pool. Copying it and consuming its
/// permits has no effect.
#[derive(Clone, Copy, PartialEq, Eq, Structural, Debug)]
pub struct NoRlimit;

impl NoRlimit {
    /// A fresh stand-in pool. Every instance is the same pool.
    pub fn new() -> (r: Self)
        ensures
            r == (NoRlimit {}),
    {
        Self {  }
    }

    /// A copy of the stand-in, for handing to another worker.
    pub fn clone(self) -> (r: Self)
        ensures
            r == self,
    {
        self
    }

    /// Acquires a permit from the stand-in: returns at once, imposing no
    /// bound and issuing nothing that would need releasing.
    pub fn access_owned(self) -> () {
    }
}

} // verus!
