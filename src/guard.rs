//! Run-time borrow discipline for a shared index container: any number of
//! shared borrows, or one exclusive borrow, and a conflicting request fails
//! at once instead of waiting.

use vstd::prelude::*;

verus! {

/// Why an access to a container was refused.
#[derive(Clone, Copy, Debug, PartialEq, Eq, Structural)]
pub enum AccessError {
    /// The request conflicts with a borrow that is still outstanding.
    BorrowConflict,
}

/// The borrows outstanding on one container.
#[derive(Clone, Copy, Debug, PartialEq, Eq, Structural)]
pub struct AccessGuard {
    pub readers: u32,
    pub writer: bool,
}

impl AccessGuard {
    /// A container is never borrowed shared and exclusively at once.
    pub open spec fn wf(self) -> bool {
        !(self.writer && self.readers > 0)
    }

    /// No borrow is outstanding.
    pub open spec fn free(self) -> bool {
        self.readers == 0 && !self.writer
    }

    /// The guard and the outcome after a request for a shared borrow: it is
    /// granted unless an exclusive borrow is outstanding (or the count of
    /// shared borrows is at its limit).
    pub open spec fn shared_step(self) -> (AccessGuard, Result<(), AccessError>) {
        if self.writer || self.readers == u32::MAX {
            (self, Err(AccessError::BorrowConflict))
        } else {
            (AccessGuard { readers: (self.readers + 1) as u32, writer: false }, Ok(()))
        }
    }

    /// The guard and the outcome after a request for an exclusive borrow: it
    /// is granted only when no borrow is outstanding.
    pub open spec fn exclusive_step(self) -> (AccessGuard, Result<(), AccessError>) {
        if self.free() {
            (AccessGuard { readers: 0, writer: true }, Ok(()))
        } else {
            (self, Err(AccessError::BorrowConflict))
        }
    }

    /// A guard with no borrow outstanding.
    pub fn new() -> (r: AccessGuard)
        ensures
            r.wf(),
            r.free(),
    {
        AccessGuard { readers: 0, writer: false }
    }

    /// Whether no borrow is outstanding.
    pub fn is_free(&self) -> (r: bool)
        ensures
            r == self.free(),
    {
        self.readers == 0 && !self.writer
    }

    /// Requests a shared borrow.
    pub fn try_borrow_shared(&mut self) -> (r: Result<(), AccessError>)
        requires
            old(self).wf(),
        ensures
            (*final(self), r) == old(self).shared_step(),
            final(self).wf(),
    {
        if self.writer || self.readers == u32::MAX {
            Err(AccessError::BorrowConflict)
        } else {
            self.readers = self.readers + 1;
            Ok(())
        }
    }

    /// Requests an exclusive borrow.
    pub fn try_borrow_exclusive(&mut self) -> (r: Result<(), AccessError>)
        requires
            old(self).wf(),
        ensures
            (*final(self), r) == old(self).exclusive_step(),
            final(self).wf(),
    {
        if self.readers == 0 && !self.writer {
            self.writer = true;
            Ok(())
        } else {
            Err(AccessError::BorrowConflict)
        }
    }

    /// Ends one shared borrow.
    pub fn release_shared(&mut self)
        requires
            old(self).wf(),
            old(self).readers > 0,
        ensures
            final(self).wf(),
            *final(self) == (AccessGuard { readers: (old(self).readers - 1) as u32, writer: false }),
    {
        self.readers = self.readers - 1;
    }

    /// Ends the exclusive borrow.
    pub fn release_exclusive(&mut self)
        requires
            old(self).wf(),
            old(self).writer,
        ensures
            final(self).wf(),
            final(self).free(),
    {
        self.writer = false;
    }
}

/// Once an exclusive borrow is granted, every further request, shared or
/// exclusive, fails with a borrow conflict and leaves the guard as it is,
/// until that borrow is released.
pub proof fn lemma_reentrant_access_conflicts(g: AccessGuard)
    requires
        g.wf(),
        g.exclusive_step().1 is Ok,
    ensures
        ({
            let held = g.exclusive_step().0;
            &&& held.exclusive_step() == (held, Err::<(), AccessError>(AccessError::BorrowConflict))
            &&& held.shared_step() == (held, Err::<(), AccessError>(AccessError::BorrowConflict))
        }),
{
}

/// A shared borrow shuts out exclusive borrows while it is outstanding.
pub proof fn lemma_shared_excludes_exclusive(g: AccessGuard)
    requires
        g.wf(),
        g.shared_step().1 is Ok,
    ensures
        g.shared_step().0.exclusive_step().1 == Err::<(), AccessError>(AccessError::BorrowConflict),
{
}

} // verus!
