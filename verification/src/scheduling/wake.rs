//! The actor-wide exclusive lease.
use vstd::prelude::*;

verus! {

/// The sole actor-wide exclusive lease.
///
/// The slot stores the held reply key, or `0` when free. Reply keys are
/// never `0`, so the slot cannot confuse a holder with a free lease.
pub struct Lease {
    holder: u64,
}

impl Lease {
    /// The reply that holds the lease, if any.
    pub closed spec fn held_key(&self) -> Option<u64> {
        if self.holder == 0 {
            None
        } else {
            Some(self.holder)
        }
    }

    /// Creates a free lease.
    pub fn new() -> (lease: Self)
        ensures
            lease.held_key() is None,
    {
        Lease { holder: 0 }
    }

    /// Records one exclusive holder.
    ///
    /// A handler cannot hold nested exclusive guards, so the lease is free.
    pub fn acquire(&mut self, key: u64)
        requires
            key != 0,
            old(self).held_key() is None,
        ensures
            final(self).held_key() == Some(key),
    {
        self.holder = key;
    }

    /// Clears the slot when it still holds `key`; another holder keeps it.
    pub fn release(&mut self, key: u64)
        requires
            key != 0,
        ensures
            final(self).held_key() == (if old(self).held_key() == Some(key) {
                None
            } else {
                old(self).held_key()
            }),
    {
        if self.holder == key {
            self.holder = 0;
        }
    }

    /// Clears the slot after its holder leaves the queue.
    ///
    /// Completion, cancellation, and a forgotten guard all end here.
    pub fn force_release(&mut self)
        ensures
            final(self).held_key() is None,
    {
        self.holder = 0;
    }

    /// Returns the exclusive reply key, if any.
    pub fn held(&self) -> (key: Option<u64>)
        ensures
            key == self.held_key(),
    {
        if self.holder == 0 {
            None
        } else {
            Some(self.holder)
        }
    }
}

} // verus!
