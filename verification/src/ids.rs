//! Generated unique identities for creatures, nodes and muscles.
//!
//! Identities come from a monotone counter, so every identity handed out is
//! strictly below the counter afterwards, and two draws never collide. This
//! is what lets the library state — and prove — that a mutated offspring
//! shares no identity with its parent.

use vstd::prelude::*;

verus! {

/// Hands out identities in strictly increasing order.
pub struct IdSource {
    next: u64,
}

impl IdSource {
    /// The next identity this source will hand out; every identity handed
    /// out earlier is strictly below it.
    pub closed spec fn spec_next(self) -> u64 {
        self.next
    }

    /// Creates a source whose first identity is zero.
    pub fn new() -> (s: IdSource)
        ensures
            s.spec_next() == 0,
    {
        IdSource { next: 0 }
    }

    /// How many identities the source can still hand out.
    pub fn remaining(&self) -> (r: u64)
        ensures
            r == u64::MAX - self.spec_next(),
    {
        u64::MAX - self.next
    }

    /// Hands out a fresh identity.
    pub fn fresh(&mut self) -> (id: u64)
        requires
            old(self).spec_next() < u64::MAX,
        ensures
            id == old(self).spec_next(),
            final(self).spec_next() == id + 1,
    {
        let id = self.next;
        self.next = self.next + 1;
        id
    }
}

} // verus!
