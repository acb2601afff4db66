//! The identifier generator: the single source of fresh handles.
//!
//! Every registry-owned resource (certificate, socket) is named across the
//! trust boundary by an opaque 64-bit handle.  Handles must never repeat for
//! the lifetime of the process, so the generator hands out strictly
//! increasing values and records, as ghost state, the set it has issued.

use vstd::prelude::*;

verus! {

/// Produces process-unique, monotonically increasing 64-bit identifiers,
/// seeded at a fixed starting value when the process starts.
pub struct IdGenerator {
    next: u64,
    issued: Ghost<Set<u64>>,
}

impl IdGenerator {
    /// The set of identifiers handed out so far.
    pub closed spec fn issued(&self) -> Set<u64> {
        self.issued@
    }

    /// Every identifier issued so far lies below the internal counter, so
    /// the next value cannot collide with any of them.
    pub closed spec fn wf(&self) -> bool {
        forall|i: u64| self.issued@.contains(i) ==> i < self.next
    }

    /// The 64-bit space is not exhausted: another identifier can be issued.
    pub closed spec fn can_issue(&self) -> bool {
        self.next < u64::MAX
    }

    pub fn new() -> (g: IdGenerator)
        ensures
            g.wf(),
            g.can_issue(),
            g.issued() == Set::<u64>::empty(),
    {
        IdGenerator { next: 0, issued: Ghost(Set::empty()) }
    }

    /// Whether another identifier can still be issued.
    pub fn has_capacity(&self) -> (r: bool)
        ensures
            r == self.can_issue(),
    {
        self.next < u64::MAX
    }

    /// Returns an identifier that no earlier call has returned, and that is
    /// larger than every identifier issued before it.
    pub fn next_id(&mut self) -> (r: u64)
        requires
            old(self).wf(),
            old(self).can_issue(),
        ensures
            final(self).wf(),
            !old(self).issued().contains(r),
            final(self).issued() == old(self).issued().insert(r),
            forall|i: u64| old(self).issued().contains(i) ==> i < r,
    {
        let id = self.next;
        self.next = self.next + 1;
        proof {
            self.issued@ = self.issued@.insert(id);
        }
        id
    }
}

} // verus!
