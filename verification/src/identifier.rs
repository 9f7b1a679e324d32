//! Identifiers and the counter that hands them out.

use vstd::prelude::*;

verus! {

/// The handle under which a certificate is registered.
pub type Identifier = u64;

/// Hands out identifiers in increasing order, each one once.
///
/// The counter is owned by whoever owns the allocator; nothing resets or
/// lowers it.
pub struct IdentifierAllocator {
    next: Identifier,
}

impl View for IdentifierAllocator {
    type V = Identifier;

    /// The identifier that is handed out next.
    closed spec fn view(&self) -> Identifier {
        self.next
    }
}

impl IdentifierAllocator {
    /// An allocator whose first identifier is `genesis`.
    pub fn new(genesis: Identifier) -> (allocator: Self)
        ensures
            allocator@ == genesis,
    {
        IdentifierAllocator { next: genesis }
    }

    /// The identifier that `next` would return, without taking it.
    pub fn peek(&self) -> (id: Identifier)
        ensures
            id == self@,
    {
        self.next
    }

    /// Whether the counter stands at the largest identifier, from which it
    /// cannot advance.
    pub fn is_exhausted(&self) -> (exhausted: bool)
        ensures
            exhausted == (self@ == Identifier::MAX),
    {
        self.next == Identifier::MAX
    }

    /// Returns the current counter value and advances the counter by one.
    pub fn next(&mut self) -> (id: Identifier)
        requires
            old(self)@ < Identifier::MAX,
        ensures
            id == old(self)@,
            final(self)@ == old(self)@ + 1,
        no_unwind
    {
        let id: Identifier = self.next;
        self.next = id + 1;
        id
    }
}

} // verus!
