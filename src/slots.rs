//! The slot-identifier allocator: a monotonic counter with a fixed ceiling.

use vstd::prelude::*;

use crate::status::UStatus;

verus! {

/// Issues slot identifiers 1, 2, 3, ... up to a fixed capacity, never
/// recycling one and never wrapping around.
pub struct SlotAllocator {
    next: u64,
    capacity: u32,
}

impl SlotAllocator {
    /// How many identifiers have been issued so far.
    pub closed spec fn issued(&self) -> nat {
        (self.next - 1) as nat
    }

    /// The largest number of identifiers this allocator will ever issue.
    pub closed spec fn capacity(&self) -> nat {
        self.capacity as nat
    }

    pub closed spec fn wf(&self) -> bool {
        1 <= self.next <= self.capacity as u64 + 1
    }

    /// A valid allocator never issued more than its capacity, which fits
    /// in a `u32`.
    pub proof fn lemma_bounds(&self)
        requires
            self.wf(),
        ensures
            self.issued() <= self.capacity() <= u32::MAX,
    {
    }

    pub fn new(capacity: u32) -> (r: Self)
        ensures
            r.wf(),
            r.issued() == 0,
            r.capacity() == capacity,
    {
        SlotAllocator { next: 1, capacity }
    }

    /// Issues the next identifier, which is one more than the number issued
    /// before; fails once `capacity` identifiers have been issued.
    pub fn next_id(&mut self) -> (r: Result<u32, UStatus>)
        requires
            old(self).wf(),
        ensures
            final(self).wf(),
            final(self).capacity() == old(self).capacity(),
            old(self).issued() < old(self).capacity() ==> {
                &&& r is Ok
                &&& r->Ok_0 as nat == old(self).issued() + 1
                &&& final(self).issued() == old(self).issued() + 1
            },
            old(self).issued() >= old(self).capacity() ==> {
                &&& r == Err::<u32, UStatus>(UStatus::CapacityExceeded)
                &&& final(self).issued() == old(self).issued()
            },
    {
        if self.next > self.capacity as u64 {
            Err(UStatus::CapacityExceeded)
        } else {
            let id = self.next as u32;
            self.next = self.next + 1;
            Ok(id)
        }
    }
}

} // verus!
