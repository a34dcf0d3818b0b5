//! Reference counting for resources: who still holds one.

use vstd::prelude::*;

verus! {

/// The count after one more reference is taken. A count that has reached
/// `u64::MAX` stays there.
pub open spec fn retained(count: nat) -> nat {
    if count < u64::MAX {
        count + 1
    } else {
        count
    }
}

/// The count after one reference is given back. Nothing can be given back
/// from a count of zero, and a count that has reached `u64::MAX` is pinned:
/// it can no longer tell how many references there are, so it never drops.
pub open spec fn released(count: nat) -> nat {
    if count == 0 || count >= u64::MAX {
        count
    } else {
        (count - 1) as nat
    }
}

/// The reference count attached to a resource. A resource is alive while
/// its count is above zero, whatever its usage is.
#[derive(Debug)]
pub struct LifetimeGuard {
    ref_count: u64,
}

impl View for LifetimeGuard {
    type V = nat;

    /// The number of references held.
    closed spec fn view(&self) -> nat {
        self.ref_count as nat
    }
}

impl LifetimeGuard {
    /// A guard for a resource that has just been created: its creator holds
    /// the one reference.
    pub fn new() -> (guard: LifetimeGuard)
        ensures
            guard@ == 1,
    {
        LifetimeGuard { ref_count: 1 }
    }

    /// A guard that stands for `count` references.
    pub fn with_count(count: u64) -> (guard: LifetimeGuard)
        ensures
            guard@ == count,
    {
        LifetimeGuard { ref_count: count }
    }

    pub fn ref_count(&self) -> (count: u64)
        ensures
            count == self@,
    {
        self.ref_count
    }

    pub fn is_alive(&self) -> (alive: bool)
        ensures
            alive == (self@ > 0),
    {
        self.ref_count > 0
    }

    /// Takes one more reference.
    pub fn retain(&mut self)
        ensures
            final(self)@ == retained(old(self)@),
    {
        if self.ref_count < u64::MAX {
            self.ref_count = self.ref_count + 1;
        }
    }

    /// Gives one reference back, and says whether it was the last one.
    pub fn release(&mut self) -> (last: bool)
        ensures
            final(self)@ == released(old(self)@),
            last == (old(self)@ == 1),
    {
        if self.ref_count == 0 || self.ref_count == u64::MAX {
            false
        } else {
            self.ref_count = self.ref_count - 1;
            self.ref_count == 0
        }
    }
}

} // verus!
