//! The permit pool that bounds how many posts are archived at once.

use vstd::prelude::*;

verus! {

/// A counting pool of permits. A unit of work takes one permit before it
/// starts and gives it back when it ends, however it ends; the pool never
/// has more permits out than it was made with.
#[derive(Debug)]
pub struct PermitPool {
    capacity: usize,
    in_use: usize,
}

impl PermitPool {
    #[verifier::type_invariant]
    spec fn bounded(self) -> bool {
        self.in_use <= self.capacity
    }

    /// The number of permits the pool was made with.
    pub closed spec fn capacity(&self) -> nat {
        self.capacity as nat
    }

    /// The number of permits that are out.
    pub closed spec fn in_use(&self) -> nat {
        self.in_use as nat
    }

    /// A pool of `capacity` permits, none of them out.
    pub fn new(capacity: usize) -> (pool: Self)
        ensures
            pool.capacity() == capacity,
            pool.in_use() == 0,
    {
        PermitPool { capacity, in_use: 0 }
    }

    /// The number of permits that can be taken now.
    pub fn available(&self) -> (free: usize)
        ensures
            free == self.capacity() - self.in_use(),
            self.in_use() <= self.capacity(),
    {
        proof {
            use_type_invariant(self);
        }
        self.capacity - self.in_use
    }

    /// The number of permits that are out. It never exceeds the capacity.
    pub fn held(&self) -> (out: usize)
        ensures
            out == self.in_use(),
            out <= self.capacity(),
    {
        proof {
            use_type_invariant(self);
        }
        self.in_use
    }

    /// Takes a permit if one is free, and says whether it did.
    pub fn try_acquire(&mut self) -> (taken: bool)
        ensures
            final(self).capacity() == old(self).capacity(),
            taken == (old(self).in_use() < old(self).capacity()),
            final(self).in_use() == if taken {
                old(self).in_use() + 1
            } else {
                old(self).in_use()
            },
            final(self).in_use() <= final(self).capacity(),
    {
        proof {
            use_type_invariant(&*self);
        }
        if self.in_use < self.capacity {
            self.in_use = self.in_use + 1;
            true
        } else {
            false
        }
    }

    /// Gives a permit back, and says whether one was out.
    pub fn release(&mut self) -> (returned: bool)
        ensures
            final(self).capacity() == old(self).capacity(),
            returned == (old(self).in_use() > 0),
            final(self).in_use() == if returned {
                old(self).in_use() - 1
            } else {
                old(self).in_use() as int
            },
            final(self).in_use() <= final(self).capacity(),
    {
        proof {
            use_type_invariant(&*self);
        }
        if self.in_use > 0 {
            self.in_use = self.in_use - 1;
            true
        } else {
            false
        }
    }
}

} // verus!
