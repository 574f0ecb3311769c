//! A counting gate: a bounded number of permits, taken and returned one at a
//! time. Each tool executor holds one, so that no more of its processes run at
//! a time than it allows.

use vstd::prelude::*;

verus! {

/// A bounded number of permits.
#[derive(Clone, Copy, Debug, PartialEq, Eq, Structural)]
pub struct AdmissionGate {
    capacity: usize,
    in_use: usize,
}

impl AdmissionGate {
    #[verifier::type_invariant]
    spec fn bounded(self) -> bool {
        self.in_use <= self.capacity
    }

    /// The number of permits.
    pub closed spec fn capacity(&self) -> nat {
        self.capacity as nat
    }

    /// The number of permits that are taken.
    pub closed spec fn taken(&self) -> nat {
        self.in_use as nat
    }

    /// A gate with `capacity` permits, none taken.
    pub fn new(capacity: usize) -> (g: AdmissionGate)
        ensures
            g.capacity() == capacity,
            g.taken() == 0,
    {
        AdmissionGate { capacity, in_use: 0 }
    }

    /// The number of permits.
    pub fn limit(&self) -> (n: usize)
        ensures
            n == self.capacity(),
    {
        self.capacity
    }

    /// The number of permits that are taken: never more than there are.
    pub fn in_use(&self) -> (n: usize)
        ensures
            n == self.taken(),
            n <= self.capacity(),
    {
        proof {
            use_type_invariant(self);
        }
        self.in_use
    }

    /// Takes a permit if one is free, and says whether it did.
    pub fn try_acquire(&mut self) -> (taken: bool)
        ensures
            final(self).capacity() == old(self).capacity(),
            taken == (old(self).taken() < old(self).capacity()),
            final(self).taken() == old(self).taken() + if taken {
                1nat
            } else {
                0nat
            },
    {
        if self.in_use < self.capacity {
            self.in_use = self.in_use + 1;
            true
        } else {
            false
        }
    }

    /// Returns a permit, if any is taken.
    pub fn release(&mut self)
        ensures
            final(self).capacity() == old(self).capacity(),
            final(self).taken() == if old(self).taken() > 0 {
                (old(self).taken() - 1) as nat
            } else {
                0nat
            },
    {
        if self.in_use > 0 {
            proof {
                use_type_invariant(&*self);
            }
            self.in_use = self.in_use - 1;
        }
    }
}

} // verus!
