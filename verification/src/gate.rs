//! The admission gate: a bound on the number of connections that are served
//! at one time.
//!
//! Only the counting is done here. A connection that finds no place free
//! waits with the caller, and asks again once a place has been given back.

use vstd::prelude::*;

verus! {

/// The number of connections that are served at one time, by default.
pub const DEFAULT_MAX_CONNECTIONS: usize = 1000;

/// A counter of the places taken, out of a fixed number of places.
#[derive(Debug)]
pub struct AdmissionGate {
    capacity: usize,
    active: usize,
}

impl AdmissionGate {
    #[verifier::type_invariant]
    spec fn inv(self) -> bool {
        self.active <= self.capacity
    }

    /// The number of places.
    pub closed spec fn spec_capacity(self) -> nat {
        self.capacity as nat
    }

    /// The number of places taken.
    pub closed spec fn spec_active(self) -> nat {
        self.active as nat
    }

    /// A gate with `capacity` places, none of them taken.
    pub fn new(capacity: usize) -> (gate: AdmissionGate)
        ensures
            gate.spec_capacity() == capacity,
            gate.spec_active() == 0,
    {
        AdmissionGate { capacity, active: 0 }
    }

    /// The number of places.
    pub fn capacity(&self) -> (n: usize)
        ensures
            n == self.spec_capacity(),
    {
        self.capacity
    }

    /// The number of places taken.
    pub fn active(&self) -> (n: usize)
        ensures
            n == self.spec_active(),
            n <= self.spec_capacity(),
    {
        proof {
            use_type_invariant(self);
        }
        self.active
    }

    /// The number of places left.
    pub fn available(&self) -> (n: usize)
        ensures
            n == self.spec_capacity() - self.spec_active(),
    {
        proof {
            use_type_invariant(self);
        }
        self.capacity - self.active
    }

    /// Takes a place where one is left, and says whether it did.
    pub fn try_acquire(&mut self) -> (admitted: bool)
        ensures
            (final(self).spec_active(), admitted) == spec_admit(
                old(self).spec_capacity(),
                old(self).spec_active(),
            ),
            final(self).spec_capacity() == old(self).spec_capacity(),
            final(self).spec_active() <= final(self).spec_capacity(),
    {
        proof {
            use_type_invariant(&*self);
        }
        if self.active < self.capacity {
            self.active = self.active + 1;
            true
        } else {
            false
        }
    }

    /// Gives a place back, and says whether one was taken. A gate with no
    /// place taken stays as it is.
    pub fn release(&mut self) -> (released: bool)
        ensures
            (final(self).spec_active(), released) == spec_release(old(self).spec_active()),
            final(self).spec_capacity() == old(self).spec_capacity(),
            final(self).spec_active() <= final(self).spec_capacity(),
    {
        if self.active > 0 {
            proof {
                use_type_invariant(&*self);
            }
            self.active = self.active - 1;
            true
        } else {
            false
        }
    }
}

/// The number of places taken after one is asked for, and whether it was
/// given: it is where fewer are taken than there are.
pub open spec fn spec_admit(capacity: nat, active: nat) -> (nat, bool) {
    if active < capacity {
        (active + 1, true)
    } else {
        (active, false)
    }
}

/// The number of places taken after one is given back, and whether one was
/// taken.
pub open spec fn spec_release(active: nat) -> (nat, bool) {
    if active > 0 {
        ((active - 1) as nat, true)
    } else {
        (active, false)
    }
}

/// While every place is taken, no one is admitted. Once one place has been
/// given back, the next to ask is admitted, and the one after that is not.
pub proof fn lemma_one_release_admits_one(capacity: nat)
    requires
        capacity > 0,
    ensures
        spec_admit(capacity, capacity) == (capacity, false),
        ({
            let freed = spec_release(capacity).0;
            let first = spec_admit(capacity, freed);
            let second = spec_admit(capacity, first.0);
            first == (capacity, true) && second == (capacity, false)
        }),
{
}

/// Admitting and releasing keep the number of places taken within the
/// number of places.
pub proof fn lemma_gate_stays_within_capacity(capacity: nat, active: nat)
    requires
        active <= capacity,
    ensures
        spec_admit(capacity, active).0 <= capacity,
        spec_release(active).0 <= capacity,
{
}

} // verus!
