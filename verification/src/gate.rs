//! The admission gate: a count of permits that bounds how many pipelines are
//! in flight at once.

use vstd::prelude::*;

verus! {

/// Pipelines in flight at once unless the caller asks for another number.
pub const DEFAULT_CAPACITY: usize = 50;

/// A gate as contracts see it.
pub struct GateView {
    /// How many permits there are.
    pub capacity: nat,
    /// How many of them are out.
    pub in_use: nat,
}

/// A fixed number of permits, each out to at most one holder.
pub struct AdmissionGate {
    capacity: usize,
    in_use: usize,
}

impl View for AdmissionGate {
    type V = GateView;

    closed spec fn view(&self) -> GateView {
        GateView { capacity: self.capacity as nat, in_use: self.in_use as nat }
    }
}

impl AdmissionGate {
    /// No more permits are out than there are.
    pub open spec fn wf(&self) -> bool {
        self@.in_use <= self@.capacity
    }

    /// A gate with `capacity` permits, none of them out.
    pub fn new(capacity: usize) -> (gate: AdmissionGate)
        ensures
            gate.wf(),
            gate@ == (GateView { capacity: capacity as nat, in_use: 0 }),
    {
        AdmissionGate { capacity, in_use: 0 }
    }

    /// How many permits there are.
    pub fn capacity(&self) -> (n: usize)
        ensures
            n == self@.capacity,
    {
        self.capacity
    }

    /// How many permits are out.
    pub fn in_use(&self) -> (n: usize)
        ensures
            n == self@.in_use,
    {
        self.in_use
    }

    /// How many permits can still be had.
    pub fn available(&self) -> (n: usize)
        requires
            self.wf(),
        ensures
            n == self@.capacity - self@.in_use,
    {
        self.capacity - self.in_use
    }

    /// Hands out a permit if one is left, and says whether it did.
    pub fn try_acquire(&mut self) -> (acquired: bool)
        requires
            old(self).wf(),
        ensures
            final(self).wf(),
            acquired == (old(self)@.in_use < old(self)@.capacity),
            final(self)@.capacity == old(self)@.capacity,
            final(self)@.in_use == old(self)@.in_use + if acquired { 1nat } else { 0 },
    {
        if self.in_use < self.capacity {
            self.in_use = self.in_use + 1;
            true
        } else {
            false
        }
    }

    /// Takes a permit back, and says whether one was out.
    pub fn release(&mut self) -> (released: bool)
        requires
            old(self).wf(),
        ensures
            final(self).wf(),
            released == (old(self)@.in_use > 0),
            final(self)@.capacity == old(self)@.capacity,
            final(self)@.in_use == old(self)@.in_use - if released { 1nat } else { 0 },
    {
        if self.in_use > 0 {
            self.in_use = self.in_use - 1;
            true
        } else {
            false
        }
    }
}

} // verus!
