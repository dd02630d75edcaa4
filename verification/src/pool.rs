//! A bounded worker pool, modelled by what the proxy loop relies on: how
//! many tasks are in flight and the hard cap on that number.  Submitting a
//! task needs a free worker — when none is free the dispatcher must wait,
//! which is the loop's backpressure against a slow destination — and
//! finishing a task frees exactly one worker.

use vstd::prelude::*;

verus! {

/// The pool's state: its fixed capacity and the tasks currently in flight.
pub struct WorkerPool {
    pub capacity: usize,
    pub in_flight: usize,
}

impl WorkerPool {
    /// The pool's invariant: at least one worker, and never more tasks in
    /// flight than workers.
    pub open spec fn wf(&self) -> bool {
        1 <= self.capacity && self.in_flight <= self.capacity
    }

    /// The state after one task is submitted.
    pub open spec fn spec_begin(self) -> WorkerPool {
        WorkerPool { capacity: self.capacity, in_flight: (self.in_flight + 1) as usize }
    }

    /// The state after one task finishes.
    pub open spec fn spec_finish(self) -> WorkerPool {
        WorkerPool { capacity: self.capacity, in_flight: (self.in_flight - 1) as usize }
    }

    /// A task may start only when a worker is free.
    pub open spec fn spec_can_begin(self) -> bool {
        self.in_flight < self.capacity
    }

    /// Makes an idle pool of the given capacity.
    pub fn new(capacity: usize) -> (p: WorkerPool)
        requires
            capacity >= 1,
        ensures
            p.wf(),
            p.capacity == capacity,
            p.in_flight == 0,
    {
        WorkerPool { capacity, in_flight: 0 }
    }

    /// Whether a worker is free, i.e. whether a submission would be admitted
    /// rather than blocking.
    pub fn has_free_worker(&self) -> (r: bool)
        ensures
            r == self.spec_can_begin(),
    {
        self.in_flight < self.capacity
    }

    /// Admits one task; only callable when a worker is free, so the number
    /// in flight never passes the capacity.
    pub fn begin_task(&mut self)
        requires
            old(self).wf(),
            old(self).spec_can_begin(),
        ensures
            final(self).wf(),
            *final(self) == old(self).spec_begin(),
    {
        self.in_flight = self.in_flight + 1;
    }

    /// Records one task's completion, freeing its worker.
    pub fn finish_task(&mut self)
        requires
            old(self).wf(),
            old(self).in_flight > 0,
        ensures
            final(self).wf(),
            *final(self) == old(self).spec_finish(),
    {
        self.in_flight = self.in_flight - 1;
    }
}

/// The concurrency bound: a well-formed pool never has more tasks in flight
/// than its capacity, and when it is saturated no further task can start
/// until one finishes — finishing one then admits exactly one more, after
/// which the pool is saturated again.
pub proof fn lemma_concurrency_bound(p: WorkerPool)
    requires
        p.wf(),
        p.in_flight == p.capacity,
    ensures
        !p.spec_can_begin(),
        p.spec_finish().spec_can_begin(),
        !p.spec_finish().spec_begin().spec_can_begin(),
        p.spec_finish().spec_begin() == p,
{
}

} // verus!
