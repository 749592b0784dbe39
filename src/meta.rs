use vstd::prelude::*;
use std::time::{Duration, Instant};

verus! {

#[verifier::external_type_specification]
#[verifier::external_body]
pub struct ExInstant(Instant);

/// Relies on `Instant::now`: reads the monotonic clock. Nothing is known of the value.
pub assume_specification[ Instant::now ]() -> (r: Instant);

/// Relies on `Instant::elapsed`: the time since `self` was taken. Nothing is known of the value.
pub assume_specification[ Instant::elapsed ](i: &Instant) -> (r: Duration);

/// Run statistics: how many ticks have been simulated and when the run started.
#[derive(Copy, Clone)]
pub struct Meta {
    iterations: u64,
    runtime: Instant,
}

impl Meta {
    /// Number of ticks counted so far.
    pub closed spec fn count(&self) -> nat {
        self.iterations as nat
    }

    /// A fresh record: no ticks yet, clock started now.
    pub fn new() -> (r: Meta)
        ensures
            r.count() == 0,
    {
        Meta { iterations: 0, runtime: Instant::now() }
    }

    /// Counts one more tick.
    pub fn update(&mut self)
        requires
            old(self).count() < u64::MAX,
        ensures
            final(self).count() == old(self).count() + 1,
    {
        self.iterations = self.iterations + 1;
    }

    /// The number of ticks counted.
    pub fn iterations(&self) -> (r: u64)
        ensures
            r == self.count(),
    {
        self.iterations
    }

    /// Wall-clock time since the record was created.
    pub fn runtime(&self) -> (r: Duration) {
        self.runtime.elapsed()
    }
}

} // verus!
