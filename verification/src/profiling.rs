//! Device-side profiling: the start/end timestamps an enqueued operation
//! reports, and the duration they span.

use vstd::prelude::*;

verus! {

/// Start and end device timestamps (nanoseconds) of one enqueued operation,
/// valid once the queue has finished.
#[derive(Clone, Copy, PartialEq, Eq, Structural, Debug)]
pub struct ProfilingEvent {
    pub start_ns: u64,
    pub end_ns: u64,
}

impl ProfilingEvent {
    /// A completed operation reports its end no earlier than its start.
    pub open spec fn is_ordered(&self) -> bool {
        self.start_ns <= self.end_ns
    }

    /// The time the operation spanned, in nanoseconds.
    pub open spec fn spec_duration_ns(&self) -> int {
        self.end_ns - self.start_ns
    }

    /// The duration between the two timestamps; `None` for a timestamp pair
    /// that no completed operation can report (end before start).
    pub fn duration_ns(&self) -> (r: Option<u64>)
        ensures
            self.is_ordered() ==> r == Option::Some((self.end_ns - self.start_ns) as u64),
            !self.is_ordered() ==> r is None,
    {
        if self.start_ns <= self.end_ns {
            Option::Some(self.end_ns - self.start_ns)
        } else {
            Option::None
        }
    }
}

/// The profiling duration of any completed dispatch is non-negative.
pub proof fn lemma_duration_nonnegative(e: ProfilingEvent)
    requires
        e.is_ordered(),
    ensures
        e.spec_duration_ns() >= 0,
{
}

} // verus!
