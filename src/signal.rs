use vstd::prelude::*;

verus! {

/// What one non-blocking poll of the termination channel saw.
#[derive(Clone, Copy, Debug, PartialEq, Eq, Structural)]
pub enum PollOutcome {
    /// No signal yet: keep running.
    Empty,
    /// The producer sent the stop signal.
    Signaled,
    /// The producer side is gone; this means stop, exactly as a signal does.
    Closed,
}

impl PollOutcome {
    /// Whether this outcome asks the run loop to stop.
    pub open spec fn requests_stop(self) -> bool {
        !(self is Empty)
    }

    pub fn is_stop(&self) -> (r: bool)
        ensures
            r == self.requests_stop(),
    {
        match self {
            PollOutcome::Empty => false,
            PollOutcome::Signaled => true,
            PollOutcome::Closed => true,
        }
    }
}

} // verus!
