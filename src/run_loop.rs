use vstd::prelude::*;
use crate::signal::PollOutcome;

verus! {

/// What the driver of the run loop must do next.
#[derive(Clone, Copy, Debug, PartialEq, Eq, Structural)]
pub enum Action {
    /// Call `tick` on the service once.
    Tick,
    /// Call `finalize` on the service, consuming it.
    Finalize,
    /// Nothing is left to do: the service was finalized already.
    Exit,
}

/// Abstract state of the run loop: the running flag, whether finalize was
/// handed out, and every poll outcome seen so far (one tick follows each).
pub struct LoopModel {
    pub running: bool,
    pub finalized: bool,
    pub polls: Seq<PollOutcome>,
}

impl LoopModel {
    pub open spec fn initial() -> LoopModel {
        LoopModel { running: true, finalized: false, polls: Seq::empty() }
    }

    /// Every iteration ticks once, so ticks and polls are counted together.
    pub open spec fn ticks(self) -> nat {
        self.polls.len()
    }

    /// One iteration of the running loop: poll, set the flag, tick.
    pub open spec fn after_poll(self, p: PollOutcome) -> LoopModel {
        LoopModel { running: !p.requests_stop(), finalized: self.finalized, polls: self.polls.push(p) }
    }

    /// A check of the loop condition once the flag is down.
    pub open spec fn after_stop(self) -> LoopModel {
        LoopModel { running: self.running, finalized: true, polls: self.polls }
    }

    /// What a check of the loop condition hands out once the flag is down.
    pub open spec fn stop_action(self) -> Action {
        if self.finalized {
            Action::Exit
        } else {
            Action::Finalize
        }
    }

    /// The loop runs exactly as long as no poll asked it to stop, and
    /// finalize is never handed out while it runs.
    pub open spec fn wf(self) -> bool {
        &&& self.running == none_stops(self.polls)
        &&& self.finalized ==> !self.running
    }
}

/// No poll in `polls` asked the loop to stop.
pub open spec fn none_stops(polls: Seq<PollOutcome>) -> bool {
    forall|i: int| 0 <= i < polls.len() ==> !(#[trigger] polls[i]).requests_stop()
}

/// The state the loop reaches from its start when its polls return `polls`
/// in order.
pub open spec fn run_of(polls: Seq<PollOutcome>) -> LoopModel
    decreases polls.len(),
{
    if polls.len() == 0 {
        LoopModel::initial()
    } else {
        run_of(polls.drop_last()).after_poll(polls.last())
    }
}

/// The decisions of the run loop: when to tick and when to finalize.
pub struct RunLoop {
    running: bool,
    finalized: bool,
    polls: Ghost<Seq<PollOutcome>>,
}

impl View for RunLoop {
    type V = LoopModel;

    closed spec fn view(&self) -> LoopModel {
        LoopModel { running: self.running, finalized: self.finalized, polls: self.polls@ }
    }
}

impl RunLoop {
    #[verifier::type_invariant]
    spec fn inv(self) -> bool {
        self@.wf()
    }

    pub fn new() -> (r: RunLoop)
        ensures
            r@ == LoopModel::initial(),
            r@.wf(),
    {
        RunLoop { running: true, finalized: false, polls: Ghost(Seq::empty()) }
    }

    pub fn is_running(&self) -> (r: bool)
        ensures
            r == self@.running,
    {
        self.running
    }

    pub fn is_finalized(&self) -> (r: bool)
        ensures
            r == self@.finalized,
    {
        self.finalized
    }

    /// Records one poll of the termination channel while running; the
    /// service is then ticked whatever the poll said.
    pub fn observe(&mut self, poll: PollOutcome) -> (a: Action)
        requires
            old(self)@.running,
        ensures
            final(self)@ == old(self)@.after_poll(poll),
            final(self)@.wf(),
            a == Action::Tick,
    {
        proof {
            use_type_invariant(&*self);
        }
        let stop = poll.is_stop();
        let ghost polls = self.polls@.push(poll);
        proof {
            assert forall|i: int| 0 <= i < polls.len() - 1 implies #[trigger] polls[i]
                == self.polls@[i] by {}
            assert(polls[polls.len() - 1] == poll);
            assert(none_stops(polls) == !poll.requests_stop());
        }
        *self = RunLoop { running: !stop, finalized: self.finalized, polls: Ghost(polls) };
        proof {
            use_type_invariant(&*self);
        }
        Action::Tick
    }

    /// A check of the loop condition after the flag went down: finalize the
    /// first time, nothing after that.
    pub fn conclude(&mut self) -> (a: Action)
        requires
            !old(self)@.running,
        ensures
            final(self)@ == old(self)@.after_stop(),
            final(self)@.wf(),
            a == old(self)@.stop_action(),
    {
        proof {
            use_type_invariant(&*self);
        }
        if self.finalized {
            Action::Exit
        } else {
            *self = RunLoop { running: false, finalized: true, polls: self.polls };
            proof {
                use_type_invariant(&*self);
            }
            Action::Finalize
        }
    }
}

} // verus!
