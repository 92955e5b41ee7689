use vstd::prelude::*;
use std::sync::mpsc::Receiver;
use std::sync::mpsc::TryRecvError;
use crate::run_loop::{Action, LoopModel, RunLoop};
use crate::signal::PollOutcome;

verus! {

#[verifier::external_type_specification]
#[verifier::external_body]
#[verifier::reject_recursive_types(T)]
pub struct ExReceiver<T>(Receiver<T>);

/// Relies on std's `Receiver::try_recv`: it never blocks, and it reports
/// either a value, an empty channel, or a sender side that is gone. Which of
/// these comes depends on the other thread, so nothing is promised here.
#[verifier::external_body]
fn poll_channel(receiver: &Receiver<()>) -> (r: PollOutcome) {
    match receiver.try_recv() {
        Ok(()) => PollOutcome::Signaled,
        Err(TryRecvError::Empty) => PollOutcome::Empty,
        Err(TryRecvError::Disconnected) => PollOutcome::Closed,
    }
}

/// Worker side of a running service: the consumer end of the termination
/// channel together with the run loop's decisions.
pub struct BasicRunner {
    kill_receiver: Receiver<()>,
    state: RunLoop,
}

impl View for BasicRunner {
    type V = LoopModel;

    closed spec fn view(&self) -> LoopModel {
        self.state@
    }
}

impl BasicRunner {
    /// The consumer end that this runner polls.
    pub closed spec fn receiver(&self) -> Receiver<()> {
        self.kill_receiver
    }

    pub fn new(kill_receiver: Receiver<()>) -> (r: BasicRunner)
        ensures
            r@ == LoopModel::initial(),
            r@.wf(),
            r.receiver() == kill_receiver,
    {
        BasicRunner { kill_receiver: kill_receiver, state: RunLoop::new() }
    }

    pub fn is_running(&self) -> (r: bool)
        ensures
            r == self@.running,
    {
        self.state.is_running()
    }

    /// One check of the loop condition. While running, it polls the channel
    /// without blocking, lowers the flag on a signal or a closed channel, and
    /// asks for a tick in any case. Once stopped, it asks for finalize the
    /// first time and for nothing after that.
    pub fn next_step(&mut self) -> (a: Action)
        ensures
            final(self).receiver() == old(self).receiver(),
            final(self)@.wf(),
            old(self)@.running ==> {
                &&& final(self)@.polls.len() == old(self)@.polls.len() + 1
                &&& final(self)@ == old(self)@.after_poll(final(self)@.polls.last())
                &&& a == Action::Tick
            },
            !old(self)@.running ==> {
                &&& final(self)@ == old(self)@.after_stop()
                &&& a == old(self)@.stop_action()
            },
    {
        if self.state.is_running() {
            let poll = poll_channel(&self.kill_receiver);
            self.state.observe(poll)
        } else {
            self.state.conclude()
        }
    }
}

} // verus!
