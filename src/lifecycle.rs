use vstd::prelude::*;
use crate::run_loop::{none_stops, run_of, Action, LoopModel};
use crate::signal::PollOutcome;

verus! {

/// The loop starts well formed, and each step that the loop can take keeps
/// it so: in particular finalize is never handed out while the flag is up.
pub proof fn lemma_steps_keep_invariant(m: LoopModel, p: PollOutcome)
    requires
        m.wf(),
    ensures
        LoopModel::initial().wf(),
        m.running ==> m.after_poll(p).wf(),
        !m.running ==> m.after_stop().wf(),
{
    let n = m.after_poll(p);
    if m.running {
        assert(n.polls[n.polls.len() - 1] == p);
        assert forall|i: int| 0 <= i < m.polls.len() implies #[trigger] n.polls[i] == m.polls[i] by {}
        assert(none_stops(n.polls) == !p.requests_stop());
    }
}

/// Polls that are all empty leave the loop running, untouched but for the
/// record of what it saw.
pub proof fn lemma_run_while_empty(polls: Seq<PollOutcome>)
    requires
        none_stops(polls),
    ensures
        run_of(polls) == (LoopModel { running: true, finalized: false, polls: polls }),
    decreases polls.len(),
{
    if polls.len() > 0 {
        let front = polls.drop_last();
        assert(none_stops(front)) by {
            assert forall|i: int| 0 <= i < front.len() implies !(#[trigger] front[i]).requests_stop() by {
                assert(front[i] == polls[i]);
            }
        }
        lemma_run_while_empty(front);
        assert(polls[polls.len() - 1] == polls.last());
        assert(!polls.last().requests_stop());
        assert(front.push(polls.last()) =~= polls);
    } else {
        assert(polls =~= Seq::empty());
    }
}

/// Normal completion: when the first poll that asks to stop is the last of
/// `polls`, the loop has ticked exactly once per poll, was running before
/// that poll, is stopped after it, and its next step is the one finalize.
pub proof fn lemma_normal_completion(polls: Seq<PollOutcome>)
    requires
        polls.len() > 0,
        none_stops(polls.drop_last()),
        polls.last().requests_stop(),
    ensures
        run_of(polls.drop_last()).running,
        run_of(polls).wf(),
        !run_of(polls).running,
        run_of(polls).ticks() == polls.len(),
        run_of(polls).stop_action() == Action::Finalize,
        run_of(polls).after_stop().stop_action() == Action::Exit,
{
    let front = polls.drop_last();
    lemma_run_while_empty(front);
    assert(front.push(polls.last()) =~= polls);
    let m = run_of(polls);
    assert(m.polls[m.polls.len() - 1] == polls.last());
    assert(!none_stops(m.polls));
}

/// Bounded latency: the poll that sees the signal is followed by exactly one
/// tick; after it the loop only finalizes, and ticks no more.
pub proof fn lemma_one_tick_after_signal(m: LoopModel, p: PollOutcome)
    requires
        m.wf(),
        m.running,
        p.requests_stop(),
    ensures
        !m.after_poll(p).running,
        m.after_poll(p).ticks() == m.ticks() + 1,
        m.after_poll(p).stop_action() == Action::Finalize,
        m.after_poll(p).after_stop().ticks() == m.after_poll(p).ticks(),
        !m.after_poll(p).after_stop().running,
        m.after_poll(p).after_stop().after_stop() == m.after_poll(p).after_stop(),
{
}

/// Finalize is handed out exactly once: only once the flag is down, on the
/// first check after that, and never again.
pub proof fn lemma_finalize_exactly_once(m: LoopModel)
    requires
        m.wf(),
    ensures
        m.finalized ==> !m.running,
        !m.running ==> (m.stop_action() == Action::Finalize <==> !m.finalized),
        !m.running ==> m.after_stop().finalized,
        !m.running ==> m.after_stop().stop_action() == Action::Exit,
{
}

/// A closed channel stops the loop exactly as a sent signal does.
pub proof fn lemma_closed_same_as_signaled(m: LoopModel)
    ensures
        m.after_poll(PollOutcome::Closed).running == m.after_poll(PollOutcome::Signaled).running,
        !m.after_poll(PollOutcome::Closed).running,
        m.after_poll(PollOutcome::Closed).finalized == m.after_poll(PollOutcome::Signaled).finalized,
        m.after_poll(PollOutcome::Closed).ticks() == m.after_poll(PollOutcome::Signaled).ticks(),
        m.after_poll(PollOutcome::Closed).stop_action() == m.after_poll(
            PollOutcome::Signaled,
        ).stop_action(),
{
}

} // verus!
