//! The order of one invocation: start notification, command, draining of the
//! dispatcher, final notification.
use crate::app::{
    command_text, exit_code_of, handle_command_result, is_failure, outcome_text, start_message,
    start_text, CommandOutcome, FinalStatus,
};
use crate::cli::Args;
use crate::text::titled;
use vstd::prelude::*;

verus! {

/// Where one invocation stands.
#[derive(Clone, Debug)]
pub enum Phase {
    /// Nothing has been sent or spawned yet.
    Starting,
    /// The start notification is out and the command runs.
    Running,
    /// The command ended; the dispatcher is still delivering.
    Draining(CommandOutcome),
    /// The final notification is out.
    Done,
}

/// What the process layer reports to the invocation.
#[derive(Clone, Debug)]
pub enum InvocationEvent {
    /// The invocation may begin.
    Begin,
    /// The command runner returned, with this outcome.
    CommandEnded(CommandOutcome),
    /// The dispatcher has delivered its last batch and stopped.
    SenderFinished,
}

/// What the process layer does next.
#[derive(Clone, Debug)]
pub enum InvocationAction {
    /// Print and send this start notification, then run the command.
    StartCommand(String),
    /// Wait for the dispatcher to stop.
    AwaitSender,
    /// Print and send the final notification, and exit with its code.
    Finish(FinalStatus),
    /// The event does not belong to this phase: nothing to do.
    Ignore,
}

/// The phase that follows `phase` on `event`.
pub open spec fn next_phase(phase: Phase, event: InvocationEvent) -> Phase {
    match (phase, event) {
        (Phase::Starting, InvocationEvent::Begin) => Phase::Running,
        (Phase::Running, InvocationEvent::CommandEnded(outcome)) => Phase::Draining(outcome),
        (Phase::Draining(_), InvocationEvent::SenderFinished) => Phase::Done,
        _ => phase,
    }
}

/// Whether `event` in `phase` sends the final notification.
pub open spec fn finishes(phase: Phase, event: InvocationEvent) -> bool {
    phase is Draining && event is SenderFinished
}

/// The phase reached from the start through `events`.
pub open spec fn phase_after(events: Seq<InvocationEvent>) -> Phase
    decreases events.len(),
{
    if events.len() == 0 {
        Phase::Starting
    } else {
        next_phase(phase_after(events.drop_last()), events.last())
    }
}

/// One invocation's progress, from its start to its final notification.
pub struct Invocation {
    args: Args,
    phase: Phase,
}

impl Invocation {
    /// The settings of the invocation.
    pub closed spec fn args(&self) -> Args {
        self.args
    }

    /// Where the invocation stands.
    pub closed spec fn phase(&self) -> Phase {
        self.phase
    }

    /// An invocation that has not begun.
    pub fn new(args: Args) -> (r: Self)
        ensures
            r.args() == args,
            r.phase() is Starting,
    {
        Invocation { args, phase: Phase::Starting }
    }

    /// Takes one report. Beginning sends the start notification before the
    /// command runs; the command's end waits for the dispatcher; only the
    /// dispatcher's stop, after the command ended, gives the final
    /// notification. A report out of order changes nothing.
    pub fn step(&mut self, event: InvocationEvent) -> (r: InvocationAction)
        ensures
            final(self).args() == old(self).args(),
            final(self).phase() == next_phase(old(self).phase(), event),
            (old(self).phase() is Starting && event is Begin) ==> (r matches InvocationAction::StartCommand(m)
                && m@ == titled(old(self).args().title, start_text(command_text(old(self).args())))),
            (old(self).phase() is Running && event is CommandEnded) ==> r is AwaitSender,
            finishes(old(self).phase(), event) ==> (r matches InvocationAction::Finish(s)
                && s.message@ == titled(
                old(self).args().title,
                outcome_text(old(self).args(), old(self).phase()->Draining_0),
            ) && s.is_error == is_failure(old(self).phase()->Draining_0) && s.exit_code
                == exit_code_of(old(self).phase()->Draining_0)),
            !(old(self).phase() is Starting && event is Begin) && !(old(self).phase() is Running
                && event is CommandEnded) && !finishes(old(self).phase(), event) ==> r is Ignore,
    {
        match (&self.phase, event) {
            (Phase::Starting, InvocationEvent::Begin) => {
                self.phase = Phase::Running;
                InvocationAction::StartCommand(start_message(&self.args))
            },
            (Phase::Running, InvocationEvent::CommandEnded(outcome)) => {
                self.phase = Phase::Draining(outcome);
                InvocationAction::AwaitSender
            },
            (Phase::Draining(outcome), InvocationEvent::SenderFinished) => {
                let status = handle_command_result(&self.args, outcome);
                self.phase = Phase::Done;
                InvocationAction::Finish(status)
            },
            _ => InvocationAction::Ignore,
        }
    }
}

proof fn lemma_phase_step(events: Seq<InvocationEvent>, n: int)
    requires
        0 <= n < events.len(),
    ensures
        phase_after(events.take(n + 1)) == next_phase(phase_after(events.take(n)), events[n]),
{
    assert(events.take(n + 1).drop_last() =~= events.take(n));
}

/// Whether, within the first `n` reports, the invocation began and then saw
/// the command end, each in the phase where it counts.
pub open spec fn began_then_ended(events: Seq<InvocationEvent>, n: int) -> bool {
    exists|k: int, j: int|
        0 <= k < j < n && #[trigger] events[k] is Begin && phase_after(events.take(k)) is Starting
            && #[trigger] events[j] is CommandEnded && phase_after(events.take(j)) is Running
}

/// Whether, within the first `n` reports, the invocation began.
pub open spec fn began(events: Seq<InvocationEvent>, n: int) -> bool {
    exists|k: int|
        0 <= k < n && #[trigger] events[k] is Begin && phase_after(events.take(k)) is Starting
}

proof fn lemma_history(events: Seq<InvocationEvent>, n: int)
    requires
        0 <= n <= events.len(),
    ensures
        phase_after(events.take(n)) is Running ==> began(events, n),
        phase_after(events.take(n)) is Draining ==> began_then_ended(events, n),
        phase_after(events.take(n)) is Done ==> began_then_ended(events, n),
    decreases n,
{
    if n == 0 {
        assert(events.take(0) =~= Seq::<InvocationEvent>::empty());
    } else {
        lemma_history(events, n - 1);
        lemma_phase_step(events, n - 1);
        let before = phase_after(events.take(n - 1));
        let e = events[n - 1];
        if before is Starting && e is Begin {
            assert(began(events, n)) by {
                assert(events[n - 1] is Begin);
            }
        } else if before is Running && e is CommandEnded {
            let k = choose|k: int|
                0 <= k < n - 1 && #[trigger] events[k] is Begin && phase_after(events.take(k)) is Starting;
            assert(events[k] is Begin && events[n - 1] is CommandEnded);
            assert(began_then_ended(events, n));
        } else {
            if before is Running {
                let k = choose|k: int|
                    0 <= k < n - 1 && #[trigger] events[k] is Begin && phase_after(events.take(k)) is Starting;
                assert(events[k] is Begin);
                assert(began(events, n));
            }
            if before is Draining || before is Done {
                let (k, j) = choose|k: int, j: int|
                    0 <= k < j < n - 1 && #[trigger] events[k] is Begin && phase_after(events.take(k)) is Starting
                        && #[trigger] events[j] is CommandEnded && phase_after(events.take(j)) is Running;
                assert(events[k] is Begin && events[j] is CommandEnded);
                assert(began_then_ended(events, n));
            }
        }
    }
}

proof fn lemma_done_stays(events: Seq<InvocationEvent>, i: int, m: int)
    requires
        0 <= i < m <= events.len(),
        phase_after(events.take(i + 1)) is Done,
    ensures
        phase_after(events.take(m)) is Done,
    decreases m - i,
{
    if m > i + 1 {
        lemma_done_stays(events, i, m - 1);
        lemma_phase_step(events, m - 1);
    }
}

/// Whatever the order of the reports, the final notification comes only when
/// the dispatcher has stopped, only after the command ended, which came after
/// the start notification, and it comes at most once.
pub proof fn lemma_final_after_drain(events: Seq<InvocationEvent>, i: int)
    requires
        0 <= i < events.len(),
        finishes(phase_after(events.take(i)), events[i]),
    ensures
        events[i] is SenderFinished,
        began_then_ended(events, i),
        forall|m: int| i < m < events.len() ==> !finishes(#[trigger] phase_after(events.take(m)), events[m]),
{
    lemma_history(events, i);
    lemma_phase_step(events, i);
    assert forall|m: int| i < m < events.len() implies !finishes(
        #[trigger] phase_after(events.take(m)),
        events[m],
    ) by {
        lemma_done_stays(events, i, m);
    }
}

} // verus!
