//! Graceful termination of an anchor: one stop signal, then a bounded
//! number of non-blocking checks for its exit, one second apart.
//!
//! The protocol is a pure transition from state and event to next state and
//! action; whoever owns the process performs each action and reports back.
use vstd::prelude::*;

verus! {

/// Checks for exit before the protocol gives up.
pub const MAX_POLLS: u32 = 5;

/// How a termination ended.
#[derive(Clone, Copy, Debug, PartialEq, Eq, Structural)]
pub enum TerminationResult {
    /// The stop signal could not be sent; there is nothing to wait for.
    SignalFailed,
    /// The anchor was seen to have exited.
    Exited,
    /// The anchor had not exited after every check; it is not killed.
    GaveUp,
}

/// What the owner of the anchor is asked to do next.
#[derive(Clone, Copy, Debug, PartialEq, Eq, Structural)]
pub enum TerminationAction {
    /// Send the graceful stop signal; answer with `Signalled`.
    Signal,
    /// Check without blocking whether the anchor has exited; answer with `Polled`.
    Poll,
    /// Wait one second; answer with `Slept`.
    Sleep,
    /// The protocol is over.
    Stop(TerminationResult),
}

/// What the owner of the anchor reports back.
#[derive(Clone, Copy, Debug, PartialEq, Eq, Structural)]
pub enum TerminationEvent {
    Signalled(bool),
    Polled(bool),
    Slept,
}

/// Where the protocol stands.
#[derive(Clone, Copy, Debug, PartialEq, Eq, Structural)]
pub enum TerminationPhase {
    Signalling,
    Polling,
    Sleeping,
    Finished(TerminationResult),
}

/// State of one termination.
#[derive(Clone, Copy, Debug, PartialEq, Eq, Structural)]
pub struct Termination {
    pub phase: TerminationPhase,
    pub polls: u32,
}

/// The action a phase waits on; it is asked again when an event does not answer it.
pub open spec fn pending(phase: TerminationPhase) -> TerminationAction {
    match phase {
        TerminationPhase::Signalling => TerminationAction::Signal,
        TerminationPhase::Polling => TerminationAction::Poll,
        TerminationPhase::Sleeping => TerminationAction::Sleep,
        TerminationPhase::Finished(r) => TerminationAction::Stop(r),
    }
}

/// The protocol's transition.
pub open spec fn next_termination(t: Termination, e: TerminationEvent) -> (Termination, TerminationAction) {
    match (t.phase, e) {
        (TerminationPhase::Signalling, TerminationEvent::Signalled(sent)) => if sent {
            (Termination { phase: TerminationPhase::Polling, polls: t.polls }, TerminationAction::Poll)
        } else {
            (
                Termination { phase: TerminationPhase::Finished(TerminationResult::SignalFailed), polls: t.polls },
                TerminationAction::Stop(TerminationResult::SignalFailed),
            )
        },
        (TerminationPhase::Polling, TerminationEvent::Polled(exited)) => if exited {
            (
                Termination { phase: TerminationPhase::Finished(TerminationResult::Exited), polls: (t.polls + 1) as u32 },
                TerminationAction::Stop(TerminationResult::Exited),
            )
        } else {
            (Termination { phase: TerminationPhase::Sleeping, polls: (t.polls + 1) as u32 }, TerminationAction::Sleep)
        },
        (TerminationPhase::Sleeping, TerminationEvent::Slept) => if t.polls < MAX_POLLS {
            (Termination { phase: TerminationPhase::Polling, polls: t.polls }, TerminationAction::Poll)
        } else {
            (
                Termination { phase: TerminationPhase::Finished(TerminationResult::GaveUp), polls: t.polls },
                TerminationAction::Stop(TerminationResult::GaveUp),
            )
        },
        _ => (t, pending(t.phase)),
    }
}

/// A termination that has not sent its signal yet.
pub open spec fn initial_termination() -> Termination {
    Termination { phase: TerminationPhase::Signalling, polls: 0 }
}

/// The state after answering a run of actions with `es`, one event each.
pub open spec fn after_events(t: Termination, es: Seq<TerminationEvent>) -> Termination
    decreases es.len(),
{
    if es.len() == 0 {
        t
    } else {
        after_events(next_termination(t, es[0]).0, es.drop_first())
    }
}

/// One transition keeps the poll budget.
pub proof fn lemma_step_keeps_budget(t: Termination, e: TerminationEvent)
    requires
        t.wf(),
    ensures
        next_termination(t, e).0.wf(),
        next_termination(t, e).0.polls >= t.polls,
{
}

/// Whatever is reported, a termination never checks for exit more than
/// `MAX_POLLS` times.
pub proof fn lemma_poll_budget(t: Termination, es: Seq<TerminationEvent>)
    requires
        t.wf(),
    ensures
        after_events(t, es).wf(),
        after_events(t, es).polls <= MAX_POLLS,
    decreases es.len(),
{
    if es.len() > 0 {
        lemma_step_keeps_budget(t, es[0]);
        lemma_poll_budget(next_termination(t, es[0]).0, es.drop_first());
    }
}

/// Terminating an anchor that has already exited ends at once and never
/// fails: when the stop signal cannot be delivered the protocol stops
/// without waiting, and when it is delivered the first check sees the exit
/// and the protocol stops with `Exited` after that single check.
pub proof fn lemma_exited_anchor_stops_at_once()
    ensures
        next_termination(initial_termination(), TerminationEvent::Signalled(false)).1
            == TerminationAction::Stop(TerminationResult::SignalFailed),
        next_termination(initial_termination(), TerminationEvent::Signalled(false)).0.polls == 0,
        next_termination(initial_termination(), TerminationEvent::Signalled(true)).1 == TerminationAction::Poll,
        next_termination(
            next_termination(initial_termination(), TerminationEvent::Signalled(true)).0,
            TerminationEvent::Polled(true),
        ) == (
            Termination { phase: TerminationPhase::Finished(TerminationResult::Exited), polls: 1 },
            TerminationAction::Stop(TerminationResult::Exited),
        ),
{
}

/// A finished termination stays finished with the same result, whatever is reported.
pub proof fn lemma_finished_is_final(t: Termination, e: TerminationEvent)
    requires
        t.phase is Finished,
    ensures
        next_termination(t, e) == (t, pending(t.phase)),
{
}

impl Termination {
    /// The checks done never exceed the budget, and a check is only asked for
    /// while some of the budget is left.
    pub open spec fn wf(&self) -> bool {
        &&& self.polls <= MAX_POLLS
        &&& self.phase is Polling ==> self.polls < MAX_POLLS
        &&& self.phase is Signalling ==> self.polls == 0
    }

    /// A termination that has not sent its signal yet; its first action is `Signal`.
    pub fn new() -> (r: Termination)
        ensures
            r.wf(),
            r == initial_termination(),
            pending(r.phase) == TerminationAction::Signal,
    {
        Termination { phase: TerminationPhase::Signalling, polls: 0 }
    }

    /// Takes the answer to the last action and gives the next one.
    pub fn step(&mut self, e: TerminationEvent) -> (r: TerminationAction)
        requires
            old(self).wf(),
        ensures
            (*final(self), r) == next_termination(*old(self), e),
            final(self).wf(),
            r == TerminationAction::Poll ==> final(self).polls < MAX_POLLS,
    {
        match (self.phase, e) {
            (TerminationPhase::Signalling, TerminationEvent::Signalled(sent)) => {
                if sent {
                    self.phase = TerminationPhase::Polling;
                    TerminationAction::Poll
                } else {
                    self.phase = TerminationPhase::Finished(TerminationResult::SignalFailed);
                    TerminationAction::Stop(TerminationResult::SignalFailed)
                }
            },
            (TerminationPhase::Polling, TerminationEvent::Polled(exited)) => {
                self.polls = self.polls + 1;
                if exited {
                    self.phase = TerminationPhase::Finished(TerminationResult::Exited);
                    TerminationAction::Stop(TerminationResult::Exited)
                } else {
                    self.phase = TerminationPhase::Sleeping;
                    TerminationAction::Sleep
                }
            },
            (TerminationPhase::Sleeping, TerminationEvent::Slept) => {
                if self.polls < MAX_POLLS {
                    self.phase = TerminationPhase::Polling;
                    TerminationAction::Poll
                } else {
                    self.phase = TerminationPhase::Finished(TerminationResult::GaveUp);
                    TerminationAction::Stop(TerminationResult::GaveUp)
                }
            },
            _ => match self.phase {
                TerminationPhase::Signalling => TerminationAction::Signal,
                TerminationPhase::Polling => TerminationAction::Poll,
                TerminationPhase::Sleeping => TerminationAction::Sleep,
                TerminationPhase::Finished(r) => TerminationAction::Stop(r),
            },
        }
    }

    /// Whether the protocol is over.
    pub fn is_finished(&self) -> (r: bool)
        ensures
            r == (self.phase is Finished),
    {
        match self.phase {
            TerminationPhase::Finished(_) => true,
            _ => false,
        }
    }
}

} // verus!
