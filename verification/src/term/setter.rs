//! The foreground-aware attribute setter, as a protocol.
//!
//! A terminal refuses an attribute change from a process outside its
//! foreground process group by sending a stop signal, which interrupts the
//! system call. The setter therefore runs under a handler that does nothing
//! but record that signal, and tells the two kinds of interruption apart by
//! that record. The system calls themselves are made by the caller; this
//! module decides what to do next.

use vstd::prelude::*;

verus! {

/// Why a terminal operation failed.
#[derive(Clone, Copy, Debug, PartialEq, Eq, Structural)]
pub enum TermError {
    /// The terminal rejected the change because the process is not in its
    /// foreground process group.
    NotForeground,
    /// Any other failure, by its OS error code.
    Io(i32),
}

/// When an attribute change takes effect.
#[derive(Clone, Copy, Debug, PartialEq, Eq, Structural)]
pub enum SetMode {
    /// After the queued output has been written.
    Drain,
    /// After the queued output has been written, discarding unread input.
    Flush,
}

/// How one attribute-change system call ended.
#[derive(Clone, Copy, Debug, PartialEq, Eq, Structural)]
pub enum Attempt {
    /// The change was made.
    Applied,
    /// A signal interrupted the call.
    Interrupted,
    /// The call failed with this OS error code.
    Failed(i32),
}

/// One attempt together with the record of the stop signal after it.
#[derive(Clone, Copy, Debug, PartialEq, Eq, Structural)]
pub struct Observation {
    pub attempt: Attempt,
    pub stop_signal_seen: bool,
}

/// What follows from one attempt.
#[derive(Clone, Copy, Debug, PartialEq, Eq, Structural)]
pub enum Settlement {
    /// An unrelated signal interrupted the call: issue it again.
    Retry,
    /// The change was made.
    Success,
    /// The change failed for good.
    Failure(TermError),
}

/// The settlement of `seen`: an interruption is retried unless the stop signal
/// caused it, which is a failure of its own kind; any other failure is final.
pub open spec fn settlement_of(seen: Observation) -> Settlement {
    match seen.attempt {
        Attempt::Applied => Settlement::Success,
        Attempt::Interrupted => if seen.stop_signal_seen {
            Settlement::Failure(TermError::NotForeground)
        } else {
            Settlement::Retry
        },
        Attempt::Failed(code) => Settlement::Failure(TermError::Io(code)),
    }
}

/// Decides what follows from one attempt.
pub fn settle(seen: Observation) -> (settlement: Settlement)
    ensures
        settlement == settlement_of(seen),
{
    match seen.attempt {
        Attempt::Applied => Settlement::Success,
        Attempt::Interrupted => {
            if seen.stop_signal_seen {
                Settlement::Failure(TermError::NotForeground)
            } else {
                Settlement::Retry
            }
        },
        Attempt::Failed(code) => Settlement::Failure(TermError::Io(code)),
    }
}

/// Where a run of the setter stands.
#[derive(Clone, Copy, Debug, PartialEq, Eq, Structural)]
pub enum Phase {
    /// The recording handler is to be installed.
    Install,
    /// The record is to be cleared.
    Clear,
    /// The system call is to be issued.
    Apply,
    /// The previous handler is to be put back; the change succeeded.
    RestoreAfterSuccess,
    /// The previous handler is to be put back; the change failed.
    RestoreAfterFailure(TermError),
    /// The run is over with success.
    Succeeded,
    /// The run is over with a failure.
    Failed(TermError),
}

/// What the caller is to do in a phase.
#[derive(Clone, Copy, Debug, PartialEq, Eq, Structural)]
pub enum Action {
    /// Install the handler that records the stop signal, keeping the previous one.
    InstallHandler,
    /// Clear the record of the stop signal.
    ClearRecord,
    /// Issue the attribute-change system call.
    IssueChange,
    /// Put the previous handler back.
    RestoreHandler,
    /// Return success.
    ReturnSuccess,
    /// Return this failure.
    ReturnFailure(TermError),
}

/// What the caller reports back.
#[derive(Clone, Copy, Debug, PartialEq, Eq, Structural)]
pub enum Event {
    /// The handler was installed, the record cleared, or the handler put back.
    Done,
    /// The system call returned.
    Attempted(Observation),
}

/// The action of a phase.
pub open spec fn action_of(phase: Phase) -> Action {
    match phase {
        Phase::Install => Action::InstallHandler,
        Phase::Clear => Action::ClearRecord,
        Phase::Apply => Action::IssueChange,
        Phase::RestoreAfterSuccess => Action::RestoreHandler,
        Phase::RestoreAfterFailure(_) => Action::RestoreHandler,
        Phase::Succeeded => Action::ReturnSuccess,
        Phase::Failed(e) => Action::ReturnFailure(e),
    }
}

/// The phase that follows `phase` on `event`. An event that does not answer
/// the phase's action changes nothing.
pub open spec fn phase_after(phase: Phase, event: Event) -> Phase {
    match (phase, event) {
        (Phase::Install, Event::Done) => Phase::Clear,
        (Phase::Clear, Event::Done) => Phase::Apply,
        (Phase::Apply, Event::Attempted(seen)) => match settlement_of(seen) {
            Settlement::Retry => Phase::Apply,
            Settlement::Success => Phase::RestoreAfterSuccess,
            Settlement::Failure(e) => Phase::RestoreAfterFailure(e),
        },
        (Phase::RestoreAfterSuccess, Event::Done) => Phase::Succeeded,
        (Phase::RestoreAfterFailure(e), Event::Done) => Phase::Failed(e),
        _ => phase,
    }
}

/// How far a phase is along the protocol.
pub open spec fn progress(phase: Phase) -> nat {
    match phase {
        Phase::Install => 0,
        Phase::Clear => 1,
        Phase::Apply => 2,
        Phase::RestoreAfterSuccess => 3,
        Phase::RestoreAfterFailure(_) => 3,
        Phase::Succeeded => 4,
        Phase::Failed(_) => 4,
    }
}

/// One run of the setter.
pub struct SignalSafeSetter {
    phase: Phase,
}

impl SignalSafeSetter {
    /// The phase that the run is in.
    pub closed spec fn phase(self) -> Phase {
        self.phase
    }

    /// A run that has not begun.
    pub fn new() -> (setter: Self)
        ensures
            setter.phase() == Phase::Install,
    {
        SignalSafeSetter { phase: Phase::Install }
    }

    /// What the caller is to do now.
    pub fn action(&self) -> (action: Action)
        ensures
            action == action_of(self.phase()),
    {
        match self.phase {
            Phase::Install => Action::InstallHandler,
            Phase::Clear => Action::ClearRecord,
            Phase::Apply => Action::IssueChange,
            Phase::RestoreAfterSuccess => Action::RestoreHandler,
            Phase::RestoreAfterFailure(_) => Action::RestoreHandler,
            Phase::Succeeded => Action::ReturnSuccess,
            Phase::Failed(e) => Action::ReturnFailure(e),
        }
    }

    /// Takes in what the caller reports and returns what to do next.
    pub fn advance(&mut self, event: Event) -> (action: Action)
        ensures
            final(self).phase() == phase_after(old(self).phase(), event),
            action == action_of(final(self).phase()),
    {
        let next = match (self.phase, event) {
            (Phase::Install, Event::Done) => Phase::Clear,
            (Phase::Clear, Event::Done) => Phase::Apply,
            (Phase::Apply, Event::Attempted(seen)) => match settle(seen) {
                Settlement::Retry => Phase::Apply,
                Settlement::Success => Phase::RestoreAfterSuccess,
                Settlement::Failure(e) => Phase::RestoreAfterFailure(e),
            },
            (Phase::RestoreAfterSuccess, Event::Done) => Phase::Succeeded,
            (Phase::RestoreAfterFailure(e), Event::Done) => Phase::Failed(e),
            (phase, _) => phase,
        };
        self.phase = next;
        self.action()
    }
}

/// The phase reached from `phase` by `events`, in order.
pub open spec fn phase_reached(phase: Phase, events: Seq<Event>) -> Phase
    decreases events.len(),
{
    if events.len() == 0 {
        phase
    } else {
        phase_after(phase_reached(phase, events.drop_last()), events.last())
    }
}

/// The events of a run in which the system call is issued once for each of
/// `seen`, up to the moment the last of these calls has returned.
pub open spec fn events_of(seen: Seq<Observation>) -> Seq<Event> {
    seq![Event::Done, Event::Done] + Seq::new(seen.len(), |i: int| Event::Attempted(seen[i]))
}

/// Whether every attempt in `seen` was interrupted by a signal other than the
/// stop signal.
pub open spec fn all_unrelated(seen: Seq<Observation>) -> bool {
    forall|i: int| 0 <= i < seen.len() ==> settlement_of(#[trigger] seen[i]) == Settlement::Retry
}

/// The protocol has one order: each step moves at most one phase ahead and
/// never back, so a result is returned only after the handler was put back,
/// which happens only after the system call was issued under the installed
/// handler and the cleared record.
pub proof fn lemma_phases_in_order(phase: Phase, event: Event)
    ensures
        progress(phase) <= progress(phase_after(phase, event)) <= progress(phase) + 1,
        action_of(phase_after(phase, event)) is ReturnSuccess ==> phase
            is RestoreAfterSuccess || phase is Succeeded,
        action_of(phase_after(phase, event)) is ReturnFailure ==> phase
            is RestoreAfterFailure || phase is Failed,
        phase_after(phase, event) matches Phase::Failed(e) ==> phase
            == Phase::RestoreAfterFailure(e) || phase == Phase::Failed(e),
        action_of(phase_after(phase, event)) is RestoreHandler ==> phase is Apply || action_of(
            phase,
        ) is RestoreHandler,
{
}

/// Unrelated interruptions are retried: after any number of attempts that
/// were interrupted by a signal other than the stop signal, the setter issues
/// the system call again.
pub proof fn lemma_unrelated_interruptions_retry(seen: Seq<Observation>)
    requires
        all_unrelated(seen),
    ensures
        phase_reached(Phase::Install, events_of(seen)) == Phase::Apply,
    decreases seen.len(),
{
    let events = events_of(seen);
    if seen.len() == 0 {
        assert(events =~= seq![Event::Done, Event::Done]);
        let one = seq![Event::Done];
        assert(events.drop_last() =~= one);
        assert(one.drop_last() =~= Seq::<Event>::empty());
        assert(phase_reached(Phase::Install, one.drop_last()) == Phase::Install);
        assert(phase_reached(Phase::Install, one) == Phase::Clear);
    } else {
        let before = seen.drop_last();
        assert(all_unrelated(before)) by {
            assert forall|i: int| 0 <= i < before.len() implies settlement_of(
                #[trigger] before[i],
            ) == Settlement::Retry by {
                assert(before[i] == seen[i]);
            }
        }
        lemma_unrelated_interruptions_retry(before);
        assert(events.drop_last() =~= events_of(before));
        assert(events.last() == Event::Attempted(seen.last()));
        assert(settlement_of(seen[seen.len() - 1]) == Settlement::Retry);
    }
}

/// Retried to completion, and rejected distinctly: after any number of
/// unrelated interruptions, the attempt `last` decides the run once the
/// handler is put back. A change that was applied gives success. An
/// interruption by the stop signal gives `NotForeground`, which no failed
/// system call gives: that gives `Io` with its code.
pub proof fn lemma_decided_by_first_settled(seen: Seq<Observation>, last: Observation)
    requires
        all_unrelated(seen),
        settlement_of(last) != Settlement::Retry,
    ensures
        ({
            let end = phase_reached(
                Phase::Install,
                events_of(seen.push(last)).push(Event::Done),
            );
            &&& last.attempt is Applied ==> end == Phase::Succeeded
            &&& last.attempt is Interrupted ==> end == Phase::Failed(TermError::NotForeground)
            &&& last.attempt matches Attempt::Failed(code) ==> end == Phase::Failed(
                TermError::Io(code),
            )
            &&& end != Phase::Failed(TermError::NotForeground) ==> !(last.attempt is Interrupted)
        }),
{
    lemma_unrelated_interruptions_retry(seen);
    let tried = events_of(seen.push(last));
    assert(tried.drop_last() =~= events_of(seen));
    assert(tried.last() == Event::Attempted(last));
    let applied = phase_reached(Phase::Install, tried);
    assert(applied == phase_after(Phase::Apply, Event::Attempted(last)));
    let all = tried.push(Event::Done);
    assert(all.drop_last() =~= tried);
    assert(all.last() == Event::Done);
    assert(phase_reached(Phase::Install, all) == phase_after(applied, Event::Done));
}

} // verus!
