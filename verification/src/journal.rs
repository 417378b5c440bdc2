//! The journal of an invocation: every step taken, in order.
//!
//! Journals exist only in proofs. The contracts of the functions that drive
//! an outside collaborator say which steps they add to a journal.

use vstd::prelude::*;
use crate::auth::Settings;
use crate::error::{Error, ExitReason, ModuleError};

verus! {

/// One step of an invocation, with what it was given and what came back.
#[allow(inconsistent_fields)]
pub enum Step {
    /// The conversation was opened with `settings`.
    Started { settings: Settings, result: Result<(), ModuleError> },
    /// The module was told the identity `user`.
    UserSet { user: Seq<char>, result: Result<(), ModuleError> },
    /// One authentication attempt was made.
    Attempted { result: Result<(), ModuleError> },
    /// The user was shown `message`.
    Warned { message: Seq<char> },
    /// The account was validated.
    Validated { result: Result<(), ModuleError> },
    /// The session was opened.
    SessionOpened { result: Result<(), ModuleError> },
    /// The command was run.
    CommandRun { result: Result<ExitReason, Error> },
    /// The session was closed.
    SessionClosed { result: Result<(), ModuleError> },
    /// The signal dispositions were put back.
    DispositionsRestored,
    /// The conversation was ended.
    Ended,
}

/// The kinds of step.
#[derive(Clone, Copy, Debug, PartialEq, Eq, Structural)]
pub enum StepKind {
    Started,
    UserSet,
    Attempted,
    Warned,
    Validated,
    SessionOpened,
    CommandRun,
    SessionClosed,
    DispositionsRestored,
    Ended,
}

/// The kind of a step.
pub open spec fn kind_of(step: Step) -> StepKind {
    match step {
        Step::Started { .. } => StepKind::Started,
        Step::UserSet { .. } => StepKind::UserSet,
        Step::Attempted { .. } => StepKind::Attempted,
        Step::Warned { .. } => StepKind::Warned,
        Step::Validated { .. } => StepKind::Validated,
        Step::SessionOpened { .. } => StepKind::SessionOpened,
        Step::CommandRun { .. } => StepKind::CommandRun,
        Step::SessionClosed { .. } => StepKind::SessionClosed,
        Step::DispositionsRestored => StepKind::DispositionsRestored,
        Step::Ended => StepKind::Ended,
    }
}

/// The number of steps of one kind among `steps`.
pub open spec fn count_of(kind: StepKind, steps: Seq<Step>) -> nat
    decreases steps.len(),
{
    if steps.len() == 0 {
        0
    } else {
        count_of(kind, steps.skip(1)) + if kind_of(steps[0]) == kind {
            1nat
        } else {
            0nat
        }
    }
}

/// The number of authentication attempts among `steps`.
pub open spec fn attempts_in(steps: Seq<Step>) -> nat {
    count_of(StepKind::Attempted, steps)
}

/// The number of warnings among `steps`.
pub open spec fn warnings_in(steps: Seq<Step>) -> nat {
    count_of(StepKind::Warned, steps)
}

/// The number of times the command was run in `steps`.
pub open spec fn commands_in(steps: Seq<Step>) -> nat {
    count_of(StepKind::CommandRun, steps)
}

/// The number of times the session was closed in `steps`.
pub open spec fn closes_in(steps: Seq<Step>) -> nat {
    count_of(StepKind::SessionClosed, steps)
}

/// The number of times the signal dispositions were put back in `steps`.
pub open spec fn restores_in(steps: Seq<Step>) -> nat {
    count_of(StepKind::DispositionsRestored, steps)
}

/// The number of times the conversation was ended in `steps`.
pub open spec fn ends_in(steps: Seq<Step>) -> nat {
    count_of(StepKind::Ended, steps)
}

/// Whether `step` is the opening of a session that succeeded.
pub open spec fn is_open_session(step: Step) -> bool {
    step matches Step::SessionOpened { result: Ok(_) }
}

/// Whether a session was opened in `steps`.
pub open spec fn session_opened(steps: Seq<Step>) -> bool {
    exists|i: int| 0 <= i < steps.len() && is_open_session(#[trigger] steps[i])
}

/// Counting is additive: the steps of one kind among `steps` are those among
/// its first `n` steps and those among the rest.
pub proof fn lemma_count_split(kind: StepKind, steps: Seq<Step>, n: int)
    requires
        0 <= n <= steps.len(),
    ensures
        count_of(kind, steps) == count_of(kind, steps.take(n)) + count_of(kind, steps.skip(n)),
    decreases n,
{
    if n == 0 {
        assert(steps.skip(0) =~= steps);
        assert(steps.take(0).len() == 0);
    } else {
        let head = steps.take(n);
        assert(head[0] == steps[0]);
        assert(head.skip(1) =~= steps.skip(1).take(n - 1));
        assert(steps.skip(1).skip(n - 1) =~= steps.skip(n));
        lemma_count_split(kind, steps.skip(1), n - 1);
    }
}

/// A sequence that has grown by `steps` keeps what it held, and `steps` are
/// what came after.
pub proof fn lemma_appended<T>(before: Seq<T>, after: Seq<T>, steps: Seq<T>)
    requires
        after == before + steps,
    ensures
        before.len() <= after.len(),
        after.take(before.len() as int) == before,
        after.skip(before.len() as int) == steps,
{
    assert(after.take(before.len() as int) =~= before);
    assert(after.skip(before.len() as int) =~= steps);
}

} // verus!
