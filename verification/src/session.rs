//! The privileged session: authenticate, run the command, close the session,
//! and hand the command's fate on.

use vstd::prelude::*;
use vstd::string::StringExecFns;
use crate::auth::{
    auth_steps, authenticate, lemma_authentication_shape, AuthModule, AuthenticationHandle,
    DEFAULT_ATTEMPTS, PROGRAM_NAME,
};
use crate::journal::{
    closes_in, commands_in, ends_in, is_open_session, lemma_appended, lemma_count_split,
    restores_in, session_opened, Step, StepKind,
};
use crate::error::{exit_status_of, Error, ExitReason};

verus! {

/// How this process is to end.
#[derive(Clone, Copy, Debug, PartialEq, Eq, Structural)]
pub enum Termination {
    /// Exit with this status.
    Exit(i32),
    /// Send this signal to the process itself, so that observers see a death
    /// by signal and not a status.
    Raise(i32),
}

/// The end of this process that reenacts the end of the command.
pub open spec fn reenacted(reason: ExitReason) -> Termination {
    match reason {
        ExitReason::Code(code) => Termination::Exit(code),
        ExitReason::Signal(signal) => Termination::Raise(signal),
    }
}

/// Turns the command's end into this process's own: the same exit status, or
/// the same signal, sent to itself.
pub fn termination_for(reason: ExitReason) -> (termination: Termination)
    ensures
        termination == reenacted(reason),
{
    match reason {
        ExitReason::Code(code) => Termination::Exit(code),
        ExitReason::Signal(signal) => Termination::Raise(signal),
    }
}

/// The end of this process for the outcome of an invocation.
pub open spec fn ending_of(result: Result<ExitReason, Error>) -> Termination {
    match result {
        Ok(reason) => reenacted(reason),
        Err(error) => Termination::Exit(exit_status_of(error) as i32),
    }
}

/// Decides how the process ends: a command that ran is reenacted, a failure is
/// reported by its exit status.
pub fn ending(result: &Result<ExitReason, Error>) -> (termination: Termination)
    ensures
        termination == ending_of(*result),
{
    match result {
        Ok(reason) => termination_for(*reason),
        Err(error) => Termination::Exit(error.exit_status()),
    }
}

/// What stands between the program name and a message on the diagnostic
/// stream.
pub const DIAGNOSTIC_SEPARATOR: &'static str = ": ";

/// The line that reports `message` on the diagnostic stream: the program name,
/// a colon and a space, and the message.
pub fn diagnostic(message: &str) -> (line: String)
    ensures
        line@ == PROGRAM_NAME@ + DIAGNOSTIC_SEPARATOR@ + message@,
{
    String::from_str(PROGRAM_NAME).concat(DIAGNOSTIC_SEPARATOR).concat(message)
}

/// The operations that this crate needs from whatever runs the command.
///
/// Nothing is assumed about what an implementation returns.
pub trait CommandRunner {
    /// Runs the command to its end. While it runs, signal dispositions of this
    /// process may be changed.
    fn run_command(&mut self) -> Result<ExitReason, Error>;

    /// Puts the default signal dispositions back after a command has run.
    fn restore_signal_dispositions(&mut self);
}

/// Whether `steps` are the steps under an open session, ending in `result`:
/// the command is run, then the session is closed, whatever became of the
/// command and whether or not closing succeeds; and if the command ran to an
/// end, the signal dispositions are put back last. The result is the
/// command's.
pub open spec fn session_steps(steps: Seq<Step>, result: Result<ExitReason, Error>) -> bool {
    &&& steps.len() >= 2
    &&& steps[0] == Step::CommandRun { result }
    &&& steps[1] is SessionClosed
    &&& match result {
        Ok(_) => steps.len() == 3 && steps[2] is DispositionsRestored,
        Err(_) => steps.len() == 2,
    }
}

/// Whether `steps` are the steps of one invocation for `user`, ending in
/// `result`.
///
/// The steps begin with those of an authentication, as [`auth_steps`] says. If
/// it fails, its error is the result. If it succeeds, the steps of
/// [`session_steps`] follow. In either case the conversation is ended as the
/// last step.
pub open spec fn run_steps(
    user: Seq<char>,
    login: bool,
    steps: Seq<Step>,
    result: Result<ExitReason, Error>,
) -> bool {
    &&& steps.len() >= 1
    &&& steps.last() is Ended
    &&& exists|n: int, admitted: Result<(), Error>|
        {
            &&& 0 <= n < steps.len()
            &&& #[trigger] auth_steps(user, login, DEFAULT_ATTEMPTS as nat, steps.take(n), admitted)
            &&& match admitted {
                Err(e) => n + 1 == steps.len() && result == Err::<ExitReason, Error>(e),
                Ok(()) => session_steps(steps.subrange(n, steps.len() - 1), result),
            }
        }
}

/// Runs one invocation: authenticates `user`, opens the session, runs the
/// command, closes the session, puts the signal dispositions back and ends the
/// conversation.
///
/// The caller ends the process as [`ending`] says for the result.
pub fn run<M: AuthModule, C: CommandRunner>(
    handle: &mut AuthenticationHandle<M>,
    runner: &mut C,
    user: &str,
    login: bool,
) -> (result: Result<ExitReason, Error>)
    ensures
        final(handle).follows(*old(handle)),
        run_steps(user@, login, final(handle).since(*old(handle)), result),
{
    let ghost start = handle.journal();
    let admitted = authenticate(handle, user, login);
    let ghost first = handle.journal().skip(start.len() as int);
    proof {
        assert(handle.journal() =~= start + first);
    }
    if let Err(e) = admitted {
        handle.end();
        proof {
            let steps = first.push(Step::Ended);
            assert(handle.journal() =~= start + steps);
            lemma_appended(start, handle.journal(), steps);
            assert(steps.take(first.len() as int) =~= first);
        }
        return Err(e);
    }
    let outcome = handle.run_command(runner);
    let closed = handle.close_session();
    if outcome.is_ok() {
        handle.restore_signal_dispositions(runner);
    }
    handle.end();
    proof {
        let ran = Step::CommandRun { result: outcome };
        let shut = Step::SessionClosed { result: closed };
        let rest = if outcome is Ok {
            seq![ran, shut, Step::DispositionsRestored]
        } else {
            seq![ran, shut]
        };
        let steps = (first + rest).push(Step::Ended);
        assert(handle.journal() =~= start + steps);
        lemma_appended(start, handle.journal(), steps);
        assert(steps.take(first.len() as int) =~= first);
        assert(steps.subrange(first.len() as int, steps.len() - 1) =~= rest);
    }
    outcome
}

/// Under an open session the command is run once and the session closed once,
/// and the signal dispositions are put back once exactly if the command ran
/// to an end; no session is opened and the conversation is not ended.
proof fn lemma_session_counts(steps: Seq<Step>, result: Result<ExitReason, Error>)
    requires
        session_steps(steps, result),
    ensures
        commands_in(steps) == 1,
        closes_in(steps) == 1,
        restores_in(steps) == if result is Ok {
            1nat
        } else {
            0nat
        },
        ends_in(steps) == 0,
        !session_opened(steps),
{
    let after = steps.skip(1);
    let later = after.skip(1);
    assert(after[0] == steps[1]);
    assert(commands_in(steps) == commands_in(after) + 1);
    assert(closes_in(steps) == closes_in(after));
    assert(restores_in(steps) == restores_in(after));
    assert(ends_in(steps) == ends_in(after));
    assert(commands_in(after) == commands_in(later));
    assert(closes_in(after) == closes_in(later) + 1);
    assert(restores_in(after) == restores_in(later));
    assert(ends_in(after) == ends_in(later));
    if steps.len() == 3 {
        assert(later[0] == steps[2]);
        assert(later.skip(1).len() == 0);
        assert(commands_in(later.skip(1)) == 0);
        assert(closes_in(later.skip(1)) == 0);
        assert(restores_in(later.skip(1)) == 0);
        assert(ends_in(later.skip(1)) == 0);
    } else {
        assert(later.len() == 0);
    }
}

/// The session discipline: in every invocation, the command is run exactly if
/// a session was opened, and then once; the session is closed exactly as
/// often as the command is run, whatever became of the command; the signal
/// dispositions are put back exactly if the command ran to an end; a
/// command's outcome is the result only under a session that was opened; and
/// the conversation is ended exactly once, as the last step.
pub proof fn lemma_session_discipline(
    user: Seq<char>,
    login: bool,
    steps: Seq<Step>,
    result: Result<ExitReason, Error>,
)
    requires
        run_steps(user, login, steps, result),
    ensures
        commands_in(steps) == if session_opened(steps) {
            1nat
        } else {
            0nat
        },
        closes_in(steps) == commands_in(steps),
        restores_in(steps) == if result is Ok {
            1nat
        } else {
            0nat
        },
        result is Ok ==> session_opened(steps),
        ends_in(steps) == 1,
        steps.last() is Ended,
{
    let (n, admitted) = choose|n: int, admitted: Result<(), Error>|
        {
            &&& 0 <= n < steps.len()
            &&& #[trigger] auth_steps(user, login, DEFAULT_ATTEMPTS as nat, steps.take(n), admitted)
            &&& match admitted {
                Err(e) => n + 1 == steps.len() && result == Err::<ExitReason, Error>(e),
                Ok(()) => session_steps(steps.subrange(n, steps.len() - 1), result),
            }
        };
    let end = steps.len() - 1;
    let body = steps.take(end);
    let first = steps.take(n);
    let rest = steps.subrange(n, end);
    let last = steps.skip(end);
    assert(body.take(n) =~= first);
    assert(body.skip(n) =~= rest);
    assert(last[0] == steps.last());
    assert(last.skip(1).len() == 0);
    assert(commands_in(last.skip(1)) == 0);
    assert(closes_in(last.skip(1)) == 0);
    assert(restores_in(last.skip(1)) == 0);
    assert(ends_in(last.skip(1)) == 0);
    assert(commands_in(last) == 0);
    assert(closes_in(last) == 0);
    assert(restores_in(last) == 0);
    assert(ends_in(last) == 1);
    lemma_authentication_shape(user, login, DEFAULT_ATTEMPTS as nat, first, admitted);
    lemma_count_split(StepKind::CommandRun, steps, end);
    lemma_count_split(StepKind::SessionClosed, steps, end);
    lemma_count_split(StepKind::DispositionsRestored, steps, end);
    lemma_count_split(StepKind::Ended, steps, end);
    lemma_count_split(StepKind::CommandRun, body, n);
    lemma_count_split(StepKind::SessionClosed, body, n);
    lemma_count_split(StepKind::DispositionsRestored, body, n);
    lemma_count_split(StepKind::Ended, body, n);
    if admitted is Ok {
        lemma_session_counts(rest, result);
        assert(first[n - 1] == steps[n - 1]);
    } else {
        assert(rest.len() == 0);
    }
    if session_opened(steps) {
        let i = choose|i: int| 0 <= i < steps.len() && is_open_session(#[trigger] steps[i]);
        if i < n {
            assert(first[i] == steps[i]);
        } else if i < end {
            assert(rest[i - n] == steps[i]);
        }
    }
}

} // verus!
