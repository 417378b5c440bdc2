use su_core::auth::{AuthModule, AuthenticationHandle, ConversationSettings};
use su_core::error::{Error, ExitReason, ModuleError};
use su_core::session::{diagnostic, ending, run, termination_for, CommandRunner, Termination};

/// A module that accepts after a number of wrong credentials and records the
/// order of what it was asked.
#[derive(Debug, Default)]
struct Gate {
    wrong: usize,
    open_fails: bool,
    close_fails: bool,
    log: Vec<&'static str>,
}

impl AuthModule for Gate {
    fn start(&mut self, _settings: &ConversationSettings) -> Result<(), ModuleError> {
        self.log.push("start");
        Ok(())
    }

    fn set_user(&mut self, _user: &str) -> Result<(), ModuleError> {
        self.log.push("set_user");
        Ok(())
    }

    fn authenticate(&mut self) -> Result<(), ModuleError> {
        self.log.push("authenticate");
        if self.wrong > 0 {
            self.wrong -= 1;
            Err(ModuleError::CredentialMismatch)
        } else {
            Ok(())
        }
    }

    fn validate_account_or_change_auth_token(&mut self) -> Result<(), ModuleError> {
        self.log.push("validate");
        Ok(())
    }

    fn open_session(&mut self) -> Result<(), ModuleError> {
        self.log.push("open_session");
        if self.open_fails {
            Err(ModuleError::Other(14))
        } else {
            Ok(())
        }
    }

    fn close_session(&mut self) -> Result<(), ModuleError> {
        self.log.push("close_session");
        if self.close_fails {
            Err(ModuleError::Other(15))
        } else {
            Ok(())
        }
    }

    fn warn(&mut self, _message: &str) {
        self.log.push("warn");
    }

    fn end(&mut self) {
        self.log.push("end");
    }
}

/// A runner that returns a fixed outcome and counts its calls.
#[derive(Debug)]
struct Fixed {
    outcome: Result<ExitReason, Error>,
    runs: u32,
    restores: u32,
}

fn fixed(outcome: Result<ExitReason, Error>) -> Fixed {
    Fixed { outcome, runs: 0, restores: 0 }
}

impl CommandRunner for Fixed {
    fn run_command(&mut self) -> Result<ExitReason, Error> {
        self.runs += 1;
        self.outcome.clone()
    }

    fn restore_signal_dispositions(&mut self) {
        self.restores += 1;
    }
}

fn closes(module: &Gate) -> usize {
    module.log.iter().filter(|c| **c == "close_session").count()
}

#[test]
fn exit_status_of_the_command_becomes_our_own() {
    let mut handle = AuthenticationHandle::new(Gate::default());
    let mut runner = fixed(Ok(ExitReason::Code(42)));
    let result = run(&mut handle, &mut runner, "root", false);
    assert_eq!(result, Ok(ExitReason::Code(42)));
    assert_eq!(ending(&result), Termination::Exit(42));
    assert_eq!(runner.runs, 1);
    assert_eq!(runner.restores, 1);
    assert_eq!(closes(handle.module()), 1);
}

#[test]
fn command_killed_by_signal_is_reenacted() {
    let mut handle = AuthenticationHandle::new(Gate::default());
    let mut runner = fixed(Ok(ExitReason::Signal(9)));
    let result = run(&mut handle, &mut runner, "root", false);
    assert_eq!(result, Ok(ExitReason::Signal(9)));
    assert_eq!(ending(&result), Termination::Raise(9));
    assert_eq!(termination_for(ExitReason::Signal(9)), Termination::Raise(9));
    assert_ne!(ending(&result), Termination::Exit(9));
}

#[test]
fn unresolvable_command_exits_with_127() {
    let mut handle = AuthenticationHandle::new(Gate::default());
    let mut runner = fixed(Err(Error::CommandNotFound("frobnicate".to_string())));
    let result = run(&mut handle, &mut runner, "root", false);
    assert_eq!(result, Err(Error::CommandNotFound("frobnicate".to_string())));
    assert_eq!(ending(&result), Termination::Exit(127));
}

#[test]
fn command_that_cannot_be_invoked_exits_with_126() {
    let mut handle = AuthenticationHandle::new(Gate::default());
    let mut runner = fixed(Err(Error::InvalidCommand("/etc/passwd".to_string())));
    let result = run(&mut handle, &mut runner, "root", false);
    assert_eq!(result, Err(Error::InvalidCommand("/etc/passwd".to_string())));
    assert_eq!(ending(&result), Termination::Exit(126));
}

#[test]
fn other_failures_exit_with_one() {
    assert_eq!(ending(&Err(Error::AuthenticationExhausted(3))), Termination::Exit(1));
    assert_eq!(ending(&Err(Error::Execution(5))), Termination::Exit(1));
    assert_eq!(ending(&Err(Error::SessionOpenFailed(ModuleError::Other(1)))), Termination::Exit(1));
    assert_eq!(ending(&Ok(ExitReason::Code(0))), Termination::Exit(0));
    assert_eq!(termination_for(ExitReason::Code(-1)), Termination::Exit(-1));
}

#[test]
fn steps_run_in_order() {
    let mut handle = AuthenticationHandle::new(Gate::default());
    let mut runner = fixed(Ok(ExitReason::Code(0)));
    assert_eq!(run(&mut handle, &mut runner, "root", true), Ok(ExitReason::Code(0)));
    assert_eq!(
        handle.module().log,
        vec![
            "start",
            "set_user",
            "authenticate",
            "validate",
            "open_session",
            "close_session",
            "end",
        ]
    );
}

#[test]
fn conversation_is_ended_once_on_every_path() {
    let ends = |module: &Gate| module.log.iter().filter(|c| **c == "end").count();
    let outcomes = [
        Ok(ExitReason::Code(0)),
        Ok(ExitReason::Signal(15)),
        Err(Error::CommandNotFound("frobnicate".to_string())),
        Err(Error::Execution(12)),
    ];
    for outcome in &outcomes {
        for wrong in 0..5 {
            for open_fails in [false, true] {
                let gate = Gate { wrong, open_fails, ..Gate::default() };
                let mut handle = AuthenticationHandle::new(gate);
                let mut runner = fixed(outcome.clone());
                let result = run(&mut handle, &mut runner, "root", false);
                let module = handle.into_module();
                assert_eq!(ends(&module), 1);
                assert_eq!(module.log.last(), Some(&"end"));
                let opened = wrong < 3 && !open_fails;
                assert_eq!(closes(&module), usize::from(opened));
                assert_eq!(runner.runs, u32::from(opened));
                assert_eq!(runner.restores, u32::from(opened && outcome.is_ok()));
                if opened {
                    assert_eq!(&result, outcome);
                } else {
                    assert!(result.is_err());
                    assert_ne!(&result, outcome);
                }
            }
        }
    }
}

#[test]
fn session_is_closed_once_even_if_the_command_fails() {
    let mut handle = AuthenticationHandle::new(Gate::default());
    let mut runner = fixed(Err(Error::Execution(2)));
    assert_eq!(run(&mut handle, &mut runner, "root", false), Err(Error::Execution(2)));
    assert_eq!(closes(handle.module()), 1);
    assert_eq!(runner.restores, 0);
}

#[test]
fn failure_to_close_the_session_is_ignored() {
    let mut handle = AuthenticationHandle::new(Gate { close_fails: true, ..Gate::default() });
    let mut runner = fixed(Ok(ExitReason::Code(3)));
    assert_eq!(run(&mut handle, &mut runner, "root", false), Ok(ExitReason::Code(3)));
    assert_eq!(closes(handle.module()), 1);
    assert_eq!(runner.restores, 1);
}

#[test]
fn failed_authentication_runs_nothing() {
    let mut handle = AuthenticationHandle::new(Gate { wrong: 3, ..Gate::default() });
    let mut runner = fixed(Ok(ExitReason::Code(0)));
    let result = run(&mut handle, &mut runner, "root", false);
    assert_eq!(result, Err(Error::AuthenticationExhausted(3)));
    assert_eq!(ending(&result), Termination::Exit(1));
    assert_eq!(runner.runs, 0);
    assert_eq!(runner.restores, 0);
    assert_eq!(closes(handle.module()), 0);
}

#[test]
fn session_that_did_not_open_is_not_closed() {
    let mut handle = AuthenticationHandle::new(Gate { open_fails: true, ..Gate::default() });
    let mut runner = fixed(Ok(ExitReason::Code(0)));
    assert_eq!(
        run(&mut handle, &mut runner, "root", false),
        Err(Error::SessionOpenFailed(ModuleError::Other(14)))
    );
    assert_eq!(runner.runs, 0);
    assert_eq!(closes(handle.module()), 0);
}

#[test]
fn retries_happen_before_the_command() {
    let mut handle = AuthenticationHandle::new(Gate { wrong: 2, ..Gate::default() });
    let mut runner = fixed(Ok(ExitReason::Code(7)));
    assert_eq!(run(&mut handle, &mut runner, "root", false), Ok(ExitReason::Code(7)));
    assert_eq!(handle.module().log.iter().filter(|c| **c == "warn").count(), 2);
    assert_eq!(runner.runs, 1);
}

#[test]
fn diagnostics_are_prefixed_with_the_program_name() {
    assert_eq!(diagnostic("command not found"), "su: command not found");
    assert_eq!(diagnostic(""), "su: ");
}
