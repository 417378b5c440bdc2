use su_core::auth::{
    authenticate, authenticate_within, conversation_settings, AuthModule, AuthenticationHandle,
    ConversationSettings, Decision, RetryBudget, DEFAULT_ATTEMPTS, RETRY_WARNING,
};
use su_core::error::{Error, ModuleError};

/// A module that answers from a script and records what it was asked.
#[derive(Debug, Default)]
struct Scripted {
    start: Option<ModuleError>,
    set_user: Option<ModuleError>,
    replies: Vec<Result<(), ModuleError>>,
    validate: Option<ModuleError>,
    open: Option<ModuleError>,
    calls: Vec<String>,
    warnings: Vec<String>,
    settings: Option<(String, String, String, bool, bool, bool)>,
}

fn answer(error: &Option<ModuleError>) -> Result<(), ModuleError> {
    match error {
        Some(e) => Err(*e),
        None => Ok(()),
    }
}

impl AuthModule for Scripted {
    fn start(&mut self, settings: &ConversationSettings) -> Result<(), ModuleError> {
        self.calls.push("start".to_string());
        self.settings = Some((
            settings.program.to_string(),
            settings.service.to_string(),
            settings.target_user.to_string(),
            settings.use_stdin,
            settings.silent,
            settings.allow_null_auth_token,
        ));
        answer(&self.start)
    }

    fn set_user(&mut self, user: &str) -> Result<(), ModuleError> {
        self.calls.push(format!("set_user {user}"));
        answer(&self.set_user)
    }

    fn authenticate(&mut self) -> Result<(), ModuleError> {
        self.calls.push("authenticate".to_string());
        if self.replies.is_empty() {
            panic!("the script has no answer left");
        }
        self.replies.remove(0)
    }

    fn validate_account_or_change_auth_token(&mut self) -> Result<(), ModuleError> {
        self.calls.push("validate".to_string());
        answer(&self.validate)
    }

    fn open_session(&mut self) -> Result<(), ModuleError> {
        self.calls.push("open_session".to_string());
        answer(&self.open)
    }

    fn close_session(&mut self) -> Result<(), ModuleError> {
        self.calls.push("close_session".to_string());
        Ok(())
    }

    fn warn(&mut self, message: &str) {
        self.calls.push("warn".to_string());
        self.warnings.push(message.to_string());
    }

    fn end(&mut self) {
        self.calls.push("end".to_string());
    }
}

fn scripted(replies: Vec<Result<(), ModuleError>>) -> Scripted {
    Scripted { replies, ..Scripted::default() }
}

const WRONG: Result<(), ModuleError> = Err(ModuleError::CredentialMismatch);

fn attempts(module: &Scripted) -> usize {
    module.calls.iter().filter(|c| c.as_str() == "authenticate").count()
}

#[test]
fn three_wrong_credentials_exhaust_a_budget_of_three() {
    let mut handle = AuthenticationHandle::new(scripted(vec![WRONG, WRONG, WRONG]));
    let result = authenticate(&mut handle, "root", false);
    assert_eq!(result, Err(Error::AuthenticationExhausted(3)));
    let module = handle.into_module();
    assert_eq!(attempts(&module), 3);
    assert_eq!(module.warnings.len(), 2);
    assert_eq!(
        module.calls,
        vec![
            "start",
            "set_user root",
            "authenticate",
            "warn",
            "authenticate",
            "warn",
            "authenticate",
        ]
    );
}

#[test]
fn default_budget_is_three() {
    assert_eq!(DEFAULT_ATTEMPTS, 3);
}

#[test]
fn accepted_credential_opens_the_session() {
    let mut handle = AuthenticationHandle::new(scripted(vec![Ok(())]));
    assert_eq!(authenticate(&mut handle, "alice", false), Ok(()));
    assert_eq!(
        handle.module().calls,
        vec!["start", "set_user alice", "authenticate", "validate", "open_session"]
    );
    assert!(handle.module().warnings.is_empty());
}

#[test]
fn wrong_then_right_warns_once() {
    let mut handle = AuthenticationHandle::new(scripted(vec![WRONG, Ok(())]));
    assert_eq!(authenticate(&mut handle, "alice", false), Ok(()));
    let module = handle.into_module();
    assert_eq!(module.warnings, vec![RETRY_WARNING.to_string()]);
    assert_eq!(module.warnings[0], "Authentication failed, try again.");
    assert_eq!(
        module.calls,
        vec![
            "start",
            "set_user alice",
            "authenticate",
            "warn",
            "authenticate",
            "validate",
            "open_session",
        ]
    );
}

#[test]
fn two_wrong_then_right_succeeds_on_the_last_attempt() {
    let mut handle = AuthenticationHandle::new(scripted(vec![WRONG, WRONG, Ok(())]));
    assert_eq!(authenticate(&mut handle, "alice", true), Ok(()));
    assert_eq!(attempts(handle.module()), 3);
    assert_eq!(handle.module().warnings.len(), 2);
}

#[test]
fn module_exhaustion_ends_at_the_current_attempt() {
    let mut handle =
        AuthenticationHandle::new(scripted(vec![WRONG, Err(ModuleError::AttemptsExhausted)]));
    assert_eq!(authenticate(&mut handle, "root", false), Err(Error::AuthenticationExhausted(2)));
    assert_eq!(handle.module().warnings.len(), 1);
    assert!(!handle.module().calls.contains(&"validate".to_string()));
}

#[test]
fn module_exhaustion_on_the_first_attempt() {
    let mut handle = AuthenticationHandle::new(scripted(vec![Err(ModuleError::AttemptsExhausted)]));
    assert_eq!(authenticate(&mut handle, "root", false), Err(Error::AuthenticationExhausted(1)));
    assert!(handle.module().warnings.is_empty());
}

#[test]
fn other_module_error_is_fatal_and_kept() {
    let mut handle =
        AuthenticationHandle::new(scripted(vec![WRONG, Err(ModuleError::Other(7)), Ok(())]));
    assert_eq!(
        authenticate(&mut handle, "root", false),
        Err(Error::Module(ModuleError::Other(7)))
    );
    let module = handle.into_module();
    assert_eq!(attempts(&module), 2);
    assert_eq!(module.warnings.len(), 1);
    assert_eq!(module.replies, vec![Ok(())]);
}

#[test]
fn failure_to_start_ends_before_any_attempt() {
    let mut module = scripted(vec![Ok(())]);
    module.start = Some(ModuleError::Other(4));
    let mut handle = AuthenticationHandle::new(module);
    assert_eq!(
        authenticate(&mut handle, "root", false),
        Err(Error::Module(ModuleError::Other(4)))
    );
    assert_eq!(handle.module().calls, vec!["start"]);
}

#[test]
fn refused_user_ends_before_any_attempt() {
    let mut module = scripted(vec![Ok(())]);
    module.set_user = Some(ModuleError::Other(10));
    let mut handle = AuthenticationHandle::new(module);
    assert_eq!(
        authenticate(&mut handle, "nobody", false),
        Err(Error::Module(ModuleError::Other(10)))
    );
    assert_eq!(handle.module().calls, vec!["start", "set_user nobody"]);
}

#[test]
fn rejected_account_aborts_before_the_session() {
    let mut module = scripted(vec![Ok(())]);
    module.validate = Some(ModuleError::Other(13));
    let mut handle = AuthenticationHandle::new(module);
    assert_eq!(
        authenticate(&mut handle, "root", false),
        Err(Error::AccountOrTokenRejected(ModuleError::Other(13)))
    );
    assert!(!handle.module().calls.contains(&"open_session".to_string()));
}

#[test]
fn session_open_failure_is_reported() {
    let mut module = scripted(vec![Ok(())]);
    module.open = Some(ModuleError::Other(14));
    let mut handle = AuthenticationHandle::new(module);
    assert_eq!(
        authenticate(&mut handle, "root", false),
        Err(Error::SessionOpenFailed(ModuleError::Other(14)))
    );
}

#[test]
fn login_flag_selects_the_service_profile() {
    let mut handle = AuthenticationHandle::new(scripted(vec![Ok(())]));
    assert_eq!(authenticate(&mut handle, "bob", true), Ok(()));
    assert_eq!(
        handle.module().settings,
        Some(("su".to_string(), "su-l".to_string(), "bob".to_string(), true, true, false))
    );
    let mut handle = AuthenticationHandle::new(scripted(vec![Ok(())]));
    assert_eq!(authenticate(&mut handle, "bob", false), Ok(()));
    assert_eq!(
        handle.module().settings,
        Some(("su".to_string(), "su".to_string(), "bob".to_string(), true, true, false))
    );
}

#[test]
fn settings_are_silent_and_refuse_empty_tokens() {
    let settings = conversation_settings("carol", true);
    assert_eq!(settings.program, "su");
    assert_eq!(settings.service, "su-l");
    assert_eq!(settings.target_user, "carol");
    assert!(settings.use_stdin);
    assert!(settings.silent);
    assert!(!settings.allow_null_auth_token);
    assert_eq!(conversation_settings("carol", false).service, "su");
}

#[test]
fn budget_of_one_never_warns() {
    let mut handle = AuthenticationHandle::new(scripted(vec![WRONG, Ok(())]));
    assert_eq!(
        authenticate_within(&mut handle, "root", false, 1),
        Err(Error::AuthenticationExhausted(1))
    );
    assert!(handle.module().warnings.is_empty());
    assert_eq!(attempts(handle.module()), 1);
}

#[test]
fn budget_of_zero_counts_as_one() {
    let mut handle = AuthenticationHandle::new(scripted(vec![WRONG, Ok(())]));
    assert_eq!(
        authenticate_within(&mut handle, "root", false, 0),
        Err(Error::AuthenticationExhausted(1))
    );
    let mut handle = AuthenticationHandle::new(scripted(vec![Ok(())]));
    assert_eq!(authenticate_within(&mut handle, "root", false, 0), Ok(()));
}

#[test]
fn larger_budget_allows_more_retries() {
    let mut handle = AuthenticationHandle::new(scripted(vec![WRONG, WRONG, WRONG, WRONG, Ok(())]));
    assert_eq!(authenticate_within(&mut handle, "root", false, 5), Ok(()));
    assert_eq!(handle.module().warnings.len(), 4);
}

#[test]
fn attempts_and_warnings_stay_within_every_budget() {
    for limit in 1u32..=6 {
        for wrong in 0..8usize {
            let mut replies = vec![WRONG; wrong];
            replies.push(Ok(()));
            let mut handle = AuthenticationHandle::new(scripted(replies));
            let result = authenticate_within(&mut handle, "root", false, limit);
            let module = handle.into_module();
            assert!(attempts(&module) <= limit as usize);
            assert!(module.warnings.len() + 1 <= limit as usize);
            assert_eq!(module.warnings.len() + 1, attempts(&module));
            if wrong < limit as usize {
                assert_eq!(result, Ok(()));
                assert_eq!(attempts(&module), wrong + 1);
            } else {
                assert_eq!(result, Err(Error::AuthenticationExhausted(limit)));
            }
        }
    }
}

#[test]
fn budget_settles_each_answer() {
    let mut budget = RetryBudget::new(3);
    assert_eq!(budget.max_attempts(), 3);
    assert_eq!(budget.attempts_made(), 0);
    assert_eq!(budget.settle(WRONG), Decision::Retry);
    assert_eq!(budget.attempts_made(), 1);
    assert_eq!(budget.settle(WRONG), Decision::Retry);
    assert_eq!(budget.settle(WRONG), Decision::Refused(Error::AuthenticationExhausted(3)));
    assert_eq!(budget.attempts_made(), 3);
}

#[test]
fn spent_budget_repeats_the_refusal_without_counting() {
    let mut budget = RetryBudget::new(1);
    assert_eq!(budget.settle(WRONG), Decision::Refused(Error::AuthenticationExhausted(1)));
    assert_eq!(budget.settle(Ok(())), Decision::Refused(Error::AuthenticationExhausted(1)));
    assert_eq!(budget.attempts_made(), 1);
}

#[test]
fn budget_grants_and_refuses() {
    let mut budget = RetryBudget::new(3);
    assert_eq!(budget.settle(Ok(())), Decision::Granted);
    let mut budget = RetryBudget::new(3);
    assert_eq!(
        budget.settle(Err(ModuleError::AttemptsExhausted)),
        Decision::Refused(Error::AuthenticationExhausted(1))
    );
    let mut budget = RetryBudget::new(3);
    assert_eq!(
        budget.settle(Err(ModuleError::Other(-2))),
        Decision::Refused(Error::Module(ModuleError::Other(-2)))
    );
    assert_eq!(RetryBudget::new(0).max_attempts(), 1);
}

#[test]
fn errors_map_to_exit_statuses() {
    assert_eq!(Error::CommandNotFound("frobnicate".to_string()).exit_status(), 127);
    assert_eq!(Error::InvalidCommand("/etc/passwd".to_string()).exit_status(), 126);
    let error = Error::CommandNotFound("frobnicate".to_string());
    assert_eq!(error.clone(), error);
    assert_ne!(error, Error::CommandNotFound("frob".to_string()));
    assert_ne!(error, Error::InvalidCommand("frobnicate".to_string()));
    assert_eq!(Error::AuthenticationExhausted(3).exit_status(), 1);
    assert_eq!(Error::Module(ModuleError::Other(9)).exit_status(), 1);
    assert_eq!(Error::AccountOrTokenRejected(ModuleError::Other(9)).exit_status(), 1);
    assert_eq!(Error::SessionOpenFailed(ModuleError::CredentialMismatch).exit_status(), 1);
    assert_eq!(Error::Execution(2).exit_status(), 1);
}
