//! Bounded-retry authentication against a pluggable module.

use vstd::prelude::*;
use crate::error::{Error, ExitReason, ModuleError};
use crate::session::CommandRunner;
use crate::record::ModuleRecord;
use crate::journal::{
    attempts_in, closes_in, commands_in, ends_in, is_open_session, lemma_appended, restores_in,
    session_opened, warnings_in, Step,
};

verus! {

/// Number of attempts granted when the caller does not say otherwise.
pub const DEFAULT_ATTEMPTS: u32 = 3;

/// Warning shown to the user before another attempt is made.
pub const RETRY_WARNING: &'static str = "Authentication failed, try again.";

/// What follows from the module's answer to one attempt.
#[derive(Debug, PartialEq, Eq)]
pub enum Decision {
    /// The credential was accepted.
    Granted,
    /// The credential was wrong and attempts remain: warn, then try again.
    Retry,
    /// No further attempt is made.
    Refused(Error),
}

/// The decision for the answer `reply` to attempt number `attempt` (counted
/// from 1) out of `limit`.
pub open spec fn decide(limit: nat, attempt: nat, reply: Result<(), ModuleError>) -> Decision {
    match reply {
        Ok(()) => Decision::Granted,
        Err(ModuleError::AttemptsExhausted) => Decision::Refused(
            Error::AuthenticationExhausted(attempt as u32),
        ),
        Err(ModuleError::CredentialMismatch) => if attempt >= limit {
            Decision::Refused(Error::AuthenticationExhausted(attempt as u32))
        } else {
            Decision::Retry
        },
        Err(e) => Decision::Refused(Error::Module(e)),
    }
}

/// A budget of authentication attempts that only ever shrinks.
pub struct RetryBudget {
    limit: u32,
    used: u32,
}

impl RetryBudget {
    #[verifier::type_invariant]
    spec fn within_limit(self) -> bool {
        1 <= self.limit && self.used <= self.limit
    }

    /// The number of attempts that the budget was created with.
    pub closed spec fn limit(self) -> nat {
        self.limit as nat
    }

    /// The number of attempts counted so far.
    pub closed spec fn attempts(self) -> nat {
        self.used as nat
    }

    /// The number of attempts still allowed.
    pub open spec fn remaining(self) -> nat {
        (self.limit() - self.attempts()) as nat
    }

    /// A fresh budget of `max_attempts` attempts. One attempt is always made,
    /// so a budget of zero counts as a budget of one.
    pub fn new(max_attempts: u32) -> (budget: Self)
        ensures
            budget.limit() == if max_attempts == 0 { 1 } else { max_attempts as nat },
            budget.attempts() == 0,
    {
        RetryBudget { limit: if max_attempts == 0 { 1 } else { max_attempts }, used: 0 }
    }

    /// The limit as a machine integer.
    pub fn max_attempts(&self) -> (n: u32)
        ensures
            n == self.limit(),
            n >= 1,
    {
        proof {
            use_type_invariant(self);
        }
        self.limit
    }

    /// The attempts counted so far, as a machine integer.
    pub fn attempts_made(&self) -> (n: u32)
        ensures
            n == self.attempts(),
            n <= self.limit(),
    {
        proof {
            use_type_invariant(self);
        }
        self.used
    }

    /// Counts one attempt and classifies the module's answer to it.
    ///
    /// While attempts remain, the attempt is counted and the answer decided by
    /// [`decide`]. On a spent budget nothing is counted and the refusal is
    /// repeated.
    pub fn settle(&mut self, reply: Result<(), ModuleError>) -> (decision: Decision)
        ensures
            final(self).limit() == old(self).limit(),
            old(self).remaining() > 0 ==> {
                &&& final(self).attempts() == old(self).attempts() + 1
                &&& decision == decide(old(self).limit(), old(self).attempts() + 1, reply)
            },
            old(self).remaining() == 0 ==> {
                &&& final(self).attempts() == old(self).attempts()
                &&& decision == Decision::Refused(
                    Error::AuthenticationExhausted(old(self).attempts() as u32),
                )
            },
    {
        proof {
            use_type_invariant(&*self);
        }
        if self.used >= self.limit {
            return Decision::Refused(Error::AuthenticationExhausted(self.used));
        }
        self.used = self.used + 1;
        match reply {
            Ok(()) => Decision::Granted,
            Err(ModuleError::AttemptsExhausted) => Decision::Refused(
                Error::AuthenticationExhausted(self.used),
            ),
            Err(ModuleError::CredentialMismatch) => {
                if self.used >= self.limit {
                    Decision::Refused(Error::AuthenticationExhausted(self.used))
                } else {
                    Decision::Retry
                }
            },
            Err(e) => Decision::Refused(Error::Module(e)),
        }
    }
}

/// Name under which the program presents itself to the module.
pub const PROGRAM_NAME: &'static str = "su";

/// Service profile of an ordinary invocation.
pub const SERVICE_PLAIN: &'static str = "su";

/// Service profile of a login invocation.
pub const SERVICE_LOGIN: &'static str = "su-l";

/// What a conversation with the authentication module is opened with.
#[derive(Clone, Copy, Debug)]
pub struct ConversationSettings<'a> {
    /// The program that asks.
    pub program: &'a str,
    /// The service profile that selects the module's rules.
    pub service: &'a str,
    /// The identity to authenticate as.
    pub target_user: &'a str,
    /// Whether prompts are answered from standard input.
    pub use_stdin: bool,
    /// Whether the module is asked to stay silent.
    pub silent: bool,
    /// Whether an empty authentication token is acceptable.
    pub allow_null_auth_token: bool,
}

/// The mathematical content of [`ConversationSettings`].
pub struct Settings {
    pub program: Seq<char>,
    pub service: Seq<char>,
    pub target_user: Seq<char>,
    pub use_stdin: bool,
    pub silent: bool,
    pub allow_null_auth_token: bool,
}

impl<'a> View for ConversationSettings<'a> {
    type V = Settings;

    open spec fn view(&self) -> Settings {
        Settings {
            program: self.program@,
            service: self.service@,
            target_user: self.target_user@,
            use_stdin: self.use_stdin,
            silent: self.silent,
            allow_null_auth_token: self.allow_null_auth_token,
        }
    }
}

/// The settings of the conversation that authenticates `user`: the login flag
/// selects the service profile; prompts are answered from standard input, the
/// module is silenced and may not accept an empty token.
pub open spec fn settings_for(user: Seq<char>, login: bool) -> Settings {
    Settings {
        program: PROGRAM_NAME@,
        service: if login {
            SERVICE_LOGIN@
        } else {
            SERVICE_PLAIN@
        },
        target_user: user,
        use_stdin: true,
        silent: true,
        allow_null_auth_token: false,
    }
}

/// Builds the settings of the conversation that authenticates `user`.
pub fn conversation_settings<'a>(user: &'a str, login: bool) -> (settings: ConversationSettings<
    'a,
>)
    ensures
        settings@ == settings_for(user@, login),
{
    ConversationSettings {
        program: PROGRAM_NAME,
        service: if login {
            SERVICE_LOGIN
        } else {
            SERVICE_PLAIN
        },
        target_user: user,
        use_stdin: true,
        silent: true,
        allow_null_auth_token: false,
    }
}

/// The operations that this crate needs from an authentication backend.
///
/// Nothing is assumed about what an implementation answers: every function
/// that drives a module is verified for all answers.
pub trait AuthModule {
    /// Opens the conversation.
    fn start(&mut self, settings: &ConversationSettings) -> Result<(), ModuleError>;

    /// Names the identity that the following attempts are for.
    fn set_user(&mut self, user: &str) -> Result<(), ModuleError>;

    /// Makes one authentication attempt.
    fn authenticate(&mut self) -> Result<(), ModuleError>;

    /// Checks the account and forces a credential change where one is due.
    fn validate_account_or_change_auth_token(&mut self) -> Result<(), ModuleError>;

    /// Opens the privileged session.
    fn open_session(&mut self) -> Result<(), ModuleError>;

    /// Closes the privileged session.
    fn close_session(&mut self) -> Result<(), ModuleError>;

    /// Shows a warning to the user.
    fn warn(&mut self, message: &str);

    /// Ends the conversation, whether or not it was opened.
    fn end(&mut self);
}

/// A conversation with the authentication module, owned by one invocation.
///
/// The handle keeps a ghost journal of every step taken through it. The
/// journal exists only in proofs: it is what the contracts are stated over.
/// Module and journal are held in a [`ModuleRecord`], which lets nothing
/// reach the module but through calls that are entered in the journal.
pub struct AuthenticationHandle<M: AuthModule> {
    record: ModuleRecord<M>,
}

impl<M: AuthModule> AuthenticationHandle<M> {
    /// Every step taken through the handle so far, in order.
    pub closed spec fn journal(self) -> Seq<Step> {
        self.record.journal()
    }

    /// The module that the handle owns.
    pub closed spec fn inner(self) -> M {
        self.record.inner()
    }

    /// The steps taken since the handle was in the state `before`.
    pub open spec fn since(self, before: Self) -> Seq<Step> {
        self.journal().skip(before.journal().len() as int)
    }

    /// Whether this state comes after `before`: the journal has only grown.
    pub open spec fn follows(self, before: Self) -> bool {
        &&& before.journal().len() <= self.journal().len()
        &&& self.journal().take(before.journal().len() as int) == before.journal()
    }

    /// A handle on `module` with an empty journal.
    pub fn new(module: M) -> (handle: Self)
        ensures
            handle.inner() == module,
            handle.journal() == Seq::<Step>::empty(),
    {
        AuthenticationHandle { record: ModuleRecord::new(module) }
    }

    /// The module.
    pub fn module(&self) -> (module: &M)
        ensures
            *module == self.inner(),
    {
        self.record.module()
    }

    /// Gives the module back.
    pub fn into_module(self) -> (module: M)
        ensures
            module == self.inner(),
    {
        self.record.into_module()
    }

    /// Has `runner` run the command.
    pub(crate) fn run_command<C: CommandRunner>(&mut self, runner: &mut C) -> (result: Result<
        ExitReason,
        Error,
    >)
        ensures
            final(self).journal() == old(self).journal().push(Step::CommandRun { result }),
    {
        self.record.run_command(runner)
    }

    /// Closes the session.
    pub(crate) fn close_session(&mut self) -> (result: Result<(), ModuleError>)
        ensures
            final(self).journal() == old(self).journal().push(Step::SessionClosed { result }),
    {
        self.record.close_session()
    }

    /// Has `runner` put the signal dispositions back.
    pub(crate) fn restore_signal_dispositions<C: CommandRunner>(&mut self, runner: &mut C)
        ensures
            final(self).journal() == old(self).journal().push(Step::DispositionsRestored),
    {
        self.record.restore_signal_dispositions(runner)
    }

    /// Ends the conversation.
    pub(crate) fn end(&mut self)
        ensures
            final(self).journal() == old(self).journal().push(Step::Ended),
    {
        self.record.end()
    }
}

/// The answer that asks for another attempt.
pub open spec fn mismatch() -> Result<(), ModuleError> {
    Err(ModuleError::CredentialMismatch)
}

/// Whether `steps` are the steps of an authentication of `user` in at most
/// `limit` attempts, ending in `result`.
///
/// The conversation is opened with the settings of [`settings_for`], then the
/// user is named. If either fails, that is the last step, and the module's
/// error is the result. Otherwise the attempts follow, as [`attempt_steps`]
/// says.
pub open spec fn auth_steps(
    user: Seq<char>,
    login: bool,
    limit: nat,
    steps: Seq<Step>,
    result: Result<(), Error>,
) -> bool {
    &&& steps.len() >= 1
    &&& steps[0] matches Step::Started { settings, result: started }
    &&& settings == settings_for(user, login)
    &&& match started {
        Err(e) => steps.len() == 1 && result == Err::<(), Error>(Error::Module(e)),
        Ok(()) => {
            &&& steps.len() >= 2
            &&& steps[1] matches Step::UserSet { user: named, result: set }
            &&& named == user
            &&& match set {
                Err(e) => steps.len() == 2 && result == Err::<(), Error>(Error::Module(e)),
                Ok(()) => attempt_steps(limit, 1, steps.skip(2), result),
            }
        },
    }
}

/// Whether `steps` are the steps from attempt number `attempt` on, out of
/// `limit`, ending in `result`.
///
/// An attempt is made and its answer decided by [`decide`]. A refusal is the
/// last step and the result. A retry shows the warning and goes on with the
/// next attempt. An acceptance goes on as [`admission_steps`] says.
pub open spec fn attempt_steps(
    limit: nat,
    attempt: nat,
    steps: Seq<Step>,
    result: Result<(), Error>,
) -> bool
    decreases steps.len(),
{
    &&& steps.len() >= 1
    &&& steps[0] matches Step::Attempted { result: reply }
    &&& match decide(limit, attempt, reply) {
        Decision::Granted => admission_steps(steps.skip(1), result),
        Decision::Refused(e) => steps.len() == 1 && result == Err::<(), Error>(e),
        Decision::Retry => {
            &&& steps.len() >= 2
            &&& steps[1] == Step::Warned { message: RETRY_WARNING@ }
            &&& attempt_steps(limit, attempt + 1, steps.skip(2), result)
        },
    }
}

/// Whether `steps` are the steps after an accepted credential, ending in
/// `result`: the account is validated, and if that succeeds the session is
/// opened. A failure of either is the last step and the result.
pub open spec fn admission_steps(steps: Seq<Step>, result: Result<(), Error>) -> bool {
    &&& steps.len() >= 1
    &&& steps[0] matches Step::Validated { result: validated }
    &&& match validated {
        Err(e) => steps.len() == 1 && result == Err::<(), Error>(
            Error::AccountOrTokenRejected(e),
        ),
        Ok(()) => {
            &&& steps.len() == 2
            &&& steps[1] matches Step::SessionOpened { result: opened }
            &&& result == match opened {
                Ok(()) => Ok::<(), Error>(()),
                Err(e) => Err(Error::SessionOpenFailed(e)),
            }
        },
    }
}

/// `n` rounds of a mismatch and the warning that follows it.
pub open spec fn retries(n: nat) -> Seq<Step>
    decreases n,
{
    if n == 0 {
        Seq::empty()
    } else {
        retries((n - 1) as nat).push(Step::Attempted { result: mismatch() }).push(
            Step::Warned { message: RETRY_WARNING@ },
        )
    }
}

/// After `n` retries, the steps go on from attempt `attempt + n`.
proof fn lemma_after_retries(
    limit: nat,
    attempt: nat,
    n: nat,
    rest: Seq<Step>,
    result: Result<(), Error>,
)
    requires
        attempt + n <= limit,
        attempt >= 1,
    ensures
        attempt_steps(limit, attempt, retries(n) + rest, result) == attempt_steps(
            limit,
            attempt + n,
            rest,
            result,
        ),
    decreases n,
{
    if n == 0 {
        assert(retries(0) + rest =~= rest);
    } else {
        let round = seq![
            Step::Attempted { result: mismatch() },
            Step::Warned { message: RETRY_WARNING@ },
        ];
        let later = round + rest;
        assert(retries(n) + rest =~= retries((n - 1) as nat) + later);
        lemma_after_retries(limit, attempt, (n - 1) as nat, later, result);
        assert(later.skip(2) =~= rest);
        assert(decide(limit, (attempt + n - 1) as nat, mismatch()) == Decision::Retry);
    }
}

/// Authenticates `user` against the module with the default budget of
/// attempts and opens the privileged session.
pub fn authenticate<M: AuthModule>(
    handle: &mut AuthenticationHandle<M>,
    user: &str,
    login: bool,
) -> (result: Result<(), Error>)
    ensures
        final(handle).follows(*old(handle)),
        auth_steps(
            user@,
            login,
            DEFAULT_ATTEMPTS as nat,
            final(handle).since(*old(handle)),
            result,
        ),
{
    authenticate_within(handle, user, login, DEFAULT_ATTEMPTS)
}

/// Authenticates `user` against the module in at most `max_attempts` attempts
/// (a budget of zero counts as one) and opens the privileged session.
pub fn authenticate_within<M: AuthModule>(
    handle: &mut AuthenticationHandle<M>,
    user: &str,
    login: bool,
    max_attempts: u32,
) -> (result: Result<(), Error>)
    ensures
        final(handle).follows(*old(handle)),
        auth_steps(
            user@,
            login,
            if max_attempts == 0 {
                1
            } else {
                max_attempts as nat
            },
            final(handle).since(*old(handle)),
            result,
        ),
{
    let ghost start = handle.journal();
    let settings = conversation_settings(user, login);
    let started = handle.record.start(&settings);
    let ghost x0 = Step::Started { settings: settings@, result: started };
    if let Err(e) = started {
        proof {
            assert(handle.journal() =~= start + seq![x0]);
            lemma_appended(start, handle.journal(), seq![x0]);
        }
        return Err(Error::Module(e));
    }
    let set = handle.record.set_user(user);
    let ghost x1 = Step::UserSet { user: user@, result: set };
    if let Err(e) = set {
        proof {
            assert(handle.journal() =~= start + seq![x0, x1]);
            lemma_appended(start, handle.journal(), seq![x0, x1]);
        }
        return Err(Error::Module(e));
    }
    let mut budget = RetryBudget::new(max_attempts);
    let ghost limit = budget.limit();
    let ghost opening = seq![x0, x1];
    let mut verdict: Option<Result<(), Error>> = None;
    let ghost mut tail: Seq<Step> = Seq::empty();
    while verdict.is_none()
        invariant
            limit == if max_attempts == 0 { 1 } else { max_attempts as nat },
            budget.limit() == limit,
            verdict is None ==> {
                &&& budget.attempts() < limit
                &&& handle.journal() == start + opening + retries(budget.attempts())
            },
            verdict matches Some(v) ==> {
                &&& handle.journal() == start + opening + tail
                &&& attempt_steps(limit, 1, tail, v)
            },
        decreases (if verdict is None { 1 + budget.remaining() } else { 0 }),
    {
        let ghost made = budget.attempts();
        let reply = handle.record.attempt();
        let ghost attempted = Step::Attempted { result: reply };
        match budget.settle(reply) {
            Decision::Granted => {
                let validated = handle.record.validate();
                let ghost checked = Step::Validated { result: validated };
                match validated {
                    Err(e) => {
                        let v = Err(Error::AccountOrTokenRejected(e));
                        proof {
                            let rest = seq![attempted, checked];
                            tail = retries(made) + rest;
                            assert(handle.journal() =~= start + opening + tail);
                            assert(rest.skip(1) =~= seq![checked]);
                            lemma_after_retries(limit, 1, made, rest, v);
                        }
                        verdict = Some(v);
                    },
                    Ok(()) => {
                        let opened = handle.record.open_session();
                        let v = match opened {
                            Ok(()) => Ok(()),
                            Err(e) => Err(Error::SessionOpenFailed(e)),
                        };
                        proof {
                            let rest = seq![
                                attempted,
                                checked,
                                Step::SessionOpened { result: opened },
                            ];
                            tail = retries(made) + rest;
                            assert(handle.journal() =~= start + opening + tail);
                            assert(rest.skip(1) =~= seq![
                                checked,
                                Step::SessionOpened { result: opened },
                            ]);
                            lemma_after_retries(limit, 1, made, rest, v);
                        }
                        verdict = Some(v);
                    },
                }
            },
            Decision::Retry => {
                handle.record.warn(RETRY_WARNING);
                proof {
                    assert(handle.journal() =~= start + opening + retries(made + 1));
                }
            },
            Decision::Refused(e) => {
                proof {
                    let rest = seq![attempted];
                    tail = retries(made) + rest;
                    assert(handle.journal() =~= start + opening + tail);
                    lemma_after_retries(limit, 1, made, rest, Err::<(), Error>(e));
                }
                verdict = Some(Err(e));
            },
        }
    }
    proof {
        let steps = opening + tail;
        assert(handle.journal() =~= start + steps);
        lemma_appended(start, handle.journal(), steps);
        assert(steps.skip(2) =~= tail);
    }
    verdict.unwrap()
}

/// Whether `step` is a failure that the retry policy does not cover: a
/// conversation that did not open, a user that was refused, an attempt that
/// failed with an error other than a mismatch or an exhaustion, a rejected
/// account, or a session that did not open.
pub open spec fn failed_outside_policy(step: Step) -> bool {
    match step {
        Step::Started { result, .. } => result is Err,
        Step::UserSet { result, .. } => result is Err,
        Step::Attempted { result } => result matches Err(ModuleError::Other(_)),
        Step::Validated { result } => result is Err,
        Step::SessionOpened { result } => result is Err,
        _ => false,
    }
}

/// Whether `result` is the verdict that authentication was given up.
pub open spec fn is_exhausted(result: Result<(), Error>) -> bool {
    result matches Err(Error::AuthenticationExhausted(_))
}

/// After an accepted credential no attempt is made and no warning shown, and
/// authentication is not given up.
proof fn lemma_admission(steps: Seq<Step>, result: Result<(), Error>)
    requires
        admission_steps(steps, result),
    ensures
        attempts_in(steps) == 0,
        warnings_in(steps) == 0,
        !(steps.last() is Attempted),
        !is_exhausted(result),
        !(result matches Err(Error::Module(_))),
        result is Ok || failed_outside_policy(steps.last()),
{
    if steps.len() == 1 {
        assert(steps.skip(1).len() == 0);
        assert(attempts_in(steps.skip(1)) == 0);
        assert(warnings_in(steps.skip(1)) == 0);
    } else {
        let after = steps.skip(1);
        assert(after[0] == steps[1]);
        assert(after.skip(1).len() == 0);
        assert(attempts_in(after.skip(1)) == 0);
        assert(warnings_in(after.skip(1)) == 0);
        assert(attempts_in(after) == 0);
        assert(warnings_in(after) == 0);
    }
}

/// Bounded retries, from any attempt on: from attempt number `attempt` of
/// `limit`, at most `limit - attempt + 1` attempts are made and at most
/// `limit - attempt` warnings shown, one warning between any two attempts; and
/// when authentication is given up, the count reported is the number of the
/// last attempt made.
pub proof fn lemma_attempts_bounded(
    limit: nat,
    attempt: nat,
    steps: Seq<Step>,
    result: Result<(), Error>,
)
    requires
        1 <= attempt <= limit <= u32::MAX,
        attempt_steps(limit, attempt, steps, result),
    ensures
        1 <= attempts_in(steps),
        attempt + attempts_in(steps) <= limit + 1,
        warnings_in(steps) + 1 == attempts_in(steps),
        result matches Err(Error::AuthenticationExhausted(n)) ==> n == attempt + attempts_in(steps)
            - 1,
    decreases steps.len(),
{
    let reply = steps[0]->Attempted_result;
    let after = steps.skip(1);
    match decide(limit, attempt, reply) {
        Decision::Granted => {
            lemma_admission(after, result);
        },
        Decision::Refused(e) => {
            assert(after.len() == 0);
            assert(attempts_in(after) == 0);
            assert(warnings_in(after) == 0);
        },
        Decision::Retry => {
            assert(after[0] == steps[1]);
            assert(after.skip(1) =~= steps.skip(2));
            assert(attempts_in(after) == attempts_in(after.skip(1)));
            assert(warnings_in(after) == warnings_in(after.skip(1)) + 1);
            lemma_attempts_bounded(limit, attempt + 1, steps.skip(2), result);
        },
    }
}

/// The causes of a refusal, from any attempt on. The last step tells how the
/// attempts ended:
/// - authentication is given up if and only if the last step is an attempt
///   that the module answered with an exhaustion or with a mismatch, and a
///   mismatch is the last step only when it spent the budget;
/// - a module error is the result if and only if the last step is an attempt
///   that the module answered with an error of another class, and the result
///   is that error;
/// - in every other case a credential was accepted.
pub proof fn lemma_refusal_causes(
    limit: nat,
    attempt: nat,
    steps: Seq<Step>,
    result: Result<(), Error>,
)
    requires
        1 <= attempt <= limit <= u32::MAX,
        attempt_steps(limit, attempt, steps, result),
    ensures
        is_exhausted(result) <==> (steps.last() matches Step::Attempted { result: reply } && (
        reply == Err::<(), ModuleError>(ModuleError::AttemptsExhausted) || reply == mismatch())),
        steps.last() == (Step::Attempted { result: mismatch() }) ==> attempt + attempts_in(steps)
            == limit + 1,
        (result matches Err(Error::Module(_))) <==> (steps.last() matches Step::Attempted {
            result: Err(ModuleError::Other(_)),
        }),
        steps.last() matches Step::Attempted { result: Err(ModuleError::Other(code)) } ==> result
            == Err::<(), Error>(Error::Module(ModuleError::Other(code))),
        !(steps.last() matches Step::Attempted { result: Ok(_) }),
        result is Ok || is_exhausted(result) || failed_outside_policy(steps.last()),
    decreases steps.len(),
{
    let reply = steps[0]->Attempted_result;
    let after = steps.skip(1);
    match decide(limit, attempt, reply) {
        Decision::Granted => {
            lemma_admission(after, result);
            assert(steps.last() == after.last());
        },
        Decision::Refused(e) => {
            assert(after.len() == 0);
            assert(attempts_in(after) == 0);
        },
        Decision::Retry => {
            let later = steps.skip(2);
            assert(after[0] == steps[1]);
            assert(after.skip(1) =~= later);
            assert(attempts_in(after) == attempts_in(after.skip(1)));
            assert(attempt_steps(limit, attempt + 1, later, result));
            assert(later.len() >= 1);
            assert(steps.last() == later.last());
            lemma_refusal_causes(limit, attempt + 1, later, result);
        },
    }
}

/// The two opening steps are no attempts and no warnings: if either fails,
/// nothing follows, and else the attempts follow from the first on.
proof fn lemma_opening_counts(
    user: Seq<char>,
    login: bool,
    limit: nat,
    steps: Seq<Step>,
    result: Result<(), Error>,
)
    requires
        auth_steps(user, login, limit, steps, result),
    ensures
        steps.len() <= 2 ==> attempts_in(steps) == 0 && warnings_in(steps) == 0 && (
        result matches Err(Error::Module(_))) && !(steps.last() is Attempted),
        steps.len() > 2 ==> {
            &&& attempt_steps(limit, 1, steps.skip(2), result)
            &&& attempts_in(steps) == attempts_in(steps.skip(2))
            &&& warnings_in(steps) == warnings_in(steps.skip(2))
        },
{
    let after = steps.skip(1);
    assert(attempts_in(steps) == attempts_in(after));
    assert(warnings_in(steps) == warnings_in(after));
    if steps.len() == 1 {
        assert(after.len() == 0);
        assert(attempts_in(after) == 0);
        assert(warnings_in(after) == 0);
    } else {
        let later = steps.skip(2);
        assert(after[0] == steps[1]);
        assert(after.skip(1) =~= later);
        assert(attempts_in(after) == attempts_in(after.skip(1)));
        assert(warnings_in(after) == warnings_in(after.skip(1)));
        if steps.len() == 2 {
            assert(later.len() == 0);
            assert(attempts_in(later) == 0);
            assert(warnings_in(later) == 0);
        }
    }
}

/// Bounded retries: an authentication of at most `limit` attempts makes at
/// most `limit` attempts and shows at most `limit - 1` warnings, whatever the
/// module answers; and when it is given up, the count reported is the number
/// of attempts made, between 1 and `limit`.
pub proof fn lemma_authentication_bounded(
    user: Seq<char>,
    login: bool,
    limit: nat,
    steps: Seq<Step>,
    result: Result<(), Error>,
)
    requires
        1 <= limit <= u32::MAX,
        auth_steps(user, login, limit, steps, result),
    ensures
        attempts_in(steps) <= limit,
        warnings_in(steps) + 1 <= limit,
        result matches Err(Error::AuthenticationExhausted(n)) ==> 1 <= n <= limit && n
            == attempts_in(steps),
{
    lemma_opening_counts(user, login, limit, steps, result);
    if steps.len() > 2 {
        lemma_attempts_bounded(limit, 1, steps.skip(2), result);
    }
}

/// Success or exhaustion: an authentication ends in success or is given up,
/// unless its last step failed outside the retry policy. So against a module
/// that answers every attempt with an acceptance, a mismatch or an exhaustion,
/// and that fails nowhere else, these are the only two ends.
pub proof fn lemma_success_or_exhaustion(
    user: Seq<char>,
    login: bool,
    limit: nat,
    steps: Seq<Step>,
    result: Result<(), Error>,
)
    requires
        1 <= limit <= u32::MAX,
        auth_steps(user, login, limit, steps, result),
    ensures
        result is Ok || is_exhausted(result) || failed_outside_policy(steps.last()),
{
    lemma_opening_counts(user, login, limit, steps, result);
    if steps.len() > 2 {
        let later = steps.skip(2);
        assert(later.len() >= 1);
        assert(steps.last() == later.last());
        lemma_refusal_causes(limit, 1, later, result);
    }
}

/// Exhaustion has exactly two causes: an authentication is given up if and
/// only if its last step is an attempt that the module answered with an
/// exhaustion of its own, or with the mismatch that spent the budget, which is
/// then attempt number `limit`. On no other path is it given up.
pub proof fn lemma_exhausted_iff(
    user: Seq<char>,
    login: bool,
    limit: nat,
    steps: Seq<Step>,
    result: Result<(), Error>,
)
    requires
        1 <= limit <= u32::MAX,
        auth_steps(user, login, limit, steps, result),
    ensures
        is_exhausted(result) <==> (steps.last() matches Step::Attempted { result: reply } && (
        reply == Err::<(), ModuleError>(ModuleError::AttemptsExhausted) || (reply == mismatch()
            && attempts_in(steps) == limit))),
{
    lemma_opening_counts(user, login, limit, steps, result);
    if steps.len() > 2 {
        let later = steps.skip(2);
        assert(later.len() >= 1);
        assert(steps.last() == later.last());
        lemma_refusal_causes(limit, 1, later, result);
        lemma_attempts_bounded(limit, 1, later, result);
    }
}

/// The shape of the attempts, from any attempt on: no command is run and no
/// session closed, and a session is opened only as the last step.
proof fn lemma_attempt_shape(limit: nat, attempt: nat, steps: Seq<Step>, result: Result<(), Error>)
    requires
        1 <= attempt <= limit <= u32::MAX,
        attempt_steps(limit, attempt, steps, result),
    ensures
        commands_in(steps) == 0,
        closes_in(steps) == 0,
        restores_in(steps) == 0,
        ends_in(steps) == 0,
        forall|i: int|
            0 <= i < steps.len() && is_open_session(#[trigger] steps[i]) ==> result is Ok,
        result is Ok ==> {
            &&& steps.len() >= 3
            &&& (steps[steps.len() - 1] matches Step::SessionOpened { result: Ok(_) })
            &&& (steps[steps.len() - 2] matches Step::Validated { result: Ok(_) })
            &&& (steps[steps.len() - 3] matches Step::Attempted { result: Ok(_) })
        },
    decreases steps.len(),
{
    let reply = steps[0]->Attempted_result;
    let after = steps.skip(1);
    assert(commands_in(steps) == commands_in(after));
    assert(closes_in(steps) == closes_in(after));
    assert(restores_in(steps) == restores_in(after));
    assert(ends_in(steps) == ends_in(after));
    match decide(limit, attempt, reply) {
        Decision::Granted => {
            assert(after[0] == steps[1]);
            if after.len() == 2 {
                let last = after.skip(1);
                assert(last[0] == steps[2]);
                assert(last.skip(1).len() == 0);
                assert(commands_in(last.skip(1)) == 0);
                assert(closes_in(last.skip(1)) == 0);
                assert(restores_in(last.skip(1)) == 0);
                assert(ends_in(last.skip(1)) == 0);
                assert(commands_in(last) == 0);
                assert(closes_in(last) == 0);
                assert(restores_in(last) == 0);
                assert(ends_in(last) == 0);
            } else {
                assert(after.skip(1).len() == 0);
                assert(commands_in(after.skip(1)) == 0);
                assert(closes_in(after.skip(1)) == 0);
                assert(restores_in(after.skip(1)) == 0);
                assert(ends_in(after.skip(1)) == 0);
            }
        },
        Decision::Refused(e) => {
            assert(after.len() == 0);
        },
        Decision::Retry => {
            let later = steps.skip(2);
            assert(after[0] == steps[1]);
            assert(after.skip(1) =~= later);
            assert(commands_in(after) == commands_in(after.skip(1)));
            assert(closes_in(after) == closes_in(after.skip(1)));
            assert(restores_in(after) == restores_in(after.skip(1)));
            assert(ends_in(after) == ends_in(after.skip(1)));
            lemma_attempt_shape(limit, attempt + 1, later, result);
            assert forall|i: int|
                0 <= i < steps.len() && is_open_session(#[trigger] steps[i]) implies result
                is Ok by {
                if i >= 2 {
                    assert(later[i - 2] == steps[i]);
                }
            }
            if result is Ok {
                assert(later[later.len() - 1] == steps[steps.len() - 1]);
                assert(later[later.len() - 2] == steps[steps.len() - 2]);
                assert(later[later.len() - 3] == steps[steps.len() - 3]);
            }
        },
    }
}

/// A session is opened only after one accepted credential and one successful
/// validation: an authentication succeeds if and only if a session was opened
/// in it, and then its last three steps are the accepted attempt, the
/// successful validation and the opening of the session. No authentication
/// runs a command, closes a session, touches the signal dispositions or ends
/// the conversation.
pub proof fn lemma_authentication_shape(
    user: Seq<char>,
    login: bool,
    limit: nat,
    steps: Seq<Step>,
    result: Result<(), Error>,
)
    requires
        1 <= limit <= u32::MAX,
        auth_steps(user, login, limit, steps, result),
    ensures
        commands_in(steps) == 0,
        closes_in(steps) == 0,
        restores_in(steps) == 0,
        ends_in(steps) == 0,
        session_opened(steps) <==> result is Ok,
        result is Ok ==> {
            &&& steps.len() >= 5
            &&& (steps[steps.len() - 1] matches Step::SessionOpened { result: Ok(_) })
            &&& (steps[steps.len() - 2] matches Step::Validated { result: Ok(_) })
            &&& (steps[steps.len() - 3] matches Step::Attempted { result: Ok(_) })
        },
{
    let after = steps.skip(1);
    assert(commands_in(steps) == commands_in(after));
    assert(closes_in(steps) == closes_in(after));
    assert(restores_in(steps) == restores_in(after));
    assert(ends_in(steps) == ends_in(after));
    if steps.len() == 1 {
        assert(after.len() == 0);
    } else {
        let later = steps.skip(2);
        assert(after[0] == steps[1]);
        assert(after.skip(1) =~= later);
        assert(commands_in(after) == commands_in(after.skip(1)));
        assert(closes_in(after) == closes_in(after.skip(1)));
        assert(restores_in(after) == restores_in(after.skip(1)));
        assert(ends_in(after) == ends_in(after.skip(1)));
        if steps.len() == 2 {
            assert(later.len() == 0);
        } else {
            lemma_attempt_shape(limit, 1, later, result);
            if result is Ok {
                assert(later[later.len() - 1] == steps[steps.len() - 1]);
                assert(later[later.len() - 2] == steps[steps.len() - 2]);
                assert(later[later.len() - 3] == steps[steps.len() - 3]);
            }
            if session_opened(steps) {
                let i = choose|i: int|
                    0 <= i < steps.len() && is_open_session(#[trigger] steps[i]);
                assert(later[i - 2] == steps[i]);
            }
        }
    }
}

} // verus!
