//! An authentication module together with the journal of an invocation.
//!
//! The two are private to this module, and every way to the module from
//! outside it makes one call and enters that one call in the journal; so do
//! the two calls of the command runner. So a contract over the journal is a
//! contract over the calls that were made.

use vstd::prelude::*;
use crate::auth::{AuthModule, ConversationSettings};
use crate::error::{Error, ExitReason, ModuleError};
use crate::journal::Step;
use crate::session::CommandRunner;

verus! {

/// An authentication module and every step of the invocation so far.
pub(crate) struct ModuleRecord<M: AuthModule> {
    module: M,
    journal: Ghost<Seq<Step>>,
}

impl<M: AuthModule> ModuleRecord<M> {
    /// Every step so far, in order.
    pub(crate) closed spec fn journal(self) -> Seq<Step> {
        self.journal@
    }

    /// The module.
    pub(crate) closed spec fn inner(self) -> M {
        self.module
    }

    /// A record for `module` with an empty journal.
    pub(crate) fn new(module: M) -> (record: Self)
        ensures
            record.inner() == module,
            record.journal() == Seq::<Step>::empty(),
    {
        ModuleRecord { module, journal: Ghost(Seq::empty()) }
    }

    /// The module, to look at.
    pub(crate) fn module(&self) -> (module: &M)
        ensures
            *module == self.inner(),
    {
        &self.module
    }

    /// Gives the module back and drops the journal.
    pub(crate) fn into_module(self) -> (module: M)
        ensures
            module == self.inner(),
    {
        self.module
    }

    /// Opens the conversation with `settings`.
    pub(crate) fn start(&mut self, settings: &ConversationSettings) -> (result: Result<
        (),
        ModuleError,
    >)
        ensures
            final(self).journal() == old(self).journal().push(
                Step::Started { settings: settings@, result },
            ),
    {
        let result = self.module.start(settings);
        self.journal = Ghost(self.journal@.push(Step::Started { settings: settings@, result }));
        result
    }

    /// Names the identity `user`.
    pub(crate) fn set_user(&mut self, user: &str) -> (result: Result<(), ModuleError>)
        ensures
            final(self).journal() == old(self).journal().push(
                Step::UserSet { user: user@, result },
            ),
    {
        let result = self.module.set_user(user);
        self.journal = Ghost(self.journal@.push(Step::UserSet { user: user@, result }));
        result
    }

    /// Makes one authentication attempt.
    pub(crate) fn attempt(&mut self) -> (result: Result<(), ModuleError>)
        ensures
            final(self).journal() == old(self).journal().push(Step::Attempted { result }),
    {
        let result = self.module.authenticate();
        self.journal = Ghost(self.journal@.push(Step::Attempted { result }));
        result
    }

    /// Shows `message` to the user.
    pub(crate) fn warn(&mut self, message: &str)
        ensures
            final(self).journal() == old(self).journal().push(
                Step::Warned { message: message@ },
            ),
    {
        self.module.warn(message);
        self.journal = Ghost(self.journal@.push(Step::Warned { message: message@ }));
    }

    /// Validates the account.
    pub(crate) fn validate(&mut self) -> (result: Result<(), ModuleError>)
        ensures
            final(self).journal() == old(self).journal().push(Step::Validated { result }),
    {
        let result = self.module.validate_account_or_change_auth_token();
        self.journal = Ghost(self.journal@.push(Step::Validated { result }));
        result
    }

    /// Opens the session.
    pub(crate) fn open_session(&mut self) -> (result: Result<(), ModuleError>)
        ensures
            final(self).journal() == old(self).journal().push(Step::SessionOpened { result }),
    {
        let result = self.module.open_session();
        self.journal = Ghost(self.journal@.push(Step::SessionOpened { result }));
        result
    }

    /// Closes the session.
    pub(crate) fn close_session(&mut self) -> (result: Result<(), ModuleError>)
        ensures
            final(self).journal() == old(self).journal().push(Step::SessionClosed { result }),
    {
        let result = self.module.close_session();
        self.journal = Ghost(self.journal@.push(Step::SessionClosed { result }));
        result
    }

    /// Ends the conversation.
    pub(crate) fn end(&mut self)
        ensures
            final(self).journal() == old(self).journal().push(Step::Ended),
    {
        self.module.end();
        self.journal = Ghost(self.journal@.push(Step::Ended));
    }

    /// Has `runner` run the command.
    pub(crate) fn run_command<C: CommandRunner>(&mut self, runner: &mut C) -> (result: Result<
        ExitReason,
        Error,
    >)
        ensures
            final(self).journal() == old(self).journal().push(Step::CommandRun { result }),
    {
        let result = runner.run_command();
        self.journal = Ghost(self.journal@.push(Step::CommandRun { result }));
        result
    }

    /// Has `runner` put the signal dispositions back.
    pub(crate) fn restore_signal_dispositions<C: CommandRunner>(&mut self, runner: &mut C)
        ensures
            final(self).journal() == old(self).journal().push(Step::DispositionsRestored),
    {
        runner.restore_signal_dispositions();
        self.journal = Ghost(self.journal@.push(Step::DispositionsRestored));
    }
}

} // verus!
