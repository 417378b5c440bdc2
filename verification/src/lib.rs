//! Core of a `su`-style privilege-escalation command.
//!
//! The crate holds the decisions of such a tool as verified code: the bounded
//! retry policy of authentication, the order in which a privileged session is
//! opened, used and closed, how the command's fate becomes this process's own,
//! and the terminal-attribute rules (copying settings between terminals, raw
//! mode, and the retry rule of the foreground-aware attribute setter).
//!
//! Everything that touches the outside world (the authentication backend, the
//! command runner, the terminal device) is reached through small capability
//! traits or handed in as plain values, so that each rule is stated and proved
//! over plain data.

pub mod auth;
pub mod error;
pub mod journal;
mod record;
pub mod session;
pub mod term;
