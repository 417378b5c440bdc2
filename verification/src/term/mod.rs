//! Terminal state: attributes, the copy rule, raw mode and the
//! foreground-aware attribute setter.

pub mod attributes;
pub mod control;
pub mod flags;
mod record;
pub mod setter;
