//! Command core of a Discord voice bot: per-guild voice sessions, their
//! playback queues, event notifiers, the status-reaction reporter that wraps
//! each command, and the argument rules of the text commands.

pub mod error;
pub mod help;
pub mod text;
pub mod emoji;
pub mod track;
pub mod notifier;
pub mod session;
pub mod reporter;
pub mod music;
pub mod general;
pub mod translate;
pub mod laws;
