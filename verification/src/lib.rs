//! A leveled, optionally colorized logging component for a host process.
//!
//! The library owns the decisions of logging: which records pass the level
//! threshold, how a line is rendered, when the log file is rotated and which
//! archive is pruned. Everything that touches the file system or the console
//! is left to the caller, which performs one [`pipeline::Action`] at a time
//! and reports back with an [`pipeline::Event`].

pub mod clock;
pub mod config;
pub mod format;
pub mod level;
pub mod pipeline;
pub mod record;
pub mod rotation;
pub mod text;

pub use config::{initialize, teardown, PluginConfig, RawConfig};
pub use level::{LogLevel, ParseError};
pub use pipeline::{execute, Action, Event, Execution};
pub use record::{ExecutionInput, RawInput};
