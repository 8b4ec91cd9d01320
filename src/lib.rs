//! Keeps a destination tree (usually a home directory) in step with a
//! dotfiles source tree by symbolic links.
//!
//! The library holds the decisions: how paths are resolved and mapped from
//! the source tree to the destination tree, which entries are visited, what
//! each mode does with one entry given what stands at its destination, when a
//! confirmation lets an action run, and what is logged. The program around it
//! walks the tree and performs the filesystem effects that it is told to.

pub mod config;
pub mod messages;
pub mod paths;
pub mod plan;

pub use config::{is_yes, ConfigError, Configman, Level, Step};
pub use messages::{declined_line, log_line, prompt_message};
pub use paths::{destination_for, expand, join_path, relative_path, should_visit};
pub use plan::{plan, Action, DestState, Mode, SourceKind};
