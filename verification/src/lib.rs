//! Execution engine for running command line formatters and linters.
//!
//! The engine decides; it performs nothing itself. A [`ToolExecutor`] starts a
//! run of a tool as an [`Execution`], which asks for one [`Action`] after the
//! other and takes in an [`Event`] for each, until it is finished. Looking up
//! tools is lazy and cached; timeouts, output collection and error reporting
//! are part of the run.

pub mod config;
pub mod error;
pub mod execution;
pub mod executor;
pub mod framing;
pub mod laws;
pub mod output;
pub mod probe;
pub mod protocol;
pub mod text;

pub use crate::config::ToolDefinition;
pub use crate::error::ExecutorError;
pub use crate::execution::Action;
pub use crate::execution::Event;
pub use crate::execution::Execution;
pub use crate::executor::ToolExecutor;
pub use crate::output::ToolOutput;
pub use crate::probe::Availability;
pub use crate::probe::Platform;
