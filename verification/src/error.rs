//! What can go wrong when a tool is executed.

use vstd::prelude::*;
use vstd::string::*;

use crate::text;

verus! {

/// Error during tool execution.
#[derive(Debug, Clone)]
pub enum ExecutorError {
    /// Tool binary not found in PATH.
    ToolNotFound { tool: String },
    /// Tool execution failed.
    ExecutionFailed { tool: String, message: String },
    /// Tool execution timed out.
    Timeout { tool: String, timeout_ms: u64 },
    /// I/O error during execution.
    IoError { message: String },
}

/// The mathematical contents of an [`ExecutorError`].
pub enum ErrorModel {
    ToolNotFound { tool: Seq<char> },
    ExecutionFailed { tool: Seq<char>, message: Seq<char> },
    Timeout { tool: Seq<char>, timeout_ms: u64 },
    IoError { message: Seq<char> },
}

impl View for ExecutorError {
    type V = ErrorModel;

    open spec fn view(&self) -> ErrorModel {
        match *self {
            ExecutorError::ToolNotFound { tool } => ErrorModel::ToolNotFound { tool: tool@ },
            ExecutorError::ExecutionFailed { tool, message } => ErrorModel::ExecutionFailed {
                tool: tool@,
                message: message@,
            },
            ExecutorError::Timeout { tool, timeout_ms } => ErrorModel::Timeout {
                tool: tool@,
                timeout_ms,
            },
            ExecutorError::IoError { message } => ErrorModel::IoError { message: message@ },
        }
    }
}

impl ErrorModel {
    /// The error as a sentence.
    pub open spec fn describe(self) -> Seq<char> {
        match self {
            ErrorModel::ToolNotFound { tool } => "Tool '"@ + tool + "' not found in PATH"@,
            ErrorModel::ExecutionFailed { tool, message } => "Tool '"@ + tool + "' failed: "@
                + message,
            ErrorModel::Timeout { tool, timeout_ms } => "Tool '"@ + tool + "' timed out after "@
                + text::decimal(timeout_ms as nat) + "ms"@,
            ErrorModel::IoError { message } => "I/O error: "@ + message,
        }
    }
}

impl ExecutorError {
    /// The error as a sentence for the user.
    pub fn to_string(&self) -> (s: String)
        ensures
            s@ == self@.describe(),
            match *self {
                ExecutorError::ToolNotFound { tool } => s@ == "Tool '"@ + tool@
                    + "' not found in PATH"@,
                ExecutorError::ExecutionFailed { tool, message } => s@ == "Tool '"@ + tool@
                    + "' failed: "@ + message@,
                ExecutorError::Timeout { tool, timeout_ms } => s@ == "Tool '"@ + tool@
                    + "' timed out after "@ + text::decimal(timeout_ms as nat) + "ms"@,
                ExecutorError::IoError { message } => s@ == "I/O error: "@ + message@,
            },
    {
        match self {
            ExecutorError::ToolNotFound { tool } => {
                let mut s = "Tool '".to_string();
                s.append(tool.as_str());
                s.append("' not found in PATH");
                s
            },
            ExecutorError::ExecutionFailed { tool, message } => {
                let mut s = "Tool '".to_string();
                s.append(tool.as_str());
                s.append("' failed: ");
                s.append(message.as_str());
                s
            },
            ExecutorError::Timeout { tool, timeout_ms } => {
                let mut s = "Tool '".to_string();
                s.append(tool.as_str());
                s.append("' timed out after ");
                s.append(text::decimal_u64(*timeout_ms).as_str());
                s.append("ms");
                s
            },
            ExecutorError::IoError { message } => {
                let mut s = "I/O error: ".to_string();
                s.append(message.as_str());
                s
            },
        }
    }
}

} // verus!
