//! What a tool leaves behind: its output, and how the output is read.

use vstd::prelude::*;
use vstd::string::*;
use vstd::utf8::*;

use crate::config::ToolDefinition;
use crate::config::ToolModel;
use crate::error::ErrorModel;
use crate::error::ExecutorError;
use crate::text;

verus! {

/// Result of executing a tool.
#[derive(Debug, Clone)]
pub struct ToolOutput {
    /// Standard output from the tool.
    pub stdout: String,
    /// Standard error from the tool.
    pub stderr: String,
    /// Exit code (0 typically means success).
    pub exit_code: i32,
    /// Whether the tool executed successfully (exit code 0).
    pub success: bool,
}

/// The mathematical contents of a [`ToolOutput`].
pub struct OutputModel {
    pub stdout: Seq<char>,
    pub stderr: Seq<char>,
    pub exit_code: i32,
    pub success: bool,
}

impl View for ToolOutput {
    type V = OutputModel;

    open spec fn view(&self) -> OutputModel {
        OutputModel {
            stdout: self.stdout@,
            stderr: self.stderr@,
            exit_code: self.exit_code,
            success: self.success,
        }
    }
}

/// The mathematical contents of what an execution ends with.
pub open spec fn outcome_of(result: Result<ToolOutput, ExecutorError>) -> Result<
    OutputModel,
    ErrorModel,
> {
    match result {
        Ok(output) => Ok(output@),
        Err(error) => Err(error@),
    }
}

/// The output of a process that exited with `code`; `None` stands for a process
/// that was ended by a signal.
pub open spec fn process_output(
    code: Option<i32>,
    stdout: Seq<char>,
    stderr: Seq<char>,
) -> OutputModel {
    OutputModel {
        stdout,
        stderr,
        exit_code: match code {
            Some(c) => c,
            None => -1i32,
        },
        success: code == Some(0i32),
    }
}

/// The output that a host reports.
pub open spec fn host_output(
    exit_code: i32,
    stdout: Seq<char>,
    stderr: Seq<char>,
) -> OutputModel {
    OutputModel { stdout, stderr, exit_code, success: exit_code == 0 }
}

impl ToolOutput {
    /// The output of a process that exited with `code`. A process without an
    /// exit code (one ended by a signal) counts as failed, with code -1.
    pub fn from_process(code: Option<i32>, stdout: String, stderr: String) -> (output: Self)
        ensures
            output@ == process_output(code, stdout@, stderr@),
            output.stdout@ == stdout@,
            output.stderr@ == stderr@,
            match code {
                Some(c) => output.exit_code == c && output.success == (c == 0),
                None => output.exit_code == -1 && !output.success,
            },
    {
        let (exit_code, success): (i32, bool) = match code {
            Some(c) => (c, c == 0),
            None => (-1, false),
        };
        ToolOutput { stdout, stderr, exit_code, success }
    }

    /// The output that a host reports.
    pub fn from_host(exit_code: i32, stdout: String, stderr: String) -> (output: Self)
        ensures
            output@ == host_output(exit_code, stdout@, stderr@),
            output.stdout@ == stdout@,
            output.stderr@ == stderr@,
            output.exit_code == exit_code,
            output.success == (exit_code == 0),
    {
        ToolOutput { stdout, stderr, exit_code, success: exit_code == 0 }
    }
}

/// Turns what was read from a pipe into text. A read error is passed on.
pub fn read_pipe_to_string(read: Result<Vec<u8>, String>) -> (text: Result<String, String>)
    ensures
        match read {
            Ok(bytes) => text matches Ok(t) && {
                &&& t@ == text::utf8_lossy(bytes@)
                &&& valid_utf8(bytes@) ==> t@ == decode_utf8(bytes@)
                &&& !valid_utf8(bytes@) ==> t@.contains('\u{FFFD}')
                &&& text::keeps_valid_ends(bytes@, t@)
                &&& forall|s: Seq<char>| bytes@ == #[trigger] encode_utf8(s) ==> t@ == s
            },
            Err(error) => text matches Err(e) && e@ == error@,
        },
{
    match read {
        Ok(bytes) => Ok(text::decode_lossy(bytes.as_slice())),
        Err(error) => Err(error),
    }
}

/// Whether the memory range that a host returned holds nothing to read: a null
/// pointer, or no bytes.
pub fn host_range_is_empty(ptr: usize, len: usize) -> (empty: bool)
    ensures
        empty == (ptr == 0 || len == 0),
{
    ptr == 0 || len == 0
}

/// Turns the bytes of a host's memory range into text; an empty range is the
/// empty text.
pub fn read_host_string(bytes: &[u8]) -> (text: String)
    ensures
        text@ == text::utf8_lossy(bytes@),
        bytes@.len() == 0 ==> text@ == Seq::<char>::empty(),
        valid_utf8(bytes@) ==> text@ == decode_utf8(bytes@),
        !valid_utf8(bytes@) ==> text@.contains('\u{FFFD}'),
        text::keeps_valid_ends(bytes@, text@),
        forall|s: Seq<char>| bytes@ == #[trigger] encode_utf8(s) ==> text@ == s,
{
    let text = text::decode_lossy(bytes);
    if bytes.len() == 0 {
        assert(decode_utf8(bytes@) =~= Seq::<char>::empty());
    }
    text
}

/// How the thread that reads one of the tool's pipes ended.
#[derive(Debug)]
pub enum ReaderOutcome {
    /// There was no such thread.
    Absent,
    /// The thread panicked.
    Panicked,
    /// Reading the pipe failed.
    Failed { error: String },
    /// The pipe was read to its end.
    Text { text: String },
}

/// The mathematical contents of a [`ReaderOutcome`].
pub enum ReaderModel {
    Absent,
    Panicked,
    Failed { error: Seq<char> },
    Text { text: Seq<char> },
}

impl View for ReaderOutcome {
    type V = ReaderModel;

    open spec fn view(&self) -> ReaderModel {
        match *self {
            ReaderOutcome::Absent => ReaderModel::Absent,
            ReaderOutcome::Panicked => ReaderModel::Panicked,
            ReaderOutcome::Failed { error } => ReaderModel::Failed { error: error@ },
            ReaderOutcome::Text { text } => ReaderModel::Text { text: text@ },
        }
    }
}

impl ReaderModel {
    /// The text that was read, or the message that says why there is none.
    pub open spec fn joined(self) -> Result<Seq<char>, Seq<char>> {
        match self {
            ReaderModel::Absent => Ok(seq![]),
            ReaderModel::Panicked => Err("Output reader thread panicked"@),
            ReaderModel::Failed { error } => Err("Failed to read output: "@ + error),
            ReaderModel::Text { text } => Ok(text),
        }
    }
}

/// The text that a reader thread collected. Without a thread there is no text
/// and no error.
pub fn join_reader(reader: ReaderOutcome) -> (joined: Result<String, String>)
    ensures
        match joined {
            Ok(text) => reader@.joined() == Ok::<Seq<char>, Seq<char>>(text@),
            Err(message) => reader@.joined() == Err::<Seq<char>, Seq<char>>(message@),
        },
        match reader {
            ReaderOutcome::Absent => joined matches Ok(t) && t@.len() == 0,
            ReaderOutcome::Panicked => joined matches Err(m) && m@
                == "Output reader thread panicked"@,
            ReaderOutcome::Failed { error } => joined matches Err(m) && m@
                == "Failed to read output: "@ + error@,
            ReaderOutcome::Text { text } => joined matches Ok(t) && t@ == text@,
        },
{
    match reader {
        ReaderOutcome::Absent => {
            let text = String::new();
            assert(text@ =~= seq![]);
            Ok(text)
        },
        ReaderOutcome::Panicked => Err("Output reader thread panicked".to_string()),
        ReaderOutcome::Failed { error } => {
            let mut message = "Failed to read output: ".to_string();
            message.append(error.as_str());
            Err(message)
        },
        ReaderOutcome::Text { text } => Ok(text),
    }
}

/// The formatted text that an execution in format mode yields.
pub open spec fn formatted(
    tool: ToolModel,
    executed: Result<OutputModel, ErrorModel>,
) -> Result<Seq<char>, ErrorModel> {
    match executed {
        Err(error) => Err(error),
        Ok(output) => if !output.success {
            Err(
                ErrorModel::ExecutionFailed {
                    tool: tool.name(),
                    message: "Exit code "@ + text::decimal_int(output.exit_code as int) + ": "@
                        + output.stderr,
                },
            )
        } else if !tool.stdout {
            Err(
                ErrorModel::ExecutionFailed {
                    tool: tool.name(),
                    message: "Formatter doesn't output to stdout"@,
                },
            )
        } else {
            Ok(output.stdout)
        },
    }
}

/// The formatted text that an execution in format mode yields: the standard
/// output of a tool that succeeded and writes its result there.
pub fn formatted_text(
    tool_def: &ToolDefinition,
    executed: Result<ToolOutput, ExecutorError>,
) -> (text: Result<String, ExecutorError>)
    ensures
        match text {
            Ok(t) => formatted(tool_def@, outcome_of(executed)) == Ok::<Seq<char>, ErrorModel>(t@),
            Err(e) => formatted(tool_def@, outcome_of(executed)) == Err::<Seq<char>, ErrorModel>(
                e@,
            ),
        },
        executed matches Err(error) ==> text matches Err(e) && e@ == error@,
        executed matches Ok(o) ==> {
            &&& text is Ok <==> o.success && tool_def.stdout
            &&& text matches Ok(t) ==> t@ == o.stdout@
            &&& text matches Err(e) ==> e matches ExecutorError::ExecutionFailed { tool, message }
                && {
                &&& tool_def.command@.len() > 0 ==> tool@ == tool_def.command@[0]@
                &&& tool_def.command@.len() == 0 ==> tool@.len() == 0
                &&& o.success ==> message@ == "Formatter doesn't output to stdout"@
                &&& !o.success ==> message@ == "Exit code "@ + text::decimal_int(
                    o.exit_code as int,
                ) + ": "@ + o.stderr@
            }
        },
{
    match executed {
        Err(error) => Err(error),
        Ok(output) => if output.success && tool_def.stdout {
            Ok(output.stdout)
        } else if !output.success {
            let mut message = "Exit code ".to_string();
            message.append(text::decimal_i32(output.exit_code).as_str());
            message.append(": ");
            message.append(output.stderr.as_str());
            Err(ExecutorError::ExecutionFailed { tool: tool_def.name(), message })
        } else {
            // Unusual for a formatter: there is no text to return.
            Err(
                ExecutorError::ExecutionFailed {
                    tool: tool_def.name(),
                    message: "Formatter doesn't output to stdout".to_string(),
                },
            )
        },
    }
}

} // verus!
