//! One run of a tool, as a machine that says what to do next and takes in what
//! came of it.
//!
//! An [`Execution`] performs nothing itself. Its owner carries out the
//! [`Action`] that the execution asks for and reports back with an [`Event`],
//! until the execution is finished.

use vstd::prelude::*;
use vstd::string::*;

use crate::config;
use crate::error::ErrorModel;
use crate::error::ExecutorError;
use crate::framing;
use crate::output;
use crate::output::OutputModel;
use crate::output::ReaderModel;
use crate::output::ReaderOutcome;
use crate::output::ToolOutput;
use crate::probe::Probe;
use crate::probe::ProbeAnswer;
use crate::text;

verus! {

/// How long a running tool is left alone before it is polled again.
pub const POLL_INTERVAL_MS: u64 = 10;

/// Everything that a run of a tool needs to know.
#[derive(Debug)]
pub struct Plan {
    /// Name of the program.
    pub program: String,
    /// Its arguments.
    pub args: Vec<String>,
    /// What it gets on standard input, if it reads from there.
    pub stdin: Option<String>,
    /// Timeout in milliseconds; 0 stands for no timeout.
    pub timeout_ms: u64,
    /// Whether a host runs the program.
    pub hosted: bool,
}

/// The mathematical contents of a [`Plan`].
pub struct PlanModel {
    pub program: Seq<char>,
    pub args: Seq<Seq<char>>,
    pub stdin: Option<Seq<char>>,
    pub timeout_ms: u64,
    pub hosted: bool,
}

impl View for Plan {
    type V = PlanModel;

    open spec fn view(&self) -> PlanModel {
        PlanModel {
            program: self.program@,
            args: text::words_of(self.args@),
            stdin: match self.stdin {
                Some(input) => Some(input@),
                None => None,
            },
            timeout_ms: self.timeout_ms,
            hosted: self.hosted,
        }
    }
}

/// Where a run stands, named after what it waits for.
#[derive(Debug)]
pub enum Step {
    /// The tool is being looked up.
    Probing { probe: Probe },
    /// The process is being spawned.
    Launching,
    /// The input is being written to the process.
    Feeding,
    /// The process is waited for, however long it takes.
    Waiting,
    /// The process is asked whether it has exited.
    Polling,
    /// Time passes until the next poll.
    Sleeping,
    /// The process ran out of time and is being killed.
    Killing,
    /// The killed process is waited for.
    Reaping,
    /// The reader of the killed process's standard output is joined.
    DiscardingStdout,
    /// The reader of the killed process's standard error is joined.
    DiscardingStderr,
    /// The process exited; the reader of its standard output is joined.
    CollectingStdout { code: Option<i32> },
    /// The reader of its standard error is joined.
    CollectingStderr { code: Option<i32>, stdout: String },
    /// The host runs the tool.
    CallingHost,
}

/// The mathematical contents of a [`Step`].
pub enum StepModel {
    Probing { probe: Probe },
    Launching,
    Feeding,
    Waiting,
    Polling,
    Sleeping,
    Killing,
    Reaping,
    DiscardingStdout,
    DiscardingStderr,
    CollectingStdout { code: Option<i32> },
    CollectingStderr { code: Option<i32>, stdout: Seq<char> },
    CallingHost,
}

impl View for Step {
    type V = StepModel;

    open spec fn view(&self) -> StepModel {
        match *self {
            Step::Probing { probe } => StepModel::Probing { probe },
            Step::Launching => StepModel::Launching,
            Step::Feeding => StepModel::Feeding,
            Step::Waiting => StepModel::Waiting,
            Step::Polling => StepModel::Polling,
            Step::Sleeping => StepModel::Sleeping,
            Step::Killing => StepModel::Killing,
            Step::Reaping => StepModel::Reaping,
            Step::DiscardingStdout => StepModel::DiscardingStdout,
            Step::DiscardingStderr => StepModel::DiscardingStderr,
            Step::CollectingStdout { code } => StepModel::CollectingStdout { code },
            Step::CollectingStderr { code, stdout } => StepModel::CollectingStderr {
                code,
                stdout: stdout@,
            },
            Step::CallingHost => StepModel::CallingHost,
        }
    }
}

/// What an execution asks its owner to do.
#[derive(Debug)]
pub enum Action {
    /// Find out whether `tool` exists.
    Probe { probe: Probe, tool: String },
    /// Spawn `program` with `args`, with its standard output and standard error
    /// piped and each read by a thread of its own, and with its standard input
    /// piped if `pipe_stdin` says so.
    Spawn { program: String, args: Vec<String>, pipe_stdin: bool },
    /// Write `input` to the standard input of the process and close it.
    WriteStdin { input: String },
    /// Wait until the process exits.
    Wait,
    /// Ask whether the process has exited.
    Poll,
    /// Let `ms` milliseconds pass.
    Sleep { ms: u64 },
    /// Kill the process.
    Kill,
    /// Wait for the killed process.
    Reap,
    /// Join the thread that reads standard output.
    JoinStdout,
    /// Join the thread that reads standard error.
    JoinStderr,
    /// Have the host run `tool` with the framed arguments and `stdin`.
    CallHost { tool: String, framed_args: Vec<u8>, stdin: String, timeout_ms: u64 },
    /// Nothing is left to do.
    Return,
}

/// The mathematical contents of an [`Action`].
pub enum ActionModel {
    Probe { probe: Probe, tool: Seq<char> },
    Spawn { program: Seq<char>, args: Seq<Seq<char>>, pipe_stdin: bool },
    WriteStdin { input: Seq<char> },
    Wait,
    Poll,
    Sleep { ms: u64 },
    Kill,
    Reap,
    JoinStdout,
    JoinStderr,
    CallHost { tool: Seq<char>, framed_args: Seq<u8>, stdin: Seq<char>, timeout_ms: u64 },
    Return,
}

impl View for Action {
    type V = ActionModel;

    open spec fn view(&self) -> ActionModel {
        match *self {
            Action::Probe { probe, tool } => ActionModel::Probe { probe, tool: tool@ },
            Action::Spawn { program, args, pipe_stdin } => ActionModel::Spawn {
                program: program@,
                args: text::words_of(args@),
                pipe_stdin,
            },
            Action::WriteStdin { input } => ActionModel::WriteStdin { input: input@ },
            Action::Wait => ActionModel::Wait,
            Action::Poll => ActionModel::Poll,
            Action::Sleep { ms } => ActionModel::Sleep { ms },
            Action::Kill => ActionModel::Kill,
            Action::Reap => ActionModel::Reap,
            Action::JoinStdout => ActionModel::JoinStdout,
            Action::JoinStderr => ActionModel::JoinStderr,
            Action::CallHost { tool, framed_args, stdin, timeout_ms } => ActionModel::CallHost {
                tool: tool@,
                framed_args: framed_args@,
                stdin: stdin@,
                timeout_ms,
            },
            Action::Return => ActionModel::Return,
        }
    }
}

/// What came of an action.
#[derive(Debug)]
pub enum Event {
    /// The probe was answered.
    Probed { answer: ProbeAnswer },
    /// The process was spawned.
    Spawned,
    /// The process could not be spawned.
    SpawnFailed { error: String },
    /// All input was written.
    StdinWritten,
    /// The process has no standard input to write to.
    StdinAbsent,
    /// Writing the input failed. A broken pipe means that the process did not
    /// read all of its input.
    StdinFailed { broken_pipe: bool, error: String },
    /// The process exited; its exit code, unless a signal ended it.
    Exited { code: Option<i32> },
    /// The process is still running, `elapsed_ms` whole milliseconds after the
    /// wait for it began.
    StillRunning { elapsed_ms: u128 },
    /// The state of the process could not be determined.
    StatusFailed { error: String },
    /// The time has passed.
    Slept,
    /// Killing was attempted.
    Killed,
    /// Waiting for the killed process was attempted.
    Reaped,
    /// The reader thread was joined.
    Joined { reader: ReaderOutcome },
    /// The host ran the tool.
    HostReturned { exit_code: i32, stdout: String, stderr: String },
}

/// The mathematical contents of an [`Event`].
pub enum EventModel {
    Probed { answer: ProbeAnswer },
    Spawned,
    SpawnFailed { error: Seq<char> },
    StdinWritten,
    StdinAbsent,
    StdinFailed { broken_pipe: bool, error: Seq<char> },
    Exited { code: Option<i32> },
    StillRunning { elapsed_ms: u128 },
    StatusFailed { error: Seq<char> },
    Slept,
    Killed,
    Reaped,
    Joined { reader: ReaderModel },
    HostReturned { exit_code: i32, stdout: Seq<char>, stderr: Seq<char> },
}

impl View for Event {
    type V = EventModel;

    open spec fn view(&self) -> EventModel {
        match *self {
            Event::Probed { answer } => EventModel::Probed { answer },
            Event::Spawned => EventModel::Spawned,
            Event::SpawnFailed { error } => EventModel::SpawnFailed { error: error@ },
            Event::StdinWritten => EventModel::StdinWritten,
            Event::StdinAbsent => EventModel::StdinAbsent,
            Event::StdinFailed { broken_pipe, error } => EventModel::StdinFailed {
                broken_pipe,
                error: error@,
            },
            Event::Exited { code } => EventModel::Exited { code },
            Event::StillRunning { elapsed_ms } => EventModel::StillRunning { elapsed_ms },
            Event::StatusFailed { error } => EventModel::StatusFailed { error: error@ },
            Event::Slept => EventModel::Slept,
            Event::Killed => EventModel::Killed,
            Event::Reaped => EventModel::Reaped,
            Event::Joined { reader } => EventModel::Joined { reader: reader@ },
            Event::HostReturned { exit_code, stdout, stderr } => EventModel::HostReturned {
                exit_code,
                stdout: stdout@,
                stderr: stderr@,
            },
        }
    }
}

/// A run of a tool: still under way, or finished.
#[derive(Debug)]
pub enum Execution {
    /// The run waits for the event that answers its action.
    Pending { plan: Plan, step: Step },
    /// The run is over.
    Finished { result: Result<ToolOutput, ExecutorError> },
}

/// The mathematical contents of an [`Execution`].
pub enum ExecutionModel {
    Pending { plan: PlanModel, step: StepModel },
    Finished { result: Result<OutputModel, ErrorModel> },
}

impl View for Execution {
    type V = ExecutionModel;

    open spec fn view(&self) -> ExecutionModel {
        match *self {
            Execution::Pending { plan, step } => ExecutionModel::Pending {
                plan: plan@,
                step: step@,
            },
            Execution::Finished { result } => ExecutionModel::Finished {
                result: output::outcome_of(result),
            },
        }
    }
}

/// A message about an operation on the process of `tool`.
pub open spec fn process_failure(
    operation: Seq<char>,
    tool: Seq<char>,
    error: Seq<char>,
) -> Seq<char> {
    operation + tool + "': "@ + error
}

/// A run that ended with `error`.
pub open spec fn failed(error: ErrorModel) -> ExecutionModel {
    ExecutionModel::Finished { result: Err(error) }
}

impl PlanModel {
    /// What follows once the tool is known to be available.
    pub open spec fn launch_step(self) -> StepModel {
        if self.hosted {
            StepModel::CallingHost
        } else {
            StepModel::Launching
        }
    }

    /// How the process is waited for: without a timeout, for as long as it
    /// takes.
    pub open spec fn wait_step(self) -> StepModel {
        if self.timeout_ms == 0 {
            StepModel::Waiting
        } else {
            StepModel::Polling
        }
    }

    /// What follows once the process was spawned.
    pub open spec fn spawned_step(self) -> StepModel {
        if self.stdin is Some {
            StepModel::Feeding
        } else {
            self.wait_step()
        }
    }
}

impl ExecutionModel {
    /// The action that the run asks for.
    pub open spec fn next_action(self) -> ActionModel {
        match self {
            ExecutionModel::Finished { .. } => ActionModel::Return,
            ExecutionModel::Pending { plan, step } => match step {
                StepModel::Probing { probe } => ActionModel::Probe { probe, tool: plan.program },
                StepModel::Launching => ActionModel::Spawn {
                    program: plan.program,
                    args: plan.args,
                    pipe_stdin: plan.stdin is Some,
                },
                StepModel::Feeding => ActionModel::WriteStdin {
                    input: match plan.stdin {
                        Some(input) => input,
                        None => seq![],
                    },
                },
                StepModel::Waiting => ActionModel::Wait,
                StepModel::Polling => ActionModel::Poll,
                StepModel::Sleeping => ActionModel::Sleep { ms: POLL_INTERVAL_MS },
                StepModel::Killing => ActionModel::Kill,
                StepModel::Reaping => ActionModel::Reap,
                StepModel::DiscardingStdout => ActionModel::JoinStdout,
                StepModel::DiscardingStderr => ActionModel::JoinStderr,
                StepModel::CollectingStdout { .. } => ActionModel::JoinStdout,
                StepModel::CollectingStderr { .. } => ActionModel::JoinStderr,
                StepModel::CallingHost => ActionModel::CallHost {
                    tool: plan.program,
                    framed_args: framing::frame(framing::encoded(plan.args)),
                    stdin: match plan.stdin {
                        Some(input) => input,
                        None => seq![],
                    },
                    timeout_ms: plan.timeout_ms,
                },
            },
        }
    }

    /// Whether `event` answers the action that the run asks for.
    pub open spec fn expects(self, event: EventModel) -> bool {
        match self.next_action() {
            ActionModel::Probe { .. } => event is Probed,
            ActionModel::Spawn { .. } => event is Spawned || event is SpawnFailed,
            ActionModel::WriteStdin { .. } => event is StdinWritten || event is StdinAbsent
                || event is StdinFailed,
            ActionModel::Wait => event is Exited || event is StatusFailed,
            ActionModel::Poll => event is Exited || event is StillRunning || event is StatusFailed,
            ActionModel::Sleep { .. } => event is Slept,
            ActionModel::Kill => event is Killed,
            ActionModel::Reap => event is Reaped,
            ActionModel::JoinStdout | ActionModel::JoinStderr => event is Joined,
            ActionModel::CallHost { .. } => event is HostReturned,
            ActionModel::Return => false,
        }
    }

    /// The run after `event`. An event that does not answer the pending action
    /// changes nothing.
    pub open spec fn after(self, event: EventModel) -> ExecutionModel {
        match self {
            ExecutionModel::Finished { .. } => self,
            ExecutionModel::Pending { plan, step } => match (step, event) {
                (StepModel::Probing { .. }, EventModel::Probed { answer }) => {
                    if answer.says_found() {
                        ExecutionModel::Pending { plan, step: plan.launch_step() }
                    } else {
                        failed(ErrorModel::ToolNotFound { tool: plan.program })
                    }
                },
                (StepModel::Launching, EventModel::Spawned) => ExecutionModel::Pending {
                    plan,
                    step: plan.spawned_step(),
                },
                (StepModel::Launching, EventModel::SpawnFailed { error }) => failed(
                    ErrorModel::IoError {
                        message: process_failure("Failed to spawn '"@, plan.program, error),
                    },
                ),
                (StepModel::Feeding, EventModel::StdinWritten) => ExecutionModel::Pending {
                    plan,
                    step: plan.wait_step(),
                },
                (StepModel::Feeding, EventModel::StdinAbsent) => ExecutionModel::Pending {
                    plan,
                    step: plan.wait_step(),
                },
                (StepModel::Feeding, EventModel::StdinFailed { broken_pipe, error }) => {
                    if broken_pipe {
                        ExecutionModel::Pending { plan, step: plan.wait_step() }
                    } else {
                        failed(
                            ErrorModel::IoError { message: "Failed to write to stdin: "@ + error },
                        )
                    }
                },
                (StepModel::Waiting, EventModel::Exited { code }) => ExecutionModel::Pending {
                    plan,
                    step: StepModel::CollectingStdout { code },
                },
                (StepModel::Waiting, EventModel::StatusFailed { error }) => failed(
                    ErrorModel::IoError {
                        message: process_failure("Failed to wait for '"@, plan.program, error),
                    },
                ),
                (StepModel::Polling, EventModel::Exited { code }) => ExecutionModel::Pending {
                    plan,
                    step: StepModel::CollectingStdout { code },
                },
                (StepModel::Polling, EventModel::StillRunning { elapsed_ms }) => {
                    ExecutionModel::Pending {
                        plan,
                        step: if elapsed_ms >= plan.timeout_ms {
                            StepModel::Killing
                        } else {
                            StepModel::Sleeping
                        },
                    }
                },
                (StepModel::Polling, EventModel::StatusFailed { error }) => failed(
                    ErrorModel::IoError {
                        message: process_failure("Failed to poll '"@, plan.program, error),
                    },
                ),
                (StepModel::Sleeping, EventModel::Slept) => ExecutionModel::Pending {
                    plan,
                    step: StepModel::Polling,
                },
                (StepModel::Killing, EventModel::Killed) => ExecutionModel::Pending {
                    plan,
                    step: StepModel::Reaping,
                },
                (StepModel::Reaping, EventModel::Reaped) => ExecutionModel::Pending {
                    plan,
                    step: StepModel::DiscardingStdout,
                },
                (StepModel::DiscardingStdout, EventModel::Joined { .. }) => {
                    ExecutionModel::Pending { plan, step: StepModel::DiscardingStderr }
                },
                (StepModel::DiscardingStderr, EventModel::Joined { .. }) => failed(
                    ErrorModel::Timeout { tool: plan.program, timeout_ms: plan.timeout_ms },
                ),
                (StepModel::CollectingStdout { code }, EventModel::Joined { reader }) => {
                    match reader.joined() {
                        Ok(stdout) => ExecutionModel::Pending {
                            plan,
                            step: StepModel::CollectingStderr { code, stdout },
                        },
                        Err(message) => failed(ErrorModel::IoError { message }),
                    }
                },
                (StepModel::CollectingStderr { code, stdout }, EventModel::Joined { reader }) => {
                    match reader.joined() {
                        Ok(stderr) => ExecutionModel::Finished {
                            result: Ok(output::process_output(code, stdout, stderr)),
                        },
                        Err(message) => failed(ErrorModel::IoError { message }),
                    }
                },
                (
                    StepModel::CallingHost,
                    EventModel::HostReturned { exit_code, stdout, stderr },
                ) => ExecutionModel::Finished {
                    result: Ok(output::host_output(exit_code, stdout, stderr)),
                },
                _ => self,
            },
        }
    }

    /// The run after all of `events`, in their order.
    pub open spec fn after_all(self, events: Seq<EventModel>) -> ExecutionModel
        decreases events.len(),
    {
        if events.len() == 0 {
            self
        } else {
            self.after_all(events.drop_last()).after(events.last())
        }
    }
}

fn process_failure_text(operation: &str, tool: &str, error: &str) -> (message: String)
    ensures
        message@ == process_failure(operation@, tool@, error@),
{
    let mut message = operation.to_string();
    message.append(tool);
    message.append("': ");
    message.append(error);
    message
}

impl Plan {
    pub(crate) fn launch(self) -> (execution: Execution)
        ensures
            execution@ == (ExecutionModel::Pending { plan: self@, step: self@.launch_step() }),
    {
        let step = if self.hosted {
            Step::CallingHost
        } else {
            Step::Launching
        };
        Execution::Pending { plan: self, step }
    }

    fn wait(self) -> (execution: Execution)
        ensures
            execution@ == (ExecutionModel::Pending { plan: self@, step: self@.wait_step() }),
    {
        let step = if self.timeout_ms == 0 {
            Step::Waiting
        } else {
            Step::Polling
        };
        Execution::Pending { plan: self, step }
    }

    fn spawned(self) -> (execution: Execution)
        ensures
            execution@ == (ExecutionModel::Pending { plan: self@, step: self@.spawned_step() }),
    {
        if self.stdin.is_some() {
            Execution::Pending { plan: self, step: Step::Feeding }
        } else {
            self.wait()
        }
    }

    fn input(&self) -> (input: String)
        ensures
            input@ == (match self@.stdin {
                Some(input) => input,
                None => seq![],
            }),
    {
        match &self.stdin {
            Some(input) => input.clone(),
            None => {
                let input = String::new();
                assert(input@ =~= seq![]);
                input
            },
        }
    }

    fn copied_args(&self) -> (args: Vec<String>)
        ensures
            text::words_of(args@) == self@.args,
    {
        let mut args: Vec<String> = Vec::new();
        config::append_words(&mut args, &self.args, 0);
        assert(text::words_of(args@) =~= self@.args);
        args
    }
}

fn io_failure(message: String) -> (execution: Execution)
    ensures
        execution@ == failed(ErrorModel::IoError { message: message@ }),
{
    Execution::Finished { result: Err(ExecutorError::IoError { message }) }
}

impl Execution {
    /// The action to carry out next.
    pub fn action(&self) -> (action: Action)
        ensures
            action@ == self@.next_action(),
    {
        match self {
            Execution::Finished { .. } => Action::Return,
            Execution::Pending { plan, step } => match step {
                Step::Probing { probe } => Action::Probe {
                    probe: *probe,
                    tool: plan.program.clone(),
                },
                Step::Launching => Action::Spawn {
                    program: plan.program.clone(),
                    args: plan.copied_args(),
                    pipe_stdin: plan.stdin.is_some(),
                },
                Step::Feeding => Action::WriteStdin { input: plan.input() },
                Step::Waiting => Action::Wait,
                Step::Polling => Action::Poll,
                Step::Sleeping => Action::Sleep { ms: POLL_INTERVAL_MS },
                Step::Killing => Action::Kill,
                Step::Reaping => Action::Reap,
                Step::DiscardingStdout => Action::JoinStdout,
                Step::DiscardingStderr => Action::JoinStderr,
                Step::CollectingStdout { .. } => Action::JoinStdout,
                Step::CollectingStderr { .. } => Action::JoinStderr,
                Step::CallingHost => Action::CallHost {
                    tool: plan.program.clone(),
                    framed_args: framing::frame_args(&plan.args),
                    stdin: plan.input(),
                    timeout_ms: plan.timeout_ms,
                },
            },
        }
    }

    /// The run after `event`. An event that does not answer the pending action
    /// changes nothing.
    pub(crate) fn next(self, event: Event) -> (execution: Execution)
        ensures
            execution@ == self@.after(event@),
    {
        let (plan, step) = match self {
            Execution::Finished { result } => return Execution::Finished { result },
            Execution::Pending { plan, step } => (plan, step),
        };
        match (step, event) {
            (Step::Probing { .. }, Event::Probed { answer }) => {
                if answer.found() {
                    plan.launch()
                } else {
                    Execution::Finished {
                        result: Err(ExecutorError::ToolNotFound { tool: plan.program }),
                    }
                }
            },
            (Step::Launching, Event::Spawned) => plan.spawned(),
            (Step::Launching, Event::SpawnFailed { error }) => io_failure(
                process_failure_text("Failed to spawn '", plan.program.as_str(), error.as_str()),
            ),
            (Step::Feeding, Event::StdinWritten) => plan.wait(),
            (Step::Feeding, Event::StdinAbsent) => plan.wait(),
            (Step::Feeding, Event::StdinFailed { broken_pipe, error }) => {
                // A broken pipe is ignored: the tool may exit before it has read
                // all of its input.
                if broken_pipe {
                    plan.wait()
                } else {
                    let mut message = "Failed to write to stdin: ".to_string();
                    message.append(error.as_str());
                    io_failure(message)
                }
            },
            (Step::Waiting, Event::Exited { code }) => Execution::Pending {
                plan,
                step: Step::CollectingStdout { code },
            },
            (Step::Waiting, Event::StatusFailed { error }) => io_failure(
                process_failure_text(
                    "Failed to wait for '",
                    plan.program.as_str(),
                    error.as_str(),
                ),
            ),
            (Step::Polling, Event::Exited { code }) => Execution::Pending {
                plan,
                step: Step::CollectingStdout { code },
            },
            (Step::Polling, Event::StillRunning { elapsed_ms }) => {
                let step = if elapsed_ms >= plan.timeout_ms as u128 {
                    Step::Killing
                } else {
                    Step::Sleeping
                };
                Execution::Pending { plan, step }
            },
            (Step::Polling, Event::StatusFailed { error }) => io_failure(
                process_failure_text("Failed to poll '", plan.program.as_str(), error.as_str()),
            ),
            (Step::Sleeping, Event::Slept) => Execution::Pending { plan, step: Step::Polling },
            (Step::Killing, Event::Killed) => Execution::Pending { plan, step: Step::Reaping },
            (Step::Reaping, Event::Reaped) => Execution::Pending {
                plan,
                step: Step::DiscardingStdout,
            },
            (Step::DiscardingStdout, Event::Joined { .. }) => Execution::Pending {
                plan,
                step: Step::DiscardingStderr,
            },
            (Step::DiscardingStderr, Event::Joined { .. }) => Execution::Finished {
                result: Err(
                    ExecutorError::Timeout { tool: plan.program, timeout_ms: plan.timeout_ms },
                ),
            },
            (Step::CollectingStdout { code }, Event::Joined { reader }) => {
                match output::join_reader(reader) {
                    Ok(stdout) => Execution::Pending {
                        plan,
                        step: Step::CollectingStderr { code, stdout },
                    },
                    Err(message) => io_failure(message),
                }
            },
            (Step::CollectingStderr { code, stdout }, Event::Joined { reader }) => {
                match output::join_reader(reader) {
                    Ok(stderr) => Execution::Finished {
                        result: Ok(ToolOutput::from_process(code, stdout, stderr)),
                    },
                    Err(message) => io_failure(message),
                }
            },
            (Step::CallingHost, Event::HostReturned { exit_code, stdout, stderr }) => {
                Execution::Finished { result: Ok(ToolOutput::from_host(exit_code, stdout, stderr)) }
            },
            (step, _) => Execution::Pending { plan, step },
        }
    }
}

} // verus!
