//! The protocol of a run in plain terms: for each action, what the tool is given
//! and what comes next for each answer. The statements speak of the request, the
//! actions, the events and the fields of the result.

use vstd::prelude::*;
use vstd::utf8::*;

use crate::config::ToolDefinition;
use crate::config::ToolModel;
use crate::error::ErrorModel;
use crate::error::ExecutorError;
use crate::execution::Action;
use crate::execution::ActionModel;
use crate::execution::Event;
use crate::execution::EventModel;
use crate::execution::Execution;
use crate::execution::ExecutionModel;
use crate::execution::Step;
use crate::execution::StepModel;
use crate::executor::ExecutorModel;
use crate::framing;
use crate::laws;
use crate::laws::Request;
use crate::output;
use crate::output::OutputModel;
use crate::output::ReaderModel;
use crate::output::ReaderOutcome;
use crate::output::ToolOutput;
use crate::probe::Availability;
use crate::probe::Platform;
use crate::probe::Probe;
use crate::probe::ProbeAnswer;

verus! {

impl Request {
    /// The arguments of the command, and after them those of the mode.
    pub open spec fn words(self) -> Seq<Seq<char>> {
        self.tool.command.subrange(1, self.tool.command.len() as int) + if self.is_format_mode {
            self.tool.format_args
        } else {
            self.tool.lint_args
        }
    }

    /// The timeout that was asked for, or else the default of the executor.
    pub open spec fn timeout(self, executor: ExecutorModel) -> u64 {
        if self.timeout_ms is Some {
            self.timeout_ms->0
        } else {
            executor.default_timeout_ms
        }
    }
}

/// Whether the run is over, with this error.
pub open spec fn ended_with(run: ExecutionModel, error: ErrorModel) -> bool {
    run matches ExecutionModel::Finished { result } && result matches Err(e) && e == error
}

/// Whether the run is over with an output of these fields.
pub open spec fn ended_with_output(
    run: ExecutionModel,
    stdout: Seq<char>,
    stderr: Seq<char>,
    exit_code: int,
    success: bool,
) -> bool {
    run matches ExecutionModel::Finished { result } && result matches Ok(o) && {
        &&& o.stdout == stdout
        &&& o.stderr == stderr
        &&& o.exit_code == exit_code
        &&& o.success == success
    }
}

/// Whether the run asks for the process to be waited for: with a timeout of 0
/// until it exits, and else by polling.
pub open spec fn asks_to_wait(run: ExecutionModel, timeout_ms: u64) -> bool {
    if timeout_ms == 0 {
        run.next_action() is Wait
    } else {
        run.next_action() is Poll
    }
}

/// Whether the run asks for the tool of `request` to be started: as a process
/// with its command line and its standard input piped if it reads from there, or
/// by the host, with the input if it reads standard input.
pub open spec fn asks_for_the_tool(
    run: ExecutionModel,
    executor: ExecutorModel,
    request: Request,
) -> bool {
    if request.platform == Platform::Wasi {
        run.next_action() matches ActionModel::CallHost {
            tool,
            framed_args,
            stdin,
            timeout_ms,
        } && {
            &&& tool == request.tool.command[0]
            &&& framed_args == framing::frame(
                Seq::new(request.words().len(), |i: int| encode_utf8(request.words()[i])),
            )
            &&& request.tool.stdin ==> stdin == request.input
            &&& !request.tool.stdin ==> stdin.len() == 0
            &&& timeout_ms == request.timeout(executor)
        }
    } else {
        run.next_action() matches ActionModel::Spawn { program, args, pipe_stdin } && {
            &&& program == request.tool.command[0]
            &&& args == request.words()
            &&& pipe_stdin == request.tool.stdin
        }
    }
}

/// Every pending run carries its request: the command line, the input for a tool
/// that reads it, and the timeout that was asked for or else the default.
pub proof fn plans_carry_the_request(
    executor: ExecutorModel,
    request: Request,
    events: Seq<EventModel>,
)
    ensures
        request.run(executor, events) matches ExecutionModel::Pending { plan, step } ==> {
            &&& request.tool.command.len() > 0
            &&& plan.program == request.tool.command[0]
            &&& plan.args == request.words()
            &&& request.tool.stdin ==> plan.stdin == Some(request.input)
            &&& !request.tool.stdin ==> plan.stdin is None
            &&& request.timeout_ms matches Some(ms) ==> plan.timeout_ms == ms
            &&& request.timeout_ms is None ==> plan.timeout_ms == executor.default_timeout_ms
            &&& plan.hosted == (request.platform == Platform::Wasi)
        },
{
    laws::runs_keep_to_their_plan(executor, request, events);
    if request.tool.command.len() > 0 {
        assert(request.tool.command.skip(1) =~= request.tool.command.subrange(
            1,
            request.tool.command.len() as int,
        ));
    }
}

/// Without a command the run is over at once, with the error that says so, and
/// stays so whatever is reported.
pub proof fn no_command_is_an_error(
    executor: ExecutorModel,
    request: Request,
    events: Seq<EventModel>,
)
    requires
        request.tool.command.len() == 0,
    ensures
        ended_with(
            request.run(executor, events),
            ErrorModel::ExecutionFailed { tool: "unknown"@, message: "Empty command"@ },
        ),
{
    laws::empty_commands_fail(executor, request, events);
}

/// A run of a tool that is in the cache goes by the cache: an available tool is
/// started, another one is not found.
pub proof fn cached_tools_start_or_are_not_found(executor: ExecutorModel, request: Request)
    requires
        request.tool.command.len() > 0,
        executor.cache.contains_key(request.tool.command[0]),
    ensures
        executor.cache[request.tool.command[0]] ==> asks_for_the_tool(
            request.begun(executor),
            executor,
            request,
        ),
        !executor.cache[request.tool.command[0]] ==> ended_with(
            request.begun(executor),
            ErrorModel::ToolNotFound { tool: request.tool.command[0] },
        ),
{
    plans_carry_the_request(executor, request, seq![]);
    assert(framing::encoded(request.words()) =~= Seq::new(
        request.words().len(),
        |i: int| encode_utf8(request.words()[i]),
    ));
}

/// A run of a tool that is not in the cache first has it located: with `which` on
/// Unix, with `where` on Windows, by the host in a WASI guest. Elsewhere, and for
/// the empty name in a WASI guest, the tool is not found.
pub proof fn other_tools_are_located_first(executor: ExecutorModel, request: Request)
    requires
        request.tool.command.len() > 0,
        !executor.cache.contains_key(request.tool.command[0]),
    ensures
        ({
            let run = request.begun(executor);
            let tool = request.tool.command[0];
            match request.platform {
                Platform::Unix => run.next_action() == (ActionModel::Probe {
                    probe: Probe::Which,
                    tool,
                }),
                Platform::Windows => run.next_action() == (ActionModel::Probe {
                    probe: Probe::Where,
                    tool,
                }),
                Platform::Wasi => if tool.len() > 0 {
                    run.next_action() == (ActionModel::Probe { probe: Probe::Host, tool })
                } else {
                    ended_with(run, ErrorModel::ToolNotFound { tool })
                },
                Platform::Other => ended_with(run, ErrorModel::ToolNotFound { tool }),
            }
        }),
{
}

/// A tool is found if the locating program exits with code 0, or if the host
/// answers with anything but 0; not if the locating program fails, is ended by a
/// signal or cannot be run.
pub proof fn answers_mean_what_the_locator_says(answer: ProbeAnswer)
    ensures
        answer matches ProbeAnswer::LocatorExited { code: Some(c) } ==> answer.says_found() == (c
            == 0),
        answer matches ProbeAnswer::LocatorExited { code: None } ==> !answer.says_found(),
        answer is LocatorFailed ==> !answer.says_found(),
        answer matches ProbeAnswer::Host { answer: a } ==> answer.says_found() == (a != 0),
{
}

/// A tool that the probe finds is started; one that it does not find is reported
/// as not found, under its name.
pub proof fn probes_decide(
    executor: ExecutorModel,
    request: Request,
    events: Seq<EventModel>,
    answer: ProbeAnswer,
)
    requires
        request.run(executor, events).next_action() is Probe,
    ensures
        ({
            let run = request.run(executor, events);
            let next = run.after(EventModel::Probed { answer });
            let found = match answer {
                ProbeAnswer::LocatorExited { code } => code == Some(0i32),
                ProbeAnswer::LocatorFailed => false,
                ProbeAnswer::Host { answer } => answer != 0,
            };
            &&& run.next_action()->Probe_tool == request.tool.command[0]
            &&& found ==> asks_for_the_tool(next, executor, request)
            &&& !found ==> ended_with(
                next,
                ErrorModel::ToolNotFound { tool: request.tool.command[0] },
            )
        }),
{
    plans_carry_the_request(executor, request, events);
    assert(framing::encoded(request.words()) =~= Seq::new(
        request.words().len(),
        |i: int| encode_utf8(request.words()[i]),
    ));
}

/// Whenever a run asks for a tool to be started, it is the tool of its request,
/// with the command line and the input of the request.
pub proof fn the_requested_tool_is_started(
    executor: ExecutorModel,
    request: Request,
    events: Seq<EventModel>,
)
    requires
        laws::asks_to_start(request.run(executor, events)),
    ensures
        asks_for_the_tool(request.run(executor, events), executor, request),
    decreases events.len(),
{
    plans_carry_the_request(executor, request, events);
    assert(framing::encoded(request.words()) =~= Seq::new(
        request.words().len(),
        |i: int| encode_utf8(request.words()[i]),
    ));
    if events.len() > 0 {
        let before = request.run(executor, events.drop_last());
        plans_carry_the_request(executor, request, events.drop_last());
        if laws::asks_to_start(before) {
            the_requested_tool_is_started(executor, request, events.drop_last());
        }
    }
}

/// A spawned process that reads standard input is given the input of the request,
/// whole and unchanged, whatever its arguments; any other one is waited for. A
/// failure to spawn is reported with the name of the tool and the reason.
pub proof fn spawned_processes_get_their_input(
    executor: ExecutorModel,
    request: Request,
    events: Seq<EventModel>,
    error: Seq<char>,
)
    requires
        request.run(executor, events).next_action() is Spawn,
    ensures
        ({
            let run = request.run(executor, events);
            let next = run.after(EventModel::Spawned);
            &&& request.tool.stdin ==> next.next_action() == (ActionModel::WriteStdin {
                input: request.input,
            })
            &&& !request.tool.stdin ==> asks_to_wait(next, request.timeout(executor))
            &&& ended_with(
                run.after(EventModel::SpawnFailed { error }),
                ErrorModel::IoError {
                    message: "Failed to spawn '"@ + request.tool.command[0] + "': "@ + error,
                },
            )
        }),
{
    plans_carry_the_request(executor, request, events);
}

/// A process that got its input is waited for, also if it has no standard input
/// or stopped reading from it. Any other failure to write ends the run and is
/// reported with its reason.
pub proof fn fed_processes_are_waited_for(
    executor: ExecutorModel,
    request: Request,
    events: Seq<EventModel>,
    error: Seq<char>,
)
    requires
        request.run(executor, events).next_action() is WriteStdin,
    ensures
        ({
            let run = request.run(executor, events);
            let ms = request.timeout(executor);
            &&& run.next_action() == (ActionModel::WriteStdin { input: request.input })
            &&& asks_to_wait(run.after(EventModel::StdinWritten), ms)
            &&& asks_to_wait(run.after(EventModel::StdinAbsent), ms)
            &&& asks_to_wait(
                run.after(EventModel::StdinFailed { broken_pipe: true, error }),
                ms,
            )
            &&& ended_with(
                run.after(EventModel::StdinFailed { broken_pipe: false, error }),
                ErrorModel::IoError { message: "Failed to write to stdin: "@ + error },
            )
        }),
{
    plans_carry_the_request(executor, request, events);
    laws::processes_get_the_command_line_and_the_input(executor, request, events);
}

/// A process is waited for without limit exactly if the timeout in force is 0.
pub proof fn waiting_goes_by_the_timeout(
    executor: ExecutorModel,
    request: Request,
    events: Seq<EventModel>,
)
    ensures
        match request.run(executor, events).next_action() {
            ActionModel::Wait => request.timeout(executor) == 0,
            ActionModel::Poll => request.timeout(executor) != 0,
            ActionModel::Sleep { .. } => request.timeout(executor) != 0,
            ActionModel::Kill => request.timeout(executor) != 0,
            ActionModel::Reap => request.timeout(executor) != 0,
            _ => true,
        },
    decreases events.len(),
{
    plans_carry_the_request(executor, request, events);
    if events.len() > 0 {
        plans_carry_the_request(executor, request, events.drop_last());
        waiting_goes_by_the_timeout(executor, request, events.drop_last());
    }
}

/// A polled process that still runs is killed exactly if the timeout has elapsed:
/// the one asked for, however it compares with the default, and the default only
/// where none was asked for. Before that, ten milliseconds pass and it is polled
/// again.
pub proof fn processes_are_killed_at_their_timeout(
    executor: ExecutorModel,
    request: Request,
    events: Seq<EventModel>,
    elapsed_ms: u128,
    ms: u64,
)
    requires
        request.run(executor, events).next_action() is Poll,
        request.timeout_ms == Some(ms) || (request.timeout_ms is None
            && executor.default_timeout_ms == ms),
    ensures
        ({
            let next = request.run(executor, events).after(
                EventModel::StillRunning { elapsed_ms },
            );
            &&& (next.next_action() is Kill) <==> elapsed_ms >= ms
            &&& elapsed_ms < ms ==> next.next_action() == (ActionModel::Sleep { ms: 10 })
                && next.after(EventModel::Slept).next_action() is Poll
        }),
{
    plans_carry_the_request(executor, request, events);
}

/// After every pause the process is polled again.
pub proof fn pauses_end_with_a_poll(
    executor: ExecutorModel,
    request: Request,
    events: Seq<EventModel>,
)
    requires
        request.run(executor, events).next_action() is Sleep,
    ensures
        request.run(executor, events).next_action() == (ActionModel::Sleep { ms: 10 }),
        request.run(executor, events).after(EventModel::Slept).next_action() is Poll,
{
}

/// A killed process is waited for, both readers are joined, whatever they bring,
/// and the run ends with a timeout that names the tool and the timeout in force.
pub proof fn killed_processes_time_out(
    executor: ExecutorModel,
    request: Request,
    events: Seq<EventModel>,
    stdout: ReaderModel,
    stderr: ReaderModel,
    ms: u64,
)
    requires
        request.run(executor, events).next_action() is Kill,
        request.timeout_ms == Some(ms) || (request.timeout_ms is None
            && executor.default_timeout_ms == ms),
    ensures
        ({
            let killed = request.run(executor, events).after(EventModel::Killed);
            let reaped = killed.after(EventModel::Reaped);
            let joined = reaped.after(EventModel::Joined { reader: stdout });
            let over = joined.after(EventModel::Joined { reader: stderr });
            &&& killed.next_action() is Reap
            &&& reaped.next_action() is JoinStdout
            &&& joined.next_action() is JoinStderr
            &&& ended_with(
                over,
                ErrorModel::Timeout { tool: request.tool.command[0], timeout_ms: ms },
            )
        }),
{
    plans_carry_the_request(executor, request, events);
}

/// If the state of a process cannot be determined, the run ends with an error
/// that says what was attempted, on which tool, and why it failed.
pub proof fn status_failures_are_reported(
    executor: ExecutorModel,
    request: Request,
    events: Seq<EventModel>,
    error: Seq<char>,
)
    ensures
        ({
            let run = request.run(executor, events);
            let next = run.after(EventModel::StatusFailed { error });
            let tool = request.tool.command[0];
            &&& run.next_action() is Wait ==> ended_with(
                next,
                ErrorModel::IoError { message: "Failed to wait for '"@ + tool + "': "@ + error },
            )
            &&& run.next_action() is Poll ==> ended_with(
                next,
                ErrorModel::IoError { message: "Failed to poll '"@ + tool + "': "@ + error },
            )
        }),
{
    plans_carry_the_request(executor, request, events);
}

/// Whether joining `reader` brings `text`: the reader collected exactly that text,
/// or there was no reader and the text is empty.
pub open spec fn brings(reader: ReaderModel, text: Seq<char>) -> bool {
    ||| reader == (ReaderModel::Text { text })
    ||| reader is Absent && text.len() == 0
}

/// A process that exits has both its readers joined, and the output is what the
/// readers collected, to the last character: standard output as standard output,
/// standard error as standard error. The exit code is the one that the process
/// exited with, or -1 if a signal ended it, and the run succeeded exactly if the
/// process exited with code 0, whatever it wrote.
pub proof fn exited_processes_yield_all_they_wrote(
    executor: ExecutorModel,
    request: Request,
    events: Seq<EventModel>,
    code: Option<i32>,
    stdout: ReaderModel,
    out: Seq<char>,
    stderr: ReaderModel,
    err: Seq<char>,
)
    requires
        request.run(executor, events).next_action() is Wait || request.run(
            executor,
            events,
        ).next_action() is Poll,
        brings(stdout, out),
        brings(stderr, err),
    ensures
        ({
            let exited = request.run(executor, events).after(EventModel::Exited { code });
            let joined = exited.after(EventModel::Joined { reader: stdout });
            let over = joined.after(EventModel::Joined { reader: stderr });
            &&& exited.next_action() is JoinStdout
            &&& joined.next_action() is JoinStderr
            &&& over.next_action() is Return
            &&& code matches Some(c) ==> ended_with_output(over, out, err, c as int, c == 0)
            &&& code is None ==> ended_with_output(over, out, err, -1, false)
        }),
{
    if stdout is Absent {
        assert(out =~= seq![]);
    }
    if stderr is Absent {
        assert(err =~= seq![]);
    }
}

/// A reader that panicked or failed to read ends the run with an error that says
/// so: that of standard output at once, that of standard error when it is joined.
pub proof fn failed_readers_are_reported(
    executor: ExecutorModel,
    request: Request,
    events: Seq<EventModel>,
    code: Option<i32>,
    good: ReaderModel,
    text: Seq<char>,
    error: Seq<char>,
)
    requires
        request.run(executor, events).next_action() is Wait || request.run(
            executor,
            events,
        ).next_action() is Poll,
        brings(good, text),
    ensures
        ({
            let panicked = EventModel::Joined { reader: ReaderModel::Panicked };
            let unread = EventModel::Joined { reader: ReaderModel::Failed { error } };
            let panic = ErrorModel::IoError { message: "Output reader thread panicked"@ };
            let failure = ErrorModel::IoError { message: "Failed to read output: "@ + error };
            let exited = request.run(executor, events).after(EventModel::Exited { code });
            let joined = exited.after(EventModel::Joined { reader: good });
            &&& ended_with(exited.after(panicked), panic)
            &&& ended_with(exited.after(unread), failure)
            &&& ended_with(joined.after(panicked), panic)
            &&& ended_with(joined.after(unread), failure)
        }),
{
}

/// A hosted run yields what the host reports, field by field, and succeeded
/// exactly if the reported exit code is 0.
pub proof fn hosted_tools_yield_what_the_host_reports(
    executor: ExecutorModel,
    request: Request,
    events: Seq<EventModel>,
    exit_code: i32,
    stdout: Seq<char>,
    stderr: Seq<char>,
)
    requires
        request.run(executor, events).next_action() is CallHost,
    ensures
        ended_with_output(
            request.run(executor, events).after(
                EventModel::HostReturned { exit_code, stdout, stderr },
            ),
            stdout,
            stderr,
            exit_code as int,
            exit_code == 0,
        ),
{
}

/// Formatting yields, to the last character, what a formatter wrote to standard
/// output if it exited with code 0 and writes its result there. With any other
/// exit code it fails, with the code and all of standard error in the message;
/// so it does for a tool that does not write to standard output.
pub proof fn formatting_yields_what_was_written(
    executor: ExecutorModel,
    request: Request,
    events: Seq<EventModel>,
    code: i32,
    out: Seq<char>,
    err: Seq<char>,
)
    requires
        request.run(executor, events).next_action() is Wait || request.run(
            executor,
            events,
        ).next_action() is Poll || request.run(executor, events).next_action() is CallHost,
    ensures
        ({
            let run = request.run(executor, events);
            let over = if run.next_action() is CallHost {
                run.after(EventModel::HostReturned { exit_code: code, stdout: out, stderr: err })
            } else {
                run.after(EventModel::Exited { code: Some(code) }).after(
                    EventModel::Joined { reader: ReaderModel::Text { text: out } },
                ).after(EventModel::Joined { reader: ReaderModel::Text { text: err } })
            };
            let text = output::formatted(request.tool, over->result);
            let tool = request.tool.command[0];
            &&& over is Finished
            &&& code == 0 && request.tool.stdout ==> text == Ok::<Seq<char>, ErrorModel>(out)
            &&& code != 0 ==> text == Err::<Seq<char>, ErrorModel>(
                ErrorModel::ExecutionFailed {
                    tool,
                    message: "Exit code "@ + crate::text::decimal_int(code as int) + ": "@ + err,
                },
            )
            &&& code == 0 && !request.tool.stdout ==> text == Err::<Seq<char>, ErrorModel>(
                ErrorModel::ExecutionFailed {
                    tool,
                    message: "Formatter doesn't output to stdout"@,
                },
            )
        }),
{
    plans_carry_the_request(executor, request, events);
}

/// An error of the run is the error of formatting, unchanged.
pub proof fn formatting_passes_errors_on(
    executor: ExecutorModel,
    request: Request,
    events: Seq<EventModel>,
    error: ErrorModel,
)
    requires
        ended_with(request.run(executor, events), error),
    ensures
        output::formatted(request.tool, request.run(executor, events)->result) == Err::<
            Seq<char>,
            ErrorModel,
        >(error),
{
}

/// Availability is what the cache says. Where it says nothing, Unix, Windows and
/// WASI need a probe of their own kind, except for the empty name in a WASI guest,
/// which is unavailable, as is every tool elsewhere.
pub proof fn availability_goes_by_cache_and_platform(
    executor: ExecutorModel,
    name: Seq<char>,
    platform: Platform,
)
    ensures
        executor.cache.contains_key(name) ==> executor.lookup(name, platform) == (
        Availability::Known { available: executor.cache[name] }),
        !executor.cache.contains_key(name) ==> match executor.lookup(name, platform) {
            Availability::Known { available } => !available && (platform == Platform::Other || (
            platform == Platform::Wasi && name.len() == 0)),
            Availability::Unknown { probe } => match platform {
                Platform::Unix => probe == Probe::Which,
                Platform::Windows => probe == Probe::Where,
                Platform::Wasi => probe == Probe::Host && name.len() > 0,
                Platform::Other => false,
            },
        },
{
}

/// Looking a tool up, or beginning its run, changes the cache only where the
/// platform rules the tool out: this is remembered. The default timeout stays.
pub proof fn lookups_remember_what_the_platform_rules_out(
    executor: ExecutorModel,
    request: Request,
    name: Seq<char>,
    platform: Platform,
)
    ensures
        ({
            let after = executor.having_looked_up(name, platform);
            let ruled_out = platform == Platform::Other || (platform == Platform::Wasi && name.len()
                == 0);
            &&& after.default_timeout_ms == executor.default_timeout_ms
            &&& ruled_out && !executor.cache.contains_key(name) ==> after.cache
                == executor.cache.insert(name, false)
            &&& !ruled_out || executor.cache.contains_key(name) ==> after.cache == executor.cache
        }),
        request.tool.command.len() > 0 ==> executor.having_begun(request.tool, request.platform)
            == executor.having_looked_up(request.tool.command[0], request.platform),
        request.tool.command.len() == 0 ==> executor.having_begun(request.tool, request.platform)
            == executor,
{
    if executor.cache.contains_key(name) {
        assert(executor.cache.insert(name, executor.cache[name]) =~= executor.cache);
    }
}

/// The answer to a probe is remembered for the tool that was probed, and for no
/// other one; nothing else that is reported changes the executor.
pub proof fn only_probe_answers_are_remembered(
    executor: ExecutorModel,
    informed: ExecutorModel,
    request: Request,
    events: Seq<EventModel>,
    event: EventModel,
)
    ensures
        ({
            let run = request.run(executor, events);
            let after = informed.having_learned(run, event);
            &&& after.default_timeout_ms == informed.default_timeout_ms
            &&& run.next_action() is Probe && event is Probed ==> after.cache
                == informed.cache.insert(
                request.tool.command[0],
                match event->Probed_answer {
                    ProbeAnswer::LocatorExited { code } => code == Some(0i32),
                    ProbeAnswer::LocatorFailed => false,
                    ProbeAnswer::Host { answer } => answer != 0,
                },
            )
            &&& !(run.next_action() is Probe && event is Probed) ==> after == informed
        }),
{
    plans_carry_the_request(executor, request, events);
}

/// An error is told in full: what happened, to which tool, and the message or the
/// timeout that it carries.
pub proof fn errors_are_told_in_full(tool: Seq<char>, message: Seq<char>, timeout_ms: u64)
    ensures
        (ErrorModel::ToolNotFound { tool }).describe() == "Tool '"@ + tool
            + "' not found in PATH"@,
        (ErrorModel::ExecutionFailed { tool, message }).describe() == "Tool '"@ + tool
            + "' failed: "@ + message,
        (ErrorModel::Timeout { tool, timeout_ms }).describe() == "Tool '"@ + tool
            + "' timed out after "@ + crate::text::decimal(timeout_ms as nat) + "ms"@,
        (ErrorModel::IoError { message }).describe() == "I/O error: "@ + message,
{
}

/// A new executor has the timeout that it was given and knows of no tool.
pub proof fn new_executors_know_nothing(default_timeout_ms: u64, name: Seq<char>)
    ensures
        ExecutorModel::fresh(default_timeout_ms).default_timeout_ms == default_timeout_ms,
        !ExecutorModel::fresh(default_timeout_ms).cache.contains_key(name),
{
}

/// What is recorded of a tool replaces what was known of it and of no other one.
pub proof fn records_concern_one_tool(
    executor: ExecutorModel,
    name: Seq<char>,
    available: bool,
    other: Seq<char>,
)
    ensures
        ({
            let after = executor.knowing(name, available);
            &&& after.default_timeout_ms == executor.default_timeout_ms
            &&& after.cache.contains_key(name) && after.cache[name] == available
            &&& other != name ==> {
                &&& after.cache.contains_key(other) == executor.cache.contains_key(other)
                &&& executor.cache.contains_key(other) ==> after.cache[other]
                    == executor.cache[other]
            }
        }),
{
}

/// Formatting fails for every run that failed or did not succeed, names the tool
/// by the first word of its command, if it has one, and otherwise yields standard
/// output.
pub proof fn formatting_goes_by_success_and_stdout(
    tool: ToolModel,
    output: OutputModel,
    error: ErrorModel,
)
    ensures
        output::formatted(tool, Err(error)) == Err::<Seq<char>, ErrorModel>(error),
        match output::formatted(tool, Ok(output)) {
            Ok(text) => output.success && tool.stdout && text == output.stdout,
            Err(e) => !(output.success && tool.stdout) && (
            e matches ErrorModel::ExecutionFailed { tool: name, message } && {
                &&& tool.command.len() > 0 ==> name == tool.command[0]
                &&& tool.command.len() == 0 ==> name.len() == 0
                &&& output.success ==> message == "Formatter doesn't output to stdout"@
                &&& !output.success ==> message == "Exit code "@ + crate::text::decimal_int(
                    output.exit_code as int,
                ) + ": "@ + output.stderr
            }),
        },
{
}

/// A definition, an output and an error mean what their fields hold.
pub proof fn values_mean_their_fields(
    tool: ToolDefinition,
    output: ToolOutput,
    error: ExecutorError,
    reader: ReaderOutcome,
)
    ensures
        ({
            &&& tool@.stdin == tool.stdin
            &&& tool@.stdout == tool.stdout
            &&& tool@.command.len() == tool.command@.len()
            &&& tool@.lint_args.len() == tool.lint_args@.len()
            &&& tool@.format_args.len() == tool.format_args@.len()
            &&& forall|i: int|
                0 <= i < tool.command@.len() ==> #[trigger] tool@.command[i] == tool.command@[i]@
            &&& forall|i: int|
                0 <= i < tool.lint_args@.len() ==> #[trigger] tool@.lint_args[i]
                    == tool.lint_args@[i]@
            &&& forall|i: int|
                0 <= i < tool.format_args@.len() ==> #[trigger] tool@.format_args[i]
                    == tool.format_args@[i]@
        }),
        ({
            &&& output@.stdout == output.stdout@
            &&& output@.stderr == output.stderr@
            &&& output@.exit_code == output.exit_code
            &&& output@.success == output.success
        }),
        match error {
            ExecutorError::ToolNotFound { tool } => error@ == (ErrorModel::ToolNotFound {
                tool: tool@,
            }),
            ExecutorError::ExecutionFailed { tool, message } => error@ == (
            ErrorModel::ExecutionFailed { tool: tool@, message: message@ }),
            ExecutorError::Timeout { tool, timeout_ms } => error@ == (ErrorModel::Timeout {
                tool: tool@,
                timeout_ms,
            }),
            ExecutorError::IoError { message } => error@ == (ErrorModel::IoError {
                message: message@,
            }),
        },
        match reader {
            ReaderOutcome::Absent => reader@ == ReaderModel::Absent,
            ReaderOutcome::Panicked => reader@ == ReaderModel::Panicked,
            ReaderOutcome::Failed { error } => reader@ == (ReaderModel::Failed { error: error@ }),
            ReaderOutcome::Text { text } => reader@ == (ReaderModel::Text { text: text@ }),
        },
        output::outcome_of(Ok(output)) == Ok::<OutputModel, ErrorModel>(output@),
        output::outcome_of(Err(error)) == Err::<OutputModel, ErrorModel>(error@),
{
}

/// An action asks for what its fields hold.
pub proof fn actions_mean_their_fields(action: Action)
    ensures
        match action {
            Action::Probe { probe, tool } => action@ == (ActionModel::Probe { probe, tool: tool@ }),
            Action::Spawn { program, args, pipe_stdin } => {
                action@ matches ActionModel::Spawn { program: p, args: a, pipe_stdin: s } && {
                    &&& p == program@
                    &&& a.len() == args@.len()
                    &&& forall|i: int| 0 <= i < a.len() ==> #[trigger] a[i] == args@[i]@
                    &&& s == pipe_stdin
                }
            },
            Action::WriteStdin { input } => action@ == (ActionModel::WriteStdin { input: input@ }),
            Action::Wait => action@ == ActionModel::Wait,
            Action::Poll => action@ == ActionModel::Poll,
            Action::Sleep { ms } => action@ == (ActionModel::Sleep { ms }),
            Action::Kill => action@ == ActionModel::Kill,
            Action::Reap => action@ == ActionModel::Reap,
            Action::JoinStdout => action@ == ActionModel::JoinStdout,
            Action::JoinStderr => action@ == ActionModel::JoinStderr,
            Action::CallHost { tool, framed_args, stdin, timeout_ms } => action@ == (
            ActionModel::CallHost {
                tool: tool@,
                framed_args: framed_args@,
                stdin: stdin@,
                timeout_ms,
            }),
            Action::Return => action@ == ActionModel::Return,
        },
{
}

/// An event reports what its fields hold.
pub proof fn events_mean_their_fields(event: Event)
    ensures
        match event {
            Event::Probed { answer } => event@ == (EventModel::Probed { answer }),
            Event::Spawned => event@ == EventModel::Spawned,
            Event::SpawnFailed { error } => event@ == (EventModel::SpawnFailed { error: error@ }),
            Event::StdinWritten => event@ == EventModel::StdinWritten,
            Event::StdinAbsent => event@ == EventModel::StdinAbsent,
            Event::StdinFailed { broken_pipe, error } => event@ == (EventModel::StdinFailed {
                broken_pipe,
                error: error@,
            }),
            Event::Exited { code } => event@ == (EventModel::Exited { code }),
            Event::StillRunning { elapsed_ms } => event@ == (EventModel::StillRunning {
                elapsed_ms,
            }),
            Event::StatusFailed { error } => event@ == (EventModel::StatusFailed {
                error: error@,
            }),
            Event::Slept => event@ == EventModel::Slept,
            Event::Killed => event@ == EventModel::Killed,
            Event::Reaped => event@ == EventModel::Reaped,
            Event::Joined { reader } => event@ == (EventModel::Joined { reader: reader@ }),
            Event::HostReturned { exit_code, stdout, stderr } => event@ == (
            EventModel::HostReturned { exit_code, stdout: stdout@, stderr: stderr@ }),
        },
{
}

/// A run that is over means its result; one that is under way means its plan and
/// its step, with all they hold.
pub proof fn runs_mean_their_fields(run: Execution)
    ensures
        match run {
            Execution::Finished { result } => run@ matches ExecutionModel::Finished { result: r }
                && match result {
                Ok(output) => r == Ok::<OutputModel, ErrorModel>(output@),
                Err(error) => r == Err::<OutputModel, ErrorModel>(error@),
            },
            Execution::Pending { plan, step } => run@ matches ExecutionModel::Pending {
                plan: p,
                step: s,
            } && {
                &&& p.program == plan.program@
                &&& p.args.len() == plan.args@.len()
                &&& forall|i: int| 0 <= i < p.args.len() ==> #[trigger] p.args[i] == plan.args@[i]@
                &&& plan.stdin matches Some(input) ==> p.stdin == Some(input@)
                &&& plan.stdin is None ==> p.stdin is None
                &&& p.timeout_ms == plan.timeout_ms
                &&& p.hosted == plan.hosted
                &&& s == step@
            },
        },
{
}

/// A step means its variant and what it holds.
pub proof fn steps_mean_their_fields(step: Step)
    ensures
        match step {
            Step::Probing { probe } => step@ == (StepModel::Probing { probe }),
            Step::Launching => step@ == StepModel::Launching,
            Step::Feeding => step@ == StepModel::Feeding,
            Step::Waiting => step@ == StepModel::Waiting,
            Step::Polling => step@ == StepModel::Polling,
            Step::Sleeping => step@ == StepModel::Sleeping,
            Step::Killing => step@ == StepModel::Killing,
            Step::Reaping => step@ == StepModel::Reaping,
            Step::DiscardingStdout => step@ == StepModel::DiscardingStdout,
            Step::DiscardingStderr => step@ == StepModel::DiscardingStderr,
            Step::CollectingStdout { code } => step@ == (StepModel::CollectingStdout { code }),
            Step::CollectingStderr { code, stdout } => step@ == (StepModel::CollectingStderr {
                code,
                stdout: stdout@,
            }),
            Step::CallingHost => step@ == StepModel::CallingHost,
        },
{
}

} // verus!
