//! What holds of every run, whatever the tools and the system around it do.

use vstd::prelude::*;

use crate::config::ToolModel;
use crate::error::ErrorModel;
use crate::execution;
use crate::execution::ActionModel;
use crate::execution::EventModel;
use crate::execution::ExecutionModel;
use crate::execution::PlanModel;
use crate::execution::StepModel;
use crate::executor;
use crate::executor::ExecutorModel;
use crate::framing;
use crate::output;
use crate::output::OutputModel;
use crate::output::ReaderModel;
use crate::probe::Availability;
use crate::probe::Platform;
use crate::probe::ProbeAnswer;

verus! {

/// What is asked of an executor.
pub struct Request {
    pub tool: ToolModel,
    pub input: Seq<char>,
    pub is_format_mode: bool,
    pub timeout_ms: Option<u64>,
    /// The system that the tool runs on.
    pub platform: Platform,
}

impl Request {
    /// The run when it begins.
    pub open spec fn begun(self, executor: ExecutorModel) -> ExecutionModel {
        executor.begun(
            self.tool,
            self.input,
            self.is_format_mode,
            self.timeout_ms,
            self.platform,
        )
    }

    /// The run after `events`.
    pub open spec fn run(
        self,
        executor: ExecutorModel,
        events: Seq<EventModel>,
    ) -> ExecutionModel {
        self.begun(executor).after_all(events)
    }

    /// What the run does.
    pub open spec fn plan(self, executor: ExecutorModel) -> PlanModel {
        executor::plan_of(
            self.tool,
            self.input,
            self.is_format_mode,
            executor.effective_timeout(self.timeout_ms),
            self.platform,
        )
    }
}

proof fn lemma_after_all_split(
    run: ExecutionModel,
    first: Seq<EventModel>,
    second: Seq<EventModel>,
)
    ensures
        run.after_all(first + second) == run.after_all(first).after_all(second),
    decreases second.len(),
{
    if second.len() == 0 {
        assert(first + second =~= first);
    } else {
        assert((first + second).drop_last() =~= first + second.drop_last());
        lemma_after_all_split(run, first, second.drop_last());
    }
}

proof fn lemma_after_all_push(run: ExecutionModel, events: Seq<EventModel>, event: EventModel)
    ensures
        run.after_all(events.push(event)) == run.after_all(events).after(event),
{
    assert(events.push(event).drop_last() =~= events);
}

proof fn lemma_after_two(run: ExecutionModel, a: EventModel, b: EventModel)
    ensures
        run.after_all(seq![a, b]) == run.after(a).after(b),
{
    let none = Seq::<EventModel>::empty();
    lemma_after_all_push(run, none, a);
    lemma_after_all_push(run, none.push(a), b);
    assert(none.push(a).push(b) =~= seq![a, b]);
}

/// An event that does not answer the pending action changes nothing.
pub proof fn unexpected_events_are_ignored(run: ExecutionModel, event: EventModel)
    requires
        !run.expects(event),
    ensures
        run.after(event) == run,
{
}

/// A finished run stays as it is, whatever is reported to it.
pub proof fn finished_runs_stay_finished(run: ExecutionModel, events: Seq<EventModel>)
    requires
        run is Finished,
    ensures
        run.after_all(events) == run,
    decreases events.len(),
{
    if events.len() > 0 {
        finished_runs_stay_finished(run, events.drop_last());
    }
}

/// The most actions that a run standing where `run` stands can still ask for,
/// sleeping and polling again not counted.
pub open spec fn actions_left(run: ExecutionModel) -> nat {
    match run {
        ExecutionModel::Finished { .. } => 0,
        ExecutionModel::Pending { plan, step } => match step {
            StepModel::Probing { .. } => 8,
            StepModel::Launching => 7,
            StepModel::Feeding => 6,
            StepModel::Waiting => 3,
            StepModel::Polling => 5,
            StepModel::Sleeping => 5,
            StepModel::Killing => 4,
            StepModel::Reaping => 3,
            StepModel::DiscardingStdout => 2,
            StepModel::DiscardingStderr => 1,
            StepModel::CollectingStdout { .. } => 2,
            StepModel::CollectingStderr { .. } => 1,
            StepModel::CallingHost => 1,
        },
    }
}

/// Whether `event` leaves the run polling: the tool is still running before its
/// deadline, or the pause between two polls is over.
pub open spec fn keeps_polling(run: ExecutionModel, event: EventModel) -> bool {
    match run {
        ExecutionModel::Finished { .. } => false,
        ExecutionModel::Pending { plan, step } => match (step, event) {
            (StepModel::Polling, EventModel::StillRunning { elapsed_ms }) => elapsed_ms
                < plan.timeout_ms,
            (StepModel::Sleeping, EventModel::Slept) => true,
            _ => false,
        },
    }
}

/// Every answer brings a run closer to its end, except those that keep it
/// polling, and a run is never more than eight other answers away from it.
pub proof fn every_answer_makes_progress(run: ExecutionModel, event: EventModel)
    requires
        run.expects(event),
    ensures
        actions_left(run) <= 8,
        !keeps_polling(run, event) ==> actions_left(run.after(event)) < actions_left(run),
        keeps_polling(run, event) ==> actions_left(run.after(event)) == actions_left(run),
{
}

/// A run keeps to its plan, from its first action to its last.
pub proof fn runs_keep_to_their_plan(
    executor: ExecutorModel,
    request: Request,
    events: Seq<EventModel>,
)
    ensures
        request.run(executor, events) matches ExecutionModel::Pending { plan, .. }
            ==> request.tool.command.len() > 0 && plan == request.plan(executor),
    decreases events.len(),
{
    if events.len() > 0 {
        runs_keep_to_their_plan(executor, request, events.drop_last());
    }
}

/// A run succeeds exactly if the exit code is 0.
pub proof fn success_is_exit_code_zero(
    executor: ExecutorModel,
    request: Request,
    events: Seq<EventModel>,
)
    ensures
        request.run(executor, events) matches ExecutionModel::Finished { result: Ok(output) }
            ==> (output.success <==> output.exit_code == 0),
    decreases events.len(),
{
    if events.len() > 0 {
        success_is_exit_code_zero(executor, request, events.drop_last());
    }
}

/// Without a command there is nothing to run: the run fails at once, and no
/// event changes that.
pub proof fn empty_commands_fail(
    executor: ExecutorModel,
    request: Request,
    events: Seq<EventModel>,
)
    requires
        request.tool.command.len() == 0,
    ensures
        request.run(executor, events) == execution::failed(executor::empty_command()),
        executor.having_begun(request.tool, request.platform) == executor,
{
    finished_runs_stay_finished(request.begun(executor), events);
}

/// A tool that is known to be unavailable is never run, and the run says so.
pub proof fn unavailable_tools_are_not_run(
    executor: ExecutorModel,
    request: Request,
    events: Seq<EventModel>,
)
    requires
        request.tool.command.len() > 0,
        executor.lookup(request.tool.command[0], request.platform) == (Availability::Known {
            available: false,
        }),
    ensures
        request.run(executor, events) == execution::failed(
            ErrorModel::ToolNotFound { tool: request.tool.command[0] },
        ),
{
    finished_runs_stay_finished(request.begun(executor), events);
}

/// A tool that a probe does not find is never run, and the run says so.
pub proof fn tools_not_found_are_not_run(
    executor: ExecutorModel,
    request: Request,
    answer: ProbeAnswer,
    events: Seq<EventModel>,
)
    requires
        request.tool.command.len() > 0,
        executor.lookup(request.tool.command[0], request.platform) is Unknown,
        !answer.says_found(),
    ensures
        request.run(executor, seq![EventModel::Probed { answer }] + events) == execution::failed(
            ErrorModel::ToolNotFound { tool: request.tool.command[0] },
        ),
{
    let begun = request.begun(executor);
    let probed = EventModel::Probed { answer };
    let none = Seq::<EventModel>::empty();
    lemma_after_all_push(begun, none, probed);
    assert(none.push(probed) =~= seq![probed]);
    lemma_after_all_split(begun, seq![probed], events);
    finished_runs_stay_finished(begun.after(probed), events);
}

/// Only a tool that is not available is reported as not found, and it is
/// reported under its own name: the cache or the platform says that it is
/// unavailable, or a probe did not find it.
pub proof fn not_found_means_unavailable(
    executor: ExecutorModel,
    request: Request,
    events: Seq<EventModel>,
)
    ensures
        request.run(executor, events) matches ExecutionModel::Finished {
            result: Err(ErrorModel::ToolNotFound { tool }),
        } ==> {
            &&& request.tool.command.len() > 0
            &&& tool == request.tool.command[0]
            &&& executor.lookup(tool, request.platform) == (Availability::Known {
                available: false,
            }) || (executor.lookup(tool, request.platform) is Unknown && exists|i: int|
                0 <= i < events.len() && (#[trigger] events[i] matches EventModel::Probed { answer }
                    && !answer.says_found()))
        },
    decreases events.len(),
{
    if events.len() > 0 {
        let before = events.drop_last();
        not_found_means_unavailable(executor, request, before);
        runs_keep_to_their_plan(executor, request, before);
        probing_means_unknown(executor, request, before);
        if request.run(executor, before) is Finished {
            assert(forall|i: int| 0 <= i < before.len() ==> before[i] == events[i]);
        } else {
            assert(events[events.len() - 1] == events.last());
        }
    }
}

proof fn probing_means_unknown(
    executor: ExecutorModel,
    request: Request,
    events: Seq<EventModel>,
)
    ensures
        request.run(executor, events) matches ExecutionModel::Pending { plan, step } ==> (
        step is Probing ==> executor.lookup(plan.program, request.platform) is Unknown),
    decreases events.len(),
{
    if events.len() > 0 {
        probing_means_unknown(executor, request, events.drop_last());
    }
}

/// A tool whose availability is known is not probed.
pub proof fn known_tools_are_not_probed(
    executor: ExecutorModel,
    request: Request,
    events: Seq<EventModel>,
)
    requires
        request.tool.command.len() > 0,
        executor.lookup(request.tool.command[0], request.platform) is Known,
    ensures
        !(request.run(executor, events).next_action() is Probe),
{
    probing_means_unknown(executor, request, events);
    runs_keep_to_their_plan(executor, request, events);
}

/// The answer to a probe has the effect that it would have had, had it been
/// known before the run began.
pub proof fn answers_count_as_if_known_before(
    executor: ExecutorModel,
    request: Request,
    answer: ProbeAnswer,
)
    requires
        request.begun(executor).next_action() is Probe,
    ensures
        request.begun(executor).after(EventModel::Probed { answer }) == request.begun(
            executor.having_learned(request.begun(executor), EventModel::Probed { answer }),
        ),
{
}

/// A recorded availability is what later lookups find, and the other tools are
/// not affected.
pub proof fn recorded_answers_are_found_again(
    executor: ExecutorModel,
    name: Seq<char>,
    available: bool,
    other: Seq<char>,
    platform: Platform,
)
    ensures
        executor.knowing(name, available).lookup(name, platform) == (Availability::Known {
            available,
        }),
        other != name ==> executor.knowing(name, available).lookup(other, platform)
            == executor.lookup(other, platform),
{
}

/// Looking a tool up does not change what is known about any tool.
pub proof fn lookups_change_no_answer(
    executor: ExecutorModel,
    name: Seq<char>,
    other: Seq<char>,
    platform: Platform,
)
    ensures
        executor.having_looked_up(name, platform).lookup(other, platform) == executor.lookup(
            other,
            platform,
        ),
        executor.having_looked_up(name, platform).having_looked_up(name, platform)
            == executor.having_looked_up(name, platform),
{
    let once = executor.having_looked_up(name, platform);
    assert(once.having_looked_up(name, platform).cache =~= once.cache);
}

/// What is known about a tool is never lost: not by beginning a run of any tool,
/// which leaves it as it is, nor by what any run learns.
pub proof fn knowledge_is_never_lost(
    executor: ExecutorModel,
    name: Seq<char>,
    tool: ToolModel,
    platform: Platform,
    run: ExecutionModel,
    event: EventModel,
)
    requires
        executor.lookup(name, platform) is Known,
    ensures
        executor.having_begun(tool, platform).lookup(name, platform) == executor.lookup(
            name,
            platform,
        ),
        executor.having_learned(run, event).lookup(name, platform) is Known,
{
    if tool.command.len() > 0 {
        lookups_change_no_answer(executor, tool.command[0], name, platform);
    }
}

/// What is known about a tool when a run begins stays as it is, whatever the run
/// learns.
pub proof fn known_answers_do_not_change(
    executor: ExecutorModel,
    request: Request,
    events: Seq<EventModel>,
    event: EventModel,
    name: Seq<char>,
)
    requires
        executor.lookup(name, request.platform) is Known,
    ensures
        executor.having_learned(request.run(executor, events), event).lookup(
            name,
            request.platform,
        ) == executor.lookup(name, request.platform),
{
    probing_means_unknown(executor, request, events);
}

/// What an executor learns from a run concerns the tool of that run alone.
pub proof fn learning_concerns_one_tool(
    executor: ExecutorModel,
    request: Request,
    events: Seq<EventModel>,
    event: EventModel,
    other: Seq<char>,
)
    requires
        request.tool.command.len() > 0 ==> other != request.tool.command[0],
    ensures
        executor.having_learned(request.run(executor, events), event).lookup(
            other,
            request.platform,
        ) == executor.lookup(other, request.platform),
{
    runs_keep_to_their_plan(executor, request, events);
}

/// The executor after a run began and took in `events`.
pub open spec fn having_run(
    executor: ExecutorModel,
    request: Request,
    events: Seq<EventModel>,
) -> ExecutorModel
    decreases events.len(),
{
    if events.len() == 0 {
        executor.having_begun(request.tool, request.platform)
    } else {
        having_run(executor, request, events.drop_last()).having_learned(
            request.run(executor, events.drop_last()),
            events.last(),
        )
    }
}

/// The executor after it was asked whether the tool `name` is available; `answer`
/// is what a probe brings back, if one is needed.
pub open spec fn having_checked(
    executor: ExecutorModel,
    name: Seq<char>,
    platform: Platform,
    answer: ProbeAnswer,
) -> ExecutorModel {
    match executor.lookup(name, platform) {
        Availability::Known { .. } => executor.having_looked_up(name, platform),
        Availability::Unknown { .. } => executor.knowing(name, answer.says_found()),
    }
}

/// One use of an executor.
pub enum Use {
    /// A run, with all that was reported to it.
    Run { request: Request, events: Seq<EventModel> },
    /// The question whether a tool is available, with the answer of a probe, if
    /// one is needed.
    Check { name: Seq<char>, platform: Platform, answer: ProbeAnswer },
}

/// The executor after `uses`, one after the other.
pub open spec fn having_been_used(executor: ExecutorModel, uses: Seq<Use>) -> ExecutorModel
    decreases uses.len(),
{
    if uses.len() == 0 {
        executor
    } else {
        let before = having_been_used(executor, uses.drop_last());
        match uses.last() {
            Use::Run { request, events } => having_run(before, request, events),
            Use::Check { name, platform, answer } => having_checked(
                before,
                name,
                platform,
                answer,
            ),
        }
    }
}

/// Whether the cache of `executor` says that the tool `name` is available, or
/// that it is not, as `available` tells.
pub open spec fn has_cached(executor: ExecutorModel, name: Seq<char>, available: bool) -> bool {
    executor.cache.contains_key(name) && executor.cache[name] == available
}

proof fn lemma_run_keeps_cached(
    executor: ExecutorModel,
    request: Request,
    events: Seq<EventModel>,
    name: Seq<char>,
    available: bool,
)
    requires
        has_cached(executor, name, available),
    ensures
        has_cached(having_run(executor, request, events), name, available),
    decreases events.len(),
{
    if events.len() > 0 {
        lemma_run_keeps_cached(executor, request, events.drop_last(), name, available);
        probing_means_unknown(executor, request, events.drop_last());
    }
}

/// An availability that is in the cache stays there, with its value, for as long
/// as the executor is used: through any runs and any questions, in any number and
/// order, lookups on every platform go by it.
pub proof fn cached_answers_last(
    executor: ExecutorModel,
    uses: Seq<Use>,
    name: Seq<char>,
    available: bool,
    platform: Platform,
)
    requires
        has_cached(executor, name, available),
    ensures
        has_cached(having_been_used(executor, uses), name, available),
        having_been_used(executor, uses).lookup(name, platform) == (Availability::Known {
            available,
        }),
    decreases uses.len(),
{
    if uses.len() > 0 {
        cached_answers_last(executor, uses.drop_last(), name, available, platform);
        let before = having_been_used(executor, uses.drop_last());
        match uses.last() {
            Use::Run { request, events } => {
                lemma_run_keeps_cached(before, request, events, name, available);
            },
            Use::Check { .. } => {},
        }
    }
}

proof fn lemma_first_answer_is_cached(
    executor: ExecutorModel,
    request: Request,
    answer: ProbeAnswer,
    events: Seq<EventModel>,
)
    requires
        request.begun(executor).next_action() is Probe,
    ensures
        ({
            let all = seq![EventModel::Probed { answer }] + events;
            &&& has_cached(
                having_run(executor, request, all),
                request.tool.command[0],
                answer.says_found(),
            )
            &&& !(request.run(executor, all).next_action() is Probe)
        }),
    decreases events.len(),
{
    let probed = EventModel::Probed { answer };
    let all = seq![probed] + events;
    if events.len() == 0 {
        assert(all.drop_last() =~= seq![]);
        assert(all.last() == probed);
    } else {
        assert(all.drop_last() =~= seq![probed] + events.drop_last());
        lemma_first_answer_is_cached(executor, request, answer, events.drop_last());
    }
}

/// A tool is probed once. After the run that asked for the probe, whatever else
/// was reported to it, and after any further use of the executor, the tool's
/// availability is what the probe said, and no run asks for a probe of it.
pub proof fn tools_are_probed_once(
    executor: ExecutorModel,
    first: Request,
    answer: ProbeAnswer,
    reported: Seq<EventModel>,
    uses: Seq<Use>,
    later: Request,
    events: Seq<EventModel>,
)
    requires
        first.begun(executor).next_action() is Probe,
        later.tool.command.len() > 0,
        later.tool.command[0] == first.tool.command[0],
    ensures
        ({
            let informed = having_run(
                executor,
                first,
                seq![EventModel::Probed { answer }] + reported,
            );
            let used = having_been_used(informed, uses);
            &&& used.lookup(later.tool.command[0], later.platform) == (Availability::Known {
                available: answer.says_found(),
            })
            &&& !(later.run(used, events).next_action() is Probe)
        }),
{
    let informed = having_run(executor, first, seq![EventModel::Probed { answer }] + reported);
    lemma_first_answer_is_cached(executor, first, answer, reported);
    cached_answers_last(
        informed,
        uses,
        first.tool.command[0],
        answer.says_found(),
        later.platform,
    );
    known_tools_are_not_probed(having_been_used(informed, uses), later, events);
}

/// A process is spawned with the tool's own command line: the program name, the
/// arguments of the command and those of the mode. Its standard input is piped
/// exactly if the tool reads from there, and gets the input unchanged.
pub proof fn processes_get_the_command_line_and_the_input(
    executor: ExecutorModel,
    request: Request,
    events: Seq<EventModel>,
)
    ensures
        match request.run(executor, events).next_action() {
            ActionModel::Spawn { program, args, pipe_stdin } => {
                &&& request.tool.command.len() > 0
                &&& program == request.tool.command[0]
                &&& args == request.tool.command.skip(1) + (if request.is_format_mode {
                    request.tool.format_args
                } else {
                    request.tool.lint_args
                })
                &&& pipe_stdin == request.tool.stdin
            },
            ActionModel::WriteStdin { input } => input == request.input,
            _ => true,
        },
    decreases events.len(),
{
    runs_keep_to_their_plan(executor, request, events);
    if events.len() > 0 {
        processes_get_the_command_line_and_the_input(executor, request, events.drop_last());
        runs_keep_to_their_plan(executor, request, events.drop_last());
    }
}

/// A host gets the program name, the timeout in force and the input, and takes
/// out of the framed bytes exactly the arguments of the command and those of the
/// mode.
pub proof fn hosts_read_back_the_command_line(
    executor: ExecutorModel,
    request: Request,
    events: Seq<EventModel>,
)
    requires
        framing::frameable(framing::encoded(request.tool.args(request.is_format_mode))),
    ensures
        request.run(executor, events).next_action() matches ActionModel::CallHost {
            tool,
            framed_args,
            stdin,
            timeout_ms,
        } ==> {
            &&& request.tool.command.len() > 0
            &&& tool == request.tool.command[0]
            &&& framing::unframe(framed_args) == Some(
                framing::encoded(request.tool.args(request.is_format_mode)),
            )
            &&& stdin == (if request.tool.stdin {
                request.input
            } else {
                Seq::<char>::empty()
            })
            &&& timeout_ms == executor.effective_timeout(request.timeout_ms)
        },
{
    runs_keep_to_their_plan(executor, request, events);
    framing::unframe_inverts_frame(
        framing::encoded(request.tool.args(request.is_format_mode)),
    );
}

/// The mode decides on the arguments and on nothing else.
pub proof fn mode_decides_on_arguments_only(executor: ExecutorModel, request: Request)
    requires
        request.tool.format_args == request.tool.lint_args,
    ensures
        (Request { is_format_mode: true, ..request }).begun(executor) == (Request {
            is_format_mode: false,
            ..request
        }).begun(executor),
{
}

/// A tool that does not read standard input is never given the input.
pub proof fn input_goes_to_stdin_readers_only(
    executor: ExecutorModel,
    request: Request,
    events: Seq<EventModel>,
)
    requires
        !request.tool.stdin,
    ensures
        match request.run(executor, events).next_action() {
            ActionModel::WriteStdin { .. } => false,
            ActionModel::Spawn { pipe_stdin, .. } => !pipe_stdin,
            ActionModel::CallHost { stdin, .. } => stdin == Seq::<char>::empty(),
            _ => true,
        },
    decreases events.len(),
{
    runs_keep_to_their_plan(executor, request, events);
    if events.len() > 0 {
        input_goes_to_stdin_readers_only(executor, request, events.drop_last());
        runs_keep_to_their_plan(executor, request, events.drop_last());
    }
}

/// A broken pipe while the input is written makes no difference: the tool may
/// exit before it has read everything.
pub proof fn broken_pipes_are_ignored(run: ExecutionModel, error: Seq<char>)
    ensures
        run.after(EventModel::StdinFailed { broken_pipe: true, error }) == run.after(
            EventModel::StdinWritten,
        ),
{
}

/// Whether the run is past its deadline: it is ending the process, or has
/// reported the timeout.
pub open spec fn timed_out(run: ExecutionModel) -> bool {
    match run {
        ExecutionModel::Finished { result } => result matches Err(e) && e is Timeout,
        ExecutionModel::Pending { plan, step } => step is Killing || step is Reaping || step
            is DiscardingStdout || step is DiscardingStderr,
    }
}

/// A tool is killed only after it was seen running at or past its deadline, and
/// only where there is one: a timeout of 0 means that there is none. The error
/// carries the tool's name and the timeout that was in force.
pub proof fn timeouts_come_from_the_deadline(
    executor: ExecutorModel,
    request: Request,
    events: Seq<EventModel>,
)
    requires
        timed_out(request.run(executor, events)),
    ensures
        request.tool.command.len() > 0,
        executor.effective_timeout(request.timeout_ms) != 0,
        exists|i: int|
            0 <= i < events.len() && (#[trigger] events[i] matches EventModel::StillRunning {
                elapsed_ms,
            } && elapsed_ms >= executor.effective_timeout(request.timeout_ms)),
        request.run(executor, events) is Finished ==> request.run(executor, events)
            == execution::failed(
            ErrorModel::Timeout {
                tool: request.tool.command[0],
                timeout_ms: executor.effective_timeout(request.timeout_ms),
            },
        ),
    decreases events.len(),
{
    if events.len() > 0 {
        let before = events.drop_last();
        runs_keep_to_their_plan(executor, request, before);
        polling_means_timeout(executor, request, before);
        if timed_out(request.run(executor, before)) {
            timeouts_come_from_the_deadline(executor, request, before);
            let i = choose|i: int|
                0 <= i < before.len() && (#[trigger] before[i] matches EventModel::StillRunning {
                    elapsed_ms,
                } && elapsed_ms >= executor.effective_timeout(request.timeout_ms));
            assert(events[i] == before[i]);
        } else {
            assert(events[events.len() - 1] == events.last());
        }
    }
}

proof fn polling_means_timeout(
    executor: ExecutorModel,
    request: Request,
    events: Seq<EventModel>,
)
    ensures
        request.run(executor, events) matches ExecutionModel::Pending { plan, step } ==> (
        step is Polling || step is Sleeping ==> plan.timeout_ms != 0),
    decreases events.len(),
{
    if events.len() > 0 {
        polling_means_timeout(executor, request, events.drop_last());
    }
}

/// As long as the deadline is not reached, a running tool is polled again.
pub proof fn early_polls_repeat(plan: PlanModel, elapsed_ms: u128)
    requires
        elapsed_ms < plan.timeout_ms,
    ensures
        ({
            let polling = ExecutionModel::Pending { plan, step: StepModel::Polling };
            polling.after_all(
                seq![EventModel::StillRunning { elapsed_ms }, EventModel::Slept],
            ) == polling
        }),
{
    let polling = ExecutionModel::Pending { plan, step: StepModel::Polling };
    lemma_after_two(polling, EventModel::StillRunning { elapsed_ms }, EventModel::Slept);
}

/// A tool that is still running at its deadline is killed and waited for, its
/// output is discarded, whatever became of it, and the run ends with a timeout.
pub proof fn the_deadline_ends_the_run(
    plan: PlanModel,
    elapsed_ms: u128,
    stdout: ReaderModel,
    stderr: ReaderModel,
)
    requires
        elapsed_ms >= plan.timeout_ms,
    ensures
        (ExecutionModel::Pending { plan, step: StepModel::Polling }).after_all(
            seq![
                EventModel::StillRunning { elapsed_ms },
                EventModel::Killed,
                EventModel::Reaped,
                EventModel::Joined { reader: stdout },
                EventModel::Joined { reader: stderr },
            ],
        ) == execution::failed(
            ErrorModel::Timeout { tool: plan.program, timeout_ms: plan.timeout_ms },
        ),
{
    let polling = ExecutionModel::Pending { plan, step: StepModel::Polling };
    let seen = seq![EventModel::StillRunning { elapsed_ms }, EventModel::Killed];
    let reaped = seen.push(EventModel::Reaped);
    let joined = reaped.push(EventModel::Joined { reader: stdout });
    lemma_after_two(polling, EventModel::StillRunning { elapsed_ms }, EventModel::Killed);
    lemma_after_all_push(polling, seen, EventModel::Reaped);
    lemma_after_all_push(polling, reaped, EventModel::Joined { reader: stdout });
    lemma_after_all_push(polling, joined, EventModel::Joined { reader: stderr });
    assert(joined.push(EventModel::Joined { reader: stderr }) =~= seq![
        EventModel::StillRunning { elapsed_ms },
        EventModel::Killed,
        EventModel::Reaped,
        EventModel::Joined { reader: stdout },
        EventModel::Joined { reader: stderr },
    ]);
}

/// The events up to the point where the process is waited for.
pub open spec fn started(stdin: bool) -> Seq<EventModel> {
    if stdin {
        seq![EventModel::Spawned, EventModel::StdinWritten]
    } else {
        seq![EventModel::Spawned]
    }
}

/// The events after which the output of a process is complete.
pub open spec fn completed(
    code: Option<i32>,
    stdout: Seq<char>,
    stderr: Seq<char>,
) -> Seq<EventModel> {
    seq![
        EventModel::Exited { code },
        EventModel::Joined { reader: ReaderModel::Text { text: stdout } },
        EventModel::Joined { reader: ReaderModel::Text { text: stderr } },
    ]
}

/// Polls that find the tool running at the times given, each followed
/// by a pause.
pub open spec fn polled(times: Seq<u128>) -> Seq<EventModel>
    decreases times.len(),
{
    if times.len() == 0 {
        seq![]
    } else {
        polled(times.drop_last()) + seq![
            EventModel::StillRunning { elapsed_ms: times.last() },
            EventModel::Slept,
        ]
    }
}

proof fn lemma_polled(plan: PlanModel, times: Seq<u128>)
    requires
        forall|i: int| 0 <= i < times.len() ==> #[trigger] times[i] < plan.timeout_ms,
    ensures
        ({
            let polling = ExecutionModel::Pending { plan, step: StepModel::Polling };
            polling.after_all(polled(times)) == polling
        }),
    decreases times.len(),
{
    let polling = ExecutionModel::Pending { plan, step: StepModel::Polling };
    if times.len() > 0 {
        assert forall|i: int| 0 <= i < times.drop_last().len() implies #[trigger]
            times.drop_last()[i] < plan.timeout_ms by {
            assert(times.drop_last()[i] == times[i]);
        }
        lemma_polled(plan, times.drop_last());
        lemma_after_all_split(
            polling,
            polled(times.drop_last()),
            seq![EventModel::StillRunning { elapsed_ms: times.last() }, EventModel::Slept],
        );
        early_polls_repeat(plan, times.last());
    }
}

/// An available tool that runs to its end, having been found running before its
/// deadline any number of times, yields its exit code and all that it wrote.
pub proof fn completed_runs_yield_the_output(
    executor: ExecutorModel,
    request: Request,
    times: Seq<u128>,
    code: Option<i32>,
    stdout: Seq<char>,
    stderr: Seq<char>,
)
    requires
        request.tool.command.len() > 0,
        request.platform != Platform::Wasi,
        executor.lookup(request.tool.command[0], request.platform) == (Availability::Known {
            available: true,
        }),
        forall|i: int|
            0 <= i < times.len() ==> #[trigger] times[i] < executor.effective_timeout(
                request.timeout_ms,
            ),
    ensures
        request.run(
            executor,
            started(request.tool.stdin) + polled(times) + completed(code, stdout, stderr),
        ) == (ExecutionModel::Finished {
            result: Ok(output::process_output(code, stdout, stderr)),
        }),
{
    let begun = request.begun(executor);
    let plan = request.plan(executor);
    let waiting = ExecutionModel::Pending { plan, step: plan.wait_step() };
    let none = Seq::<EventModel>::empty();
    assert(begun.after_all(started(request.tool.stdin)) == waiting) by {
        lemma_after_all_push(begun, none, EventModel::Spawned);
        assert(none.push(EventModel::Spawned) =~= seq![EventModel::Spawned]);
        lemma_after_two(begun, EventModel::Spawned, EventModel::StdinWritten);
    }
    assert(waiting.after_all(polled(times)) == waiting) by {
        if times.len() > 0 {
            assert(times[0] < plan.timeout_ms);
            lemma_polled(plan, times);
        }
    }
    lemma_after_all_split(begun, started(request.tool.stdin), polled(times));
    let out = EventModel::Joined { reader: ReaderModel::Text { text: stdout } };
    let err = EventModel::Joined { reader: ReaderModel::Text { text: stderr } };
    lemma_after_two(waiting, EventModel::Exited { code }, out);
    lemma_after_all_push(waiting, seq![EventModel::Exited { code }, out], err);
    assert(seq![EventModel::Exited { code }, out].push(err) =~= completed(code, stdout, stderr));
    lemma_after_all_split(
        begun,
        started(request.tool.stdin) + polled(times),
        completed(code, stdout, stderr),
    );
}

/// A host that runs an available tool yields the exit code and the output that
/// it reports.
pub proof fn hosted_runs_yield_the_output(
    executor: ExecutorModel,
    request: Request,
    exit_code: i32,
    stdout: Seq<char>,
    stderr: Seq<char>,
)
    requires
        request.tool.command.len() > 0,
        request.platform == Platform::Wasi,
        executor.lookup(request.tool.command[0], request.platform) == (Availability::Known {
            available: true,
        }),
    ensures
        request.run(executor, seq![EventModel::HostReturned { exit_code, stdout, stderr }]) == (
        ExecutionModel::Finished { result: Ok(output::host_output(exit_code, stdout, stderr)) }),
{
    let none = Seq::<EventModel>::empty();
    let returned = EventModel::HostReturned { exit_code, stdout, stderr };
    lemma_after_all_push(request.begun(executor), none, returned);
    assert(none.push(returned) =~= seq![returned]);
}

/// A run ends with `ExecutionFailed` exactly if there is no command.
pub proof fn execution_fails_without_a_command_only(
    executor: ExecutorModel,
    request: Request,
    events: Seq<EventModel>,
)
    ensures
        (request.run(executor, events) matches ExecutionModel::Finished { result: Err(error) }
            && error is ExecutionFailed) <==> request.tool.command.len() == 0,
    decreases events.len(),
{
    if events.len() > 0 {
        execution_fails_without_a_command_only(executor, request, events.drop_last());
    }
}

/// Whether the run asks for the tool to be started.
pub open spec fn asks_to_start(run: ExecutionModel) -> bool {
    run.next_action() is Spawn || run.next_action() is CallHost
}

/// How often the tool was started, or starting it was attempted, in the course
/// of `events`.
pub open spec fn starts(run: ExecutionModel, events: Seq<EventModel>) -> nat
    decreases events.len(),
{
    if events.len() == 0 {
        0
    } else {
        let before = run.after_all(events.drop_last());
        starts(run, events.drop_last()) + if asks_to_start(before) && before.expects(
            events.last(),
        ) {
            1nat
        } else {
            0nat
        }
    }
}

/// Whether the tool may still be started: it is being looked up or launched.
spec fn before_start(run: ExecutionModel) -> bool {
    run.next_action() is Probe || asks_to_start(run)
}

proof fn lemma_not_started_before(run: ExecutionModel, events: Seq<EventModel>)
    ensures
        starts(run, events) <= 1,
        before_start(run.after_all(events)) ==> starts(run, events) == 0,
    decreases events.len(),
{
    if events.len() > 0 {
        lemma_not_started_before(run, events.drop_last());
    }
}

/// A run starts its tool at most once.
pub proof fn tools_are_started_at_most_once(
    executor: ExecutorModel,
    request: Request,
    events: Seq<EventModel>,
)
    ensures
        starts(request.begun(executor), events) <= 1,
{
    lemma_not_started_before(request.begun(executor), events);
}

/// Whether `event` says that a reader thread was joined and yields `text`: it
/// read the text, or there was no thread and the text is empty.
pub open spec fn yields_text(event: EventModel, text: Seq<char>) -> bool {
    event matches EventModel::Joined { reader } && reader.joined() == Ok::<Seq<char>, Seq<char>>(
        text,
    )
}

/// Whether `events` holds an exit with `code`.
pub open spec fn exited(events: Seq<EventModel>, code: Option<i32>) -> bool {
    exists|i: int| 0 <= i < events.len() && #[trigger] events[i] == (EventModel::Exited { code })
}

/// Whether `events` holds an exit with `code` and, after it, a joined reader that
/// yields `stdout`.
pub open spec fn exited_with_stdout(
    events: Seq<EventModel>,
    code: Option<i32>,
    stdout: Seq<char>,
) -> bool {
    exists|i: int, j: int|
        0 <= i < j < events.len() && #[trigger] events[i] == (EventModel::Exited { code })
            && yields_text(#[trigger] events[j], stdout)
}

/// Whether `events` holds, in this order, the exit of a process and two joined
/// readers that together make up `output`.
pub open spec fn process_yielded(events: Seq<EventModel>, output: OutputModel) -> bool {
    exists|i: int, j: int, k: int|
        0 <= i < j < k < events.len() && (#[trigger] events[i] matches EventModel::Exited { code }
            && output == output::process_output(code, output.stdout, output.stderr))
            && yields_text(#[trigger] events[j], output.stdout) && yields_text(
            #[trigger] events[k],
            output.stderr,
        )
}

/// Whether `events` holds a host's report of `output`.
pub open spec fn host_yielded(events: Seq<EventModel>, output: OutputModel) -> bool {
    exists|i: int|
        0 <= i < events.len() && (#[trigger] events[i] matches EventModel::HostReturned {
            exit_code,
            stdout,
            stderr,
        } && output == output::host_output(exit_code, stdout, stderr))
}

/// Whether `events` accounts for all the output that the run has so far.
spec fn accounted_for(run: ExecutionModel, hosted: bool, events: Seq<EventModel>) -> bool {
    match run {
        ExecutionModel::Pending { plan, step } => plan.hosted == hosted && match step {
            StepModel::Probing { .. } => true,
            StepModel::CallingHost => hosted,
            StepModel::CollectingStdout { code } => !hosted && exited(events, code),
            StepModel::CollectingStderr { code, stdout } => !hosted && exited_with_stdout(
                events,
                code,
                stdout,
            ),
            _ => !hosted,
        },
        ExecutionModel::Finished { result } => match result {
            Ok(output) => if hosted {
                host_yielded(events, output)
            } else {
                process_yielded(events, output)
            },
            Err(_) => true,
        },
    }
}

proof fn lemma_accounted_for(run: ExecutionModel, hosted: bool, events: Seq<EventModel>)
    requires
        run matches ExecutionModel::Pending { plan, step } ==> plan.hosted == hosted && (step
            is Probing || step == plan.launch_step()),
        run matches ExecutionModel::Finished { result } ==> result is Err,
    ensures
        accounted_for(run.after_all(events), hosted, events),
    decreases events.len(),
{
    if events.len() > 0 {
        let before = events.drop_last();
        let last = events.len() - 1;
        lemma_accounted_for(run, hosted, before);
        assert(forall|i: int| 0 <= i < before.len() ==> #[trigger] before[i] == events[i]);
        assert(events[last] == events.last());
        match run.after_all(before) {
            ExecutionModel::Pending { plan, step } => match step {
                StepModel::CollectingStdout { code } => {
                    let i = choose|i: int|
                        0 <= i < before.len() && #[trigger] before[i] == (EventModel::Exited {
                            code,
                        });
                    assert(events[i] == before[i]);
                },
                StepModel::CollectingStderr { code, stdout } => {
                    let (i, j) = choose|i: int, j: int|
                        0 <= i < j < before.len() && #[trigger] before[i] == (EventModel::Exited {
                            code,
                        }) && yields_text(#[trigger] before[j], stdout);
                    assert(events[i] == before[i]);
                    assert(events[j] == before[j]);
                },
                _ => {},
            },
            ExecutionModel::Finished { result: Ok(output) } => {
                if hosted {
                    let i = choose|i: int|
                        0 <= i < before.len() && (
                        #[trigger] before[i] matches EventModel::HostReturned {
                            exit_code,
                            stdout,
                            stderr,
                        } && output == output::host_output(exit_code, stdout, stderr));
                    assert(events[i] == before[i]);
                } else {
                    let (i, j, k) = choose|i: int, j: int, k: int|
                        0 <= i < j < k < before.len() && (
                        #[trigger] before[i] matches EventModel::Exited { code } && output
                            == output::process_output(code, output.stdout, output.stderr))
                            && yields_text(#[trigger] before[j], output.stdout) && yields_text(
                            #[trigger] before[k],
                            output.stderr,
                        );
                    assert(events[i] == before[i]);
                    assert(events[j] == before[j]);
                    assert(events[k] == before[k]);
                }
            },
            _ => {},
        }
    }
}

/// Output comes from the tool alone. A run of a process yields an output only
/// once the process exited and both readers ended, with text or for want of a
/// thread, and the output is made up of these; a hosted run yields what the host
/// reported.
pub proof fn outputs_come_from_the_tool(
    executor: ExecutorModel,
    request: Request,
    events: Seq<EventModel>,
    output: OutputModel,
)
    requires
        request.run(executor, events) == (ExecutionModel::Finished { result: Ok(output) }),
    ensures
        request.platform != Platform::Wasi ==> process_yielded(events, output),
        request.platform == Platform::Wasi ==> host_yielded(events, output),
{
    lemma_accounted_for(request.begun(executor), request.platform == Platform::Wasi, events);
}

/// Whether `event` reports a failure that ends a run.
pub open spec fn reports_failure(event: EventModel) -> bool {
    match event {
        EventModel::SpawnFailed { .. } => true,
        EventModel::StdinFailed { broken_pipe, .. } => !broken_pipe,
        EventModel::StatusFailed { .. } => true,
        EventModel::Joined { reader } => reader.joined() is Err,
        _ => false,
    }
}

/// A run ends with an I/O error only if a failure was reported to it.
pub proof fn io_errors_come_from_failures(
    executor: ExecutorModel,
    request: Request,
    events: Seq<EventModel>,
)
    requires
        request.run(executor, events) matches ExecutionModel::Finished { result: Err(error) }
            && error is IoError,
    ensures
        exists|i: int| 0 <= i < events.len() && reports_failure(#[trigger] events[i]),
    decreases events.len(),
{
    if events.len() > 0 {
        let before = events.drop_last();
        if request.run(executor, before) is Finished {
            io_errors_come_from_failures(executor, request, before);
            let i = choose|i: int| 0 <= i < before.len() && reports_failure(#[trigger] before[i]);
            assert(events[i] == before[i]);
        } else {
            assert(events[events.len() - 1] == events.last());
        }
    }
}

/// Formatting yields the standard output of the tool if the run ended with exit
/// code 0 and the tool writes to standard output; a run that ended otherwise
/// yields an error.
pub proof fn formatting_yields_stdout_on_success(
    executor: ExecutorModel,
    request: Request,
    events: Seq<EventModel>,
    text: Seq<char>,
)
    requires
        request.run(executor, events) is Finished,
    ensures
        output::formatted(request.tool, request.run(executor, events)->result) == Ok::<
            Seq<char>,
            ErrorModel,
        >(text) <==> (request.tool.stdout && (request.run(executor, events)->result matches Ok(
            output,
        ) && output.exit_code == 0 && output.stdout == text)),
{
    success_is_exit_code_zero(executor, request, events);
}

} // verus!
