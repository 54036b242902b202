//! The executor: starts runs of tools and remembers which tools are available.

use vstd::hash_map::StringHashMap;
use vstd::prelude::*;
use vstd::string::*;

use crate::config::ToolDefinition;
use crate::config::ToolModel;
use crate::error::ErrorModel;
use crate::error::ExecutorError;
use crate::execution;
use crate::execution::Event;
use crate::execution::EventModel;
use crate::execution::Execution;
use crate::execution::ExecutionModel;
use crate::execution::Plan;
use crate::execution::PlanModel;
use crate::execution::Step;
use crate::execution::StepModel;
use crate::probe::Availability;
use crate::probe::Platform;
use crate::probe::Probe;
use crate::probe::ProbeAnswer;

verus! {

/// Timeout of an executor that was given none, in milliseconds.
pub const DEFAULT_TIMEOUT_MS: u64 = 30_000;

/// Executor for running external tools.
///
/// Caches tool availability checks for efficiency.
pub struct ToolExecutor {
    /// Cache of tool availability checks (tool name -> available).
    tool_cache: StringHashMap<bool>,
    /// Default timeout in milliseconds.
    default_timeout_ms: u64,
}

/// The mathematical contents of a [`ToolExecutor`].
pub struct ExecutorModel {
    /// The tools whose availability is known.
    pub cache: Map<Seq<char>, bool>,
    pub default_timeout_ms: u64,
}

impl View for ToolExecutor {
    type V = ExecutorModel;

    closed spec fn view(&self) -> ExecutorModel {
        ExecutorModel { cache: self.tool_cache@, default_timeout_ms: self.default_timeout_ms }
    }
}

/// What a run of `tool` does.
pub open spec fn plan_of(
    tool: ToolModel,
    input: Seq<char>,
    is_format_mode: bool,
    timeout_ms: u64,
    platform: Platform,
) -> PlanModel {
    PlanModel {
        program: tool.command[0],
        args: tool.args(is_format_mode),
        stdin: if tool.stdin {
            Some(input)
        } else {
            None
        },
        timeout_ms,
        hosted: platform == Platform::Wasi,
    }
}

/// The error for a tool without a command.
pub open spec fn empty_command() -> ErrorModel {
    ErrorModel::ExecutionFailed { tool: "unknown"@, message: "Empty command"@ }
}

impl ExecutorModel {
    /// An executor that knows of no tool yet.
    pub open spec fn fresh(default_timeout_ms: u64) -> ExecutorModel {
        ExecutorModel { cache: Map::empty(), default_timeout_ms }
    }

    /// What is known about the tool `name`: what the cache says or, failing
    /// that, what the platform says.
    pub open spec fn lookup(self, name: Seq<char>, platform: Platform) -> Availability {
        if self.cache.contains_key(name) {
            Availability::Known { available: self.cache[name] }
        } else {
            platform.existence(name)
        }
    }

    /// The executor once its cache holds the availability of the tool `name`.
    pub open spec fn knowing(self, name: Seq<char>, available: bool) -> ExecutorModel {
        ExecutorModel { cache: self.cache.insert(name, available), ..self }
    }

    /// The executor after it looked up the tool `name`.
    pub open spec fn having_looked_up(self, name: Seq<char>, platform: Platform) -> ExecutorModel {
        match self.lookup(name, platform) {
            Availability::Known { available } => self.knowing(name, available),
            Availability::Unknown { .. } => self,
        }
    }

    /// The timeout of a run: the one asked for, or else the default.
    pub open spec fn effective_timeout(self, timeout_ms: Option<u64>) -> u64 {
        match timeout_ms {
            Some(ms) => ms,
            None => self.default_timeout_ms,
        }
    }

    /// How a run of `tool` begins.
    pub open spec fn begun(
        self,
        tool: ToolModel,
        input: Seq<char>,
        is_format_mode: bool,
        timeout_ms: Option<u64>,
        platform: Platform,
    ) -> ExecutionModel {
        if tool.command.len() == 0 {
            execution::failed(empty_command())
        } else {
            let plan = plan_of(
                tool,
                input,
                is_format_mode,
                self.effective_timeout(timeout_ms),
                platform,
            );
            match self.lookup(plan.program, platform) {
                Availability::Known { available: true } => ExecutionModel::Pending {
                    plan,
                    step: plan.launch_step(),
                },
                Availability::Known { available: false } => execution::failed(
                    ErrorModel::ToolNotFound { tool: plan.program },
                ),
                Availability::Unknown { probe } => ExecutionModel::Pending {
                    plan,
                    step: StepModel::Probing { probe },
                },
            }
        }
    }

    /// The executor after a run of `tool` has begun.
    pub open spec fn having_begun(self, tool: ToolModel, platform: Platform) -> ExecutorModel {
        if tool.command.len() == 0 {
            self
        } else {
            self.having_looked_up(tool.command[0], platform)
        }
    }

    /// The executor after `execution` took in `event`: it gains the answer to a
    /// probe.
    pub open spec fn having_learned(
        self,
        execution: ExecutionModel,
        event: EventModel,
    ) -> ExecutorModel {
        match (execution, event) {
            (
                ExecutionModel::Pending { plan, step: StepModel::Probing { .. } },
                EventModel::Probed { answer },
            ) => self.knowing(plan.program, answer.says_found()),
            _ => self,
        }
    }
}

impl ToolExecutor {
    /// Create a new executor with the given default timeout.
    pub fn new(default_timeout_ms: u64) -> (executor: Self)
        ensures
            executor@ == ExecutorModel::fresh(default_timeout_ms),
            executor@.default_timeout_ms == default_timeout_ms,
            executor@.cache == Map::<Seq<char>, bool>::empty(),
    {
        ToolExecutor { tool_cache: StringHashMap::new(), default_timeout_ms }
    }

    /// The default timeout in milliseconds.
    pub fn default_timeout_ms(&self) -> (ms: u64)
        ensures
            ms == self@.default_timeout_ms,
    {
        self.default_timeout_ms
    }

    /// How the existence of a tool is checked on `platform`, or the answer where
    /// the platform needs no probe.
    pub fn check_tool_exists(&self, tool_name: &str, platform: Platform) -> (availability:
        Availability)
        ensures
            availability == platform.existence(tool_name@),
            match platform {
                Platform::Unix => availability == (Availability::Unknown { probe: Probe::Which }),
                Platform::Windows => availability == (Availability::Unknown {
                    probe: Probe::Where,
                }),
                Platform::Wasi => if tool_name@.len() == 0 {
                    availability == (Availability::Known { available: false })
                } else {
                    availability == (Availability::Unknown { probe: Probe::Host })
                },
                Platform::Other => availability == (Availability::Known { available: false }),
            },
    {
        match platform {
            Platform::Unix => Availability::Unknown { probe: Probe::Which },
            Platform::Windows => Availability::Unknown { probe: Probe::Where },
            Platform::Wasi => if tool_name.is_empty() {
                Availability::Known { available: false }
            } else {
                Availability::Unknown { probe: Probe::Host }
            },
            Platform::Other => Availability::Known { available: false },
        }
    }

    /// Check if a tool is available (lazy, cached).
    ///
    /// A probe is asked for only where neither the cache nor the platform
    /// knows; its answer goes to [`ToolExecutor::record_probe`].
    pub fn is_tool_available(&mut self, tool_name: &str, platform: Platform) -> (availability:
        Availability)
        ensures
            availability == old(self)@.lookup(tool_name@, platform),
            final(self)@ == old(self)@.having_looked_up(tool_name@, platform),
            old(self)@.cache.contains_key(tool_name@) ==> availability == (Availability::Known {
                available: old(self)@.cache[tool_name@],
            }) && final(self)@ == old(self)@,
            availability matches Availability::Known { available } ==> final(self)@.cache
                == old(self)@.cache.insert(tool_name@, available),
            availability is Unknown ==> final(self)@ == old(self)@,
    {
        match self.tool_cache.get(tool_name) {
            Some(available) => {
                let available = *available;
                assert(old(self)@.cache.insert(tool_name@, available) =~= old(self)@.cache);
                return Availability::Known { available };
            },
            None => {},
        }
        let availability = self.check_tool_exists(tool_name, platform);
        match availability {
            Availability::Known { available } => {
                self.tool_cache.insert(tool_name.to_string(), available);
            },
            Availability::Unknown { .. } => {},
        }
        availability
    }

    /// Takes in the answer to a probe: caches it, and says whether the tool is
    /// available.
    pub fn record_probe(&mut self, tool_name: &str, answer: &ProbeAnswer) -> (available: bool)
        ensures
            available == answer.says_found(),
            final(self)@ == old(self)@.knowing(tool_name@, available),
            final(self)@.cache == old(self)@.cache.insert(tool_name@, available),
            final(self)@.default_timeout_ms == old(self)@.default_timeout_ms,
    {
        let available = answer.found();
        self.tool_cache.insert(tool_name.to_string(), available);
        available
    }

    /// Execute a tool with the given input.
    ///
    /// # Arguments
    /// * `tool_def` - Tool definition with command and arguments
    /// * `input` - Content to pass via stdin
    /// * `is_format_mode` - Whether to use format_args (true) or lint_args (false)
    /// * `timeout_ms` - Optional timeout override
    /// * `platform` - The system that the tool runs on
    ///
    /// # Returns
    /// The run, ready for its first action or already finished. It proceeds by
    /// [`ToolExecutor::advance`].
    pub fn execute(
        &mut self,
        tool_def: &ToolDefinition,
        input: &str,
        is_format_mode: bool,
        timeout_ms: Option<u64>,
        platform: Platform,
    ) -> (execution: Execution)
        ensures
            execution@ == old(self)@.begun(tool_def@, input@, is_format_mode, timeout_ms, platform),
            execution@ matches ExecutionModel::Pending { plan, .. } ==> {
                &&& tool_def@.command.len() > 0
                &&& plan.program == tool_def@.command[0]
                &&& plan.args == tool_def@.command.skip(1) + (if is_format_mode {
                    tool_def@.format_args
                } else {
                    tool_def@.lint_args
                })
                &&& tool_def.stdin ==> plan.stdin == Some(input@)
                &&& !tool_def.stdin ==> plan.stdin is None
                &&& timeout_ms matches Some(ms) ==> plan.timeout_ms == ms
                &&& timeout_ms is None ==> plan.timeout_ms == old(self)@.default_timeout_ms
                &&& plan.hosted <==> platform == Platform::Wasi
            },
            final(self)@ == old(self)@.having_begun(tool_def@, platform),
    {
        if tool_def.command.len() == 0 {
            return Execution::Finished {
                result: Err(
                    ExecutorError::ExecutionFailed {
                        tool: "unknown".to_string(),
                        message: "Empty command".to_string(),
                    },
                ),
            };
        }
        let availability = self.is_tool_available(tool_def.command[0].as_str(), platform);
        let plan = Plan {
            program: tool_def.command[0].clone(),
            args: tool_def.args(is_format_mode),
            stdin: if tool_def.stdin {
                Some(input.to_string())
            } else {
                None
            },
            timeout_ms: match timeout_ms {
                Some(ms) => ms,
                None => self.default_timeout_ms,
            },
            hosted: platform == Platform::Wasi,
        };
        match availability {
            Availability::Known { available } => {
                if available {
                    plan.launch()
                } else {
                    Execution::Finished {
                        result: Err(ExecutorError::ToolNotFound { tool: plan.program }),
                    }
                }
            },
            Availability::Unknown { probe } => Execution::Pending {
                plan,
                step: Step::Probing { probe },
            },
        }
    }

    /// Takes in what came of the action that `execution` asked for. The answer
    /// to a probe is cached. An event that does not answer the pending action
    /// changes nothing.
    pub fn advance(&mut self, execution: Execution, event: Event) -> (next: Execution)
        ensures
            next@ == execution@.after(event@),
            final(self)@ == old(self)@.having_learned(execution@, event@),
    {
        match (&execution, &event) {
            (
                Execution::Pending { plan, step: Step::Probing { .. } },
                Event::Probed { answer },
            ) => {
                let _ = self.record_probe(plan.program.as_str(), answer);
            },
            _ => {},
        }
        execution.next(event)
    }

    /// Execute a tool for formatting. The run's result becomes the formatted
    /// content by [`crate::output::formatted_text`].
    pub fn format(
        &mut self,
        tool_def: &ToolDefinition,
        input: &str,
        timeout_ms: Option<u64>,
        platform: Platform,
    ) -> (execution: Execution)
        ensures
            execution@ == old(self)@.begun(tool_def@, input@, true, timeout_ms, platform),
            execution@ matches ExecutionModel::Pending { plan, .. } ==> {
                &&& tool_def@.command.len() > 0
                &&& plan.program == tool_def@.command[0]
                &&& plan.args == tool_def@.command.skip(1) + tool_def@.format_args
                &&& tool_def.stdin ==> plan.stdin == Some(input@)
                &&& !tool_def.stdin ==> plan.stdin is None
                &&& timeout_ms matches Some(ms) ==> plan.timeout_ms == ms
                &&& timeout_ms is None ==> plan.timeout_ms == old(self)@.default_timeout_ms
                &&& plan.hosted <==> platform == Platform::Wasi
            },
            final(self)@ == old(self)@.having_begun(tool_def@, platform),
    {
        self.execute(tool_def, input, true, timeout_ms, platform)
    }

    /// Execute a tool for linting. The run's result holds the diagnostics.
    pub fn lint(
        &mut self,
        tool_def: &ToolDefinition,
        input: &str,
        timeout_ms: Option<u64>,
        platform: Platform,
    ) -> (execution: Execution)
        ensures
            execution@ == old(self)@.begun(tool_def@, input@, false, timeout_ms, platform),
            execution@ matches ExecutionModel::Pending { plan, .. } ==> {
                &&& tool_def@.command.len() > 0
                &&& plan.program == tool_def@.command[0]
                &&& plan.args == tool_def@.command.skip(1) + tool_def@.lint_args
                &&& tool_def.stdin ==> plan.stdin == Some(input@)
                &&& !tool_def.stdin ==> plan.stdin is None
                &&& timeout_ms matches Some(ms) ==> plan.timeout_ms == ms
                &&& timeout_ms is None ==> plan.timeout_ms == old(self)@.default_timeout_ms
                &&& plan.hosted <==> platform == Platform::Wasi
            },
            final(self)@ == old(self)@.having_begun(tool_def@, platform),
    {
        self.execute(tool_def, input, false, timeout_ms, platform)
    }
}

impl Default for ToolExecutor {
    /// An executor with a timeout of 30 seconds.
    fn default() -> (executor: Self)
        ensures
            executor@ == ExecutorModel::fresh(DEFAULT_TIMEOUT_MS),
            executor@.default_timeout_ms == 30_000,
            executor@.cache == Map::<Seq<char>, bool>::empty(),
    {
        Self::new(DEFAULT_TIMEOUT_MS)
    }
}

} // verus!
