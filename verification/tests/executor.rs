use tool_executor::execution::POLL_INTERVAL_MS;
use tool_executor::output::{formatted_text, ReaderOutcome};
use tool_executor::probe::{Probe, ProbeAnswer};
use tool_executor::{
    Action, Availability, Event, Execution, ExecutorError, Platform, ToolDefinition, ToolExecutor, ToolOutput,
};

fn tool(command: &[&str], stdin: bool) -> ToolDefinition {
    ToolDefinition {
        command: command.iter().map(|s| s.to_string()).collect(),
        stdin,
        stdout: true,
        lint_args: vec![],
        format_args: vec![],
    }
}

fn result(execution: Execution) -> Result<ToolOutput, ExecutorError> {
    match execution {
        Execution::Finished { result } => result,
        Execution::Pending { .. } => panic!("the run is not finished"),
    }
}

fn found() -> Event {
    Event::Probed { answer: ProbeAnswer::LocatorExited { code: Some(0) } }
}

fn text(s: &str) -> Event {
    Event::Joined { reader: ReaderOutcome::Text { text: s.to_string() } }
}

fn advance_all(executor: &mut ToolExecutor, execution: Execution, events: Vec<Event>) -> Execution {
    let mut execution = execution;
    for event in events {
        execution = executor.advance(execution, event);
    }
    execution
}

#[test]
fn test_executor_creation() {
    let executor = ToolExecutor::new(10_000);
    // Just verify it creates successfully
    assert_eq!(executor.default_timeout_ms(), 10_000);
}

#[test]
fn test_tool_not_found() {
    let mut executor = ToolExecutor::default();
    let tool_def = ToolDefinition {
        command: vec!["nonexistent-tool-xyz123".to_string()],
        stdin: true,
        stdout: true,
        lint_args: vec![],
        format_args: vec![],
    };

    let execution = executor.execute(&tool_def, "test", false, None, Platform::Unix);
    match execution.action() {
        Action::Probe { probe, tool } => {
            assert_eq!(probe, Probe::Which);
            assert_eq!(tool, "nonexistent-tool-xyz123");
        }
        other => panic!("unexpected action {other:?}"),
    }
    let answer = ProbeAnswer::LocatorExited { code: Some(1) };
    let execution = executor.advance(execution, Event::Probed { answer });
    let result = result(execution);
    assert!(matches!(result, Err(ExecutorError::ToolNotFound { .. })));
    assert!(matches!(result, Err(ExecutorError::ToolNotFound { tool }) if tool == "nonexistent-tool-xyz123"));
}

#[test]
fn test_empty_command() {
    let mut executor = ToolExecutor::default();
    let tool_def = ToolDefinition {
        command: vec![],
        stdin: true,
        stdout: true,
        lint_args: vec![],
        format_args: vec![],
    };

    let execution = executor.execute(&tool_def, "test", false, None, Platform::Unix);
    assert!(matches!(execution.action(), Action::Return));
    let result = result(execution);
    assert!(matches!(result, Err(ExecutorError::ExecutionFailed { .. })));
    match result {
        Err(ExecutorError::ExecutionFailed { tool, message }) => {
            assert_eq!(tool, "unknown");
            assert_eq!(message, "Empty command");
        }
        other => panic!("unexpected result {other:?}"),
    }
}

#[test]
fn default_timeout_is_thirty_seconds() {
    assert_eq!(ToolExecutor::default().default_timeout_ms(), 30_000);
}

#[test]
fn process_run_from_probe_to_output() {
    let mut executor = ToolExecutor::default();
    let tool_def = tool(&["cat"], true);
    let execution = executor.execute(&tool_def, "hello world", false, None, Platform::Unix);
    let execution = executor.advance(execution, found());
    match execution.action() {
        Action::Spawn { program, args, pipe_stdin } => {
            assert_eq!(program, "cat");
            assert!(args.is_empty());
            assert!(pipe_stdin);
        }
        other => panic!("unexpected action {other:?}"),
    }
    let execution = executor.advance(execution, Event::Spawned);
    match execution.action() {
        Action::WriteStdin { input } => assert_eq!(input, "hello world"),
        other => panic!("unexpected action {other:?}"),
    }
    let execution = executor.advance(execution, Event::StdinWritten);
    assert!(matches!(execution.action(), Action::Poll));
    let execution = executor.advance(execution, Event::StillRunning { elapsed_ms: 29_999 });
    assert!(matches!(execution.action(), Action::Sleep { ms } if ms == POLL_INTERVAL_MS && ms == 10));
    let execution = executor.advance(execution, Event::Slept);
    assert!(matches!(execution.action(), Action::Poll));
    let execution = executor.advance(execution, Event::Exited { code: Some(0) });
    assert!(matches!(execution.action(), Action::JoinStdout));
    let execution = executor.advance(execution, text("hello world"));
    assert!(matches!(execution.action(), Action::JoinStderr));
    let execution = executor.advance(execution, text("note"));
    let output = result(execution).unwrap();
    assert!(output.success);
    assert_eq!(output.exit_code, 0);
    assert_eq!(output.stdout, "hello world");
    assert_eq!(output.stderr, "note");
}

#[test]
fn run_past_its_deadline_times_out() {
    let mut executor = ToolExecutor::new(60_000);
    let tool_def = tool(&["sleep", "1"], false);
    let execution = executor.execute(&tool_def, "", false, Some(5), Platform::Unix);
    let execution = advance_all(&mut executor, execution, vec![found(), Event::Spawned]);
    assert!(matches!(execution.action(), Action::Poll));
    let execution = executor.advance(execution, Event::StillRunning { elapsed_ms: 5 });
    assert!(matches!(execution.action(), Action::Kill));
    let execution = executor.advance(execution, Event::Killed);
    assert!(matches!(execution.action(), Action::Reap));
    let execution = executor.advance(execution, Event::Reaped);
    assert!(matches!(execution.action(), Action::JoinStdout));
    let execution = executor.advance(execution, Event::Joined { reader: ReaderOutcome::Panicked });
    assert!(matches!(execution.action(), Action::JoinStderr));
    let execution = executor.advance(execution, text("ignored"));
    let error = result(execution).unwrap_err();
    assert_eq!(error.to_string(), "Tool 'sleep' timed out after 5ms");
}

#[test]
fn zero_timeout_waits_without_polling() {
    let mut executor = ToolExecutor::new(0);
    let tool_def = tool(&["tool"], false);
    let execution = executor.lint(&tool_def, "", None, Platform::Unix);
    let execution = advance_all(&mut executor, execution, vec![found(), Event::Spawned]);
    assert!(matches!(execution.action(), Action::Wait));
    // A poll result does not answer a wait.
    let execution = executor.advance(execution, Event::StillRunning { elapsed_ms: 1_000_000 });
    assert!(matches!(execution.action(), Action::Wait));
    let execution = executor.advance(execution, Event::StatusFailed { error: "gone".to_string() });
    assert_eq!(result(execution).unwrap_err().to_string(), "I/O error: Failed to wait for 'tool': gone");
}

#[test]
fn mode_selects_the_extra_arguments() {
    let mut executor = ToolExecutor::new(1_000);
    let tool_def = ToolDefinition {
        command: vec!["ruff".to_string(), "--quiet".to_string()],
        stdin: true,
        stdout: true,
        lint_args: vec!["check".to_string(), "-".to_string()],
        format_args: vec!["format".to_string()],
    };
    let _ = executor.record_probe("ruff", &ProbeAnswer::LocatorExited { code: Some(0) });
    match executor.lint(&tool_def, "", None, Platform::Unix).action() {
        Action::Spawn { args, .. } => assert_eq!(args, vec!["--quiet", "check", "-"]),
        other => panic!("unexpected action {other:?}"),
    }
    match executor.format(&tool_def, "", None, Platform::Unix).action() {
        Action::Spawn { args, .. } => assert_eq!(args, vec!["--quiet", "format"]),
        other => panic!("unexpected action {other:?}"),
    }
}

#[test]
fn process_failures_name_the_operation() {
    let cases = vec![
        (vec![Event::SpawnFailed { error: "denied".to_string() }], "Failed to spawn 'tool': denied"),
        (
            vec![Event::Spawned, Event::StdinFailed { broken_pipe: false, error: "full".to_string() }],
            "Failed to write to stdin: full",
        ),
        (
            vec![Event::Spawned, Event::StdinWritten, Event::StatusFailed { error: "lost".to_string() }],
            "Failed to poll 'tool': lost",
        ),
        (
            vec![
                Event::Spawned,
                Event::StdinWritten,
                Event::Exited { code: Some(0) },
                Event::Joined { reader: ReaderOutcome::Panicked },
            ],
            "Output reader thread panicked",
        ),
        (
            vec![
                Event::Spawned,
                Event::StdinWritten,
                Event::Exited { code: Some(0) },
                text("out"),
                Event::Joined { reader: ReaderOutcome::Failed { error: "cut".to_string() } },
            ],
            "Failed to read output: cut",
        ),
    ];
    for (events, expected) in cases {
        let mut executor = ToolExecutor::new(1_000);
        let execution = executor.execute(&tool(&["tool"], true), "in", true, None, Platform::Unix);
        let execution = executor.advance(execution, found());
        match result(advance_all(&mut executor, execution, events)) {
            Err(ExecutorError::IoError { message }) => assert_eq!(message, expected),
            other => panic!("unexpected result {other:?}"),
        }
    }
}

#[test]
fn broken_or_missing_stdin_is_ignored() {
    for event in [Event::StdinFailed { broken_pipe: true, error: "EPIPE".to_string() }, Event::StdinAbsent] {
        let mut executor = ToolExecutor::new(1_000);
        let execution = executor.execute(&tool(&["true"], true), "in", true, None, Platform::Unix);
        let execution = advance_all(&mut executor, execution, vec![found(), Event::Spawned, event]);
        assert!(matches!(execution.action(), Action::Poll));
    }
}

#[test]
fn signal_and_missing_readers() {
    let mut executor = ToolExecutor::new(0);
    let execution = executor.execute(&tool(&["tool"], false), "", false, None, Platform::Unix);
    let events = vec![
        found(),
        Event::Spawned,
        Event::Exited { code: None },
        Event::Joined { reader: ReaderOutcome::Absent },
        Event::Joined { reader: ReaderOutcome::Absent },
    ];
    let output = result(advance_all(&mut executor, execution, events)).unwrap();
    assert_eq!(output.exit_code, -1);
    assert!(!output.success);
    assert_eq!(output.stdout, "");
    assert_eq!(output.stderr, "");
}

#[test]
fn availability_is_cached() {
    let mut executor = ToolExecutor::new(1_000);
    assert_eq!(executor.is_tool_available("cat", Platform::Unix), Availability::Unknown { probe: Probe::Which });
    assert_eq!(executor.is_tool_available("cat", Platform::Unix), Availability::Unknown { probe: Probe::Which });
    let execution = executor.execute(&tool(&["cat"], true), "", false, None, Platform::Unix);
    let _ = executor.advance(execution, found());
    assert_eq!(executor.is_tool_available("cat", Platform::Unix), Availability::Known { available: true });
    assert_eq!(executor.is_tool_available("dog", Platform::Unix), Availability::Unknown { probe: Probe::Which });
    assert!(!executor.record_probe("dog", &ProbeAnswer::LocatorFailed));
    assert_eq!(executor.is_tool_available("dog", Platform::Unix), Availability::Known { available: false });
    assert_eq!(executor.is_tool_available("cat", Platform::Unix), Availability::Known { available: true });
    let execution = executor.execute(&tool(&["dog"], true), "", false, None, Platform::Unix);
    assert_eq!(result(execution).unwrap_err().to_string(), "Tool 'dog' not found in PATH");
}

#[test]
fn platforms_probe_differently() {
    let exists = |platform, name: &str| ToolExecutor::new(0).check_tool_exists(name, platform);
    assert_eq!(exists(Platform::Unix, ""), Availability::Unknown { probe: Probe::Which });
    assert_eq!(exists(Platform::Windows, "cat"), Availability::Unknown { probe: Probe::Where });
    assert_eq!(exists(Platform::Wasi, "cat"), Availability::Unknown { probe: Probe::Host });
    assert_eq!(exists(Platform::Wasi, ""), Availability::Known { available: false });
    assert_eq!(exists(Platform::Other, "cat"), Availability::Known { available: false });

    let mut executor = ToolExecutor::new(0);
    let execution = executor.execute(&tool(&["cat"], true), "", false, None, Platform::Other);
    assert!(matches!(result(execution), Err(ExecutorError::ToolNotFound { .. })));
    assert_eq!(executor.is_tool_available("cat", Platform::Other), Availability::Known { available: false });
}

#[test]
fn locating_programs() {
    assert_eq!(Probe::Which.locator(), Some("which"));
    assert_eq!(Probe::Where.locator(), Some("where"));
    assert_eq!(Probe::Host.locator(), None);
}

#[test]
fn probe_answers() {
    assert!(ProbeAnswer::LocatorExited { code: Some(0) }.found());
    assert!(!ProbeAnswer::LocatorExited { code: Some(1) }.found());
    assert!(!ProbeAnswer::LocatorExited { code: None }.found());
    assert!(!ProbeAnswer::LocatorFailed.found());
    assert!(ProbeAnswer::Host { answer: -7 }.found());
    assert!(!ProbeAnswer::Host { answer: 0 }.found());
}

#[test]
fn hosted_run() {
    let mut executor = ToolExecutor::new(1_234);
    let mut tool_def = tool(&["fmt", "-q"], true);
    tool_def.format_args = vec!["é".to_string()];
    let execution = executor.format(&tool_def, "doc", None, Platform::Wasi);
    let answer = ProbeAnswer::Host { answer: 1 };
    let execution = executor.advance(execution, Event::Probed { answer });
    match execution.action() {
        Action::CallHost { tool, framed_args, stdin, timeout_ms } => {
            assert_eq!(tool, "fmt");
            assert_eq!(framed_args, vec![2, 0, 0, 0, 0x2d, 0x71, 2, 0, 0, 0, 0xc3, 0xa9]);
            assert_eq!(stdin, "doc");
            assert_eq!(timeout_ms, 1_234);
        }
        other => panic!("unexpected action {other:?}"),
    }
    let event = Event::HostReturned { exit_code: 3, stdout: "o".to_string(), stderr: "e".to_string() };
    let output = result(executor.advance(execution, event)).unwrap();
    assert_eq!(output.exit_code, 3);
    assert!(!output.success);
    assert_eq!(output.stdout, "o");
    assert_eq!(output.stderr, "e");

    tool_def.stdin = false;
    match executor.lint(&tool_def, "doc", Some(9), Platform::Wasi).action() {
        Action::CallHost { stdin, timeout_ms, .. } => {
            assert_eq!(stdin, "");
            assert_eq!(timeout_ms, 9);
        }
        other => panic!("unexpected action {other:?}"),
    }
}

#[test]
fn default_executor_goes_by_the_platform() {
    for (platform, expected) in [(Platform::Unix, Probe::Which), (Platform::Windows, Probe::Where), (Platform::Wasi, Probe::Host)] {
        let mut executor = ToolExecutor::default();
        let execution = executor.lint(&tool(&["cat"], true), "", None, platform);
        assert!(matches!(execution.action(), Action::Probe { probe, .. } if probe == expected));
    }
}

#[test]
fn events_out_of_turn_start_nothing() {
    let mut executor = ToolExecutor::new(1_000);
    let execution = executor.execute(&tool(&["cat"], false), "", false, None, Platform::Unix);
    let execution = advance_all(&mut executor, execution, vec![Event::Spawned, Event::Exited { code: Some(0) }]);
    assert!(matches!(execution.action(), Action::Probe { .. }));
    let execution = advance_all(&mut executor, execution, vec![found(), Event::Spawned, Event::Spawned]);
    assert!(matches!(execution.action(), Action::Poll));
    // A second answer to the probe comes too late to change what is known.
    let late = Event::Probed { answer: ProbeAnswer::LocatorFailed };
    let execution = executor.advance(execution, late);
    assert!(matches!(execution.action(), Action::Poll));
    assert_eq!(executor.is_tool_available("cat", Platform::Unix), Availability::Known { available: true });
}

#[test]
fn cached_answers_outlast_later_use() {
    let mut executor = ToolExecutor::new(1_000);
    assert!(executor.record_probe("cat", &ProbeAnswer::LocatorExited { code: Some(0) }));
    for _ in 0..3 {
        let execution = executor.execute(&tool(&["cat"], false), "", false, None, Platform::Unix);
        let failed = Event::Probed { answer: ProbeAnswer::LocatorFailed };
        let spawn_failed = Event::SpawnFailed { error: "gone".to_string() };
        let execution = advance_all(&mut executor, execution, vec![failed, spawn_failed]);
        assert!(matches!(result(execution), Err(ExecutorError::IoError { .. })));
        let execution = executor.lint(&tool(&["dog"], false), "", None, Platform::Other);
        assert!(matches!(result(execution), Err(ExecutorError::ToolNotFound { .. })));
        for platform in [Platform::Unix, Platform::Windows, Platform::Wasi, Platform::Other] {
            assert_eq!(executor.is_tool_available("cat", platform), Availability::Known { available: true });
        }
    }
}

#[test]
fn finished_runs_ignore_events() {
    let mut executor = ToolExecutor::new(1_000);
    let execution = executor.execute(&tool(&[], true), "", false, None, Platform::Unix);
    let execution = advance_all(&mut executor, execution, vec![found(), Event::Spawned, Event::Killed]);
    assert!(matches!(result(execution), Err(ExecutorError::ExecutionFailed { .. })));
}

#[test]
fn formatting_results() {
    let mut tool_def = tool(&["fmt"], true);
    let output = |code, stderr: &str| Ok(ToolOutput::from_process(code, "text".to_string(), stderr.to_string()));

    assert_eq!(formatted_text(&tool_def, output(Some(0), "warn")).unwrap(), "text");
    let error = formatted_text(&tool_def, output(Some(2), "bad input")).unwrap_err();
    assert_eq!(error.to_string(), "Tool 'fmt' failed: Exit code 2: bad input");
    let error = formatted_text(&tool_def, output(None, "")).unwrap_err();
    assert_eq!(error.to_string(), "Tool 'fmt' failed: Exit code -1: ");
    let error = ExecutorError::ToolNotFound { tool: "fmt".to_string() };
    let error = formatted_text(&tool_def, Err(error)).unwrap_err();
    assert_eq!(error.to_string(), "Tool 'fmt' not found in PATH");

    tool_def.stdout = false;
    let error = formatted_text(&tool_def, output(Some(0), "")).unwrap_err();
    assert_eq!(error.to_string(), "Tool 'fmt' failed: Formatter doesn't output to stdout");
    let error = formatted_text(&tool(&[], true), output(Some(1), "x")).unwrap_err();
    assert_eq!(error.to_string(), "Tool '' failed: Exit code 1: x");
}
