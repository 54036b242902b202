use tool_executor::framing::frame_args;
use tool_executor::output::{
    host_range_is_empty, join_reader, read_host_string, read_pipe_to_string, ReaderOutcome,
};
use tool_executor::text::{decimal_i32, decimal_u64, decode_lossy};
use tool_executor::ExecutorError;

#[test]
fn decimal_numerals() {
    assert_eq!(decimal_u64(0), "0");
    assert_eq!(decimal_u64(1_234_567_890), "1234567890");
    assert_eq!(decimal_u64(u64::MAX), "18446744073709551615");
    assert_eq!(decimal_i32(42), "42");
    assert_eq!(decimal_i32(-1), "-1");
    assert_eq!(decimal_i32(i32::MIN), "-2147483648");
    assert_eq!(decimal_i32(i32::MAX), "2147483647");
}

#[test]
fn error_messages() {
    let tool = || "x".to_string();
    let message = || "m".to_string();
    assert_eq!(ExecutorError::ToolNotFound { tool: tool() }.to_string(), "Tool 'x' not found in PATH");
    assert_eq!(ExecutorError::ExecutionFailed { tool: tool(), message: message() }.to_string(), "Tool 'x' failed: m");
    assert_eq!(
        ExecutorError::Timeout { tool: tool(), timeout_ms: 30_000 }.to_string(),
        "Tool 'x' timed out after 30000ms"
    );
    assert_eq!(ExecutorError::IoError { message: message() }.to_string(), "I/O error: m");
}

#[test]
fn lossy_decoding() {
    assert_eq!(decode_lossy(b""), "");
    assert_eq!(decode_lossy("naïve ✓".as_bytes()), "naïve ✓");
    assert_eq!(decode_lossy(b"a\xffb"), "a\u{FFFD}b");
    let mixed = decode_lossy(b"n\xc3\xa9 \xff\xe2\x9c \xe2\x9c\x93");
    assert!(mixed.starts_with("n\u{e9} \u{FFFD}"));
    assert!(mixed.ends_with("\u{FFFD} \u{2713}"));
    assert_eq!(read_pipe_to_string(Ok(b"ok\xc3".to_vec())), Ok("ok\u{FFFD}".to_string()));
    assert_eq!(read_pipe_to_string(Ok("gr\u{fc}n".as_bytes().to_vec())), Ok("gr\u{fc}n".to_string()));
    assert_eq!(read_pipe_to_string(Err("broken".to_string())), Err("broken".to_string()));
    assert_eq!(read_host_string(b""), "");
    assert_eq!(read_host_string(b"h\xe9"), "h\u{FFFD}");
}

#[test]
fn host_ranges() {
    assert!(host_range_is_empty(0, 5));
    assert!(host_range_is_empty(64, 0));
    assert!(!host_range_is_empty(64, 5));
}

#[test]
fn reader_outcomes() {
    assert_eq!(join_reader(ReaderOutcome::Absent), Ok(String::new()));
    assert_eq!(join_reader(ReaderOutcome::Panicked), Err("Output reader thread panicked".to_string()));
    assert_eq!(
        join_reader(ReaderOutcome::Failed { error: "eof".to_string() }),
        Err("Failed to read output: eof".to_string())
    );
    assert_eq!(join_reader(ReaderOutcome::Text { text: "t".to_string() }), Ok("t".to_string()));
}

#[test]
fn framed_arguments() {
    assert_eq!(frame_args(&vec![]), Vec::<u8>::new());
    assert_eq!(frame_args(&vec![String::new()]), vec![0, 0, 0, 0]);
    let args = vec!["a\0b".to_string(), "ü".to_string()];
    assert_eq!(frame_args(&args), vec![3, 0, 0, 0, 97, 0, 98, 2, 0, 0, 0, 0xc3, 0xbc]);
    let long = frame_args(&vec!["x".repeat(0x10203)]);
    assert_eq!(long.len(), 4 + 0x10203);
    assert_eq!(&long[..5], &[0x03, 0x02, 0x01, 0x00, b'x']);
    // Neighbouring words are kept apart.
    let joined = vec!["ab".to_string()];
    let split = vec!["a".to_string(), "b".to_string()];
    assert_ne!(frame_args(&joined), frame_args(&split));
}
