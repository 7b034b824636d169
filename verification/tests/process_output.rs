use agentnotify_desktop::platform::windows::MAX_PROCESS_OUTPUT_BYTES;
use agentnotify_desktop::platform::{
    CapturedOutput, ProcessOutcome, ProcessOutput, ProcessUnknownReason, read_capped,
    unknown_result,
};

#[test]
fn timeout_and_cancellation_are_unknown_results() {
    assert!(unknown_result(ProcessUnknownReason::Timeout).is_unknown());
    assert!(unknown_result(ProcessUnknownReason::Cancelled).is_unknown());
}

#[test]
fn capped_reader_drains_after_reaching_the_limit() {
    let input = vec![b'x'; MAX_PROCESS_OUTPUT_BYTES + 100];
    let chunks: Vec<Vec<u8>> = input.chunks(8 * 1024).map(|c| c.to_vec()).collect();
    let output = read_capped(&chunks, MAX_PROCESS_OUTPUT_BYTES);
    assert_eq!(output.bytes().len(), MAX_PROCESS_OUTPUT_BYTES);
    assert!(output.truncated());
}

#[test]
fn capped_reader_keeps_short_output_whole() {
    let chunks = vec![b"hello ".to_vec(), b"world".to_vec()];
    let output = read_capped(&chunks, 64);
    assert_eq!(output.bytes(), b"hello world");
    assert!(!output.truncated());
}

#[test]
fn capped_reader_keeps_the_first_bytes_exactly_at_the_limit() {
    let chunks = vec![b"abc".to_vec(), b"defg".to_vec()];
    let output = read_capped(&chunks, 5);
    assert_eq!(output.bytes(), b"abcde");
    assert!(output.truncated());
    let exact = read_capped(&chunks, 7);
    assert_eq!(exact.bytes(), b"abcdefg");
    assert!(!exact.truncated());
}

#[test]
fn completed_process_is_not_unknown() {
    let output = ProcessOutput::new(
        Some(3),
        false,
        CapturedOutput::new(b"out".to_vec(), false),
        CapturedOutput::new(Vec::new(), true),
    );
    assert_eq!(output.exit_code(), Some(3));
    assert!(!output.success());
    assert_eq!(output.stdout().bytes(), b"out");
    assert!(output.stderr().truncated());
    assert!(!ProcessOutcome::Completed(output).is_unknown());
}
