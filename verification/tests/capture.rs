use runnable::{ExitStatus, OutputStream, PendingOutput, RunnableHandle};

#[test]
fn hello_without_newline() {
    let mut output = PendingOutput::new();
    assert!(output.record_read(OutputStream::Stdout, b"Hello!"));
    assert!(!output.record_read(OutputStream::Stdout, b""));
    assert!(!output.record_read(OutputStream::Stderr, b""));
    assert_eq!(output.full_output(), Some("Hello!".to_string()));

    let (mut handle, _registration) = RunnableHandle::new(Some(output));
    let result = handle.poll(Some(Ok(ExitStatus::new(Some(0))))).unwrap().unwrap();
    assert!(result.status.unwrap().success());
    assert_eq!(result.output.unwrap().full_output(), Some("Hello!".to_string()));
}

#[test]
fn new_capture_is_empty_and_open() {
    let mut output = PendingOutput::new();
    assert_eq!(output.snapshot(), "");
    assert_eq!(output.full_output(), None);
    assert_eq!(output.subscribe(), None);
    assert!(!output.is_finished(OutputStream::Stdout));
    assert!(!output.is_finished(OutputStream::Stderr));
}

#[test]
fn lines_merge_in_arrival_order() {
    let mut output = PendingOutput::new();
    assert!(output.record_read(OutputStream::Stdout, b"one\n"));
    assert!(output.record_read(OutputStream::Stderr, b"warn\n"));
    assert!(output.record_read(OutputStream::Stdout, b"two\n"));
    assert_eq!(output.snapshot(), "one\nwarn\ntwo\n");
    assert_eq!(output.subscribe(), Some("one\n".to_string()));
    assert_eq!(output.subscribe(), Some("warn\n".to_string()));
    assert!(output.record_read(OutputStream::Stderr, b"late"));
    assert_eq!(output.subscribe(), Some("two\n".to_string()));
    assert_eq!(output.subscribe(), Some("late".to_string()));
    assert_eq!(output.subscribe(), None);
    assert_eq!(output.snapshot(), "one\nwarn\ntwo\nlate");
}

#[test]
fn full_output_waits_for_both_streams() {
    let mut output = PendingOutput::new();
    output.record_read(OutputStream::Stdout, b"a\n");
    assert_eq!(output.full_output(), None);
    assert!(!output.record_read(OutputStream::Stdout, b""));
    assert!(output.is_finished(OutputStream::Stdout));
    assert_eq!(output.full_output(), None);
    assert!(output.record_read(OutputStream::Stderr, b"b\n"));
    assert!(!output.record_read(OutputStream::Stderr, b""));
    assert_eq!(output.full_output(), Some("a\nb\n".to_string()));
}

#[test]
fn read_error_ends_only_its_stream() {
    let mut output = PendingOutput::new();
    output.record_read(OutputStream::Stdout, b"partial");
    output.record_read_error(OutputStream::Stdout);
    assert!(output.is_finished(OutputStream::Stdout));
    assert!(!output.is_finished(OutputStream::Stderr));
    assert_eq!(output.full_output(), None);
    assert!(output.record_read(OutputStream::Stderr, b"still here\n"));
    output.record_read_error(OutputStream::Stderr);
    assert_eq!(output.full_output(), Some("partialstill here\n".to_string()));
}

#[test]
fn reads_after_the_end_are_ignored() {
    let mut output = PendingOutput::new();
    assert!(!output.record_read(OutputStream::Stdout, b""));
    assert!(!output.record_read(OutputStream::Stdout, b"ghost\n"));
    assert_eq!(output.snapshot(), "");
    assert_eq!(output.subscribe(), None);
}

#[test]
fn invalid_bytes_are_replaced() {
    let mut output = PendingOutput::new();
    assert!(output.record_read(OutputStream::Stdout, &[b'o', b'k', 0xff, b'\n']));
    assert!(output.record_read(OutputStream::Stderr, "h\u{e9}llo\n".as_bytes()));
    assert_eq!(output.snapshot(), "ok\u{fffd}\nh\u{e9}llo\n");
    assert_eq!(output.subscribe(), Some("ok\u{fffd}\n".to_string()));
}

#[test]
fn publish_appends_a_line() {
    let mut output = PendingOutput::new();
    output.publish("x".to_string());
    output.publish("".to_string());
    output.publish("y\n".to_string());
    assert_eq!(output.snapshot(), "xy\n");
    assert_eq!(output.subscribe(), Some("x".to_string()));
    assert_eq!(output.subscribe(), Some("".to_string()));
}

#[test]
fn cloned_capture_is_a_snapshot() {
    let mut output = PendingOutput::new();
    output.record_read(OutputStream::Stdout, b"first\n");
    let mut copy = output.clone();
    output.record_read(OutputStream::Stdout, b"second\n");
    assert_eq!(copy.snapshot(), "first\n");
    assert_eq!(copy.subscribe(), Some("first\n".to_string()));
    assert_eq!(copy.subscribe(), None);
    assert_eq!(output.snapshot(), "first\nsecond\n");
}
