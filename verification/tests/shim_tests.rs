use snake::shim::{
    failure_message, failure_status, sleep_outcome, sleep_request, unit_read_outcome,
    write_outcome, RetryStep, SysOp, WriteStep,
};
use snake::term::{decode_escape, has_pending_input, make_raw, Termios, ECHO, ICANON};

#[test]
fn each_failing_operation_has_its_own_status() {
    assert_eq!(failure_status(SysOp::Write), 10);
    assert_eq!(failure_status(SysOp::Read), 11);
    assert_eq!(failure_status(SysOp::Random), 12);
    assert_eq!(failure_status(SysOp::Sleep), 13);
}

#[test]
fn each_failing_operation_has_its_own_diagnostic() {
    assert_eq!(failure_message(SysOp::Write), "write failed");
    assert_eq!(failure_message(SysOp::Read), "read failed");
    assert_eq!(failure_message(SysOp::Random), "getrandom failed");
    assert_eq!(failure_message(SysOp::Sleep), "nanosleep failed");
}

#[test]
fn write_results_are_judged() {
    assert_eq!(write_outcome(-1, 10), WriteStep::Fatal);
    assert_eq!(write_outcome(11, 10), WriteStep::Fatal);
    assert_eq!(write_outcome(0, 10), WriteStep::Advance(0));
    assert_eq!(write_outcome(5, 10), WriteStep::Advance(5));
    assert_eq!(write_outcome(10, 10), WriteStep::Advance(10));
}

#[test]
fn single_byte_reads_retry_on_empty_and_fail_on_error() {
    assert_eq!(unit_read_outcome(-1), RetryStep::Fatal);
    assert_eq!(unit_read_outcome(0), RetryStep::Retry);
    assert_eq!(unit_read_outcome(1), RetryStep::Done);
}

#[test]
fn interrupted_sleeps_are_retried_not_errors() {
    assert_eq!(sleep_outcome(-1), RetryStep::Fatal);
    assert_eq!(sleep_outcome(0), RetryStep::Done);
    assert_eq!(sleep_outcome(1), RetryStep::Retry);
}

#[test]
fn sleep_durations_split_into_seconds_and_nanoseconds() {
    let r = sleep_request(300);
    assert_eq!((r.sec, r.nsec), (0, 300_000_000));
    let r = sleep_request(1234);
    assert_eq!((r.sec, r.nsec), (1, 234_000_000));
    let r = sleep_request(0);
    assert_eq!((r.sec, r.nsec), (0, 0));
}

#[test]
fn raw_mode_clears_canonical_input_and_echo_only() {
    let t = Termios {
        iflag: 0x1234,
        oflag: 0x5678,
        cflag: 0x9abc,
        lflag: 0xffff_ffff,
        line: 3,
        cc: [7; 19],
    };
    let r = make_raw(&t);
    assert_eq!(r.lflag, 0xffff_ffff & !(ICANON | ECHO));
    assert_eq!(r.lflag & ICANON, 0);
    assert_eq!(r.lflag & ECHO, 0);
    assert_eq!(r.iflag, t.iflag);
    assert_eq!(r.oflag, t.oflag);
    assert_eq!(r.cflag, t.cflag);
    assert_eq!(r.line, t.line);
    assert_eq!(r.cc, t.cc);
    // Already-raw settings pass through unchanged.
    let rr = make_raw(&r);
    assert_eq!(rr.lflag, r.lflag);
}

#[test]
fn pending_input_is_any_nonzero_count() {
    assert!(!has_pending_input(0));
    assert!(has_pending_input(1));
    assert!(has_pending_input(42));
}

#[test]
fn arrow_sequences_decode_and_everything_else_is_ignored() {
    assert_eq!(decode_escape(91, 65), Some(3)); // up -> north
    assert_eq!(decode_escape(91, 66), Some(1)); // down -> south
    assert_eq!(decode_escape(91, 67), Some(0)); // right -> east
    assert_eq!(decode_escape(91, 68), Some(2)); // left -> west
    assert_eq!(decode_escape(91, 64), None);
    assert_eq!(decode_escape(91, 69), None);
    assert_eq!(decode_escape(79, 65), None); // no '[' after the escape
}
