//! The system-call shim's decisions: what a raw call's signed result means,
//! and what to do when one fails for good.
//!
//! The shim's loops — write until the buffer is drained, read or draw
//! random bytes until one arrives, sleep again with the remaining time —
//! are driven by these verdicts; the calls themselves happen outside the
//! library. A fatal failure ends the process with a distinct status per
//! operation and a short diagnostic.

use vstd::prelude::*;

verus! {

/// The four shim operations that can fail fatally.
#[derive(Clone, Copy, PartialEq, Eq, Structural, Debug)]
pub enum SysOp {
    /// Writing to the terminal.
    Write,
    /// Reading a keypress.
    Read,
    /// Drawing random bytes.
    Random,
    /// The inter-tick sleep.
    Sleep,
}

/// The verdict on one raw call's result inside a retry loop.
#[derive(Clone, Copy, PartialEq, Eq, Structural, Debug)]
pub enum RetryStep {
    /// A non-retryable error: print the diagnostic, exit with the status.
    Fatal,
    /// A normal partial outcome: call again.
    Retry,
    /// The operation completed.
    Done,
}

/// The verdict on one raw write's result.
#[derive(Clone, Copy, PartialEq, Eq, Structural, Debug)]
pub enum WriteStep {
    /// A negative or over-long result: print the diagnostic, exit.
    Fatal,
    /// This many bytes left the buffer; write the rest.
    Advance(usize),
}

/// The sleep request handed to the timer call: whole seconds and the
/// nanosecond remainder.
#[derive(Clone, Copy, PartialEq, Eq, Structural, Debug)]
pub struct SleepRequest {
    /// Whole seconds.
    pub sec: i64,
    /// Nanoseconds, below one second.
    pub nsec: i64,
}

/// The exit status for a fatal failure of `op`; each operation has its own,
/// and none is 0.
pub fn failure_status(op: SysOp) -> (s: i32)
    ensures
        s == (match op {
            SysOp::Write => 10i32,
            SysOp::Read => 11i32,
            SysOp::Random => 12i32,
            SysOp::Sleep => 13i32,
        }),
{
    match op {
        SysOp::Write => 10,
        SysOp::Read => 11,
        SysOp::Random => 12,
        SysOp::Sleep => 13,
    }
}

/// The diagnostic printed when `op` fails fatally.
pub fn failure_message(op: SysOp) -> (r: &'static str)
    ensures
        r@ == (match op {
            SysOp::Write => "write failed"@,
            SysOp::Read => "read failed"@,
            SysOp::Random => "getrandom failed"@,
            SysOp::Sleep => "nanosleep failed"@,
        }),
{
    match op {
        SysOp::Write => "write failed",
        SysOp::Read => "read failed",
        SysOp::Random => "getrandom failed",
        SysOp::Sleep => "nanosleep failed",
    }
}

/// Judge one raw write that was asked for `remaining` bytes and returned
/// `n`: negative or more than asked is fatal, anything else is progress of
/// exactly `n` bytes (0 included — the loop simply asks again).
pub fn write_outcome(n: isize, remaining: usize) -> (r: WriteStep)
    ensures
        (n < 0 || n > remaining) ==> r == WriteStep::Fatal,
        (0 <= n <= remaining) ==> r == WriteStep::Advance(n as usize),
{
    if n < 0 {
        WriteStep::Fatal
    } else if n as usize > remaining {
        WriteStep::Fatal
    } else {
        WriteStep::Advance(n as usize)
    }
}

/// Judge one raw single-byte read or random draw that returned `n`:
/// negative is fatal, exactly one byte completes it, and an empty result is
/// a normal outcome to retry.
pub fn unit_read_outcome(n: isize) -> (r: RetryStep)
    ensures
        r == (if n < 0 {
            RetryStep::Fatal
        } else if n == 1 {
            RetryStep::Done
        } else {
            RetryStep::Retry
        }),
{
    if n < 0 {
        RetryStep::Fatal
    } else if n == 1 {
        RetryStep::Done
    } else {
        RetryStep::Retry
    }
}

/// Judge one timer call that returned `n`: negative is fatal, zero means
/// the whole duration elapsed, and anything else means it was interrupted
/// and must be re-invoked with the remaining time.
pub fn sleep_outcome(n: isize) -> (r: RetryStep)
    ensures
        r == (if n < 0 {
            RetryStep::Fatal
        } else if n == 0 {
            RetryStep::Done
        } else {
            RetryStep::Retry
        }),
{
    if n < 0 {
        RetryStep::Fatal
    } else if n == 0 {
        RetryStep::Done
    } else {
        RetryStep::Retry
    }
}

/// Split a duration in milliseconds into the seconds and nanoseconds the
/// timer call takes.
pub fn sleep_request(ms: u32) -> (r: SleepRequest)
    ensures
        r.sec == ms as int / 1000,
        r.nsec == (ms as int % 1000) * 1000000,
{
    SleepRequest { sec: (ms / 1000) as i64, nsec: ((ms % 1000) as i64) * 1000000 }
}

} // verus!
