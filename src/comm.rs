use vstd::prelude::*;

use crate::budget::{budget_of, first_budget_of, first_wait_budget, wait_budget, Budget};
use crate::span::{ceil_millis, Span};

verus! {

/// The largest value of a 32-bit timeout field.
pub const MAXDWORD: u32 = 0xffff_ffff;

/// The wait timeout that means "no bound".
pub const INFINITE: u32 = 0xffff_ffff;

/// The five timeout fields that a communications device takes, in
/// milliseconds.
#[derive(Clone, Copy, Debug, PartialEq, Eq, Structural)]
pub struct CommTimeouts {
    pub read_interval: u32,
    pub read_total_multiplier: u32,
    pub read_total_constant: u32,
    pub write_total_multiplier: u32,
    pub write_total_constant: u32,
}

/// `d` in milliseconds, rounded up and clamped into `[lo, hi]`.
pub open spec fn clamped_millis(d: Span, lo: int, hi: int) -> int {
    let m = ceil_millis(d.nanos as int);
    if m < lo {
        lo
    } else if m > hi {
        hi
    } else {
        m
    }
}

fn clamp_millis(d: Span, lo: u32, hi: u32) -> (r: u32)
    requires
        lo <= hi,
    ensures
        r == clamped_millis(d, lo as int, hi as int),
{
    let m = d.millis_ceil();
    if m < lo as u128 {
        lo
    } else if m > hi as u128 {
        hi
    } else {
        m as u32
    }
}

/// The fields for a device on which the kernel enforces the timeouts: a
/// read returns as soon as any byte is there, or once the read timeout has
/// passed with none; a write gives up after the write timeout. A bounded
/// timeout is rounded up to whole milliseconds and clamped at
/// `MAXDWORD - 1`, the longest wait the fields can bound. A zero timeout
/// makes reads return at once with what is there, and writes wait the
/// shortest time the fields allow, one millisecond, since they cannot ask
/// for a non-blocking write. Without a timeout, writes block, and reads wait
/// the longest bounded time, after which the caller queues the read again.
pub open spec fn kernel_timeouts_of(timeout: Option<Span>) -> CommTimeouts {
    match timeout {
        None => CommTimeouts {
            read_interval: MAXDWORD,
            read_total_multiplier: MAXDWORD,
            read_total_constant: (MAXDWORD - 1) as u32,
            write_total_multiplier: 0,
            write_total_constant: 0,
        },
        Some(d) => {
            let ms = clamped_millis(d, 1, MAXDWORD - 1) as u32;
            if d.nanos == 0 {
                CommTimeouts {
                    read_interval: MAXDWORD,
                    read_total_multiplier: 0,
                    read_total_constant: 0,
                    write_total_multiplier: 0,
                    write_total_constant: ms,
                }
            } else {
                CommTimeouts {
                    read_interval: MAXDWORD,
                    read_total_multiplier: MAXDWORD,
                    read_total_constant: ms,
                    write_total_multiplier: 0,
                    write_total_constant: ms,
                }
            }
        },
    }
}

/// Computes `kernel_timeouts_of`.
pub fn kernel_timeouts(timeout: Option<Span>) -> (r: CommTimeouts)
    ensures
        r == kernel_timeouts_of(timeout),
{
    match timeout {
        None => CommTimeouts {
            read_interval: MAXDWORD,
            read_total_multiplier: MAXDWORD,
            read_total_constant: MAXDWORD - 1,
            write_total_multiplier: 0,
            write_total_constant: 0,
        },
        Some(d) => {
            let ms = clamp_millis(d, 1, MAXDWORD - 1);
            if d.is_zero() {
                CommTimeouts {
                    read_interval: MAXDWORD,
                    read_total_multiplier: 0,
                    read_total_constant: 0,
                    write_total_multiplier: 0,
                    write_total_constant: ms,
                }
            } else {
                CommTimeouts {
                    read_interval: MAXDWORD,
                    read_total_multiplier: MAXDWORD,
                    read_total_constant: ms,
                    write_total_multiplier: 0,
                    write_total_constant: ms,
                }
            }
        },
    }
}

/// The write timeout field of a device whose reads wait on event objects:
/// `0` means no bound, so a timeout is rounded up and clamped into
/// `[1, MAXDWORD]`; a zero timeout becomes the shortest wait, one
/// millisecond, since the field cannot ask for a non-blocking write.
pub open spec fn write_timeout_field(timeout: Option<Span>) -> u32 {
    match timeout {
        None => 0,
        Some(d) => clamped_millis(d, 1, MAXDWORD as int) as u32,
    }
}

/// The fields for a device whose reads wait on event objects: reads never
/// block in the kernel, since the caller bounds the wait for data itself,
/// and writes take the write timeout field.
pub fn event_timeouts(timeout: Option<Span>) -> (r: CommTimeouts)
    ensures
        r == (CommTimeouts {
            read_interval: MAXDWORD,
            read_total_multiplier: 0,
            read_total_constant: 0,
            write_total_multiplier: 0,
            write_total_constant: write_timeout_field(timeout),
        }),
{
    let write = match timeout {
        None => 0,
        Some(d) => clamp_millis(d, 1, MAXDWORD),
    };
    CommTimeouts {
        read_interval: MAXDWORD,
        read_total_multiplier: 0,
        read_total_constant: 0,
        write_total_multiplier: 0,
        write_total_constant: write,
    }
}

/// The wait timeout, in milliseconds, of a read whose timeout is `timeout`
/// once `elapsed` has passed since it began, or `None` once the deadline has
/// passed. No timeout is `INFINITE`; a bounded one is rounded up and clamped
/// at `INFINITE - 1`, and a zero timeout at entry checks without waiting.
pub open spec fn wait_millis_of(timeout: Option<Span>, elapsed: Span) -> Option<u32> {
    match budget_of(timeout, elapsed, (INFINITE - 1) as u64) {
        Budget::Unbounded => Some(INFINITE),
        Budget::Millis(m) => Some(m as u32),
        Budget::Expired => None,
    }
}

/// Computes `wait_millis_of`: every wait of one read call asks again with
/// the time elapsed since the call began, so that time spent waiting for the
/// read lock or on a spurious wake-up counts against the one timeout.
pub fn wait_millis(timeout: Option<Span>, elapsed: Span) -> (r: Option<u32>)
    ensures
        r == wait_millis_of(timeout, elapsed),
        timeout.is_some() ==> r != Some(INFINITE),
{
    match wait_budget(timeout, elapsed, (INFINITE - 1) as u64) {
        Budget::Unbounded => Some(INFINITE),
        Budget::Millis(m) => Some(m as u32),
        Budget::Expired => None,
    }
}

/// The wait timeout, in milliseconds, of the first wait of a read: as
/// `wait_millis_of`, but once the deadline has passed it is zero, a check
/// without waiting, rather than no wait at all.
pub open spec fn first_wait_millis_of(timeout: Option<Span>, elapsed: Span) -> u32 {
    match first_budget_of(timeout, elapsed, (INFINITE - 1) as u64) {
        Budget::Millis(m) => m as u32,
        _ => INFINITE,
    }
}

/// Computes `first_wait_millis_of`.
pub fn first_wait_millis(timeout: Option<Span>, elapsed: Span) -> (r: u32)
    ensures
        r == first_wait_millis_of(timeout, elapsed),
        timeout.is_some() ==> r != INFINITE,
        timeout == Some(Span { nanos: 0 }) ==> r == 0,
{
    match first_wait_budget(timeout, elapsed, (INFINITE - 1) as u64) {
        Budget::Millis(m) => m as u32,
        _ => INFINITE,
    }
}

} // verus!
