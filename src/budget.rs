use vstd::prelude::*;

use crate::span::{ceil_millis, Span, NANOS_PER_MILLI};

verus! {

/// How long one native wait inside a blocking call may last.
#[derive(Clone, Copy, Debug, PartialEq, Eq, Structural)]
pub enum Budget {
    /// The call has no timeout: wait without a bound.
    Unbounded,
    /// Wait at most this many milliseconds.
    Millis(u64),
    /// The deadline has passed: the call times out without waiting again.
    Expired,
}

/// The wait left to a call whose timeout is `timeout` once `elapsed` has
/// passed since it began. The rest of the time is rounded up to whole
/// milliseconds and cut at `cap`, the longest bounded wait the native
/// primitive takes.
pub open spec fn budget_of(timeout: Option<Span>, elapsed: Span, cap: u64) -> Budget {
    match timeout {
        None => Budget::Unbounded,
        Some(t) => if elapsed.nanos > t.nanos {
            Budget::Expired
        } else {
            let m = ceil_millis(t.nanos - elapsed.nanos);
            Budget::Millis(if m >= cap { cap } else { m as u64 })
        },
    }
}

/// Computes the wait left to a call from the one deadline fixed at its entry:
/// every re-wait of the call asks again with the time elapsed so far, so that
/// no re-wait opens a fresh timeout window.
pub fn wait_budget(timeout: Option<Span>, elapsed: Span, cap: u64) -> (r: Budget)
    ensures
        r == budget_of(timeout, elapsed, cap),
{
    match timeout {
        None => Budget::Unbounded,
        Some(t) => match t.checked_sub(elapsed) {
            None => Budget::Expired,
            Some(rest) => {
                let m = rest.millis_ceil();
                if m >= cap as u128 {
                    Budget::Millis(cap)
                } else {
                    Budget::Millis(m as u64)
                }
            },
        },
    }
}

/// The first wait of a call: the rest of the time as for `budget_of`, but
/// floored at zero rather than expired, so that every call looks at the
/// device at least once. A zero timeout is thus one wait of no time: a
/// non-blocking poll.
pub open spec fn first_budget_of(timeout: Option<Span>, elapsed: Span, cap: u64) -> Budget {
    match budget_of(timeout, elapsed, cap) {
        Budget::Expired => Budget::Millis(0),
        b => b,
    }
}

/// Computes the first wait of a call; see `first_budget_of`.
pub fn first_wait_budget(timeout: Option<Span>, elapsed: Span, cap: u64) -> (r: Budget)
    ensures
        r == first_budget_of(timeout, elapsed, cap),
        r != Budget::Expired,
        timeout.is_some() <==> r != Budget::Unbounded,
{
    match wait_budget(timeout, elapsed, cap) {
        Budget::Expired => Budget::Millis(0),
        b => b,
    }
}

/// A call with a timeout `t` never waits without a bound. Its budget runs
/// out only after the deadline has passed; a bounded wait granted before
/// then ends at most one millisecond after the deadline and, unless the cap
/// shortened it, not before the deadline.
pub proof fn lemma_budget_meets_deadline(t: Span, elapsed: Span, cap: u64)
    ensures
        match budget_of(Some(t), elapsed, cap) {
            Budget::Unbounded => false,
            Budget::Expired => elapsed.nanos > t.nanos,
            Budget::Millis(m) => {
                &&& elapsed.nanos <= t.nanos
                &&& elapsed.nanos + m * NANOS_PER_MILLI <= t.nanos + NANOS_PER_MILLI
                &&& m < cap ==> elapsed.nanos + m * NANOS_PER_MILLI >= t.nanos
            },
        },
{
    if elapsed.nanos <= t.nanos {
        let r = t.nanos - elapsed.nanos;
        let m = ceil_millis(r);
        assert(m * 1_000_000 >= r && m * 1_000_000 < r + 1_000_000) by (nonlinear_arith)
            requires
                m == (r + 999_999) / 1_000_000,
                r >= 0,
        ;
        if m >= cap {
            assert(cap * 1_000_000 <= m * 1_000_000) by (nonlinear_arith)
                requires
                    cap <= m,
            ;
        }
    }
}

} // verus!
