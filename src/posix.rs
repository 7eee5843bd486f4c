use vstd::prelude::*;

use crate::budget::{budget_of, first_budget_of, first_wait_budget, wait_budget, Budget};
use crate::error::SerialError;
use crate::span::{ceil_millis, Span, NANOS_PER_MILLI};

verus! {

/// The longest bounded timeout that `poll` takes, in milliseconds.
pub const POLL_CAP: u64 = 0x7fff_ffff;

/// The platform's values for the codes and flags the POSIX strategy reads.
#[derive(Clone, Copy, Debug, PartialEq, Eq, Structural)]
pub struct PosixCodes {
    /// `EBUSY`: `open` of a device that another holder claimed exclusively.
    pub busy: i32,
    /// `EWOULDBLOCK`: a non-blocking lock or transfer that would block.
    pub would_block: i32,
    /// `EAGAIN`: the same, under its other name.
    pub again: i32,
    /// `POLLERR | POLLHUP`: the poll results that mean the device went away.
    pub hangup_mask: i16,
}

/// Whether `code` says that a non-blocking call would have blocked.
pub open spec fn is_would_block(code: i32, codes: PosixCodes) -> bool {
    code == codes.would_block || code == codes.again
}

/// The steps of opening a device, in their order.
#[derive(Clone, Copy, Debug, PartialEq, Eq, Structural)]
pub enum OpenStage {
    /// Opening the device node.
    Open,
    /// Asking the terminal layer for exclusive use.
    Claim,
    /// Taking the whole-file advisory lock, without blocking.
    Lock,
    /// Setting raw mode and the fixed line settings.
    Configure,
}

/// The error that `open` reports when `stage` failed with OS code `code`.
pub open spec fn open_error_of(stage: OpenStage, code: i32, codes: PosixCodes) -> SerialError {
    match stage {
        OpenStage::Open => if code == codes.busy {
            SerialError::ExclusiveAccessDenied
        } else {
            SerialError::Os(code)
        },
        OpenStage::Claim => SerialError::Os(code),
        OpenStage::Lock => if is_would_block(code, codes) {
            SerialError::ExclusiveAccessDenied
        } else {
            SerialError::Os(code)
        },
        OpenStage::Configure => SerialError::ConfigurationFailed(code),
    }
}

/// Classifies the failure of one step of `open`: a device claimed or locked
/// by another holder is `ExclusiveAccessDenied`, a refused configuration is
/// `ConfigurationFailed`, and any other code passes through.
pub fn open_error(stage: OpenStage, code: i32, codes: &PosixCodes) -> (r: SerialError)
    ensures
        r == open_error_of(stage, code, *codes),
        stage == OpenStage::Open && code == codes.busy ==> r == SerialError::ExclusiveAccessDenied,
        stage == OpenStage::Lock && is_would_block(code, *codes) ==> r
            == SerialError::ExclusiveAccessDenied,
        stage == OpenStage::Configure ==> r == SerialError::ConfigurationFailed(code),
{
    match stage {
        OpenStage::Open => if code == codes.busy {
            SerialError::ExclusiveAccessDenied
        } else {
            SerialError::Os(code)
        },
        OpenStage::Claim => SerialError::Os(code),
        OpenStage::Lock => if code == codes.would_block || code == codes.again {
            SerialError::ExclusiveAccessDenied
        } else {
            SerialError::Os(code)
        },
        OpenStage::Configure => SerialError::ConfigurationFailed(code),
    }
}

/// What happened since the last action of a read or write call.
#[derive(Clone, Copy, Debug, PartialEq, Eq, Structural)]
pub enum PollEvent {
    /// The call has just begun.
    Begin,
    /// `poll` returned `ready`, with `errno` set when `ready` is negative and
    /// the result flags `revents`.
    Polled { ready: i32, errno: i32, revents: i16 },
    /// `read` or `write` returned `len`, with `errno` set when `len` is
    /// negative.
    Transferred { len: isize, errno: i32 },
}

/// What a read or write call does next.
#[derive(Clone, Copy, Debug, PartialEq, Eq)]
pub enum PollAction {
    /// Wait for readiness with `poll`, passing this timeout (`-1`: no bound).
    Poll(i32),
    /// Try the non-blocking `read` or `write` once.
    Transfer,
    /// Return this result.
    Finish(Result<usize, SerialError>),
}

/// The `poll` that the budget allows, or the timeout once it ran out.
pub open spec fn wait_or_expire(timeout: Option<Span>, elapsed: Span) -> PollAction {
    match budget_of(timeout, elapsed, POLL_CAP) {
        Budget::Unbounded => PollAction::Poll(-1i32),
        Budget::Millis(m) => PollAction::Poll(m as i32),
        Budget::Expired => PollAction::Finish(Err(SerialError::TimedOut)),
    }
}

/// The first `poll` of a call, which always takes place: once the deadline
/// has passed it checks readiness without waiting.
pub open spec fn first_poll(timeout: Option<Span>, elapsed: Span) -> PollAction {
    match first_budget_of(timeout, elapsed, POLL_CAP) {
        Budget::Millis(m) => PollAction::Poll(m as i32),
        _ => PollAction::Poll(-1i32),
    }
}

/// The step of a read or write call on a non-blocking descriptor, for a
/// buffer of `buf_len` bytes and a call whose timeout is `timeout`, after
/// `event`, `elapsed` after the call began.
pub open spec fn poll_step(
    timeout: Option<Span>,
    buf_len: usize,
    elapsed: Span,
    event: PollEvent,
    codes: PosixCodes,
) -> PollAction {
    match event {
        PollEvent::Begin => if buf_len == 0 {
            PollAction::Finish(Ok(0))
        } else {
            first_poll(timeout, elapsed)
        },
        PollEvent::Polled { ready, errno, revents } => if ready < 0 {
            PollAction::Finish(Err(SerialError::Os(errno)))
        } else if ready == 0 {
            PollAction::Finish(Err(SerialError::TimedOut))
        } else if revents & codes.hangup_mask != 0 {
            PollAction::Finish(Err(SerialError::UnexpectedEof))
        } else {
            PollAction::Transfer
        },
        PollEvent::Transferred { len, errno } => if len > 0 {
            PollAction::Finish(Ok(len as usize))
        } else if len < 0 && !is_would_block(errno, codes) {
            PollAction::Finish(Err(SerialError::Os(errno)))
        } else {
            wait_or_expire(timeout, elapsed)
        },
    }
}

/// Decides the next step of a read or write call. The caller fixes the
/// call's entry time once and reports the time elapsed since then with each
/// event. An empty buffer finishes at once with `Ok(0)`; any other buffer
/// polls at least once, without waiting once the deadline has passed, so a
/// zero timeout is a non-blocking poll; a transfer that
/// found no data or no room, as racing handles may, waits again on what is
/// left of the one deadline; a non-empty buffer never finishes with `Ok(0)`.
pub fn next_action(
    timeout: Option<Span>,
    buf_len: usize,
    elapsed: Span,
    event: PollEvent,
    codes: &PosixCodes,
) -> (r: PollAction)
    ensures
        r == poll_step(timeout, buf_len, elapsed, event, *codes),
        event == PollEvent::Begin && buf_len == 0 ==> r == PollAction::Finish(Ok(0)),
        event == PollEvent::Begin && buf_len > 0 ==> r matches PollAction::Poll(_),
        event == PollEvent::Begin && buf_len > 0 && timeout == Some(Span { nanos: 0 }) ==> r
            == PollAction::Poll(0),
        buf_len > 0 ==> r != PollAction::Finish(Ok(0)),
{
    match event {
        PollEvent::Begin => if buf_len == 0 {
            PollAction::Finish(Ok(0))
        } else {
            match first_wait_budget(timeout, elapsed, POLL_CAP) {
                Budget::Millis(m) => PollAction::Poll(m as i32),
                _ => PollAction::Poll(-1i32),
            }
        },
        PollEvent::Polled { ready, errno, revents } => if ready < 0 {
            PollAction::Finish(Err(SerialError::Os(errno)))
        } else if ready == 0 {
            PollAction::Finish(Err(SerialError::TimedOut))
        } else if revents & codes.hangup_mask != 0 {
            PollAction::Finish(Err(SerialError::UnexpectedEof))
        } else {
            PollAction::Transfer
        },
        PollEvent::Transferred { len, errno } => if len > 0 {
            PollAction::Finish(Ok(len as usize))
        } else if len < 0 && errno != codes.would_block && errno != codes.again {
            PollAction::Finish(Err(SerialError::Os(errno)))
        } else {
            poll_or_expire(timeout, elapsed)
        },
    }
}

/// A call with a timeout never polls without a bound, and finishes with
/// `TimedOut` only once its deadline has passed or when `poll` found the
/// device not ready within a wait that the budget granted. When the
/// timeout is no longer than the longest `poll` timeout, every poll the call
/// makes lasts at least until the deadline, and at most one millisecond
/// beyond it, so a call that times out does so no earlier than its timeout.
pub proof fn lemma_timeout_only_at_deadline(
    t: Span,
    buf_len: usize,
    elapsed: Span,
    event: PollEvent,
    codes: PosixCodes,
)
    ensures
        poll_step(Some(t), buf_len, elapsed, event, codes) != PollAction::Poll(-1i32),
        poll_step(Some(t), buf_len, elapsed, event, codes) == PollAction::Finish(
            Err(SerialError::TimedOut),
        ) ==> elapsed.nanos > t.nanos || (event matches PollEvent::Polled { ready, .. } && ready == 0),
        t.nanos <= POLL_CAP * NANOS_PER_MILLI ==> match poll_step(Some(t), buf_len, elapsed, event, codes) {
            PollAction::Poll(m) => {
                &&& m >= 0
                &&& elapsed.nanos + m * NANOS_PER_MILLI >= t.nanos
                &&& elapsed.nanos <= t.nanos ==> elapsed.nanos + m * NANOS_PER_MILLI <= t.nanos
                    + NANOS_PER_MILLI
            },
            _ => true,
        },
{
    crate::budget::lemma_budget_meets_deadline(t, elapsed, POLL_CAP);
    if elapsed.nanos <= t.nanos && t.nanos <= POLL_CAP * NANOS_PER_MILLI {
        let r = t.nanos - elapsed.nanos;
        assert(ceil_millis(r as int) <= POLL_CAP) by (nonlinear_arith)
            requires
                0 <= r <= POLL_CAP * 1_000_000,
                ceil_millis(r as int) == (r + 999_999) / 1_000_000,
        ;
    }
}

/// Whether the native results in `event` report neither an error nor a
/// vanished device, and a transfer moved at most the `buf_len` bytes asked
/// for, as `read` and `write` promise.
pub open spec fn reports_no_fault(event: PollEvent, buf_len: usize, codes: PosixCodes) -> bool {
    match event {
        PollEvent::Begin => true,
        PollEvent::Polled { ready, revents, .. } => ready >= 0 && revents & codes.hangup_mask == 0,
        PollEvent::Transferred { len, errno } => len <= buf_len && (len < 0 ==> is_would_block(
            errno,
            codes,
        )),
    }
}

/// While the device reports no fault, a call on a non-empty buffer either
/// goes on, or returns a count from one to the buffer's length, or times
/// out: it never returns `Ok(0)` nor any other error.
pub proof fn lemma_count_or_timeout(
    timeout: Option<Span>,
    buf_len: usize,
    elapsed: Span,
    event: PollEvent,
    codes: PosixCodes,
)
    requires
        buf_len > 0,
        reports_no_fault(event, buf_len, codes),
    ensures
        match poll_step(timeout, buf_len, elapsed, event, codes) {
            PollAction::Finish(Ok(n)) => 1 <= n <= buf_len,
            PollAction::Finish(Err(e)) => e == SerialError::TimedOut,
            _ => true,
        },
{
}

fn poll_or_expire(timeout: Option<Span>, elapsed: Span) -> (r: PollAction)
    ensures
        r == wait_or_expire(timeout, elapsed),
{
    match wait_budget(timeout, elapsed, POLL_CAP) {
        Budget::Unbounded => PollAction::Poll(-1i32),
        Budget::Millis(m) => PollAction::Poll(m as i32),
        Budget::Expired => PollAction::Finish(Err(SerialError::TimedOut)),
    }
}

} // verus!
