use vstd::prelude::*;

use crate::comm::{first_wait_millis, first_wait_millis_of, wait_millis, wait_millis_of, INFINITE};
use crate::error::SerialError;
use crate::overlapped::{
    cancelled, cancelled_of, completion, completion_of, issued, issued_of, transfer_error,
    transfer_error_of, Direction, WinCodes,
};
use crate::span::Span;

verus! {

/// How a wait on an event or mutex object ended.
#[derive(Clone, Copy, Debug, PartialEq, Eq, Structural)]
pub enum WaitOutcome {
    /// The object was signalled; a mutex is now held.
    Signalled,
    /// A mutex was left by a holder that ended; it is now held.
    Abandoned,
    /// The wait reached its timeout.
    TimedOut,
    /// The wait failed with this code.
    Failed(i32),
}

/// Where a read on a device with event objects stands.
#[derive(Clone, Copy, Debug, PartialEq, Eq, Structural)]
pub enum ReadPhase {
    /// Nothing done yet.
    Start,
    /// Waiting for the read lock that the handles of one device share.
    Locking,
    /// Queuing a wait for an arriving byte, after a read found none.
    Arming,
    /// Waiting, with a bound, for that request to complete.
    Waiting,
    /// Collecting the result of the completed request.
    Checking,
    /// Cancelling the request after its wait timed out or failed.
    Cancelling,
    /// Queuing a read of what the device holds, which does not wait.
    Issuing,
    /// Collecting the result of the read.
    Collecting,
    /// The call has returned.
    Finished,
}

/// What the native side reports after the last action. `Cancelled` is
/// reported only once the cancelled request has ended, whether or not the
/// cancellation took hold.
#[derive(Clone, Copy, Debug, PartialEq, Eq, Structural)]
pub enum ReadEvent {
    Begin,
    Locked(WaitOutcome),
    Armed { ok: bool, code: i32 },
    Waited(WaitOutcome),
    Checked { ok: bool, code: i32 },
    Cancelled { cancel_ok: bool, cancel_code: i32, result_ok: bool, result_code: i32 },
    Issued { ok: bool, code: i32 },
    Collected { ok: bool, code: i32, len: u32 },
}

/// What the native side does next.
#[derive(Clone, Copy, Debug, PartialEq, Eq)]
pub enum ReadAction {
    /// Wait this many milliseconds for the read lock.
    Lock(u32),
    /// Queue a wait for an arriving byte.
    Arm,
    /// Wait this many milliseconds for the queued request.
    Wait(u32),
    /// Collect the result of the completed request without waiting.
    Check,
    /// Cancel the queued request, then wait until it has ended and collect
    /// its result.
    Cancel,
    /// Queue the read of the buffer.
    Issue,
    /// Wait for the read's result.
    Collect,
    /// Release the read lock if `unlock`, then return `result`.
    Finish { result: Result<usize, SerialError>, unlock: bool },
}

/// One read call on a device whose handles share a read lock and whose
/// reads wait for data on event objects.
#[derive(Clone, Copy, Debug, PartialEq, Eq, Structural)]
pub struct EventRead {
    pub timeout: Option<Span>,
    pub buf_len: usize,
    pub phase: ReadPhase,
    /// Whether this call holds the read lock.
    pub locked: bool,
    /// The code of a failed wait, reported once the request it waited on
    /// has been cancelled.
    pub failure: Option<i32>,
}

/// The event that each phase waits for.
pub open spec fn accepts_of(phase: ReadPhase, event: ReadEvent) -> bool {
    match phase {
        ReadPhase::Start => event matches ReadEvent::Begin,
        ReadPhase::Locking => event matches ReadEvent::Locked(_),
        ReadPhase::Arming => event matches ReadEvent::Armed { .. },
        ReadPhase::Waiting => event matches ReadEvent::Waited(_),
        ReadPhase::Checking => event matches ReadEvent::Checked { .. },
        ReadPhase::Cancelling => event matches ReadEvent::Cancelled { .. },
        ReadPhase::Issuing => event matches ReadEvent::Issued { .. },
        ReadPhase::Collecting => event matches ReadEvent::Collected { .. },
        ReadPhase::Finished => false,
    }
}

/// Ends the call: the lock is released exactly when it is held.
pub open spec fn finish_of(s: EventRead, result: Result<usize, SerialError>) -> (EventRead, ReadAction) {
    (
        EventRead { phase: ReadPhase::Finished, locked: false, ..s },
        ReadAction::Finish { result, unlock: s.locked },
    )
}

/// Queues a read of what the device holds.
pub open spec fn issue_of(s: EventRead) -> (EventRead, ReadAction) {
    (EventRead { phase: ReadPhase::Issuing, ..s }, ReadAction::Issue)
}

/// Queues a wait for data, unless the deadline has passed; nothing is in
/// flight at this point, so the call may then simply return.
pub open spec fn arm_of(s: EventRead, elapsed: Span) -> (EventRead, ReadAction) {
    match wait_millis_of(s.timeout, elapsed) {
        None => finish_of(s, Err(SerialError::TimedOut)),
        Some(_) => (EventRead { phase: ReadPhase::Arming, ..s }, ReadAction::Arm),
    }
}

/// A wait on a request in flight: once the deadline has passed it still
/// checks the request, without waiting, so that it is cancelled rather than
/// left behind.
pub open spec fn wait_of(s: EventRead, elapsed: Span) -> (EventRead, ReadAction) {
    let ms = match wait_millis_of(s.timeout, elapsed) {
        Some(ms) => ms,
        None => 0,
    };
    (EventRead { phase: ReadPhase::Waiting, ..s }, ReadAction::Wait(ms))
}

/// Cancels the request in flight; `failure` is the error to report once it
/// has ended, if the call failed rather than timed out.
pub open spec fn cancel_of(s: EventRead, failure: Option<i32>) -> (EventRead, ReadAction) {
    (EventRead { phase: ReadPhase::Cancelling, failure, ..s }, ReadAction::Cancel)
}

/// The step of the call after `event`, `elapsed` after the call began. Once
/// it holds the lock, the call first reads what the device holds, and waits
/// for data only when that read found none.
pub open spec fn read_step(s: EventRead, event: ReadEvent, elapsed: Span, codes: WinCodes) -> (
    EventRead,
    ReadAction,
) {
    match event {
        ReadEvent::Begin => if s.buf_len == 0 {
            finish_of(s, Ok(0))
        } else {
            (
                EventRead { phase: ReadPhase::Locking, ..s },
                ReadAction::Lock(first_wait_millis_of(s.timeout, elapsed)),
            )
        },
        ReadEvent::Locked(o) => match o {
            WaitOutcome::Signalled => issue_of(EventRead { locked: true, ..s }),
            WaitOutcome::Abandoned => issue_of(EventRead { locked: true, ..s }),
            WaitOutcome::TimedOut => finish_of(s, Err(SerialError::TimedOut)),
            WaitOutcome::Failed(c) => finish_of(s, Err(SerialError::Os(c))),
        },
        ReadEvent::Issued { ok, code } => match issued_of(Direction::Read, ok, code, codes) {
            Ok(()) => (EventRead { phase: ReadPhase::Collecting, ..s }, ReadAction::Collect),
            Err(e) => finish_of(s, Err(e)),
        },
        ReadEvent::Collected { ok, code, len } => if ok && len == 0 {
            arm_of(s, elapsed)
        } else {
            finish_of(s, completion_of(Direction::Read, ok, code, len, s.buf_len, codes))
        },
        ReadEvent::Armed { ok, code } => if ok {
            issue_of(s)
        } else if code == codes.io_pending {
            wait_of(s, elapsed)
        } else {
            finish_of(s, Err(transfer_error_of(Direction::Read, code, codes)))
        },
        ReadEvent::Waited(o) => match o {
            WaitOutcome::Signalled => (EventRead { phase: ReadPhase::Checking, ..s }, ReadAction::Check),
            WaitOutcome::Abandoned => (EventRead { phase: ReadPhase::Checking, ..s }, ReadAction::Check),
            WaitOutcome::TimedOut => cancel_of(s, None),
            WaitOutcome::Failed(c) => cancel_of(s, Some(c)),
        },
        ReadEvent::Checked { ok, code } => if ok {
            issue_of(s)
        } else {
            finish_of(s, Err(transfer_error_of(Direction::Read, code, codes)))
        },
        ReadEvent::Cancelled { cancel_ok, cancel_code, result_ok, result_code } => match s.failure {
            Some(c) => finish_of(s, Err(SerialError::Os(c))),
            None => finish_of(
                s,
                Err(cancelled_of(cancel_ok, cancel_code, result_ok, result_code, codes)),
            ),
        },
    }
}

/// The lock is held exactly between the phases that take and release it.
pub open spec fn lock_held_in(phase: ReadPhase) -> bool {
    match phase {
        ReadPhase::Start => false,
        ReadPhase::Locking => false,
        ReadPhase::Finished => false,
        _ => true,
    }
}

/// Whether the call holds the read lock once `event` is taken in: it held it
/// already, or the event reports that the lock was just taken.
pub open spec fn holds_lock_after(s: EventRead, event: ReadEvent) -> bool {
    s.locked || event == ReadEvent::Locked(WaitOutcome::Signalled) || event == ReadEvent::Locked(
        WaitOutcome::Abandoned,
    )
}

/// Whether `event` leaves a request of the call queued: a wait for data that
/// was queued and has not yet been seen to end.
pub open spec fn leaves_request_queued(s: EventRead, event: ReadEvent, codes: WinCodes) -> bool {
    s.phase == ReadPhase::Waiting || (s.phase == ReadPhase::Arming && (event matches ReadEvent::Armed {
        ok,
        code,
    } && !ok && code == codes.io_pending))
}

/// Each step keeps the read lock accounted for: the lock is taken only by a
/// call that does not hold it, the call releases it exactly when it ends
/// holding it, and nothing follows the end. The call never ends while a
/// request it queued may still be in flight. The timeout and buffer stay as
/// they were; an empty buffer ends the call at once with `Ok(0)` without
/// touching the lock, any other buffer first tries to take the lock, and
/// a non-empty buffer never ends with `Ok(0)`.
pub proof fn lemma_read_step_accounts_lock(s: EventRead, event: ReadEvent, elapsed: Span, codes: WinCodes)
    requires
        s.wf(),
        accepts_of(s.phase, event),
    ensures
        ({
            let (next, action) = read_step(s, event, elapsed, codes);
            &&& next.wf()
            &&& next.timeout == s.timeout && next.buf_len == s.buf_len
            &&& action matches ReadAction::Lock(_) ==> !s.locked
            &&& leaves_request_queued(s, event, codes) ==> !(action matches ReadAction::Finish { .. })
            &&& match action {
                ReadAction::Finish { result, unlock } => {
                    &&& unlock == holds_lock_after(s, event)
                    &&& next.phase == ReadPhase::Finished
                    &&& s.buf_len > 0 ==> result != Ok::<usize, SerialError>(0)
                },
                _ => next.phase != ReadPhase::Finished,
            }
            &&& s.buf_len == 0 && event == ReadEvent::Begin ==> action == (ReadAction::Finish {
                result: Ok(0),
                unlock: false,
            })
            &&& s.buf_len > 0 && event == ReadEvent::Begin ==> action matches ReadAction::Lock(_)
        }),
{
}

/// Whether `event` reports a failed device request with code `c`.
pub open spec fn reports_code(event: ReadEvent, c: i32) -> bool {
    match event {
        ReadEvent::Armed { ok, code } => !ok && code == c,
        ReadEvent::Checked { ok, code } => !ok && code == c,
        ReadEvent::Issued { ok, code } => !ok && code == c,
        ReadEvent::Collected { ok, code, .. } => !ok && code == c,
        ReadEvent::Cancelled { result_ok, result_code, .. } => !result_ok && result_code == c,
        _ => false,
    }
}

/// A read with a timeout `t` never waits without a bound, and a zero
/// timeout takes the lock without waiting. It finishes with `TimedOut` only
/// once its deadline has passed, or when a bounded wait for the lock or for
/// data ran out, or when the device reported its own timeout code.
pub proof fn lemma_read_times_out_only_at_deadline(
    s: EventRead,
    t: Span,
    event: ReadEvent,
    elapsed: Span,
    codes: WinCodes,
)
    requires
        s.timeout == Some(t),
    ensures
        ({
            let (next, action) = read_step(s, event, elapsed, codes);
            &&& action != ReadAction::Lock(INFINITE)
            &&& action != ReadAction::Wait(INFINITE)
            &&& t.nanos == 0 && s.buf_len > 0 && event == ReadEvent::Begin ==> action
                == ReadAction::Lock(0)
            &&& (action matches ReadAction::Finish { result, .. } && result == Err::<
                usize,
                SerialError,
            >(SerialError::TimedOut)) ==> {
                ||| elapsed.nanos > t.nanos
                ||| event == ReadEvent::Locked(WaitOutcome::TimedOut)
                ||| (event matches ReadEvent::Cancelled { .. } && s.failure.is_none())
                ||| reports_code(event, codes.sem_timeout)
            }
        }),
{
    crate::budget::lemma_budget_meets_deadline(t, elapsed, (INFINITE - 1) as u64);
}

impl EventRead {
    /// The lock flag agrees with the phase.
    pub open spec fn wf(&self) -> bool {
        self.locked == lock_held_in(self.phase)
    }

    /// A read of `buf_len` bytes with timeout `timeout`, not yet begun.
    pub fn new(timeout: Option<Span>, buf_len: usize) -> (r: EventRead)
        ensures
            r == (EventRead { timeout, buf_len, phase: ReadPhase::Start, locked: false, failure: None }),
            r.wf(),
    {
        EventRead { timeout, buf_len, phase: ReadPhase::Start, locked: false, failure: None }
    }

    /// Whether `event` is the one the call waits for.
    pub fn accepts(&self, event: &ReadEvent) -> (r: bool)
        ensures
            r == accepts_of(self.phase, *event),
    {
        match self.phase {
            ReadPhase::Start => matches!(event, ReadEvent::Begin),
            ReadPhase::Locking => matches!(event, ReadEvent::Locked(_)),
            ReadPhase::Arming => matches!(event, ReadEvent::Armed { .. }),
            ReadPhase::Waiting => matches!(event, ReadEvent::Waited(_)),
            ReadPhase::Checking => matches!(event, ReadEvent::Checked { .. }),
            ReadPhase::Cancelling => matches!(event, ReadEvent::Cancelled { .. }),
            ReadPhase::Issuing => matches!(event, ReadEvent::Issued { .. }),
            ReadPhase::Collecting => matches!(event, ReadEvent::Collected { .. }),
            ReadPhase::Finished => false,
        }
    }

    fn finish(&mut self, result: Result<usize, SerialError>) -> (r: ReadAction)
        ensures
            (*final(self), r) == finish_of(*old(self), result),
    {
        let unlock = self.locked;
        self.phase = ReadPhase::Finished;
        self.locked = false;
        ReadAction::Finish { result, unlock }
    }

    fn issue(&mut self) -> (r: ReadAction)
        ensures
            (*final(self), r) == issue_of(*old(self)),
    {
        self.phase = ReadPhase::Issuing;
        ReadAction::Issue
    }

    fn arm(&mut self, elapsed: Span) -> (r: ReadAction)
        ensures
            (*final(self), r) == arm_of(*old(self), elapsed),
    {
        match wait_millis(self.timeout, elapsed) {
            None => self.finish(Err(SerialError::TimedOut)),
            Some(_) => {
                self.phase = ReadPhase::Arming;
                ReadAction::Arm
            },
        }
    }

    fn wait(&mut self, elapsed: Span) -> (r: ReadAction)
        ensures
            (*final(self), r) == wait_of(*old(self), elapsed),
    {
        let ms = match wait_millis(self.timeout, elapsed) {
            Some(ms) => ms,
            None => 0,
        };
        self.phase = ReadPhase::Waiting;
        ReadAction::Wait(ms)
    }

    fn cancel(&mut self, failure: Option<i32>) -> (r: ReadAction)
        ensures
            (*final(self), r) == cancel_of(*old(self), failure),
    {
        self.phase = ReadPhase::Cancelling;
        self.failure = failure;
        ReadAction::Cancel
    }

    /// Takes the call one step further: the caller performs the returned
    /// action and reports its outcome as the next event, with the time
    /// elapsed since the call began.
    pub fn step(&mut self, event: ReadEvent, elapsed: Span, codes: &WinCodes) -> (r: ReadAction)
        requires
            accepts_of(old(self).phase, event),
        ensures
            (*final(self), r) == read_step(*old(self), event, elapsed, *codes),
            old(self).phase == ReadPhase::Waiting ==> !(r matches ReadAction::Finish { .. }),
    {
        match event {
            ReadEvent::Begin => if self.buf_len == 0 {
                self.finish(Ok(0))
            } else {
                let ms = first_wait_millis(self.timeout, elapsed);
                self.phase = ReadPhase::Locking;
                ReadAction::Lock(ms)
            },
            ReadEvent::Locked(o) => match o {
                WaitOutcome::Signalled | WaitOutcome::Abandoned => {
                    self.locked = true;
                    self.issue()
                },
                WaitOutcome::TimedOut => self.finish(Err(SerialError::TimedOut)),
                WaitOutcome::Failed(c) => self.finish(Err(SerialError::Os(c))),
            },
            ReadEvent::Issued { ok, code } => match issued(Direction::Read, ok, code, codes) {
                Ok(()) => {
                    self.phase = ReadPhase::Collecting;
                    ReadAction::Collect
                },
                Err(e) => self.finish(Err(e)),
            },
            ReadEvent::Collected { ok, code, len } => if ok && len == 0 {
                self.arm(elapsed)
            } else {
                let result = completion(Direction::Read, ok, code, len, self.buf_len, codes);
                self.finish(result)
            },
            ReadEvent::Armed { ok, code } => if ok {
                self.issue()
            } else if code == codes.io_pending {
                self.wait(elapsed)
            } else {
                let e = transfer_error(Direction::Read, code, codes);
                self.finish(Err(e))
            },
            ReadEvent::Waited(o) => match o {
                WaitOutcome::Signalled | WaitOutcome::Abandoned => {
                    self.phase = ReadPhase::Checking;
                    ReadAction::Check
                },
                WaitOutcome::TimedOut => self.cancel(None),
                WaitOutcome::Failed(c) => self.cancel(Some(c)),
            },
            ReadEvent::Checked { ok, code } => if ok {
                self.issue()
            } else {
                let e = transfer_error(Direction::Read, code, codes);
                self.finish(Err(e))
            },
            ReadEvent::Cancelled { cancel_ok, cancel_code, result_ok, result_code } => match self.failure {
                Some(c) => self.finish(Err(SerialError::Os(c))),
                None => {
                    let e = cancelled(cancel_ok, cancel_code, result_ok, result_code, codes);
                    self.finish(Err(e))
                },
            },
        }
    }
}

} // verus!
