use serial::error::SerialError;
use serial::event_read::{EventRead, ReadAction, ReadEvent, ReadPhase, WaitOutcome};
use serial::overlapped::{
    cancelled, completion, empty_transfer, issued, kernel_read, transfer_error, win_open_error, Direction,
    WinCodes, WinOpenStage,
};
use serial::span::Span;

const CODES: WinCodes = WinCodes {
    access_denied: 5,
    io_pending: 997,
    sem_timeout: 121,
    operation_aborted: 995,
    device_removed: 1617,
    bad_command: 22,
    gen_failure: 31,
};

#[test]
fn empty_transfer_is_immediate() {
    assert_eq!(empty_transfer(0), Some(Ok(0)));
    assert_eq!(empty_transfer(1), None);
}

#[test]
fn windows_open_errors_classified() {
    assert_eq!(win_open_error(WinOpenStage::Open, 5, &CODES), SerialError::ExclusiveAccessDenied);
    assert_eq!(win_open_error(WinOpenStage::Open, 2, &CODES), SerialError::Os(2));
    assert_eq!(win_open_error(WinOpenStage::LineSettings, 87, &CODES), SerialError::ConfigurationFailed(87));
    assert_eq!(win_open_error(WinOpenStage::Timeouts, 87, &CODES), SerialError::ConfigurationFailed(87));
    assert_eq!(win_open_error(WinOpenStage::EventMask, 1, &CODES), SerialError::ConfigurationFailed(1));
    assert_eq!(win_open_error(WinOpenStage::SyncObject, 8, &CODES), SerialError::Os(8));
}

#[test]
fn issue_outcomes() {
    assert_eq!(issued(Direction::Read, true, 0, &CODES), Ok(()));
    assert_eq!(issued(Direction::Write, false, 997, &CODES), Ok(()));
    assert_eq!(issued(Direction::Read, false, 6, &CODES), Err(SerialError::Os(6)));
    assert_eq!(issued(Direction::Read, false, 1617, &CODES), Err(SerialError::UnexpectedEof));
    assert_eq!(issued(Direction::Write, false, 1617, &CODES), Err(SerialError::Os(1617)));
    assert_eq!(issued(Direction::Write, false, 121, &CODES), Err(SerialError::TimedOut));
}

#[test]
fn read_errors_classified() {
    assert_eq!(transfer_error(Direction::Read, 121, &CODES), SerialError::TimedOut);
    assert_eq!(transfer_error(Direction::Read, 1617, &CODES), SerialError::UnexpectedEof);
    assert_eq!(transfer_error(Direction::Read, 22, &CODES), SerialError::UnexpectedEof);
    assert_eq!(transfer_error(Direction::Read, 31, &CODES), SerialError::UnexpectedEof);
    assert_eq!(transfer_error(Direction::Read, 87, &CODES), SerialError::Os(87));
}

#[test]
fn write_errors_pass_through() {
    assert_eq!(transfer_error(Direction::Write, 121, &CODES), SerialError::TimedOut);
    assert_eq!(transfer_error(Direction::Write, 1617, &CODES), SerialError::Os(1617));
    assert_eq!(transfer_error(Direction::Write, 22, &CODES), SerialError::Os(22));
    assert_eq!(transfer_error(Direction::Write, 31, &CODES), SerialError::Os(31));
    assert_eq!(transfer_error(Direction::Write, 87, &CODES), SerialError::Os(87));
}

#[test]
fn completion_outcomes() {
    assert_eq!(completion(Direction::Read, true, 0, 12, 64, &CODES), Ok(12));
    assert_eq!(completion(Direction::Read, true, 0, 0, 64, &CODES), Err(SerialError::TimedOut));
    assert_eq!(completion(Direction::Read, true, 0, 0, 0, &CODES), Ok(0));
    assert_eq!(completion(Direction::Read, false, 121, 0, 64, &CODES), Err(SerialError::TimedOut));
    assert_eq!(completion(Direction::Read, false, 22, 0, 64, &CODES), Err(SerialError::UnexpectedEof));
    assert_eq!(completion(Direction::Read, false, 87, 0, 64, &CODES), Err(SerialError::Os(87)));
}

#[test]
fn write_completion_outcomes() {
    assert_eq!(completion(Direction::Write, true, 0, 1024, 1024, &CODES), Ok(1024));
    assert_eq!(completion(Direction::Write, true, 0, 0, 1024, &CODES), Err(SerialError::TimedOut));
    assert_eq!(completion(Direction::Write, false, 121, 0, 1024, &CODES), Err(SerialError::TimedOut));
    assert_eq!(completion(Direction::Write, false, 31, 0, 1024, &CODES), Err(SerialError::Os(31)));
    assert_eq!(completion(Direction::Write, false, 22, 0, 1024, &CODES), Err(SerialError::Os(22)));
}

#[test]
fn kernel_read_without_timeout_queues_again() {
    assert_eq!(kernel_read(false, true, 0, 0, 64, &CODES), None);
    assert_eq!(kernel_read(false, true, 0, 9, 64, &CODES), Some(Ok(9)));
    assert_eq!(kernel_read(true, true, 0, 0, 64, &CODES), Some(Err(SerialError::TimedOut)));
    assert_eq!(kernel_read(false, false, 1617, 0, 64, &CODES), Some(Err(SerialError::UnexpectedEof)));
}

#[test]
fn cancel_race_outcomes() {
    assert_eq!(cancelled(true, 0, false, 995, &CODES), SerialError::TimedOut);
    assert_eq!(cancelled(true, 0, true, 0, &CODES), SerialError::TimedOut);
    assert_eq!(cancelled(true, 0, false, 87, &CODES), SerialError::Os(87));
    assert_eq!(cancelled(false, 6, false, 995, &CODES), SerialError::Os(6));
}

fn ten_ms() -> Option<Span> {
    Some(Span::from_millis(10))
}

fn ms(n: u64) -> Span {
    Span::from_millis(n)
}

#[test]
fn event_read_empty_buffer() {
    let mut r = EventRead::new(ten_ms(), 0);
    let a = r.step(ReadEvent::Begin, Span::zero(), &CODES);
    assert_eq!(a, ReadAction::Finish { result: Ok(0), unlock: false });
    assert_eq!(r.phase, ReadPhase::Finished);
}

#[test]
fn event_read_returns_queued_data_first() {
    let mut r = EventRead::new(Some(Span::zero()), 64);
    assert_eq!(r.step(ReadEvent::Begin, Span::from_nanos(1), &CODES), ReadAction::Lock(0));
    let a = r.step(ReadEvent::Locked(WaitOutcome::Signalled), ms(1), &CODES);
    assert_eq!(a, ReadAction::Issue);
    assert!(r.locked);
    assert_eq!(r.step(ReadEvent::Issued { ok: true, code: 0 }, ms(1), &CODES), ReadAction::Collect);
    let a = r.step(ReadEvent::Collected { ok: true, code: 0, len: 5 }, ms(1), &CODES);
    assert_eq!(a, ReadAction::Finish { result: Ok(5), unlock: true });
    assert!(!r.locked);
}

#[test]
fn event_read_zero_timeout_without_data() {
    let mut r = EventRead::new(Some(Span::zero()), 64);
    r.step(ReadEvent::Begin, Span::zero(), &CODES);
    r.step(ReadEvent::Locked(WaitOutcome::Signalled), Span::from_nanos(10), &CODES);
    r.step(ReadEvent::Issued { ok: true, code: 0 }, Span::from_nanos(20), &CODES);
    let a = r.step(ReadEvent::Collected { ok: true, code: 0, len: 0 }, Span::from_nanos(30), &CODES);
    assert_eq!(a, ReadAction::Finish { result: Err(SerialError::TimedOut), unlock: true });
}

#[test]
fn event_read_waits_for_data() {
    let mut r = EventRead::new(ten_ms(), 64);
    assert_eq!(r.step(ReadEvent::Begin, Span::zero(), &CODES), ReadAction::Lock(10));
    r.step(ReadEvent::Locked(WaitOutcome::Signalled), ms(1), &CODES);
    r.step(ReadEvent::Issued { ok: false, code: 997 }, ms(1), &CODES);
    let a = r.step(ReadEvent::Collected { ok: true, code: 0, len: 0 }, ms(1), &CODES);
    assert_eq!(a, ReadAction::Arm);
    let a = r.step(ReadEvent::Armed { ok: false, code: 997 }, ms(1), &CODES);
    assert_eq!(a, ReadAction::Wait(9));
    let a = r.step(ReadEvent::Waited(WaitOutcome::Signalled), ms(3), &CODES);
    assert_eq!(a, ReadAction::Check);
    let a = r.step(ReadEvent::Checked { ok: true, code: 0 }, ms(3), &CODES);
    assert_eq!(a, ReadAction::Issue);
    r.step(ReadEvent::Issued { ok: true, code: 0 }, ms(3), &CODES);
    let a = r.step(ReadEvent::Collected { ok: true, code: 0, len: 7 }, ms(3), &CODES);
    assert_eq!(a, ReadAction::Finish { result: Ok(7), unlock: true });
}

fn armed_and_waiting(timeout: Option<Span>) -> EventRead {
    let mut r = EventRead::new(timeout, 1024);
    r.step(ReadEvent::Begin, Span::zero(), &CODES);
    r.step(ReadEvent::Locked(WaitOutcome::Signalled), Span::zero(), &CODES);
    r.step(ReadEvent::Issued { ok: true, code: 0 }, Span::zero(), &CODES);
    r.step(ReadEvent::Collected { ok: true, code: 0, len: 0 }, Span::zero(), &CODES);
    let a = r.step(ReadEvent::Armed { ok: false, code: 997 }, Span::zero(), &CODES);
    assert_eq!(r.phase, ReadPhase::Waiting);
    if timeout.is_some() {
        assert_eq!(a, ReadAction::Wait(10));
    }
    r
}

#[test]
fn event_read_times_out_and_cancels() {
    let mut r = armed_and_waiting(ten_ms());
    let a = r.step(ReadEvent::Waited(WaitOutcome::TimedOut), ms(10), &CODES);
    assert_eq!(a, ReadAction::Cancel);
    let ev = ReadEvent::Cancelled { cancel_ok: true, cancel_code: 0, result_ok: false, result_code: 995 };
    let a = r.step(ev, ms(10), &CODES);
    assert_eq!(a, ReadAction::Finish { result: Err(SerialError::TimedOut), unlock: true });
}

#[test]
fn event_read_failed_wait_cancels_first() {
    let mut r = armed_and_waiting(ten_ms());
    let a = r.step(ReadEvent::Waited(WaitOutcome::Failed(6)), ms(2), &CODES);
    assert_eq!(a, ReadAction::Cancel);
    let ev = ReadEvent::Cancelled { cancel_ok: true, cancel_code: 0, result_ok: false, result_code: 995 };
    let a = r.step(ev, ms(2), &CODES);
    assert_eq!(a, ReadAction::Finish { result: Err(SerialError::Os(6)), unlock: true });
}

#[test]
fn event_read_failed_cancel_reports_it() {
    let mut r = armed_and_waiting(ten_ms());
    r.step(ReadEvent::Waited(WaitOutcome::TimedOut), ms(10), &CODES);
    let ev = ReadEvent::Cancelled { cancel_ok: false, cancel_code: 1168, result_ok: true, result_code: 0 };
    let a = r.step(ev, ms(12), &CODES);
    assert_eq!(a, ReadAction::Finish { result: Err(SerialError::Os(1168)), unlock: true });
}

#[test]
fn event_read_lock_wait_counts_against_timeout() {
    let mut r = EventRead::new(ten_ms(), 16);
    r.step(ReadEvent::Begin, Span::zero(), &CODES);
    r.step(ReadEvent::Locked(WaitOutcome::Abandoned), ms(6), &CODES);
    r.step(ReadEvent::Issued { ok: true, code: 0 }, ms(6), &CODES);
    r.step(ReadEvent::Collected { ok: true, code: 0, len: 0 }, ms(6), &CODES);
    let a = r.step(ReadEvent::Armed { ok: false, code: 997 }, ms(6), &CODES);
    assert_eq!(a, ReadAction::Wait(4));
}

#[test]
fn event_read_lock_timeout() {
    let mut r = EventRead::new(ten_ms(), 16);
    r.step(ReadEvent::Begin, Span::zero(), &CODES);
    let a = r.step(ReadEvent::Locked(WaitOutcome::TimedOut), ms(10), &CODES);
    assert_eq!(a, ReadAction::Finish { result: Err(SerialError::TimedOut), unlock: false });
}

#[test]
fn event_read_unbounded_waits() {
    let mut r = EventRead::new(None, 16);
    assert_eq!(r.step(ReadEvent::Begin, Span::zero(), &CODES), ReadAction::Lock(u32::MAX));
    let mut r = armed_and_waiting(None);
    let a = r.step(ReadEvent::Waited(WaitOutcome::Signalled), ms(5000), &CODES);
    assert_eq!(a, ReadAction::Check);
}

#[test]
fn event_read_vanished_device() {
    let mut r = EventRead::new(ten_ms(), 16);
    r.step(ReadEvent::Begin, Span::zero(), &CODES);
    r.step(ReadEvent::Locked(WaitOutcome::Signalled), Span::zero(), &CODES);
    r.step(ReadEvent::Issued { ok: true, code: 0 }, Span::zero(), &CODES);
    r.step(ReadEvent::Collected { ok: true, code: 0, len: 0 }, Span::zero(), &CODES);
    let a = r.step(ReadEvent::Armed { ok: false, code: 22 }, Span::zero(), &CODES);
    assert_eq!(a, ReadAction::Finish { result: Err(SerialError::UnexpectedEof), unlock: true });
    assert!(!r.accepts(&ReadEvent::Begin));
}

#[test]
fn event_read_accepts_only_expected_event() {
    let r = EventRead::new(ten_ms(), 16);
    assert!(r.accepts(&ReadEvent::Begin));
    assert!(!r.accepts(&ReadEvent::Locked(WaitOutcome::Signalled)));
}
