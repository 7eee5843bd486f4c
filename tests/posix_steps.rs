use serial::error::SerialError;
use serial::posix::{next_action, open_error, OpenStage, PollAction, PollEvent, PosixCodes};
use serial::span::Span;

const CODES: PosixCodes = PosixCodes { busy: 16, would_block: 11, again: 35, hangup_mask: 0x18 };

fn ten_ms() -> Option<Span> {
    Some(Span::from_millis(10))
}

#[test]
fn empty_buffer_returns_at_once() {
    for t in [None, Some(Span::zero()), ten_ms()] {
        let a = next_action(t, 0, Span::zero(), PollEvent::Begin, &CODES);
        assert_eq!(a, PollAction::Finish(Ok(0)));
    }
}

#[test]
fn begin_polls_with_budget() {
    assert_eq!(next_action(ten_ms(), 8, Span::zero(), PollEvent::Begin, &CODES), PollAction::Poll(10));
    assert_eq!(next_action(None, 8, Span::zero(), PollEvent::Begin, &CODES), PollAction::Poll(-1));
    assert_eq!(next_action(Some(Span::zero()), 8, Span::zero(), PollEvent::Begin, &CODES), PollAction::Poll(0));
}

#[test]
fn zero_timeout_polls_once_without_waiting() {
    let zero = Some(Span::zero());
    let a = next_action(zero, 8, Span::from_nanos(1), PollEvent::Begin, &CODES);
    assert_eq!(a, PollAction::Poll(0));
    let ready = PollEvent::Polled { ready: 1, errno: 0, revents: 0x01 };
    assert_eq!(next_action(zero, 8, Span::from_nanos(2), ready, &CODES), PollAction::Transfer);
    let got = PollEvent::Transferred { len: 3, errno: 0 };
    assert_eq!(next_action(zero, 8, Span::from_nanos(3), got, &CODES), PollAction::Finish(Ok(3)));
    let none = PollEvent::Polled { ready: 0, errno: 0, revents: 0 };
    let a = next_action(zero, 8, Span::from_nanos(2), none, &CODES);
    assert_eq!(a, PollAction::Finish(Err(SerialError::TimedOut)));
}

#[test]
fn late_first_step_still_polls() {
    let a = next_action(ten_ms(), 8, Span::from_millis(50), PollEvent::Begin, &CODES);
    assert_eq!(a, PollAction::Poll(0));
}

#[test]
fn poll_outcomes() {
    let polled = |ready, errno, revents| PollEvent::Polled { ready, errno, revents };
    let step = |e| next_action(ten_ms(), 8, Span::from_millis(2), e, &CODES);
    assert_eq!(step(polled(-1, 4, 0)), PollAction::Finish(Err(SerialError::Os(4))));
    assert_eq!(step(polled(0, 0, 0)), PollAction::Finish(Err(SerialError::TimedOut)));
    assert_eq!(step(polled(1, 0, 0x10)), PollAction::Finish(Err(SerialError::UnexpectedEof)));
    assert_eq!(step(polled(1, 0, 0x08)), PollAction::Finish(Err(SerialError::UnexpectedEof)));
    assert_eq!(step(polled(1, 0, 0x01)), PollAction::Transfer);
}

#[test]
fn transfer_outcomes() {
    let moved = |len, errno| PollEvent::Transferred { len, errno };
    let step = |e| next_action(ten_ms(), 8, Span::from_millis(3), e, &CODES);
    assert_eq!(step(moved(5, 0)), PollAction::Finish(Ok(5)));
    assert_eq!(step(moved(-1, 5)), PollAction::Finish(Err(SerialError::Os(5))));
    assert_eq!(step(moved(-1, 11)), PollAction::Poll(7));
    assert_eq!(step(moved(-1, 35)), PollAction::Poll(7));
    assert_eq!(step(moved(0, 0)), PollAction::Poll(7));
}

#[test]
fn retry_after_deadline_times_out() {
    let e = PollEvent::Transferred { len: 0, errno: 0 };
    let a = next_action(ten_ms(), 8, Span::from_millis(11), e, &CODES);
    assert_eq!(a, PollAction::Finish(Err(SerialError::TimedOut)));
}

#[test]
fn fifty_reads_without_peer_time_out() {
    for _ in 0..50 {
        let first = next_action(ten_ms(), 1024, Span::zero(), PollEvent::Begin, &CODES);
        assert_eq!(first, PollAction::Poll(10));
        let polled = PollEvent::Polled { ready: 0, errno: 0, revents: 0 };
        let done = next_action(ten_ms(), 1024, Span::from_millis(10), polled, &CODES);
        assert_eq!(done, PollAction::Finish(Err(SerialError::TimedOut)));
    }
}

#[test]
fn concurrent_writes_report_count_or_timeout() {
    let outcomes = [
        PollEvent::Polled { ready: 0, errno: 0, revents: 0 },
        PollEvent::Transferred { len: 1024, errno: 0 },
        PollEvent::Transferred { len: 100, errno: 0 },
    ];
    for e in outcomes {
        match next_action(ten_ms(), 1024, Span::from_millis(10), e, &CODES) {
            PollAction::Finish(Ok(n)) => assert!(n > 0 && n <= 1024),
            PollAction::Finish(Err(err)) => assert_eq!(err, SerialError::TimedOut),
            other => panic!("unexpected step {:?}", other),
        }
    }
}

#[test]
fn posix_open_errors_classified() {
    assert_eq!(open_error(OpenStage::Open, 16, &CODES), SerialError::ExclusiveAccessDenied);
    assert_eq!(open_error(OpenStage::Open, 2, &CODES), SerialError::Os(2));
    assert_eq!(open_error(OpenStage::Claim, 16, &CODES), SerialError::Os(16));
    assert_eq!(open_error(OpenStage::Lock, 11, &CODES), SerialError::ExclusiveAccessDenied);
    assert_eq!(open_error(OpenStage::Lock, 35, &CODES), SerialError::ExclusiveAccessDenied);
    assert_eq!(open_error(OpenStage::Lock, 9, &CODES), SerialError::Os(9));
    assert_eq!(open_error(OpenStage::Configure, 22, &CODES), SerialError::ConfigurationFailed(22));
}

#[test]
fn error_queries() {
    assert!(SerialError::TimedOut.is_timeout());
    assert!(!SerialError::UnexpectedEof.is_timeout());
    assert_eq!(SerialError::Os(5).os_code(), Some(5));
    assert_eq!(SerialError::ConfigurationFailed(22).os_code(), Some(22));
    assert_eq!(SerialError::ExclusiveAccessDenied.os_code(), None);
}
