use tgc::error::DecodeError;
use tgc::error::TgcError;
use tgc::pump::Framing;
use tgc::relay::session_step;
use tgc::relay::Endpoint;
use tgc::relay::Mode;
use tgc::relay::Role;
use tgc::relay::SessionAction;
use tgc::relay::SessionEvent;
use tgc::relay::SessionState;
use tgc::relay::RETRY_INTERVAL_SECS;

#[test]
fn role_decides_framing() {
    assert_eq!(Role::Local.framing(), Framing::Raw);
    assert_eq!(Role::Remote.framing(), Framing::Framed);
    let e = Endpoint::new(String::from("127.0.0.1:4000"), Role::Remote);
    assert_eq!(e.framing(), Framing::Framed);
    assert_eq!(e.address, String::from("127.0.0.1:4000"));
}

#[test]
fn supervisor_acquires_from_disconnected() {
    let (s, a) = session_step(
        Mode::Connect,
        SessionState::Disconnected,
        SessionEvent::Proceed,
    );
    assert_eq!(s, SessionState::Connecting);
    assert_eq!(a, SessionAction::Acquire);
}

#[test]
fn connect_ok_starts_pumps() {
    let (s, a) = session_step(
        Mode::Listen,
        SessionState::Connecting,
        SessionEvent::ConnectOk,
    );
    assert_eq!(s, SessionState::Active);
    assert_eq!(a, SessionAction::StartPumps);
}

#[test]
fn failed_dial_sleeps_full_interval_then_retries() {
    assert_eq!(RETRY_INTERVAL_SECS, 5);
    let (s, a) = session_step(
        Mode::Connect,
        SessionState::Connecting,
        SessionEvent::ConnectFailed,
    );
    assert_eq!(s, SessionState::Waiting);
    assert_eq!(a, SessionAction::Sleep(5));
    let (s2, a2) = session_step(Mode::Connect, s, SessionEvent::SleepDone);
    assert_eq!(s2, SessionState::Connecting);
    assert_eq!(a2, SessionAction::Acquire);
}

#[test]
fn repeated_dial_failures_never_give_up() {
    let mut state = SessionState::Disconnected;
    let mut acquires: u32 = 0;
    let mut event = SessionEvent::Proceed;
    for _ in 0..100 {
        let (next, action) = session_step(Mode::Connect, state, event);
        assert_ne!(next, SessionState::Failed);
        event = match action {
            SessionAction::Acquire => {
                acquires += 1;
                SessionEvent::ConnectFailed
            }
            SessionAction::Sleep(secs) => {
                assert_eq!(secs, RETRY_INTERVAL_SECS);
                SessionEvent::SleepDone
            }
            other => panic!("unexpected action {:?}", other),
        };
        state = next;
    }
    assert!(acquires >= 33);
}

#[test]
fn bind_failure_in_listen_mode_is_fatal() {
    let (s, a) = session_step(
        Mode::Listen,
        SessionState::Connecting,
        SessionEvent::ConnectFailed,
    );
    assert_eq!(s, SessionState::Failed);
    assert_eq!(a, SessionAction::Escalate);
}

#[test]
fn pump_eof_tears_down_and_reconnects() {
    let (s, a) = session_step(Mode::Listen, SessionState::Active, SessionEvent::PumpEof);
    assert_eq!(s, SessionState::TearingDown);
    assert_eq!(a, SessionAction::Shutdown);
    let (s2, a2) = session_step(Mode::Listen, s, SessionEvent::TornDown);
    assert_eq!(s2, SessionState::Disconnected);
    assert_eq!(a2, SessionAction::NoOp);
    // From Disconnected the supervisor accepts the next client; it never exits.
    let (s3, a3) = session_step(Mode::Listen, s2, SessionEvent::Proceed);
    assert_eq!(s3, SessionState::Connecting);
    assert_eq!(a3, SessionAction::Acquire);
}

#[test]
fn transfer_and_decode_failures_are_recoverable() {
    for err in [
        TgcError::IOError,
        TgcError::SerializeError(DecodeError::WrongLength),
    ] {
        assert!(!err.is_fatal());
        let (s, a) = session_step(
            Mode::Connect,
            SessionState::Active,
            SessionEvent::PumpFailed(err),
        );
        assert_eq!(s, SessionState::TearingDown);
        assert_eq!(a, SessionAction::Shutdown);
    }
}

#[test]
fn thread_and_queue_failures_are_fatal() {
    for err in [TgcError::ThreadError, TgcError::ChanReceiveError] {
        assert!(err.is_fatal());
        let (s, a) = session_step(
            Mode::Connect,
            SessionState::Active,
            SessionEvent::PumpFailed(err),
        );
        assert_eq!(s, SessionState::Failed);
        assert_eq!(a, SessionAction::Escalate);
    }
}

#[test]
fn unrelated_events_change_nothing() {
    let (s, a) = session_step(Mode::Connect, SessionState::Active, SessionEvent::Proceed);
    assert_eq!(s, SessionState::Active);
    assert_eq!(a, SessionAction::NoOp);
    let (s2, a2) = session_step(
        Mode::Connect,
        SessionState::Waiting,
        SessionEvent::ConnectFailed,
    );
    assert_eq!(s2, SessionState::Waiting);
    assert_eq!(a2, SessionAction::NoOp);
}

#[test]
fn error_descriptions() {
    assert_eq!(TgcError::ThreadError.describe(), "thread error");
    assert_eq!(TgcError::ChanReceiveError.describe(), "chan receive error");
    assert_eq!(TgcError::IOError.describe(), "io error");
    assert_eq!(
        TgcError::SerializeError(DecodeError::TooShort).describe(),
        "serialize error"
    );
}
