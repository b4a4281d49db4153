use std::io::{Error, ErrorKind};
use std::time::Duration;

use rocket_listener::{is_connection_error, AcceptStep, Incoming};

fn err(kind: ErrorKind) -> Error {
    Error::new(kind, "accept failed")
}

#[test]
fn default_policy_backs_off_250ms() {
    let mut incoming = Incoming::new(());
    assert!(!incoming.wants_nodelay());
    assert!(incoming.take_pending_delay().is_none());
    match incoming.on_accept_error(&err(ErrorKind::Other)) {
        AcceptStep::RetryAfter(d) => assert_eq!(d, Duration::from_millis(250)),
        other => panic!("unexpected step {:?}", other),
    }
    assert_eq!(incoming.take_pending_delay(), Some(Duration::from_millis(250)));
    assert!(incoming.take_pending_delay().is_none());
}

#[test]
fn connection_errors_retry_without_delay() {
    for kind in [ErrorKind::ConnectionRefused, ErrorKind::ConnectionAborted, ErrorKind::ConnectionReset] {
        let mut incoming = Incoming::new(()).sleep_on_errors(Some(Duration::from_millis(50)));
        assert!(matches!(incoming.on_accept_error(&err(kind)), AcceptStep::RetryNow));
        assert!(incoming.take_pending_delay().is_none());
        let mut strict = Incoming::new(()).sleep_on_errors(None);
        assert!(matches!(strict.on_accept_error(&err(kind)), AcceptStep::RetryNow));
    }
}

#[test]
fn other_errors_arm_the_configured_backoff() {
    let d = Duration::from_millis(1234);
    for kind in [ErrorKind::Other, ErrorKind::OutOfMemory, ErrorKind::PermissionDenied, ErrorKind::WouldBlock] {
        let mut incoming = Incoming::new(()).sleep_on_errors(Some(d));
        match incoming.on_accept_error(&err(kind)) {
            AcceptStep::RetryAfter(got) => assert_eq!(got, d),
            other => panic!("unexpected step {:?}", other),
        }
        assert_eq!(incoming.take_pending_delay(), Some(d));
    }
}

#[test]
fn other_errors_without_backoff_end_the_stream() {
    let mut incoming = Incoming::new(()).sleep_on_errors(None);
    assert!(matches!(incoming.on_accept_error(&err(ErrorKind::Other)), AcceptStep::Fail));
    assert!(incoming.take_pending_delay().is_none());
}

#[test]
fn two_resource_errors_then_success_wait_at_least_100ms() {
    let mut incoming = Incoming::new(7u32).sleep_on_errors(Some(Duration::from_millis(50)));
    let mut waited = Duration::ZERO;
    let mut yielded = 0;
    let outcomes = [Err(err(ErrorKind::Other)), Err(err(ErrorKind::Other)), Ok(())];
    for outcome in outcomes {
        if let Some(d) = incoming.take_pending_delay() {
            waited += d;
        }
        match outcome {
            Ok(()) => {
                assert!(matches!(incoming.on_accepted(None), AcceptStep::Yield));
                yielded += 1;
            }
            Err(e) => assert!(matches!(incoming.on_accept_error(&e), AcceptStep::RetryAfter(_))),
        }
    }
    assert_eq!(yielded, 1);
    assert!(waited >= Duration::from_millis(100));
    assert_eq!(*incoming.listener_mut(), 7);
}

#[test]
fn failed_nodelay_request_still_yields() {
    let incoming = Incoming::new(()).nodelay(true);
    assert!(incoming.wants_nodelay());
    let failed: std::io::Result<()> = Err(err(ErrorKind::InvalidInput));
    assert!(matches!(incoming.on_accepted(Some(&failed)), AcceptStep::Yield));
    assert!(matches!(incoming.on_accepted(Some(&Ok(()))), AcceptStep::Yield));
    assert!(matches!(incoming.on_accepted(None), AcceptStep::Yield));
}

#[test]
fn builders_keep_the_listener() {
    let mut incoming = Incoming::new(String::from("tcp")).nodelay(true).sleep_on_errors(None);
    incoming.listener_mut().push('!');
    assert_eq!(incoming.listener_mut().as_str(), "tcp!");
    assert!(incoming.wants_nodelay());
}

#[test]
fn classifies_connection_errors() {
    assert!(is_connection_error(&err(ErrorKind::ConnectionRefused)));
    assert!(is_connection_error(&err(ErrorKind::ConnectionAborted)));
    assert!(is_connection_error(&err(ErrorKind::ConnectionReset)));
    assert!(!is_connection_error(&err(ErrorKind::Other)));
    assert!(!is_connection_error(&err(ErrorKind::TimedOut)));
    assert!(!is_connection_error(&err(ErrorKind::WouldBlock)));
}
