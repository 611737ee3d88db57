use sada::client::{connect_failed, finish_request, ptt_request, set_ptt, version_request, Exchange};
use sada::protocol::{handle_request, reply, ControlRequest, ControlResponse, Received};

#[test]
fn version_request_is_answered_with_version() {
    match handle_request(ControlRequest::Version, "0.1.0") {
        ControlResponse::Version { version } => assert_eq!(version, "0.1.0"),
        other => panic!("unexpected {other:?}"),
    }
}

#[test]
fn ptt_update_is_acknowledged() {
    let request = ControlRequest::SetPtt { ckey: "sefa".to_owned(), pressed: true };
    assert!(matches!(handle_request(request, "0.1.0"), ControlResponse::Done));
}

#[test]
fn reply_covers_every_read() {
    assert!(reply(Received::EndOfStream, "0.1.0").is_none());
    match reply(Received::Invalid("control frame too large: 70000 bytes".to_owned()), "0.1.0") {
        Some(ControlResponse::Error { message }) => {
            assert_eq!(message, "invalid request: control frame too large: 70000 bytes")
        },
        other => panic!("unexpected {other:?}"),
    }
    match reply(Received::Request(ControlRequest::Version), "2.3.4") {
        Some(ControlResponse::Version { version }) => assert_eq!(version, "2.3.4"),
        other => panic!("unexpected {other:?}"),
    }
}

#[test]
fn request_before_init_is_refused() {
    let outcome = finish_request(Exchange::NotConnected);
    assert!(!outcome.keep_connection);
    match outcome.response {
        ControlResponse::Error { message } => assert_eq!(message, "sada client is not initialized"),
        other => panic!("unexpected {other:?}"),
    }
}

#[test]
fn failed_exchange_drops_connection() {
    let outcome = finish_request(Exchange::Failed("broken pipe".to_owned()));
    assert!(!outcome.keep_connection);
    assert!(matches!(outcome.response, ControlResponse::Error { ref message } if message == "broken pipe"));
    let outcome = finish_request(Exchange::Answered(ControlResponse::Done));
    assert!(outcome.keep_connection);
    assert!(matches!(outcome.response, ControlResponse::Done));
}

#[test]
fn connect_failure_message() {
    match connect_failed("/tmp/sada.sock", "No such file or directory (os error 2)") {
        ControlResponse::Error { message } => assert_eq!(
            message,
            "failed to connect to /tmp/sada.sock: No such file or directory (os error 2)"
        ),
        other => panic!("unexpected {other:?}"),
    }
}

#[test]
fn ptt_arguments() {
    match ptt_request("sefa", "1") {
        ControlRequest::SetPtt { ckey, pressed } => {
            assert_eq!(ckey, "sefa");
            assert!(pressed);
        },
        other => panic!("unexpected {other:?}"),
    }
    for off in ["0", "", "11", "true", " 1"] {
        assert!(matches!(ptt_request("sefa", off), ControlRequest::SetPtt { pressed: false, .. }));
    }
    assert!(matches!(set_ptt("a".to_owned(), true), ControlRequest::SetPtt { pressed: true, .. }));
    assert!(matches!(version_request(), ControlRequest::Version));
}
