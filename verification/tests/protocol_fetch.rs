//! The wire texts and the package-preparation state machine.

use modsync::errors::SyncError;
use modsync::fetch::fetch_start;
use modsync::fetch::fetch_step;
use modsync::fetch::FetchAction;
use modsync::fetch::FetchEvent;
use modsync::fetch::FetchState;
use modsync::protocol::interpret_metadata;
use modsync::protocol::plain_handle;
use modsync::protocol::request_body_text;
use modsync::protocol::status_body_text;
use modsync::protocol::transmit_url_text;

#[test]
fn request_body_exact() {
    assert_eq!(
        request_body_text(123),
        "{\"publishedFileId\":123,\"collectionId\":null,\"extract\":true,\"hidden\":false,\"direct\":false,\"autodownload\":false}"
    );
}

#[test]
fn status_body_exact() {
    assert_eq!(status_body_text("abc-123"), "{\"uuids\":[\"abc-123\"]}");
}

#[test]
fn transmit_url_exact() {
    assert_eq!(
        transmit_url_text("abc-123"),
        "https://backend-01-prd.steamworkshopdownloader.io/api/download/transmit?uuid=abc-123"
    );
}

#[test]
fn plain_handles() {
    assert!(plain_handle("abc-123"));
    assert!(!plain_handle("a\"b"));
    assert!(!plain_handle("a\\b"));
    assert!(!plain_handle("a\nb"));
}

#[test]
fn metadata_empty_is_not_found() {
    let r = interpret_metadata(Vec::new());
    assert_eq!(r, Err(SyncError::NotFound));
}

#[test]
fn metadata_first_record_wins() {
    let details = vec![
        (String::from("Foo"), 200u64),
        (String::from("Bar"), 300u64),
    ];
    let r = interpret_metadata(details).unwrap();
    assert_eq!(r.0, "Foo");
    assert_eq!(r.1, 200);
}

/// Three `queued` answers, then `prepared`: exactly one transmit follows,
/// aimed at the same handle.
#[test]
fn poll_until_prepared_transmits_once() {
    let (state, action) = fetch_start(5, 10);
    match &action {
        FetchAction::SubmitRequest { body } => assert_eq!(*body, request_body_text(5)),
        _ => panic!("expected a submit action"),
    }
    let mut state = fetch_step(
        state,
        FetchEvent::RequestAnswered { uuid: String::from("abc-123") },
    );
    match &state.1 {
        FetchAction::PollStatus { body, delay_seconds } => {
            assert_eq!(*body, "{\"uuids\":[\"abc-123\"]}");
            assert_eq!(*delay_seconds, 0);
        }
        _ => panic!("expected a poll action"),
    }
    let mut transmits = 0;
    for _ in 0..3 {
        state = fetch_step(
            state.0,
            FetchEvent::StatusAnswered { status: Some(String::from("queued")) },
        );
        match &state.1 {
            FetchAction::PollStatus { body, delay_seconds } => {
                assert_eq!(*body, "{\"uuids\":[\"abc-123\"]}");
                assert_eq!(*delay_seconds, 1);
            }
            FetchAction::Transmit { .. } => transmits += 1,
            _ => panic!("expected a poll action"),
        }
    }
    state = fetch_step(
        state.0,
        FetchEvent::StatusAnswered { status: Some(String::from("prepared")) },
    );
    match &state.1 {
        FetchAction::Transmit { url } => {
            transmits += 1;
            assert_eq!(
                *url,
                "https://backend-01-prd.steamworkshopdownloader.io/api/download/transmit?uuid=abc-123"
            );
        }
        _ => panic!("expected the transmit action"),
    }
    assert_eq!(transmits, 1);
    let (state, action) = fetch_step(state.0, FetchEvent::TransmitAnswered);
    assert!(matches!(action, FetchAction::Finish));
    assert!(matches!(state, FetchState::Delivered));
}

#[test]
fn poll_budget_spent_is_timeout() {
    let (state, _) = fetch_start(5, 0);
    let (state, _) = fetch_step(
        state,
        FetchEvent::RequestAnswered { uuid: String::from("u") },
    );
    let (state, action) = fetch_step(
        state,
        FetchEvent::StatusAnswered { status: Some(String::from("queued")) },
    );
    assert!(matches!(action, FetchAction::Fail { error: SyncError::Timeout }));
    assert!(matches!(state, FetchState::Failed { error: SyncError::Timeout }));
}

#[test]
fn missing_handle_entry_is_protocol_error() {
    let (state, _) = fetch_start(5, 3);
    let (state, _) = fetch_step(
        state,
        FetchEvent::RequestAnswered { uuid: String::from("u") },
    );
    let (_, action) = fetch_step(state, FetchEvent::StatusAnswered { status: None });
    assert!(matches!(action, FetchAction::Fail { error: SyncError::ProtocolError }));
}

#[test]
fn unquotable_handle_is_protocol_error() {
    let (state, _) = fetch_start(5, 3);
    let (state, action) = fetch_step(
        state,
        FetchEvent::RequestAnswered { uuid: String::from("a\"b") },
    );
    assert!(matches!(action, FetchAction::Fail { error: SyncError::ProtocolError }));
    assert!(matches!(state, FetchState::Failed { error: SyncError::ProtocolError }));
}

#[test]
fn network_failure_surfaces() {
    let (state, _) = fetch_start(5, 3);
    let (state, action) = fetch_step(state, FetchEvent::NetworkFailed);
    assert!(matches!(action, FetchAction::Fail { error: SyncError::RemoteUnavailable }));
    assert!(matches!(state, FetchState::Failed { error: SyncError::RemoteUnavailable }));
    // a finished fetch absorbs whatever else arrives
    let (state, action) = fetch_step(state, FetchEvent::TransmitAnswered);
    assert!(matches!(action, FetchAction::Idle));
    assert!(matches!(state, FetchState::Failed { error: SyncError::RemoteUnavailable }));
}
