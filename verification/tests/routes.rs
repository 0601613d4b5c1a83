use kilo_executor::logs::LogMsg;
use kilo_executor::routes::{
    is_expected_disconnection, ErrnoKind, ErrorCause, IoErrorKind, RawLogIndexer, RawLogPayload,
    SessionExecutionProcessQuery, WsAction, WsEvent, WsForwarder, WsOutcome,
};

#[test]
fn nearest_io_error_decides() {
    assert!(is_expected_disconnection(&vec![ErrorCause::Io(IoErrorKind::BrokenPipe)]));
    assert!(is_expected_disconnection(&vec![ErrorCause::Io(IoErrorKind::ConnectionReset)]));
    assert!(!is_expected_disconnection(&vec![
        ErrorCause::Io(IoErrorKind::Other),
        ErrorCause::Errno(ErrnoKind::Epipe),
    ]));
}

#[test]
fn first_errno_along_the_chain_decides() {
    assert!(is_expected_disconnection(&vec![ErrorCause::Other, ErrorCause::Errno(ErrnoKind::Econnreset)]));
    assert!(is_expected_disconnection(&vec![ErrorCause::Other, ErrorCause::Io(IoErrorKind::Other), ErrorCause::Errno(ErrnoKind::Epipe)]));
    assert!(!is_expected_disconnection(&vec![
        ErrorCause::Errno(ErrnoKind::Other),
        ErrorCause::Errno(ErrnoKind::Epipe),
    ]));
    assert!(!is_expected_disconnection(&vec![ErrorCause::Other, ErrorCause::Io(IoErrorKind::BrokenPipe)]));
    assert!(!is_expected_disconnection(&vec![]));
}

#[test]
fn soft_deleted_defaults_to_hidden() {
    let q = SessionExecutionProcessQuery { session_id: 1, show_soft_deleted: None };
    assert!(!q.include_soft_deleted());
    let q = SessionExecutionProcessQuery { session_id: 1, show_soft_deleted: Some(true) };
    assert!(q.include_soft_deleted());
    let q = SessionExecutionProcessQuery { session_id: 1, show_soft_deleted: Some(false) };
    assert!(!q.include_soft_deleted());
}

#[test]
fn raw_chunks_are_numbered_across_both_streams() {
    let mut ix = RawLogIndexer::new();
    assert!(matches!(ix.to_payload(LogMsg::Stdout("a".to_string())), RawLogPayload::StdoutPatch { index: 0, ref content } if content == "a"));
    assert!(matches!(ix.to_payload(LogMsg::Stderr("b".to_string())), RawLogPayload::StderrPatch { index: 1, ref content } if content == "b"));
    assert!(matches!(ix.to_payload(LogMsg::Finished), RawLogPayload::Finished));
    assert!(matches!(ix.to_payload(LogMsg::Stdout("c".to_string())), RawLogPayload::StdoutPatch { index: 2, .. }));
}

#[test]
fn forwarding_sends_each_item_until_the_end() {
    let mut f = WsForwarder::new();
    for _ in 0..3 {
        assert!(matches!(f.step(WsEvent::ItemReady), WsAction::Send));
        assert!(matches!(f.step(WsEvent::Sent), WsAction::Next));
    }
    assert!(matches!(f.step(WsEvent::StreamEnded), WsAction::Finish(WsOutcome::Completed)));
    assert_eq!(f.message_count(), 3);
    assert!(!f.stream_ended_by_failure());
    assert!(!f.accepts(&WsEvent::ItemReady));
}

#[test]
fn disconnection_stops_forwarding() {
    let mut f = WsForwarder::new();
    f.step(WsEvent::ItemReady);
    let a = f.step(WsEvent::SendFailed(vec![ErrorCause::Io(IoErrorKind::BrokenPipe)]));
    assert!(matches!(a, WsAction::Finish(WsOutcome::ClientDisconnected)));
    assert!(f.stream_ended_by_failure());
    assert_eq!(f.message_count(), 1);
}

#[test]
fn other_send_errors_stop_forwarding_too() {
    let mut f = WsForwarder::new();
    f.step(WsEvent::ItemReady);
    let a = f.step(WsEvent::SendFailed(vec![ErrorCause::Other]));
    assert!(matches!(a, WsAction::Finish(WsOutcome::SendFailed)));
    assert!(f.stream_ended_by_failure());
}

#[test]
fn stream_errors_stop_forwarding() {
    let mut f = WsForwarder::new();
    assert!(matches!(f.step(WsEvent::StreamFailed), WsAction::Finish(WsOutcome::StreamFailed)));
    assert!(f.stream_ended_by_failure());
    assert_eq!(f.message_count(), 0);
}
