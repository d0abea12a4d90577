use tower_abci::v037::connection::{Action, ConnectionState, Disposition, MethodKind};

#[test]
fn requests_are_dispatched_and_answered_in_order() {
    let mut c = ConnectionState::new();
    assert_eq!(c.on_request(MethodKind::Consensus), Action::Dispatch(MethodKind::Consensus));
    assert_eq!(c.on_request(MethodKind::Info), Action::Dispatch(MethodKind::Info));
    assert_eq!(c.on_request(MethodKind::Mempool), Action::Dispatch(MethodKind::Mempool));
    assert!(c.has_pending());
    assert_eq!(c.on_response(true), Action::Reply(MethodKind::Consensus, Disposition::Send));
    assert_eq!(c.on_response(true), Action::Reply(MethodKind::Info, Disposition::Send));
    assert_eq!(c.on_response(true), Action::Reply(MethodKind::Mempool, Disposition::Send));
    assert!(!c.has_pending());
}

#[test]
fn flush_with_nothing_pending_is_answered_at_once() {
    let mut c = ConnectionState::new();
    assert_eq!(c.on_request(MethodKind::Flush), Action::SendFlush);
    assert!(!c.is_flushing());
}

#[test]
fn flush_waits_for_pending_responses() {
    let mut c = ConnectionState::new();
    c.on_request(MethodKind::Snapshot);
    c.on_request(MethodKind::Consensus);
    assert_eq!(c.on_request(MethodKind::Flush), Action::AwaitResponses);
    assert!(c.is_flushing());
    assert_eq!(c.on_response(true), Action::Reply(MethodKind::Snapshot, Disposition::Send));
    assert!(c.is_flushing());
    assert_eq!(
        c.on_response(true),
        Action::ReplyThenFlush(MethodKind::Consensus, Disposition::Send)
    );
    assert!(!c.is_flushing());
    assert!(!c.has_pending());
}

#[test]
fn failed_info_becomes_exception_others_fail() {
    let mut c = ConnectionState::new();
    c.on_request(MethodKind::Info);
    c.on_request(MethodKind::Mempool);
    assert_eq!(c.on_response(false), Action::Reply(MethodKind::Info, Disposition::Exception));
    assert_eq!(c.on_response(false), Action::Reply(MethodKind::Mempool, Disposition::Fail));
}

#[test]
fn failed_response_while_flushing() {
    let mut c = ConnectionState::new();
    c.on_request(MethodKind::Info);
    assert_eq!(c.on_request(MethodKind::Flush), Action::AwaitResponses);
    assert_eq!(
        c.on_response(false),
        Action::ReplyThenFlush(MethodKind::Info, Disposition::Exception)
    );
}
