use tower_abci::buffer4::worker::{ChannelPoll, ClosedError, WorkerAction, WorkerState};
use ChannelPoll::{Closed, Message, Pending};

#[test]
fn highest_priority_queue_is_served_first() {
    let mut w: WorkerState<String> = WorkerState::new();
    assert_eq!(w.next(&[Message, Message, Message, Message]), WorkerAction::Process(0));
    assert_eq!(w.next(&[Pending, Message, Message, Message]), WorkerAction::Process(1));
    assert_eq!(w.next(&[Pending, Pending, Message, Message]), WorkerAction::Process(2));
    assert_eq!(w.next(&[Pending, Pending, Pending, Message]), WorkerAction::Process(3));
    assert_eq!(w.next(&[Pending, Pending, Pending, Pending]), WorkerAction::Wait);
    assert!(!w.is_stopped());
}

#[test]
fn closed_queue_stops_taking_part() {
    let mut w: WorkerState<String> = WorkerState::new();
    assert_eq!(w.next(&[Closed, Message, Message, Message]), WorkerAction::CloseQueue(0));
    assert_eq!(w.next(&[Closed, Message, Message, Message]), WorkerAction::Process(1));
    assert_eq!(w.next(&[Pending, Pending, Message, Pending]), WorkerAction::Process(2));
    assert_eq!(w.next(&[Closed, Pending, Pending, Pending]), WorkerAction::Wait);
    assert!(!w.is_stopped());
}

#[test]
fn queues_closing_in_any_order_stop_the_worker() {
    let mut w: WorkerState<String> = WorkerState::new();
    assert_eq!(w.next(&[Closed, Pending, Pending, Pending]), WorkerAction::CloseQueue(0));
    assert_eq!(w.next(&[Closed, Pending, Closed, Pending]), WorkerAction::CloseQueue(2));
    assert_eq!(w.next(&[Closed, Message, Closed, Closed]), WorkerAction::Process(1));
    assert_eq!(w.next(&[Closed, Message, Closed, Closed]), WorkerAction::Process(1));
    assert_eq!(w.next(&[Closed, Closed, Closed, Closed]), WorkerAction::CloseQueue(1));
    assert!(!w.is_stopped());
    assert_eq!(w.next(&[Closed, Closed, Closed, Closed]), WorkerAction::CloseQueueAndShutdown(3));
    assert!(w.is_stopped());
}

#[test]
fn all_senders_gone_stops_within_four_decisions() {
    let mut w: WorkerState<String> = WorkerState::new();
    let mut steps = 0;
    while !w.is_stopped() {
        w.next(&[Closed, Closed, Closed, Closed]);
        steps += 1;
    }
    assert_eq!(steps, 4);
}

#[test]
fn failure_is_reported_through_the_handle() {
    let mut w: WorkerState<String> = WorkerState::new();
    assert!(matches!(w.handle().get_error_on_closed(), ClosedError::Closed));
    assert_eq!(w.next(&[Message, Pending, Pending, Pending]), WorkerAction::Process(0));
    w.fail("service broke".to_string());
    match w.handle().get_error_on_closed() {
        ClosedError::Failed(e) => assert_eq!(e, "service broke"),
        ClosedError::Closed => panic!("a failure was recorded"),
    }
    assert_eq!(w.next(&[Message, Message, Pending, Pending]), WorkerAction::FlushAndShutdown);
    assert!(w.is_stopped());
    assert!(matches!(w.handle().get_error_on_closed(), ClosedError::Failed(_)));
}

#[test]
fn stopping_without_failure_reports_closed() {
    let mut w: WorkerState<String> = WorkerState::new();
    for _ in 0..4 {
        w.next(&[Closed, Closed, Closed, Closed]);
    }
    assert!(w.is_stopped());
    assert!(matches!(w.handle().get_error_on_closed(), ClosedError::Closed));
}
