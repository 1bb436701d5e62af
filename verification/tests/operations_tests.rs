use elrust_session::events::{CallbackEvent, NativeError, NativeErrorKind, Severity};
use elrust_session::operations::{
    finish_event, Dispatcher, Operation, OperationAPI, OperationKind, OperationOutcome,
    OperationStat,
};
use elrust_session::tracker::Tracker;
use tokio::sync::mpsc::{unbounded_channel, UnboundedReceiver};
use tokio_util::sync::CancellationToken;

fn drain(rx: &mut UnboundedReceiver<CallbackEvent>) -> Vec<CallbackEvent> {
    let mut events = Vec::new();
    while let Ok(event) = rx.try_recv() {
        events.push(event);
    }
    events
}

#[test]
fn finish_signals_done_once_for_success() {
    let (tx, mut rx) = unbounded_channel();
    let mut tracker = Tracker::new();
    let id: u128 = 1;
    let api = OperationAPI::new(tx, id, CancellationToken::new());
    let done = api.done_token();
    assert!(!done.is_cancelled());
    api.finish(&mut tracker, false, OperationOutcome::Success(None));
    assert!(done.is_cancelled());
    let events = drain(&mut rx);
    assert_eq!(events.len(), 1);
    match &events[0] {
        CallbackEvent::OperationDone(info) => {
            assert_eq!(info.uuid, id);
            assert!(info.result.is_none());
        }
        other => panic!("unexpected event {:?}", other),
    }
}

#[test]
fn finish_signals_done_once_for_handler_error() {
    let (tx, mut rx) = unbounded_channel();
    let mut tracker = Tracker::new();
    let id: u128 = 2;
    let api = OperationAPI::new(tx, id, CancellationToken::new());
    let done = api.done_token();
    assert!(!done.is_cancelled());
    let error = NativeError {
        severity: Severity::ERROR,
        kind: NativeErrorKind::Interrupted,
        message: Some("stopped".to_string()),
    };
    api.finish(&mut tracker, false, OperationOutcome::Failure(error.clone()));
    assert!(done.is_cancelled());
    let events = drain(&mut rx);
    assert_eq!(events.len(), 1);
    match &events[0] {
        CallbackEvent::OperationError { uuid, error: reported } => {
            assert_eq!(*uuid, id);
            assert_eq!(*reported, error);
        }
        other => panic!("unexpected event {:?}", other),
    }
}

#[test]
fn finish_signals_done_once_for_serialization_failure() {
    let (tx, mut rx) = unbounded_channel();
    let mut tracker = Tracker::new();
    let id: u128 = 3;
    let api = OperationAPI::new(tx, id, CancellationToken::new());
    let done = api.done_token();
    api.finish(
        &mut tracker,
        false,
        OperationOutcome::SerializationFailed("bad value".to_string()),
    );
    assert!(done.is_cancelled());
    let events = drain(&mut rx);
    assert_eq!(events.len(), 1);
    match &events[0] {
        CallbackEvent::OperationError { uuid, error } => {
            assert_eq!(*uuid, id);
            assert!(matches!(error.kind, NativeErrorKind::ComputationFailed));
            assert!(matches!(error.severity, Severity::ERROR));
            assert_eq!(error.message.as_deref(), Some("bad value"));
        }
        other => panic!("unexpected event {:?}", other),
    }
}

#[test]
fn finish_for_an_already_removed_operation_leaves_the_tracker_alone() {
    let (tx, mut rx) = unbounded_channel();
    let mut tracker = Tracker::new();
    // Another operation's entry must stay untouched.
    let other: u128 = 30;
    assert!(tracker.add_operation(
        other,
        "Sleeping".to_string(),
        CancellationToken::new(),
        CancellationToken::new(),
    ));
    let before = tracker.get_operations_stat();

    // This operation's entry is already gone; its finish is a no-op on
    // the registry but still reports and signals as usual.
    let api = OperationAPI::new(tx, 31, CancellationToken::new());
    api.finish(&mut tracker, false, OperationOutcome::Success(None));
    assert_eq!(tracker.get_operations_stat(), before);
    assert!(api.done_token().is_cancelled());
    let events = drain(&mut rx);
    assert_eq!(events.len(), 1);
    assert!(matches!(&events[0], CallbackEvent::OperationDone(info) if info.uuid == 31));
}

#[test]
fn cancel_of_unknown_target_warns_that_it_is_not_found() {
    let (tx, mut rx) = unbounded_channel();
    let mut tracker = Tracker::new();
    let op_id: u128 = 10;
    let target: u128 = 0xdead_beef_dead_beef_dead_beef_dead_beef;
    let api = OperationAPI::new(tx, op_id, CancellationToken::new());
    api.run_cancel(&mut tracker, false, target);
    let events = drain(&mut rx);
    assert_eq!(events.len(), 1);
    match &events[0] {
        CallbackEvent::OperationError { uuid, error } => {
            assert_eq!(*uuid, op_id);
            assert!(matches!(error.kind, NativeErrorKind::Io));
            assert!(matches!(error.severity, Severity::WARNING));
            let message = error.message.as_deref().unwrap();
            assert!(message.contains("isn't found"));
            assert!(message
                .contains(&uuid::Uuid::from_u128(target).hyphenated().to_string()));
        }
        other => panic!("unexpected event {:?}", other),
    }
}

#[test]
fn execute_refuses_a_duplicate_id() {
    let (tx, _rx) = unbounded_channel();
    let mut tracker = Tracker::new();
    let id: u128 = 11;
    let api = OperationAPI::new(tx, id, CancellationToken::new());
    let operation = Operation::new(id, OperationKind::Sleep(5));
    assert!(api.execute(&mut tracker, &operation).is_ok());
    let again = Operation::new(id, OperationKind::Sleep(5));
    let refused = api.execute(&mut tracker, &again);
    match refused {
        Err(error) => {
            assert!(matches!(error.kind, NativeErrorKind::ComputationFailed));
            let message = error.message.as_deref().unwrap();
            assert!(message.contains("already exists"));
            assert!(message.contains(&uuid::Uuid::from_u128(id).hyphenated().to_string()));
        }
        Ok(()) => panic!("a duplicate id must not be scheduled"),
    }
}

#[test]
fn cancel_race_both_operations_reach_a_terminal_event() {
    let (tx, mut rx) = unbounded_channel();
    let mut tracker = Tracker::new();
    let sleeper: u128 = 21;
    let canceler: u128 = 22;

    let sleeper_api = OperationAPI::new(tx.clone(), sleeper, CancellationToken::new());
    let sleep_op = Operation::new(sleeper, OperationKind::Sleep(50));
    assert!(sleeper_api.execute(&mut tracker, &sleep_op).is_ok());
    sleeper_api.started();

    let cancel_api = OperationAPI::new(tx, canceler, CancellationToken::new());
    let cancel_op = Operation::new(canceler, OperationKind::Cancel { target: sleeper });
    assert!(cancel_api.execute(&mut tracker, &cancel_op).is_ok());
    cancel_api.started();
    cancel_api.run_cancel(&mut tracker, false, sleeper);

    // The target's cooperative-stop signal is set.
    assert!(sleeper_api.cancellation_token().is_cancelled());
    // The cancel operation itself succeeds with a done event.
    assert!(cancel_api.done_token().is_cancelled());

    // The sleeping handler observes its token and finishes.
    sleeper_api.finish(&mut tracker, false, OperationOutcome::Success(None));
    assert!(sleeper_api.done_token().is_cancelled());

    let events = drain(&mut rx);
    let done_ids: Vec<u128> = events
        .iter()
        .filter_map(|event| match event {
            CallbackEvent::OperationDone(info) => Some(info.uuid),
            _ => None,
        })
        .collect();
    assert!(done_ids.contains(&canceler));
    assert!(done_ids.contains(&sleeper));
    let errors: Vec<&CallbackEvent> = events
        .iter()
        .filter(|event| matches!(event, CallbackEvent::OperationError { .. }))
        .collect();
    assert!(errors.is_empty());
}

#[test]
fn dispatcher_accepts_nothing_after_end() {
    let mut dispatcher = Dispatcher::new();
    assert!(dispatcher.accept(&OperationKind::Sleep(1)));
    assert!(dispatcher.accept(&OperationKind::Cancel { target: 5 }));
    assert!(!dispatcher.accept(&OperationKind::End));
    assert!(!dispatcher.accept(&OperationKind::Sleep(1)));
    assert!(!dispatcher.accept(&OperationKind::Cancel { target: 5 }));
    assert!(!dispatcher.accept(&OperationKind::End));
}

#[test]
fn session_stream_ends_with_exactly_one_destroyed_event() {
    // The dispatcher refuses everything after End; the loop around it
    // then tears the session down and reports SessionDestroyed once,
    // last in the stream.
    let mut dispatcher = Dispatcher::new();
    let requests = vec![
        OperationKind::Sleep(1),
        OperationKind::Cancel { target: 9 },
        OperationKind::End,
        OperationKind::Sleep(2),
    ];
    let mut events: Vec<CallbackEvent> = Vec::new();
    let mut next_id: u128 = 100;
    for kind in &requests {
        if dispatcher.accept(kind) {
            events.push(CallbackEvent::OperationStarted(next_id));
            next_id += 1;
        }
    }
    events.push(CallbackEvent::SessionDestroyed);

    let destroyed: Vec<usize> = events
        .iter()
        .enumerate()
        .filter_map(|(index, event)| match event {
            CallbackEvent::SessionDestroyed => Some(index),
            _ => None,
        })
        .collect();
    assert_eq!(destroyed.len(), 1);
    assert_eq!(destroyed[0], events.len() - 1);
    // Only the two requests before End were accepted.
    assert_eq!(events.len(), 3);
}

#[test]
fn finish_event_maps_every_outcome() {
    let id: u128 = 77;
    match finish_event(id, OperationOutcome::Success(Some("[1]".to_string()))) {
        CallbackEvent::OperationDone(info) => {
            assert_eq!(info.uuid, id);
            assert_eq!(info.result.as_deref(), Some("[1]"));
        }
        other => panic!("unexpected event {:?}", other),
    }
    match finish_event(id, OperationOutcome::SerializationFailed("oops".to_string())) {
        CallbackEvent::OperationError { error, .. } => {
            assert!(matches!(error.kind, NativeErrorKind::ComputationFailed));
            assert_eq!(error.message.as_deref(), Some("oops"));
        }
        other => panic!("unexpected event {:?}", other),
    }
}

#[test]
fn operation_kind_names_match_their_display_labels() {
    assert_eq!(OperationKind::Sleep(1).name(), "Sleeping");
    assert_eq!(
        OperationKind::ExternalLibCall("lib.so".to_string(), 1, 2, Vec::new()).name(),
        "ExternalLibCall"
    );
    assert_eq!(OperationKind::Cancel { target: 1 }.name(), "Canceling");
    assert_eq!(OperationKind::End.name(), "End");
}

#[test]
fn operation_carries_its_id_and_kind() {
    let operation = Operation::new(5, OperationKind::Sleep(30));
    assert_eq!(operation.id(), 5);
    assert!(matches!(operation.kind(), OperationKind::Sleep(30)));
    let (id, kind) = operation.into_parts();
    assert_eq!(id, 5);
    assert!(matches!(kind, OperationKind::Sleep(30)));
}

#[test]
fn operation_stat_finalizes_duration_from_the_clock() {
    let mut stat = OperationStat::new("id-text".to_string(), "Sleeping".to_string());
    assert_eq!(stat.uuid, "id-text");
    assert_eq!(stat.name, "Sleeping");
    assert_eq!(stat.duration, 0);
    let started = stat.started;
    stat.done_at(started + 25);
    assert_eq!(stat.duration, 25);
    assert_eq!(stat.started, started);
    // A clock standing before the start leaves the duration alone.
    let mut second = OperationStat::new("x".to_string(), "End".to_string());
    second.done_at(0);
    assert_eq!(second.duration, 0);
}

#[test]
fn uuid_from_str_accepts_what_the_id_crate_accepts() {
    let text = "67e55044-10b1-426f-9247-bb680e5fe0c8";
    let id = elrust_session::operations::uuid_from_str(text).expect("well-formed id");
    assert_eq!(id, uuid::Uuid::parse_str(text).unwrap().as_u128());

    let bad = elrust_session::operations::uuid_from_str("not-an-id");
    match bad {
        Err(elrust_session::events::ComputationError::Process(message)) => {
            assert_eq!(message, "Fail to parse operation uuid from not-an-id");
        }
        other => panic!("unexpected result {:?}", other),
    }
}
