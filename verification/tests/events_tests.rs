use elrust_session::events::{
    ComputationError, IndexingProgress, LifecycleTransition, NativeError, NativeErrorKind,
    Progress, ProgressReporter, Severity, Ticks,
};

#[test]
fn severity_names() {
    assert_eq!(Severity::WARNING.as_str(), "WARNING");
    assert_eq!(Severity::ERROR.as_str(), "ERROR");
}

#[test]
fn ticks_are_done_only_at_their_total() {
    let fresh = Ticks::new();
    assert_eq!(fresh.count, 0);
    assert!(fresh.total.is_none());
    assert!(fresh.state.is_none());
    assert!(!fresh.done());

    let without_total = Ticks { count: 10, state: None, total: None };
    assert!(!without_total.done());

    let at_total = Ticks { count: 10, state: None, total: Some(10) };
    assert!(at_total.done());

    let below_total = Ticks { count: 9, state: None, total: Some(10) };
    assert!(!below_total.done());
}

#[test]
fn progress_ticks_constructor_fills_all_fields() {
    let progress = Progress::ticks(3, Some(9), Some("indexing".to_string()));
    match progress {
        Progress::Ticks(ticks) => {
            assert_eq!(ticks.count, 3);
            assert_eq!(ticks.total, Some(9));
            assert_eq!(ticks.state.as_deref(), Some("indexing"));
        }
        _ => panic!("expected a ticks message"),
    }
}

#[test]
fn channel_error_shape() {
    let error = NativeError::channel("fail to response to Api::CloseSession");
    assert!(matches!(error.severity, Severity::ERROR));
    assert!(matches!(error.kind, NativeErrorKind::ChannelError));
    assert_eq!(
        error.message.as_deref(),
        Some("fail to response to Api::CloseSession")
    );
}

#[test]
fn computation_error_texts_are_exact() {
    assert_eq!(
        ComputationError::Communication("broken pipe".to_string()).to_text(),
        "Native communication error (broken pipe)"
    );
    assert_eq!(
        ComputationError::OperationNotSupported("observe".to_string()).to_text(),
        "Operation not supported (observe)"
    );
    assert_eq!(
        ComputationError::IoOperation("disk".to_string()).to_text(),
        "IO error (disk)"
    );
    assert_eq!(ComputationError::InvalidData.to_text(), "Invalid data error");
    assert_eq!(
        ComputationError::InvalidArgs("whatever".to_string()).to_text(),
        "Invalid arguments"
    );
    assert_eq!(
        ComputationError::Process("boom".to_string()).to_text(),
        "Error during processing: (boom)"
    );
    assert_eq!(
        ComputationError::Protocol("misuse".to_string()).to_text(),
        "Wrong usage of API: (misuse)"
    );
    assert_eq!(
        ComputationError::MultipleInitCall.to_text(),
        "start method canbe called just once"
    );
    assert_eq!(
        ComputationError::SessionUnavailable.to_text(),
        "Session is destroyed or not inited yet"
    );
    assert_eq!(
        ComputationError::Sde("sink gone".to_string()).to_text(),
        "Sending data to source error: sink gone"
    );
    assert_eq!(
        ComputationError::DestinationPath.to_text(),
        "Destination path should be defined to stream from MassageProducer"
    );
}

#[test]
fn computation_error_converts_to_a_native_io_error() {
    let source = ComputationError::Process("boom".to_string());
    let native = NativeError::from_computation(&source);
    assert!(matches!(native.severity, Severity::ERROR));
    assert!(matches!(native.kind, NativeErrorKind::Io));
    assert_eq!(
        native.message.as_deref(),
        Some("Error during processing: (boom)")
    );
}

#[test]
fn lifecycle_transitions_carry_their_id() {
    let id: u128 = 31;
    let started = LifecycleTransition::started(&id, "Sleeping");
    assert_eq!(started.uuid(), id);
    match &started {
        LifecycleTransition::Started { alias, .. } => assert_eq!(alias, "Sleeping"),
        _ => panic!("expected a started transition"),
    }
    let stopped = LifecycleTransition::stopped(&id);
    assert_eq!(stopped.uuid(), id);
    let ticks = LifecycleTransition::ticks(&id, Ticks::new());
    assert_eq!(ticks.uuid(), id);
}

#[test]
fn progress_reporter_emits_one_event_per_percentage_point() {
    let (tx, rx) = crossbeam_channel::unbounded();
    let mut reporter: ProgressReporter<u32> = ProgressReporter::new(100, tx);
    for _ in 0..100 {
        // Every byte moves the percentage by one point, so every call
        // reports an emission.
        assert!(reporter.make_progress(1));
    }
    drop(reporter);
    let mut events = Vec::new();
    while let Ok(message) = rx.try_recv() {
        events.push(message);
    }
    assert_eq!(events.len(), 100);
    for (index, message) in events.iter().enumerate() {
        match message {
            Ok(IndexingProgress::Progress { ticks }) => {
                assert_eq!(*ticks, ((index + 1) as u64, 100));
            }
            other => panic!("unexpected progress message {:?}", other),
        }
    }
}

#[test]
fn progress_reporter_with_zero_total_emits_nothing() {
    let (tx, rx) = crossbeam_channel::unbounded();
    let mut reporter: ProgressReporter<u32> = ProgressReporter::new(0, tx);
    for _ in 0..5 {
        assert!(!reporter.make_progress(1));
    }
    drop(reporter);
    assert!(rx.try_recv().is_err());
}

#[test]
fn progress_reporter_skips_repeated_percentages() {
    let (tx, rx) = crossbeam_channel::unbounded();
    // 1000 bytes total: single bytes move the percentage only every
    // ten bytes, and the rounding emits at the half-way points.
    let mut reporter: ProgressReporter<u32> = ProgressReporter::new(1000, tx);
    let mut emitted: usize = 0;
    for _ in 0..100 {
        if reporter.make_progress(1) {
            emitted += 1;
        }
    }
    drop(reporter);
    let mut events = Vec::new();
    while let Ok(message) = rx.try_recv() {
        events.push(message);
    }
    // The reported emission decision and the channel agree.
    assert_eq!(events.len(), emitted);
    assert_eq!(events.len(), 10);
}
