use elrust_session::events::{NativeErrorKind, Severity};
use elrust_session::session::loop_exit_forces_stop;
use elrust_session::state::{Api, SessionState, StateStep, Status};

#[test]
fn close_session_closes_and_acknowledges() {
    let mut state = SessionState::new();
    assert!(matches!(state.status, Status::Open));
    assert!(!state.is_closed());
    let step = state.apply(Api::CloseSession);
    assert_eq!(step, StateStep::Acknowledge);
    assert!(matches!(state.status, Status::Closed));
    assert!(state.is_closed());
}

#[test]
fn a_closed_session_stays_closed() {
    let mut state = SessionState::new();
    state.apply(Api::CloseSession);
    state.apply(Api::SetDebugMode(true));
    state.apply(Api::NotifyCancelingOperation(4));
    state.apply(Api::NotifyCanceledOperation(4));
    assert!(state.is_closed());
}

#[test]
fn set_debug_mode_flips_the_flag_and_acknowledges() {
    let mut state = SessionState::new();
    assert!(!state.debug);
    assert_eq!(state.apply(Api::SetDebugMode(true)), StateStep::Acknowledge);
    assert!(state.debug);
    assert_eq!(state.apply(Api::SetDebugMode(false)), StateStep::Acknowledge);
    assert!(!state.debug);
}

#[test]
fn cancel_notifications_track_the_cancelling_set() {
    let mut state = SessionState::new();
    assert_eq!(state.apply(Api::NotifyCancelingOperation(9)), StateStep::Note);
    assert!(state.is_cancelling(9));
    // Noting the same id twice leaves a single entry.
    state.apply(Api::NotifyCancelingOperation(9));
    assert_eq!(state.cancelling_operations.len(), 1);
    assert_eq!(state.apply(Api::NotifyCanceledOperation(9)), StateStep::Note);
    assert!(!state.is_cancelling(9));
    assert_eq!(state.cancelling_operations.len(), 0);
}

#[test]
fn shutdown_exits_the_loop_cleanly() {
    let mut state = SessionState::new();
    assert_eq!(state.apply(Api::Shutdown), StateStep::Exit);
    assert!(!state.is_closed());
}

#[test]
fn shutdown_with_error_reports_the_injected_failure() {
    let mut state = SessionState::new();
    let step = state.apply(Api::ShutdownWithError);
    match step {
        StateStep::Fail(error) => {
            assert!(matches!(error.severity, Severity::ERROR));
            assert!(matches!(error.kind, NativeErrorKind::Io));
            assert_eq!(
                error.message.as_deref(),
                Some("Shutdown state loop with error for testing")
            );
        }
        other => panic!("unexpected step {:?}", other),
    }
}

#[test]
fn abnormal_loop_exits_force_the_session_down() {
    assert!(!loop_exit_forces_stop(&Some(Ok(()))));
    assert!(loop_exit_forces_stop(&Some(Err(
        elrust_session::tracker::tracker_test_error()
    ))));
    assert!(loop_exit_forces_stop(&None));
}

#[test]
fn tracker_test_error_shape() {
    let error = elrust_session::tracker::tracker_test_error();
    assert!(matches!(error.severity, Severity::ERROR));
    assert!(matches!(error.kind, NativeErrorKind::Io));
    assert_eq!(
        error.message.as_deref(),
        Some("Shutdown tracker loop with error for testing")
    );
}
