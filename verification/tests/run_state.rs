use brain_backend::run::repository::check_stored_transition;
use brain_backend::run::state::{RunStateMachine, RunStatus, TransitionError};

#[test]
fn valid_transitions() {
    assert!(
        RunStateMachine::validate_transition(&RunStatus::Pending, &RunStatus::Running, false, false, false, 0)
            .is_ok()
    );
    assert!(
        RunStateMachine::validate_transition(&RunStatus::Running, &RunStatus::Completed, true, false, false, 0)
            .is_ok()
    );
    assert!(
        RunStateMachine::validate_transition(&RunStatus::Running, &RunStatus::Failed, false, true, false, 0)
            .is_ok()
    );
    assert!(
        RunStateMachine::validate_transition(&RunStatus::Running, &RunStatus::Paused, false, false, false, 0)
            .is_ok()
    );
    assert!(
        RunStateMachine::validate_transition(&RunStatus::Paused, &RunStatus::Running, false, false, false, 0)
            .is_ok()
    );
}

#[test]
fn invalid_transitions() {
    assert!(
        RunStateMachine::validate_transition(&RunStatus::Pending, &RunStatus::Completed, false, false, false, 0)
            .is_err()
    );
    assert!(
        RunStateMachine::validate_transition(&RunStatus::Completed, &RunStatus::Running, false, false, false, 0)
            .is_err()
    );
}

#[test]
fn pending_tools_block_transition() {
    assert!(
        RunStateMachine::validate_transition(&RunStatus::Running, &RunStatus::Completed, true, false, false, 2)
            .is_err()
    );
}

#[test]
fn status_names_round_trip() {
    for s in [
        RunStatus::Pending,
        RunStatus::Running,
        RunStatus::Paused,
        RunStatus::Completed,
        RunStatus::Failed,
        RunStatus::Cancelled,
    ] {
        assert_eq!(RunStatus::parse_status(s.as_str()), Some(s));
    }
    assert_eq!(RunStatus::parse_status("done"), None);
    assert_eq!(RunStatus::Running.as_str(), "running");
}

#[test]
fn terminal_statuses_are_final() {
    for from in [RunStatus::Completed, RunStatus::Failed, RunStatus::Cancelled] {
        for to in [RunStatus::Pending, RunStatus::Running, RunStatus::Paused, RunStatus::Cancelled] {
            assert!(RunStateMachine::validate_transition(&from, &to, true, true, true, 0).is_err());
        }
    }
}

#[test]
fn cancel_needs_reason() {
    assert!(RunStateMachine::validate_transition(&RunStatus::Running, &RunStatus::Cancelled, false, false, false, 0).is_err());
    let t = RunStateMachine::validate_transition(&RunStatus::Running, &RunStatus::Cancelled, false, false, true, 0).unwrap();
    assert_eq!(t.from, RunStatus::Running);
    assert_eq!(t.to, RunStatus::Cancelled);
}

#[test]
fn transition_error_messages() {
    let e = RunStateMachine::validate_transition(&RunStatus::Pending, &RunStatus::Completed, false, false, false, 0)
        .unwrap_err();
    assert_eq!(e.message(), "invalid transition: pending → completed");
    assert_eq!(TransitionError::PendingTools { count: 3 }.message(), "pending tool invocations: 3 still running");
    assert_eq!(TransitionError::NotFound.message(), "run not found");
    assert_eq!(TransitionError::MissingSummary.message(), "missing summary for completed run");
}

#[test]
fn stored_transition_checks() {
    assert_eq!(
        check_stored_transition("bogus", RunStatus::Running, false, false, false, 0).unwrap_err(),
        "invalid current status: bogus"
    );
    let t = check_stored_transition("pending", RunStatus::Running, false, false, false, 0).unwrap();
    assert!(check_stored_transition("running", RunStatus::Completed, true, false, false, 2).is_err());
    assert!(check_stored_transition("running", RunStatus::Completed, true, false, false, 0).is_ok());
    assert_eq!(t.from, RunStatus::Pending);
    assert_eq!(
        check_stored_transition("completed", RunStatus::Running, false, false, false, 0).unwrap_err(),
        "invalid transition: completed → running"
    );
}
