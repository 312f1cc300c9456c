use pod_lifecycle::lifecycle::{Failed, Liveness, Outcome, Running, SuperviseError};
use pod_lifecycle::workload::{Handle, Timestamp};

fn running() -> Running {
    Running { transition_time: Timestamp { epoch_seconds: 1_600_000_000 } }
}

fn two_handles() -> Vec<Handle> {
    vec![
        Handle { container_name: "app".to_string(), service_unit: "app.service".to_string() },
        Handle { container_name: "sidecar".to_string(), service_unit: "sidecar.service".to_string() },
    ]
}

#[test]
fn all_live_pass_stays_running() {
    let state = running();
    let name = "mysvc".to_string();
    let lookup = Some(two_handles());
    let outcomes = vec![Liveness::Live, Liveness::Live];
    assert_eq!(state.advance(&name, &lookup, &outcomes), Outcome::StayRunning);
}

#[test]
fn three_consecutive_live_polls_never_transition() {
    let state = running();
    let name = "mysvc".to_string();
    let lookup = Some(two_handles());
    for _ in 0..3 {
        let outcomes = vec![Liveness::Live, Liveness::Live];
        assert_eq!(state.advance(&name, &lookup, &outcomes), Outcome::StayRunning);
    }
}

#[test]
fn second_handle_stopped_on_second_poll_fails() {
    let state = running();
    let name = "mysvc".to_string();
    let lookup = Some(two_handles());
    let first_pass = vec![Liveness::Live, Liveness::Live];
    assert_eq!(state.advance(&name, &lookup, &first_pass), Outcome::StayRunning);
    let second_pass = vec![Liveness::Live, Liveness::Stopped];
    assert_eq!(
        state.advance(&name, &lookup, &second_pass),
        Outcome::TransitionToFailed(Failed { message: String::new() })
    );
}

#[test]
fn first_handle_stopped_fails_regardless_of_order() {
    let state = running();
    let name = "mysvc".to_string();
    let lookup = Some(two_handles());
    let outcomes = vec![Liveness::Stopped, Liveness::Live];
    assert_eq!(
        state.advance(&name, &lookup, &outcomes),
        Outcome::TransitionToFailed(Failed { message: String::new() })
    );
}

#[test]
fn missing_registry_entry_is_an_error_naming_the_service() {
    let state = running();
    let name = "mysvc".to_string();
    let outcomes: Vec<Liveness> = Vec::new();
    let outcome = state.advance(&name, &None, &outcomes);
    match outcome {
        Outcome::CompleteWithError(SuperviseError::MissingHandles { service_name }) => {
            assert_eq!(service_name, "mysvc");
        }
        other => panic!("expected the missing-handles error, got {:?}", other),
    }
}

#[test]
fn query_failure_is_an_error_carrying_the_underlying_error() {
    let state = running();
    let name = "mysvc".to_string();
    let lookup = Some(two_handles());
    let outcomes = vec![
        Liveness::Live,
        Liveness::QueryFailed { error: "control socket closed".to_string() },
    ];
    let outcome = state.advance(&name, &lookup, &outcomes);
    match outcome {
        Outcome::CompleteWithError(SuperviseError::QueryFailure { service_unit, error }) => {
            assert_eq!(service_unit, "sidecar.service");
            assert_eq!(error, "control socket closed");
        }
        other => panic!("expected the query-failure error, got {:?}", other),
    }
}

#[test]
fn query_failure_is_not_a_failed_transition() {
    let state = running();
    let name = "mysvc".to_string();
    let lookup = Some(two_handles());
    let outcomes = vec![
        Liveness::QueryFailed { error: "transport error".to_string() },
        Liveness::Live,
    ];
    let outcome = state.advance(&name, &lookup, &outcomes);
    assert!(!matches!(outcome, Outcome::TransitionToFailed(_)));
    assert!(matches!(outcome, Outcome::CompleteWithError(_)));
}

#[test]
fn stop_before_query_failure_wins_in_query_order() {
    let state = running();
    let name = "mysvc".to_string();
    let lookup = Some(two_handles());
    let outcomes = vec![
        Liveness::Stopped,
        Liveness::QueryFailed { error: "never queried".to_string() },
    ];
    assert_eq!(
        state.advance(&name, &lookup, &outcomes),
        Outcome::TransitionToFailed(Failed { message: String::new() })
    );
}

#[test]
fn poll_step_live_continues() {
    let state = running();
    let handle = &two_handles()[0];
    assert_eq!(state.poll_step(handle, &Liveness::Live), None);
}

#[test]
fn poll_step_stopped_fails_with_empty_message() {
    let state = running();
    let handle = &two_handles()[0];
    assert_eq!(
        state.poll_step(handle, &Liveness::Stopped),
        Some(Outcome::TransitionToFailed(Failed { message: String::new() }))
    );
}

#[test]
fn poll_step_query_failure_carries_unit_and_error() {
    let state = running();
    let handle = &two_handles()[1];
    assert_eq!(
        state.poll_step(handle, &Liveness::QueryFailed { error: "no reply".to_string() }),
        Some(Outcome::CompleteWithError(SuperviseError::QueryFailure {
            service_unit: "sidecar.service".to_string(),
            error: "no reply".to_string(),
        }))
    );
}
