//! Tests for the session registry and the bulk-stop summary.

use reina_monitor::registry::{stop_outcome, RegistryError, SessionRegistry};

#[test]
fn register_and_stop_returns_candidates() {
    let mut reg = SessionRegistry::new();
    reg.register(8, vec![3, 4, 5]).unwrap();
    assert!(!reg.is_stop_requested(8));
    let pids = reg.request_stop(8).unwrap();
    assert_eq!(pids, vec![3, 4, 5]);
    assert!(reg.is_stop_requested(8));
}

#[test]
fn duplicate_registration_is_refused() {
    let mut reg = SessionRegistry::new();
    reg.register(8, vec![3]).unwrap();
    let r = reg.register(8, vec![9]);
    assert_eq!(r.unwrap_err(), RegistryError::DuplicateSession);
}

#[test]
fn stop_of_unknown_session_fails() {
    let mut reg = SessionRegistry::new();
    let r = reg.request_stop(99);
    assert_eq!(r.unwrap_err(), RegistryError::NoSuchSession);
}

#[test]
fn stop_after_unregister_fails_not_silently_succeeds() {
    let mut reg = SessionRegistry::new();
    reg.register(8, vec![3]).unwrap();
    assert!(reg.unregister(8));
    let r = reg.request_stop(8);
    assert_eq!(r.unwrap_err(), RegistryError::NoSuchSession);
    assert!(!reg.unregister(8));
}

#[test]
fn registry_keeps_sessions_independent() {
    let mut reg = SessionRegistry::new();
    reg.register(1, vec![10]).unwrap();
    reg.register(2, vec![20]).unwrap();
    reg.request_stop(1).unwrap();
    assert!(reg.is_stop_requested(1));
    assert!(!reg.is_stop_requested(2));
    assert!(reg.unregister(1));
    assert_eq!(reg.request_stop(2).unwrap(), vec![20]);
}

#[test]
fn candidate_updates_reach_the_stop_snapshot() {
    let mut reg = SessionRegistry::new();
    reg.register(1, vec![10]).unwrap();
    assert!(reg.update_candidates(1, &vec![10, 11]));
    assert!(!reg.update_candidates(3, &vec![1]));
    assert_eq!(reg.request_stop(1).unwrap(), vec![10, 11]);
}

#[test]
fn three_candidates_one_failure_still_counts_two() {
    // Termination was attempted for all three; one simulated
    // access-denied failure neither aborts the rest nor fails the stop.
    let results = vec![true, false, true];
    let r = stop_outcome(8, &results);
    assert!(r.success);
    assert_eq!(r.terminated_count, 2);
    assert_eq!(r.message, "stopped game 8, terminated 2 processes");
}

#[test]
fn stop_summary_counts_all_and_none() {
    assert_eq!(stop_outcome(1, &vec![true, true, true]).terminated_count, 3);
    assert_eq!(stop_outcome(1, &vec![]).terminated_count, 0);
    assert_eq!(
        stop_outcome(4294967295, &vec![]).message,
        "stopped game 4294967295, terminated 0 processes"
    );
}
