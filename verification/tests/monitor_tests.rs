//! Tests for the session state machine: seeding, ticking, debounce,
//! rescan, rounding, and the active-time bound.

use reina_monitor::detector::{detector_poll, PollOutcome};
use reina_monitor::monitor::{
    finalize_session, MonitorPhase, MonitorSession, RescanOutcome, TickInput, TickOutcome,
};

fn tick_input(stop: bool, alive: bool, alive_pids: Vec<u32>, foreground: bool) -> TickInput {
    TickInput {
        stop_requested: stop,
        best_alive: alive,
        alive_pids,
        foreground,
    }
}

fn fresh_session(initial: u32, enumerated: Vec<u32>) -> MonitorSession {
    MonitorSession::start_session(1, 1_000, initial, true, &enumerated, None, &Vec::new())
}

#[test]
fn session_seeds_initial_pid_when_enumeration_missed_it() {
    let s = fresh_session(42, vec![]);
    assert_eq!(s.candidates.pids, vec![42]);
    assert_eq!(s.candidates.best, 42);
    assert_eq!(s.phase, MonitorPhase::Tracking);
    assert_eq!(s.accumulated_active_seconds, 0);
}

#[test]
fn session_seed_deduplicates_and_picks_first() {
    let s = fresh_session(9, vec![5, 5, 7]);
    assert_eq!(s.candidates.pids, vec![5, 7, 9]);
    assert_eq!(s.candidates.best, 5);
}

#[test]
fn session_seed_skips_dead_initial_pid() {
    let s = MonitorSession::start_session(1, 0, 9, false, &vec![5], None, &Vec::new());
    assert_eq!(s.candidates.pids, vec![5]);
}

#[test]
fn session_seed_prefers_foreground_candidate() {
    let s = MonitorSession::start_session(1, 0, 9, true, &vec![5, 7], Some(7), &Vec::new());
    assert_eq!(s.candidates.best, 7);
}

#[test]
fn foreground_tick_counts_one_second() {
    let mut s = fresh_session(42, vec![42]);
    let out = s.tick(&tick_input(false, true, vec![42], true));
    assert_eq!(s.accumulated_active_seconds, 1);
    match out {
        TickOutcome::Alive {
            counted,
            time_update,
        } => {
            assert!(counted);
            let u = time_update.expect("an update is due every interval");
            assert_eq!(u.total_seconds, 1);
            assert_eq!(u.total_minutes, 0);
            assert_eq!(u.process_id, 42);
        }
        other => panic!("unexpected outcome: {:?}", other),
    }
}

#[test]
fn background_tick_counts_nothing() {
    let mut s = fresh_session(42, vec![42]);
    s.tick(&tick_input(false, true, vec![42], false));
    assert_eq!(s.accumulated_active_seconds, 0);
}

#[test]
fn active_time_never_exceeds_ticks() {
    let mut s = fresh_session(42, vec![42]);
    let foregrounds = [true, false, true, true, false];
    for fg in foregrounds {
        s.tick(&tick_input(false, true, vec![42], fg));
    }
    assert_eq!(s.accumulated_active_seconds, 3);
    assert!(s.accumulated_active_seconds <= foregrounds.len() as u64);
}

#[test]
fn tick_prunes_dead_candidates() {
    let mut s = fresh_session(5, vec![5, 7, 9]);
    s.tick(&tick_input(false, true, vec![5, 9], true));
    assert_eq!(s.candidates.pids, vec![5, 9]);
    assert_eq!(s.candidates.best, 5);
}

#[test]
fn prune_moves_best_to_survivor() {
    let mut s = fresh_session(5, vec![5, 7]);
    // The best candidate vanished from the alive list while still
    // answering its own check; the best pointer self-heals to a member.
    s.tick(&tick_input(false, true, vec![7], true));
    assert_eq!(s.candidates.pids, vec![7]);
    assert_eq!(s.candidates.best, 7);
}

#[test]
fn stop_signal_ends_session_immediately() {
    let mut s = fresh_session(42, vec![42]);
    let out = s.tick(&tick_input(true, true, vec![42], true));
    assert!(matches!(out, TickOutcome::Stopped));
    assert_eq!(s.phase, MonitorPhase::Ended);
    assert_eq!(s.accumulated_active_seconds, 0);
}

#[test]
fn single_transient_failure_then_success_triggers_no_rescan() {
    let mut s = fresh_session(42, vec![42]);
    let out1 = s.tick(&tick_input(false, false, vec![], false));
    assert!(matches!(out1, TickOutcome::LivenessFailure { failures: 1 }));
    assert_eq!(s.phase, MonitorPhase::Tracking);
    let out2 = s.tick(&tick_input(false, true, vec![42], false));
    assert!(!matches!(out2, TickOutcome::RescanNeeded));
    assert_eq!(s.consecutive_failures, 0);
    assert_eq!(s.phase, MonitorPhase::Tracking);
}

#[test]
fn exactly_three_consecutive_failures_trigger_rescan() {
    let mut s = fresh_session(42, vec![42]);
    let out1 = s.tick(&tick_input(false, false, vec![], false));
    assert!(matches!(out1, TickOutcome::LivenessFailure { failures: 1 }));
    let out2 = s.tick(&tick_input(false, false, vec![], false));
    assert!(matches!(out2, TickOutcome::LivenessFailure { failures: 2 }));
    assert_eq!(s.phase, MonitorPhase::Tracking);
    let out3 = s.tick(&tick_input(false, false, vec![], false));
    assert!(matches!(out3, TickOutcome::RescanNeeded));
    assert_eq!(s.phase, MonitorPhase::Rescanning);
}

#[test]
fn rescan_switches_to_new_candidates() {
    let mut s = fresh_session(42, vec![42]);
    for _ in 0..3 {
        s.tick(&tick_input(false, false, vec![], false));
    }
    let out = s.apply_rescan(&vec![11, 11, 13], None, &Vec::new());
    match out {
        RescanOutcome::Switched { new_best } => assert_eq!(new_best, 11),
        other => panic!("unexpected outcome: {:?}", other),
    }
    assert_eq!(s.candidates.pids, vec![11, 13]);
    assert_eq!(s.phase, MonitorPhase::Tracking);
    assert_eq!(s.consecutive_failures, 0);
}

#[test]
fn rescan_with_nothing_found_ends_session() {
    let mut s = fresh_session(42, vec![42]);
    for _ in 0..3 {
        s.tick(&tick_input(false, false, vec![], false));
    }
    let out = s.apply_rescan(&Vec::new(), None, &Vec::new());
    assert!(matches!(out, RescanOutcome::Exhausted));
    assert_eq!(s.phase, MonitorPhase::Ended);
}

#[test]
fn rounding_half_up_at_thirty_seconds() {
    let cases: [(u64, u64); 4] = [(29, 0), (30, 1), (90, 2), (91, 2)];
    for (seconds, minutes) in cases {
        let r = finalize_session(1, 42, 10, 20, seconds);
        assert_eq!(r.total_minutes, minutes, "for {} seconds", seconds);
        assert_eq!(r.total_seconds, seconds);
    }
}

#[test]
fn full_session_lifecycle() {
    // Launcher process 50 starts; the real game 60 escapes into the
    // foreground; the launcher dies; after the debounce a rescan finds
    // only 60; later nothing is left and the session finalizes.
    let mut s = fresh_session(50, vec![50]);
    let poll = detector_poll(&mut s.candidates, Some(60), true);
    assert!(matches!(poll, PollOutcome::Escape { pid: 60 }));
    assert_eq!(s.candidates.best, 60);
    for _ in 0..95 {
        s.tick(&tick_input(false, true, vec![50, 60], true));
    }
    assert_eq!(s.accumulated_active_seconds, 95);
    // The best process 60 stops answering; two ticks are absorbed.
    s.tick(&tick_input(false, false, vec![50], false));
    s.tick(&tick_input(false, false, vec![50], false));
    assert_eq!(s.phase, MonitorPhase::Tracking);
    let out = s.tick(&tick_input(false, false, vec![50], false));
    assert!(matches!(out, TickOutcome::RescanNeeded));
    match s.apply_rescan(&vec![60], None, &Vec::new()) {
        RescanOutcome::Switched { new_best } => assert_eq!(new_best, 60),
        other => panic!("unexpected outcome: {:?}", other),
    }
    s.tick(&tick_input(false, true, vec![60], true));
    assert_eq!(s.accumulated_active_seconds, 96);
    for _ in 0..3 {
        s.tick(&tick_input(false, false, vec![], false));
    }
    assert!(matches!(
        s.apply_rescan(&Vec::new(), None, &Vec::new()),
        RescanOutcome::Exhausted
    ));
    assert_eq!(s.phase, MonitorPhase::Ended);
    let report = finalize_session(
        1,
        s.candidates.best,
        s.start_time,
        s.start_time + 120,
        s.accumulated_active_seconds,
    );
    assert_eq!(report.total_seconds, 96);
    assert_eq!(report.total_minutes, 2);
    assert_eq!(report.process_id, 60);
}

#[test]
fn finalize_reports_identities() {
    let r = finalize_session(7, 42, 100, 250, 61);
    assert_eq!(r.game_id, 7);
    assert_eq!(r.process_id, 42);
    assert_eq!(r.start_time, 100);
    assert_eq!(r.end_time, 250);
    assert_eq!(r.total_minutes, 1);
}
