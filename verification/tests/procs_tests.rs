//! Tests for the process enumerator, the liveness checker, candidate-set
//! maintenance, selection, and the foreground detector. The enumerator and
//! liveness tests run against the real process table.

use reina_monitor::candidates::{
    check_any_foreground, check_any_has_window, has_window_for_pid, select_best_from_candidates,
    CandidateSet,
};
use reina_monitor::detector::{detector_poll, PollOutcome};
use reina_monitor::procs::{
    get_all_candidate_pids, get_processes_in_directory, is_process_running, manager_pid,
    snapshot_process_records, DirectoryTarget, ProcessRecord,
};

#[test]
fn snapshot_leaves_canonical_forms_to_the_caller() {
    let mut sys = sysinfo::System::new();
    let records = snapshot_process_records(&mut sys);
    assert!(!records.is_empty());
    assert!(records.iter().all(|r| r.canonical_exe_dir.is_none()));
}

#[test]
fn enumeration_excludes_the_manager_itself() {
    let mut sys = sysinfo::System::new();
    let me = manager_pid();
    assert_ne!(me, 0);
    let target = DirectoryTarget {
        raw: String::from("/"),
        canonical: None,
    };
    let pids = get_all_candidate_pids(&mut sys, &target, me);
    assert!(pids.iter().all(|&p| p != me));
}

#[test]
fn directory_filter_matches_records_under_target() {
    let records = vec![
        ProcessRecord {
            pid: 10,
            exe_dir: Some(String::from("/games/title")),
            canonical_exe_dir: None,
        },
        ProcessRecord {
            pid: 11,
            exe_dir: Some(String::from("/elsewhere")),
            canonical_exe_dir: None,
        },
        ProcessRecord {
            pid: 12,
            exe_dir: None,
            canonical_exe_dir: None,
        },
        ProcessRecord {
            pid: 13,
            exe_dir: Some(String::from("/games")),
            canonical_exe_dir: None,
        },
    ];
    let target = DirectoryTarget {
        raw: String::from("/games"),
        canonical: None,
    };
    assert_eq!(get_processes_in_directory(&records, &target), vec![10, 13]);
}

#[test]
fn own_process_is_running_and_stale_pid_is_not() {
    let mut sys = sysinfo::System::new();
    let me = manager_pid();
    assert!(is_process_running(&mut sys, me));
    assert!(!is_process_running(&mut sys, u32::MAX));
}

#[test]
fn candidate_set_keeps_best_among_members() {
    let mut set = CandidateSet::new(5);
    set.insert(7);
    set.insert(7);
    assert_eq!(set.pids, vec![5, 7]);
    assert_eq!(set.best, 5);
    assert!(set.contains(7));
    assert!(!set.contains(9));
    set.set_best(7);
    assert_eq!(set.best, 7);
    assert_eq!(set.snapshot(), vec![5, 7]);
    set.prune(&vec![5]);
    assert_eq!(set.pids, vec![5]);
    assert_eq!(set.best, 5);
}

#[test]
fn selection_priority_foreground_then_window_then_first() {
    let cands = vec![5, 7, 9];
    assert_eq!(
        select_best_from_candidates(&cands, Some(7), &vec![9]),
        Some(7)
    );
    assert_eq!(
        select_best_from_candidates(&cands, Some(4), &vec![4, 9, 7]),
        Some(9)
    );
    assert_eq!(select_best_from_candidates(&cands, None, &vec![4]), Some(5));
    assert_eq!(select_best_from_candidates(&Vec::new(), Some(5), &vec![5]), None);
}

#[test]
fn foreground_check_requires_membership() {
    assert_eq!(check_any_foreground(&vec![5, 7], Some(7)), Some(7));
    assert_eq!(check_any_foreground(&vec![5, 7], Some(8)), None);
    assert_eq!(check_any_foreground(&vec![5, 7], None), None);
    assert_eq!(check_any_foreground(&Vec::new(), Some(5)), None);
}

#[test]
fn portable_fallback_reports_no_windows() {
    assert!(!has_window_for_pid(5));
    assert_eq!(check_any_has_window(&vec![5, 7]), None);
}

#[test]
fn detector_adopts_escaped_foreground_process() {
    // One candidate A, alive but not foreground; a new foreground process
    // B from the game directory is not yet tracked.
    let mut set = CandidateSet::new(100);
    let out = detector_poll(&mut set, Some(200), true);
    assert!(matches!(out, PollOutcome::Escape { pid: 200 }));
    assert!(set.contains(200));
    assert_eq!(set.best, 200);
    assert_eq!(set.pids, vec![100, 200]);
}

#[test]
fn detector_marks_known_candidate_foreground() {
    let mut set = CandidateSet::new(100);
    set.insert(200);
    let out = detector_poll(&mut set, Some(200), false);
    match out {
        PollOutcome::Foreground { pid, switched } => {
            assert_eq!(pid, 200);
            assert!(switched);
        }
        other => panic!("unexpected outcome: {:?}", other),
    }
    let again = detector_poll(&mut set, Some(200), false);
    match again {
        PollOutcome::Foreground { pid, switched } => {
            assert_eq!(pid, 200);
            assert!(!switched);
        }
        other => panic!("unexpected outcome: {:?}", other),
    }
}

#[test]
fn detector_ignores_unrelated_foreground() {
    let mut set = CandidateSet::new(100);
    let out = detector_poll(&mut set, Some(300), false);
    assert!(matches!(out, PollOutcome::NotForeground));
    assert!(!set.contains(300));
    assert_eq!(set.best, 100);
    let idle = detector_poll(&mut set, None, false);
    assert!(matches!(idle, PollOutcome::NotForeground));
}
