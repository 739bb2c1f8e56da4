//! Tests for path computation, path splitting, the directory-match rule,
//! scope names, and log levels.

use reina_monitor::loglevel::{parse_log_level, LogLevel};
use reina_monitor::paths::{
    directory_matches, expand_path, get_db_path, get_default_db_backup_path,
    get_default_savedata_backup_path, split_executable_path,
};
use reina_monitor::scope::{
    check_scope_or_reset_failed, is_scope_active, scope_candidate_pids, scope_unit_name,
    ScopeCheck, ScopeLookup,
};

#[test]
fn data_paths_hang_off_the_base_directory() {
    assert_eq!(
        get_db_path("/home/u/.local/share/reina-manager"),
        "/home/u/.local/share/reina-manager/data/reina_manager.db"
    );
    assert_eq!(
        get_default_db_backup_path("/base"),
        "/base/data/backups"
    );
    assert_eq!(get_default_savedata_backup_path("/base"), "/base/backups");
}

#[test]
fn tilde_expands_to_home_only_when_known() {
    assert_eq!(expand_path("~/wine", Some("/home/u")), "/home/u/wine");
    assert_eq!(expand_path("wine", Some("/home/u")), "wine");
    assert_eq!(expand_path("~/wine", None), "~/wine");
}

#[test]
fn executable_paths_split_at_the_last_separator() {
    assert_eq!(
        split_executable_path("/games/title/game.exe"),
        Some((String::from("/games/title"), String::from("game.exe")))
    );
    assert_eq!(
        split_executable_path("C:\\games\\game.exe"),
        Some((String::from("C:\\games"), String::from("game.exe")))
    );
    assert_eq!(
        split_executable_path("game.exe"),
        Some((String::from(""), String::from("game.exe")))
    );
    assert_eq!(split_executable_path(""), None);
    assert_eq!(split_executable_path("dir/"), None);
}

#[test]
fn directory_match_uses_raw_strings_without_canonical_target() {
    assert!(directory_matches("/games/title", None, "/games", None));
    assert!(directory_matches("/games", None, "/games", None));
    assert!(!directory_matches("/other", None, "/games", None));
}

#[test]
fn directory_match_prefers_canonical_forms() {
    let canonical_target = String::from("/srv/games");
    // The raw prefix fails, but the canonicalized process directory
    // resolves under the canonicalized target.
    let canonical_process = String::from("/srv/games/title");
    assert!(directory_matches(
        "/mnt/link/title",
        Some(&canonical_process),
        "/mnt/link",
        Some(&canonical_target)
    ));
    // Without a canonical process directory the raw prefix against the
    // canonical target still decides.
    assert!(directory_matches(
        "/srv/games/title",
        None,
        "/mnt/link",
        Some(&canonical_target)
    ));
    assert!(!directory_matches(
        "/mnt/other",
        None,
        "/mnt/link",
        Some(&canonical_target)
    ));
}

#[test]
fn scope_names_embed_the_game_id() {
    assert_eq!(scope_unit_name(0), "reina_game_0.scope");
    assert_eq!(scope_unit_name(9), "reina_game_9.scope");
    assert_eq!(
        scope_unit_name(4294967295),
        "reina_game_4294967295.scope"
    );
}

#[test]
fn scope_activity_is_the_active_state() {
    assert!(is_scope_active("active"));
    assert!(!is_scope_active("inactive"));
    assert!(!is_scope_active("failed"));
}

#[test]
fn stale_failed_scope_is_reset_before_reuse() {
    let r = check_scope_or_reset_failed(&ScopeLookup::Found {
        active_state: String::from("failed"),
    });
    assert_eq!(r, ScopeCheck::Exists { must_reset: true });
    let r2 = check_scope_or_reset_failed(&ScopeLookup::Found {
        active_state: String::from("active"),
    });
    assert_eq!(r2, ScopeCheck::Exists { must_reset: false });
    assert_eq!(
        check_scope_or_reset_failed(&ScopeLookup::NoSuchUnit),
        ScopeCheck::Absent
    );
    assert_eq!(
        check_scope_or_reset_failed(&ScopeLookup::QueryError),
        ScopeCheck::Failed
    );
}

#[test]
fn scope_members_exclude_the_manager() {
    assert_eq!(scope_candidate_pids(&vec![1, 2, 3, 2], 2), vec![1, 3]);
    assert_eq!(scope_candidate_pids(&vec![], 2), Vec::<u32>::new());
}

#[test]
fn log_levels_parse_case_insensitively() {
    assert_eq!(parse_log_level("ERROR"), Some(LogLevel::Error));
    assert_eq!(parse_log_level("Warn"), Some(LogLevel::Warn));
    assert_eq!(parse_log_level("info"), Some(LogLevel::Info));
    assert_eq!(parse_log_level("DeBuG"), Some(LogLevel::Debug));
    assert_eq!(parse_log_level("trace"), None);
    assert_eq!(parse_log_level("off"), None);
    assert_eq!(parse_log_level("bogus"), None);
}

#[test]
fn log_level_names_round_trip_for_selectable_levels() {
    for level in [
        LogLevel::Error,
        LogLevel::Warn,
        LogLevel::Info,
        LogLevel::Debug,
    ] {
        assert_eq!(parse_log_level(level.name()), Some(level));
    }
    assert_eq!(LogLevel::Trace.name(), "trace");
    assert_eq!(LogLevel::Off.name(), "off");
}
