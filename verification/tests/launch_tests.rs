//! Tests for launch planning, elevation, quoting, and the companion
//! upscaler decisions.

use reina_monitor::launch::{
    build_runas_params, launch_success_result, le_launch_requested, magpie_action,
    magpie_requested, needs_elevation, needs_quotes, quote_arg, windows_launch_plan,
    linux_launch_plan, GameLaunchOptions, LaunchError, UpscalerAction,
};

#[test]
fn bare_launch_spawns_the_executable_itself() {
    // No companion options: the plan is the bare executable from its own
    // directory, and nothing asks for elevation.
    let options: Option<GameLaunchOptions> = None;
    assert!(!le_launch_requested(&options));
    assert!(!magpie_requested(&options));
    let plan = windows_launch_plan("C:/games/title/game.exe", false, "", &Vec::new()).unwrap();
    assert_eq!(plan.program, "C:/games/title/game.exe");
    assert!(plan.args.is_empty());
    assert_eq!(plan.working_dir, "C:/games/title");
    assert!(!needs_elevation(None));
    assert!(!needs_elevation(Some(5)));
    assert!(needs_elevation(Some(740)));
}

#[test]
fn options_decode_missing_flags_as_false() {
    let options = Some(GameLaunchOptions {
        le_launch: None,
        magpie: Some(true),
    });
    assert!(!le_launch_requested(&options));
    assert!(magpie_requested(&options));
}

#[test]
fn wrapper_launch_puts_game_behind_wrapper() {
    let extra = vec![String::from("-fullscreen")];
    let plan =
        windows_launch_plan("C:/games/title/game.exe", true, "C:/tools/le.exe", &extra).unwrap();
    assert_eq!(plan.program, "C:/tools/le.exe");
    assert_eq!(plan.args, vec!["C:/games/title/game.exe", "-fullscreen"]);
    assert_eq!(plan.working_dir, "C:/games/title");
}

#[test]
fn wrapper_launch_without_configured_path_is_refused() {
    let r = windows_launch_plan("C:/games/title/game.exe", true, "", &Vec::new());
    assert_eq!(r.unwrap_err(), LaunchError::WrapperNotConfigured);
}

#[test]
fn launch_without_directory_is_refused() {
    let r = windows_launch_plan("", false, "", &Vec::new());
    assert_eq!(r.unwrap_err(), LaunchError::NoParentDirectory);
    let r2 = windows_launch_plan("dir/", false, "", &Vec::new());
    assert_eq!(r2.unwrap_err(), LaunchError::NoParentDirectory);
}

#[test]
fn scope_launch_wraps_foreign_executable() {
    let plan = linux_launch_plan("/games/title/game.exe", 9, "wine", &Vec::new()).unwrap();
    assert_eq!(plan.program, "systemd-run");
    assert_eq!(
        plan.args,
        vec![
            "--scope",
            "--user",
            "-p",
            "Delegate=yes",
            "--unit",
            "reina_game_9.scope",
            "wine",
            "/games/title/game.exe",
        ]
    );
    assert_eq!(plan.working_dir, "/games/title");
}

#[test]
fn scope_launch_runs_native_executable_directly() {
    let extra = vec![String::from("--skip-intro")];
    let plan = linux_launch_plan("/games/title/game", 3, "wine", &extra).unwrap();
    assert_eq!(
        plan.args,
        vec![
            "--scope",
            "--user",
            "-p",
            "Delegate=yes",
            "--unit",
            "reina_game_3.scope",
            "/games/title/game",
            "--skip-intro",
        ]
    );
}

#[test]
fn quoting_leaves_plain_arguments_alone() {
    assert!(!needs_quotes("plain-arg"));
    assert_eq!(quote_arg("plain-arg"), "plain-arg");
}

#[test]
fn quoting_wraps_whitespace_and_escapes_quotes() {
    assert!(needs_quotes("a b"));
    assert!(needs_quotes("say\"hi\""));
    assert_eq!(quote_arg("a b"), "\"a b\"");
    assert_eq!(quote_arg("say\"hi\""), "\"say\\\"hi\\\"\"");
}

#[test]
fn runas_params_join_quoted_arguments() {
    let args = vec![
        String::from("C:/games/title/game.exe"),
        String::from("-save dir"),
    ];
    assert_eq!(
        build_runas_params(&args),
        "C:/games/title/game.exe \"-save dir\""
    );
    assert_eq!(build_runas_params(&Vec::new()), "");
}

#[test]
fn upscaler_unconfigured_is_refused() {
    let r = magpie_action("", false);
    assert_eq!(r.unwrap_err(), LaunchError::UpscalerNotConfigured);
    assert_eq!(
        LaunchError::UpscalerNotConfigured.describe(),
        "upscaler tool path is not configured"
    );
}

#[test]
fn upscaler_spawns_only_when_not_running() {
    assert_eq!(
        magpie_action("C:/tools/magpie.exe", false).unwrap(),
        UpscalerAction::SpawnThenActivate
    );
    assert_eq!(
        magpie_action("C:/tools/magpie.exe", true).unwrap(),
        UpscalerAction::ActivateOnly
    );
}

#[test]
fn launch_report_names_the_executable() {
    let r = launch_success_result("game.exe", true, false, 4242, None);
    assert!(r.success);
    assert_eq!(r.process_id, Some(4242));
    assert_eq!(r.message, "launched: game.exe (locale emulation)");
    let r2 = launch_success_result("game.exe", false, true, 1, Some(String::from("u.scope")));
    assert_eq!(r2.message, "launched elevated: game.exe");
    assert_eq!(r2.systemd_scope.as_deref(), Some("u.scope"));
}
