use codex_plus::launch::{
    guard_failure_action, launches_without_dialog, parse_launch_options,
    should_finalize_pending_remote_control_recovery, should_retry_stale_launcher_guard,
    wants_config_dialog, GuardErrorKind, GuardFailureAction, LaunchOptions, PortableLaunchError,
};
use codex_plus::portable::PortableConfig;

#[test]
fn parse_launch_options_accepts_manager_forwarded_ports_and_app_path() {
    let options = parse_launch_options(&[
        "--app-path",
        "C:/Codex/App",
        "--debug-port",
        "9333",
        "--helper-port",
        "57322",
    ]);

    assert_eq!(options.app_dir, Some("C:/Codex/App".to_string()));
    assert_eq!(options.debug_port, 9333);
    assert_eq!(options.helper_port, 57322);
}

#[test]
fn parse_launch_options_ignores_invalid_ports() {
    let options = parse_launch_options(&["--debug-port", "nope", "--helper-port", "70000"]);

    assert_eq!(options.debug_port, LaunchOptions::default().debug_port);
    assert_eq!(options.helper_port, LaunchOptions::default().helper_port);
}

#[test]
fn main_stale_launcher_recovery_covers_port_and_fallback_lock_conflicts() {
    assert!(should_retry_stale_launcher_guard(GuardErrorKind::WouldBlock, true, true));
    assert!(should_retry_stale_launcher_guard(GuardErrorKind::AddrInUse, true, true));
    assert!(!should_retry_stale_launcher_guard(GuardErrorKind::WouldBlock, false, true));
    assert!(!should_retry_stale_launcher_guard(GuardErrorKind::Other, true, true));
}

#[test]
fn portable_main_stale_launcher_recovery_covers_port_and_fallback_lock_conflicts() {
    assert!(should_retry_stale_launcher_guard(GuardErrorKind::WouldBlock, true, true));
    assert!(should_retry_stale_launcher_guard(GuardErrorKind::AddrInUse, true, true));
    assert!(!should_retry_stale_launcher_guard(GuardErrorKind::WouldBlock, false, true));
    assert!(!should_retry_stale_launcher_guard(GuardErrorKind::WouldBlock, true, false));
    assert!(!should_retry_stale_launcher_guard(GuardErrorKind::Other, true, true));
}

#[test]
fn pending_remote_control_finalization_requires_an_idle_desktop() {
    assert!(should_finalize_pending_remote_control_recovery(true, &[]));
    assert!(!should_finalize_pending_remote_control_recovery(false, &[]));
    assert!(!should_finalize_pending_remote_control_recovery(true, &[42]));
}

#[test]
fn launch_defaults() {
    let options = LaunchOptions::default();
    assert_eq!(options.app_dir, None);
    assert_eq!(options.debug_port, 9229);
    assert_eq!(options.helper_port, 57321);
}

#[test]
fn app_path_is_trimmed_and_blank_is_ignored() {
    let options = parse_launch_options(&["--app-path", "  /x/y  "]);
    assert_eq!(options.app_dir, Some("/x/y".to_string()));
    let options = parse_launch_options(&["--app-path", "   ", "--debug-port", "+1"]);
    assert_eq!(options.app_dir, None);
    assert_eq!(options.debug_port, 1);
}

#[test]
fn flag_value_is_consumed_and_unknown_arguments_skipped() {
    let options = parse_launch_options(&["--verbose", "--app-path", "--debug-port", "7", "x"]);
    assert_eq!(options.app_dir, Some("--debug-port".to_string()));
    assert_eq!(options.debug_port, 9229);
    let options = parse_launch_options(&["--helper-port"]);
    assert_eq!(options, LaunchOptions::default());
    let options = parse_launch_options(&["--debug-port", "1", "--debug-port", "2"]);
    assert_eq!(options.debug_port, 2);
}

#[test]
fn guard_failure_actions() {
    assert_eq!(
        guard_failure_action(GuardErrorKind::Other, true, true),
        GuardFailureAction::Fail
    );
    assert_eq!(
        guard_failure_action(GuardErrorKind::AddrInUse, true, true),
        GuardFailureAction::StopStaleAndRetry
    );
    assert_eq!(
        guard_failure_action(GuardErrorKind::WouldBlock, false, true),
        GuardFailureAction::UseExistingInstance
    );
    assert_eq!(
        guard_failure_action(GuardErrorKind::WouldBlock, true, false),
        GuardFailureAction::UseExistingInstance
    );
}

#[test]
fn config_dialog_is_asked_for_by_either_flag() {
    assert!(wants_config_dialog(&["--config"]));
    assert!(wants_config_dialog(&["x", " --settings "]));
    assert!(!wants_config_dialog(&["--configure", "config"]));
    assert!(!wants_config_dialog(&[]));
}

#[test]
fn portable_start_up_decisions() {
    let mut config = PortableConfig::default();
    assert!(!launches_without_dialog(&config, false));
    config.api_key = "sk".to_string();
    assert!(launches_without_dialog(&config, false));
    assert!(!launches_without_dialog(&config, true));

    assert!(config.lacks_app_dir());
    assert_eq!(config.launch_app_dir(None), Err(PortableLaunchError::AppNotFound));
    assert_eq!(config.launch_app_dir(Some("/def".to_string())), Ok("/def".to_string()));
    config.prefill_app_dir(Some("/Applications/Codex.app".to_string()));
    assert_eq!(config.codex_app_dir, "/Applications/Codex.app");
    config.prefill_app_dir(Some("/other".to_string()));
    assert_eq!(config.codex_app_dir, "/Applications/Codex.app");
    assert_eq!(
        config.launch_app_dir(Some("/def".to_string())),
        Ok("/Applications/Codex.app".to_string())
    );
    assert!(PortableLaunchError::AppNotFound.message().contains("chatgpt-launcher --config"));
}
