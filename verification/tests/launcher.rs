use codex_plus::launcher::{
    builtin_user_scripts_dir, default_user_script_manager, default_user_scripts_config_dir,
    injection_next, manager_open_result, new_document_scripts, should_retry_injection, HooksError,
    InjectError, InjectionNext, LauncherDataService, ManagerOpenResult,
    LauncherHooks, LauncherRuntimeService, ManagerLaunch, UserScriptManager,
};
use codex_plus::shortcut::{eq_ignore_ascii_case, icon_needs_write, same_file, shortcut_needs_write};

fn scripts() -> UserScriptManager {
    UserScriptManager::new(
        "/t/builtin".to_string(),
        "/t/user".to_string(),
        "/t/settings.json".to_string(),
    )
}

fn data() -> LauncherDataService {
    LauncherDataService::new("/t/state.sqlite".to_string(), "/t")
}

#[test]
fn watchdog_reuses_bridge_context_with_data_service() {
    let mut hooks = LauncherHooks::installed(scripts(), data());
    assert_eq!(
        hooks.watchdog_bridge_context().unwrap_err(),
        HooksError::BridgeContextNotInitialized
    );
    let ctx = hooks.bridge_context(9333, "/t/app");
    assert_eq!(ctx.app_dir, "/t/app");
    assert_eq!(hooks.runtime.debug_port, 9333);
    let again = hooks.watchdog_bridge_context().unwrap();
    assert_eq!(again.app_dir, "/t/app");
    assert_eq!(again.debug_port, 9333);
    assert_eq!(again.data.db_path, "/t/state.sqlite");
    assert_eq!(again.data.backup_dir, "/t/backups");
}

#[test]
fn portable_hooks_open_the_skin_screen_only() {
    let hooks = LauncherHooks::portable(scripts(), data());
    assert_eq!(hooks.runtime.manager_launch_args, vec!["--skin-only".to_string()]);
    assert_eq!(hooks.runtime.debug_port, 9229);
    match hooks.runtime.manager_launch() {
        ManagerLaunch::Spawn(args) => assert_eq!(args, vec!["--skin-only".to_string()]),
        ManagerLaunch::OpenOrActivate => panic!("portable manager must be spawned"),
    }
    assert_eq!(
        hooks.runtime.transient_manager_args(),
        vec!["--skin-only".to_string(), "--transient".to_string()]
    );
    let installed = LauncherHooks::installed(scripts(), data());
    assert!(matches!(installed.runtime.manager_launch(), ManagerLaunch::OpenOrActivate));
    assert_eq!(installed.runtime.transient_manager_args(), vec!["--transient".to_string()]);
}

#[test]
fn runtime_service_state() {
    let mut runtime = LauncherRuntimeService::new(1, scripts(), Vec::new());
    assert_eq!(runtime.reload_target("bundle"), None);
    runtime.set_websocket_url("ws://x");
    runtime.set_debug_port(2);
    assert_eq!(runtime.debug_port, 2);
    assert_eq!(runtime.reload_target("bundle"), Some("ws://x".to_string()));
    assert_eq!(runtime.reload_target("  \n"), None);
}

#[test]
fn candidate_db_paths_keep_first_of_each_path() {
    let service = data();
    let home = vec![
        "/h/a.sqlite".to_string(),
        "/t/state.sqlite".to_string(),
        "/h//a.sqlite".to_string(),
        "/h/b.sqlite".to_string(),
    ];
    assert_eq!(
        service.candidate_db_paths(&home),
        vec![
            "/t/state.sqlite".to_string(),
            "/h/a.sqlite".to_string(),
            "/h/b.sqlite".to_string(),
        ]
    );
    assert_eq!(service.candidate_db_paths(&Vec::new()), vec!["/t/state.sqlite".to_string()]);
}

#[test]
fn user_script_locations() {
    assert_eq!(builtin_user_scripts_dir(Some("/opt/l/launcher")), "/opt/l/user_scripts");
    assert_eq!(builtin_user_scripts_dir(None), "user_scripts");
    assert_eq!(
        default_user_scripts_config_dir(false, None, Some("/home/u"), None),
        "/home/u/.config/Codex++"
    );
    assert_eq!(
        default_user_scripts_config_dir(false, Some("/r"), Some("/home/u"), Some("/xdg")),
        "/xdg/Codex++"
    );
    assert_eq!(default_user_scripts_config_dir(false, None, None, None), ".config/Codex++");
    assert_eq!(
        default_user_scripts_config_dir(true, Some("/roaming"), Some("/home/u"), None),
        "/roaming/Codex++"
    );
    assert_eq!(
        default_user_scripts_config_dir(true, None, Some("/home/u"), Some("/xdg")),
        "/home/u/AppData/Roaming/Codex++"
    );
    let manager = default_user_script_manager("/c", "/b".to_string());
    assert_eq!(manager.builtin_dir, "/b");
    assert_eq!(manager.scripts_dir, "/c/user_scripts");
    assert_eq!(manager.settings_path, "/c/user_scripts.json");
}

#[test]
fn document_scripts_and_injection_retries() {
    assert_eq!(
        new_document_scripts("s".to_string(), String::new()),
        vec!["s".to_string()]
    );
    assert_eq!(
        new_document_scripts("s".to_string(), "u".to_string()),
        vec!["s".to_string(), "u".to_string()]
    );
    assert!(should_retry_injection(0));
    assert!(should_retry_injection(19));
    assert!(!should_retry_injection(20));
}

#[test]
fn shortcut_decisions() {
    assert!(eq_ignore_ascii_case("C:\\Apps\\Launcher.EXE", "c:\\apps\\launcher.exe"));
    assert!(!eq_ignore_ascii_case("É", "é"));
    assert!(same_file("A", "b", Some("/x/y"), Some("/x//y")));
    assert!(!same_file("A", "a", Some("/x/y"), Some("/x/z")));
    assert!(same_file("C:/A", "c:/a", None, Some("/x")));
    assert!(!shortcut_needs_write(true, true, true));
    assert!(shortcut_needs_write(true, false, false));
    assert!(shortcut_needs_write(false, false, true));
    assert!(!shortcut_needs_write(false, false, false));
    assert!(icon_needs_write(None, 10));
    assert!(icon_needs_write(Some(9), 10));
    assert!(!icon_needs_write(Some(10), 10));
}

#[test]
fn target_without_websocket_url_is_an_error_that_keeps_the_runtime() {
    let mut runtime = LauncherRuntimeService::new(1, scripts(), Vec::new());
    runtime.record_injection_target(Some("ws://first")).unwrap();
    assert_eq!(runtime.websocket_url.as_deref(), Some("ws://first"));
    assert_eq!(runtime.record_injection_target(None), Err(InjectError::NoWebsocketUrl));
    assert_eq!(runtime.websocket_url.as_deref(), Some("ws://first"));
    assert_eq!(InjectError::NoWebsocketUrl.message(), "selected CDP target has no websocket URL");
}

#[test]
fn failed_manager_launch_rolls_back_with_message() {
    match manager_open_result(Ok("/m".to_string())) {
        ManagerOpenResult::Opened(path) => assert_eq!(path, "/m"),
        other => panic!("unexpected {other:?}"),
    }
    match manager_open_result(Err("boom".to_string())) {
        ManagerOpenResult::RollBack(message) => assert_eq!(message, "启动管理工具失败：boom"),
        other => panic!("unexpected {other:?}"),
    }
}

#[test]
fn injection_retries_twenty_times_with_a_pause_after_each_failure() {
    assert_eq!(injection_next(1, true), InjectionNext::Done);
    assert_eq!(injection_next(1, false), InjectionNext::PauseThenRetry);
    assert_eq!(injection_next(19, false), InjectionNext::PauseThenRetry);
    assert_eq!(injection_next(20, false), InjectionNext::PauseThenFail);
    assert_eq!(injection_next(20, true), InjectionNext::Done);
}
