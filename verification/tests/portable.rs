use codex_plus::portable::{
    default_portable_app_dir, default_portable_config_path, macos_app_bundle_root,
    portable_root_dir, PortableConfig,
};
use codex_plus::settings::RelayMode;

#[test]
fn parses_flat_key_value_pairs_under_section() {
    let ini = "[codex]\napi_base_url = https://example.com/v1\napi_key = sk-abc\nmodel = gpt-5.5\ndebug_port = 9333\n";
    let config = PortableConfig::load(Some(ini));

    assert_eq!(config.api_base_url, "https://example.com/v1");
    assert_eq!(config.api_key, "sk-abc");
    assert_eq!(config.model, "gpt-5.5");
    assert_eq!(config.debug_port, 9333);
    assert!(config.is_complete());
}

#[test]
fn parses_file_with_leading_utf8_bom() {
    let ini = "\u{feff}[codex]\napi_base_url = https://example.com/v1\napi_key = sk-abc\n";
    let config = PortableConfig::load(Some(ini));

    assert_eq!(config.api_base_url, "https://example.com/v1");
    assert_eq!(config.api_key, "sk-abc");
}

#[test]
fn missing_file_returns_defaults() {
    let config = PortableConfig::load(None);
    assert_eq!(config, PortableConfig::default());
    assert!(!config.is_complete());
}

#[test]
fn round_trips_through_save_and_load() {
    let config = PortableConfig {
        api_base_url: "https://sub2api.example/v1".to_string(),
        api_key: "sk-xyz".to_string(),
        model: "gpt-5.5".to_string(),
        provider_name: "custom".to_string(),
        codex_app_dir: "D:/Portable/codex_app".to_string(),
        debug_port: 9229,
        last_synced_hash: "abc123".to_string(),
    };
    let text = config.save();
    let loaded = PortableConfig::load(Some(&text));
    assert_eq!(loaded, config);
}

#[test]
fn maps_into_backend_settings_relay_profile() {
    let config = PortableConfig {
        api_base_url: "https://sub2api.example/v1".to_string(),
        api_key: "sk-xyz".to_string(),
        model: "gpt-5.5".to_string(),
        provider_name: "custom".to_string(),
        codex_app_dir: "D:/Portable/codex_app".to_string(),
        debug_port: 9229,
        last_synced_hash: String::new(),
    };
    let settings = config.to_backend_settings();
    let profile = settings.active_relay_profile();

    assert_eq!(settings.codex_app_path, "D:/Portable/codex_app");
    assert!(settings.relay_profiles_enabled);
    assert_eq!(profile.base_url, "https://sub2api.example/v1");
    assert_eq!(profile.api_key, "sk-xyz");
    assert_eq!(profile.model, "gpt-5.5");
    assert_eq!(profile.relay_mode, RelayMode::PureApi);
    assert!(!profile.official_mix_api_key);
    let auth: serde_json::Value =
        serde_json::from_str(&profile.auth_contents).expect("auth_contents is valid JSON");
    assert_eq!(auth["OPENAI_API_KEY"], "sk-xyz");
}

#[test]
fn empty_api_key_produces_empty_auth_contents() {
    let config = PortableConfig {
        api_base_url: "https://sub2api.example/v1".to_string(),
        api_key: String::new(),
        ..PortableConfig::default()
    };
    let profile = config.to_backend_settings().relay_profiles[0].clone();
    assert!(profile.auth_contents.is_empty());
}

#[test]
fn resolves_root_for_bundled_executable() {
    let exe = "/Applications/Codex++ Portable.app/Contents/MacOS/codex";
    assert_eq!(macos_app_bundle_root(exe), Some("/Applications".to_string()));
}

#[test]
fn returns_none_for_loose_executable() {
    let exe = "/Users/me/dev/target/release/codex";
    assert_eq!(macos_app_bundle_root(exe), None);
}

#[test]
fn returns_none_when_app_extension_is_missing() {
    let exe = "/Applications/NotAnApp/Contents/MacOS/codex";
    assert_eq!(macos_app_bundle_root(exe), None);
}

#[test]
fn defaults_hold_the_documented_values() {
    let config = PortableConfig::default();
    assert_eq!(config.api_base_url, "https://sub2api.vx123.xin/v1");
    assert_eq!(config.api_key, "");
    assert_eq!(config.model, "gpt-5.5");
    assert_eq!(config.provider_name, "custom");
    assert_eq!(config.codex_app_dir, "");
    assert_eq!(config.debug_port, 9229);
    assert_eq!(config.last_synced_hash, "");
}

#[test]
fn save_writes_every_field_in_order() {
    let config = PortableConfig {
        api_base_url: "https://a.example/v1".to_string(),
        api_key: "k".to_string(),
        model: "m".to_string(),
        provider_name: "p".to_string(),
        codex_app_dir: "/apps/codex".to_string(),
        debug_port: 65535,
        last_synced_hash: "h".to_string(),
    };
    assert_eq!(
        config.save(),
        "[codex]\napi_base_url = https://a.example/v1\napi_key = k\ncodex_app_dir = /apps/codex\nmodel = m\nprovider_name = p\ndebug_port = 65535\nlast_synced_hash = h\n"
    );
}

#[test]
fn round_trip_keeps_empty_values_and_port_zero() {
    let config = PortableConfig {
        api_base_url: String::new(),
        api_key: String::new(),
        model: String::new(),
        provider_name: String::new(),
        codex_app_dir: String::new(),
        debug_port: 0,
        last_synced_hash: String::new(),
    };
    assert_eq!(PortableConfig::load(Some(&config.save())), config);
}

#[test]
fn other_sections_comments_and_blank_lines_are_ignored() {
    let ini = "; comment\n# another\n\n[other]\napi_key = wrong\n[ codex ]\r\n  api_key =  sk-1  \r\nmodel\n[other]\nmodel = nope\n";
    let config = PortableConfig::load(Some(ini));
    assert_eq!(config.api_key, "sk-1");
    assert_eq!(config.model, "gpt-5.5");
}

#[test]
fn later_assignment_wins_and_values_may_hold_equals() {
    let ini = "[codex]\napi_key = first\napi_key = a=b\n";
    let config = PortableConfig::load(Some(ini));
    assert_eq!(config.api_key, "a=b");
}

#[test]
fn invalid_ports_keep_the_default() {
    for bad in ["70000", "-1", "+", "", "12a", "99999999999999999999"] {
        let ini = format!("[codex]\ndebug_port = {bad}\n");
        assert_eq!(PortableConfig::load(Some(&ini)).debug_port, 9229, "{bad}");
    }
    let config = PortableConfig::load(Some("[codex]\ndebug_port = +0042\n"));
    assert_eq!(config.debug_port, 42);
}

#[test]
fn several_boms_are_skipped() {
    let ini = "\u{feff}\u{feff}[codex]\nmodel = x\n";
    assert_eq!(PortableConfig::load(Some(ini)).model, "x");
}

#[test]
fn completeness_needs_non_blank_url_and_key() {
    let mut config = PortableConfig::default();
    config.api_key = "   ".to_string();
    assert!(!config.is_complete());
    config.api_key = " sk ".to_string();
    assert!(config.is_complete());
    config.api_base_url = "\t".to_string();
    assert!(!config.is_complete());
}

#[test]
fn auth_contents_is_pretty_json_of_trimmed_key() {
    let mut config = PortableConfig::default();
    config.api_key = "  sk-1  ".to_string();
    let settings = config.to_backend_settings();
    assert_eq!(settings.active_relay_id, "portable");
    assert_eq!(settings.relay_profiles.len(), 1);
    assert_eq!(
        settings.relay_profiles[0].auth_contents,
        "{\n  \"OPENAI_API_KEY\": \"sk-1\"\n}"
    );
    assert_eq!(settings.relay_profiles[0].id, "portable");
    assert_eq!(settings.relay_profiles[0].name, "custom");
    assert_eq!(settings.relay_profiles[0].upstream_base_url, "https://sub2api.vx123.xin/v1");
}

#[test]
fn auth_contents_escapes_quotes_backslashes_and_controls() {
    let mut config = PortableConfig::default();
    config.api_key = "a\"b\\c\u{1}d\te\u{7f}".to_string();
    let settings = config.to_backend_settings();
    assert_eq!(
        settings.relay_profiles[0].auth_contents,
        "{\n  \"OPENAI_API_KEY\": \"a\\\"b\\\\c\\u0001d\\te\u{7f}\"\n}"
    );
}

#[test]
fn backend_settings_with_given_auth_text() {
    let config = PortableConfig::default();
    let settings = config.backend_settings_with_auth("AUTH".to_string());
    assert_eq!(settings.relay_profiles[0].auth_contents, "AUTH");
    assert_eq!(settings.codex_app_path, "");
}

#[test]
fn portable_paths_sit_next_to_the_executable() {
    let exe = "/opt/portable/chatgpt-launcher";
    assert_eq!(portable_root_dir(Some(exe), Some("/home/u"), false), "/opt/portable");
    assert_eq!(
        default_portable_config_path(Some(exe), Some("/home/u"), false),
        "/opt/portable/config.ini"
    );
    assert_eq!(
        default_portable_app_dir(Some(exe), None, false),
        "/opt/portable/codex_app"
    );
    assert_eq!(portable_root_dir(None, None, false), ".");
    assert_eq!(default_portable_config_path(None, None, true), "./config.ini");
}

#[test]
fn macos_config_lives_under_application_support() {
    let exe = "/Applications/Codex++ Portable.app/Contents/MacOS/codex";
    assert_eq!(
        default_portable_config_path(Some(exe), Some("/Users/me"), true),
        "/Users/me/Library/Application Support/ChatGPT Launcher/config.ini"
    );
    let translocated = "/private/var/folders/x/AppTranslocation/ABC/d/ChatGPT Launcher.app/Contents/MacOS/chatgpt-launcher";
    assert_eq!(
        default_portable_config_path(Some(translocated), Some("/Users/me"), true),
        "/Users/me/Library/Application Support/ChatGPT Launcher/config.ini"
    );
    assert_eq!(
        default_portable_app_dir(None, Some("/Users/me"), true),
        "/Users/me/Library/Application Support/ChatGPT Launcher/codex_app"
    );
}

#[test]
fn macos_without_home_falls_back_to_the_bundle_folder() {
    let exe = "/Applications/Codex++ Portable.app/Contents/MacOS/codex";
    assert_eq!(
        default_portable_config_path(Some(exe), None, true),
        "/Applications/config.ini"
    );
    assert_eq!(
        default_portable_config_path(Some(exe), None, false),
        "/Applications/Codex++ Portable.app/Contents/MacOS/config.ini"
    );
    let loose = "/Users/me/dev/target/release/codex";
    assert_eq!(
        default_portable_app_dir(Some(loose), None, true),
        "/Users/me/dev/target/release/codex_app"
    );
}

#[test]
fn dialog_save_keeps_port_and_hash() {
    let mut base = PortableConfig::default();
    base.debug_port = 9400;
    base.last_synced_hash = "h1".to_string();
    let edited = base.with_edited_fields(
        "u".to_string(),
        "k".to_string(),
        "m".to_string(),
        "p".to_string(),
        "d".to_string(),
    );
    assert_eq!(edited.api_base_url, "u");
    assert_eq!(edited.api_key, "k");
    assert_eq!(edited.model, "m");
    assert_eq!(edited.provider_name, "p");
    assert_eq!(edited.codex_app_dir, "d");
    assert_eq!(edited.debug_port, 9400);
    assert_eq!(edited.last_synced_hash, "h1");
}

#[test]
fn codex_app_sits_beside_config_ini() {
    for (exe, home, mac) in [
        (Some("/opt/portable/launcher"), None, false),
        (None, None, false),
        (Some("/launcher"), None, false),
        (Some("/opt/./launcher"), None, false),
        (Some("/opt/portable/launcher"), Some("/Users/me/"), true),
    ] {
        let app = default_portable_app_dir(exe, home, mac);
        let config = default_portable_config_path(exe, home, mac);
        assert_eq!(std::path::Path::new(&app).parent(), std::path::Path::new(&config).parent());
        assert!(std::path::Path::new(&app).parent().is_some());
    }
}
