use codex_plus::recovery::{
    deferred_outcome, recovery_disabled_for_active_profile,
    remote_control_recovery_is_superseded_by_openai, remote_control_recovery_step,
    superseded_outcome, target_provider_rejected, PendingRemoteControlRecovery,
    ProviderSyncStatus, RecoverySkip, RecoveryStep,
};
use codex_plus::settings::{BackendSettings, RelayMode, RelayProfile};

fn request() -> PendingRemoteControlRecovery {
    PendingRemoteControlRecovery {
        thread_id: "mobile".to_string(),
        profile_id: "relay".to_string(),
        target_provider: "custom".to_string(),
        config_generation: "old-generation".to_string(),
        created_at: 1,
    }
}

#[test]
fn openai_session_identity_supersedes_only_its_active_pending_recovery() {
    let request = PendingRemoteControlRecovery {
        thread_id: "mobile".to_string(),
        profile_id: "relay".to_string(),
        target_provider: "custom".to_string(),
        config_generation: "old-generation".to_string(),
        created_at: 1,
    };
    let mut settings = BackendSettings {
        active_relay_id: "relay".to_string(),
        relay_profiles: vec![RelayProfile {
            id: "relay".to_string(),
            config_contents: "model_provider = \"openai\"\n".to_string(),
            ..RelayProfile::default()
        }],
        ..BackendSettings::default()
    };

    assert!(remote_control_recovery_is_superseded_by_openai(
        &settings, &request
    ));

    settings.relay_profiles[0].config_contents = "model_provider = \"custom\"\n".to_string();
    assert!(!remote_control_recovery_is_superseded_by_openai(
        &settings, &request
    ));

    settings.relay_profiles[0].config_contents = "model_provider = \"openai\"\n".to_string();
    settings.active_relay_id = "other".to_string();
    assert!(!remote_control_recovery_is_superseded_by_openai(
        &settings, &request
    ));
}

fn custom_settings() -> BackendSettings {
    BackendSettings {
        active_relay_id: "relay".to_string(),
        relay_profiles: vec![RelayProfile {
            id: "relay".to_string(),
            config_contents: "model_provider = \"custom\"\n[model_providers.custom]\nmodel_provider = \"openai\"\n".to_string(),
            ..RelayProfile::default()
        }],
        ..BackendSettings::default()
    }
}

#[test]
fn only_top_level_model_provider_counts() {
    let settings = custom_settings();
    assert!(!settings.active_session_is_openai());
    let mut profile = RelayProfile::default();
    profile.config_contents = "[profiles.x]\nmodel_provider = \"custom\"\n".to_string();
    assert!(profile.session_provider_is_openai());
    profile.config_contents = "model_provider = custom\n".to_string();
    assert!(!profile.session_provider_is_openai());
}

#[test]
fn recovery_steps() {
    let settings = custom_settings();
    let req = request();
    assert_eq!(
        remote_control_recovery_step(&settings, &req, Some("old-generation")),
        RecoveryStep::Finalize
    );
    assert_eq!(
        remote_control_recovery_step(&settings, &req, Some("new-generation")),
        RecoveryStep::Defer
    );
    assert_eq!(
        remote_control_recovery_step(&settings, &req, None),
        RecoveryStep::Defer
    );
    let mut openai = custom_settings();
    openai.relay_profiles[0].config_contents = String::new();
    assert_eq!(
        remote_control_recovery_step(&openai, &req, Some("old-generation")),
        RecoveryStep::DiscardSuperseded
    );
}

#[test]
fn recovery_outcomes() {
    let done = superseded_outcome(true);
    assert_eq!(done.status, ProviderSyncStatus::Synced);
    assert_eq!(done.target_provider, "openai");
    assert!(done.message.contains("discarded"));
    let failed = superseded_outcome(false);
    assert_eq!(failed.status, ProviderSyncStatus::Skipped);
    assert!(failed.message.contains("could not discard"));
    let deferred = deferred_outcome();
    assert_eq!(deferred.status, ProviderSyncStatus::Skipped);
    assert_eq!(deferred.target_provider, "");
}

#[test]
fn recovery_gates() {
    let mut settings = custom_settings();
    assert!(recovery_disabled_for_active_profile(&settings));
    settings.relay_profiles_enabled = true;
    settings.relay_profiles[0].official_mix_api_key = true;
    assert!(!recovery_disabled_for_active_profile(&settings));
    settings.relay_profiles[0].relay_mode = RelayMode::MixedApi;
    assert!(recovery_disabled_for_active_profile(&settings));

    assert!(target_provider_rejected("openai"));
    assert!(target_provider_rejected("  "));
    assert!(!target_provider_rejected("custom"));
    assert_eq!(
        RecoverySkip::OpenAiTarget.message(),
        "Remote Control session recovery requires a non-openai target provider"
    );
}
