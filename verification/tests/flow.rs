use codex_plus::flow::{portable_step, PortableAction, PortableEvent, PortableStage};
use codex_plus::launch::{
    existing_instance_next, guard_attempt_next, ExistingInstanceNext, ExistingInstanceStep,
    GuardDecision, GuardErrorKind,
};
use codex_plus::recovery::{
    recovery_request_next, recovery_run_start, recovery_run_step, should_complete_after_finalization,
    ProviderSyncStatus, RecoveryRequestAction, RecoveryRunAction, RecoveryRunEvent,
    RecoveryRunStage, RecoverySkip, RecoveryStep,
};
use codex_plus::settings::{BackendSettings, RelayMode, RelayProfile};

fn run(events: &[PortableEvent]) -> Vec<PortableAction> {
    let mut stage = PortableStage::Start;
    let mut actions = Vec::new();
    for event in events {
        match portable_step(stage, *event) {
            Some((next, action)) => {
                stage = next;
                actions.push(action);
            }
            None => break,
        }
    }
    actions
}

#[test]
fn configured_portable_run_takes_the_guard_before_live_state() {
    let actions = run(&[
        PortableEvent::Loaded { complete: true, force_config: false },
        PortableEvent::AppDirResolved,
        PortableEvent::GuardAcquired,
        PortableEvent::RelayApplied,
        PortableEvent::Launched,
        PortableEvent::ShortcutChecked,
        PortableEvent::Exited,
    ]);
    assert_eq!(
        actions,
        vec![
            PortableAction::ResolveAppDir,
            PortableAction::AcquireGuard,
            PortableAction::ApplyRelayProfile,
            PortableAction::LaunchAndInject,
            PortableAction::EnsureShortcut { create_if_missing: false },
            PortableAction::WaitForExit,
            PortableAction::Finish,
        ]
    );
}

#[test]
fn first_configuration_saves_then_creates_the_shortcut() {
    let actions = run(&[
        PortableEvent::Loaded { complete: false, force_config: false },
        PortableEvent::DialogSaved { complete: true },
        PortableEvent::Saved,
        PortableEvent::AppDirResolved,
        PortableEvent::GuardAcquired,
        PortableEvent::RelayApplied,
        PortableEvent::Launched,
    ]);
    assert_eq!(
        actions,
        vec![
            PortableAction::ShowDialog,
            PortableAction::SaveConfig,
            PortableAction::ResolveAppDir,
            PortableAction::AcquireGuard,
            PortableAction::ApplyRelayProfile,
            PortableAction::LaunchAndInject,
            PortableAction::EnsureShortcut { create_if_missing: true },
        ]
    );
}

#[test]
fn cancelled_dialog_ends_the_run_without_saving() {
    let actions = run(&[
        PortableEvent::Loaded { complete: true, force_config: true },
        PortableEvent::DialogCancelled,
        PortableEvent::Saved,
    ]);
    assert_eq!(actions, vec![PortableAction::ShowDialog, PortableAction::Finish]);
}

#[test]
fn incomplete_saved_settings_stop_after_the_save() {
    let actions = run(&[
        PortableEvent::Loaded { complete: false, force_config: false },
        PortableEvent::DialogSaved { complete: false },
        PortableEvent::Saved,
        PortableEvent::AppDirResolved,
    ]);
    assert_eq!(
        actions,
        vec![PortableAction::ShowDialog, PortableAction::SaveConfig, PortableAction::Finish]
    );
}

#[test]
fn held_guard_activates_the_existing_instance_only() {
    let actions = run(&[
        PortableEvent::Loaded { complete: true, force_config: false },
        PortableEvent::AppDirResolved,
        PortableEvent::GuardHeld,
        PortableEvent::RelayApplied,
    ]);
    assert_eq!(
        actions,
        vec![
            PortableAction::ResolveAppDir,
            PortableAction::AcquireGuard,
            PortableAction::ActivateExisting,
        ]
    );
    assert_eq!(
        portable_step(PortableStage::AwaitActivation, PortableEvent::Activated),
        Some((PortableStage::Done, PortableAction::Finish))
    );
}

#[test]
fn failures_and_stray_events() {
    assert_eq!(
        portable_step(PortableStage::AwaitRelayApply { via_dialog: false }, PortableEvent::Failed),
        Some((PortableStage::Done, PortableAction::Fail))
    );
    assert_eq!(portable_step(PortableStage::Start, PortableEvent::Failed), None);
    assert_eq!(portable_step(PortableStage::Done, PortableEvent::Exited), None);
    assert_eq!(
        portable_step(PortableStage::AwaitDialog, PortableEvent::GuardAcquired),
        None
    );
}

fn mixing_settings() -> BackendSettings {
    BackendSettings {
        active_relay_id: "relay".to_string(),
        relay_profiles_enabled: true,
        relay_profiles: vec![RelayProfile {
            id: "relay".to_string(),
            relay_mode: RelayMode::Official,
            official_mix_api_key: true,
            ..RelayProfile::default()
        }],
        ..BackendSettings::default()
    }
}

#[test]
fn recovery_request_checks_in_order_and_enqueues_before_recovering() {
    let settings = mixing_settings();
    assert_eq!(
        recovery_request_next(&settings, None, None, false),
        RecoveryRequestAction::ResolveTargetProvider
    );
    assert_eq!(
        recovery_request_next(&settings, Some("openai"), Some(true), true),
        RecoveryRequestAction::Skip(RecoverySkip::OpenAiTarget)
    );
    assert_eq!(
        recovery_request_next(&settings, Some(" "), None, false),
        RecoveryRequestAction::Skip(RecoverySkip::OpenAiTarget)
    );
    assert_eq!(
        recovery_request_next(&settings, Some("custom"), None, false),
        RecoveryRequestAction::CheckCandidate
    );
    assert_eq!(
        recovery_request_next(&settings, Some("custom"), Some(false), false),
        RecoveryRequestAction::Skip(RecoverySkip::NoCandidate)
    );
    assert_eq!(
        recovery_request_next(&settings, Some("custom"), Some(true), false),
        RecoveryRequestAction::Enqueue
    );
    assert_eq!(
        recovery_request_next(&settings, Some("custom"), Some(true), true),
        RecoveryRequestAction::Recover
    );

    let mut off = mixing_settings();
    off.relay_profiles[0].official_mix_api_key = false;
    assert_eq!(
        recovery_request_next(&off, Some("openai"), Some(false), true),
        RecoveryRequestAction::Skip(RecoverySkip::DisabledForProfile)
    );
}

fn activation(
    pending: bool,
    blocking: &[u32],
    outcomes: &[bool],
) -> (Vec<ExistingInstanceStep>, Option<bool>) {
    let mut steps = Vec::new();
    let mut last = None;
    let mut outcomes = outcomes.iter();
    loop {
        match existing_instance_next(pending, blocking, last) {
            ExistingInstanceNext::Finished(ok) => return (steps, Some(ok)),
            ExistingInstanceNext::Run(step) => {
                steps.push(step);
                match outcomes.next() {
                    Some(ok) => last = Some((step, *ok)),
                    None => return (steps, None),
                }
            }
        }
    }
}

#[test]
fn existing_instance_drains_recoveries_only_when_unblocked() {
    assert_eq!(
        activation(true, &[], &[true, true]),
        (
            vec![ExistingInstanceStep::RunPendingRecovery, ExistingInstanceStep::LaunchExisting],
            Some(true)
        )
    );
    assert_eq!(
        activation(true, &[42], &[false, true]),
        (
            vec![ExistingInstanceStep::LogDeferredRecovery, ExistingInstanceStep::LaunchExisting],
            Some(true)
        )
    );
    assert_eq!(
        activation(false, &[42], &[false]),
        (vec![ExistingInstanceStep::LaunchExisting], Some(false))
    );
}

#[test]
fn failed_recovery_ends_the_activation_without_launching() {
    assert_eq!(
        activation(true, &[], &[false, true]),
        (vec![ExistingInstanceStep::RunPendingRecovery], Some(false))
    );
}

#[test]
fn guard_retries_once_without_stale_recovery() {
    let port = 47001;
    assert!(matches!(guard_attempt_next(1, None, None, port), GuardDecision::Acquired));
    assert!(matches!(
        guard_attempt_next(1, Some(GuardErrorKind::AddrInUse), None, port),
        GuardDecision::CheckStale
    ));
    assert!(matches!(
        guard_attempt_next(1, Some(GuardErrorKind::WouldBlock), Some(true), port),
        GuardDecision::StopStaleAndRetry
    ));
    assert!(matches!(
        guard_attempt_next(1, Some(GuardErrorKind::WouldBlock), Some(false), port),
        GuardDecision::UseExistingInstance
    ));
    assert!(matches!(
        guard_attempt_next(2, Some(GuardErrorKind::AddrInUse), None, port),
        GuardDecision::UseExistingInstance
    ));
    assert!(matches!(guard_attempt_next(2, None, None, port), GuardDecision::Acquired));
    match guard_attempt_next(1, Some(GuardErrorKind::Other), None, port) {
        GuardDecision::Fail(message) => {
            assert_eq!(message, "failed to acquire launcher guard port 47001")
        }
        other => panic!("unexpected {other:?}"),
    }
}

fn recovery_run(count: usize, answers: &[RecoveryRunEvent]) -> Vec<RecoveryRunAction> {
    let (mut stage, action) = recovery_run_start(count);
    let mut actions = vec![action];
    for event in answers {
        match recovery_run_step(count, stage, *event) {
            Some((next, action)) => {
                stage = next;
                actions.push(action);
            }
            None => break,
        }
    }
    actions
}

#[test]
fn pending_recoveries_are_handled_in_order() {
    assert_eq!(recovery_run(0, &[]), vec![RecoveryRunAction::Finish]);
    let actions = recovery_run(
        4,
        &[
            RecoveryRunEvent::Decided(RecoveryStep::DiscardSuperseded),
            RecoveryRunEvent::Completed,
            RecoveryRunEvent::Decided(RecoveryStep::Finalize),
            RecoveryRunEvent::Finalized(ProviderSyncStatus::Synced),
            RecoveryRunEvent::Completed,
            RecoveryRunEvent::Decided(RecoveryStep::Finalize),
            RecoveryRunEvent::Finalized(ProviderSyncStatus::Skipped),
            RecoveryRunEvent::Decided(RecoveryStep::Defer),
        ],
    );
    assert_eq!(
        actions,
        vec![
            RecoveryRunAction::Decide(0),
            RecoveryRunAction::Complete(0),
            RecoveryRunAction::Decide(1),
            RecoveryRunAction::Finalize(1),
            RecoveryRunAction::Complete(1),
            RecoveryRunAction::Decide(2),
            RecoveryRunAction::Finalize(2),
            RecoveryRunAction::Decide(3),
            RecoveryRunAction::Finish,
        ]
    );
    assert!(should_complete_after_finalization(ProviderSyncStatus::Synced));
    assert!(!should_complete_after_finalization(ProviderSyncStatus::Skipped));
    assert_eq!(
        recovery_run_step(2, RecoveryRunStage::Finalizing(0), RecoveryRunEvent::Completed),
        None
    );
}
