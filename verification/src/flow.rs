//! The order in which the launchers do their outside work, as decisions
//! from the state reached and the event that came back to the next state
//! and the next action. The caller performs each action and reports its
//! outcome as the next event.

use vstd::prelude::*;

verus! {

/// Where a run of the portable launcher stands. `via_dialog` records that
/// the settings were just saved from the configuration dialog.
#[derive(Debug, Clone, Copy, PartialEq, Eq, Structural)]
pub enum PortableStage {
    /// The settings have not been read yet.
    Start,
    /// The configuration dialog is open.
    AwaitDialog,
    /// The edited settings are being written; `complete` says whether they
    /// hold every required field.
    AwaitSave { complete: bool },
    /// The Codex App directory is being resolved.
    AwaitAppDir { via_dialog: bool },
    /// The single-instance guard is being taken.
    AwaitGuard { via_dialog: bool },
    /// Another live launcher holds the guard; its Codex window is being
    /// brought forward.
    AwaitActivation,
    /// The portable relay profile is being written into Codex's settings.
    AwaitRelayApply { via_dialog: bool },
    /// Codex is being launched and injected.
    AwaitLaunch { via_dialog: bool },
    /// The desktop shortcut is being checked.
    AwaitShortcut,
    /// Codex is running; the launcher waits for it to exit.
    AwaitExit,
    /// The run is over.
    Done,
}

/// What the caller reports back.
#[derive(Debug, Clone, Copy, PartialEq, Eq, Structural)]
pub enum PortableEvent {
    /// The settings were read (and a blank app path prefilled): whether
    /// they are complete, and whether the dialog was asked for.
    Loaded { complete: bool, force_config: bool },
    /// The dialog was closed without saving.
    DialogCancelled,
    /// The dialog was saved; whether the edited settings are complete.
    DialogSaved { complete: bool },
    /// The settings file was written.
    Saved,
    /// The Codex App directory is known.
    AppDirResolved,
    /// The guard was taken by this process.
    GuardAcquired,
    /// A live launcher holds the guard.
    GuardHeld,
    /// The existing Codex window was brought forward.
    Activated,
    /// The relay profile was written.
    RelayApplied,
    /// Codex was launched and injected.
    Launched,
    /// The desktop shortcut was dealt with.
    ShortcutChecked,
    /// Codex exited.
    Exited,
    /// The last action failed.
    Failed,
}

/// What the caller does next.
#[derive(Debug, Clone, Copy, PartialEq, Eq, Structural)]
pub enum PortableAction {
    /// Open the configuration dialog on the loaded settings.
    ShowDialog,
    /// Write the edited settings to `config.ini`.
    SaveConfig,
    /// Resolve the Codex App directory (configured, or the platform's).
    ResolveAppDir,
    /// Take the single-instance guard.
    AcquireGuard,
    /// Bring the existing Codex window forward, touching no live state.
    ActivateExisting,
    /// Write the portable relay profile into Codex's settings.
    ApplyRelayProfile,
    /// Launch Codex and inject the enhancements.
    LaunchAndInject,
    /// Repoint a desktop shortcut left by another copy; create a missing
    /// one only when `create_if_missing`.
    EnsureShortcut { create_if_missing: bool },
    /// Wait for Codex to exit.
    WaitForExit,
    /// End the run successfully.
    Finish,
    /// End the run with the error of the last action.
    Fail,
}

/// The portable launcher's next stage and action after `event` in
/// `stage`, or `None` where the event does not answer that stage's action.
#[verifier::opaque]
pub open spec fn portable_next(stage: PortableStage, event: PortableEvent) -> Option<
    (PortableStage, PortableAction),
> {
    match (stage, event) {
        (PortableStage::Done, _) => None,
        (_, PortableEvent::Failed) => {
            if stage == PortableStage::Start {
                None
            } else {
                Some((PortableStage::Done, PortableAction::Fail))
            }
        },
        (PortableStage::Start, PortableEvent::Loaded { complete, force_config }) => {
            if complete && !force_config {
                Some(
                    (PortableStage::AwaitAppDir { via_dialog: false }, PortableAction::ResolveAppDir),
                )
            } else {
                Some((PortableStage::AwaitDialog, PortableAction::ShowDialog))
            }
        },
        (PortableStage::AwaitDialog, PortableEvent::DialogCancelled) => Some(
            (PortableStage::Done, PortableAction::Finish),
        ),
        (PortableStage::AwaitDialog, PortableEvent::DialogSaved { complete }) => Some(
            (PortableStage::AwaitSave { complete }, PortableAction::SaveConfig),
        ),
        (PortableStage::AwaitSave { complete }, PortableEvent::Saved) => {
            if complete {
                Some(
                    (PortableStage::AwaitAppDir { via_dialog: true }, PortableAction::ResolveAppDir),
                )
            } else {
                Some((PortableStage::Done, PortableAction::Finish))
            }
        },
        (PortableStage::AwaitAppDir { via_dialog }, PortableEvent::AppDirResolved) => Some(
            (PortableStage::AwaitGuard { via_dialog }, PortableAction::AcquireGuard),
        ),
        (PortableStage::AwaitGuard { via_dialog }, PortableEvent::GuardAcquired) => Some(
            (PortableStage::AwaitRelayApply { via_dialog }, PortableAction::ApplyRelayProfile),
        ),
        (PortableStage::AwaitGuard { .. }, PortableEvent::GuardHeld) => Some(
            (PortableStage::AwaitActivation, PortableAction::ActivateExisting),
        ),
        (PortableStage::AwaitActivation, PortableEvent::Activated) => Some(
            (PortableStage::Done, PortableAction::Finish),
        ),
        (PortableStage::AwaitRelayApply { via_dialog }, PortableEvent::RelayApplied) => Some(
            (PortableStage::AwaitLaunch { via_dialog }, PortableAction::LaunchAndInject),
        ),
        (PortableStage::AwaitLaunch { via_dialog }, PortableEvent::Launched) => Some(
            (
                PortableStage::AwaitShortcut,
                PortableAction::EnsureShortcut { create_if_missing: via_dialog },
            ),
        ),
        (PortableStage::AwaitShortcut, PortableEvent::ShortcutChecked) => Some(
            (PortableStage::AwaitExit, PortableAction::WaitForExit),
        ),
        (PortableStage::AwaitExit, PortableEvent::Exited) => Some(
            (PortableStage::Done, PortableAction::Finish),
        ),
        _ => None,
    }
}

/// The portable launcher's decision after `event` in `stage`.
pub fn portable_step(stage: PortableStage, event: PortableEvent) -> (r: Option<
    (PortableStage, PortableAction),
>)
    ensures
        r == portable_next(stage, event),
        event == PortableEvent::Failed && stage != PortableStage::Start && stage
            != PortableStage::Done ==> r == Some((PortableStage::Done, PortableAction::Fail)),
{
    reveal(portable_next);
    match (stage, event) {
        (PortableStage::Done, _) => None,
        (PortableStage::Start, PortableEvent::Failed) => None,
        (_, PortableEvent::Failed) => Some((PortableStage::Done, PortableAction::Fail)),
        (PortableStage::Start, PortableEvent::Loaded { complete, force_config }) => {
            if complete && !force_config {
                Some(
                    (PortableStage::AwaitAppDir { via_dialog: false }, PortableAction::ResolveAppDir),
                )
            } else {
                Some((PortableStage::AwaitDialog, PortableAction::ShowDialog))
            }
        },
        (PortableStage::AwaitDialog, PortableEvent::DialogCancelled) => Some(
            (PortableStage::Done, PortableAction::Finish),
        ),
        (PortableStage::AwaitDialog, PortableEvent::DialogSaved { complete }) => Some(
            (PortableStage::AwaitSave { complete }, PortableAction::SaveConfig),
        ),
        (PortableStage::AwaitSave { complete }, PortableEvent::Saved) => {
            if complete {
                Some(
                    (PortableStage::AwaitAppDir { via_dialog: true }, PortableAction::ResolveAppDir),
                )
            } else {
                Some((PortableStage::Done, PortableAction::Finish))
            }
        },
        (PortableStage::AwaitAppDir { via_dialog }, PortableEvent::AppDirResolved) => Some(
            (PortableStage::AwaitGuard { via_dialog }, PortableAction::AcquireGuard),
        ),
        (PortableStage::AwaitGuard { via_dialog }, PortableEvent::GuardAcquired) => Some(
            (PortableStage::AwaitRelayApply { via_dialog }, PortableAction::ApplyRelayProfile),
        ),
        (PortableStage::AwaitGuard { .. }, PortableEvent::GuardHeld) => Some(
            (PortableStage::AwaitActivation, PortableAction::ActivateExisting),
        ),
        (PortableStage::AwaitActivation, PortableEvent::Activated) => Some(
            (PortableStage::Done, PortableAction::Finish),
        ),
        (PortableStage::AwaitRelayApply { via_dialog }, PortableEvent::RelayApplied) => Some(
            (PortableStage::AwaitLaunch { via_dialog }, PortableAction::LaunchAndInject),
        ),
        (PortableStage::AwaitLaunch { via_dialog }, PortableEvent::Launched) => Some(
            (
                PortableStage::AwaitShortcut,
                PortableAction::EnsureShortcut { create_if_missing: via_dialog },
            ),
        ),
        (PortableStage::AwaitShortcut, PortableEvent::ShortcutChecked) => Some(
            (PortableStage::AwaitExit, PortableAction::WaitForExit),
        ),
        (PortableStage::AwaitExit, PortableEvent::Exited) => Some(
            (PortableStage::Done, PortableAction::Finish),
        ),
        _ => None,
    }
}

/// The actions of a portable run that starts in `stage` and is answered by
/// `events` in turn, up to the first event that does not answer the last
/// action.
pub open spec fn portable_trace(stage: PortableStage, events: Seq<PortableEvent>) -> Seq<
    PortableAction,
>
    decreases events.len(),
{
    if events.len() == 0 {
        Seq::empty()
    } else {
        match portable_next(stage, events[0]) {
            None => Seq::empty(),
            Some((next, action)) => seq![action] + portable_trace(next, events.drop_first()),
        }
    }
}

/// How each stage is entered and which stage each action comes from.
proof fn lemma_portable_step_shape(stage: PortableStage, event: PortableEvent)
    ensures
        portable_next(stage, event) matches Some((next, action)) ==> {
            &&& next is AwaitGuard ==> action == PortableAction::AcquireGuard
            &&& next is AwaitRelayApply ==> action == PortableAction::ApplyRelayProfile
            &&& next is AwaitDialog ==> action == PortableAction::ShowDialog
            &&& next is AwaitActivation ==> action == PortableAction::ActivateExisting
            &&& action == PortableAction::ApplyRelayProfile ==> stage is AwaitGuard
            &&& action == PortableAction::ActivateExisting ==> stage is AwaitGuard
                && next is AwaitActivation
            &&& action == PortableAction::LaunchAndInject ==> stage is AwaitRelayApply
            &&& action == PortableAction::SaveConfig ==> stage is AwaitDialog
            &&& stage is AwaitActivation ==> next is Done && (action == PortableAction::Finish
                || action == PortableAction::Fail)
        },
        stage is Done ==> portable_next(stage, event) is None,
{
    reveal(portable_next);
}

/// One step of a trace: its first action, then the trace from the stage
/// that action leads to.
proof fn lemma_portable_trace_unfold(stage: PortableStage, events: Seq<PortableEvent>)
    requires
        events.len() > 0,
        portable_next(stage, events[0]) is Some,
    ensures
        portable_trace(stage, events) == seq![portable_next(stage, events[0]).unwrap().1]
            + portable_trace(portable_next(stage, events[0]).unwrap().0, events.drop_first()),
{
}

/// Whether `cur` may come right after `prev` in a portable run: the relay
/// profile is written right after the guard is asked for, so is the
/// existing instance activated; Codex is launched right after the relay
/// write; the settings are saved right after the dialog.
pub open spec fn portable_follows(prev: PortableAction, cur: PortableAction) -> bool {
    &&& cur == PortableAction::ApplyRelayProfile ==> prev == PortableAction::AcquireGuard
    &&& cur == PortableAction::ActivateExisting ==> prev == PortableAction::AcquireGuard
    &&& cur == PortableAction::LaunchAndInject ==> prev == PortableAction::ApplyRelayProfile
    &&& cur == PortableAction::SaveConfig ==> prev == PortableAction::ShowDialog
}

/// Each action that depends on an earlier one comes right after it, from
/// any stage.
proof fn lemma_portable_trace_order(stage: PortableStage, events: Seq<PortableEvent>)
    ensures
        ({
            let t = portable_trace(stage, events);
            &&& forall|j: int, k: int|
                #![trigger t[j], t[k]]
                0 <= j && k == j + 1 && k < t.len() ==> portable_follows(t[j], t[k])
            &&& t.len() > 0 ==> (t[0] == PortableAction::ApplyRelayProfile ==> stage is AwaitGuard)
                && (t[0] == PortableAction::ActivateExisting ==> stage is AwaitGuard) && (t[0]
                == PortableAction::LaunchAndInject ==> stage is AwaitRelayApply) && (t[0]
                == PortableAction::SaveConfig ==> stage is AwaitDialog)
        }),
    decreases events.len(),
{
    let t = portable_trace(stage, events);
    if events.len() > 0 && portable_next(stage, events[0]) is Some {
        let (next, action) = portable_next(stage, events[0]).unwrap();
        let rest = events.drop_first();
        lemma_portable_step_shape(stage, events[0]);
        lemma_portable_trace_unfold(stage, events);
        lemma_portable_trace_order(next, rest);
        let t2 = portable_trace(next, rest);
        assert(t[0] == action);
        assert forall|j: int, k: int|
            #![trigger t[j], t[k]]
            0 <= j && k == j + 1 && k < t.len() implies portable_follows(t[j], t[k]) by {
            assert(t[k] == t2[j]);
            if j > 0 {
                assert(t[j] == t2[j - 1]);
            }
        }
    } else {
        assert(t.len() == 0);
    }
}

/// From the activation of the existing instance on, a trace only ends the
/// run.
proof fn lemma_portable_trace_after_activation(stage: PortableStage, events: Seq<PortableEvent>)
    ensures
        ({
            let t = portable_trace(stage, events);
            &&& forall|k: int, j: int|
                0 <= k < j < t.len() && #[trigger] t[k] == PortableAction::ActivateExisting
                    ==> #[trigger] t[j] == PortableAction::Finish || t[j] == PortableAction::Fail
            &&& stage is AwaitActivation ==> forall|j: int|
                0 <= j < t.len() ==> #[trigger] t[j] == PortableAction::Finish || t[j]
                    == PortableAction::Fail
            &&& stage is Done ==> t.len() == 0
        }),
    decreases events.len(),
{
    let t = portable_trace(stage, events);
    if events.len() > 0 && portable_next(stage, events[0]) is Some {
        let (next, action) = portable_next(stage, events[0]).unwrap();
        let rest = events.drop_first();
        lemma_portable_step_shape(stage, events[0]);
        lemma_portable_trace_unfold(stage, events);
        lemma_portable_trace_after_activation(next, rest);
        let t2 = portable_trace(next, rest);
        assert(t[0] == action);
        assert forall|k: int, j: int|
            0 <= k < j < t.len() && #[trigger] t[k] == PortableAction::ActivateExisting implies
                #[trigger] t[j] == PortableAction::Finish || t[j] == PortableAction::Fail by {
            assert(t[j] == t2[j - 1]);
            if k > 0 {
                assert(t[k] == t2[k - 1]);
            }
        }
        assert forall|j: int| stage is AwaitActivation && 0 <= j < t.len() implies #[trigger] t[j]
            == PortableAction::Finish || t[j] == PortableAction::Fail by {
            if j > 0 {
                assert(t[j] == t2[j - 1]);
            }
        }
    } else {
        if stage is Done && events.len() > 0 {
            lemma_portable_step_shape(stage, events[0]);
        }
        assert(t.len() == 0);
    }
}

/// In a portable run, the relay profile is written only right after this
/// process asked for the single-instance guard and got it, and Codex is
/// launched only right after that write; the existing instance is
/// activated only when the guard was found held, and after that the run
/// only ends; the settings are saved only right after the dialog was shown.
/// None of these is the first action of a run.
pub proof fn lemma_portable_guard_before_live_state(events: Seq<PortableEvent>)
    ensures
        ({
            let t = portable_trace(PortableStage::Start, events);
            &&& t.len() > 0 ==> t[0] != PortableAction::ApplyRelayProfile && t[0]
                != PortableAction::LaunchAndInject && t[0] != PortableAction::ActivateExisting
                && t[0] != PortableAction::SaveConfig
            &&& forall|j: int, k: int|
                #![trigger t[j], t[k]]
                0 <= j && k == j + 1 && k < t.len() ==> portable_follows(t[j], t[k])
            &&& forall|k: int, j: int|
                0 <= k < j < t.len() && #[trigger] t[k] == PortableAction::ActivateExisting
                    ==> #[trigger] t[j] == PortableAction::Finish || t[j] == PortableAction::Fail
        }),
{
    lemma_portable_trace_order(PortableStage::Start, events);
    lemma_portable_trace_after_activation(PortableStage::Start, events);
}

/// The dialog is shown only when the settings are incomplete or it was
/// asked for; a cancelled dialog ends the run at once, with nothing saved
/// or launched; saved settings that are still incomplete end the run after
/// the save; a finished run takes no further event.
pub proof fn lemma_portable_dialog_outcomes(complete: bool, force_config: bool, e: PortableEvent)
    ensures
        portable_next(PortableStage::Start, PortableEvent::Loaded { complete, force_config })
            == (if complete && !force_config {
            Some((PortableStage::AwaitAppDir { via_dialog: false }, PortableAction::ResolveAppDir))
        } else {
            Some((PortableStage::AwaitDialog, PortableAction::ShowDialog))
        }),
        portable_next(PortableStage::AwaitDialog, PortableEvent::DialogCancelled) == Some(
            (PortableStage::Done, PortableAction::Finish),
        ),
        portable_next(PortableStage::AwaitSave { complete: false }, PortableEvent::Saved) == Some(
            (PortableStage::Done, PortableAction::Finish),
        ),
        portable_next(PortableStage::Done, e) is None,
{
    reveal(portable_next);
}

/// A failed action always ends the run with an error: in every stage with
/// an action outstanding, the event `Failed` leads to the end of the run
/// and the action `Fail`, never to `Finish`; and `Fail` comes from no other
/// event.
pub proof fn lemma_portable_failure_fails(stage: PortableStage, e: PortableEvent)
    ensures
        stage != PortableStage::Start && stage != PortableStage::Done ==> portable_next(
            stage,
            PortableEvent::Failed,
        ) == Some((PortableStage::Done, PortableAction::Fail)),
        portable_next(stage, e) matches Some((_, a)) && a == PortableAction::Fail ==> e
            == PortableEvent::Failed,
{
    reveal(portable_next);
}

/// The guard decides between the two ways on: taken, the relay profile is
/// written (and only then); held, the existing instance is activated. The
/// launch follows only a written relay profile. Settings saved complete go
/// on to the launch as configured through the dialog, and only such a run
/// may create a missing desktop shortcut.
pub proof fn lemma_portable_guard_outcomes(
    via_dialog: bool,
    stage: PortableStage,
    e: PortableEvent,
)
    ensures
        portable_next((PortableStage::AwaitGuard { via_dialog }), PortableEvent::GuardHeld)
            == Some((PortableStage::AwaitActivation, PortableAction::ActivateExisting)),
        portable_next((PortableStage::AwaitGuard { via_dialog }), PortableEvent::GuardAcquired)
            == Some(
            ((PortableStage::AwaitRelayApply { via_dialog }), PortableAction::ApplyRelayProfile),
        ),
        portable_next(stage, e) matches Some((_, a)) && a == PortableAction::ApplyRelayProfile
            ==> e == PortableEvent::GuardAcquired,
        portable_next(stage, e) matches Some((_, a)) && a == PortableAction::LaunchAndInject ==> e
            == PortableEvent::RelayApplied,
        portable_next((PortableStage::AwaitSave { complete: true }), PortableEvent::Saved) == Some(
            ((PortableStage::AwaitAppDir { via_dialog: true }), PortableAction::ResolveAppDir),
        ),
        portable_next(stage, e) matches Some((_, a)) && a == (PortableAction::EnsureShortcut {
            create_if_missing: true,
        }) ==> stage == (PortableStage::AwaitLaunch { via_dialog: true }),
        portable_next(stage, e) matches Some((n, _)) && n == (PortableStage::AwaitAppDir {
            via_dialog: true,
        }) ==> stage == (PortableStage::AwaitSave { complete: true }),
{
    reveal(portable_next);
}

} // verus!
