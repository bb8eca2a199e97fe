//! Decisions about pending Remote Control session recoveries.

use vstd::prelude::*;

use crate::settings::{
    active_profile, profile_session_is_openai, BackendSettings, BackendSettingsView, RelayMode,
};
use crate::text::{str_eq, trim, trimmed_string};

verus! {

/// A Remote Control session finalization queued for later.
#[derive(Debug)]
pub struct PendingRemoteControlRecovery {
    pub thread_id: String,
    pub profile_id: String,
    pub target_provider: String,
    pub config_generation: String,
    pub created_at: i64,
}

/// Whether switching to the OpenAI session identity supersedes `request`:
/// the request belongs to the active profile, and sessions under that
/// profile carry the OpenAI identity.
pub open spec fn superseded_by_openai(
    active_relay_id: Seq<char>,
    active_is_openai: bool,
    profile_id: Seq<char>,
) -> bool {
    active_relay_id == profile_id && active_is_openai
}

pub fn remote_control_recovery_is_superseded_by_openai(
    settings: &BackendSettings,
    request: &PendingRemoteControlRecovery,
) -> (b: bool)
    ensures
        b == superseded_by_openai(
            settings@.active_relay_id,
            profile_session_is_openai(active_profile(settings@)),
            request.profile_id@,
        ),
{
    settings.active_relay_id == request.profile_id && settings.active_session_is_openai()
}

/// What to do with one pending recovery.
#[derive(Debug, Clone, Copy, PartialEq, Eq, Structural)]
pub enum RecoveryStep {
    /// Drop the request: the OpenAI session identity supersedes it.
    DiscardSuperseded,
    /// Leave the request queued: its relay profile has changed.
    Defer,
    /// Run the finalization for the request's thread.
    Finalize,
}

/// The step for `request`. `current_generation` is the configuration
/// generation, for the request's target provider, of the profile whose id
/// the request names, or `None` where no profile has that id. The request
/// is current when its profile is the active one and its generation is
/// unchanged.
pub fn remote_control_recovery_step(
    settings: &BackendSettings,
    request: &PendingRemoteControlRecovery,
    current_generation: Option<&str>,
) -> (r: RecoveryStep)
    ensures
        r == (if superseded_by_openai(
            settings@.active_relay_id,
            profile_session_is_openai(active_profile(settings@)),
            request.profile_id@,
        ) {
            RecoveryStep::DiscardSuperseded
        } else if settings@.active_relay_id == request.profile_id@ && match current_generation {
            Some(g) => g@ == request.config_generation@,
            None => false,
        } {
            RecoveryStep::Finalize
        } else {
            RecoveryStep::Defer
        }),
{
    if remote_control_recovery_is_superseded_by_openai(settings, request) {
        return RecoveryStep::DiscardSuperseded;
    }
    let current = match current_generation {
        Some(g) => str_eq(g, request.config_generation.as_str()),
        None => false,
    };
    if settings.active_relay_id == request.profile_id && current {
        RecoveryStep::Finalize
    } else {
        RecoveryStep::Defer
    }
}

/// The sync status that a recovery reports.
#[derive(Debug, Clone, Copy, PartialEq, Eq, Structural)]
pub enum ProviderSyncStatus {
    Synced,
    Skipped,
}

/// What a recovery that did not run a finalization reports.
#[derive(Debug)]
pub struct RecoveryOutcome {
    pub status: ProviderSyncStatus,
    pub message: String,
    pub target_provider: String,
}

/// The report for a superseded request: synced when the request could be
/// discarded (`completed`), skipped when it could not.
pub fn superseded_outcome(completed: bool) -> (r: RecoveryOutcome)
    ensures
        r.status == (if completed {
            ProviderSyncStatus::Synced
        } else {
            ProviderSyncStatus::Skipped
        }),
        r.message@ == (if completed {
            "Remote Control session finalization discarded after switching to OpenAI session identity"@
        } else {
            "Remote Control session finalization could not discard the superseded recovery request"@
        }),
        r.target_provider@ == "openai"@,
{
    RecoveryOutcome {
        status: if completed {
            ProviderSyncStatus::Synced
        } else {
            ProviderSyncStatus::Skipped
        },
        message: if completed {
            String::from_str(
                "Remote Control session finalization discarded after switching to OpenAI session identity",
            )
        } else {
            String::from_str(
                "Remote Control session finalization could not discard the superseded recovery request",
            )
        },
        target_provider: String::from_str("openai"),
    }
}

/// The report for a deferred request: skipped, with no target provider.
pub fn deferred_outcome() -> (r: RecoveryOutcome)
    ensures
        r.status == ProviderSyncStatus::Skipped,
        r.message@
            == "Remote Control session finalization deferred after relay profile changed"@,
        r.target_provider@ == Seq::<char>::empty(),
{
    RecoveryOutcome {
        status: ProviderSyncStatus::Skipped,
        message: String::from_str(
            "Remote Control session finalization deferred after relay profile changed",
        ),
        target_provider: String::new(),
    }
}

/// Why a requested Remote Control session recovery is skipped.
#[derive(Debug, Clone, Copy, PartialEq, Eq, Structural)]
pub enum RecoverySkip {
    /// The active profile does not mix an API key into an official login.
    DisabledForProfile,
    /// The target provider is blank or `openai`.
    OpenAiTarget,
    /// No recent `openai` thread to recover yet.
    NoCandidate,
}

impl RecoverySkip {
    /// The message reported with the skip.
    pub fn message(&self) -> (r: String)
        ensures
            r@ == match self {
                RecoverySkip::DisabledForProfile =>
                    "Remote Control session recovery is disabled for the active profile"@,
                RecoverySkip::OpenAiTarget =>
                    "Remote Control session recovery requires a non-openai target provider"@,
                RecoverySkip::NoCandidate =>
                    "Remote Control session recovery is waiting for a recent openai thread"@,
            },
    {
        match self {
            RecoverySkip::DisabledForProfile => String::from_str(
                "Remote Control session recovery is disabled for the active profile",
            ),
            RecoverySkip::OpenAiTarget => String::from_str(
                "Remote Control session recovery requires a non-openai target provider",
            ),
            RecoverySkip::NoCandidate => String::from_str(
                "Remote Control session recovery is waiting for a recent openai thread",
            ),
        }
    }
}

/// Whether recovery is off for the active profile: relay profiles are
/// disabled, or the profile is not in the official mode, or it does not mix
/// in an API key.
pub open spec fn recovery_disabled(s: BackendSettingsView) -> bool {
    !s.relay_profiles_enabled || active_profile(s).relay_mode != RelayMode::Official
        || !active_profile(s).official_mix_api_key
}

pub fn recovery_disabled_for_active_profile(settings: &BackendSettings) -> (b: bool)
    ensures
        b == recovery_disabled(settings@),
        !settings@.relay_profiles_enabled ==> b,
        active_profile(settings@).relay_mode != RelayMode::Official ==> b,
        !active_profile(settings@).official_mix_api_key ==> b,
        settings@.relay_profiles_enabled && active_profile(settings@).relay_mode
            == RelayMode::Official && active_profile(settings@).official_mix_api_key ==> !b,
{
    let profile = settings.active_relay_profile();
    !settings.relay_profiles_enabled || profile.relay_mode != RelayMode::Official
        || !profile.official_mix_api_key
}

/// Whether a target provider cannot take a recovery: it is blank or `openai`.
pub open spec fn provider_rejected(target_provider: Seq<char>) -> bool {
    trim(target_provider).len() == 0 || target_provider == "openai"@
}

pub fn target_provider_rejected(target_provider: &str) -> (b: bool)
    ensures
        b == provider_rejected(target_provider@),
{
    let t = trimmed_string(target_provider);
    t.as_str().unicode_len() == 0 || str_eq(target_provider, "openai")
}

/// The next step in answering a request to recover a Remote Control
/// session.
#[derive(Debug, Clone, Copy, PartialEq, Eq, Structural)]
pub enum RecoveryRequestAction {
    /// Answer that the request is skipped, and why.
    Skip(RecoverySkip),
    /// Find the model provider that the active profile writes for Codex.
    ResolveTargetProvider,
    /// Look for a recent `openai` thread to recover.
    CheckCandidate,
    /// Record the recovery as pending.
    Enqueue,
    /// Move the thread to the target provider and answer with the result.
    Recover,
}

/// The next step for a recovery request, from what is known so far: the
/// settings, the target provider once resolved, whether a candidate thread
/// exists once checked, and whether the request was recorded. The checks
/// run in order, and the first that fails skips the request: recovery off
/// for the profile, then a blank or `openai` target, then no candidate. A
/// recovery runs only once the request is recorded as pending.
pub fn recovery_request_next(
    settings: &BackendSettings,
    target_provider: Option<&str>,
    candidate: Option<bool>,
    enqueued: bool,
) -> (r: RecoveryRequestAction)
    ensures
        r == (if recovery_disabled(settings@) {
            RecoveryRequestAction::Skip(RecoverySkip::DisabledForProfile)
        } else if target_provider is None {
            RecoveryRequestAction::ResolveTargetProvider
        } else if provider_rejected(target_provider->0@) {
            RecoveryRequestAction::Skip(RecoverySkip::OpenAiTarget)
        } else if candidate is None {
            RecoveryRequestAction::CheckCandidate
        } else if candidate == Some(false) {
            RecoveryRequestAction::Skip(RecoverySkip::NoCandidate)
        } else if !enqueued {
            RecoveryRequestAction::Enqueue
        } else {
            RecoveryRequestAction::Recover
        }),
        r == RecoveryRequestAction::Recover ==> !recovery_disabled(settings@) && (
        target_provider matches Some(t) && !provider_rejected(t@)) && candidate == Some(true)
            && enqueued,
        r == RecoveryRequestAction::Enqueue ==> candidate == Some(true),
        r == RecoveryRequestAction::Skip(RecoverySkip::NoCandidate) ==> !recovery_disabled(
            settings@,
        ) && (target_provider matches Some(t) && !provider_rejected(t@)),
        r == RecoveryRequestAction::Skip(RecoverySkip::OpenAiTarget) ==> !recovery_disabled(
            settings@,
        ),
        !settings@.relay_profiles_enabled || active_profile(settings@).relay_mode
            != RelayMode::Official || !active_profile(settings@).official_mix_api_key ==> r
            == RecoveryRequestAction::Skip(RecoverySkip::DisabledForProfile),
        r == RecoveryRequestAction::Recover || r == RecoveryRequestAction::Enqueue ==> settings@.relay_profiles_enabled,
{
    if recovery_disabled_for_active_profile(settings) {
        return RecoveryRequestAction::Skip(RecoverySkip::DisabledForProfile);
    }
    let target = match target_provider {
        None => {
            return RecoveryRequestAction::ResolveTargetProvider;
        },
        Some(t) => t,
    };
    if target_provider_rejected(target) {
        return RecoveryRequestAction::Skip(RecoverySkip::OpenAiTarget);
    }
    match candidate {
        None => RecoveryRequestAction::CheckCandidate,
        Some(false) => RecoveryRequestAction::Skip(RecoverySkip::NoCandidate),
        Some(true) => {
            if enqueued {
                RecoveryRequestAction::Recover
            } else {
                RecoveryRequestAction::Enqueue
            }
        },
    }
}

/// Whether a request whose finalization reported `status` is completed,
/// that is, removed from the queue: exactly when the finalization synced.
pub fn should_complete_after_finalization(status: ProviderSyncStatus) -> (b: bool)
    ensures
        b == (status == ProviderSyncStatus::Synced),
{
    match status {
        ProviderSyncStatus::Synced => true,
        ProviderSyncStatus::Skipped => false,
    }
}

/// Where a run over the pending recoveries stands; each stage names the
/// request (by its place in the queue) that it works on.
#[derive(Debug, Clone, Copy, PartialEq, Eq, Structural)]
pub enum RecoveryRunStage {
    /// The step for the request is being decided.
    Deciding(usize),
    /// A superseded request is being completed.
    Discarding(usize),
    /// The request's finalization runs.
    Finalizing(usize),
    /// A finalized request is being completed.
    Completing(usize),
    /// Every request was handled.
    Done,
}

/// What the caller reports back.
#[derive(Debug, Clone, Copy, PartialEq, Eq, Structural)]
pub enum RecoveryRunEvent {
    /// The step for the request (see `remote_control_recovery_step`).
    Decided(RecoveryStep),
    /// The finalization reported this status.
    Finalized(ProviderSyncStatus),
    /// The completion was attempted; its error, if any, is only logged.
    Completed,
}

/// What the caller does next.
#[derive(Debug, Clone, Copy, PartialEq, Eq, Structural)]
pub enum RecoveryRunAction {
    /// Decide the step for request `i` (recording the outcome of the one
    /// before, if any).
    Decide(usize),
    /// Remove request `i` from the queue.
    Complete(usize),
    /// Run the finalization of request `i`'s thread.
    Finalize(usize),
    /// Log the outcomes, in order, and end the run.
    Finish,
}

/// Moving on from request `i` of `count`.
pub open spec fn recovery_run_advance(count: nat, i: usize) -> (RecoveryRunStage, RecoveryRunAction) {
    if i + 1 < count && i < usize::MAX {
        (RecoveryRunStage::Deciding((i + 1) as usize), RecoveryRunAction::Decide((i + 1) as usize))
    } else {
        (RecoveryRunStage::Done, RecoveryRunAction::Finish)
    }
}

/// The first stage and action of a run over `count` requests.
pub open spec fn recovery_run_first(count: nat) -> (RecoveryRunStage, RecoveryRunAction) {
    if count > 0 {
        (RecoveryRunStage::Deciding(0), RecoveryRunAction::Decide(0))
    } else {
        (RecoveryRunStage::Done, RecoveryRunAction::Finish)
    }
}

/// The next stage and action of a run over `count` requests after `event`
/// in `stage`, or `None` where the event does not answer that stage's
/// action.
#[verifier::opaque]
pub open spec fn recovery_run_next(count: nat, stage: RecoveryRunStage, event: RecoveryRunEvent) -> Option<
    (RecoveryRunStage, RecoveryRunAction),
> {
    match (stage, event) {
        (RecoveryRunStage::Deciding(i), RecoveryRunEvent::Decided(step)) => match step {
            RecoveryStep::DiscardSuperseded => Some(
                (RecoveryRunStage::Discarding(i), RecoveryRunAction::Complete(i)),
            ),
            RecoveryStep::Finalize => Some(
                (RecoveryRunStage::Finalizing(i), RecoveryRunAction::Finalize(i)),
            ),
            RecoveryStep::Defer => Some(recovery_run_advance(count, i)),
        },
        (RecoveryRunStage::Discarding(i), RecoveryRunEvent::Completed) => Some(
            recovery_run_advance(count, i),
        ),
        (RecoveryRunStage::Finalizing(i), RecoveryRunEvent::Finalized(status)) => {
            if status == ProviderSyncStatus::Synced {
                Some((RecoveryRunStage::Completing(i), RecoveryRunAction::Complete(i)))
            } else {
                Some(recovery_run_advance(count, i))
            }
        },
        (RecoveryRunStage::Completing(i), RecoveryRunEvent::Completed) => Some(
            recovery_run_advance(count, i),
        ),
        _ => None,
    }
}

fn recovery_run_advance_exec(count: usize, i: usize) -> (r: (RecoveryRunStage, RecoveryRunAction))
    ensures
        r == recovery_run_advance(count as nat, i),
{
    if count > 0 && i < count - 1 {
        (RecoveryRunStage::Deciding(i + 1), RecoveryRunAction::Decide(i + 1))
    } else {
        (RecoveryRunStage::Done, RecoveryRunAction::Finish)
    }
}

/// The first stage and action of a run over `count` pending requests.
pub fn recovery_run_start(count: usize) -> (r: (RecoveryRunStage, RecoveryRunAction))
    ensures
        r == recovery_run_first(count as nat),
{
    if count > 0 {
        (RecoveryRunStage::Deciding(0), RecoveryRunAction::Decide(0))
    } else {
        (RecoveryRunStage::Done, RecoveryRunAction::Finish)
    }
}

/// The decision of a run over `count` pending requests after `event` in
/// `stage`.
pub fn recovery_run_step(count: usize, stage: RecoveryRunStage, event: RecoveryRunEvent) -> (r:
    Option<(RecoveryRunStage, RecoveryRunAction)>)
    ensures
        r == recovery_run_next(count as nat, stage, event),
{
    reveal(recovery_run_next);
    match (stage, event) {
        (RecoveryRunStage::Deciding(i), RecoveryRunEvent::Decided(step)) => match step {
            RecoveryStep::DiscardSuperseded => Some(
                (RecoveryRunStage::Discarding(i), RecoveryRunAction::Complete(i)),
            ),
            RecoveryStep::Finalize => Some(
                (RecoveryRunStage::Finalizing(i), RecoveryRunAction::Finalize(i)),
            ),
            RecoveryStep::Defer => Some(recovery_run_advance_exec(count, i)),
        },
        (RecoveryRunStage::Discarding(i), RecoveryRunEvent::Completed) => Some(
            recovery_run_advance_exec(count, i),
        ),
        (RecoveryRunStage::Finalizing(i), RecoveryRunEvent::Finalized(status)) => {
            if should_complete_after_finalization(status) {
                Some((RecoveryRunStage::Completing(i), RecoveryRunAction::Complete(i)))
            } else {
                Some(recovery_run_advance_exec(count, i))
            }
        },
        (RecoveryRunStage::Completing(i), RecoveryRunEvent::Completed) => Some(
            recovery_run_advance_exec(count, i),
        ),
        _ => None,
    }
}

/// The actions of a run over `count` requests from `stage`, answered by
/// `events` in turn, up to the first event that does not answer the last
/// action.
pub open spec fn recovery_run_trace(
    count: nat,
    stage: RecoveryRunStage,
    events: Seq<RecoveryRunEvent>,
) -> Seq<RecoveryRunAction>
    decreases events.len(),
{
    if events.len() == 0 {
        Seq::empty()
    } else {
        match recovery_run_next(count, stage, events[0]) {
            None => Seq::empty(),
            Some((next, action)) => seq![action] + recovery_run_trace(
                count,
                next,
                events.drop_first(),
            ),
        }
    }
}

/// The action that leads into `stage`.
pub open spec fn recovery_run_entry(stage: RecoveryRunStage) -> RecoveryRunAction {
    match stage {
        RecoveryRunStage::Deciding(i) => RecoveryRunAction::Decide(i),
        RecoveryRunStage::Discarding(i) => RecoveryRunAction::Complete(i),
        RecoveryRunStage::Finalizing(i) => RecoveryRunAction::Finalize(i),
        RecoveryRunStage::Completing(i) => RecoveryRunAction::Complete(i),
        RecoveryRunStage::Done => RecoveryRunAction::Finish,
    }
}

/// Whether `cur` may come right after `prev`: work on a request follows
/// its decision (a completion may also follow its finalization), the next
/// request is decided only once the one before is done with, and nothing
/// follows the end.
pub open spec fn recovery_run_follows(prev: RecoveryRunAction, cur: RecoveryRunAction) -> bool {
    match cur {
        RecoveryRunAction::Decide(i) => i > 0 && (prev == RecoveryRunAction::Decide((i - 1) as usize)
            || prev == RecoveryRunAction::Complete((i - 1) as usize) || prev
            == RecoveryRunAction::Finalize((i - 1) as usize)),
        RecoveryRunAction::Complete(i) => prev == RecoveryRunAction::Decide(i) || prev
            == RecoveryRunAction::Finalize(i),
        RecoveryRunAction::Finalize(i) => prev == RecoveryRunAction::Decide(i),
        RecoveryRunAction::Finish => prev != RecoveryRunAction::Finish,
    }
}

proof fn lemma_recovery_run_step_shape(
    count: nat,
    stage: RecoveryRunStage,
    event: RecoveryRunEvent,
)
    ensures
        recovery_run_next(count, stage, event) matches Some((next, action)) ==> action
            == recovery_run_entry(next) && recovery_run_follows(recovery_run_entry(stage), action),
{
    reveal(recovery_run_next);
}

proof fn lemma_recovery_run_trace_order(
    count: nat,
    stage: RecoveryRunStage,
    events: Seq<RecoveryRunEvent>,
)
    ensures
        ({
            let t = recovery_run_trace(count, stage, events);
            &&& forall|j: int, k: int|
                #![trigger t[j], t[k]]
                0 <= j && k == j + 1 && k < t.len() ==> recovery_run_follows(t[j], t[k])
            &&& t.len() > 0 ==> recovery_run_follows(recovery_run_entry(stage), t[0])
        }),
    decreases events.len(),
{
    let t = recovery_run_trace(count, stage, events);
    if events.len() > 0 && recovery_run_next(count, stage, events[0]) is Some {
        let (next, action) = recovery_run_next(count, stage, events[0]).unwrap();
        let rest = events.drop_first();
        lemma_recovery_run_step_shape(count, stage, events[0]);
        lemma_recovery_run_trace_order(count, next, rest);
        let t2 = recovery_run_trace(count, next, rest);
        assert(t == seq![action] + t2);
        assert forall|j: int, k: int|
            #![trigger t[j], t[k]]
            0 <= j && k == j + 1 && k < t.len() implies recovery_run_follows(t[j], t[k]) by {
            assert(t[k] == t2[j]);
            if j > 0 {
                assert(t[j] == t2[j - 1]);
            }
        }
    } else {
        assert(t.len() == 0);
    }
}

/// A run over the pending recoveries handles them one at a time and in
/// their order: it starts with the first (or ends at once when there are
/// none), the work on a request follows its decision, and the next request
/// is taken up only once the one before is done with.
pub proof fn lemma_recovery_run_in_order(count: nat, events: Seq<RecoveryRunEvent>)
    ensures
        ({
            let (first, action) = recovery_run_first(count);
            let t = seq![action] + recovery_run_trace(count, first, events);
            &&& t[0] == (if count > 0 {
                RecoveryRunAction::Decide(0)
            } else {
                RecoveryRunAction::Finish
            })
            &&& forall|j: int, k: int|
                #![trigger t[j], t[k]]
                0 <= j && k == j + 1 && k < t.len() ==> recovery_run_follows(t[j], t[k])
        }),
{
    let (first, action) = recovery_run_first(count);
    let t2 = recovery_run_trace(count, first, events);
    let t = seq![action] + t2;
    lemma_recovery_run_trace_order(count, first, events);
    assert(action == recovery_run_entry(first));
    assert forall|j: int, k: int|
        #![trigger t[j], t[k]]
        0 <= j && k == j + 1 && k < t.len() implies recovery_run_follows(t[j], t[k]) by {
        assert(t[k] == t2[j]);
        if j > 0 {
            assert(t[j] == t2[j - 1]);
        }
    }
}

/// A finalized request is completed exactly when its finalization synced;
/// a deferred request is left in the queue.
pub proof fn lemma_recovery_run_completion(count: nat, i: usize, status: ProviderSyncStatus)
    ensures
        (recovery_run_next(
            count,
            RecoveryRunStage::Finalizing(i),
            RecoveryRunEvent::Finalized(status),
        ) matches Some((_, a)) && a == RecoveryRunAction::Complete(i)) <==> status
            == ProviderSyncStatus::Synced,
        recovery_run_next(
            count,
            RecoveryRunStage::Deciding(i),
            RecoveryRunEvent::Decided(RecoveryStep::Defer),
        ) == Some(recovery_run_advance(count, i)),
{
    reveal(recovery_run_next);
}

/// A recovery request goes ahead only where relay profiles are enabled and
/// the active profile is in the official mode and mixes in an API key;
/// each of the three failing disables it, whatever the other two are.
pub proof fn lemma_recovery_gate(s: BackendSettingsView)
    ensures
        !s.relay_profiles_enabled ==> recovery_disabled(s),
        active_profile(s).relay_mode != RelayMode::Official ==> recovery_disabled(s),
        !active_profile(s).official_mix_api_key ==> recovery_disabled(s),
        s.relay_profiles_enabled && active_profile(s).relay_mode == RelayMode::Official
            && active_profile(s).official_mix_api_key ==> !recovery_disabled(s),
{
}

} // verus!
