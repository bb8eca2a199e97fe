//! Launch options from the command line, and the launcher's decisions
//! around its single-instance guard and the portable start-up.

use vstd::prelude::*;

use crate::portable::{config_is_complete, PortableConfig, PortableConfigView};
use crate::text::{
    chars_of, decimal, parse_u16, parse_u16_spec, push_decimal, str_eq, trim, trimmed_string,
};

verus! {

/// The options that the manager can forward to the launcher.
#[derive(Debug, Clone, PartialEq, Eq)]
pub struct LaunchOptions {
    pub app_dir: Option<String>,
    pub debug_port: u16,
    pub helper_port: u16,
}

pub ghost struct LaunchOptionsView {
    pub app_dir: Option<Seq<char>>,
    pub debug_port: u16,
    pub helper_port: u16,
}

impl View for LaunchOptions {
    type V = LaunchOptionsView;

    open spec fn view(&self) -> LaunchOptionsView {
        LaunchOptionsView {
            app_dir: match self.app_dir {
                Some(d) => Some(d@),
                None => None,
            },
            debug_port: self.debug_port,
            helper_port: self.helper_port,
        }
    }
}

/// No app path; the default debug and helper ports.
pub open spec fn default_launch_options() -> LaunchOptionsView {
    LaunchOptionsView { app_dir: None, debug_port: 9229, helper_port: 57321 }
}

impl Default for LaunchOptions {
    fn default() -> (r: LaunchOptions)
        ensures
            r@ == default_launch_options(),
    {
        LaunchOptions { app_dir: None, debug_port: 9229, helper_port: 57321 }
    }
}

/// The options after reading the arguments `args` from the first on.
/// `--app-path`, `--debug-port` and `--helper-port` each take the next
/// argument as their value; an app path is trimmed and ignored when empty,
/// a port is ignored unless it reads as one; other arguments are skipped.
pub open spec fn apply_launch_args(o: LaunchOptionsView, args: Seq<Seq<char>>) -> LaunchOptionsView
    decreases args.len(),
{
    if args.len() == 0 {
        o
    } else if args[0] == "--app-path"@ || args[0] == "--debug-port"@ || args[0] == "--helper-port"@ {
        if args.len() < 2 {
            o
        } else {
            let v = args[1];
            let next = if args[0] == "--app-path"@ {
                if trim(v).len() > 0 {
                    LaunchOptionsView { app_dir: Some(trim(v)), ..o }
                } else {
                    o
                }
            } else if args[0] == "--debug-port"@ {
                match parse_u16_spec(v) {
                    Some(p) => LaunchOptionsView { debug_port: p, ..o },
                    None => o,
                }
            } else {
                match parse_u16_spec(v) {
                    Some(p) => LaunchOptionsView { helper_port: p, ..o },
                    None => o,
                }
            };
            apply_launch_args(next, args.skip(2))
        }
    } else {
        apply_launch_args(o, args.skip(1))
    }
}

/// Whether reading `args` from the first on ends exactly at their end: no
/// option is left at the end waiting for its value.
pub open spec fn args_consumed(args: Seq<Seq<char>>) -> bool
    decreases args.len(),
{
    if args.len() == 0 {
        true
    } else if args[0] == "--app-path"@ || args[0] == "--debug-port"@ || args[0] == "--helper-port"@ {
        args.len() >= 2 && args_consumed(args.skip(2))
    } else {
        args_consumed(args.skip(1))
    }
}

/// Reading arguments that are consumed whole, then more, is reading the
/// first ones and going on from the options they gave.
pub proof fn lemma_apply_launch_args_append(
    o: LaunchOptionsView,
    a: Seq<Seq<char>>,
    b: Seq<Seq<char>>,
)
    requires
        args_consumed(a),
    ensures
        apply_launch_args(o, a + b) == apply_launch_args(apply_launch_args(o, a), b),
    decreases a.len(),
{
    if a.len() == 0 {
        assert(a + b =~= b);
    } else {
        let ab = a + b;
        assert(ab[0] == a[0]);
        if a[0] == "--app-path"@ || a[0] == "--debug-port"@ || a[0] == "--helper-port"@ {
            assert(ab[1] == a[1]);
            assert(ab.skip(2) =~= a.skip(2) + b);
            let v = a[1];
            let next = if a[0] == "--app-path"@ {
                if trim(v).len() > 0 {
                    LaunchOptionsView { app_dir: Some(trim(v)), ..o }
                } else {
                    o
                }
            } else if a[0] == "--debug-port"@ {
                match parse_u16_spec(v) {
                    Some(p) => LaunchOptionsView { debug_port: p, ..o },
                    None => o,
                }
            } else {
                match parse_u16_spec(v) {
                    Some(p) => LaunchOptionsView { helper_port: p, ..o },
                    None => o,
                }
            };
            lemma_apply_launch_args_append(next, a.skip(2), b);
        } else {
            assert(ab.skip(1) =~= a.skip(1) + b);
            lemma_apply_launch_args_append(o, a.skip(1), b);
        }
    }
}

/// The last option on the command line wins: after any arguments that are
/// read whole, a final `--app-path` with a non-blank value sets the app
/// path to that value, trimmed, and a final `--debug-port` or
/// `--helper-port` with a valid port sets that port, whatever came before;
/// each leaves the other options as they were, and a blank app path or a
/// value that is not a port changes nothing.
pub proof fn lemma_last_launch_option_wins(
    o: LaunchOptionsView,
    a: Seq<Seq<char>>,
    v: Seq<char>,
)
    requires
        args_consumed(a),
    ensures
        trim(v).len() > 0 ==> apply_launch_args(o, a + seq!["--app-path"@, v]).app_dir == Some(
            trim(v),
        ),
        parse_u16_spec(v) matches Some(p) ==> apply_launch_args(
            o,
            a + seq!["--debug-port"@, v],
        ).debug_port == p,
        parse_u16_spec(v) matches Some(p) ==> apply_launch_args(
            o,
            a + seq!["--helper-port"@, v],
        ).helper_port == p,
        apply_launch_args(o, a + seq!["--app-path"@, v]).debug_port == apply_launch_args(
            o,
            a,
        ).debug_port,
        apply_launch_args(o, a + seq!["--debug-port"@, v]).app_dir == apply_launch_args(
            o,
            a,
        ).app_dir,
        trim(v).len() == 0 ==> apply_launch_args(o, a + seq!["--app-path"@, v])
            == apply_launch_args(o, a),
        parse_u16_spec(v) is None ==> apply_launch_args(o, a + seq!["--debug-port"@, v])
            == apply_launch_args(o, a),
        parse_u16_spec(v) is None ==> apply_launch_args(o, a + seq!["--helper-port"@, v])
            == apply_launch_args(o, a),
{
    reveal_strlit("--app-path");
    reveal_strlit("--debug-port");
    reveal_strlit("--helper-port");
    let m = apply_launch_args(o, a);
    lemma_apply_launch_args_append(o, a, seq!["--app-path"@, v]);
    lemma_apply_launch_args_append(o, a, seq!["--debug-port"@, v]);
    lemma_apply_launch_args_append(o, a, seq!["--helper-port"@, v]);
    assert("--app-path"@.len() != "--debug-port"@.len());
    assert("--app-path"@.len() != "--helper-port"@.len());
    assert("--debug-port"@.len() != "--helper-port"@.len());
    let b1 = seq!["--app-path"@, v];
    assert(b1.skip(2) =~= Seq::<Seq<char>>::empty());
    let n1 = if trim(v).len() > 0 {
        LaunchOptionsView { app_dir: Some(trim(v)), ..m }
    } else {
        m
    };
    assert(apply_launch_args(n1, b1.skip(2)) == n1);
    assert(apply_launch_args(m, b1) == n1);
    let b2 = seq!["--debug-port"@, v];
    assert(b2.skip(2) =~= Seq::<Seq<char>>::empty());
    let n2 = match parse_u16_spec(v) {
        Some(p) => LaunchOptionsView { debug_port: p, ..m },
        None => m,
    };
    assert(apply_launch_args(n2, b2.skip(2)) == n2);
    assert(apply_launch_args(m, b2) == n2);
    let b3 = seq!["--helper-port"@, v];
    assert(b3.skip(2) =~= Seq::<Seq<char>>::empty());
    let n3 = match parse_u16_spec(v) {
        Some(p) => LaunchOptionsView { helper_port: p, ..m },
        None => m,
    };
    assert(apply_launch_args(n3, b3.skip(2)) == n3);
    assert(apply_launch_args(m, b3) == n3);
}

/// The last-wins rule for a whole argument list that ends with an option
/// and its value.
proof fn lemma_last_launch_option_in(all: Seq<Seq<char>>)
    ensures
        all.len() >= 2 && args_consumed(all.take(all.len() - 2)) ==> {
            let v = all[all.len() - 1];
            let res = apply_launch_args(default_launch_options(), all);
            &&& all[all.len() - 2] == "--app-path"@ && trim(v).len() > 0 ==> res.app_dir == Some(
                trim(v),
            )
            &&& all[all.len() - 2] == "--debug-port"@ && parse_u16_spec(v) is Some
                ==> res.debug_port == parse_u16_spec(v)->0
            &&& all[all.len() - 2] == "--helper-port"@ && parse_u16_spec(v) is Some
                ==> res.helper_port == parse_u16_spec(v)->0
        },
{
    if all.len() >= 2 && args_consumed(all.take(all.len() - 2)) {
        let a = all.take(all.len() - 2);
        let v = all[all.len() - 1];
        lemma_last_launch_option_wins(default_launch_options(), a, v);
        if all[all.len() - 2] == "--app-path"@ {
            assert(all =~= a + seq!["--app-path"@, v]);
        }
        if all[all.len() - 2] == "--debug-port"@ {
            assert(all =~= a + seq!["--debug-port"@, v]);
        }
        if all[all.len() - 2] == "--helper-port"@ {
            assert(all =~= a + seq!["--helper-port"@, v]);
        }
    }
}

/// The text of each argument.
pub open spec fn arg_texts(args: Seq<&str>) -> Seq<Seq<char>> {
    args.map_values(|a: &str| a@)
}

fn parse_port(s: &str) -> (r: Option<u16>)
    ensures
        r == parse_u16_spec(s@),
{
    let c = chars_of(s);
    assert(c@.subrange(0, c.len() as int) =~= c@);
    parse_u16(&c, 0, c.len())
}

/// Reads the launch options that the manager forwards on the command line,
/// starting from the defaults.
pub fn parse_launch_options(args: &[&str]) -> (r: LaunchOptions)
    ensures
        r@ == apply_launch_args(default_launch_options(), arg_texts(args@)),
        args@.len() >= 2 && args_consumed(arg_texts(args@).take(args@.len() - 2))
            && args@[args@.len() - 2]@ == "--app-path"@ && trim(args@[args@.len() - 1]@).len() > 0
            ==> r@.app_dir == Some(trim(args@[args@.len() - 1]@)),
        args@.len() >= 2 && args_consumed(arg_texts(args@).take(args@.len() - 2))
            && args@[args@.len() - 2]@ == "--debug-port"@ && parse_u16_spec(
            args@[args@.len() - 1]@,
        ) is Some ==> r@.debug_port == parse_u16_spec(args@[args@.len() - 1]@)->0,
        args@.len() >= 2 && args_consumed(arg_texts(args@).take(args@.len() - 2))
            && args@[args@.len() - 2]@ == "--helper-port"@ && parse_u16_spec(
            args@[args@.len() - 1]@,
        ) is Some ==> r@.helper_port == parse_u16_spec(args@[args@.len() - 1]@)->0,
{
    let ghost all = arg_texts(args@);
    proof {
        lemma_last_launch_option_in(all);
        if args@.len() >= 2 {
            assert(all[all.len() - 1] == args@[args@.len() - 1]@);
            assert(all[all.len() - 2] == args@[args@.len() - 2]@);
        }
    }
    let mut options = LaunchOptions::default();
    let mut i: usize = 0;
    assert(all.skip(0) =~= all);
    while i < args.len()
        invariant
            i <= args.len(),
            all == arg_texts(args@),
            all.len() == args@.len(),
            apply_launch_args(options@, all.skip(i as int)) == apply_launch_args(
                default_launch_options(),
                all,
            ),
        decreases args.len() - i,
    {
        let ghost rest = all.skip(i as int);
        assert(rest[0] == args@[i as int]@);
        let arg = args[i];
        let is_app = str_eq(arg, "--app-path");
        let is_debug = str_eq(arg, "--debug-port");
        let is_helper = str_eq(arg, "--helper-port");
        if is_app || is_debug || is_helper {
            if i + 1 >= args.len() {
                proof {
                    lemma_last_launch_option_in(all);
                    if args@.len() >= 2 {
                        assert(all[all.len() - 1] == args@[args@.len() - 1]@);
                        assert(all[all.len() - 2] == args@[args@.len() - 2]@);
                    }
                }
                return options;
            }
            let value = args[i + 1];
            assert(rest[1] == args@[i + 1]@);
            if is_app {
                let v = trimmed_string(value);
                if v.as_str().unicode_len() > 0 {
                    options.app_dir = Some(v);
                }
            } else if is_debug {
                if let Some(p) = parse_port(value) {
                    options.debug_port = p;
                }
            } else {
                if let Some(p) = parse_port(value) {
                    options.helper_port = p;
                }
            }
            assert(rest.skip(2) =~= all.skip(i + 2));
            i = i + 2;
        } else {
            assert(rest.skip(1) =~= all.skip(i + 1));
            i = i + 1;
        }
    }
    assert(all.skip(i as int) =~= Seq::<Seq<char>>::empty());
    options
}

/// Why taking the launcher's single-instance guard failed.
#[derive(Debug, Clone, Copy, PartialEq, Eq, Structural)]
pub enum GuardErrorKind {
    /// The guard's lock file is held by another process.
    WouldBlock,
    /// The guard's port is bound by another process.
    AddrInUse,
    /// Anything else.
    Other,
}

/// Whether the failure means that another launcher holds the guard.
pub open spec fn is_conflict(kind: GuardErrorKind) -> bool {
    kind == GuardErrorKind::WouldBlock || kind == GuardErrorKind::AddrInUse
}

/// Whether to stop a stale launcher and try the guard once more: only on a
/// conflict, only while stale recovery is allowed, and only when the holder
/// looks stale.
pub fn should_retry_stale_launcher_guard(
    error_kind: GuardErrorKind,
    allow_stale_recovery: bool,
    stale_launcher: bool,
) -> (b: bool)
    ensures
        b == (allow_stale_recovery && stale_launcher && is_conflict(error_kind)),
{
    allow_stale_recovery && stale_launcher && (error_kind == GuardErrorKind::WouldBlock
        || error_kind == GuardErrorKind::AddrInUse)
}

/// What the launcher does when the guard cannot be taken.
#[derive(Debug, Clone, Copy, PartialEq, Eq, Structural)]
pub enum GuardFailureAction {
    /// Stop the stale launcher, then try the guard again without recovery.
    StopStaleAndRetry,
    /// Another live instance holds the guard: hand over to it.
    UseExistingInstance,
    /// Report the error.
    Fail,
}

/// The launcher's answer to a failed attempt at the guard. `stale_launcher`
/// is whether the holder looks stale; it is only consulted on a conflict.
pub fn guard_failure_action(
    error_kind: GuardErrorKind,
    allow_stale_recovery: bool,
    stale_launcher: bool,
) -> (r: GuardFailureAction)
    ensures
        !is_conflict(error_kind) ==> r == GuardFailureAction::Fail,
        is_conflict(error_kind) && allow_stale_recovery && stale_launcher ==> r
            == GuardFailureAction::StopStaleAndRetry,
        is_conflict(error_kind) && !(allow_stale_recovery && stale_launcher) ==> r
            == GuardFailureAction::UseExistingInstance,
{
    if !(error_kind == GuardErrorKind::WouldBlock || error_kind == GuardErrorKind::AddrInUse) {
        GuardFailureAction::Fail
    } else if should_retry_stale_launcher_guard(error_kind, allow_stale_recovery, stale_launcher) {
        GuardFailureAction::StopStaleAndRetry
    } else {
        GuardFailureAction::UseExistingInstance
    }
}

/// The launcher's next move after attempt number `attempt` (from one) at
/// the single-instance guard.
#[derive(Debug)]
pub enum GuardDecision {
    /// The guard is taken: go on with the launch.
    Acquired,
    /// Another launcher holds the guard: find out whether it is stale.
    CheckStale,
    /// Stop the stale launcher, pause, and make the next attempt.
    StopStaleAndRetry,
    /// A live launcher holds the guard: hand over to it.
    UseExistingInstance,
    /// Fail with this message, the guard error as its cause.
    Fail(String),
}

/// The message of a guard failure that is not a conflict.
pub open spec fn guard_failure_message(guard_port: u16) -> Seq<char> {
    "failed to acquire launcher guard port "@ + decimal(guard_port as nat)
}

/// The decision after an attempt at the guard on `guard_port`: `outcome`
/// is `None` where it was taken, else why not; `stale_launcher` is whether
/// the holder looks stale, once that was checked. Stale recovery is
/// allowed on the first attempt only, so there are at most two attempts;
/// a conflict is looked into only then, and any other error fails with
/// the guard's port in its message.
pub fn guard_attempt_next(
    attempt: u32,
    outcome: Option<GuardErrorKind>,
    stale_launcher: Option<bool>,
    guard_port: u16,
) -> (r: GuardDecision)
    requires
        attempt >= 1,
    ensures
        outcome is None ==> r is Acquired,
        outcome matches Some(k) && !is_conflict(k) ==> (r matches GuardDecision::Fail(m) && m@
            == guard_failure_message(guard_port)),
        outcome matches Some(k) && is_conflict(k) ==> (if attempt == 1 {
            match stale_launcher {
                None => r is CheckStale,
                Some(true) => r is StopStaleAndRetry,
                Some(false) => r is UseExistingInstance,
            }
        } else {
            r is UseExistingInstance
        }),
        r is StopStaleAndRetry || r is CheckStale ==> attempt == 1,
{
    match outcome {
        None => GuardDecision::Acquired,
        Some(kind) => {
            let allow = attempt == 1;
            match stale_launcher {
                None if allow && (kind == GuardErrorKind::WouldBlock || kind
                    == GuardErrorKind::AddrInUse) => GuardDecision::CheckStale,
                _ => {
                    let stale = match stale_launcher {
                        Some(b) => b,
                        None => false,
                    };
                    match guard_failure_action(kind, allow, stale) {
                        GuardFailureAction::StopStaleAndRetry => GuardDecision::StopStaleAndRetry,
                        GuardFailureAction::UseExistingInstance => {
                            GuardDecision::UseExistingInstance
                        },
                        GuardFailureAction::Fail => {
                            let mut m = String::from_str("failed to acquire launcher guard port ");
                            push_decimal(&mut m, guard_port);
                            GuardDecision::Fail(m)
                        },
                    }
                },
            }
        },
    }
}

/// Pending Remote Control recoveries are finalized only when there are some
/// and no process blocks the session-index cleanup.
pub open spec fn should_finalize_spec(has_pending_recovery: bool, blocking: nat) -> bool {
    has_pending_recovery && blocking == 0
}

pub fn should_finalize_pending_remote_control_recovery(
    has_pending_recovery: bool,
    blocking_process_ids: &[u32],
) -> (b: bool)
    ensures
        b == should_finalize_spec(has_pending_recovery, blocking_process_ids@.len()),
{
    has_pending_recovery && blocking_process_ids.len() == 0
}

/// A step of the installed launcher when another live launcher holds the
/// guard.
#[derive(Debug, Clone, Copy, PartialEq, Eq, Structural)]
pub enum ExistingInstanceStep {
    /// Finish the pending Remote Control recoveries.
    RunPendingRecovery,
    /// Record that the pending recoveries wait for the blocking processes.
    LogDeferredRecovery,
    /// Launch Codex against the running instance, which brings it forward.
    LaunchExisting,
}

/// What the installed launcher does next while activating the existing
/// instance.
#[derive(Debug, Clone, Copy, PartialEq, Eq, Structural)]
pub enum ExistingInstanceNext {
    /// Perform this step, then report whether it succeeded.
    Run(ExistingInstanceStep),
    /// The activation is over: it succeeded, or it returns the error of
    /// the step that failed.
    Finished(bool),
}

/// The next move of the installed launcher activating the existing
/// instance, after `last` (the step just performed and whether it
/// succeeded; `None` at the start). Pending recoveries are finished first
/// when nothing blocks them, or deferred with a log entry (whose failure is
/// ignored) when something does; Codex is launched last, and the
/// activation's result is the launch's. A failed recovery ends the
/// activation with its error, without launching. The relay settings are
/// never written and the helper is never started.
pub fn existing_instance_next(
    has_pending_recovery: bool,
    blocking_process_ids: &[u32],
    last: Option<(ExistingInstanceStep, bool)>,
) -> (r: ExistingInstanceNext)
    ensures
        r == (match last {
            None => if should_finalize_spec(has_pending_recovery, blocking_process_ids@.len()) {
                ExistingInstanceNext::Run(ExistingInstanceStep::RunPendingRecovery)
            } else if has_pending_recovery {
                ExistingInstanceNext::Run(ExistingInstanceStep::LogDeferredRecovery)
            } else {
                ExistingInstanceNext::Run(ExistingInstanceStep::LaunchExisting)
            },
            Some((ExistingInstanceStep::RunPendingRecovery, ok)) => if ok {
                ExistingInstanceNext::Run(ExistingInstanceStep::LaunchExisting)
            } else {
                ExistingInstanceNext::Finished(false)
            },
            Some((ExistingInstanceStep::LogDeferredRecovery, _)) => ExistingInstanceNext::Run(
                ExistingInstanceStep::LaunchExisting,
            ),
            Some((ExistingInstanceStep::LaunchExisting, ok)) => ExistingInstanceNext::Finished(ok),
        }),
        last == Some((ExistingInstanceStep::RunPendingRecovery, false)) ==> r
            == ExistingInstanceNext::Finished(false),
        last matches Some((ExistingInstanceStep::LaunchExisting, ok)) ==> r
            == ExistingInstanceNext::Finished(ok),
{
    match last {
        None => {
            if should_finalize_pending_remote_control_recovery(
                has_pending_recovery,
                blocking_process_ids,
            ) {
                ExistingInstanceNext::Run(ExistingInstanceStep::RunPendingRecovery)
            } else if has_pending_recovery {
                ExistingInstanceNext::Run(ExistingInstanceStep::LogDeferredRecovery)
            } else {
                ExistingInstanceNext::Run(ExistingInstanceStep::LaunchExisting)
            }
        },
        Some((ExistingInstanceStep::RunPendingRecovery, ok)) => {
            if ok {
                ExistingInstanceNext::Run(ExistingInstanceStep::LaunchExisting)
            } else {
                ExistingInstanceNext::Finished(false)
            }
        },
        Some((ExistingInstanceStep::LogDeferredRecovery, _)) => ExistingInstanceNext::Run(
            ExistingInstanceStep::LaunchExisting,
        ),
        Some((ExistingInstanceStep::LaunchExisting, ok)) => ExistingInstanceNext::Finished(ok),
    }
}

/// Whether the command line asks for the configuration dialog: some
/// argument, trimmed, is `--config` or `--settings`.
pub fn wants_config_dialog(args: &[&str]) -> (b: bool)
    ensures
        b == exists|i: int|
            0 <= i < args@.len() && (trim(#[trigger] args@[i]@) == "--config"@ || trim(args@[i]@)
                == "--settings"@),
{
    let mut i: usize = 0;
    while i < args.len()
        invariant
            i <= args.len(),
            forall|j: int|
                0 <= j < i ==> !(trim(#[trigger] args@[j]@) == "--config"@ || trim(args@[j]@)
                    == "--settings"@),
        decreases args.len() - i,
    {
        let arg = trimmed_string(args[i]);
        if str_eq(arg.as_str(), "--config") || str_eq(arg.as_str(), "--settings") {
            return true;
        }
        i = i + 1;
    }
    false
}

/// Whether the portable launcher can start at once, without the dialog:
/// the config is complete and the dialog was not asked for.
pub fn launches_without_dialog(config: &PortableConfig, force_config: bool) -> (b: bool)
    ensures
        b == (config_is_complete(config@) && !force_config),
{
    config.is_complete() && !force_config
}

/// Why the portable launcher cannot start.
#[derive(Debug, Clone, Copy, PartialEq, Eq, Structural)]
pub enum PortableLaunchError {
    /// No Codex App path is configured and none is installed.
    AppNotFound,
}

impl PortableLaunchError {
    /// The message shown to the user.
    pub fn message(&self) -> (r: String)
        ensures
            r@ == "未找到已安装的 ChatGPT App，请运行 `chatgpt-launcher --config` 手动选择安装路径"@,
    {
        String::from_str(
            "未找到已安装的 ChatGPT App，请运行 `chatgpt-launcher --config` 手动选择安装路径",
        )
    }
}

impl PortableConfig {
    /// Whether no Codex App path is configured (it is blank).
    pub fn lacks_app_dir(&self) -> (b: bool)
        ensures
            b == (trim(self@.codex_app_dir).len() == 0),
    {
        let t = trimmed_string(self.codex_app_dir.as_str());
        t.as_str().unicode_len() == 0
    }

    /// Fills a blank Codex App path with `default_dir`, where there is one.
    pub fn prefill_app_dir(&mut self, default_dir: Option<String>)
        ensures
            final(self)@ == (if trim(old(self)@.codex_app_dir).len() == 0 && default_dir is Some {
                PortableConfigView { codex_app_dir: default_dir->0@, ..old(self)@ }
            } else {
                old(self)@
            }),
    {
        if self.lacks_app_dir() {
            if let Some(d) = default_dir {
                self.codex_app_dir = d;
            }
        }
    }

    /// The Codex App directory to launch: the configured one as written, or,
    /// where it is blank, the platform's default, or an error without one.
    pub fn launch_app_dir(&self, platform_default: Option<String>) -> (r: Result<
        String,
        PortableLaunchError,
    >)
        ensures
            trim(self@.codex_app_dir).len() > 0 ==> (r matches Ok(d) && d@ == self@.codex_app_dir),
            trim(self@.codex_app_dir).len() == 0 ==> match platform_default {
                Some(p) => (r matches Ok(d) && d@ == p@),
                None => r == Err::<String, PortableLaunchError>(PortableLaunchError::AppNotFound),
            },
    {
        if self.lacks_app_dir() {
            match platform_default {
                Some(p) => Ok(p),
                None => Err(PortableLaunchError::AppNotFound),
            }
        } else {
            Ok(self.codex_app_dir.clone())
        }
    }
}

} // verus!
