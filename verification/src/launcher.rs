//! The launcher's own services: the runtime service behind the bridge, the
//! data service's database paths, the user-script locations, and the hooks
//! that wire them together.

use vstd::prelude::*;

use crate::paths::{join, parent, path_eq, path_join, path_parent, same_path};
use crate::text::{trim, trimmed_string};

verus! {

/// The texts of a list of strings.
pub open spec fn texts(v: Seq<String>) -> Seq<Seq<char>> {
    v.map_values(|s: String| s@)
}

/// A copy of a list of strings.
pub fn copy_strings(v: &Vec<String>) -> (r: Vec<String>)
    ensures
        texts(r@) == texts(v@),
{
    let mut r: Vec<String> = Vec::new();
    let mut i: usize = 0;
    while i < v.len()
        invariant
            i <= v.len(),
            r.len() == i,
            forall|j: int| 0 <= j < i ==> (#[trigger] r@[j])@ == v@[j]@,
        decreases v.len() - i,
    {
        let c = v[i].clone();
        assert(c@ == v@[i as int]@);
        let ghost before = r@;
        r.push(c);
        assert(r@ == before.push(c));
        i = i + 1;
    }
    assert(texts(r@) =~= texts(v@));
    r
}

/// Where the user scripts live: the scripts shipped with the launcher, the
/// user's own scripts, and the file that records which are enabled.
#[derive(Debug)]
pub struct UserScriptManager {
    pub builtin_dir: String,
    pub scripts_dir: String,
    pub settings_path: String,
}

impl UserScriptManager {
    pub fn new(builtin_dir: String, scripts_dir: String, settings_path: String) -> (r:
        UserScriptManager)
        ensures
            r.builtin_dir == builtin_dir,
            r.scripts_dir == scripts_dir,
            r.settings_path == settings_path,
    {
        UserScriptManager { builtin_dir, scripts_dir, settings_path }
    }
}

/// The scripts shipped with the launcher: `user_scripts` next to the
/// executable `exe`, or `user_scripts` itself where that is unknown.
pub fn builtin_user_scripts_dir(exe: Option<&str>) -> (r: String)
    ensures
        r@ == match exe {
            Some(e) => match path_parent(e@) {
                Some(p) => path_join(p, "user_scripts"@),
                None => "user_scripts"@,
            },
            None => "user_scripts"@,
        },
{
    match exe {
        Some(e) => match parent(e) {
            Some(p) => join(p.as_str(), "user_scripts"),
            None => String::from_str("user_scripts"),
        },
        None => String::from_str("user_scripts"),
    }
}

/// The directory of the user-script settings, `Codex++` under: on Windows,
/// `%APPDATA%` where set, else `AppData/Roaming` in the home directory where
/// known; otherwise `$XDG_CONFIG_HOME` where set, else `.config` in the home
/// directory where known, else `.config`.
pub fn default_user_scripts_config_dir(
    on_windows: bool,
    appdata: Option<&str>,
    home: Option<&str>,
    xdg_config_home: Option<&str>,
) -> (r: String)
    ensures
        r@ == (if on_windows && appdata is Some {
            path_join(appdata->0@, "Codex++"@)
        } else if on_windows && home is Some {
            path_join(
                path_join(path_join(home->0@, "AppData"@), "Roaming"@),
                "Codex++"@,
            )
        } else {
            path_join(
                match xdg_config_home {
                    Some(x) => x@,
                    None => match home {
                        Some(h) => path_join(h@, ".config"@),
                        None => ".config"@,
                    },
                },
                "Codex++"@,
            )
        }),
{
    if on_windows {
        if let Some(roaming) = appdata {
            return join(roaming, "Codex++");
        }
        if let Some(h) = home {
            let a = join(h, "AppData");
            let b = join(a.as_str(), "Roaming");
            return join(b.as_str(), "Codex++");
        }
    }
    let base = match xdg_config_home {
        Some(x) => String::from_str(x),
        None => match home {
            Some(h) => join(h, ".config"),
            None => String::from_str(".config"),
        },
    };
    join(base.as_str(), "Codex++")
}

/// The user-script locations for the settings directory `config_dir`:
/// `user_scripts` and `user_scripts.json` in it, and `builtin_dir`.
pub fn default_user_script_manager(config_dir: &str, builtin_dir: String) -> (r:
    UserScriptManager)
    ensures
        r.builtin_dir == builtin_dir,
        r.scripts_dir@ == path_join(config_dir@, "user_scripts"@),
        r.settings_path@ == path_join(config_dir@, "user_scripts.json"@),
{
    UserScriptManager::new(
        builtin_dir,
        join(config_dir, "user_scripts"),
        join(config_dir, "user_scripts.json"),
    )
}

/// How the manager app is started.
#[derive(Debug)]
pub enum ManagerLaunch {
    /// Open the manager, or bring a running one to the front.
    OpenOrActivate,
    /// Start a companion manager process with these arguments.
    Spawn(Vec<String>),
}

/// The launcher's runtime state behind the bridge.
#[derive(Debug)]
pub struct LauncherRuntimeService {
    pub debug_port: u16,
    pub websocket_url: Option<String>,
    pub user_scripts: UserScriptManager,
    pub manager_launch_args: Vec<String>,
}

impl LauncherRuntimeService {
    pub fn new(
        debug_port: u16,
        user_scripts: UserScriptManager,
        manager_launch_args: Vec<String>,
    ) -> (r: LauncherRuntimeService)
        ensures
            r.debug_port == debug_port,
            r.websocket_url is None,
            r.user_scripts == user_scripts,
            r.manager_launch_args == manager_launch_args,
    {
        LauncherRuntimeService { debug_port, websocket_url: None, user_scripts, manager_launch_args }
    }

    pub fn set_debug_port(&mut self, debug_port: u16)
        ensures
            final(self).debug_port == debug_port,
            final(self).websocket_url == old(self).websocket_url,
            final(self).user_scripts == old(self).user_scripts,
            final(self).manager_launch_args == old(self).manager_launch_args,
    {
        self.debug_port = debug_port;
    }

    pub fn set_websocket_url(&mut self, websocket_url: &str)
        ensures
            final(self).websocket_url matches Some(u) && u@ == websocket_url@,
            final(self).debug_port == old(self).debug_port,
            final(self).user_scripts == old(self).user_scripts,
            final(self).manager_launch_args == old(self).manager_launch_args,
    {
        self.websocket_url = Some(String::from_str(websocket_url));
    }

    /// Records the page that the bridge is installed into: the websocket
    /// URL of the chosen debugger target. A target without one is an error
    /// that leaves the runtime as it was, and nothing is installed.
    pub fn record_injection_target(&mut self, websocket_url: Option<&str>) -> (r: Result<
        (),
        InjectError,
    >)
        ensures
            r is Err <==> websocket_url is None,
            r is Err ==> r == Err::<(), InjectError>(InjectError::NoWebsocketUrl) && *final(self)
                == *old(self),
            websocket_url matches Some(u) ==> (final(self).websocket_url matches Some(w) && w@
                == u@) && final(self).debug_port == old(self).debug_port
                && final(self).user_scripts == old(self).user_scripts
                && final(self).manager_launch_args == old(self).manager_launch_args,
    {
        match websocket_url {
            None => Err(InjectError::NoWebsocketUrl),
            Some(u) => {
                self.set_websocket_url(u);
                Ok(())
            },
        }
    }

    /// How "open the manager" starts it: with no launch arguments, by
    /// opening or activating it; else as a companion with those arguments.
    pub fn manager_launch(&self) -> (r: ManagerLaunch)
        ensures
            self.manager_launch_args@.len() == 0 ==> r is OpenOrActivate,
            self.manager_launch_args@.len() > 0 ==> (r matches ManagerLaunch::Spawn(a) && texts(a@)
                == texts(self.manager_launch_args@)),
    {
        if self.manager_launch_args.len() == 0 {
            ManagerLaunch::OpenOrActivate
        } else {
            ManagerLaunch::Spawn(copy_strings(&self.manager_launch_args))
        }
    }

    /// The arguments of a transient manager: the launch arguments, then
    /// `--transient`.
    pub fn transient_manager_args(&self) -> (r: Vec<String>)
        ensures
            texts(r@) == texts(self.manager_launch_args@).push("--transient"@),
    {
        let mut r = copy_strings(&self.manager_launch_args);
        let ghost before = r@;
        r.push(String::from_str("--transient"));
        assert(texts(r@) =~= texts(before).push("--transient"@));
        r
    }

    /// The page to evaluate reloaded user scripts in: the known websocket
    /// URL, unless the enabled bundle is blank.
    pub fn reload_target(&self, bundle: &str) -> (r: Option<String>)
        ensures
            match r {
                Some(u) => trim(bundle@).len() > 0 && (self.websocket_url matches Some(w) && u@
                    == w@),
                None => trim(bundle@).len() == 0 || self.websocket_url is None,
            },
    {
        let t = trimmed_string(bundle);
        if t.as_str().unicode_len() == 0 {
            return None;
        }
        match &self.websocket_url {
            Some(w) => Some(w.clone()),
            None => None,
        }
    }
}

/// Why the bridge cannot be installed into the chosen page.
#[derive(Debug, Clone, Copy, PartialEq, Eq, Structural)]
pub enum InjectError {
    /// The chosen debugger target has no websocket URL.
    NoWebsocketUrl,
}

impl InjectError {
    pub fn message(&self) -> (r: String)
        ensures
            r@ == "selected CDP target has no websocket URL"@,
    {
        String::from_str("selected CDP target has no websocket URL")
    }
}

/// What opening the manager comes to, once its launch is over.
#[derive(Debug)]
pub enum ManagerOpenResult {
    /// The manager runs from `path`; the saved navigation stays for it.
    Opened(String),
    /// The launch failed: roll the saved navigation back, then report this
    /// error.
    RollBack(String),
}

/// The answer to a manager launch that gave `launch`: the manager's path,
/// or, on an error, a rollback of the saved navigation with the message
/// `启动管理工具失败：` and the error's text.
pub fn manager_open_result(launch: Result<String, String>) -> (r: ManagerOpenResult)
    ensures
        match launch {
            Ok(p) => r matches ManagerOpenResult::Opened(q) && q@ == p@,
            Err(e) => r matches ManagerOpenResult::RollBack(m) && m@ == "启动管理工具失败："@ + e@,
        },
{
    match launch {
        Ok(p) => ManagerOpenResult::Opened(p),
        Err(e) => ManagerOpenResult::RollBack(String::from_str("启动管理工具失败：").concat(e.as_str())),
    }
}

/// The scripts to install into new documents: the injection script, then
/// the user-script bundle where it is not empty.
pub fn new_document_scripts(script: String, user_bundle: String) -> (r: Vec<String>)
    ensures
        texts(r@) == (if user_bundle@.len() == 0 {
            seq![script@]
        } else {
            seq![script@, user_bundle@]
        }),
{
    let ghost s = script@;
    let ghost b = user_bundle@;
    let mut r: Vec<String> = Vec::new();
    let empty = user_bundle.as_str().unicode_len() == 0;
    r.push(script);
    if !empty {
        r.push(user_bundle);
    }
    assert(texts(r@) =~= (if b.len() == 0 {
        seq![s]
    } else {
        seq![s, b]
    }));
    r
}

/// How many times the launcher tries to install the bridge.
pub const INJECTION_ATTEMPTS: u32 = 20;

/// The pause after a failed attempt, in milliseconds.
pub const INJECTION_RETRY_DELAY_MS: u64 = 500;

/// After `failed_attempts` failed attempts (each followed by the pause),
/// whether to try again.
pub fn should_retry_injection(failed_attempts: u32) -> (b: bool)
    ensures
        b == (failed_attempts < INJECTION_ATTEMPTS),
{
    failed_attempts < INJECTION_ATTEMPTS
}

/// What the injection loop does once an attempt is over.
#[derive(Debug, Clone, Copy, PartialEq, Eq, Structural)]
pub enum InjectionNext {
    /// The bridge is installed: stop with success.
    Done,
    /// Pause for `INJECTION_RETRY_DELAY_MS`, then try again.
    PauseThenRetry,
    /// Pause for `INJECTION_RETRY_DELAY_MS`, then stop with the last error.
    PauseThenFail,
}

/// The injection loop's next move after attempt number `attempt` (from
/// one) succeeded or failed: every failure is followed by the pause, and
/// another attempt follows only while fewer than `INJECTION_ATTEMPTS` have
/// been made.
pub fn injection_next(attempt: u32, succeeded: bool) -> (r: InjectionNext)
    requires
        1 <= attempt <= INJECTION_ATTEMPTS,
    ensures
        r == (if succeeded {
            InjectionNext::Done
        } else if attempt < INJECTION_ATTEMPTS {
            InjectionNext::PauseThenRetry
        } else {
            InjectionNext::PauseThenFail
        }),
        r == InjectionNext::PauseThenRetry ==> attempt + 1 <= INJECTION_ATTEMPTS,
{
    if succeeded {
        InjectionNext::Done
    } else if should_retry_injection(attempt) {
        InjectionNext::PauseThenRetry
    } else {
        InjectionNext::PauseThenFail
    }
}

/// The number of injection attempts made, with `failed` made and failed
/// already, when attempt `i` (from zero) succeeds exactly where
/// `outcomes[i]` is true (past its end, attempts fail), and each failed
/// attempt is followed by another exactly where `injection_next` answers
/// `PauseThenRetry`.
pub open spec fn injection_attempts(outcomes: Seq<bool>, failed: nat) -> nat
    decreases INJECTION_ATTEMPTS - failed,
{
    if failed >= INJECTION_ATTEMPTS {
        failed
    } else if failed < outcomes.len() && outcomes[failed as int] {
        failed + 1
    } else if failed + 1 < INJECTION_ATTEMPTS {
        injection_attempts(outcomes, failed + 1)
    } else {
        failed + 1
    }
}

/// Injection is attempted at most `INJECTION_ATTEMPTS` times: it stops at
/// the first success, and after that many failures.
pub proof fn lemma_injection_attempts(outcomes: Seq<bool>, failed: nat)
    requires
        failed < INJECTION_ATTEMPTS,
    ensures
        failed < injection_attempts(outcomes, failed) <= INJECTION_ATTEMPTS,
        forall|i: int|
            failed <= i < injection_attempts(outcomes, failed) - 1 ==> !(i < outcomes.len()
                && #[trigger] outcomes[i]),
        injection_attempts(outcomes, failed) < INJECTION_ATTEMPTS ==> {
            let n = injection_attempts(outcomes, failed);
            n - 1 < outcomes.len() && outcomes[n - 1]
        },
    decreases INJECTION_ATTEMPTS - failed,
{
    if !(failed < outcomes.len() && outcomes[failed as int]) && failed + 1 < INJECTION_ATTEMPTS {
        lemma_injection_attempts(outcomes, failed + 1);
    }
}

/// The session databases and the backups of deleted sessions.
#[derive(Debug)]
pub struct LauncherDataService {
    pub db_path: String,
    pub backup_dir: String,
}

/// Whether some path in `ps` is the path `p`.
pub open spec fn has_path(ps: Seq<Seq<char>>, p: Seq<char>) -> bool {
    exists|j: int| 0 <= j < ps.len() && path_eq(#[trigger] ps[j], p)
}

/// `acc` followed by each path of `ps` that is not among those before it.
pub open spec fn append_new_paths(acc: Seq<Seq<char>>, ps: Seq<Seq<char>>) -> Seq<Seq<char>>
    decreases ps.len(),
{
    if ps.len() == 0 {
        acc
    } else {
        let a = append_new_paths(acc, ps.drop_last());
        if has_path(a, ps.last()) {
            a
        } else {
            a.push(ps.last())
        }
    }
}

/// Appending new paths keeps the list it starts from, in front: the
/// configured database stays the first candidate.
pub proof fn lemma_append_new_paths_keeps_prefix(acc: Seq<Seq<char>>, ps: Seq<Seq<char>>)
    ensures
        append_new_paths(acc, ps).len() >= acc.len(),
        append_new_paths(acc, ps).take(acc.len() as int) == acc,
    decreases ps.len(),
{
    if ps.len() > 0 {
        lemma_append_new_paths_keeps_prefix(acc, ps.drop_last());
        let a = append_new_paths(acc, ps.drop_last());
        assert(a.push(ps.last()).take(acc.len() as int) =~= a.take(acc.len() as int));
    } else {
        assert(acc.take(acc.len() as int) =~= acc);
    }
}

impl LauncherDataService {
    /// The data service with the database `db_path`, keeping backups in
    /// `backups` under the app-state directory `app_state_dir`.
    pub fn new(db_path: String, app_state_dir: &str) -> (r: LauncherDataService)
        ensures
            r.db_path == db_path,
            r.backup_dir@ == path_join(app_state_dir@, "backups"@),
    {
        LauncherDataService { db_path, backup_dir: join(app_state_dir, "backups") }
    }

    pub fn duplicate(&self) -> (r: LauncherDataService)
        ensures
            r == *self,
    {
        LauncherDataService { db_path: self.db_path.clone(), backup_dir: self.backup_dir.clone() }
    }

    /// The databases a session may live in: the configured one, then each
    /// of `home_db_paths` that is not already listed. The configured one
    /// comes first, and no path is listed twice.
    pub fn candidate_db_paths(&self, home_db_paths: &Vec<String>) -> (r: Vec<String>)
        ensures
            texts(r@) == append_new_paths(seq![self.db_path@], texts(home_db_paths@)),
            r@.len() >= 1,
            r@[0]@ == self.db_path@,
            forall|a: int, b: int|
                0 <= a < b < r@.len() ==> r@[a]@ != r@[b]@ && !path_eq(
                    #[trigger] r@[a]@,
                    #[trigger] r@[b]@,
                ),
    {
        let ghost hs = texts(home_db_paths@);
        let mut paths: Vec<String> = Vec::new();
        paths.push(self.db_path.clone());
        assert(texts(paths@) =~= seq![self.db_path@]);
        assert(hs.take(0) =~= Seq::<Seq<char>>::empty());
        let mut i: usize = 0;
        while i < home_db_paths.len()
            invariant
                i <= home_db_paths.len(),
                hs == texts(home_db_paths@),
                texts(paths@) == append_new_paths(seq![self.db_path@], hs.take(i as int)),
                paths@.len() >= 1,
                paths@[0]@ == self.db_path@,
                forall|a: int, b: int|
                    0 <= a < b < paths@.len() ==> paths@[a]@ != paths@[b]@ && !path_eq(
                        #[trigger] paths@[a]@,
                        #[trigger] paths@[b]@,
                    ),
            decreases home_db_paths.len() - i,
        {
            let path = &home_db_paths[i];
            let ghost cur = texts(paths@);
            let ghost before = paths@;
            let mut found = false;
            let mut k: usize = 0;
            while k < paths.len()
                invariant
                    k <= paths.len(),
                    cur == texts(paths@),
                    before == paths@,
                    !found ==> forall|j: int|
                        0 <= j < k ==> !path_eq(#[trigger] cur[j], path@) && cur[j] != path@,
                    found ==> has_path(cur, path@),
                decreases paths.len() - k,
            {
                if !found && same_path(paths[k].as_str(), path.as_str()) {
                    assert(cur[k as int] == paths@[k as int]@);
                    found = true;
                } else if !found {
                    assert(cur[k as int] == paths@[k as int]@);
                }
                k = k + 1;
            }
            assert(hs.take(i + 1).drop_last() =~= hs.take(i as int));
            assert(hs.take(i + 1).last() == path@);
            if !found {
                assert forall|j: int| 0 <= j < cur.len() implies !path_eq(#[trigger] cur[j], path@) by {
                }
                paths.push(path.clone());
                assert(texts(paths@) =~= cur.push(path@));
                assert forall|a: int, b: int| 0 <= a < b < paths@.len() implies paths@[a]@
                    != paths@[b]@ && !path_eq(#[trigger] paths@[a]@, #[trigger] paths@[b]@) by {
                    if b < before.len() {
                        assert(paths@[a] == before[a]);
                        assert(paths@[b] == before[b]);
                    } else {
                        assert(paths@[a]@ == cur[a]);
                        assert(paths@[b]@ == path@);
                    }
                }
            }
            i = i + 1;
        }
        assert(hs.take(home_db_paths.len() as int) =~= hs);
        paths
    }
}

/// The bridge's view of the running Codex: the app directory, the debug
/// port at the time, and the data service.
#[derive(Debug)]
pub struct BridgeContext {
    pub app_dir: String,
    pub debug_port: u16,
    pub data: LauncherDataService,
}

/// Why the hooks cannot act.
#[derive(Debug, Clone, Copy, PartialEq, Eq, Structural)]
pub enum HooksError {
    /// The bridge context has not been set up yet.
    BridgeContextNotInitialized,
}

impl HooksError {
    pub fn message(&self) -> (r: String)
        ensures
            r@ == "bridge context is not initialized"@,
    {
        String::from_str("bridge context is not initialized")
    }
}

/// The launcher's hooks: its data and runtime services, and the bridge
/// context once the bridge is set up.
#[derive(Debug)]
pub struct LauncherHooks {
    pub data: LauncherDataService,
    pub runtime: LauncherRuntimeService,
    pub bridge_context: Option<BridgeContext>,
}

/// The manager's arguments in the portable build: the skin screen only.
pub open spec fn portable_manager_args() -> Seq<Seq<char>> {
    seq!["--skin-only"@]
}

impl LauncherHooks {
    /// The installed launcher's wiring: debug port 9229, no manager
    /// arguments, no bridge context yet.
    pub fn installed(user_scripts: UserScriptManager, data: LauncherDataService) -> (r:
        LauncherHooks)
        ensures
            r.data == data,
            r.runtime.debug_port == 9229,
            r.runtime.websocket_url is None,
            r.runtime.user_scripts == user_scripts,
            r.runtime.manager_launch_args@.len() == 0,
            r.bridge_context is None,
    {
        LauncherHooks {
            data,
            runtime: LauncherRuntimeService::new(9229, user_scripts, Vec::new()),
            bridge_context: None,
        }
    }

    /// Same wiring as `installed`, except that the manager is started on
    /// its skin screen only (`--skin-only`).
    pub fn portable(user_scripts: UserScriptManager, data: LauncherDataService) -> (r:
        LauncherHooks)
        ensures
            r.data == data,
            r.runtime.debug_port == 9229,
            r.runtime.websocket_url is None,
            r.runtime.user_scripts == user_scripts,
            texts(r.runtime.manager_launch_args@) == portable_manager_args(),
            r.bridge_context is None,
    {
        let mut args: Vec<String> = Vec::new();
        args.push(String::from_str("--skin-only"));
        assert(texts(args@) =~= portable_manager_args());
        LauncherHooks {
            data,
            runtime: LauncherRuntimeService::new(9229, user_scripts, args),
            bridge_context: None,
        }
    }

    /// Sets up the bridge for Codex on `debug_port` with the app in
    /// `app_dir`: records the port in the runtime and keeps the context for
    /// the watchdog, returning a copy of it.
    pub fn bridge_context(&mut self, debug_port: u16, app_dir: &str) -> (r: BridgeContext)
        ensures
            r.app_dir@ == app_dir@,
            r.debug_port == debug_port,
            r.data == old(self).data,
            final(self).runtime.debug_port == debug_port,
            final(self).runtime.websocket_url == old(self).runtime.websocket_url,
            final(self).runtime.manager_launch_args == old(self).runtime.manager_launch_args,
            final(self).runtime.user_scripts == old(self).runtime.user_scripts,
            final(self).data == old(self).data,
            final(self).bridge_context matches Some(c) && c.app_dir@ == app_dir@ && c.debug_port
                == debug_port && c.data == old(self).data,
    {
        self.runtime.set_debug_port(debug_port);
        let kept = BridgeContext {
            app_dir: String::from_str(app_dir),
            debug_port,
            data: self.data.duplicate(),
        };
        let ctx = BridgeContext {
            app_dir: String::from_str(app_dir),
            debug_port,
            data: self.data.duplicate(),
        };
        self.bridge_context = Some(kept);
        ctx
    }

    /// The bridge context that the watchdog reinjects with.
    pub fn watchdog_bridge_context(&self) -> (r: Result<BridgeContext, HooksError>)
        ensures
            match self.bridge_context {
                Some(c) => r matches Ok(d) && d.app_dir@ == c.app_dir@ && d.debug_port
                    == c.debug_port && d.data == c.data,
                None => r == Err::<BridgeContext, HooksError>(
                    HooksError::BridgeContextNotInitialized,
                ),
            },
    {
        match &self.bridge_context {
            Some(c) => Ok(
                BridgeContext {
                    app_dir: c.app_dir.clone(),
                    debug_port: c.debug_port,
                    data: c.data.duplicate(),
                },
            ),
            None => Err(HooksError::BridgeContextNotInitialized),
        }
    }
}

} // verus!
