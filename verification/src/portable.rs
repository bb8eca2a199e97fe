//! Portable-mode configuration: one `config.ini` next to the launcher, with
//! flat `key = value` pairs under a `[codex]` header.

use vstd::prelude::*;

use crate::ini::{
    ini_fold, ini_section_values, ini_step, is_key_char, is_plain_key, is_plain_value,
    lemma_split_lines_len, lemma_step_assignment, lemma_step_header,
    parse_ini_chars, split_lines, IniValues,
};
use crate::json::{
    is_json_plain, lemma_json_escaped_plain, pretty_single_entry_object,
    to_pretty_json_single_entry,
};
use crate::paths::{
    extension, file_name, is_plain_dir, is_plain_name, join, parent, path_extension,
    path_file_name, path_join, path_parent,
};
use crate::settings::{
    active_profile, first_with_id, BackendSettings, BackendSettingsView, RelayMode, RelayProfile,
    RelayProfileView, RelayProtocol,
};
use crate::text::{
    chars_of, decimal, is_digit, lemma_decimal_digits, lemma_parse_decimal,
    parse_u16, parse_u16_spec, push_char, push_decimal, trim, trimmed_range, trimmed_string,
    vec_from_range,
};

verus! {

/// The settings of a portable install.
#[derive(Debug, Clone, PartialEq, Eq)]
pub struct PortableConfig {
    pub api_base_url: String,
    pub api_key: String,
    pub model: String,
    pub provider_name: String,
    pub codex_app_dir: String,
    pub debug_port: u16,
    pub last_synced_hash: String,
}

/// A `PortableConfig` as plain values.
pub ghost struct PortableConfigView {
    pub api_base_url: Seq<char>,
    pub api_key: Seq<char>,
    pub model: Seq<char>,
    pub provider_name: Seq<char>,
    pub codex_app_dir: Seq<char>,
    pub debug_port: u16,
    pub last_synced_hash: Seq<char>,
}

impl View for PortableConfig {
    type V = PortableConfigView;

    open spec fn view(&self) -> PortableConfigView {
        PortableConfigView {
            api_base_url: self.api_base_url@,
            api_key: self.api_key@,
            model: self.model@,
            provider_name: self.provider_name@,
            codex_app_dir: self.codex_app_dir@,
            debug_port: self.debug_port,
            last_synced_hash: self.last_synced_hash@,
        }
    }
}

/// The settings used where `config.ini` is missing or says nothing.
pub open spec fn default_config() -> PortableConfigView {
    PortableConfigView {
        api_base_url: "https://sub2api.vx123.xin/v1"@,
        api_key: Seq::empty(),
        model: "gpt-5.5"@,
        provider_name: "custom"@,
        codex_app_dir: Seq::empty(),
        debug_port: 9229,
        last_synced_hash: Seq::empty(),
    }
}

/// The value that `m` gives for `key`, or `dflt`.
pub open spec fn value_or(m: Map<Seq<char>, Seq<char>>, key: Seq<char>, dflt: Seq<char>) -> Seq<
    char,
> {
    if m.contains_key(key) {
        m[key]
    } else {
        dflt
    }
}

/// The settings that the values of the `[codex]` section give: each key
/// present replaces the default; `debug_port` only where it reads as a port.
pub open spec fn config_from_values(m: Map<Seq<char>, Seq<char>>) -> PortableConfigView {
    let d = default_config();
    PortableConfigView {
        api_base_url: value_or(m, "api_base_url"@, d.api_base_url),
        api_key: value_or(m, "api_key"@, d.api_key),
        model: value_or(m, "model"@, d.model),
        provider_name: value_or(m, "provider_name"@, d.provider_name),
        codex_app_dir: value_or(m, "codex_app_dir"@, d.codex_app_dir),
        debug_port: if m.contains_key("debug_port"@) && parse_u16_spec(m["debug_port"@]) is Some {
            parse_u16_spec(m["debug_port"@])->0
        } else {
            d.debug_port
        },
        last_synced_hash: value_or(m, "last_synced_hash"@, d.last_synced_hash),
    }
}

/// `s` without the byte-order marks at its start.
pub open spec fn strip_boms(s: Seq<char>) -> Seq<char>
    decreases s.len(),
{
    if s.len() > 0 && s[0] == '\u{feff}' {
        strip_boms(s.drop_first())
    } else {
        s
    }
}

/// The settings that the text of a `config.ini` gives.
pub open spec fn config_from_text(text: Seq<char>) -> PortableConfigView {
    config_from_values(ini_section_values(strip_boms(text), "codex"@))
}

/// One `key = value` line, without its line break.
pub open spec fn ini_line(key: Seq<char>, value: Seq<char>) -> Seq<char> {
    key + " = "@ + value
}

/// The lines that saving writes, in order.
pub open spec fn config_lines(c: PortableConfigView) -> Seq<Seq<char>> {
    seq![
        "[codex]"@,
        ini_line("api_base_url"@, c.api_base_url),
        ini_line("api_key"@, c.api_key),
        ini_line("codex_app_dir"@, c.codex_app_dir),
        ini_line("model"@, c.model),
        ini_line("provider_name"@, c.provider_name),
        ini_line("debug_port"@, decimal(c.debug_port as nat)),
        ini_line("last_synced_hash"@, c.last_synced_hash),
    ]
}

/// Lines joined, each followed by a line break.
pub open spec fn lines_text(ls: Seq<Seq<char>>) -> Seq<char>
    decreases ls.len(),
{
    if ls.len() == 0 {
        Seq::empty()
    } else {
        lines_text(ls.drop_last()) + ls.last() + seq!['\n']
    }
}

/// If `exe` is `Foo.app/Contents/MacOS/exe`, the directory that holds
/// `Foo.app`; `None` for a loose executable.
pub open spec fn bundle_root(exe: Seq<char>) -> Option<Seq<char>> {
    match path_parent(exe) {
        None => None,
        Some(macos_dir) => match path_file_name(macos_dir) {
            Some(n) if n == "MacOS"@ => match path_parent(macos_dir) {
                None => None,
                Some(contents_dir) => match path_file_name(contents_dir) {
                    Some(m) if m == "Contents"@ => match path_parent(contents_dir) {
                        None => None,
                        Some(app_dir) => match path_extension(app_dir) {
                            Some(e) if e == "app"@ => path_parent(app_dir),
                            _ => None,
                        },
                    },
                    _ => None,
                },
            },
            _ => None,
        },
    }
}

/// The folder under the home directory that holds a portable install's
/// settings on macOS.
pub open spec fn macos_settings_dir(home: Seq<char>) -> Seq<char> {
    path_join(home, "Library/Application Support/ChatGPT Launcher"@)
}

/// The folder of a portable install. On macOS it is
/// `~/Library/Application Support/ChatGPT Launcher` in the home directory
/// `home`, which stays writable where a downloaded `.app` runs from a
/// read-only translocated mount. Elsewhere, and on macOS where the home
/// directory is unknown, it is the directory that holds the running
/// executable `exe` (on macOS, the one that holds its `.app` bundle), or `.`
/// where the executable's path is unknown.
pub open spec fn portable_root(exe: Option<Seq<char>>, home: Option<Seq<char>>, on_macos: bool) -> Seq<char> {
    if on_macos && home is Some {
        macos_settings_dir(home->0)
    } else {
        match exe {
            None => "."@,
            Some(e) => if on_macos && bundle_root(e) is Some {
                bundle_root(e)->0
            } else {
                match path_parent(e) {
                    Some(p) => p,
                    None => "."@,
                }
            },
        }
    }
}

/// The text of an optional string.
pub open spec fn opt_text(s: Option<&str>) -> Option<Seq<char>> {
    match s {
        Some(t) => Some(t@),
        None => None,
    }
}

/// If `exe` is `Foo.app/Contents/MacOS/exe`, returns the directory containing
/// `Foo.app`; `None` for a loose (non-bundled) executable.
pub fn macos_app_bundle_root(exe: &str) -> (r: Option<String>)
    ensures
        match r {
            Some(root) => bundle_root(exe@) == Some(root@),
            None => bundle_root(exe@) is None,
        },
{
    let macos_dir = match parent(exe) {
        Some(d) => d,
        None => return None,
    };
    match file_name(macos_dir.as_str()) {
        Some(n) => {
            if !crate::text::str_eq(n.as_str(), "MacOS") {
                return None;
            }
        },
        None => return None,
    }
    let contents_dir = match parent(macos_dir.as_str()) {
        Some(d) => d,
        None => return None,
    };
    match file_name(contents_dir.as_str()) {
        Some(n) => {
            if !crate::text::str_eq(n.as_str(), "Contents") {
                return None;
            }
        },
        None => return None,
    }
    let app_dir = match parent(contents_dir.as_str()) {
        Some(d) => d,
        None => return None,
    };
    match extension(app_dir.as_str()) {
        Some(e) => {
            if !crate::text::str_eq(e.as_str(), "app") {
                return None;
            }
        },
        None => return None,
    }
    parent(app_dir.as_str())
}

/// The folder of a portable install (see `portable_root`); `exe` is the path
/// of the running executable and `home` the user's home directory, where
/// known.
pub fn portable_root_dir(exe: Option<&str>, home: Option<&str>, on_macos: bool) -> (r: String)
    ensures
        r@ == portable_root(opt_text(exe), opt_text(home), on_macos),
        on_macos && home is Some && is_plain_dir(home->0@) ==> is_plain_dir(r@),
{
    if on_macos {
        if let Some(h) = home {
            proof {
                reveal_strlit("Library/Application Support/ChatGPT Launcher");
            }
            return join(h, "Library/Application Support/ChatGPT Launcher");
        }
    }
    match exe {
        None => String::from_str("."),
        Some(e) => {
            if on_macos {
                if let Some(root) = macos_app_bundle_root(e) {
                    return root;
                }
            }
            match parent(e) {
                Some(p) => p,
                None => String::from_str("."),
            }
        },
    }
}

/// The path of a portable install's `config.ini`: in the folder that
/// `portable_root` names (on macOS, under Application Support in the home
/// directory; elsewhere next to the executable).
pub fn default_portable_config_path(exe: Option<&str>, home: Option<&str>, on_macos: bool) -> (r:
    String)
    ensures
        r@ == path_join(portable_root(opt_text(exe), opt_text(home), on_macos), "config.ini"@),
        is_plain_dir(portable_root(opt_text(exe), opt_text(home), on_macos)) ==> path_parent(r@)
            == Some(portable_root(opt_text(exe), opt_text(home), on_macos)),
        path_file_name(r@) == Some("config.ini"@),
        on_macos && home is Some ==> r@ == path_join(
            path_join(home->0@, "Library/Application Support/ChatGPT Launcher"@),
            "config.ini"@,
        ),
        on_macos && home is Some && is_plain_dir(home->0@) ==> path_parent(r@) == Some(
            macos_settings_dir(home->0@),
        ),
{
    let root = portable_root_dir(exe, home, on_macos);
    proof {
        reveal_strlit("config.ini");
        assert(is_plain_name("config.ini"@));
    }
    join(root.as_str(), "config.ini")
}

/// Default bundled Codex App directory: `codex_app` in the portable folder,
/// beside `config.ini`.
pub fn default_portable_app_dir(exe: Option<&str>, home: Option<&str>, on_macos: bool) -> (r:
    String)
    ensures
        r@ == path_join(portable_root(opt_text(exe), opt_text(home), on_macos), "codex_app"@),
        is_plain_dir(portable_root(opt_text(exe), opt_text(home), on_macos)) ==> path_parent(r@)
            == Some(portable_root(opt_text(exe), opt_text(home), on_macos)),
        path_file_name(r@) == Some("codex_app"@),
        path_parent(r@) is Some && path_parent(r@) == path_parent(
            path_join(portable_root(opt_text(exe), opt_text(home), on_macos), "config.ini"@),
        ),
        on_macos && home is Some && is_plain_dir(home->0@) ==> path_parent(r@) == Some(
            macos_settings_dir(home->0@),
        ),
{
    let root = portable_root_dir(exe, home, on_macos);
    proof {
        assert(is_plain_name("config.ini"@)) by {
            reveal_strlit("config.ini");
        }
        assert(is_plain_name("codex_app"@)) by {
            reveal_strlit("codex_app");
        }
    }
    join(root.as_str(), "codex_app")
}

/// The text of `config.ini` that saving `c` writes.
pub open spec fn config_text(c: PortableConfigView) -> Seq<char> {
    lines_text(config_lines(c))
}

/// True when the relay connection has both a base URL and an API key.
pub open spec fn config_is_complete(c: PortableConfigView) -> bool {
    trim(c.api_base_url).len() > 0 && trim(c.api_key).len() > 0
}

/// Whether `s` has non-whitespace characters.
fn has_content(s: &str) -> (b: bool)
    ensures
        b == (trim(s@).len() > 0),
{
    let v = chars_of(s);
    let (a, b) = trimmed_range(&v, 0, v.len());
    assert(v@.subrange(0, v.len() as int) =~= v@);
    a < b
}

/// The `auth.json` text for a portable config: empty without an API key,
/// else the pretty-printed JSON object `{"OPENAI_API_KEY": <trimmed key>}`.
pub open spec fn portable_auth_contents(c: PortableConfigView) -> Seq<char> {
    if trim(c.api_key).len() == 0 {
        Seq::empty()
    } else {
        pretty_single_entry_object("OPENAI_API_KEY"@, trim(c.api_key))
    }
}

/// The single relay profile of a portable install, with the `auth.json`
/// text `auth`: id `portable`, the provider name, model and base URL of the
/// config, the pure-API mode, and no official-login mixing.
pub open spec fn portable_profile(c: PortableConfigView, auth: Seq<char>) -> RelayProfileView {
    RelayProfileView {
        id: "portable"@,
        name: c.provider_name,
        model: c.model,
        base_url: c.api_base_url,
        upstream_base_url: c.api_base_url,
        api_key: c.api_key,
        protocol: RelayProtocol::Responses,
        relay_mode: RelayMode::PureApi,
        official_mix_api_key: false,
        auth_contents: auth,
        config_contents: Seq::empty(),
    }
}

/// Backend settings whose only, active, enabled profile is the portable one.
pub open spec fn portable_backend_settings(c: PortableConfigView, auth: Seq<char>) -> BackendSettingsView {
    BackendSettingsView {
        codex_app_path: c.codex_app_dir,
        relay_profiles_enabled: true,
        active_relay_id: "portable"@,
        relay_profiles: seq![portable_profile(c, auth)],
    }
}

impl Default for PortableConfig {
    fn default() -> (r: PortableConfig)
        ensures
            r@ == default_config(),
    {
        PortableConfig {
            api_base_url: String::from_str("https://sub2api.vx123.xin/v1"),
            api_key: String::new(),
            model: String::from_str("gpt-5.5"),
            provider_name: String::from_str("custom"),
            codex_app_dir: String::new(),
            debug_port: 9229,
            last_synced_hash: String::new(),
        }
    }
}

impl PortableConfig {
    /// True when the required fields for a usable relay connection are present.
    pub fn is_complete(&self) -> (b: bool)
        ensures
            b == config_is_complete(self@),
    {
        has_content(self.api_base_url.as_str()) && has_content(self.api_key.as_str())
    }

    /// The settings that the configuration dialog saves: the five edited
    /// texts, with the debug port and last synced hash kept from `self`.
    pub fn with_edited_fields(
        &self,
        api_base_url: String,
        api_key: String,
        model: String,
        provider_name: String,
        codex_app_dir: String,
    ) -> (r: PortableConfig)
        ensures
            r@ == (PortableConfigView {
                api_base_url: api_base_url@,
                api_key: api_key@,
                model: model@,
                provider_name: provider_name@,
                codex_app_dir: codex_app_dir@,
                debug_port: self.debug_port,
                last_synced_hash: self.last_synced_hash@,
            }),
    {
        PortableConfig {
            api_base_url,
            api_key,
            model,
            provider_name,
            codex_app_dir,
            debug_port: self.debug_port,
            last_synced_hash: self.last_synced_hash.clone(),
        }
    }

    /// The settings that the values of a `[codex]` section give.
    pub fn from_values(values: &IniValues) -> (r: PortableConfig)
        ensures
            r@ == config_from_values(values.view()),
            !values.view().contains_key("api_base_url"@) ==> r@.api_base_url
                == "https://sub2api.vx123.xin/v1"@,
            !values.view().contains_key("model"@) ==> r@.model == "gpt-5.5"@,
            !values.view().contains_key("provider_name"@) ==> r@.provider_name == "custom"@,
            !values.view().contains_key("debug_port"@) ==> r@.debug_port == 9229,
    {
        proof {
            lemma_absent_keys_keep_defaults(values.view());
        }
        let mut config = PortableConfig::default();
        if let Some(v) = values.get("api_base_url") {
            config.api_base_url = v;
        }
        if let Some(v) = values.get("api_key") {
            config.api_key = v;
        }
        if let Some(v) = values.get("model") {
            config.model = v;
        }
        if let Some(v) = values.get("provider_name") {
            config.provider_name = v;
        }
        if let Some(v) = values.get("codex_app_dir") {
            config.codex_app_dir = v;
        }
        if let Some(v) = values.get("debug_port") {
            let c = chars_of(v.as_str());
            assert(c@.subrange(0, c.len() as int) =~= c@);
            if let Some(port) = parse_u16(&c, 0, c.len()) {
                config.debug_port = port;
            }
        }
        if let Some(v) = values.get("last_synced_hash") {
            config.last_synced_hash = v;
        }
        config
    }

    /// The settings in a `config.ini` whose text is `contents`, or the
    /// defaults where there is no readable file (`None`). Leading byte-order
    /// marks are skipped.
    pub fn load(contents: Option<&str>) -> (r: PortableConfig)
        ensures
            r@ == match contents {
                None => default_config(),
                Some(text) => config_from_text(text@),
            },
            (contents matches Some(text) && !ini_section_values(strip_boms(text@), "codex"@).contains_key(
                "api_base_url"@,
            )) ==> r@.api_base_url == "https://sub2api.vx123.xin/v1"@,
            contents is None ==> r@.api_base_url == "https://sub2api.vx123.xin/v1"@,
    {
        proof {
            if let Some(text) = contents {
                lemma_absent_keys_keep_defaults(ini_section_values(strip_boms(text@), "codex"@));
            }
        }
        match contents {
            None => PortableConfig::default(),
            Some(text) => {
                let s = chars_of(text);
                let mut i: usize = 0;
                assert(s@.skip(0) =~= s@);
                while i < s.len() && s[i] == '\u{feff}'
                    invariant
                        i <= s.len(),
                        strip_boms(s@) == strip_boms(s@.skip(i as int)),
                    decreases s.len() - i,
                {
                    assert(s@.skip(i as int).drop_first() =~= s@.skip(i + 1));
                    i = i + 1;
                }
                let body = vec_from_range(&s, i, s.len());
                assert(body@ =~= s@.skip(i as int));
                let section = chars_of("codex");
                let values = parse_ini_chars(&body, &section);
                PortableConfig::from_values(&values)
            },
        }
    }

    /// The backend settings for these portable settings, with `auth_contents`
    /// as the text of `auth.json`.
    pub fn backend_settings_with_auth(&self, auth_contents: String) -> (r: BackendSettings)
        ensures
            r@ == portable_backend_settings(self@, auth_contents@),
            active_profile(r@).model == self@.model,
            active_profile(r@).name == self@.provider_name,
            active_profile(r@).base_url == self@.api_base_url,
            active_profile(r@).api_key == self@.api_key,
            active_profile(r@).auth_contents == auth_contents@,
            r@.relay_profiles.len() == 1 && r@.relay_profiles[0] == active_profile(r@),
    {
        proof {
            lemma_portable_settings_use_config(self@, auth_contents@);
        }
        let mut settings = BackendSettings::default();
        settings.codex_app_path = self.codex_app_dir.clone();
        settings.relay_profiles_enabled = true;
        settings.active_relay_id = String::from_str("portable");
        let mut profile = RelayProfile::default();
        profile.id = String::from_str("portable");
        profile.name = self.provider_name.clone();
        profile.model = self.model.clone();
        profile.base_url = self.api_base_url.clone();
        profile.upstream_base_url = self.api_base_url.clone();
        profile.api_key = self.api_key.clone();
        profile.protocol = RelayProtocol::Responses;
        profile.relay_mode = RelayMode::PureApi;
        profile.official_mix_api_key = false;
        profile.auth_contents = auth_contents;
        let mut profiles: Vec<RelayProfile> = Vec::new();
        profiles.push(profile);
        settings.relay_profiles = profiles;
        assert(settings@.relay_profiles =~= seq![portable_profile(self@, auth_contents@)]);
        settings
    }

    /// Backend settings that the launch pipeline can consume: one pure-API
    /// relay profile whose `auth.json` carries the API key, so Codex
    /// authenticates with the relay directly and skips the login screen.
    pub fn to_backend_settings(&self) -> (r: BackendSettings)
        ensures
            r@ == portable_backend_settings(self@, portable_auth_contents(self@)),
            active_profile(r@).model == self@.model,
            active_profile(r@).name == self@.provider_name,
            active_profile(r@).base_url == self@.api_base_url,
            active_profile(r@).api_key == self@.api_key,
            active_profile(r@).relay_mode == RelayMode::PureApi,
            r@.relay_profiles.len() == 1 && r@.relay_profiles[0] == active_profile(r@),
    {
        let key = trimmed_string(self.api_key.as_str());
        let auth_contents = if key.as_str().unicode_len() == 0 {
            String::new()
        } else {
            to_pretty_json_single_entry("OPENAI_API_KEY", key.as_str())
        };
        self.backend_settings_with_auth(auth_contents)
    }

    /// The text of the `config.ini` that saving these settings writes.
    pub fn save(&self) -> (r: String)
        ensures
            r@ == config_text(self@),
    {
        let mut port = String::new();
        push_decimal(&mut port, self.debug_port);
        assert(port@ =~= decimal(self.debug_port as nat));
        let keys: Vec<&str> = vec![
            "api_base_url",
            "api_key",
            "codex_app_dir",
            "model",
            "provider_name",
            "debug_port",
            "last_synced_hash",
        ];
        let values: Vec<&str> = vec![
            self.api_base_url.as_str(),
            self.api_key.as_str(),
            self.codex_app_dir.as_str(),
            self.model.as_str(),
            self.provider_name.as_str(),
            port.as_str(),
            self.last_synced_hash.as_str(),
        ];
        let ghost ls = config_lines(self@);
        let mut out = String::new();
        out.append("[codex]");
        push_char(&mut out, '\n');
        proof {
            assert(ls.take(1).drop_last() =~= Seq::<Seq<char>>::empty());
            assert(ls.take(1).last() == ls[0]);
            assert(ls[0] == "[codex]"@);
            assert(lines_text(Seq::<Seq<char>>::empty()) == Seq::<char>::empty());
            assert(out@ =~= lines_text(ls.take(1)));
        }
        let mut i: usize = 0;
        while i < 7
            invariant
                i <= 7,
                keys.len() == 7,
                values.len() == 7,
                ls == config_lines(self@),
                forall|j: int| 0 <= j < 7 ==> ls[j + 1] == ini_line(keys@[j]@, values@[j]@),
                out@ == lines_text(ls.take(i + 1)),
            decreases 7 - i,
        {
            out.append(keys[i]);
            out.append(" = ");
            out.append(values[i]);
            push_char(&mut out, '\n');
            proof {
                assert(ls.take(i + 2).drop_last() =~= ls.take(i + 1));
                assert(out@ =~= lines_text(ls.take(i + 2)));
            }
            i = i + 1;
        }
        assert(ls.take(8) =~= ls);
        out
    }
}

/// Joined lines without line breaks split back into those lines.
pub proof fn lemma_split_lines_text(ls: Seq<Seq<char>>)
    requires
        forall|i: int, j: int| 0 <= i < ls.len() && 0 <= j < ls[i].len() ==> #[trigger] ls[i][j]
            != '\n',
    ensures
        split_lines(lines_text(ls)) == ls.push(Seq::<char>::empty()),
    decreases ls.len(),
{
    if ls.len() == 0 {
        assert(split_lines(Seq::<char>::empty()) =~= seq![Seq::<char>::empty()]);
    } else {
        let init = ls.drop_last();
        assert forall|i: int, j: int| 0 <= i < init.len() && 0 <= j < init[i].len() implies #[trigger] init[i][j]
            != '\n' by {
            assert(init[i] == ls[i]);
        }
        lemma_split_lines_text(init);
        let p = lines_text(init);
        lemma_split_lines_len(p);
        assert forall|j: int| 0 <= j < ls.last().len() implies #[trigger] ls.last()[j] != '\n' by {
            assert(ls.last()[j] == ls[ls.len() - 1][j]);
        }
        crate::ini::lemma_split_lines_append(p, ls.last());
        let q = p + ls.last() + seq!['\n'];
        assert(q.drop_last() =~= p + ls.last());
        assert(split_lines(q) =~= ls.push(Seq::<char>::empty()));
    }
}


/// The first character of joined lines is that of the first line.
proof fn lemma_lines_text_first(ls: Seq<Seq<char>>)
    requires
        ls.len() > 0,
        ls[0].len() > 0,
    ensures
        lines_text(ls).len() > 0,
        lines_text(ls)[0] == ls[0][0],
    decreases ls.len(),
{
    if ls.len() > 1 {
        assert(ls.drop_last()[0] == ls[0]);
        lemma_lines_text_first(ls.drop_last());
    } else {
        assert(ls.last() == ls[0]);
        assert(lines_text(ls.drop_last()) =~= Seq::<char>::empty());
        assert(lines_text(ls) =~= ls[0] + seq!['\n']);
    }
}

/// Reading a list of lines one more line at a time.
proof fn lemma_fold_take(ls: Seq<Seq<char>>, i: int, section: Seq<char>)
    requires
        0 <= i < ls.len(),
    ensures
        ini_fold(ls.take(i + 1), section) == ini_step(ini_fold(ls.take(i), section), ls[i], section),
{
    assert(ls.take(i + 1).drop_last() =~= ls.take(i));
    assert(ls.take(i + 1).last() == ls[i]);
}

proof fn lemma_plain_key_literals()
    ensures
        is_plain_key("codex"@),
        is_plain_key("api_base_url"@),
        is_plain_key("api_key"@),
        is_plain_key("codex_app_dir"@),
        is_plain_key("model"@),
        is_plain_key("provider_name"@),
        is_plain_key("debug_port"@),
        is_plain_key("last_synced_hash"@),
        "[codex]"@ =~= seq!['['] + "codex"@ + seq![']'],
        " = "@ =~= seq![' ', '=', ' '],
        "codex_app_dir"@ != "provider_name"@,
{
    reveal_strlit("codex");
    reveal_strlit("[codex]");
    reveal_strlit(" = ");
    reveal_strlit("api_base_url");
    reveal_strlit("api_key");
    reveal_strlit("codex_app_dir");
    reveal_strlit("model");
    reveal_strlit("provider_name");
    reveal_strlit("debug_port");
    reveal_strlit("last_synced_hash");
    assert("codex_app_dir"@[0] != "provider_name"@[0]);
}

/// A key line holds no line break.
proof fn lemma_line_no_break(k: Seq<char>, v: Seq<char>)
    requires
        is_plain_key(k),
        is_plain_value(v),
        " = "@ =~= seq![' ', '=', ' '],
    ensures
        forall|j: int| 0 <= j < ini_line(k, v).len() ==> #[trigger] ini_line(k, v)[j] != '\n',
{
    assert forall|j: int| 0 <= j < ini_line(k, v).len() implies #[trigger] ini_line(k, v)[j]
        != '\n' by {
        if j < k.len() {
            assert(is_key_char(k[j]));
        } else if j >= k.len() + 3 {
            assert(ini_line(k, v)[j] == v[j - k.len() - 3]);
        }
    }
}

/// A decimal number is a plain value.
proof fn lemma_decimal_plain(n: u16)
    ensures
        is_plain_value(decimal(n as nat)),
{
    let d = decimal(n as nat);
    lemma_decimal_digits(n as nat);
    assert(is_digit(d[0]));
    assert(is_digit(d[d.len() - 1]));
    assert(crate::text::trim_start(d) == d);
    assert(crate::text::trim_end(d) == d);
    assert forall|i: int| 0 <= i < d.len() implies #[trigger] d[i] != '\n' by {
        assert(is_digit(d[i]));
    }
}

/// Saving and loading again gives back the same settings, wherever each text
/// field is a plain value: no line break and no whitespace at either end.
pub proof fn lemma_save_load_round_trip(c: PortableConfigView)
    requires
        is_plain_value(c.api_base_url),
        is_plain_value(c.api_key),
        is_plain_value(c.model),
        is_plain_value(c.provider_name),
        is_plain_value(c.codex_app_dir),
        is_plain_value(c.last_synced_hash),
    ensures
        config_from_text(config_text(c)) == c,
{
    lemma_plain_key_literals();
    lemma_decimal_plain(c.debug_port);
    lemma_parse_decimal(c.debug_port);
    let port = decimal(c.debug_port as nat);
    let ls = config_lines(c);
    let sec = "codex"@;
    lemma_line_no_break("api_base_url"@, c.api_base_url);
    lemma_line_no_break("api_key"@, c.api_key);
    lemma_line_no_break("codex_app_dir"@, c.codex_app_dir);
    lemma_line_no_break("model"@, c.model);
    lemma_line_no_break("provider_name"@, c.provider_name);
    lemma_line_no_break("debug_port"@, port);
    lemma_line_no_break("last_synced_hash"@, c.last_synced_hash);
    assert forall|i: int, j: int| 0 <= i < ls.len() && 0 <= j < ls[i].len() implies #[trigger] ls[i][j]
        != '\n' by {
        if i == 0 {
            reveal_strlit("[codex]");
        }
    }
    crate::portable::lemma_split_lines_text(ls);
    let text = config_text(c);
    reveal_strlit("[codex]");
    lemma_lines_text_first(ls);
    assert(strip_boms(text) == text);
    // The empty piece after the final line break changes nothing.
    let all = ls.push(Seq::<char>::empty());
    assert(all.drop_last() =~= ls);
    assert(crate::text::trim_start(Seq::<char>::empty()) == Seq::<char>::empty());
    assert(crate::text::trim_end(Seq::<char>::empty()) == Seq::<char>::empty());
    assert(ini_section_values(text, sec) == ini_fold(ls, sec).1);
    // Each line in turn.
    let e = Map::<Seq<char>, Seq<char>>::empty();
    assert(ls.take(0) =~= Seq::<Seq<char>>::empty());
    lemma_fold_take(ls, 0, sec);
    lemma_step_header((false, e), sec);
    let m1 = e.insert("api_base_url"@, c.api_base_url);
    lemma_fold_take(ls, 1, sec);
    lemma_step_assignment(e, "api_base_url"@, c.api_base_url, sec);
    let m2 = m1.insert("api_key"@, c.api_key);
    lemma_fold_take(ls, 2, sec);
    lemma_step_assignment(m1, "api_key"@, c.api_key, sec);
    let m3 = m2.insert("codex_app_dir"@, c.codex_app_dir);
    lemma_fold_take(ls, 3, sec);
    lemma_step_assignment(m2, "codex_app_dir"@, c.codex_app_dir, sec);
    let m4 = m3.insert("model"@, c.model);
    lemma_fold_take(ls, 4, sec);
    lemma_step_assignment(m3, "model"@, c.model, sec);
    let m5 = m4.insert("provider_name"@, c.provider_name);
    lemma_fold_take(ls, 5, sec);
    lemma_step_assignment(m4, "provider_name"@, c.provider_name, sec);
    let m6 = m5.insert("debug_port"@, port);
    lemma_fold_take(ls, 6, sec);
    lemma_step_assignment(m5, "debug_port"@, port, sec);
    let m7 = m6.insert("last_synced_hash"@, c.last_synced_hash);
    lemma_fold_take(ls, 7, sec);
    lemma_step_assignment(m6, "last_synced_hash"@, c.last_synced_hash, sec);
    assert(ls.take(8) =~= ls);
    assert(ini_fold(ls, sec) == (true, m7));
    reveal_strlit("api_base_url");
    reveal_strlit("api_key");
    reveal_strlit("codex_app_dir");
    reveal_strlit("model");
    reveal_strlit("provider_name");
    reveal_strlit("debug_port");
    reveal_strlit("last_synced_hash");
    assert(m7["api_base_url"@] == c.api_base_url);
    assert(m7["api_key"@] == c.api_key);
    assert(m7["codex_app_dir"@] == c.codex_app_dir);
    assert(m7["model"@] == c.model);
    assert(m7["provider_name"@] == c.provider_name);
    assert(m7["debug_port"@] == port);
    assert(m7["last_synced_hash"@] == c.last_synced_hash);
    assert(config_from_values(m7) == c);
}


/// Byte-order marks at the start of `config.ini` do not change what it says.
pub proof fn lemma_leading_bom_ignored(text: Seq<char>)
    ensures
        config_from_text(seq!['\u{feff}'] + text) == config_from_text(text),
{
    assert((seq!['\u{feff}'] + text).drop_first() =~= text);
}

/// The defaults lack an API key, so they are not a complete configuration.
pub proof fn lemma_defaults_incomplete()
    ensures
        !config_is_complete(default_config()),
{
    assert(crate::text::trim_start(Seq::<char>::empty()) == Seq::<char>::empty());
    assert(crate::text::trim_end(Seq::<char>::empty()) == Seq::<char>::empty());
}

/// The backend settings of a portable install select their portable
/// profile as the active one, and carry no `auth.json` text without an API
/// key.
pub proof fn lemma_portable_settings_active_profile(c: PortableConfigView, auth: Seq<char>)
    ensures
        active_profile(portable_backend_settings(c, auth)) == portable_profile(c, auth),
        trim(c.api_key).len() == 0 ==> portable_auth_contents(c) == Seq::<char>::empty(),
{
    let s = portable_backend_settings(c, auth);
    assert(s.relay_profiles[0].id == "portable"@);
    assert(first_with_id(s.relay_profiles, "portable"@) == Some(0int));
}

/// The `auth.json` text of a portable install with an API key names that
/// key, trimmed, under `OPENAI_API_KEY` in a pretty-printed JSON object;
/// a key without quotes, backslashes or control characters stands in it
/// as it is.
pub proof fn lemma_portable_auth_names_key(c: PortableConfigView)
    requires
        trim(c.api_key).len() > 0,
        is_json_plain(trim(c.api_key)),
    ensures
        portable_auth_contents(c) == seq!['{', '\n', ' ', ' ', '"'] + "OPENAI_API_KEY"@ + seq![
            '"',
            ':',
            ' ',
            '"',
        ] + trim(c.api_key) + seq!['"', '\n', '}'],
{
    reveal_strlit("OPENAI_API_KEY");
    let name = "OPENAI_API_KEY"@;
    assert(is_json_plain(name));
    lemma_json_escaped_plain(name);
    lemma_json_escaped_plain(trim(c.api_key));
    assert(portable_auth_contents(c) =~= seq!['{', '\n', ' ', ' ', '"'] + name + seq![
        '"',
        ':',
        ' ',
        '"',
    ] + trim(c.api_key) + seq!['"', '\n', '}']);
}

/// Loading keeps the built-in default of every setting that the `[codex]`
/// section leaves out, and takes the section's value of every one it sets
/// (the debug port only where it reads as a port).
pub proof fn lemma_absent_keys_keep_defaults(m: Map<Seq<char>, Seq<char>>)
    ensures
        ({
            let c = config_from_values(m);
            &&& !m.contains_key("api_base_url"@) ==> c.api_base_url
                == "https://sub2api.vx123.xin/v1"@
            &&& !m.contains_key("api_key"@) ==> c.api_key == Seq::<char>::empty()
            &&& !m.contains_key("model"@) ==> c.model == "gpt-5.5"@
            &&& !m.contains_key("provider_name"@) ==> c.provider_name == "custom"@
            &&& !m.contains_key("codex_app_dir"@) ==> c.codex_app_dir == Seq::<char>::empty()
            &&& !m.contains_key("debug_port"@) ==> c.debug_port == 9229
            &&& !m.contains_key("last_synced_hash"@) ==> c.last_synced_hash == Seq::<char>::empty()
            &&& m.contains_key("api_base_url"@) ==> c.api_base_url == m["api_base_url"@]
            &&& m.contains_key("api_key"@) ==> c.api_key == m["api_key"@]
            &&& m.contains_key("model"@) ==> c.model == m["model"@]
            &&& m.contains_key("provider_name"@) ==> c.provider_name == m["provider_name"@]
            &&& m.contains_key("codex_app_dir"@) ==> c.codex_app_dir == m["codex_app_dir"@]
            &&& m.contains_key("last_synced_hash"@) ==> c.last_synced_hash
                == m["last_synced_hash"@]
            &&& m.contains_key("debug_port"@) && parse_u16_spec(m["debug_port"@]) is Some
                ==> c.debug_port == parse_u16_spec(m["debug_port"@])->0
            &&& m.contains_key("debug_port"@) && parse_u16_spec(m["debug_port"@]) is None
                ==> c.debug_port == 9229
        }),
{
}

/// A `config.ini` whose `[codex]` section has no `api_base_url` loads the
/// built-in base URL, and with an API key as well the settings are
/// complete: the launcher starts without the dialog.
pub proof fn lemma_missing_base_url_loads_default(text: Seq<char>)
    requires
        !ini_section_values(strip_boms(text), "codex"@).contains_key("api_base_url"@),
    ensures
        config_from_text(text).api_base_url == "https://sub2api.vx123.xin/v1"@,
        trim(config_from_text(text).api_key).len() > 0 ==> config_is_complete(
            config_from_text(text),
        ),
{
    reveal_strlit("https://sub2api.vx123.xin/v1");
    let u = "https://sub2api.vx123.xin/v1"@;
    assert(!crate::text::is_ws(u[0]));
    assert(crate::text::trim_start(u) == u);
    assert(!crate::text::is_ws(u.last()));
    assert(crate::text::trim_end(u) == u);
}

/// Settings loaded from a file, and from no file at all, agree with the
/// built-in defaults wherever the file says nothing.
pub proof fn lemma_load_defaults_agree()
    ensures
        config_from_values(Map::empty()) == default_config(),
        default_config().api_base_url == "https://sub2api.vx123.xin/v1"@,
        default_config().model == "gpt-5.5"@,
        default_config().provider_name == "custom"@,
        default_config().debug_port == 9229,
{
}

/// The backend settings made from a portable config use that config: the
/// active profile is the one with id `portable`, carries the config's
/// provider name, model, base URL (also as the upstream URL) and API key,
/// runs in the pure-API mode without mixing into an official login, and
/// holds the given `auth.json` text; the settings enable relay profiles and
/// point at the config's Codex App directory.
pub proof fn lemma_portable_settings_use_config(c: PortableConfigView, auth: Seq<char>)
    ensures
        ({
            let s = portable_backend_settings(c, auth);
            let p = active_profile(s);
            &&& s.relay_profiles_enabled
            &&& s.active_relay_id == "portable"@
            &&& s.codex_app_path == c.codex_app_dir
            &&& s.relay_profiles.len() == 1
            &&& s.relay_profiles[0] == p
            &&& p.id == "portable"@
            &&& p.name == c.provider_name
            &&& p.model == c.model
            &&& p.base_url == c.api_base_url
            &&& p.upstream_base_url == c.api_base_url
            &&& p.api_key == c.api_key
            &&& p.relay_mode == RelayMode::PureApi
            &&& !p.official_mix_api_key
            &&& p.auth_contents == auth
        }),
{
    lemma_portable_settings_active_profile(c, auth);
}

} // verus!
