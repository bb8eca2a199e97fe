//! The backend settings that the launcher hands to Codex: relay profiles and
//! which of them is active.

use vstd::prelude::*;

use crate::ini::{parse_top_level, top_level_values};
use crate::portable::value_or;
use crate::text::str_eq;

verus! {

/// How the relay talks to the model API.
#[derive(Debug, Clone, Copy, PartialEq, Eq, Structural)]
pub enum RelayProtocol {
    Responses,
}

/// How Codex authenticates through a relay profile.
#[derive(Debug, Clone, Copy, PartialEq, Eq, Structural)]
pub enum RelayMode {
    /// An existing ChatGPT login.
    Official,
    /// A ChatGPT login mixed with an API key.
    MixedApi,
    /// The API key alone, written into `auth.json`.
    PureApi,
}

/// One relay profile.
#[derive(Debug, Clone)]
pub struct RelayProfile {
    pub id: String,
    pub name: String,
    pub model: String,
    pub base_url: String,
    pub upstream_base_url: String,
    pub api_key: String,
    pub protocol: RelayProtocol,
    pub relay_mode: RelayMode,
    pub official_mix_api_key: bool,
    pub auth_contents: String,
    pub config_contents: String,
}

pub ghost struct RelayProfileView {
    pub id: Seq<char>,
    pub name: Seq<char>,
    pub model: Seq<char>,
    pub base_url: Seq<char>,
    pub upstream_base_url: Seq<char>,
    pub api_key: Seq<char>,
    pub protocol: RelayProtocol,
    pub relay_mode: RelayMode,
    pub official_mix_api_key: bool,
    pub auth_contents: Seq<char>,
    pub config_contents: Seq<char>,
}

impl View for RelayProfile {
    type V = RelayProfileView;

    open spec fn view(&self) -> RelayProfileView {
        RelayProfileView {
            id: self.id@,
            name: self.name@,
            model: self.model@,
            base_url: self.base_url@,
            upstream_base_url: self.upstream_base_url@,
            api_key: self.api_key@,
            protocol: self.protocol,
            relay_mode: self.relay_mode,
            official_mix_api_key: self.official_mix_api_key,
            auth_contents: self.auth_contents@,
            config_contents: self.config_contents@,
        }
    }
}

/// A profile with every text empty, the Responses protocol and the
/// official login.
pub open spec fn default_profile() -> RelayProfileView {
    RelayProfileView {
        id: Seq::empty(),
        name: Seq::empty(),
        model: Seq::empty(),
        base_url: Seq::empty(),
        upstream_base_url: Seq::empty(),
        api_key: Seq::empty(),
        protocol: RelayProtocol::Responses,
        relay_mode: RelayMode::Official,
        official_mix_api_key: false,
        auth_contents: Seq::empty(),
        config_contents: Seq::empty(),
    }
}

impl Default for RelayProfile {
    fn default() -> (r: RelayProfile)
        ensures
            r@ == default_profile(),
    {
        RelayProfile {
            id: String::new(),
            name: String::new(),
            model: String::new(),
            base_url: String::new(),
            upstream_base_url: String::new(),
            api_key: String::new(),
            protocol: RelayProtocol::Responses,
            relay_mode: RelayMode::Official,
            official_mix_api_key: false,
            auth_contents: String::new(),
            config_contents: String::new(),
        }
    }
}

impl RelayProfile {
    /// A copy of this profile.
    pub fn duplicate(&self) -> (r: RelayProfile)
        ensures
            r@ == self@,
    {
        RelayProfile {
            id: self.id.clone(),
            name: self.name.clone(),
            model: self.model.clone(),
            base_url: self.base_url.clone(),
            upstream_base_url: self.upstream_base_url.clone(),
            api_key: self.api_key.clone(),
            protocol: self.protocol,
            relay_mode: self.relay_mode,
            official_mix_api_key: self.official_mix_api_key,
            auth_contents: self.auth_contents.clone(),
            config_contents: self.config_contents.clone(),
        }
    }

    /// Whether sessions under this profile carry the OpenAI identity: the
    /// `model_provider` that the top of `config_contents` names, in double
    /// quotes or not, is `openai`; Codex uses `openai` where none is named.
    pub fn session_provider_is_openai(&self) -> (b: bool)
        ensures
            b == profile_session_is_openai(self@),
    {
        let values = parse_top_level(self.config_contents.as_str());
        let provider = match values.get("model_provider") {
            Some(v) => v,
            None => String::from_str("openai"),
        };
        let unquoted = unquote(provider.as_str());
        str_eq(unquoted.as_str(), "openai")
    }
}

/// `v` without one pair of surrounding double quotes.
pub open spec fn unquote_spec(v: Seq<char>) -> Seq<char> {
    if v.len() >= 2 && v[0] == '"' && v.last() == '"' {
        v.subrange(1, v.len() - 1)
    } else {
        v
    }
}

fn unquote(v: &str) -> (r: String)
    ensures
        r@ == unquote_spec(v@),
{
    let c = crate::text::chars_of(v);
    let n = c.len();
    if n >= 2 && c[0] == '"' && c[n - 1] == '"' {
        crate::text::string_from_range(&c, 1, n - 1)
    } else {
        assert(c@.subrange(0, n as int) =~= c@);
        crate::text::string_from_range(&c, 0, n)
    }
}

/// See `RelayProfile::session_provider_is_openai`.
pub open spec fn profile_session_is_openai(p: RelayProfileView) -> bool {
    unquote_spec(value_or(top_level_values(p.config_contents), "model_provider"@, "openai"@))
        == "openai"@
}

/// The first position in `ps` of a profile with the id `id`.
pub open spec fn first_with_id(ps: Seq<RelayProfileView>, id: Seq<char>) -> Option<int>
    decreases ps.len(),
{
    if ps.len() == 0 {
        None
    } else if ps[0].id == id {
        Some(0)
    } else {
        match first_with_id(ps.drop_first(), id) {
            Some(i) => Some(i + 1),
            None => None,
        }
    }
}

pub proof fn lemma_first_with_id(ps: Seq<RelayProfileView>, id: Seq<char>, i: int)
    requires
        0 <= i <= ps.len(),
        forall|j: int| 0 <= j < i ==> (#[trigger] ps[j]).id != id,
    ensures
        i < ps.len() && ps[i].id == id ==> first_with_id(ps, id) == Some(i),
        i == ps.len() ==> first_with_id(ps, id) is None,
    decreases i,
{
    if i > 0 {
        let t = ps.drop_first();
        assert forall|j: int| 0 <= j < i - 1 implies (#[trigger] t[j]).id != id by {
            assert(t[j] == ps[j + 1]);
        }
        lemma_first_with_id(t, id, i - 1);
    }
}

/// The settings that the launch pipeline consumes.
#[derive(Debug)]
pub struct BackendSettings {
    pub codex_app_path: String,
    pub relay_profiles_enabled: bool,
    pub active_relay_id: String,
    pub relay_profiles: Vec<RelayProfile>,
}

pub ghost struct BackendSettingsView {
    pub codex_app_path: Seq<char>,
    pub relay_profiles_enabled: bool,
    pub active_relay_id: Seq<char>,
    pub relay_profiles: Seq<RelayProfileView>,
}

impl View for BackendSettings {
    type V = BackendSettingsView;

    open spec fn view(&self) -> BackendSettingsView {
        BackendSettingsView {
            codex_app_path: self.codex_app_path@,
            relay_profiles_enabled: self.relay_profiles_enabled,
            active_relay_id: self.active_relay_id@,
            relay_profiles: self.relay_profiles@.map_values(|p: RelayProfile| p@),
        }
    }
}

/// The profile that `active_relay_id` names, or the default profile where
/// none has that id.
pub open spec fn active_profile(s: BackendSettingsView) -> RelayProfileView {
    match first_with_id(s.relay_profiles, s.active_relay_id) {
        Some(i) => s.relay_profiles[i],
        None => default_profile(),
    }
}

impl Default for BackendSettings {
    fn default() -> (r: BackendSettings)
        ensures
            r@ == (BackendSettingsView {
                codex_app_path: Seq::empty(),
                relay_profiles_enabled: false,
                active_relay_id: Seq::empty(),
                relay_profiles: Seq::empty(),
            }),
    {
        let r = BackendSettings {
            codex_app_path: String::new(),
            relay_profiles_enabled: false,
            active_relay_id: String::new(),
            relay_profiles: Vec::new(),
        };
        assert(r@.relay_profiles =~= Seq::<RelayProfileView>::empty());
        r
    }
}

impl BackendSettings {
    /// The position of the first profile with the id `id`.
    pub fn profile_position(&self, id: &String) -> (r: Option<usize>)
        ensures
            match r {
                Some(i) => i < self.relay_profiles.len() && first_with_id(self@.relay_profiles, id@)
                    == Some(i as int),
                None => first_with_id(self@.relay_profiles, id@) is None,
            },
    {
        let ghost ps = self@.relay_profiles;
        let mut i: usize = 0;
        while i < self.relay_profiles.len()
            invariant
                i <= self.relay_profiles.len(),
                ps == self@.relay_profiles,
                ps.len() == self.relay_profiles.len(),
                forall|j: int| 0 <= j < i ==> (#[trigger] ps[j]).id != id@,
            decreases self.relay_profiles.len() - i,
        {
            assert(ps[i as int] == self.relay_profiles@[i as int]@);
            if self.relay_profiles[i].id == *id {
                proof {
                    lemma_first_with_id(ps, id@, i as int);
                }
                return Some(i);
            }
            i = i + 1;
        }
        proof {
            lemma_first_with_id(ps, id@, i as int);
        }
        None
    }

    /// The active relay profile: the one that `active_relay_id` names, or a
    /// default profile where none has that id.
    pub fn active_relay_profile(&self) -> (r: RelayProfile)
        ensures
            r@ == active_profile(self@),
    {
        match self.profile_position(&self.active_relay_id) {
            Some(i) => {
                assert(self@.relay_profiles[i as int] == self.relay_profiles@[i as int]@);
                self.relay_profiles[i].duplicate()
            },
            None => RelayProfile::default(),
        }
    }

    /// Whether sessions under the active profile carry the OpenAI identity.
    pub fn active_session_is_openai(&self) -> (b: bool)
        ensures
            b == profile_session_is_openai(active_profile(self@)),
    {
        self.active_relay_profile().session_provider_is_openai()
    }
}

} // verus!
