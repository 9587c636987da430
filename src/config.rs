//! Configuration values and the rule that keeps lights out of scenes.

use vstd::prelude::*;
use vstd::string::*;
use crate::scene::{scene_key, Scene};

verus! {

#[derive(Debug, Clone)]
pub struct Config {
    pub gateway: GatewayConfig,
    pub ui: UiConfig,
    pub scenes: ScenesConfig,
}

/// Address of the gateway and the credentials of the pre-shared-key
/// handshake.
#[derive(Debug, Clone)]
pub struct GatewayConfig {
    pub host: String,
    pub identity: String,
    pub psk: String,
}

#[derive(Debug, Clone)]
pub struct UiConfig {
    pub theme: String,
    /// Seconds between two refreshes of the light list.
    pub refresh_interval: u64,
}

/// Lights that scenes leave alone.
#[derive(Debug, Clone)]
pub struct ScenesConfig {
    /// Light names excluded from every scene.
    pub exclude: Vec<String>,
    /// Light names excluded from one scene, by scene key.
    pub exclude_by_scene: Vec<(String, Vec<String>)>,
}

pub open spec fn default_host_text() -> Seq<char> {
    "192.168.0.131"@
}

pub open spec fn default_theme_text() -> Seq<char> {
    "auto"@
}

pub open spec fn default_refresh_secs() -> u64 {
    5
}

/// Gateway address used when the configuration names none.
pub fn default_host() -> (r: String)
    ensures
        r@ == default_host_text(),
{
    String::from_str("192.168.0.131")
}

/// Theme used when the configuration names none.
pub fn default_theme() -> (r: String)
    ensures
        r@ == default_theme_text(),
{
    String::from_str("auto")
}

/// Refresh interval, in seconds, used when the configuration gives none.
pub fn default_refresh() -> (r: u64)
    ensures
        r == default_refresh_secs(),
{
    5
}

impl Default for GatewayConfig {
    fn default() -> (r: GatewayConfig)
        ensures
            r.host@ == default_host_text(),
            r.identity@ == Seq::<char>::empty(),
            r.psk@ == Seq::<char>::empty(),
    {
        GatewayConfig { host: default_host(), identity: String::new(), psk: String::new() }
    }
}

impl Default for UiConfig {
    fn default() -> (r: UiConfig)
        ensures
            r.theme@ == default_theme_text(),
            r.refresh_interval == default_refresh_secs(),
    {
        UiConfig { theme: default_theme(), refresh_interval: default_refresh() }
    }
}

impl Default for ScenesConfig {
    fn default() -> (r: ScenesConfig)
        ensures
            r.exclude@.len() == 0,
            r.exclude_by_scene@.len() == 0,
    {
        ScenesConfig { exclude: Vec::new(), exclude_by_scene: Vec::new() }
    }
}

impl Default for Config {
    fn default() -> (r: Config)
        ensures
            r.gateway.host@ == default_host_text(),
            r.gateway.identity@ == Seq::<char>::empty(),
            r.gateway.psk@ == Seq::<char>::empty(),
            r.ui.theme@ == default_theme_text(),
            r.ui.refresh_interval == default_refresh_secs(),
            r.scenes.exclude@.len() == 0,
            r.scenes.exclude_by_scene@.len() == 0,
    {
        Config {
            gateway: GatewayConfig::default(),
            ui: UiConfig::default(),
            scenes: ScenesConfig::default(),
        }
    }
}

/// Code of a character with ASCII upper-case letters folded to lower case.
pub open spec fn ascii_folded(c: char) -> u32 {
    let n = c as u32;
    if 65 <= n <= 90 {
        (n + 32) as u32
    } else {
        n
    }
}

/// Equality of two strings up to ASCII letter case.
pub open spec fn eq_ignore_case(a: Seq<char>, b: Seq<char>) -> bool {
    a.len() == b.len() && forall|i: int| 0 <= i < a.len() ==> ascii_folded(a[i]) == ascii_folded(b[i])
}

fn fold_char(c: char) -> (r: u32)
    ensures
        r == ascii_folded(c),
{
    let n = c as u32;
    if 65 <= n && n <= 90 {
        n + 32
    } else {
        n
    }
}

/// Whether two strings are equal up to ASCII letter case.
pub fn eq_ignore_ascii_case(a: &str, b: &str) -> (r: bool)
    ensures
        r == eq_ignore_case(a@, b@),
{
    let n = a.unicode_len();
    if n != b.unicode_len() {
        return false;
    }
    let mut i: usize = 0;
    while i < n
        invariant
            n == a@.len(),
            n == b@.len(),
            i <= n,
            forall|k: int| 0 <= k < i ==> ascii_folded(a@[k]) == ascii_folded(b@[k]),
        decreases n - i,
    {
        if fold_char(a.get_char(i)) != fold_char(b.get_char(i)) {
            return false;
        }
        i = i + 1;
    }
    true
}

/// Some name of the list equals `light` up to ASCII case.
pub open spec fn name_listed(names: Seq<String>, light: Seq<char>) -> bool {
    exists|i: int| 0 <= i < names.len() && eq_ignore_case(#[trigger] names[i]@, light)
}

/// Some entry's key equals `key` up to ASCII case and lists `light`.
pub open spec fn listed_for_key(
    entries: Seq<(String, Vec<String>)>,
    key: Seq<char>,
    light: Seq<char>,
) -> bool {
    exists|j: int|
        0 <= j < entries.len() && eq_ignore_case(#[trigger] entries[j].0@, key) && name_listed(
            entries[j].1@,
            light,
        )
}

/// A light is left out of a scene when it is excluded from all scenes, or
/// from that scene by its key; names and keys compare up to ASCII case.
pub open spec fn excluded_for(cfg: ScenesConfig, scene: Scene, light: Seq<char>) -> bool {
    name_listed(cfg.exclude@, light) || listed_for_key(cfg.exclude_by_scene@, scene_key(scene), light)
}

fn any_name_matches(names: &Vec<String>, light: &str) -> (r: bool)
    ensures
        r == name_listed(names@, light@),
{
    let mut i: usize = 0;
    while i < names.len()
        invariant
            i <= names@.len(),
            forall|k: int| 0 <= k < i ==> !eq_ignore_case(#[trigger] names@[k]@, light@),
        decreases names@.len() - i,
    {
        if eq_ignore_ascii_case(names[i].as_str(), light) {
            return true;
        }
        i = i + 1;
    }
    false
}

impl ScenesConfig {
    /// Whether the light named `light_name` is left out of `scene`.
    pub fn is_excluded_for_scene(&self, scene: Scene, light_name: &str) -> (r: bool)
        ensures
            r == excluded_for(*self, scene, light_name@),
    {
        if any_name_matches(&self.exclude, light_name) {
            return true;
        }
        let key = scene.config_key();
        let mut j: usize = 0;
        while j < self.exclude_by_scene.len()
            invariant
                j <= self.exclude_by_scene@.len(),
                key@ == scene_key(scene),
                !name_listed(self.exclude@, light_name@),
                forall|k: int|
                    0 <= k < j ==> !(eq_ignore_case(#[trigger] self.exclude_by_scene@[k].0@, key@)
                        && name_listed(self.exclude_by_scene@[k].1@, light_name@)),
            decreases self.exclude_by_scene@.len() - j,
        {
            let entry = &self.exclude_by_scene[j];
            if eq_ignore_ascii_case(entry.0.as_str(), key) && any_name_matches(&entry.1, light_name) {
                return true;
            }
            j = j + 1;
        }
        false
    }
}

} // verus!
