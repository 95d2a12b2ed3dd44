//! The settings file (`settings.json`, schema v2): its defaults, how a
//! loaded file is classified (current, legacy v1, unsupported, or to be
//! replaced by defaults), and the fixes applied after loading. Reading,
//! parsing into these types and writing the file are the caller's.

use vstd::prelude::*;

use crate::editor::EditorMode;
use crate::save::is_unicode_whitespace;
use crate::text::{chars_of, concat, decimal, decimal_string, owned};

verus! {

pub const CONFIG_SCHEMA_VERSION: u32 = 2;

#[derive(Debug, Clone)]
pub struct Config {
    pub schema_version: u32,
    pub window: WindowConfig,
    pub render: RenderConfig,
    pub paths: PathsConfig,
    pub editor: EditorConfig,
}

#[derive(Debug, Clone)]
pub struct WindowConfig {
    pub title: String,
    pub width: u32,
    pub height: u32,
    pub vsync: bool,
}

/// `clear_color` holds the `f32` bit patterns of an RGBA colour in 0..1.
#[derive(Debug, Clone)]
pub struct RenderConfig {
    pub clear_color: [u32; 4],
    pub msaa_samples: u32,
}

#[derive(Debug, Clone)]
pub struct PathsConfig {
    pub user_data: String,
    pub assets: String,
}

#[derive(Debug, Clone)]
pub struct EditorConfig {
    pub last_mode: EditorMode,
}

/// Bit patterns of the default clear colour `[0.118, 0.118, 0.180, 1.0]`
/// (a dark slate).
pub const DEFAULT_CLEAR_COLOR: [u32; 4] = [0x3df1_a9fc, 0x3df1_a9fc, 0x3e38_51ec, 0x3f80_0000];

pub open spec fn is_default_config(c: Config) -> bool {
    &&& c.schema_version == CONFIG_SCHEMA_VERSION
    &&& c.window.title@ == "Avatar Studio"@
    &&& c.window.width == 1480
    &&& c.window.height == 780
    &&& c.window.vsync
    &&& c.render.clear_color == DEFAULT_CLEAR_COLOR
    &&& c.render.msaa_samples == 1
    &&& c.paths.user_data@ == "user_data"@
    &&& c.paths.assets@ == "assets"@
    &&& c.editor.last_mode == EditorMode::Character
}

impl Default for Config {
    fn default() -> (c: Config)
        ensures
            is_default_config(c),
    {
        Config {
            schema_version: CONFIG_SCHEMA_VERSION,
            window: WindowConfig { title: owned("Avatar Studio"), width: 1480, height: 780, vsync: true },
            render: RenderConfig { clear_color: DEFAULT_CLEAR_COLOR, msaa_samples: 1 },
            paths: PathsConfig { user_data: owned("user_data"), assets: owned("assets") },
            editor: EditorConfig { last_mode: EditorMode::Character },
        }
    }
}

/// What to do with the text of an existing settings file.
#[derive(Debug, Clone, Copy, PartialEq, Eq, Structural)]
pub enum ConfigLoadStep {
    /// Empty: write the defaults over it and use them.
    UseDefaults,
    /// Not JSON: report the error and leave the file as it is, so the
    /// user's settings are not overwritten.
    NotJson,
    /// Parse it as the current schema.
    ParseCurrent,
    /// Parse it as schema v1 and migrate.
    ParseLegacy,
    /// A schema version this build does not read.
    Unsupported(u32),
}

/// What `serde_json` finds in `text`: `None` when it is not JSON, otherwise
/// the member `key` when it is a non-negative integer that fits a `u64`.
pub uninterp spec fn json_u64_member(text: Seq<char>, key: Seq<char>) -> Option<Option<u64>>;

/// `serde_json::from_str::<serde_json::Value>` on `text`, then
/// `Value::get(key)` and `Value::as_u64` on the result. The contract names
/// the outcome [`json_u64_member`] of the text and the key, and says
/// nothing more of it.
#[verifier::external_body]
fn probe_u64_member(text: &str, key: &str) -> (r: Option<Option<u64>>)
    ensures
        r == json_u64_member(text@, key@),
{
    match serde_json::from_str::<serde_json::Value>(text) {
        Ok(raw) => Some(raw.get(key).and_then(serde_json::Value::as_u64)),
        Err(_) => None,
    }
}

/// Index of the first character of `s` from `k` on that is not NUL.
pub open spec fn first_non_nul_from(s: Seq<char>, k: int) -> int
    decreases s.len() - k,
{
    if k < s.len() && s[k] == '\0' {
        first_non_nul_from(s, k + 1)
    } else {
        k
    }
}

/// One past the last character of `s` before `k` that is not NUL.
pub open spec fn last_non_nul_before(s: Seq<char>, k: int) -> int
    decreases k,
{
    if k > 0 && s[k - 1] == '\0' {
        last_non_nul_before(s, k - 1)
    } else {
        k
    }
}

/// Whether a settings file holds nothing: what is left after stripping NULs
/// from both ends is whitespace only.
pub open spec fn settings_blank(text: Seq<char>) -> bool {
    let a = first_non_nul_from(text, 0);
    let b = last_non_nul_before(text, text.len() as int);
    forall|i: int| a <= i < b ==> is_unicode_whitespace(#[trigger] text[i])
}

/// The step for a settings file whose text `serde_json` read as `probe`:
/// the version defaults to 1 when absent, and is taken as a `u32`.
pub open spec fn load_step_for(blank: bool, probe: Option<Option<u64>>) -> ConfigLoadStep {
    if blank {
        ConfigLoadStep::UseDefaults
    } else {
        match probe {
            None => ConfigLoadStep::NotJson,
            Some(v) => {
                let version = (match v {
                    Some(n) => n,
                    None => 1u64,
                }) as u32;
                if version == CONFIG_SCHEMA_VERSION {
                    ConfigLoadStep::ParseCurrent
                } else if version == 1 {
                    ConfigLoadStep::ParseLegacy
                } else {
                    ConfigLoadStep::Unsupported(version)
                }
            },
        }
    }
}

/// Decide what to do with a settings file, given whether it is blank and
/// what `serde_json` found in it.
pub fn decide_load_step(blank: bool, probe: Option<Option<u64>>) -> (s: ConfigLoadStep)
    ensures
        s == load_step_for(blank, probe),
{
    if blank {
        return ConfigLoadStep::UseDefaults;
    }
    match probe {
        None => ConfigLoadStep::NotJson,
        Some(v) => {
            let wide = match v {
                Some(n) => n,
                None => 1u64,
            };
            #[verifier::truncate]
            let version = wide as u32;
            if version == CONFIG_SCHEMA_VERSION {
                ConfigLoadStep::ParseCurrent
            } else if version == 1 {
                ConfigLoadStep::ParseLegacy
            } else {
                ConfigLoadStep::Unsupported(version)
            }
        },
    }
}

/// Whether the text of a settings file is blank, as [`settings_blank`]
/// defines it.
pub fn is_blank_settings(text: &str) -> (blank: bool)
    ensures
        blank == settings_blank(text@),
{
    let v = chars_of(text);
    let ghost s = text@;
    let mut a: usize = 0;
    while a < v.len() && v[a] == '\0'
        invariant
            v@ == s,
            a <= v.len(),
            first_non_nul_from(s, 0) == first_non_nul_from(s, a as int),
        decreases v.len() - a,
    {
        a = a + 1;
    }
    let mut b: usize = v.len();
    while b > 0 && v[b - 1] == '\0'
        invariant
            v@ == s,
            b <= v.len(),
            last_non_nul_before(s, s.len() as int) == last_non_nul_before(s, b as int),
        decreases b,
    {
        b = b - 1;
    }
    let mut i: usize = a;
    while i < b
        invariant
            v@ == s,
            s == text@,
            a <= i,
            b <= v.len(),
            a == first_non_nul_from(s, 0),
            b == last_non_nul_before(s, s.len() as int),
            forall|j: int| a <= j < i ==> is_unicode_whitespace(#[trigger] s[j]),
        decreases b - i,
    {
        let u = v[i] as u32;
        let ws = (0x9 <= u && u <= 0xd) || u == 0x20 || u == 0x85 || u == 0xa0 || u == 0x1680 || (0x2000
            <= u && u <= 0x200a) || u == 0x2028 || u == 0x2029 || u == 0x202f || u == 0x205f || u == 0x3000;
        if !ws {
            assert(!is_unicode_whitespace(s[i as int]));
            return false;
        }
        i = i + 1;
    }
    true
}

/// What to do with the text of an existing settings file: a blank file is
/// replaced by the defaults, one that is not JSON is refused, and otherwise
/// the schema version decides.
pub fn config_load_step(text: &str) -> (s: ConfigLoadStep)
    ensures
        s == load_step_for(settings_blank(text@), if settings_blank(text@) {
            None
        } else {
            json_u64_member(text@, "schema_version"@)
        }),
{
    if is_blank_settings(text) {
        return ConfigLoadStep::UseDefaults;
    }
    let probe = probe_u64_member(text, "schema_version");
    decide_load_step(false, probe)
}

/// The refusal for a settings file of schema `version`.
pub fn unsupported_schema_message(version: u32) -> (m: String)
    ensures
        m@ == "settings.json schema_version "@ + decimal(version as nat) + " unsupported; expected <= "@
            + decimal(CONFIG_SCHEMA_VERSION as nat),
{
    let a = concat("settings.json schema_version ", decimal_string(version as u128).as_str());
    let b = concat(a.as_str(), " unsupported; expected <= ");
    concat(b.as_str(), decimal_string(CONFIG_SCHEMA_VERSION as u128).as_str())
}

impl Config {
    /// A schema v1 file brought to the current schema: its window, render
    /// and path settings, in character mode.
    pub fn from_legacy(window: WindowConfig, render: RenderConfig, paths: PathsConfig) -> (c: Config)
        ensures
            c.schema_version == CONFIG_SCHEMA_VERSION,
            c.window == window,
            c.render == render,
            c.paths == paths,
            c.editor.last_mode == EditorMode::Character,
    {
        Config {
            schema_version: CONFIG_SCHEMA_VERSION,
            window,
            render,
            paths,
            editor: EditorConfig { last_mode: EditorMode::Character },
        }
    }

    /// A loaded window with a zero side becomes 1280 x 720.
    pub fn with_window_fallback(self) -> (c: Config)
        ensures
            (self.window.width == 0 || self.window.height == 0) ==> c.window.width == 1280
                && c.window.height == 720,
            !(self.window.width == 0 || self.window.height == 0) ==> c.window.width == self.window.width
                && c.window.height == self.window.height,
            c.window.title == self.window.title,
            c.window.vsync == self.window.vsync,
            c.schema_version == self.schema_version,
            c.render == self.render,
            c.paths == self.paths,
            c.editor == self.editor,
    {
        let mut c = self;
        if c.window.width == 0 || c.window.height == 0 {
            c.window.width = 1280;
            c.window.height = 720;
        }
        c
    }
}

} // verus!
