//! Runtime path resolution.
//!
//! The same program runs from three layouts:
//!
//! - **workspace** — started from a source checkout; `assets/` and
//!   `user_data/` are relative to the working directory;
//! - **portable** — a self-contained directory with its own `assets/` and
//!   `user_data/` next to the executable, chosen by the
//!    `AVATAR_STUDIO_PORTABLE` switch or a marker file next to the
//!    executable;
//! - **installed** — `assets/` next to the executable and user data under
//!    the per-user local application data directory.
//!
//! Priority for both roots: environment override > portable marker >
//! workspace fallback > installed default. A workspace run is recognised by
//! an executable directory whose parent is named `target`.

use vstd::prelude::*;

use crate::pathtext::{components_on, join_path, path_components_on, path_join};
use crate::text::{owned, str_eq};

verus! {

pub const PORTABLE_MARKER: &'static str = "avatar_studio.portable";
pub const ASSETS_ENV: &'static str = "AVATAR_STUDIO_ASSETS";
pub const USER_DATA_ENV: &'static str = "AVATAR_STUDIO_USER_DATA";
pub const PORTABLE_ENV: &'static str = "AVATAR_STUDIO_PORTABLE";
pub const USER_DATA_DIR_NAME: &'static str = "AvatarStudio";

#[derive(Debug, Clone, Copy, PartialEq, Eq, Structural)]
pub enum PathMode {
    /// Started from a source checkout: the executable lives under `target/...`.
    Workspace,
    /// Portable bundle: the executable sits with its own `assets/` and `user_data/`.
    Portable,
    /// Installed: read-only assets next to the executable, user data in the
    /// local application data directory.
    Installed,
}

/// The resolved layout, built once at startup.
#[derive(Debug, Clone)]
pub struct ResolvedPaths {
    pub assets: String,
    pub user_data: String,
    pub mode: PathMode,
}

/// Environment inputs the resolver consults.
#[derive(Debug, Clone)]
pub struct EnvProbe {
    pub assets: Option<String>,
    pub user_data: Option<String>,
    pub portable: bool,
    pub local_app_data: Option<String>,
}

impl Default for EnvProbe {
    fn default() -> (e: EnvProbe)
        ensures
            e.assets is None,
            e.user_data is None,
            !e.portable,
            e.local_app_data is None,
    {
        EnvProbe { assets: None, user_data: None, portable: false, local_app_data: None }
    }
}

impl ResolvedPaths {
    pub fn settings(&self) -> (p: String)
        ensures
            p@ == path_join(self.user_data@, "settings.json"@),
    {
        join_path(self.user_data.as_str(), "settings.json")
    }

    pub fn catalog_db(&self) -> (p: String)
        ensures
            p@ == path_join(self.user_data@, "asset_catalog.sqlite"@),
    {
        join_path(self.user_data.as_str(), "asset_catalog.sqlite")
    }

    pub fn characters_dir(&self) -> (p: String)
        ensures
            p@ == path_join(self.user_data@, "characters"@),
    {
        join_path(self.user_data.as_str(), "characters")
    }

    pub fn exports_dir(&self) -> (p: String)
        ensures
            p@ == path_join(self.user_data@, "exports"@),
    {
        join_path(self.user_data.as_str(), "exports")
    }

    pub fn debug_screenshots_dir(&self) -> (p: String)
        ensures
            p@ == path_join(self.user_data@, "debug_screenshots"@),
    {
        join_path(self.user_data.as_str(), "debug_screenshots")
    }

    pub fn perf_dir(&self) -> (p: String)
        ensures
            p@ == path_join(self.user_data@, "perf"@),
    {
        join_path(self.user_data.as_str(), "perf")
    }

    pub fn assets_processed(&self) -> (p: String)
        ensures
            p@ == path_join(self.assets@, "processed"@),
    {
        join_path(self.assets.as_str(), "processed")
    }
}

/// Whether the directory's last two components, split as the platform
/// splits paths, are `target` and something (`target/debug`,
/// `target/release`, per-profile directories).
pub open spec fn is_under_target(dir: Seq<char>, windows: bool) -> bool {
    let c = path_components_on(dir, windows);
    c.len() >= 2 && c[c.len() - 2] == "target"@
}

/// The layout: the portable switch, then the portable marker next to the
/// executable, then a `target/<profile>` executable directory, else
/// installed.
pub open spec fn mode_for(exe_dir: Option<Seq<char>>, portable: bool, marker_present: bool, windows: bool) -> PathMode {
    if portable {
        PathMode::Portable
    } else if exe_dir is Some && marker_present {
        PathMode::Portable
    } else if exe_dir is Some && is_under_target(exe_dir->0, windows) {
        PathMode::Workspace
    } else {
        PathMode::Installed
    }
}

pub fn exe_dir_under_target(dir: &str, windows: bool) -> (b: bool)
    ensures
        b == is_under_target(dir@, windows),
{
    let c = components_on(dir, windows);
    if c.len() < 2 {
        return false;
    }
    crate::text::chars_eq_str(&c[c.len() - 2], "target")
}

/// The portable switch is on when its variable reads `1`, `true` or `TRUE`.
pub open spec fn portable_flag_on(value: Option<Seq<char>>) -> bool {
    match value {
        Some(v) => v == "1"@ || v == "true"@ || v == "TRUE"@,
        None => false,
    }
}

/// Whether the value of the portable variable (if set) turns portable
/// mode on.
pub fn portable_flag(value: Option<&str>) -> (b: bool)
    ensures
        b == portable_flag_on(match value {
            Some(v) => Some(v@),
            None => None,
        }),
{
    match value {
        Some(v) => str_eq(v, "1") || str_eq(v, "true") || str_eq(v, "TRUE"),
        None => false,
    }
}

/// Classify the layout. `marker_present` tells whether the portable marker
/// file exists next to the executable; `windows`, whether paths are split
/// as on Windows.
pub fn classify_mode(exe_dir: Option<&str>, env: &EnvProbe, marker_present: bool, windows: bool) -> (m: PathMode)
    ensures
        m == mode_for(
            match exe_dir {
                Some(d) => Some(d@),
                None => None,
            },
            env.portable,
            marker_present,
            windows,
        ),
{
    if env.portable {
        return PathMode::Portable;
    }
    match exe_dir {
        Some(dir) => {
            if marker_present {
                return PathMode::Portable;
            }
            if exe_dir_under_target(dir, windows) {
                return PathMode::Workspace;
            }
            PathMode::Installed
        },
        None => PathMode::Installed,
    }
}

/// Where assets live.
pub open spec fn assets_root(exe_dir: Option<Seq<char>>, env_assets: Option<Seq<char>>, mode: PathMode) -> Seq<char> {
    match env_assets {
        Some(p) => p,
        None => match mode {
            PathMode::Workspace => "assets"@,
            _ => match exe_dir {
                Some(d) => path_join(d, "assets"@),
                None => "assets"@,
            },
        },
    }
}

/// Where user data lives.
pub open spec fn user_data_root(
    exe_dir: Option<Seq<char>>,
    env_user_data: Option<Seq<char>>,
    local_app_data: Option<Seq<char>>,
    mode: PathMode,
) -> Seq<char> {
    match env_user_data {
        Some(p) => p,
        None => match mode {
            PathMode::Workspace => "user_data"@,
            PathMode::Portable => match exe_dir {
                Some(d) => path_join(d, "user_data"@),
                None => "user_data"@,
            },
            PathMode::Installed => match local_app_data {
                Some(d) => path_join(d, "AvatarStudio"@),
                None => "user_data"@,
            },
        },
    }
}

pub open spec fn opt_view(o: Option<String>) -> Option<Seq<char>> {
    match o {
        Some(s) => Some(s@),
        None => None,
    }
}

pub open spec fn opt_str_view(o: Option<&str>) -> Option<Seq<char>> {
    match o {
        Some(s) => Some(s@),
        None => None,
    }
}

/// Resolve both roots from the executable directory, the environment,
/// whether the portable marker exists next to the executable, and whether
/// paths are split as on Windows.
pub fn resolve_with(exe_dir: Option<&str>, env: &EnvProbe, marker_present: bool, windows: bool) -> (r: ResolvedPaths)
    ensures
        r.mode == mode_for(opt_str_view(exe_dir), env.portable, marker_present, windows),
        r.assets@ == assets_root(opt_str_view(exe_dir), opt_view(env.assets), r.mode),
        r.user_data@ == user_data_root(
            opt_str_view(exe_dir),
            opt_view(env.user_data),
            opt_view(env.local_app_data),
            r.mode,
        ),
{
    let mode = classify_mode(exe_dir, env, marker_present, windows);
    assert(mode == mode_for(opt_str_view(exe_dir), env.portable, marker_present, windows));
    let assets = match &env.assets {
        Some(p) => p.clone(),
        None => match mode {
            PathMode::Workspace => owned("assets"),
            PathMode::Portable | PathMode::Installed => match exe_dir {
                Some(d) => join_path(d, "assets"),
                None => owned("assets"),
            },
        },
    };
    let user_data = match &env.user_data {
        Some(p) => p.clone(),
        None => match mode {
            PathMode::Workspace => owned("user_data"),
            PathMode::Portable => match exe_dir {
                Some(d) => join_path(d, "user_data"),
                None => owned("user_data"),
            },
            PathMode::Installed => match &env.local_app_data {
                Some(d) => join_path(d.as_str(), USER_DATA_DIR_NAME),
                None => owned("user_data"),
            },
        },
    };
    ResolvedPaths { assets, user_data, mode }
}

} // verus!
