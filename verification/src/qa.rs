//! Where the integration checks find their reference data and the desktop
//! binary, relative to the workspace root.

use vstd::prelude::*;

use crate::pathtext::{join_path, path_join};
use crate::text::owned;

verus! {

/// Directory of the committed golden PNGs.
pub fn golden_dir(workspace_root: &str) -> (p: String)
    ensures
        p@ == path_join(workspace_root@, "tests/golden"@),
{
    join_path(workspace_root, "tests/golden")
}

/// Directory of the committed perf baselines.
pub fn baseline_dir(workspace_root: &str) -> (p: String)
    ensures
        p@ == path_join(workspace_root@, "tests/baselines"@),
{
    join_path(workspace_root, "tests/baselines")
}

/// The desktop binary's file name on the platform.
pub open spec fn desktop_exe_name(windows: bool) -> Seq<char> {
    if windows {
        "avatar_desktop.exe"@
    } else {
        "avatar_desktop"@
    }
}

/// Where a build of `profile` puts the desktop binary:
/// `<root>/target/<profile>/<exe>`.
pub open spec fn desktop_bin_path(root: Seq<char>, profile: Seq<char>, windows: bool) -> Seq<char> {
    path_join(path_join(path_join(root, "target"@), profile), desktop_exe_name(windows))
}

fn bin_path(root: &str, profile: &str, windows: bool) -> (p: String)
    ensures
        p@ == desktop_bin_path(root@, profile@, windows),
{
    let t = join_path(root, "target");
    let d = join_path(t.as_str(), profile);
    let exe = if windows { "avatar_desktop.exe" } else { "avatar_desktop" };
    join_path(d.as_str(), exe)
}

fn exe_name(windows: bool) -> (s: &'static str)
    ensures
        s@ == desktop_exe_name(windows),
{
    if windows {
        "avatar_desktop.exe"
    } else {
        "avatar_desktop"
    }
}

/// The places the desktop binary is looked for, in order: the test-target
/// directory (`CARGO_TARGET_TMPDIR`, when the variable is set), then the
/// debug build, then the release build.
pub open spec fn desktop_bin_paths(root: Seq<char>, target_tmpdir: Option<Seq<char>>, windows: bool) -> Seq<Seq<char>> {
    let builds = seq![desktop_bin_path(root, "debug"@, windows), desktop_bin_path(root, "release"@, windows)];
    match target_tmpdir {
        Some(t) => seq![path_join(t, desktop_exe_name(windows))] + builds,
        None => builds,
    }
}

pub open spec fn opt_str(o: Option<&str>) -> Option<Seq<char>> {
    match o {
        Some(s) => Some(s@),
        None => None,
    }
}

/// The first of `paths` from `i` on that `exists` marks, if any.
pub open spec fn first_existing(paths: Seq<Seq<char>>, exists: Seq<bool>, i: int) -> Option<Seq<char>>
    decreases paths.len() - i,
{
    if i < 0 || i >= paths.len() {
        None
    } else if exists[i] {
        Some(paths[i])
    } else {
        first_existing(paths, exists, i + 1)
    }
}

/// The places the desktop binary is looked for, in order.
pub fn desktop_bin_candidates(workspace_root: &str, target_tmpdir: Option<&str>, windows: bool) -> (v: Vec<String>)
    ensures
        v@.len() == desktop_bin_paths(workspace_root@, opt_str(target_tmpdir), windows).len(),
        forall|i: int| 0 <= i < v@.len() ==> (#[trigger] v@[i])@ == desktop_bin_paths(
            workspace_root@,
            opt_str(target_tmpdir),
            windows,
        )[i],
{
    let mut v: Vec<String> = Vec::new();
    if let Some(t) = target_tmpdir {
        v.push(join_path(t, exe_name(windows)));
    }
    v.push(bin_path(workspace_root, "debug", windows));
    v.push(bin_path(workspace_root, "release", windows));
    v
}

/// The desktop binary: the first candidate of [`desktop_bin_candidates`]
/// that exists (`exists[i]` tells whether candidate `i` does), or why none
/// was found.
pub fn avatar_desktop_bin(workspace_root: &str, windows: bool, target_tmpdir: Option<&str>, exists: &Vec<bool>) -> (r: Result<String, String>)
    requires
        exists@.len() == desktop_bin_paths(workspace_root@, opt_str(target_tmpdir), windows).len(),
    ensures
        match first_existing(desktop_bin_paths(workspace_root@, opt_str(target_tmpdir), windows), exists@, 0) {
            Some(p) => r matches Ok(s) && s@ == p,
            None => r matches Err(m) && m@
                == "avatar_desktop binary not found under target/. Run `cargo build --bin avatar_desktop` first."@,
        },
{
    let candidates = desktop_bin_candidates(workspace_root, target_tmpdir, windows);
    let ghost paths = desktop_bin_paths(workspace_root@, opt_str(target_tmpdir), windows);
    let mut i: usize = 0;
    while i < candidates.len()
        invariant
            paths == desktop_bin_paths(workspace_root@, opt_str(target_tmpdir), windows),
            candidates@.len() == paths.len(),
            exists@.len() == paths.len(),
            forall|k: int| 0 <= k < candidates@.len() ==> (#[trigger] candidates@[k])@ == paths[k],
            i <= candidates@.len(),
            first_existing(paths, exists@, 0) == first_existing(paths, exists@, i as int),
        decreases candidates.len() - i,
    {
        if exists[i] {
            return Ok(candidates[i].clone());
        }
        i = i + 1;
    }
    Err(owned("avatar_desktop binary not found under target/. Run `cargo build --bin avatar_desktop` first."))
}

} // verus!
