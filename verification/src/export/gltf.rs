//! The GLB/VRM export surface. Runtime meshes keep only GPU buffers after
//! loading, so a composed avatar cannot be written yet: the export checks
//! its destination and then reports that blocker.

use vstd::prelude::*;

use crate::pathtext::{components, path_components};
use crate::text::owned;

verus! {

#[derive(Debug, Clone, Copy, PartialEq, Eq, Structural)]
pub enum AvatarGlbFormat {
    Glb,
    Vrm,
}

#[derive(Debug, Clone, PartialEq, Eq)]
pub struct AvatarGlbExportOptions {
    pub format: AvatarGlbFormat,
    pub include_animation: bool,
}

impl Default for AvatarGlbExportOptions {
    fn default() -> (o: AvatarGlbExportOptions)
        ensures
            o.format == AvatarGlbFormat::Glb,
            o.include_animation,
    {
        AvatarGlbExportOptions { format: AvatarGlbFormat::Glb, include_animation: true }
    }
}

#[derive(Debug, Clone)]
pub enum AvatarGlbExportError {
    /// Composing an avatar needs CPU-side mesh data, which runtime meshes
    /// do not keep.
    CpuMeshDataUnavailable,
    /// The destination's extension does not name the format.
    UnsupportedDestination { path: String },
}

/// The extension a destination of `format` must have.
pub open spec fn format_extension(format: AvatarGlbFormat) -> Seq<char> {
    match format {
        AvatarGlbFormat::Glb => "glb"@,
        AvatarGlbFormat::Vrm => "vrm"@,
    }
}

/// The file name of a path (`Path::file_name`): its last component, unless
/// that is `.` or `..` or there is none.
pub open spec fn file_name(path: Seq<char>) -> Option<Seq<char>> {
    let comps = path_components(path);
    if comps.len() == 0 || comps.last() == seq!['.'] || comps.last() == seq!['.', '.'] {
        None
    } else {
        Some(comps.last())
    }
}

/// Index of the last `.` among the first `k` characters of `s`.
pub open spec fn last_dot_upto(s: Seq<char>, k: int) -> Option<int>
    decreases k,
{
    if k <= 0 {
        None
    } else if s[k - 1] == '.' {
        Some(k - 1)
    } else {
        last_dot_upto(s, k - 1)
    }
}

/// `Path::extension`: what follows the last `.` of the file name, unless
/// the name has no `.` or its only `.` comes first.
pub open spec fn path_extension(path: Seq<char>) -> Option<Seq<char>> {
    match file_name(path) {
        None => None,
        Some(name) => match last_dot_upto(name, name.len() as int) {
            None => None,
            Some(d) => if d == 0 {
                None
            } else {
                Some(name.subrange(d + 1, name.len() as int))
            },
        },
    }
}

/// The code of `c` with ASCII upper case folded to lower case.
pub open spec fn ascii_lower(c: char) -> int {
    if 'A' <= c && c <= 'Z' {
        (c as u32) + 32
    } else {
        (c as u32) as int
    }
}

/// `str::eq_ignore_ascii_case`.
pub open spec fn eq_ignore_ascii_case(a: Seq<char>, b: Seq<char>) -> bool {
    a.len() == b.len() && forall|i: int| 0 <= i < a.len() ==> ascii_lower(#[trigger] a[i]) == ascii_lower(b[i])
}

/// Whether `path` ends in the extension of `format`, in any ASCII case.
pub open spec fn destination_ok(path: Seq<char>, format: AvatarGlbFormat) -> bool {
    path_extension(path) matches Some(ext) && eq_ignore_ascii_case(ext, format_extension(format))
}

fn lower(c: char) -> (l: u32)
    ensures
        l == ascii_lower(c),
{
    if 'A' <= c && c <= 'Z' {
        (c as u32) + 32
    } else {
        c as u32
    }
}

fn extension_matches(ext: &Vec<char>, start: usize, expected: &Vec<char>) -> (b: bool)
    requires
        start <= ext@.len(),
    ensures
        b == eq_ignore_ascii_case(ext@.subrange(start as int, ext@.len() as int), expected@),
{
    let ghost e = ext@.subrange(start as int, ext@.len() as int);
    if ext.len() - start != expected.len() {
        return false;
    }
    let mut i: usize = 0;
    while i < expected.len()
        invariant
            start <= ext@.len(),
            e == ext@.subrange(start as int, ext@.len() as int),
            ext@.len() - start == expected@.len(),
            start + expected@.len() == ext@.len(),
            i <= expected.len(),
            forall|k: int| 0 <= k < i ==> ascii_lower(#[trigger] e[k]) == ascii_lower(expected@[k]),
        decreases expected.len() - i,
    {
        assert(start + i < ext.len());
        if lower(ext[start + i]) != lower(expected[i]) {
            assert(e[i as int] == ext@[start + i]);
            return false;
        }
        i = i + 1;
    }
    true
}

/// Check that `path` names a file of `format`: its extension is `glb` or
/// `vrm` respectively, in any ASCII case.
pub fn validate_destination(path: &str, format: AvatarGlbFormat) -> (r: Result<(), AvatarGlbExportError>)
    ensures
        destination_ok(path@, format) ==> r is Ok,
        !destination_ok(path@, format) ==> (r matches Err(AvatarGlbExportError::UnsupportedDestination { path: p })
            && p@ == path@),
{
    let expected: Vec<char> = match format {
        AvatarGlbFormat::Glb => vec!['g', 'l', 'b'],
        AvatarGlbFormat::Vrm => vec!['v', 'r', 'm'],
    };
    assert(expected@ == format_extension(format)) by {
        reveal_strlit("glb");
        reveal_strlit("vrm");
    }
    let comps = components(path);
    let ghost pc = path_components(path@);
    let refused = Err(AvatarGlbExportError::UnsupportedDestination { path: owned(path) });
    if comps.len() == 0 {
        return refused;
    }
    let name = &comps[comps.len() - 1];
    assert(name@ == pc.last());
    let is_dot = name.len() == 1 && name[0] == '.';
    let is_dotdot = name.len() == 2 && name[0] == '.' && name[1] == '.';
    assert(is_dot == (name@ == seq!['.'])) by {
        if name@.len() == 1 && name@[0] == '.' {
            assert(name@ =~= seq!['.']);
        }
    }
    assert(is_dotdot == (name@ == seq!['.', '.'])) by {
        if name@.len() == 2 && name@[0] == '.' && name@[1] == '.' {
            assert(name@ =~= seq!['.', '.']);
        }
    }
    if is_dot || is_dotdot {
        return refused;
    }
    let mut k: usize = name.len();
    while k > 0
        invariant
            k <= name@.len(),
            last_dot_upto(name@, name@.len() as int) == last_dot_upto(name@, k as int),
        ensures
            k <= name@.len(),
            last_dot_upto(name@, name@.len() as int) == last_dot_upto(name@, k as int),
            k > 0 ==> name@[k - 1] == '.',
        decreases k,
    {
        if name[k - 1] == '.' {
            break;
        }
        k = k - 1;
    }
    if k == 0 {
        return refused;
    }
    let d = k - 1;
    assert(last_dot_upto(name@, name@.len() as int) == Some(d as int));
    if d == 0 {
        return refused;
    }
    if extension_matches(name, k, &expected) {
        Ok(())
    } else {
        refused
    }
}

/// The composed-avatar export: a destination of the wrong kind is refused,
/// and any other meets the missing CPU mesh data.
pub fn export_composed_avatar_placeholder(path: &str, options: &AvatarGlbExportOptions) -> (r: Result<(), AvatarGlbExportError>)
    ensures
        destination_ok(path@, options.format) ==> (r matches Err(AvatarGlbExportError::CpuMeshDataUnavailable)),
        !destination_ok(path@, options.format) ==> (r matches Err(AvatarGlbExportError::UnsupportedDestination { path: p })
            && p@ == path@),
{
    match validate_destination(path, options.format) {
        Err(e) => Err(e),
        Ok(()) => Err(AvatarGlbExportError::CpuMeshDataUnavailable),
    }
}

} // verus!
