//! Workspace paths shared by the builder's subcommands.

use vstd::prelude::*;

use crate::metadata::AssetCategory;
use crate::pathtext::{join_path, path_join};
use crate::text::{chars_of, concat, debug_char, debug_char_text, debug_str, debug_str_text, owned};

verus! {

/// Subdirectory under `assets/processed/avatars/` for a category, in the
/// plural form the existing fixtures use. `None` for categories that are not
/// an avatar mesh on disk.
pub open spec fn category_dir_name(cat: AssetCategory) -> Option<Seq<char>> {
    match cat {
        AssetCategory::Body => Some("bodies"@),
        AssetCategory::Head => Some("heads"@),
        AssetCategory::Hair => Some("hairs"@),
        AssetCategory::Top => Some("tops"@),
        AssetCategory::Bottom => Some("bottoms"@),
        AssetCategory::Shoes => Some("shoes"@),
        AssetCategory::Hat => Some("hats"@),
        AssetCategory::Glasses => Some("glasses"@),
        AssetCategory::Accessory => Some("accessories"@),
        _ => None,
    }
}

pub fn category_dir(cat: AssetCategory) -> (d: Option<&'static str>)
    ensures
        d is Some == category_dir_name(cat) is Some,
        d matches Some(s) ==> s@ == category_dir_name(cat)->0,
{
    match cat {
        AssetCategory::Body => Some("bodies"),
        AssetCategory::Head => Some("heads"),
        AssetCategory::Hair => Some("hairs"),
        AssetCategory::Top => Some("tops"),
        AssetCategory::Bottom => Some("bottoms"),
        AssetCategory::Shoes => Some("shoes"),
        AssetCategory::Hat => Some("hats"),
        AssetCategory::Glasses => Some("glasses"),
        AssetCategory::Accessory => Some("accessories"),
        AssetCategory::Animation | AssetCategory::Pose | AssetCategory::Background
        | AssetCategory::Material => None,
    }
}

/// `<workspace>/assets/processed/metadata/<id>.json`.
pub fn metadata_path(workspace_root: &str, id: &str) -> (p: String)
    ensures
        p@ == path_join(path_join(workspace_root@, "assets/processed/metadata"@), id@ + ".json"@),
{
    let dir = join_path(workspace_root, "assets/processed/metadata");
    let file = concat(id, ".json");
    join_path(dir.as_str(), file.as_str())
}

/// `<workspace>/assets/processed/thumbnails/<id>.png`.
pub fn thumbnail_path(workspace_root: &str, id: &str) -> (p: String)
    ensures
        p@ == path_join(path_join(workspace_root@, "assets/processed/thumbnails"@), id@ + ".png"@),
{
    let dir = join_path(workspace_root, "assets/processed/thumbnails");
    let file = concat(id, ".png");
    join_path(dir.as_str(), file.as_str())
}

/// The `model` field of an asset's metadata: `avatars/<dir>/<id>.glb`,
/// relative to `assets/processed/`.
pub fn relative_model_path(cat: AssetCategory, id: &str) -> (p: Option<String>)
    ensures
        p is Some == category_dir_name(cat) is Some,
        p matches Some(s) ==> s@ == "avatars/"@ + category_dir_name(cat)->0 + "/"@ + id@ + ".glb"@,
{
    let dir = match category_dir(cat) {
        Some(d) => d,
        None => return None,
    };
    let a = concat("avatars/", dir);
    let b = concat(a.as_str(), "/");
    let c = concat(b.as_str(), id);
    Some(concat(c.as_str(), ".glb"))
}

/// `thumbnails/<id>.png`, relative to `assets/processed/`.
pub fn relative_thumbnail_path(id: &str) -> (p: String)
    ensures
        p@ == "thumbnails/"@ + id@ + ".png"@,
{
    let a = concat("thumbnails/", id);
    concat(a.as_str(), ".png")
}

/// `<workspace>/user_data/asset_catalog.sqlite`.
pub fn catalog_db_path(workspace_root: &str) -> (p: String)
    ensures
        p@ == path_join(workspace_root@, "user_data/asset_catalog.sqlite"@),
{
    join_path(workspace_root, "user_data/asset_catalog.sqlite")
}

/// Characters an asset id may hold: `a-z`, `0-9` and `_`.
pub open spec fn is_id_char(c: char) -> bool {
    ('a' <= c && c <= 'z') || ('0' <= c && c <= '9') || c == '_'
}

/// Why an asset id was rejected.
#[derive(Debug, Clone)]
pub enum AssetIdError {
    Empty,
    /// The id and its first character outside `a-z`, `0-9`, `_`.
    InvalidCharacter { id: String, ch: char },
}

/// The text an id error is reported with.
pub open spec fn asset_id_error_text(e: AssetIdError) -> Seq<char> {
    match e {
        AssetIdError::Empty => "asset id is empty"@,
        AssetIdError::InvalidCharacter { id, ch } => "asset id "@ + debug_str_text(id@) + " contains invalid character "@
            + debug_char_text(ch) + " (allowed: a-z, 0-9, _)"@,
    }
}

impl AssetIdError {
    /// The text the error is reported with.
    pub fn message(&self) -> (s: String)
        ensures
            s@ == asset_id_error_text(*self),
    {
        match self {
            AssetIdError::Empty => owned("asset id is empty"),
            AssetIdError::InvalidCharacter { id, ch } => {
                let a = concat("asset id ", debug_str(id.as_str()).as_str());
                let b = concat(a.as_str(), " contains invalid character ");
                let c = concat(b.as_str(), debug_char(*ch).as_str());
                concat(c.as_str(), " (allowed: a-z, 0-9, _)")
            },
        }
    }
}

/// Index of the first character of `s` that may not stand in an id.
pub open spec fn first_bad_id_char(s: Seq<char>) -> Option<int>
    decreases s.len(),
{
    if s.len() == 0 {
        None
    } else if !is_id_char(s[0]) {
        Some(0)
    } else {
        match first_bad_id_char(s.drop_first()) {
            Some(i) => Some(i + 1),
            None => None,
        }
    }
}

proof fn lemma_first_bad_id_char(s: Seq<char>)
    ensures
        first_bad_id_char(s) matches Some(i) ==> 0 <= i < s.len() && !is_id_char(s[i])
            && forall|j: int| 0 <= j < i ==> is_id_char(#[trigger] s[j]),
        first_bad_id_char(s) is None ==> forall|j: int| 0 <= j < s.len() ==> is_id_char(#[trigger] s[j]),
    decreases s.len(),
{
    if s.len() > 0 {
        lemma_first_bad_id_char(s.drop_first());
        assert forall|j: int| 1 <= j < s.len() implies s[j] == s.drop_first()[j - 1] by {}
    }
}

/// Accept ids matching `^[a-z0-9_]+$`: no empty ids, no uppercase, nothing
/// that would make a bad file name.
pub fn validate_asset_id(id: &str) -> (r: Result<(), AssetIdError>)
    ensures
        id@.len() == 0 ==> r matches Err(AssetIdError::Empty),
        id@.len() > 0 ==> match first_bad_id_char(id@) {
            None => r is Ok,
            Some(i) => r matches Err(AssetIdError::InvalidCharacter { id: s, ch }) && s@ == id@ && ch == id@[i],
        },
{
    let v = chars_of(id);
    if v.len() == 0 {
        return Err(AssetIdError::Empty);
    }
    proof {
        lemma_first_bad_id_char(id@);
    }
    let mut i: usize = 0;
    while i < v.len()
        invariant
            v@ == id@,
            i <= v.len(),
            forall|j: int| 0 <= j < i ==> is_id_char(#[trigger] v@[j]),
            first_bad_id_char(id@) matches Some(k) ==> 0 <= k < id@.len() && !is_id_char(id@[k])
                && forall|j: int| 0 <= j < k ==> is_id_char(#[trigger] id@[j]),
            first_bad_id_char(id@) is None ==> forall|j: int| 0 <= j < id@.len() ==> is_id_char(#[trigger] id@[j]),
        decreases v.len() - i,
    {
        let c = v[i];
        if !(('a' <= c && c <= 'z') || ('0' <= c && c <= '9') || c == '_') {
            assert(first_bad_id_char(id@) == Some(i as int));
            return Err(AssetIdError::InvalidCharacter { id: owned(id), ch: c });
        }
        i = i + 1;
    }
    Ok(())
}

/// Where the generated top fixture's GLB is written.
pub fn output_glb_path(workspace_root: &str) -> (p: String)
    ensures
        p@ == path_join(workspace_root@, "assets/processed/avatars/tops/phase7_top.glb"@),
{
    join_path(workspace_root, "assets/processed/avatars/tops/phase7_top.glb")
}

/// Where the generated top fixture's metadata is written.
pub fn output_metadata_path(workspace_root: &str) -> (p: String)
    ensures
        p@ == path_join(workspace_root@, "assets/processed/metadata/phase7_top.json"@),
{
    join_path(workspace_root, "assets/processed/metadata/phase7_top.json")
}

} // verus!
