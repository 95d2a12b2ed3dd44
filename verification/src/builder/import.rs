//! How the `import` command assembles an asset's metadata from a sidecar
//! and command-line flags, and where the imported files go. Reading the
//! sidecar, copying the GLB and writing the catalog are the caller's.

use vstd::prelude::*;

use crate::builder::paths::{
    asset_id_error_text, category_dir, category_dir_name, first_bad_id_char, metadata_path, relative_model_path, thumbnail_path,
    validate_asset_id, AssetIdError,
};
use crate::builder::validate::{opt_views, views};
use crate::metadata::{
    category_from_sql_name, category_variant_name, is_wearable_category, variant_name, wearable_category, AssetCategory,
    AssetMeta,
};
use crate::pathtext::{join_path, path_join};
use crate::skeleton::AVATAR_SKELETON_V1;
use crate::save::is_unicode_whitespace;
use crate::text::{chars_of, concat, owned, str_eq, string_from_chars};

verus! {

/// The `import` command's arguments. Paths are as given; `default_color`
/// holds `f32` bit patterns.
#[derive(Debug, Clone)]
pub struct ImportArgs {
    pub input: String,
    pub workspace_root: String,
    pub id: Option<String>,
    pub category: Option<AssetCategory>,
    pub display_name: Option<String>,
    pub body_types: Vec<String>,
    pub skeleton: Option<String>,
    pub supports_color: bool,
    pub default_color: Option<[u32; 3]>,
    pub tags: Vec<String>,
    pub meta_path: Option<String>,
    pub thumb: bool,
    pub thumb_width: u32,
    pub thumb_height: u32,
    pub force: bool,
}

impl Default for ImportArgs {
    fn default() -> (a: ImportArgs)
        ensures
            a.input@.len() == 0,
            a.workspace_root@.len() == 0,
            a.id is None,
            a.category is None,
            a.display_name is None,
            a.body_types@.len() == 0,
            a.skeleton is None,
            !a.supports_color,
            a.default_color is None,
            a.tags@.len() == 0,
            a.meta_path is None,
            !a.thumb,
            a.thumb_width == 0,
            a.thumb_height == 0,
            !a.force,
    {
        ImportArgs {
            input: String::new(),
            workspace_root: String::new(),
            id: None,
            category: None,
            display_name: None,
            body_types: Vec::new(),
            skeleton: None,
            supports_color: false,
            default_color: None,
            tags: Vec::new(),
            meta_path: None,
            thumb: false,
            thumb_width: 0,
            thumb_height: 0,
            force: false,
        }
    }
}

/// Where an import put things.
#[derive(Debug, Clone)]
pub struct ImportReport {
    pub id: String,
    pub model_path: String,
    pub metadata_path: String,
    pub thumbnail_path: Option<String>,
}

/// Why an import was refused.
#[derive(Debug, Clone)]
pub enum ImportError {
    /// No `--category` and no sidecar to take it from.
    MissingCategory,
    /// Neither `--id` nor the sidecar gives an id.
    MissingId,
    InvalidId(AssetIdError),
    /// The category has no directory of avatar meshes.
    NotImportable(AssetCategory),
    /// The catalog already holds the id, and `--force` was not given.
    AlreadyExists { id: String, model: String },
}

/// The text an import refusal is reported with.
pub open spec fn import_error_text(e: ImportError) -> Seq<char> {
    match e {
        ImportError::MissingCategory => "--category is required (no sidecar provided)"@,
        ImportError::MissingId => "--id is required (no id in sidecar)"@,
        ImportError::InvalidId(inner) => asset_id_error_text(inner),
        ImportError::NotImportable(c) => "category "@ + category_variant_name(c) + " is not importable"@,
        ImportError::AlreadyExists { id, model } => "asset id '"@ + id@ + "' already exists (model="@ + model@
            + "); pass --force to overwrite"@,
    }
}

impl ImportError {
    /// The text the refusal is reported with.
    pub fn message(&self) -> (s: String)
        ensures
            s@ == import_error_text(*self),
    {
        match self {
            ImportError::MissingCategory => owned("--category is required (no sidecar provided)"),
            ImportError::MissingId => owned("--id is required (no id in sidecar)"),
            ImportError::InvalidId(inner) => inner.message(),
            ImportError::NotImportable(c) => {
                let a = concat("category ", variant_name(*c));
                concat(a.as_str(), " is not importable")
            },
            ImportError::AlreadyExists { id, model } => {
                let a = concat("asset id '", id.as_str());
                let b = concat(a.as_str(), "' already exists (model=");
                let c = concat(b.as_str(), model.as_str());
                concat(c.as_str(), "); pass --force to overwrite")
            },
        }
    }
}

/// The metadata an import starts from when no sidecar is given.
pub open spec fn blank_meta_holds(m: AssetMeta) -> bool {
    &&& m.id@.len() == 0
    &&& m.display_name@.len() == 0
    &&& m.category == AssetCategory::Body
    &&& m.model@.len() == 0
    &&& m.thumbnail is None
    &&& !m.supports_color
    &&& m.default_color is None
    &&& m.compatible_body_types@.len() == 0
    &&& m.compatible_skeleton is None
    &&& m.tags@.len() == 0
    &&& m.version == 1
}

fn blank_meta() -> (m: AssetMeta)
    ensures
        blank_meta_holds(m),
{
    AssetMeta {
        id: String::new(),
        display_name: String::new(),
        category: AssetCategory::Body,
        model: String::new(),
        thumbnail: None,
        supports_color: false,
        default_color: None,
        compatible_body_types: Vec::new(),
        compatible_skeleton: None,
        tags: Vec::new(),
        version: 1,
    }
}

/// The fields an import starts from: the sidecar's, or blank ones (a body,
/// version 1) when there is no sidecar.
pub open spec fn base_id(sidecar: Option<AssetMeta>) -> Seq<char> {
    match sidecar {
        Some(m) => m.id@,
        None => Seq::empty(),
    }
}

pub open spec fn base_display_name(sidecar: Option<AssetMeta>) -> Seq<char> {
    match sidecar {
        Some(m) => m.display_name@,
        None => Seq::empty(),
    }
}

pub open spec fn base_category(sidecar: Option<AssetMeta>) -> AssetCategory {
    match sidecar {
        Some(m) => m.category,
        None => AssetCategory::Body,
    }
}

pub open spec fn base_body_types(sidecar: Option<AssetMeta>) -> Seq<Seq<char>> {
    match sidecar {
        Some(m) => views(m.compatible_body_types@),
        None => Seq::empty(),
    }
}

pub open spec fn base_skeleton(sidecar: Option<AssetMeta>) -> Option<Seq<char>> {
    match sidecar {
        Some(m) => opt_views(m.compatible_skeleton),
        None => None,
    }
}

pub open spec fn base_tags(sidecar: Option<AssetMeta>) -> Seq<Seq<char>> {
    match sidecar {
        Some(m) => views(m.tags@),
        None => Seq::empty(),
    }
}

pub open spec fn merged_id(args: ImportArgs, sidecar: Option<AssetMeta>) -> Seq<char> {
    match args.id {
        Some(i) => i@,
        None => base_id(sidecar),
    }
}

pub open spec fn merged_category(args: ImportArgs, sidecar: Option<AssetMeta>) -> AssetCategory {
    match args.category {
        Some(c) => c,
        None => base_category(sidecar),
    }
}

pub open spec fn merged_display_name(args: ImportArgs, sidecar: Option<AssetMeta>) -> Seq<char> {
    let d = match args.display_name {
        Some(n) => n@,
        None => base_display_name(sidecar),
    };
    if d.len() == 0 {
        merged_id(args, sidecar)
    } else {
        d
    }
}

/// Whether the flags say `--skeleton null`.
pub open spec fn skeleton_cleared(args: ImportArgs) -> bool {
    args.skeleton matches Some(k) && k@ == "null"@
}

/// `--skeleton null` clears the skeleton, whatever the category; a
/// wearable that names none otherwise gets `avatar_skeleton_v1`.
pub open spec fn merged_skeleton(args: ImportArgs, sidecar: Option<AssetMeta>) -> Option<Seq<char>> {
    let s = match args.skeleton {
        Some(k) => if k@ == "null"@ {
            None
        } else {
            Some(k@)
        },
        None => base_skeleton(sidecar),
    };
    if s is None && !skeleton_cleared(args) && is_wearable_category(merged_category(args, sidecar)) {
        Some(AVATAR_SKELETON_V1@)
    } else {
        s
    }
}

/// A list flag replaces the sidecar's list when it is not empty.
pub open spec fn merged_list(flag: Seq<String>, base: Seq<Seq<char>>) -> Seq<Seq<char>> {
    if flag.len() > 0 {
        views(flag)
    } else {
        base
    }
}

/// The refusal an import of `args` meets before any file is touched, if
/// any: `None` when the metadata can be assembled.
pub open spec fn import_meta_refusal(args: ImportArgs, sidecar: Option<AssetMeta>, r: Result<AssetMeta, ImportError>) -> bool {
    let id = merged_id(args, sidecar);
    let cat = merged_category(args, sidecar);
    if args.category is None && args.meta_path is None {
        r matches Err(ImportError::MissingCategory)
    } else if id.len() == 0 {
        r matches Err(ImportError::MissingId)
    } else if first_bad_id_char(id) is Some {
        r matches Err(ImportError::InvalidId(AssetIdError::InvalidCharacter { id: s, ch })) && s@ == id
            && ch == id[first_bad_id_char(id)->0]
    } else if category_dir_name(cat) is None {
        r matches Err(ImportError::NotImportable(c)) && c == cat
    } else {
        r matches Ok(m) && merged_meta_holds(args, sidecar, m)
    }
}

/// `m` is the metadata that importing with `args` writes.
pub open spec fn merged_meta_holds(args: ImportArgs, sidecar: Option<AssetMeta>, m: AssetMeta) -> bool {
    let id = merged_id(args, sidecar);
    let cat = merged_category(args, sidecar);
    &&& m.id@ == id
    &&& m.category == cat
    &&& m.display_name@ == merged_display_name(args, sidecar)
    &&& views(m.compatible_body_types@) == merged_list(args.body_types@, base_body_types(sidecar))
    &&& opt_views(m.compatible_skeleton) == merged_skeleton(args, sidecar)
    &&& m.supports_color == (args.supports_color || (sidecar matches Some(b) && b.supports_color))
    &&& m.default_color == (match args.default_color {
        Some(c) => Some(c),
        None => match sidecar {
            Some(b) => b.default_color,
            None => None,
        },
    })
    &&& views(m.tags@) == merged_list(args.tags@, base_tags(sidecar))
    &&& m.model@ == "avatars/"@ + category_dir_name(cat)->0 + "/"@ + id + ".glb"@
    &&& m.thumbnail == (match sidecar {
        Some(b) => b.thumbnail,
        None => None,
    })
    &&& m.version == (match sidecar {
        Some(b) => b.version,
        None => 1,
    })
}

fn copy_strings(v: &Vec<String>) -> (r: Vec<String>)
    ensures
        views(r@) == views(v@),
{
    let mut out: Vec<String> = Vec::new();
    let mut i: usize = 0;
    while i < v.len()
        invariant
            i <= v.len(),
            out@.len() == i,
            forall|t: int| 0 <= t < i ==> (#[trigger] out@[t])@ == v@[t]@,
        decreases v.len() - i,
    {
        out.push(owned(v[i].as_str()));
        i = i + 1;
    }
    assert(views(out@) =~= views(v@));
    out
}

/// The flags' skeleton over the sidecar's, before the wearable default.
pub open spec fn flagged_skeleton(args: ImportArgs, sidecar: Option<AssetMeta>) -> Option<Seq<char>> {
    match args.skeleton {
        Some(k) => if k@ == "null"@ {
            None
        } else {
            Some(k@)
        },
        None => base_skeleton(sidecar),
    }
}

/// The flags' display name over the sidecar's, before the id default.
pub open spec fn flagged_display_name(args: ImportArgs, sidecar: Option<AssetMeta>) -> Seq<char> {
    match args.display_name {
        Some(n) => n@,
        None => base_display_name(sidecar),
    }
}

/// The sidecar (or a blank record) with the identity flags put over it.
fn overlay_identity(args: &ImportArgs, sidecar: Option<AssetMeta>) -> (m: AssetMeta)
    ensures
        m.id@ == merged_id(*args, sidecar),
        m.category == merged_category(*args, sidecar),
        m.display_name@ == flagged_display_name(*args, sidecar),
        views(m.compatible_body_types@) == base_body_types(sidecar),
        opt_views(m.compatible_skeleton) == base_skeleton(sidecar),
        m.supports_color == (sidecar matches Some(b) && b.supports_color),
        m.default_color == (match sidecar {
            Some(b) => b.default_color,
            None => None,
        }),
        views(m.tags@) == base_tags(sidecar),
        m.thumbnail == (match sidecar {
            Some(b) => b.thumbnail,
            None => None,
        }),
        m.version == (match sidecar {
            Some(b) => b.version,
            None => 1,
        }),
{
    let mut meta = match sidecar {
        Some(m) => m,
        None => blank_meta(),
    };
    assert(views(meta.compatible_body_types@) == base_body_types(sidecar)) by {
        if sidecar is None {
            assert(views(meta.compatible_body_types@) =~= Seq::<Seq<char>>::empty());
        }
    }
    assert(views(meta.tags@) == base_tags(sidecar)) by {
        if sidecar is None {
            assert(views(meta.tags@) =~= Seq::<Seq<char>>::empty());
        }
    }
    if let Some(id) = &args.id {
        meta.id = id.clone();
    }
    if let Some(cat) = args.category {
        meta.category = cat;
    }
    if let Some(name) = &args.display_name {
        meta.display_name = name.clone();
    }
    meta
}

/// Put the list, skeleton and colour flags over `meta`.
fn overlay_details(args: &ImportArgs, meta: &mut AssetMeta)
    ensures
        final(meta).id == old(meta).id,
        final(meta).category == old(meta).category,
        final(meta).display_name == old(meta).display_name,
        final(meta).thumbnail == old(meta).thumbnail,
        final(meta).version == old(meta).version,
        views(final(meta).compatible_body_types@) == merged_list(
            args.body_types@,
            views(old(meta).compatible_body_types@),
        ),
        opt_views(final(meta).compatible_skeleton) == (match args.skeleton {
            Some(k) => if k@ == "null"@ {
                None
            } else {
                Some(k@)
            },
            None => opt_views(old(meta).compatible_skeleton),
        }),
        final(meta).supports_color == (args.supports_color || old(meta).supports_color),
        final(meta).default_color == (match args.default_color {
            Some(c) => Some(c),
            None => old(meta).default_color,
        }),
        views(final(meta).tags@) == merged_list(args.tags@, views(old(meta).tags@)),
{
    if args.body_types.len() > 0 {
        meta.compatible_body_types = copy_strings(&args.body_types);
    }
    if let Some(skel) = &args.skeleton {
        meta.compatible_skeleton = if str_eq(skel.as_str(), "null") {
            None
        } else {
            Some(skel.clone())
        };
    }
    if args.supports_color {
        meta.supports_color = true;
    }
    if let Some(c) = args.default_color {
        meta.default_color = Some(c);
    }
    if args.tags.len() > 0 {
        meta.tags = copy_strings(&args.tags);
    }
}

/// The metadata an import writes: the sidecar's (or a blank one when there
/// is none), with every flag that was given put over it, the display name
/// defaulting to the id, wearables without a skeleton getting
/// `avatar_skeleton_v1` unless `--skeleton null` cleared it, and
/// `model` pointing at where the GLB will be copied. `sidecar` is the
/// parsed file that `args.meta_path` names.
pub fn prepare_import_meta(args: &ImportArgs, sidecar: Option<AssetMeta>) -> (r: Result<AssetMeta, ImportError>)
    ensures
        import_meta_refusal(*args, sidecar, r),
{
    if args.category.is_none() && args.meta_path.is_none() {
        return Err(ImportError::MissingCategory);
    }
    let mut meta = overlay_identity(args, sidecar);
    overlay_details(args, &mut meta);
    if meta.id.as_str().is_empty() {
        return Err(ImportError::MissingId);
    }
    if meta.display_name.as_str().is_empty() {
        meta.display_name = meta.id.clone();
    }
    let cleared = match &args.skeleton {
        Some(k) => str_eq(k.as_str(), "null"),
        None => false,
    };
    if meta.compatible_skeleton.is_none() && !cleared && wearable_category(meta.category) {
        meta.compatible_skeleton = Some(owned(AVATAR_SKELETON_V1));
    }
    match validate_asset_id(meta.id.as_str()) {
        Err(e) => {
            return Err(ImportError::InvalidId(e));
        },
        Ok(()) => {},
    }
    if category_dir(meta.category).is_none() {
        return Err(ImportError::NotImportable(meta.category));
    }
    match relative_model_path(meta.category, meta.id.as_str()) {
        Some(model) => {
            meta.model = model;
        },
        None => {},
    }
    Ok(meta)
}

/// Refuse to overwrite an asset the catalog already holds, unless forced.
pub fn check_existing(force: bool, existing: Option<&AssetMeta>) -> (r: Result<(), ImportError>)
    ensures
        (force || existing is None) ==> r is Ok,
        !force && existing is Some ==> (r matches Err(ImportError::AlreadyExists { id, model }) && id@
            == existing->0.id@ && model@ == existing->0.model@),
{
    if force {
        return Ok(());
    }
    match existing {
        None => Ok(()),
        Some(e) => Err(ImportError::AlreadyExists { id: e.id.clone(), model: e.model.clone() }),
    }
}

/// Where the imported GLB is copied:
/// `<workspace>/assets/processed/avatars/<dir>/<id>.glb`.
pub fn model_destination(workspace_root: &str, dir: &str, id: &str) -> (p: String)
    ensures
        p@ == path_join(path_join(path_join(workspace_root@, "assets/processed/avatars"@), dir@), id@ + ".glb"@),
{
    let a = join_path(workspace_root, "assets/processed/avatars");
    let b = join_path(a.as_str(), dir);
    let file = concat(id, ".glb");
    join_path(b.as_str(), file.as_str())
}

/// Thumbnail size for an import: each side at least 16 pixels.
pub fn thumbnail_size(args: &ImportArgs) -> (wh: (u32, u32))
    ensures
        wh.0 == (if args.thumb_width < 16 { 16 } else { args.thumb_width }),
        wh.1 == (if args.thumb_height < 16 { 16 } else { args.thumb_height }),
{
    let w = if args.thumb_width < 16 { 16 } else { args.thumb_width };
    let h = if args.thumb_height < 16 { 16 } else { args.thumb_height };
    (w, h)
}

/// What an import of `meta` into `workspace_root` reports: the copied
/// GLB, the written sidecar and, when a thumbnail was rendered, its path.
pub fn import_report(workspace_root: &str, meta: &AssetMeta, thumb: bool) -> (r: ImportReport)
    requires
        category_dir_name(meta.category) is Some,
    ensures
        r.id@ == meta.id@,
        r.model_path@ == path_join(
            path_join(path_join(workspace_root@, "assets/processed/avatars"@), category_dir_name(meta.category)->0),
            meta.id@ + ".glb"@,
        ),
        r.metadata_path@ == path_join(path_join(workspace_root@, "assets/processed/metadata"@), meta.id@ + ".json"@),
        thumb ==> (r.thumbnail_path matches Some(t) && t@ == path_join(
            path_join(workspace_root@, "assets/processed/thumbnails"@),
            meta.id@ + ".png"@,
        )),
        !thumb ==> r.thumbnail_path is None,
{
    let dir = match category_dir(meta.category) {
        Some(d) => d,
        None => "",
    };
    let model_path = model_destination(workspace_root, dir, meta.id.as_str());
    let metadata = metadata_path(workspace_root, meta.id.as_str());
    let thumbnail = if thumb {
        Some(thumbnail_path(workspace_root, meta.id.as_str()))
    } else {
        None
    };
    ImportReport { id: meta.id.clone(), model_path, metadata_path: metadata, thumbnail_path: thumbnail }
}

/// A `--category` value: the catalog's snake_case name of a category.
pub fn parse_category(s: &str) -> (r: Result<AssetCategory, String>)
    ensures
        match category_from_sql_name(s@) {
            Some(c) => r == Ok::<AssetCategory, String>(c),
            None => r matches Err(e) && e@ == "unknown category: "@ + s@,
        },
{
    match AssetCategory::from_sql_str(s) {
        Some(c) => Ok(c),
        None => Err(concat("unknown category: ", s)),
    }
}

/// The pieces of `s[..i]` closed by a `,`, and the piece still open.
pub open spec fn comma_pieces_upto(s: Seq<char>, i: int) -> (Seq<Seq<char>>, Seq<char>)
    decreases i,
{
    if i <= 0 {
        (Seq::empty(), Seq::empty())
    } else {
        let (done, cur) = comma_pieces_upto(s, i - 1);
        if s[i - 1] == ',' {
            (done.push(cur), Seq::empty())
        } else {
            (done, cur.push(s[i - 1]))
        }
    }
}

/// `str::split(',')`: the pieces between commas, empty ones included.
pub open spec fn comma_pieces(s: Seq<char>) -> Seq<Seq<char>> {
    let (done, cur) = comma_pieces_upto(s, s.len() as int);
    done.push(cur)
}

/// `str::trim`: `s` without leading and trailing whitespace.
pub open spec fn trimmed(s: Seq<char>) -> Seq<char>
    decreases s.len(),
{
    if s.len() > 0 && is_unicode_whitespace(s[0]) {
        trimmed(s.drop_first())
    } else if s.len() > 0 && is_unicode_whitespace(s.last()) {
        trimmed(s.drop_last())
    } else {
        s
    }
}

/// The tags of a `--tags` value: its comma-separated pieces, trimmed, the
/// empty ones left out.
pub open spec fn tag_list(s: Seq<char>) -> Seq<Seq<char>> {
    comma_pieces(s).map_values(|p: Seq<char>| trimmed(p)).filter(|t: Seq<char>| t.len() > 0)
}

proof fn lemma_trimmed(s: Seq<char>, a: int, b: int)
    requires
        0 <= a <= b <= s.len(),
        forall|i: int| 0 <= i < a ==> is_unicode_whitespace(#[trigger] s[i]),
        forall|i: int| b <= i < s.len() ==> is_unicode_whitespace(#[trigger] s[i]),
        a < b ==> !is_unicode_whitespace(s[a]) && !is_unicode_whitespace(s[b - 1]),
        a == b ==> b == s.len(),
    ensures
        trimmed(s) == s.subrange(a, b),
    decreases s.len(),
{
    if s.len() > 0 && is_unicode_whitespace(s[0]) {
        lemma_trimmed(s.drop_first(), a - 1, b - 1);
        assert(s.drop_first().subrange(a - 1, b - 1) =~= s.subrange(a, b));
    } else if s.len() > 0 && is_unicode_whitespace(s.last()) {
        lemma_trimmed(s.drop_last(), a, b);
        assert(s.drop_last().subrange(a, b) =~= s.subrange(a, b));
    } else {
        assert(s.subrange(a, b) =~= s);
    }
}

fn is_space(c: char) -> (b: bool)
    ensures
        b == is_unicode_whitespace(c),
{
    let u = c as u32;
    (0x9 <= u && u <= 0xd) || u == 0x20 || u == 0x85 || u == 0xa0 || u == 0x1680 || (0x2000 <= u && u
        <= 0x200a) || u == 0x2028 || u == 0x2029 || u == 0x202f || u == 0x205f || u == 0x3000
}

fn trim_chars(v: &Vec<char>) -> (t: Vec<char>)
    ensures
        t@ == trimmed(v@),
{
    let mut a: usize = 0;
    while a < v.len() && is_space(v[a])
        invariant
            a <= v.len(),
            forall|k: int| 0 <= k < a ==> is_unicode_whitespace(#[trigger] v@[k]),
        decreases v.len() - a,
    {
        a = a + 1;
    }
    let mut b: usize = v.len();
    while b > a && is_space(v[b - 1])
        invariant
            a <= b <= v.len(),
            forall|k: int| b <= k < v@.len() ==> is_unicode_whitespace(#[trigger] v@[k]),
        decreases b,
    {
        b = b - 1;
    }
    let mut out: Vec<char> = Vec::new();
    let mut j: usize = a;
    while j < b
        invariant
            a <= j <= b,
            b <= v.len(),
            out@ == v@.subrange(a as int, j as int),
        decreases b - j,
    {
        out.push(v[j]);
        j = j + 1;
        assert(out@ =~= v@.subrange(a as int, j as int));
    }
    proof {
        if a == b && a < v.len() {
            assert(!is_unicode_whitespace(v@[a as int]));
        }
        lemma_trimmed(v@, a as int, b as int);
    }
    out
}

/// The tags of a `--tags` value: comma-separated, each trimmed, empty ones
/// dropped.
pub fn split_tags(s: &str) -> (tags: Vec<String>)
    ensures
        tags@.len() == tag_list(s@).len(),
        forall|i: int| 0 <= i < tags@.len() ==> (#[trigger] tags@[i])@ == tag_list(s@)[i],
{
    let v = chars_of(s);
    let mut pieces: Vec<Vec<char>> = Vec::new();
    let mut cur: Vec<char> = Vec::new();
    let mut i: usize = 0;
    while i < v.len()
        invariant
            v@ == s@,
            i <= v.len(),
            pieces@.len() == comma_pieces_upto(s@, i as int).0.len(),
            forall|k: int| 0 <= k < pieces@.len() ==> #[trigger] pieces@[k]@ == comma_pieces_upto(s@, i as int).0[k],
            cur@ == comma_pieces_upto(s@, i as int).1,
        decreases v.len() - i,
    {
        if v[i] == ',' {
            pieces.push(cur);
            cur = Vec::new();
        } else {
            cur.push(v[i]);
        }
        i = i + 1;
    }
    pieces.push(cur);
    let ghost all = comma_pieces(s@);
    assert(pieces@.len() == all.len());
    assert(forall|k: int| 0 <= k < pieces@.len() ==> #[trigger] pieces@[k]@ == all[k]);
    let ghost trims = all.map_values(|p: Seq<char>| trimmed(p));
    let ghost keep = |t: Seq<char>| t.len() > 0;
    let mut tags: Vec<String> = Vec::new();
    let mut k: usize = 0;
    assert(trims.take(0).filter(keep) =~= Seq::<Seq<char>>::empty());
    while k < pieces.len()
        invariant
            k <= pieces@.len(),
            pieces@.len() == all.len(),
            forall|t: int| 0 <= t < pieces@.len() ==> #[trigger] pieces@[t]@ == all[t],
            trims == all.map_values(|p: Seq<char>| trimmed(p)),
            keep == (|t: Seq<char>| t.len() > 0),
            tags@.len() == trims.take(k as int).filter(keep).len(),
            forall|t: int| 0 <= t < tags@.len() ==> (#[trigger] tags@[t])@ == trims.take(k as int).filter(keep)[t],
        decreases pieces.len() - k,
    {
        let t = trim_chars(&pieces[k]);
        proof {
            assert(trims.take(k + 1) =~= trims.take(k as int).push(trims[k as int]));
            trims.take(k as int).lemma_filter_push(trims[k as int], keep);
        }
        if t.len() > 0 {
            tags.push(string_from_chars(&t));
        }
        k = k + 1;
    }
    assert(trims.take(pieces@.len() as int) =~= trims);
    tags
}

/// A list flag that is given replaces the sidecar's list whole, whatever
/// the sidecar held; the sidecar's list (or nothing, without a sidecar) is
/// kept only when the flag is empty. So for `--tags` and `--body-type`.
pub proof fn law_list_flags_replace_sidecar_lists(args: ImportArgs, sidecar: Option<AssetMeta>, r: Result<AssetMeta, ImportError>)
    requires
        import_meta_refusal(args, sidecar, r),
        r is Ok,
    ensures
        args.tags@.len() > 0 ==> views(r->Ok_0.tags@) == views(args.tags@),
        args.body_types@.len() > 0 ==> views(r->Ok_0.compatible_body_types@) == views(args.body_types@),
        args.tags@.len() == 0 ==> views(r->Ok_0.tags@) == (match sidecar {
            Some(m) => views(m.tags@),
            None => Seq::<Seq<char>>::empty(),
        }),
        args.body_types@.len() == 0 ==> views(r->Ok_0.compatible_body_types@) == (match sidecar {
            Some(m) => views(m.compatible_body_types@),
            None => Seq::<Seq<char>>::empty(),
        }),
{
}

/// `--id` names the asset whether or not a sidecar names another: the
/// imported id, and so the model path, are the flag's. The sidecar's id is
/// used only when no `--id` is given.
pub proof fn law_id_flag_wins(args: ImportArgs, sidecar: Option<AssetMeta>, r: Result<AssetMeta, ImportError>)
    requires
        import_meta_refusal(args, sidecar, r),
        r is Ok,
    ensures
        args.id matches Some(i) ==> {
            &&& r->Ok_0.id@ == i@
            &&& r->Ok_0.model@ == "avatars/"@ + category_dir_name(r->Ok_0.category)->0 + "/"@ + i@ + ".glb"@
        },
        args.id is None ==> (sidecar matches Some(m) && r->Ok_0.id@ == m.id@),
{
}

} // verus!
