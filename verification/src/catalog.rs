//! How an asset's metadata is laid out as a row of the catalog: the tag
//! and body-type lists are stored as JSON arrays of strings. Running the
//! SQL is the caller's.

use vstd::prelude::*;

use crate::builder::validate::{opt_views, views};
use crate::metadata::{category_from_sql_name, category_sql_name, AssetCategory, AssetMeta};
use crate::text::{concat, owned};

verus! {

/// One row of the `assets` table. `default_color` holds the `f32` bit
/// patterns of the three colour columns, present only when all three are.
#[derive(Debug, Clone)]
pub struct CatalogRow {
    pub id: String,
    pub display_name: String,
    pub category: String,
    pub model: String,
    pub thumbnail: Option<String>,
    pub supports_color: i64,
    pub default_color: Option<[u32; 3]>,
    pub compatible_skeleton: Option<String>,
    pub version: i64,
    pub tags_json: String,
    pub compat_body_json: String,
}

/// The JSON text `serde_json::to_string` gives for a list of strings.
pub uninterp spec fn json_string_array(items: Seq<Seq<char>>) -> Seq<char>;

/// What `serde_json::from_str::<Vec<String>>` reads from `text`: the
/// strings of a JSON array of strings, `None` for any other text.
pub uninterp spec fn json_strings_parsed(text: Seq<char>) -> Option<Seq<Seq<char>>>;

/// `serde_json::to_string` on a list of strings (`"[]"` should it fail,
/// which it does not for strings). The contract names the text by
/// [`json_string_array`] of the items.
#[verifier::external_body]
fn encode_string_list(items: &Vec<String>) -> (s: String)
    ensures
        s@ == json_string_array(views(items@)),
{
    match serde_json::to_string(items) {
        Ok(s) => s,
        Err(_) => String::from("[]"),
    }
}

/// `serde_json::from_str::<Vec<String>>`. The contract names the outcome by
/// [`json_strings_parsed`] of the text.
#[verifier::external_body]
fn decode_string_list(text: &str) -> (r: Option<Vec<String>>)
    ensures
        match r {
            Some(v) => json_strings_parsed(text@) == Some(views(v@)),
            None => json_strings_parsed(text@) is None,
        },
{
    serde_json::from_str::<Vec<String>>(text).ok()
}

/// The catalog row that stores `meta`.
pub fn row_from_meta(meta: &AssetMeta) -> (row: CatalogRow)
    ensures
        row.id@ == meta.id@,
        row.display_name@ == meta.display_name@,
        row.category@ == category_sql_name(meta.category),
        row.model@ == meta.model@,
        opt_views(row.thumbnail) == opt_views(meta.thumbnail),
        row.supports_color == (if meta.supports_color { 1i64 } else { 0i64 }),
        row.default_color == meta.default_color,
        opt_views(row.compatible_skeleton) == opt_views(meta.compatible_skeleton),
        row.version == meta.version as i64,
        row.tags_json@ == json_string_array(views(meta.tags@)),
        row.compat_body_json@ == json_string_array(views(meta.compatible_body_types@)),
{
    CatalogRow {
        id: meta.id.clone(),
        display_name: meta.display_name.clone(),
        category: owned(meta.category.as_sql_str()),
        model: meta.model.clone(),
        thumbnail: meta.thumbnail.clone(),
        supports_color: if meta.supports_color { 1 } else { 0 },
        default_color: meta.default_color,
        compatible_skeleton: meta.compatible_skeleton.clone(),
        version: meta.version as i64,
        tags_json: encode_string_list(&meta.tags),
        compat_body_json: encode_string_list(&meta.compatible_body_types),
    }
}

/// A stored list: the JSON array's strings, or nothing when the text is
/// not one.
pub open spec fn stored_list(text: Seq<char>) -> Seq<Seq<char>> {
    match json_strings_parsed(text) {
        Some(v) => v,
        None => Seq::empty(),
    }
}

fn read_list(text: &str) -> (v: Vec<String>)
    ensures
        views(v@) == stored_list(text@),
{
    match decode_string_list(text) {
        Some(v) => v,
        None => {
            let v: Vec<String> = Vec::new();
            assert(views(v@) =~= Seq::<Seq<char>>::empty());
            v
        },
    }
}

/// The metadata a catalog row holds; a row with an unknown category is
/// refused. The version column is taken as a `u32`.
pub fn meta_from_row(row: &CatalogRow) -> (r: Result<AssetMeta, String>)
    ensures
        category_from_sql_name(row.category@) is None ==> (r matches Err(e) && e@ == "unknown asset category: "@
            + row.category@),
        category_from_sql_name(row.category@) matches Some(c) ==> (r matches Ok(m) && {
            &&& m.id@ == row.id@
            &&& m.display_name@ == row.display_name@
            &&& m.category == c
            &&& m.model@ == row.model@
            &&& opt_views(m.thumbnail) == opt_views(row.thumbnail)
            &&& m.supports_color == (row.supports_color != 0)
            &&& m.default_color == row.default_color
            &&& views(m.compatible_body_types@) == stored_list(row.compat_body_json@)
            &&& opt_views(m.compatible_skeleton) == opt_views(row.compatible_skeleton)
            &&& views(m.tags@) == stored_list(row.tags_json@)
            &&& m.version == row.version as u32
        }),
{
    let category = match AssetCategory::from_sql_str(row.category.as_str()) {
        Some(c) => c,
        None => {
            return Err(concat("unknown asset category: ", row.category.as_str()));
        },
    };
    #[verifier::truncate]
    let version = row.version as u32;
    Ok(
        AssetMeta {
            id: row.id.clone(),
            display_name: row.display_name.clone(),
            category,
            model: row.model.clone(),
            thumbnail: row.thumbnail.clone(),
            supports_color: row.supports_color != 0,
            default_color: row.default_color,
            compatible_body_types: read_list(row.compat_body_json.as_str()),
            compatible_skeleton: row.compatible_skeleton.clone(),
            tags: read_list(row.tags_json.as_str()),
            version,
        },
    )
}

/// Storing metadata and reading the row back gives the same metadata in
/// every field but the two lists, which come back as what `serde_json`
/// reads from the JSON it wrote.
pub proof fn law_row_round_trip(meta: AssetMeta, row: CatalogRow, back: AssetMeta)
    requires
        row.id@ == meta.id@,
        row.display_name@ == meta.display_name@,
        row.category@ == category_sql_name(meta.category),
        row.model@ == meta.model@,
        opt_views(row.thumbnail) == opt_views(meta.thumbnail),
        row.supports_color == (if meta.supports_color { 1i64 } else { 0i64 }),
        row.default_color == meta.default_color,
        opt_views(row.compatible_skeleton) == opt_views(meta.compatible_skeleton),
        row.version == meta.version as i64,
        back.id@ == row.id@,
        back.display_name@ == row.display_name@,
        category_from_sql_name(row.category@) == Some(back.category),
        back.model@ == row.model@,
        opt_views(back.thumbnail) == opt_views(row.thumbnail),
        back.supports_color == (row.supports_color != 0),
        back.default_color == row.default_color,
        opt_views(back.compatible_skeleton) == opt_views(row.compatible_skeleton),
        back.version == row.version as u32,
    ensures
        back.id@ == meta.id@,
        back.display_name@ == meta.display_name@,
        back.category == meta.category,
        back.model@ == meta.model@,
        opt_views(back.thumbnail) == opt_views(meta.thumbnail),
        back.supports_color == meta.supports_color,
        back.default_color == meta.default_color,
        opt_views(back.compatible_skeleton) == opt_views(meta.compatible_skeleton),
        back.version == meta.version,
{
    crate::metadata::law_category_sql_round_trip(meta.category);
}

} // verus!
