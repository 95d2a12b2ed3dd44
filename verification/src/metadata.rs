//! Asset metadata schema: one `AssetMeta` per asset, mirrored on disk as a
//! JSON sidecar and in the catalog.

use vstd::prelude::*;

use crate::text::str_eq;

verus! {

/// One asset of the catalog, as written in its JSON sidecar.
///
/// `default_color` holds the `f32` bit patterns of its sRGB channels.
#[derive(Debug, Clone, PartialEq)]
pub struct AssetMeta {
    /// Stable identifier, unique across the catalog, e.g. `body_duck_001`.
    pub id: String,
    /// Human-readable name shown in the UI.
    pub display_name: String,
    pub category: AssetCategory,
    /// Path to the asset file relative to `assets/processed/`.
    pub model: String,
    pub thumbnail: Option<String>,
    pub supports_color: bool,
    pub default_color: Option<[u32; 3]>,
    pub compatible_body_types: Vec<String>,
    pub compatible_skeleton: Option<String>,
    pub tags: Vec<String>,
    pub version: u32,
}

/// Version a sidecar gets when it names none.
pub fn default_version() -> (v: u32)
    ensures
        v == 1,
{
    1
}

/// What kind of asset a catalog row describes.
#[derive(Debug, Clone, Copy, PartialEq, Eq, Hash, Structural)]
pub enum AssetCategory {
    Body,
    Head,
    Hair,
    Top,
    Bottom,
    Shoes,
    Hat,
    Glasses,
    Accessory,
    Animation,
    Pose,
    Background,
    Material,
}

/// The snake_case name of a category, as stored in the catalog.
pub open spec fn category_sql_name(c: AssetCategory) -> Seq<char> {
    match c {
        AssetCategory::Body => "body"@,
        AssetCategory::Head => "head"@,
        AssetCategory::Hair => "hair"@,
        AssetCategory::Top => "top"@,
        AssetCategory::Bottom => "bottom"@,
        AssetCategory::Shoes => "shoes"@,
        AssetCategory::Hat => "hat"@,
        AssetCategory::Glasses => "glasses"@,
        AssetCategory::Accessory => "accessory"@,
        AssetCategory::Animation => "animation"@,
        AssetCategory::Pose => "pose"@,
        AssetCategory::Background => "background"@,
        AssetCategory::Material => "material"@,
    }
}

/// The category whose catalog name is `s`, if any.
pub open spec fn category_from_sql_name(s: Seq<char>) -> Option<AssetCategory> {
    if s == "body"@ {
        Some(AssetCategory::Body)
    } else if s == "head"@ {
        Some(AssetCategory::Head)
    } else if s == "hair"@ {
        Some(AssetCategory::Hair)
    } else if s == "top"@ {
        Some(AssetCategory::Top)
    } else if s == "bottom"@ {
        Some(AssetCategory::Bottom)
    } else if s == "shoes"@ {
        Some(AssetCategory::Shoes)
    } else if s == "hat"@ {
        Some(AssetCategory::Hat)
    } else if s == "glasses"@ {
        Some(AssetCategory::Glasses)
    } else if s == "accessory"@ {
        Some(AssetCategory::Accessory)
    } else if s == "animation"@ {
        Some(AssetCategory::Animation)
    } else if s == "pose"@ {
        Some(AssetCategory::Pose)
    } else if s == "background"@ {
        Some(AssetCategory::Background)
    } else if s == "material"@ {
        Some(AssetCategory::Material)
    } else {
        None
    }
}

/// Categories that are worn over the body and must be skinned to the
/// shared rig.
pub open spec fn is_wearable_category(c: AssetCategory) -> bool {
    match c {
        AssetCategory::Top | AssetCategory::Bottom | AssetCategory::Shoes | AssetCategory::Hat
        | AssetCategory::Hair | AssetCategory::Glasses | AssetCategory::Accessory
        | AssetCategory::Head => true,
        _ => false,
    }
}

/// Executable form of [`is_wearable_category`].
pub fn wearable_category(c: AssetCategory) -> (b: bool)
    ensures
        b == is_wearable_category(c),
{
    match c {
        AssetCategory::Top | AssetCategory::Bottom | AssetCategory::Shoes | AssetCategory::Hat
        | AssetCategory::Hair | AssetCategory::Glasses | AssetCategory::Accessory
        | AssetCategory::Head => true,
        _ => false,
    }
}

/// The variant's name as written in Rust (`Top`, `Body`, ...), which the
/// builder's messages show.
pub open spec fn category_variant_name(c: AssetCategory) -> Seq<char> {
    match c {
        AssetCategory::Body => "Body"@,
        AssetCategory::Head => "Head"@,
        AssetCategory::Hair => "Hair"@,
        AssetCategory::Top => "Top"@,
        AssetCategory::Bottom => "Bottom"@,
        AssetCategory::Shoes => "Shoes"@,
        AssetCategory::Hat => "Hat"@,
        AssetCategory::Glasses => "Glasses"@,
        AssetCategory::Accessory => "Accessory"@,
        AssetCategory::Animation => "Animation"@,
        AssetCategory::Pose => "Pose"@,
        AssetCategory::Background => "Background"@,
        AssetCategory::Material => "Material"@,
    }
}

/// Executable form of [`category_variant_name`].
pub(crate) fn variant_name(c: AssetCategory) -> (s: &'static str)
    ensures
        s@ == category_variant_name(c),
{
    match c {
        AssetCategory::Body => "Body",
        AssetCategory::Head => "Head",
        AssetCategory::Hair => "Hair",
        AssetCategory::Top => "Top",
        AssetCategory::Bottom => "Bottom",
        AssetCategory::Shoes => "Shoes",
        AssetCategory::Hat => "Hat",
        AssetCategory::Glasses => "Glasses",
        AssetCategory::Accessory => "Accessory",
        AssetCategory::Animation => "Animation",
        AssetCategory::Pose => "Pose",
        AssetCategory::Background => "Background",
        AssetCategory::Material => "Material",
    }
}

impl AssetCategory {
    /// String form used in the catalog (snake_case).
    pub fn as_sql_str(self) -> (s: &'static str)
        ensures
            s@ == category_sql_name(self),
    {
        match self {
            AssetCategory::Body => "body",
            AssetCategory::Head => "head",
            AssetCategory::Hair => "hair",
            AssetCategory::Top => "top",
            AssetCategory::Bottom => "bottom",
            AssetCategory::Shoes => "shoes",
            AssetCategory::Hat => "hat",
            AssetCategory::Glasses => "glasses",
            AssetCategory::Accessory => "accessory",
            AssetCategory::Animation => "animation",
            AssetCategory::Pose => "pose",
            AssetCategory::Background => "background",
            AssetCategory::Material => "material",
        }
    }

    /// Parse the catalog form back; `None` for any other string.
    pub fn from_sql_str(s: &str) -> (c: Option<AssetCategory>)
        ensures
            c == category_from_sql_name(s@),
    {
        if str_eq(s, "body") {
            Some(AssetCategory::Body)
        } else if str_eq(s, "head") {
            Some(AssetCategory::Head)
        } else if str_eq(s, "hair") {
            Some(AssetCategory::Hair)
        } else if str_eq(s, "top") {
            Some(AssetCategory::Top)
        } else if str_eq(s, "bottom") {
            Some(AssetCategory::Bottom)
        } else if str_eq(s, "shoes") {
            Some(AssetCategory::Shoes)
        } else if str_eq(s, "hat") {
            Some(AssetCategory::Hat)
        } else if str_eq(s, "glasses") {
            Some(AssetCategory::Glasses)
        } else if str_eq(s, "accessory") {
            Some(AssetCategory::Accessory)
        } else if str_eq(s, "animation") {
            Some(AssetCategory::Animation)
        } else if str_eq(s, "pose") {
            Some(AssetCategory::Pose)
        } else if str_eq(s, "background") {
            Some(AssetCategory::Background)
        } else if str_eq(s, "material") {
            Some(AssetCategory::Material)
        } else {
            None
        }
    }
}

/// Reading back the catalog name of a category gives the category again.
pub proof fn law_category_sql_round_trip(c: AssetCategory)
    ensures
        category_from_sql_name(category_sql_name(c)) == Some(c),
{
    reveal_strlit("body");
    reveal_strlit("head");
    reveal_strlit("hair");
    reveal_strlit("top");
    reveal_strlit("bottom");
    reveal_strlit("shoes");
    reveal_strlit("hat");
    reveal_strlit("glasses");
    reveal_strlit("accessory");
    reveal_strlit("animation");
    reveal_strlit("pose");
    reveal_strlit("background");
    reveal_strlit("material");
    assert("body"@[0] == 'b' && "body"@[1] == 'o' && "body"@.len() == 4);
    assert("head"@[0] == 'h' && "head"@[1] == 'e' && "head"@.len() == 4);
    assert("hair"@[0] == 'h' && "hair"@[1] == 'a' && "hair"@.len() == 4);
    assert("top"@[0] == 't' && "top"@[1] == 'o' && "top"@.len() == 3);
    assert("bottom"@[0] == 'b' && "bottom"@[1] == 'o' && "bottom"@.len() == 6);
    assert("shoes"@[0] == 's' && "shoes"@[1] == 'h' && "shoes"@.len() == 5);
    assert("hat"@[0] == 'h' && "hat"@[1] == 'a' && "hat"@.len() == 3);
    assert("glasses"@[0] == 'g' && "glasses"@[1] == 'l' && "glasses"@.len() == 7);
    assert("accessory"@[0] == 'a' && "accessory"@[1] == 'c' && "accessory"@.len() == 9);
    assert("animation"@[0] == 'a' && "animation"@[1] == 'n' && "animation"@.len() == 9);
    assert("pose"@[0] == 'p' && "pose"@[1] == 'o' && "pose"@.len() == 4);
    assert("background"@[0] == 'b' && "background"@[1] == 'a' && "background"@.len() == 10);
    assert("material"@[0] == 'm' && "material"@[1] == 'a' && "material"@.len() == 8);
}

} // verus!
