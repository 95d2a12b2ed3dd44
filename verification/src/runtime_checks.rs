//! What the desktop editor checks before it runs a command against its
//! scene: avatar ids, equippable assets, colour and transform values, and
//! the objects a command names. The scene graph's own answers (whether an
//! id is well formed, whether the object exists, whether it is locked) and
//! the quaternion length come in as arguments.

use vstd::prelude::*;

use crate::commands::command::{AvatarEquipAssetPayload, MaterialSetColorPayload, MaterialTarget, TransformApplyDeltaPayload};
use crate::commands::validation::ValidationResult;
use crate::desktop::{validate_wearable, wearable_refusal};
use crate::metadata::AssetMeta;
use crate::save::{is_unicode_whitespace, unicode_whitespace};
use crate::slots::{slot_for_category, slot_label, Slot};
use crate::text::{chars_of, concat, owned, str_eq};

verus! {

/// The avatar ids a command may name: the current avatar, by either name.
pub open spec fn is_known_avatar_id(id: Seq<char>) -> bool {
    id == "current"@ || id == "avatar_001"@
}

pub fn known_avatar_id(id: &str) -> (b: bool)
    ensures
        b == is_known_avatar_id(id@),
{
    str_eq(id, "current") || str_eq(id, "avatar_001")
}

/// The `f32` with bit pattern `b` is finite (its exponent is not all ones).
pub open spec fn f32_bits_finite(b: u32) -> bool {
    (b / 0x80_0000) % 0x100 != 0xff
}

/// The `f32` with bit pattern `b` is finite and in `0.0..=1.0`: a
/// non-negative pattern up to that of `1.0`, or negative zero.
pub open spec fn f32_bits_in_unit_range(b: u32) -> bool {
    b <= 0x3f80_0000 || b == 0x8000_0000
}

/// The `f32` with bit pattern `b` is finite and greater than zero.
pub open spec fn f32_bits_positive_finite(b: u32) -> bool {
    0 < b && b < 0x7f80_0000
}

fn bits_finite(b: u32) -> (r: bool)
    ensures
        r == f32_bits_finite(b),
{
    (b / 0x80_0000) % 0x100 != 0xff
}

fn all_finite3(v: [u32; 3]) -> (r: bool)
    ensures
        r == (f32_bits_finite(v[0]) && f32_bits_finite(v[1]) && f32_bits_finite(v[2])),
{
    bits_finite(v[0]) && bits_finite(v[1]) && bits_finite(v[2])
}

fn all_finite4(v: [u32; 4]) -> (r: bool)
    ensures
        r == (f32_bits_finite(v[0]) && f32_bits_finite(v[1]) && f32_bits_finite(v[2]) && f32_bits_finite(v[3])),
{
    bits_finite(v[0]) && bits_finite(v[1]) && bits_finite(v[2]) && bits_finite(v[3])
}

/// An error result with `code` and `message`.
fn refuse(code: &str, message: String) -> (r: ValidationResult)
    ensures
        r.is_error(code@, message@),
{
    ValidationResult::error(owned(code), message)
}

/// `r` says `outcome`: clean for `None`, the one error otherwise.
pub open spec fn reports(r: ValidationResult, outcome: Option<(Seq<char>, Seq<char>)>) -> bool {
    match outcome {
        Some((code, message)) => r.is_error(code, message),
        None => r.is_clean(),
    }
}

/// Why an equip command is refused, as `(code, message)`, given what the
/// catalog holds under its asset id.
pub open spec fn equip_refusal(
    payload: AvatarEquipAssetPayload,
    meta: Option<AssetMeta>,
    has_skeleton: bool,
    body_type: Seq<char>,
) -> Option<(Seq<char>, Seq<char>)> {
    if !is_known_avatar_id(payload.avatar_id@) {
        Some(("UNKNOWN_AVATAR"@, "unknown avatar id"@))
    } else {
        match meta {
            None => Some(("ASSET_NOT_FOUND"@, "asset not found"@)),
            Some(m) => match slot_for_category(m.category) {
                None => Some(("NOT_EQUIPPABLE"@, "asset category is not equippable"@)),
                Some(s) => if s != payload.slot {
                    Some(("SLOT_MISMATCH"@, "asset belongs to slot "@ + slot_label(s) + ", not "@ + slot_label(payload.slot)))
                } else if s == Slot::Body {
                    None
                } else {
                    match wearable_refusal(has_skeleton, body_type, m) {
                        Some(e) => Some(("INCOMPATIBLE_ASSET"@, e)),
                        None => None,
                    }
                },
            },
        }
    }
}

/// Check an equip command. `meta` is the catalog row for its asset id;
/// `has_skeleton` and `body_type` describe the avatar on screen.
pub fn validate_equip_asset(
    payload: &AvatarEquipAssetPayload,
    meta: Option<&AssetMeta>,
    has_skeleton: bool,
    body_type: &str,
) -> (r: ValidationResult)
    ensures
        reports(r, equip_refusal(*payload, match meta { Some(m) => Some(*m), None => None }, has_skeleton, body_type@)),
{
    if !known_avatar_id(payload.avatar_id.as_str()) {
        return refuse("UNKNOWN_AVATAR", owned("unknown avatar id"));
    }
    let m = match meta {
        Some(m) => m,
        None => {
            return refuse("ASSET_NOT_FOUND", owned("asset not found"));
        },
    };
    let slot = match Slot::from_asset_category(m.category) {
        Some(s) => s,
        None => {
            return refuse("NOT_EQUIPPABLE", owned("asset category is not equippable"));
        },
    };
    if slot != payload.slot {
        let a = concat("asset belongs to slot ", slot.label());
        let b = concat(a.as_str(), ", not ");
        let c = concat(b.as_str(), payload.slot.label());
        return refuse("SLOT_MISMATCH", c);
    }
    if slot == Slot::Body {
        return ValidationResult::valid();
    }
    match validate_wearable(has_skeleton, body_type, m) {
        Ok(_) => ValidationResult::valid(),
        Err(e) => refuse("INCOMPATIBLE_ASSET", e),
    }
}

/// Why a colour command is refused. `slot_supports_color` is `None` when
/// the target slot holds nothing, else whether its asset may be recoloured.
pub open spec fn color_refusal(payload: MaterialSetColorPayload, slot_supports_color: Option<bool>) -> Option<(Seq<char>, Seq<char>)> {
    let c = payload.color_srgb;
    if !(f32_bits_in_unit_range(c[0]) && f32_bits_in_unit_range(c[1]) && f32_bits_in_unit_range(c[2])) {
        Some(("COLOR_OUT_OF_RANGE"@, "color must be finite 0..=1"@))
    } else {
        match payload.target {
            MaterialTarget::AvatarSlot { avatar_id, slot } => if !is_known_avatar_id(avatar_id@) {
                Some(("UNKNOWN_AVATAR"@, "unknown avatar id"@))
            } else {
                match slot_supports_color {
                    None => Some(("SLOT_EMPTY"@, "slot is not equipped"@)),
                    Some(true) => None,
                    Some(false) => Some(("COLOR_LOCKED"@, "slot does not support color edits"@)),
                }
            },
        }
    }
}

pub fn validate_material_color(payload: &MaterialSetColorPayload, slot_supports_color: Option<bool>) -> (r: ValidationResult)
    ensures
        reports(r, color_refusal(*payload, slot_supports_color)),
{
    let c = payload.color_srgb;
    let in_range = (c[0] <= 0x3f80_0000 || c[0] == 0x8000_0000) && (c[1] <= 0x3f80_0000 || c[1] == 0x8000_0000)
        && (c[2] <= 0x3f80_0000 || c[2] == 0x8000_0000);
    if !in_range {
        return refuse("COLOR_OUT_OF_RANGE", owned("color must be finite 0..=1"));
    }
    match &payload.target {
        MaterialTarget::AvatarSlot { avatar_id, slot: _ } => {
            if !known_avatar_id(avatar_id.as_str()) {
                return refuse("UNKNOWN_AVATAR", owned("unknown avatar id"));
            }
            match slot_supports_color {
                None => refuse("SLOT_EMPTY", owned("slot is not equipped")),
                Some(true) => ValidationResult::valid(),
                Some(false) => refuse("COLOR_LOCKED", owned("slot does not support color edits")),
            }
        },
    }
}

/// Every character of `s` is whitespace (`s.trim()` is empty).
pub open spec fn blank(s: Seq<char>) -> bool {
    forall|i: int| 0 <= i < s.len() ==> is_unicode_whitespace(#[trigger] s[i])
}

fn is_blank(s: &str) -> (b: bool)
    ensures
        b == blank(s@),
{
    let v = chars_of(s);
    let mut i: usize = 0;
    while i < v.len()
        invariant
            v@ == s@,
            i <= v.len(),
            forall|j: int| 0 <= j < i ==> is_unicode_whitespace(#[trigger] s@[j]),
        decreases v.len() - i,
    {
        if !unicode_whitespace(v[i]) {
            return false;
        }
        i = i + 1;
    }
    true
}

/// Why a show/hide or lock/unlock command is refused. `id_valid`: the
/// scene accepts `object_id` as an id; `exists`: an object has it.
pub open spec fn flag_target_refusal(object_id: Seq<char>, id_valid: bool, exists: bool) -> Option<(Seq<char>, Seq<char>)> {
    if blank(object_id) {
        Some(("EMPTY_OBJECT_ID"@, "object id is empty"@))
    } else if !id_valid {
        Some(("INVALID_OBJECT_ID"@, "invalid scene object id: "@ + object_id))
    } else if !exists {
        Some(("OBJECT_NOT_FOUND"@, "scene object not found: "@ + object_id))
    } else {
        None
    }
}

pub fn validate_flag_target(object_id: &str, id_valid: bool, exists: bool) -> (r: ValidationResult)
    ensures
        reports(r, flag_target_refusal(object_id@, id_valid, exists)),
{
    if is_blank(object_id) {
        return refuse("EMPTY_OBJECT_ID", owned("object id is empty"));
    }
    if !id_valid {
        return refuse("INVALID_OBJECT_ID", concat("invalid scene object id: ", object_id));
    }
    if !exists {
        return refuse("OBJECT_NOT_FOUND", concat("scene object not found: ", object_id));
    }
    ValidationResult::valid()
}

/// Why a transform command cannot touch its object. `locked` is `None`
/// when no object has the id, else whether that object is locked.
pub open spec fn transform_target_refusal(id_valid: bool, locked: Option<bool>) -> Option<(Seq<char>, Seq<char>)> {
    if !id_valid {
        Some(("INVALID_OBJECT_ID"@, "invalid object id"@))
    } else {
        match locked {
            None => Some(("OBJECT_NOT_FOUND"@, "scene object not found"@)),
            Some(true) => Some(("OBJECT_LOCKED"@, "object is locked"@)),
            Some(false) => None,
        }
    }
}

fn check_transform_target(id_valid: bool, locked: Option<bool>) -> (r: Option<ValidationResult>)
    ensures
        match transform_target_refusal(id_valid, locked) {
            Some(o) => r matches Some(v) && reports(v, Some(o)),
            None => r is None,
        },
{
    if !id_valid {
        return Some(refuse("INVALID_OBJECT_ID", owned("invalid object id")));
    }
    match locked {
        None => Some(refuse("OBJECT_NOT_FOUND", owned("scene object not found"))),
        Some(true) => Some(refuse("OBJECT_LOCKED", owned("object is locked"))),
        Some(false) => None,
    }
}

pub open spec fn translation_refusal(id_valid: bool, locked: Option<bool>, t: [u32; 3]) -> Option<(Seq<char>, Seq<char>)> {
    match transform_target_refusal(id_valid, locked) {
        Some(o) => Some(o),
        None => if f32_bits_finite(t[0]) && f32_bits_finite(t[1]) && f32_bits_finite(t[2]) {
            None
        } else {
            Some(("INVALID_TRANSLATION"@, "translation must be finite"@))
        },
    }
}

pub fn validate_set_translation(id_valid: bool, locked: Option<bool>, translation: [u32; 3]) -> (r: ValidationResult)
    ensures
        reports(r, translation_refusal(id_valid, locked, translation)),
{
    if let Some(v) = check_transform_target(id_valid, locked) {
        return v;
    }
    if all_finite3(translation) {
        ValidationResult::valid()
    } else {
        refuse("INVALID_TRANSLATION", owned("translation must be finite"))
    }
}

/// `unit_length`: the quaternion's length is within `1e-3` of one.
pub open spec fn rotation_refusal(id_valid: bool, locked: Option<bool>, q: [u32; 4], unit_length: bool) -> Option<(Seq<char>, Seq<char>)> {
    match transform_target_refusal(id_valid, locked) {
        Some(o) => Some(o),
        None => if !(f32_bits_finite(q[0]) && f32_bits_finite(q[1]) && f32_bits_finite(q[2]) && f32_bits_finite(q[3])) {
            Some(("INVALID_ROTATION"@, "rotation must be finite"@))
        } else if !unit_length {
            Some(("NON_UNIT_ROTATION"@, "rotation must be unit length"@))
        } else {
            None
        },
    }
}

pub fn validate_set_rotation(id_valid: bool, locked: Option<bool>, rotation: [u32; 4], unit_length: bool) -> (r: ValidationResult)
    ensures
        reports(r, rotation_refusal(id_valid, locked, rotation, unit_length)),
{
    if let Some(v) = check_transform_target(id_valid, locked) {
        return v;
    }
    if !all_finite4(rotation) {
        return refuse("INVALID_ROTATION", owned("rotation must be finite"));
    }
    if !unit_length {
        refuse("NON_UNIT_ROTATION", owned("rotation must be unit length"))
    } else {
        ValidationResult::valid()
    }
}

pub open spec fn scale_refusal(id_valid: bool, locked: Option<bool>, s: [u32; 3]) -> Option<(Seq<char>, Seq<char>)> {
    match transform_target_refusal(id_valid, locked) {
        Some(o) => Some(o),
        None => if f32_bits_positive_finite(s[0]) && f32_bits_positive_finite(s[1]) && f32_bits_positive_finite(s[2]) {
            None
        } else {
            Some(("INVALID_SCALE"@, "scale must be finite and positive"@))
        },
    }
}

pub fn validate_set_scale(id_valid: bool, locked: Option<bool>, scale: [u32; 3]) -> (r: ValidationResult)
    ensures
        reports(r, scale_refusal(id_valid, locked, scale)),
{
    if let Some(v) = check_transform_target(id_valid, locked) {
        return v;
    }
    let ok = (0 < scale[0] && scale[0] < 0x7f80_0000) && (0 < scale[1] && scale[1] < 0x7f80_0000) && (0 < scale[2]
        && scale[2] < 0x7f80_0000);
    if ok {
        ValidationResult::valid()
    } else {
        refuse("INVALID_SCALE", owned("scale must be finite and positive"))
    }
}

/// `rotation_unit_length`: the delta quaternion, if any, is within `1e-3`
/// of unit length.
pub open spec fn delta_refusal(
    id_valid: bool,
    locked: Option<bool>,
    p: TransformApplyDeltaPayload,
    rotation_unit_length: bool,
) -> Option<(Seq<char>, Seq<char>)> {
    match transform_target_refusal(id_valid, locked) {
        Some(o) => Some(o),
        None => if p.delta_translation matches Some(t) && !(f32_bits_finite(t[0]) && f32_bits_finite(t[1])
            && f32_bits_finite(t[2])) {
            Some(("INVALID_TRANSLATION"@, "delta translation must be finite"@))
        } else if p.delta_rotation_quat matches Some(q) && !(f32_bits_finite(q[0]) && f32_bits_finite(q[1])
            && f32_bits_finite(q[2]) && f32_bits_finite(q[3])) {
            Some(("INVALID_ROTATION"@, "delta rotation must be finite"@))
        } else if p.delta_rotation_quat is Some && !rotation_unit_length {
            Some(("NON_UNIT_ROTATION"@, "delta rotation must be unit length"@))
        } else if p.delta_scale matches Some(s) && !(f32_bits_finite(s[0]) && f32_bits_finite(s[1])
            && f32_bits_finite(s[2])) {
            Some(("INVALID_SCALE"@, "delta scale must be finite"@))
        } else {
            None
        },
    }
}

pub fn validate_apply_delta(
    id_valid: bool,
    locked: Option<bool>,
    payload: &TransformApplyDeltaPayload,
    rotation_unit_length: bool,
) -> (r: ValidationResult)
    ensures
        reports(r, delta_refusal(id_valid, locked, *payload, rotation_unit_length)),
{
    if let Some(v) = check_transform_target(id_valid, locked) {
        return v;
    }
    if let Some(t) = payload.delta_translation {
        if !all_finite3(t) {
            return refuse("INVALID_TRANSLATION", owned("delta translation must be finite"));
        }
    }
    if let Some(q) = payload.delta_rotation_quat {
        if !all_finite4(q) {
            return refuse("INVALID_ROTATION", owned("delta rotation must be finite"));
        }
        if !rotation_unit_length {
            return refuse("NON_UNIT_ROTATION", owned("delta rotation must be unit length"));
        }
    }
    if let Some(s) = payload.delta_scale {
        if !all_finite3(s) {
            return refuse("INVALID_SCALE", owned("delta scale must be finite"));
        }
    }
    ValidationResult::valid()
}

pub open spec fn reset_refusal(id_valid: bool, exists: bool) -> Option<(Seq<char>, Seq<char>)> {
    if !id_valid {
        Some(("INVALID_OBJECT_ID"@, "invalid object id"@))
    } else if !exists {
        Some(("OBJECT_NOT_FOUND"@, "scene object not found"@))
    } else {
        None
    }
}

pub fn validate_reset(id_valid: bool, exists: bool) -> (r: ValidationResult)
    ensures
        reports(r, reset_refusal(id_valid, exists)),
{
    if !id_valid {
        refuse("INVALID_OBJECT_ID", owned("invalid object id"))
    } else if !exists {
        refuse("OBJECT_NOT_FOUND", owned("scene object not found"))
    } else {
        ValidationResult::valid()
    }
}

/// Why a selection command is refused: its first id that the scene does
/// not accept, or that no object has. `id_valid[i]` and `exists[i]` are the
/// scene's answers for `ids[i]`.
pub open spec fn selection_refusal(ids: Seq<Seq<char>>, id_valid: Seq<bool>, exists: Seq<bool>, from: int) -> Option<(Seq<char>, Seq<char>)>
    decreases ids.len() - from,
{
    if from < 0 || from >= ids.len() {
        None
    } else if !id_valid[from] {
        Some(("INVALID_OBJECT_ID"@, "invalid scene object id: "@ + ids[from]))
    } else if !exists[from] {
        Some(("OBJECT_NOT_FOUND"@, "scene object not found: "@ + ids[from]))
    } else {
        selection_refusal(ids, id_valid, exists, from + 1)
    }
}

/// Check the ids of a selection command one by one, in order.
pub fn validate_selection_ids(ids: &Vec<String>, id_valid: &Vec<bool>, exists: &Vec<bool>) -> (r: ValidationResult)
    requires
        id_valid.len() == ids.len(),
        exists.len() == ids.len(),
    ensures
        reports(r, selection_refusal(ids@.map_values(|s: String| s@), id_valid@, exists@, 0)),
{
    let ghost views = ids@.map_values(|s: String| s@);
    let mut i: usize = 0;
    while i < ids.len()
        invariant
            id_valid.len() == ids.len(),
            exists.len() == ids.len(),
            views == ids@.map_values(|s: String| s@),
            i <= ids.len(),
            selection_refusal(views, id_valid@, exists@, 0) == selection_refusal(views, id_valid@, exists@, i as int),
        decreases ids.len() - i,
    {
        assert(views[i as int] == ids@[i as int]@);
        if !id_valid[i] {
            return refuse("INVALID_OBJECT_ID", concat("invalid scene object id: ", ids[i].as_str()));
        }
        if !exists[i] {
            return refuse("OBJECT_NOT_FOUND", concat("scene object not found: ", ids[i].as_str()));
        }
        i = i + 1;
    }
    ValidationResult::valid()
}

/// What an asset row click asks for: the slot its category fills, or why
/// it cannot be equipped.
pub open spec fn equip_request(id: Seq<char>, meta: Option<AssetMeta>) -> Result<Slot, Seq<char>> {
    match meta {
        None => Err("Asset '"@ + id + "' not in catalog"@),
        Some(m) => match slot_for_category(m.category) {
            None => Err("Asset category isn't equippable: "@ + id),
            Some(s) => Ok(s),
        },
    }
}

/// The equip payload for asset `id` on the current avatar, given its
/// catalog row.
pub fn equip_payload_for(id: String, meta: Option<&AssetMeta>) -> (r: Result<AvatarEquipAssetPayload, String>)
    ensures
        match equip_request(id@, match meta { Some(m) => Some(*m), None => None }) {
            Ok(s) => r matches Ok(p) && p.avatar_id@ == "current"@ && p.slot == s && p.asset_id@ == id@,
            Err(e) => r matches Err(m) && m@ == e,
        },
{
    let m = match meta {
        Some(m) => m,
        None => {
            let a = concat("Asset '", id.as_str());
            return Err(concat(a.as_str(), "' not in catalog"));
        },
    };
    match Slot::from_asset_category(m.category) {
        Some(slot) => Ok(AvatarEquipAssetPayload { avatar_id: owned("current"), slot, asset_id: id }),
        None => Err(concat("Asset category isn't equippable: ", id.as_str())),
    }
}

} // verus!
