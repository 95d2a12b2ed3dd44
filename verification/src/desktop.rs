//! The desktop editor's rules that do not need a window: command-line
//! options, stable scene-object ids, which wearable may be equipped, and the
//! colour a slot starts with.

use vstd::prelude::*;

use crate::avatar::Avatar;
use crate::expressions::Expression;
use crate::metadata::AssetMeta;
use crate::skeleton::AVATAR_SKELETON_V1;
use crate::slots::{slot_for_category, Slot};
use crate::text::{chars_of, concat, decimal, decimal_string, owned, str_eq, string_from_chars};

verus! {

#[derive(Debug, Clone, Copy, PartialEq, Eq, Structural)]
pub enum StartupMode {
    Interactive,
    AgentCapture,
    AgentPerf,
    AgentGif,
}

#[derive(Debug, Clone, PartialEq, Eq, Structural)]
pub struct StartupOptions {
    pub mode: StartupMode,
    pub perf_frames: usize,
    pub show_perf: bool,
    pub vsync: bool,
    /// Freeze animation and use stable output names so captures are
    /// reproducible.
    pub deterministic: bool,
}

pub open spec fn default_startup() -> StartupOptions {
    StartupOptions {
        mode: StartupMode::Interactive,
        perf_frames: 300,
        show_perf: false,
        vsync: true,
        deterministic: false,
    }
}

impl Default for StartupOptions {
    fn default() -> (o: StartupOptions)
        ensures
            o == default_startup(),
    {
        StartupOptions {
            mode: StartupMode::Interactive,
            perf_frames: 300,
            show_perf: false,
            vsync: true,
            deterministic: false,
        }
    }
}

/// The name a slot has in scene-object ids.
pub open spec fn slot_stable_name_of(slot: Slot) -> Seq<char> {
    match slot {
        Slot::Body => "body"@,
        Slot::Head => "head"@,
        Slot::Hair => "hair"@,
        Slot::Top => "top"@,
        Slot::Bottom => "bottom"@,
        Slot::Shoes => "shoes"@,
        Slot::Hat => "hat"@,
        Slot::Glasses => "glasses"@,
        Slot::Accessory => "accessory"@,
    }
}

pub fn slot_stable_name(slot: Slot) -> (s: &'static str)
    ensures
        s@ == slot_stable_name_of(slot),
{
    match slot {
        Slot::Body => "body",
        Slot::Head => "head",
        Slot::Hair => "hair",
        Slot::Top => "top",
        Slot::Bottom => "bottom",
        Slot::Shoes => "shoes",
        Slot::Hat => "hat",
        Slot::Glasses => "glasses",
        Slot::Accessory => "accessory",
    }
}

/// A character of a token: ASCII letters (lowered), digits, `_`, `-` and
/// `.` stay; everything else becomes `_`.
pub open spec fn token_char(c: char) -> char {
    if 'A' <= c && c <= 'Z' {
        ((c as u32) + 32) as char
    } else if ('a' <= c && c <= 'z') || ('0' <= c && c <= '9') || c == '_' || c == '-' || c == '.' {
        c
    } else {
        '_'
    }
}

/// `s` without its leading and trailing `_`.
pub open spec fn trim_underscores(s: Seq<char>) -> Seq<char>
    decreases s.len(),
{
    if s.len() > 0 && s[0] == '_' {
        trim_underscores(s.drop_first())
    } else if s.len() > 0 && s.last() == '_' {
        trim_underscores(s.drop_last())
    } else {
        s
    }
}

/// A name made safe for a scene-object id.
pub open spec fn stable_token_of(value: Seq<char>) -> Seq<char> {
    trim_underscores(value.map_values(|c: char| token_char(c)))
}

fn to_token_char(c: char) -> (t: char)
    ensures
        t == token_char(c),
{
    if 'A' <= c && c <= 'Z' {
        let lowered: char = match c {
            'A' => 'a',
            'B' => 'b',
            'C' => 'c',
            'D' => 'd',
            'E' => 'e',
            'F' => 'f',
            'G' => 'g',
            'H' => 'h',
            'I' => 'i',
            'J' => 'j',
            'K' => 'k',
            'L' => 'l',
            'M' => 'm',
            'N' => 'n',
            'O' => 'o',
            'P' => 'p',
            'Q' => 'q',
            'R' => 'r',
            'S' => 's',
            'T' => 't',
            'U' => 'u',
            'V' => 'v',
            'W' => 'w',
            'X' => 'x',
            'Y' => 'y',
            _ => 'z',
        };
        lowered
    } else if ('a' <= c && c <= 'z') || ('0' <= c && c <= '9') || c == '_' || c == '-' || c == '.' {
        c
    } else {
        '_'
    }
}

proof fn lemma_trim_underscores(s: Seq<char>, a: int, b: int)
    requires
        0 <= a <= b <= s.len(),
        forall|i: int| 0 <= i < a ==> s[i] == '_',
        forall|i: int| b <= i < s.len() ==> s[i] == '_',
        a < b ==> s[a] != '_' && s[b - 1] != '_',
        a == b ==> b == s.len(),
    ensures
        trim_underscores(s) == s.subrange(a, b),
    decreases s.len(),
{
    if s.len() > 0 && s[0] == '_' {
        lemma_trim_underscores(s.drop_first(), a - 1, b - 1);
        assert(s.drop_first().subrange(a - 1, b - 1) =~= s.subrange(a, b));
    } else if s.len() > 0 && s.last() == '_' {
        lemma_trim_underscores(s.drop_last(), a, b);
        assert(s.drop_last().subrange(a, b) =~= s.subrange(a, b));
    } else {
        assert(s.subrange(a, b) =~= s);
    }
}

pub fn stable_token(value: &str) -> (t: String)
    ensures
        t@ == stable_token_of(value@),
{
    let v = chars_of(value);
    let mut mapped: Vec<char> = Vec::new();
    let mut i: usize = 0;
    while i < v.len()
        invariant
            v@ == value@,
            i <= v.len(),
            mapped@ == value@.subrange(0, i as int).map_values(|c: char| token_char(c)),
        decreases v.len() - i,
    {
        mapped.push(to_token_char(v[i]));
        i = i + 1;
        assert(mapped@ =~= value@.subrange(0, i as int).map_values(|c: char| token_char(c)));
    }
    assert(value@.subrange(0, value@.len() as int) =~= value@);
    let ghost m = mapped@;
    let mut a: usize = 0;
    while a < mapped.len() && mapped[a] == '_'
        invariant
            a <= mapped.len(),
            mapped@ == m,
            forall|k: int| 0 <= k < a ==> m[k] == '_',
        decreases mapped.len() - a,
    {
        a = a + 1;
    }
    let mut b: usize = mapped.len();
    while b > a && mapped[b - 1] == '_'
        invariant
            a <= b <= mapped.len(),
            mapped@ == m,
            forall|k: int| b <= k < m.len() ==> m[k] == '_',
        decreases b,
    {
        b = b - 1;
    }
    let mut out: Vec<char> = Vec::new();
    let mut j: usize = a;
    while j < b
        invariant
            a <= j <= b,
            b <= mapped.len(),
            mapped@ == m,
            out@ == m.subrange(a as int, j as int),
        decreases b - j,
    {
        out.push(mapped[j]);
        j = j + 1;
        assert(out@ =~= m.subrange(a as int, j as int));
    }
    proof {
        if a == b {
            assert(a == mapped.len() || mapped@[a as int] != '_');
            if a < mapped.len() {
                assert(false);
            }
        }
        lemma_trim_underscores(m, a as int, b as int);
    }
    string_from_chars(&out)
}

/// `mesh_<slot>_001`.
pub fn slot_mesh_id(slot: Slot) -> (s: String)
    ensures
        s@ == "mesh_"@ + slot_stable_name_of(slot) + "_001"@,
{
    let a = concat("mesh_", slot_stable_name(slot));
    concat(a.as_str(), "_001")
}

/// `mat_<slot>_primary`.
pub fn slot_material_id(slot: Slot) -> (s: String)
    ensures
        s@ == "mat_"@ + slot_stable_name_of(slot) + "_primary"@,
{
    let a = concat("mat_", slot_stable_name(slot));
    concat(a.as_str(), "_primary")
}

/// `bone_<token>`.
pub fn bone_scene_id(name: &str) -> (s: String)
    ensures
        s@ == "bone_"@ + stable_token_of(name@),
{
    let t = stable_token(name);
    concat("bone_", t.as_str())
}

/// `n` in decimal with leading zeros to three digits at least.
pub open spec fn zero_pad3(n: nat) -> Seq<char> {
    if n < 10 {
        "00"@ + decimal(n)
    } else if n < 100 {
        "0"@ + decimal(n)
    } else {
        decimal(n)
    }
}

/// `clip_<token>`, or `clip_<index>` (three digits at least) when the name
/// has no token.
pub fn clip_scene_id(name: &str, index: usize) -> (s: String)
    ensures
        stable_token_of(name@).len() > 0 ==> s@ == "clip_"@ + stable_token_of(name@),
        stable_token_of(name@).len() == 0 ==> s@ == "clip_"@ + zero_pad3(index as nat),
{
    let token = stable_token(name);
    if token.as_str().is_empty() {
        let d = decimal_string(index as u128);
        let padded = if index < 10 {
            concat("00", d.as_str())
        } else if index < 100 {
            concat("0", d.as_str())
        } else {
            d
        };
        concat("clip_", padded.as_str())
    } else {
        concat("clip_", token.as_str())
    }
}

/// The slot whose mesh has the scene-object id `object_id`.
pub open spec fn slot_of_mesh_id(object_id: Seq<char>) -> Option<Slot> {
    if object_id == "mesh_body_001"@ {
        Some(Slot::Body)
    } else if object_id == "mesh_head_001"@ {
        Some(Slot::Head)
    } else if object_id == "mesh_hair_001"@ {
        Some(Slot::Hair)
    } else if object_id == "mesh_top_001"@ {
        Some(Slot::Top)
    } else if object_id == "mesh_bottom_001"@ {
        Some(Slot::Bottom)
    } else if object_id == "mesh_shoes_001"@ {
        Some(Slot::Shoes)
    } else if object_id == "mesh_hat_001"@ {
        Some(Slot::Hat)
    } else if object_id == "mesh_glasses_001"@ {
        Some(Slot::Glasses)
    } else if object_id == "mesh_accessory_001"@ {
        Some(Slot::Accessory)
    } else {
        None
    }
}

pub fn slot_from_mesh_id(object_id: &str) -> (r: Option<Slot>)
    ensures
        r == slot_of_mesh_id(object_id@),
{
    if str_eq(object_id, "mesh_body_001") {
        Some(Slot::Body)
    } else if str_eq(object_id, "mesh_head_001") {
        Some(Slot::Head)
    } else if str_eq(object_id, "mesh_hair_001") {
        Some(Slot::Hair)
    } else if str_eq(object_id, "mesh_top_001") {
        Some(Slot::Top)
    } else if str_eq(object_id, "mesh_bottom_001") {
        Some(Slot::Bottom)
    } else if str_eq(object_id, "mesh_shoes_001") {
        Some(Slot::Shoes)
    } else if str_eq(object_id, "mesh_hat_001") {
        Some(Slot::Hat)
    } else if str_eq(object_id, "mesh_glasses_001") {
        Some(Slot::Glasses)
    } else if str_eq(object_id, "mesh_accessory_001") {
        Some(Slot::Accessory)
    } else {
        None
    }
}

/// Every slot's mesh id leads back to the slot.
pub proof fn law_mesh_id_names_its_slot(slot: Slot)
    ensures
        slot_of_mesh_id("mesh_"@ + slot_stable_name_of(slot) + "_001"@) == Some(slot),
{
    reveal_strlit("mesh_");
    reveal_strlit("_001");
    reveal_strlit("body");
    reveal_strlit("head");
    reveal_strlit("hair");
    reveal_strlit("top");
    reveal_strlit("bottom");
    reveal_strlit("shoes");
    reveal_strlit("hat");
    reveal_strlit("glasses");
    reveal_strlit("accessory");
    reveal_strlit("mesh_body_001");
    reveal_strlit("mesh_head_001");
    reveal_strlit("mesh_hair_001");
    reveal_strlit("mesh_top_001");
    reveal_strlit("mesh_bottom_001");
    reveal_strlit("mesh_shoes_001");
    reveal_strlit("mesh_hat_001");
    reveal_strlit("mesh_glasses_001");
    reveal_strlit("mesh_accessory_001");
    let id = "mesh_"@ + slot_stable_name_of(slot) + "_001"@;
    let body = "mesh_body_001"@;
    let head = "mesh_head_001"@;
    let hair = "mesh_hair_001"@;
    let top = "mesh_top_001"@;
    let hat = "mesh_hat_001"@;
    match slot {
        Slot::Body => {
            assert(id =~= body);
        },
        Slot::Head => {
            assert(id =~= head);
            assert(head[5] != body[5]);
        },
        Slot::Hair => {
            assert(id =~= hair);
            assert(hair[5] != body[5]);
            assert(hair[6] != head[6]);
        },
        Slot::Top => {
            assert(id =~= top);
        },
        Slot::Bottom => {
            assert(id =~= "mesh_bottom_001"@);
        },
        Slot::Shoes => {
            assert(id =~= "mesh_shoes_001"@);
        },
        Slot::Hat => {
            assert(id =~= hat);
            assert(hat[6] != top[6]);
        },
        Slot::Glasses => {
            assert(id =~= "mesh_glasses_001"@);
        },
        Slot::Accessory => {
            assert(id =~= "mesh_accessory_001"@);
        },
    }
}

/// Why a wearable cannot be equipped, if it cannot: there must be a body
/// (and so a skeleton), the asset must go in a slot other than the body's,
/// it must be rigged to `avatar_skeleton_v1`, and when it lists body types
/// the avatar's must be among them.
pub open spec fn wearable_refusal(has_skeleton: bool, body_type: Seq<char>, meta: AssetMeta) -> Option<Seq<char>> {
    if !has_skeleton {
        Some("Load a body first."@)
    } else if slot_for_category(meta.category) is None {
        Some("Asset category isn't equippable."@)
    } else if slot_for_category(meta.category) == Some(Slot::Body) {
        Some("Use the Character tab to swap the body."@)
    } else if !(meta.compatible_skeleton matches Some(k) && k@ == AVATAR_SKELETON_V1@) {
        Some("Incompatible: requires skeleton "@ + AVATAR_SKELETON_V1@)
    } else if meta.compatible_body_types@.len() > 0 && !meta.compatible_body_types@.map_values(
        |t: String| t@,
    ).contains(body_type) {
        Some("Incompatible with body "@ + body_type)
    } else {
        None
    }
}

/// The slot a wearable goes in, or why it cannot be equipped on an avatar
/// of `body_type` (`has_skeleton`: a body with a skeleton is loaded).
pub fn validate_wearable(has_skeleton: bool, body_type: &str, meta: &AssetMeta) -> (r: Result<Slot, String>)
    ensures
        match wearable_refusal(has_skeleton, body_type@, *meta) {
            Some(m) => r matches Err(e) && e@ == m,
            None => r == Ok::<Slot, String>(slot_for_category(meta.category)->0),
        },
{
    if !has_skeleton {
        return Err(owned("Load a body first."));
    }
    let slot = match Slot::from_asset_category(meta.category) {
        Some(s) => s,
        None => {
            return Err(owned("Asset category isn't equippable."));
        },
    };
    if slot == Slot::Body {
        return Err(owned("Use the Character tab to swap the body."));
    }
    let rigged = match &meta.compatible_skeleton {
        Some(k) => str_eq(k.as_str(), AVATAR_SKELETON_V1),
        None => false,
    };
    if !rigged {
        return Err(concat("Incompatible: requires skeleton ", AVATAR_SKELETON_V1));
    }
    if meta.compatible_body_types.len() > 0 {
        let ghost views = meta.compatible_body_types@.map_values(|t: String| t@);
        let mut found = false;
        let mut i: usize = 0;
        while i < meta.compatible_body_types.len()
            invariant
                i <= meta.compatible_body_types.len(),
                views == meta.compatible_body_types@.map_values(|t: String| t@),
                found == (exists|k: int| 0 <= k < i && views[k] == body_type@),
            decreases meta.compatible_body_types.len() - i,
        {
            assert(views[i as int] == meta.compatible_body_types@[i as int]@);
            if str_eq(meta.compatible_body_types[i].as_str(), body_type) {
                found = true;
            }
            i = i + 1;
        }
        if !found {
            assert(!views.contains(body_type@));
            return Err(concat("Incompatible with body ", body_type));
        }
    }
    Ok(slot)
}

/// Bit patterns of the sRGB tint a slot shows when neither the user nor
/// the asset chose one.
pub open spec fn default_tint_of(slot: Slot) -> [u32; 4] {
    match slot {
        Slot::Top => [0x3e19_999a, 0x3f0c_cccd, 0x3f59_999a, 0x3f80_0000],
        Slot::Bottom => [0x3e80_0000, 0x3e80_0000, 0x3e99_999a, 0x3f80_0000],
        Slot::Shoes => [0x3dcc_cccd, 0x3dcc_cccd, 0x3dcc_cccd, 0x3f80_0000],
        Slot::Hair => [0x3e38_51ec, 0x3dcc_cccd, 0x3d4c_cccd, 0x3f80_0000],
        Slot::Hat => [0x3f59_999a, 0x3e4c_cccd, 0x3e4c_cccd, 0x3f80_0000],
        Slot::Glasses => [0x3dcc_cccd, 0x3dcc_cccd, 0x3dcc_cccd, 0x3f80_0000],
        Slot::Accessory => [0x3f59_999a, 0x3f33_3333, 0x3dcc_cccd, 0x3f80_0000],
        Slot::Head | Slot::Body => [0x3f80_0000, 0x3f80_0000, 0x3f80_0000, 0x3f80_0000],
    }
}

/// The default tint of each slot: ocean blue tops, dark grey bottoms,
/// near-black shoes and glasses, dark brown hair, red hats, gold
/// accessories, white otherwise.
pub fn default_slot_tint(slot: Slot) -> (t: [u32; 4])
    ensures
        t == default_tint_of(slot),
{
    match slot {
        Slot::Top => [0x3e19_999a, 0x3f0c_cccd, 0x3f59_999a, 0x3f80_0000],
        Slot::Bottom => [0x3e80_0000, 0x3e80_0000, 0x3e99_999a, 0x3f80_0000],
        Slot::Shoes => [0x3dcc_cccd, 0x3dcc_cccd, 0x3dcc_cccd, 0x3f80_0000],
        Slot::Hair => [0x3e38_51ec, 0x3dcc_cccd, 0x3d4c_cccd, 0x3f80_0000],
        Slot::Hat => [0x3f59_999a, 0x3e4c_cccd, 0x3e4c_cccd, 0x3f80_0000],
        Slot::Glasses => [0x3dcc_cccd, 0x3dcc_cccd, 0x3dcc_cccd, 0x3f80_0000],
        Slot::Accessory => [0x3f59_999a, 0x3f33_3333, 0x3dcc_cccd, 0x3f80_0000],
        Slot::Head | Slot::Body => [0x3f80_0000, 0x3f80_0000, 0x3f80_0000, 0x3f80_0000],
    }
}

/// The colour a slot starts with: the user's pick, else the asset's
/// default colour, else the slot's default tint.
pub fn seed_slot_color(avatar: &Avatar, slot: Slot, meta: Option<&AssetMeta>) -> (c: [u32; 3])
    ensures
        avatar.slot_colors@.contains_key(slot) ==> c == avatar.slot_colors@[slot],
        !avatar.slot_colors@.contains_key(slot) && (meta matches Some(m) && m.default_color is Some) ==> c
            == meta->0.default_color->0,
        !avatar.slot_colors@.contains_key(slot) && !(meta matches Some(m) && m.default_color is Some) ==> c
            == [default_tint_of(slot)[0], default_tint_of(slot)[1], default_tint_of(slot)[2]],
{
    if let Some(over) = avatar.slot_color(slot) {
        return over;
    }
    if let Some(m) = meta {
        if let Some(c) = m.default_color {
            return c;
        }
    }
    let t = default_slot_tint(slot);
    [t[0], t[1], t[2]]
}

/// A character can be saved in avatar mode once a body is equipped.
pub fn can_save_character(avatar_mode: bool, avatar: &Avatar) -> (b: bool)
    ensures
        b == (avatar_mode && avatar.slots@.contains_key(Slot::Body)),
{
    avatar_mode && avatar.equipped(Slot::Body).is_some()
}

/// The body's tint when a body is installed: the asset's default colour,
/// else the body slot's default tint.
pub open spec fn installed_body_tint(meta: Option<AssetMeta>) -> [u32; 3] {
    match meta {
        Some(m) => match m.default_color {
            Some(c) => c,
            None => [default_tint_of(Slot::Body)[0], default_tint_of(Slot::Body)[1], default_tint_of(Slot::Body)[2]],
        },
        None => [default_tint_of(Slot::Body)[0], default_tint_of(Slot::Body)[1], default_tint_of(Slot::Body)[2]],
    }
}

/// The id a body is equipped under: the catalog id, or `custom_body` for a
/// file loaded by hand.
pub open spec fn installed_body_id(meta: Option<AssetMeta>) -> Seq<char> {
    match meta {
        Some(m) => m.id@,
        None => "custom_body"@,
    }
}

/// The body type a body brings: the catalog id, or `custom`.
pub open spec fn installed_body_type(meta: Option<AssetMeta>) -> Seq<char> {
    match meta {
        Some(m) => m.id@,
        None => "custom"@,
    }
}

/// Put a newly loaded body on the avatar (`meta` is its catalog row, none
/// for a file loaded by hand): everything else is dropped, the body type
/// and the body slot come from the asset, and the body's colour is seeded.
/// Returns that colour.
pub fn install_body_on_avatar(avatar: &mut Avatar, meta: Option<&AssetMeta>) -> (tint: [u32; 3])
    ensures
        tint == installed_body_tint(match meta { Some(m) => Some(*m), None => None }),
        final(avatar).slots@.dom() == set![Slot::Body],
        final(avatar).slots@[Slot::Body]@ == installed_body_id(match meta { Some(m) => Some(*m), None => None }),
        final(avatar).body_type@ == installed_body_type(match meta { Some(m) => Some(*m), None => None }),
        final(avatar).slot_colors@ == map![Slot::Body => tint],
        final(avatar).expression == Expression::Neutral,
        final(avatar).skin_tone == old(avatar).skin_tone,
{
    let (id, body_type) = match meta {
        Some(m) => (m.id.clone(), m.id.clone()),
        None => (owned("custom_body"), owned("custom")),
    };
    avatar.clear_all();
    avatar.body_type = body_type;
    avatar.equip(Slot::Body, id);
    let tint = seed_slot_color(avatar, Slot::Body, meta);
    avatar.set_slot_color(Slot::Body, tint);
    proof {
        assert(avatar.slots@.dom() =~= set![Slot::Body]);
        assert(avatar.slot_colors@ =~= map![Slot::Body => tint]);
    }
    tint
}

/// The label a newly installed body is shown under.
pub fn installed_body_label(meta: Option<&AssetMeta>) -> (s: String)
    ensures
        s@ == match meta {
            Some(m) => m.display_name@,
            None => "custom body"@,
        },
{
    match meta {
        Some(m) => m.display_name.clone(),
        None => owned("custom body"),
    }
}

/// The note shown when installing a body dropped `dropped` wearables.
pub fn dropped_wearables_note(dropped: usize) -> (m: Option<String>)
    ensures
        dropped == 0 ==> m is None,
        dropped > 0 ==> (m matches Some(s) && s@ == "Unequipped "@ + decimal(dropped as nat) + " wearable(s) for new body"@),
{
    if dropped == 0 {
        return None;
    }
    let n = decimal_string(dropped as u128);
    let a = concat("Unequipped ", n.as_str());
    Some(concat(a.as_str(), " wearable(s) for new body"))
}

pub open spec fn is_digit(c: char) -> bool {
    '0' <= c && c <= '9'
}

/// The value of the decimal digits `d`.
pub open spec fn digits_value(d: Seq<char>) -> nat
    decreases d.len(),
{
    if d.len() == 0 {
        0
    } else {
        digits_value(d.drop_last()) * 10 + ((d.last() as u32) - ('0' as u32)) as nat
    }
}

/// `usize::from_str`: an optional `+` and then one or more decimal digits
/// whose value fits a `usize`.
pub open spec fn parsed_usize(s: Seq<char>) -> Option<nat> {
    let d = unsigned_digits(s);
    if d.len() > 0 && all_digits(d) && digits_value(d) <= usize::MAX {
        Some(digits_value(d))
    } else {
        None
    }
}

/// `s` without a leading `+`.
pub open spec fn unsigned_digits(s: Seq<char>) -> Seq<char> {
    if s.len() > 0 && s[0] == '+' {
        s.drop_first()
    } else {
        s
    }
}

pub open spec fn all_digits(d: Seq<char>) -> bool {
    forall|i: int| 0 <= i < d.len() ==> is_digit(#[trigger] d[i])
}

/// The value of `--perf-frames`, or why it was refused.
pub open spec fn perf_frames_outcome(value: Seq<char>) -> Result<usize, Seq<char>> {
    match parsed_usize(value) {
        None => Err("--perf-frames must be a positive integer"@),
        Some(n) => if n == 0 {
            Err("--perf-frames must be greater than zero"@)
        } else {
            Ok(n as usize)
        },
    }
}

proof fn lemma_digits_value_grows(d: Seq<char>, c: char)
    requires
        is_digit(c),
    ensures
        digits_value(d.push(c)) == digits_value(d) * 10 + ((c as u32) - ('0' as u32)),
        digits_value(d.push(c)) >= digits_value(d),
{
    assert(d.push(c).drop_last() =~= d);
}

/// A `usize` written in decimal, as `str::parse::<usize>` reads it.
fn parse_usize(value: &str) -> (r: Option<usize>)
    ensures
        r matches Some(n) ==> parsed_usize(value@) == Some(n as nat),
        r is None ==> parsed_usize(value@) is None,
{
    let v = chars_of(value);
    let start: usize = if v.len() > 0 && v[0] == '+' { 1 } else { 0 };
    let ghost d = unsigned_digits(value@);
    assert(d =~= value@.subrange(start as int, value@.len() as int));
    if start >= v.len() {
        return None;
    }
    let mut acc: usize = 0;
    let mut i: usize = start;
    while i < v.len()
        invariant
            v@ == value@,
            start <= i <= v.len(),
            d == value@.subrange(start as int, value@.len() as int),
            d == unsigned_digits(value@),
            forall|k: int| start <= k < i ==> is_digit(#[trigger] v@[k]),
            acc == digits_value(value@.subrange(start as int, i as int)),
        decreases v.len() - i,
    {
        let c = v[i];
        if !('0' <= c && c <= '9') {
            assert(d[i - start] == c);
            assert(!is_digit(d[i - start]));
            return None;
        }
        let digit = (c as u32 - '0' as u32) as usize;
        proof {
            assert(value@.subrange(start as int, i + 1) =~= value@.subrange(start as int, i as int).push(c));
            lemma_digits_value_grows(value@.subrange(start as int, i as int), c);
        }
        let next = match acc.checked_mul(10) {
            Some(m) => m.checked_add(digit),
            None => None,
        };
        match next {
            Some(n) => {
                acc = n;
            },
            None => {
                proof {
                    lemma_digits_prefix_bound(value@, start as int, i as int + 1);
                }
                return None;
            },
        }
        i = i + 1;
    }
    assert(value@.subrange(start as int, v@.len() as int) == d);
    Some(acc)
}

/// Once a prefix of the digits is too large for a `usize`, so are all the
/// digits.
proof fn lemma_digits_prefix_bound(s: Seq<char>, start: int, k: int)
    requires
        0 <= start < k <= s.len(),
        digits_value(s.subrange(start, k)) > usize::MAX,
    ensures
        all_digits(s.subrange(start, s.len() as int)) ==> digits_value(s.subrange(start, s.len() as int))
            > usize::MAX,
    decreases s.len() - k,
{
    if k < s.len() {
        if all_digits(s.subrange(start, s.len() as int)) {
            assert(s.subrange(start, s.len() as int)[k - start] == s[k]);
            assert(s.subrange(start, k + 1) =~= s.subrange(start, k).push(s[k]));
            lemma_digits_value_grows(s.subrange(start, k), s[k]);
            lemma_digits_prefix_bound(s, start, k + 1);
        }
    } else {
    }
}

/// The value of `--perf-frames`: a positive decimal integer.
pub fn parse_perf_frames(value: &str) -> (r: Result<usize, String>)
    ensures
        match perf_frames_outcome(value@) {
            Ok(n) => r == Ok::<usize, String>(n),
            Err(m) => r matches Err(e) && e@ == m,
        },
{
    match parse_usize(value) {
        None => Err(owned("--perf-frames must be a positive integer")),
        Some(n) => if n == 0 {
            Err(owned("--perf-frames must be greater than zero"))
        } else {
            Ok(n)
        },
    }
}

pub open spec fn starts_with(s: Seq<char>, p: Seq<char>) -> bool {
    p.len() <= s.len() && s.take(p.len() as int) == p
}

/// `str::trim_start_matches(p)`: `s` with every leading repetition of `p`
/// removed.
pub open spec fn strip_prefix_all(s: Seq<char>, p: Seq<char>) -> Seq<char>
    decreases s.len(),
{
    if p.len() > 0 && starts_with(s, p) {
        strip_prefix_all(s.skip(p.len() as int), p)
    } else {
        s
    }
}

/// The options that the arguments from the `i`-th on give, starting from
/// `o`, or the refusal of the first bad one.
pub open spec fn args_outcome(args: Seq<Seq<char>>, i: int, o: StartupOptions) -> Result<StartupOptions, Seq<char>>
    decreases args.len() - i,
{
    if i < 0 || i >= args.len() {
        Ok(o)
    } else {
        let a = args[i];
        if a == "--agent-capture"@ {
            args_outcome(args, i + 1, StartupOptions { mode: StartupMode::AgentCapture, ..o })
        } else if a == "--agent-perf"@ {
            args_outcome(args, i + 1, StartupOptions { mode: StartupMode::AgentPerf, ..o })
        } else if a == "--agent-gif"@ {
            args_outcome(args, i + 1, StartupOptions { mode: StartupMode::AgentGif, ..o })
        } else if a == "--show-perf"@ {
            args_outcome(args, i + 1, StartupOptions { show_perf: true, ..o })
        } else if a == "--no-vsync"@ {
            args_outcome(args, i + 1, StartupOptions { vsync: false, ..o })
        } else if a == "--deterministic"@ {
            args_outcome(args, i + 1, StartupOptions { deterministic: true, ..o })
        } else if a == "--perf-frames"@ {
            if i + 1 >= args.len() {
                Err("--perf-frames requires a positive integer"@)
            } else {
                match perf_frames_outcome(args[i + 1]) {
                    Err(m) => Err(m),
                    Ok(n) => args_outcome(args, i + 2, StartupOptions { perf_frames: n, ..o }),
                }
            }
        } else if starts_with(a, "--perf-frames="@) {
            match perf_frames_outcome(strip_prefix_all(a, "--perf-frames="@)) {
                Err(m) => Err(m),
                Ok(n) => args_outcome(args, i + 1, StartupOptions { perf_frames: n, ..o }),
            }
        } else {
            Err("unknown argument: "@ + a)
        }
    }
}

/// Whether `p` occurs in `v` at index `j`.
fn occurs_at(v: &Vec<char>, j: usize, p: &Vec<char>) -> (b: bool)
    requires
        j <= v@.len(),
    ensures
        b == starts_with(v@.skip(j as int), p@),
{
    if v.len() - j < p.len() {
        return false;
    }
    let n = v.len();
    let mut k: usize = 0;
    while k < p.len()
        invariant
            n == v@.len(),
            j <= v@.len(),
            p@.len() <= v@.len() - j,
            k <= p@.len(),
            forall|t: int| 0 <= t < k ==> v@[j + t] == p@[t],
        decreases p.len() - k,
    {
        if v[j + k] != p[k] {
            assert(v@.skip(j as int).take(p@.len() as int)[k as int] != p@[k as int]);
            return false;
        }
        k = k + 1;
    }
    assert(v@.skip(j as int).take(p@.len() as int) =~= p@);
    true
}

/// `a` with every leading `--perf-frames=` removed.
fn strip_perf_frames_prefix(a: &str) -> (r: String)
    ensures
        r@ == strip_prefix_all(a@, "--perf-frames="@),
{
    let v = chars_of(a);
    let p = chars_of("--perf-frames=");
    proof {
        reveal_strlit("--perf-frames=");
    }
    let mut j: usize = 0;
    let n = v.len();
    assert(v@.skip(0) =~= v@);
    while occurs_at(&v, j, &p)
        invariant
            n == v@.len(),
            v@ == a@,
            p@ == "--perf-frames="@,
            p@.len() == 14,
            j <= v@.len(),
            strip_prefix_all(a@, p@) == strip_prefix_all(v@.skip(j as int), p@),
        decreases v@.len() - j,
    {
        assert(v@.skip(j as int).skip(14) =~= v@.skip(j + 14));
        j = j + 14;
    }
    let mut out: Vec<char> = Vec::new();
    let mut k: usize = j;
    while k < v.len()
        invariant
            j <= k <= v@.len(),
            out@ == v@.subrange(j as int, k as int),
        decreases v.len() - k,
    {
        out.push(v[k]);
        k = k + 1;
        assert(out@ =~= v@.subrange(j as int, k as int));
    }
    assert(out@ =~= v@.skip(j as int));
    string_from_chars(&out)
}

/// The desktop editor's command-line options. Flags select an agent mode,
/// the perf overlay, vsync and deterministic capture; `--perf-frames` takes
/// a positive integer, as the next argument or after `=`.
pub fn parse_args(args: &Vec<String>) -> (r: Result<StartupOptions, String>)
    ensures
        match args_outcome(args@.map_values(|s: String| s@), 0, default_startup()) {
            Ok(o) => r == Ok::<StartupOptions, String>(o),
            Err(m) => r matches Err(e) && e@ == m,
        },
{
    let ghost views = args@.map_values(|s: String| s@);
    let mut options = StartupOptions::default();
    let mut i: usize = 0;
    let p = chars_of("--perf-frames=");
    proof {
        reveal_strlit("--perf-frames=");
    }
    while i < args.len()
        invariant
            i <= args.len(),
            views == args@.map_values(|s: String| s@),
            p@ == "--perf-frames="@,
            args_outcome(views, 0, default_startup()) == args_outcome(views, i as int, options),
        decreases args.len() - i,
    {
        let a = args[i].as_str();
        assert(views[i as int] == a@);
        if str_eq(a, "--agent-capture") {
            options.mode = StartupMode::AgentCapture;
            i = i + 1;
        } else if str_eq(a, "--agent-perf") {
            options.mode = StartupMode::AgentPerf;
            i = i + 1;
        } else if str_eq(a, "--agent-gif") {
            options.mode = StartupMode::AgentGif;
            i = i + 1;
        } else if str_eq(a, "--show-perf") {
            options.show_perf = true;
            i = i + 1;
        } else if str_eq(a, "--no-vsync") {
            options.vsync = false;
            i = i + 1;
        } else if str_eq(a, "--deterministic") {
            options.deterministic = true;
            i = i + 1;
        } else if str_eq(a, "--perf-frames") {
            if i + 1 >= args.len() {
                return Err(owned("--perf-frames requires a positive integer"));
            }
            assert(views[i + 1] == args@[i + 1]@);
            match parse_perf_frames(args[i + 1].as_str()) {
                Err(e) => {
                    return Err(e);
                },
                Ok(n) => {
                    options.perf_frames = n;
                },
            }
            i = i + 2;
        } else {
            let va = chars_of(a);
            if occurs_at(&va, 0, &p) {
                assert(va@.skip(0) =~= va@);
                let value = strip_perf_frames_prefix(a);
                match parse_perf_frames(value.as_str()) {
                    Err(e) => {
                        return Err(e);
                    },
                    Ok(n) => {
                        options.perf_frames = n;
                    },
                }
                i = i + 1;
            } else {
                assert(va@.skip(0) =~= va@);
                return Err(concat("unknown argument: ", a));
            }
        }
    }
    Ok(options)
}

} // verus!
