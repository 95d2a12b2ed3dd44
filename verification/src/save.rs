//! Saved characters (schema v1): what a save records of an avatar, how it
//! is restored, the rules for ids and names, and where a character store
//! keeps its files. Reading and writing the JSON files is the caller's.

use vstd::prelude::*;

use crate::avatar::{Avatar, DEFAULT_BODY_TYPE};
use crate::expressions::Expression;
use crate::pathtext::{join_path, path_join};
use crate::slots::{Slot, SlotMap};
use crate::text::{chars_of, concat, decimal, decimal_string, owned, str_eq, string_from_chars};
use crate::time::unix_millis;

verus! {

pub const SAVE_SCHEMA_VERSION: u32 = 1;

/// Why a save cannot be used.
#[derive(Debug, Clone, PartialEq, Eq)]
pub enum SaveError {
    /// The file's schema version is not the one this library reads.
    Schema { found: u32, expected: u32 },
}

/// One saved character. `skin_tone` and `colors` hold `f32` bit patterns.
#[derive(Debug, Clone, PartialEq)]
pub struct AvatarSave {
    pub schema_version: u32,
    pub id: String,
    pub name: String,
    pub created_at: String,
    pub updated_at: String,
    /// Asset id of the equipped body, or `"default"` when none is.
    pub base_body: String,
    pub body_type: String,
    pub skin_tone: [u32; 3],
    /// Equipped wearables; the body is in `base_body`.
    pub slots: SlotMap<String>,
    pub colors: SlotMap<[u32; 3]>,
    pub expression: Expression,
    pub animation: Option<String>,
}

/// A gallery entry for one save file.
#[derive(Debug, Clone, PartialEq, Eq)]
pub struct SavedCharacterSummary {
    pub id: String,
    pub name: String,
    pub updated_at: String,
    pub path: String,
}

/// A directory of `<id>.json` save files.
#[derive(Debug, Clone)]
pub struct CharacterStore {
    root: String,
}

/// What a save records of `a`: everything but the body in `slots`, the
/// body (or `"default"`) in `base_body`.
pub open spec fn save_records(a: Avatar, s: AvatarSave) -> bool {
    &&& s.schema_version == SAVE_SCHEMA_VERSION
    &&& s.body_type == a.body_type
    &&& s.skin_tone == a.skin_tone
    &&& s.expression == a.expression
    &&& s.slots@ == a.slots@.remove(Slot::Body)
    &&& s.colors@ == a.slot_colors@
    &&& if a.slots@.contains_key(Slot::Body) {
        s.base_body == a.slots@[Slot::Body]
    } else {
        s.base_body@ == DEFAULT_BODY_TYPE@
    }
}

/// The slots an avatar restored from `s` has: the saved wearables (a body
/// among them is ignored) and the base body unless it is `"default"`.
pub open spec fn restored_slots(s: AvatarSave) -> Map<Slot, String> {
    if s.base_body@ != DEFAULT_BODY_TYPE@ {
        s.slots@.remove(Slot::Body).insert(Slot::Body, s.base_body)
    } else {
        s.slots@.remove(Slot::Body)
    }
}

/// `a` is the avatar restored from `s`.
pub open spec fn restores(s: AvatarSave, a: Avatar) -> bool {
    &&& a.body_type == s.body_type
    &&& a.skin_tone == s.skin_tone
    &&& a.expression == s.expression
    &&& a.slots@ == restored_slots(s)
    &&& a.slot_colors@ == s.colors@
}

/// Restoring a save gives back the avatar it was made from: the same
/// equipped assets in every slot, colours, body type, skin tone and
/// expression. The one avatar that does not come back is one whose body
/// asset id is itself `"default"`, which the save cannot tell from no body.
pub proof fn law_save_restores_avatar(a: Avatar, s: AvatarSave, b: Avatar)
    requires
        save_records(a, s),
        restores(s, b),
        a.slots@.contains_key(Slot::Body) ==> a.slots@[Slot::Body]@ != DEFAULT_BODY_TYPE@,
    ensures
        b.slots@ == a.slots@,
        b.slot_colors@ == a.slot_colors@,
        b.body_type == a.body_type,
        b.skin_tone == a.skin_tone,
        b.expression == a.expression,
{
    assert(b.slots@ =~= a.slots@);
}

/// `char::is_whitespace`: the Unicode `White_Space` characters.
pub open spec fn is_unicode_whitespace(c: char) -> bool {
    let u = c as u32;
    (0x9 <= u && u <= 0xd) || u == 0x20 || u == 0x85 || u == 0xa0 || u == 0x1680 || (0x2000 <= u && u
        <= 0x200a) || u == 0x2028 || u == 0x2029 || u == 0x202f || u == 0x205f || u == 0x3000
}

pub(crate) fn unicode_whitespace(c: char) -> (b: bool)
    ensures
        b == is_unicode_whitespace(c),
{
    let u = c as u32;
    (0x9 <= u && u <= 0xd) || u == 0x20 || u == 0x85 || u == 0xa0 || u == 0x1680 || (0x2000 <= u && u
        <= 0x200a) || u == 0x2028 || u == 0x2029 || u == 0x202f || u == 0x205f || u == 0x3000
}

/// Id characters kept as they are.
pub open spec fn is_kept_id_char(c: char) -> bool {
    ('a' <= c && c <= 'z') || ('A' <= c && c <= 'Z') || ('0' <= c && c <= '9') || c == '_' || c == '-'
}

/// `raw` with ASCII letters, digits, `_` and `-` kept, whitespace turned
/// into `_`, and everything else dropped.
pub open spec fn sanitized(raw: Seq<char>) -> Seq<char>
    decreases raw.len(),
{
    if raw.len() == 0 {
        Seq::empty()
    } else {
        let rest = sanitized(raw.drop_last());
        let c = raw.last();
        if is_kept_id_char(c) {
            rest.push(c)
        } else if is_unicode_whitespace(c) {
            rest.push('_')
        } else {
            rest
        }
    }
}

/// An id made by [`new_character_id`]: `char_` and a millisecond count.
pub open spec fn is_generated_id(id: Seq<char>) -> bool {
    exists|n: nat| id == "char_"@ + #[trigger] decimal(n)
}

/// A fresh character id from the wall clock: `char_<unix millis>`.
pub fn new_character_id() -> (s: String)
    ensures
        is_generated_id(s@),
{
    let ms = unix_millis();
    let s = concat("char_", decimal_string(ms).as_str());
    assert(s@ == "char_"@ + decimal(ms as nat));
    s
}

/// The current wall-clock time as a decimal millisecond count.
fn timestamp_now() -> (s: String)
    ensures
        exists|n: nat| s@ == #[trigger] decimal(n),
{
    let ms = unix_millis();
    decimal_string(ms)
}

/// An id that is safe as a file name; an id with nothing left gets a fresh
/// generated one.
pub fn sanitize_id(raw: &str) -> (id: String)
    ensures
        sanitized(raw@).len() > 0 ==> id@ == sanitized(raw@),
        sanitized(raw@).len() == 0 ==> is_generated_id(id@),
{
    let v = chars_of(raw);
    let mut out: Vec<char> = Vec::new();
    let mut i: usize = 0;
    while i < v.len()
        invariant
            v@ == raw@,
            i <= v.len(),
            out@ == sanitized(raw@.subrange(0, i as int)),
        decreases v.len() - i,
    {
        let c = v[i];
        assert(raw@.subrange(0, i + 1).drop_last() =~= raw@.subrange(0, i as int));
        if ('a' <= c && c <= 'z') || ('A' <= c && c <= 'Z') || ('0' <= c && c <= '9') || c == '_' || c == '-' {
            out.push(c);
        } else if unicode_whitespace(c) {
            out.push('_');
        }
        i = i + 1;
    }
    assert(raw@.subrange(0, v@.len() as int) =~= raw@);
    if out.len() == 0 {
        new_character_id()
    } else {
        string_from_chars(&out)
    }
}

/// Bytes of the UTF-8 encoding of `c`.
pub open spec fn utf8_width(c: char) -> nat {
    let u = c as u32;
    if u < 0x80 {
        1
    } else if u < 0x800 {
        2
    } else if u < 0x10000 {
        3
    } else {
        4
    }
}

/// Bytes of the UTF-8 encoding of the first `k` characters of `s`.
pub open spec fn utf8_len_upto(s: Seq<char>, k: int) -> nat
    decreases k,
{
    if k <= 0 {
        0
    } else {
        utf8_len_upto(s, k - 1) + utf8_width(s[k - 1])
    }
}

pub open spec fn utf8_len(s: Seq<char>) -> nat {
    utf8_len_upto(s, s.len() as int)
}

/// Longest name, in bytes.
pub const NAME_MAX_BYTES: usize = 64;

/// How many leading characters of `s`, from the `k`-th on, still fit in
/// [`NAME_MAX_BYTES`] bytes.
pub open spec fn fitting_from(s: Seq<char>, k: int) -> int
    decreases s.len() - k,
{
    if 0 <= k < s.len() && utf8_len_upto(s, k + 1) <= NAME_MAX_BYTES {
        fitting_from(s, k + 1)
    } else {
        k
    }
}

pub open spec fn is_blank(s: Seq<char>) -> bool {
    forall|i: int| 0 <= i < s.len() ==> is_unicode_whitespace(#[trigger] s[i])
}

/// The name a save stores: `Untitled Avatar` for a blank name, cut to its
/// first 64 bytes.
pub open spec fn clamped_name(name: Seq<char>) -> Seq<char> {
    let t = if is_blank(name) {
        "Untitled Avatar"@
    } else {
        name
    };
    t.take(fitting_from(t, 0))
}

/// Whether cutting `name` to 64 bytes falls between characters, as
/// `String::truncate` requires (it panics otherwise).
pub open spec fn name_cut_ok(name: Seq<char>) -> bool {
    is_blank(name) || utf8_len(name) <= NAME_MAX_BYTES || exists|k: int|
        0 <= k <= name.len() && #[trigger] utf8_len_upto(name, k) == NAME_MAX_BYTES
}

proof fn lemma_utf8_len_mono(s: Seq<char>, j: int, k: int)
    requires
        0 <= j <= k,
    ensures
        utf8_len_upto(s, j) <= utf8_len_upto(s, k),
        j < k ==> utf8_len_upto(s, j) < utf8_len_upto(s, k),
    decreases k - j,
{
    if j < k {
        lemma_utf8_len_mono(s, j, k - 1);
    }
}

proof fn lemma_fitting_from(s: Seq<char>, k: int)
    requires
        0 <= k <= s.len(),
        utf8_len_upto(s, k) <= NAME_MAX_BYTES,
    ensures
        k <= fitting_from(s, k) <= s.len(),
        utf8_len_upto(s, fitting_from(s, k)) <= NAME_MAX_BYTES,
        fitting_from(s, k) < s.len() ==> utf8_len_upto(s, fitting_from(s, k) + 1) > NAME_MAX_BYTES,
    decreases s.len() - k,
{
    if k < s.len() && utf8_len_upto(s, k + 1) <= NAME_MAX_BYTES {
        lemma_fitting_from(s, k + 1);
    }
}

proof fn lemma_utf8_len_take(s: Seq<char>, k: int)
    requires
        0 <= k <= s.len(),
    ensures
        utf8_len(s.take(k)) == utf8_len_upto(s, k),
{
    lemma_utf8_len_prefix(s, s.take(k), k);
}

proof fn lemma_utf8_len_prefix(s: Seq<char>, t: Seq<char>, k: int)
    requires
        0 <= k <= s.len(),
        k <= t.len(),
        forall|i: int| 0 <= i < k ==> t[i] == s[i],
    ensures
        utf8_len_upto(t, k) == utf8_len_upto(s, k),
    decreases k,
{
    if k > 0 {
        lemma_utf8_len_prefix(s, t, k - 1);
    }
}

/// The name a save stores: blank names become `Untitled Avatar`, and a name
/// longer than 64 bytes is cut to exactly 64.
pub fn clamp_name(name: &str) -> (r: String)
    requires
        name_cut_ok(name@),
    ensures
        r@ == clamped_name(name@),
        !is_blank(name@) && utf8_len(name@) > NAME_MAX_BYTES ==> utf8_len(r@) == NAME_MAX_BYTES,
{
    let v = chars_of(name);
    let mut blank = true;
    let mut i: usize = 0;
    while i < v.len()
        invariant
            v@ == name@,
            i <= v.len(),
            blank == forall|j: int| 0 <= j < i ==> is_unicode_whitespace(#[trigger] v@[j]),
        decreases v.len() - i,
    {
        if !unicode_whitespace(v[i]) {
            blank = false;
        }
        i = i + 1;
    }
    let t = if blank { chars_of("Untitled Avatar") } else { v };
    let ghost ts = t@;
    let mut bytes: usize = 0;
    let mut k: usize = 0;
    proof {
        lemma_fitting_from(ts, 0);
    }
    while k < t.len()
        invariant
            ts == t@,
            k <= t.len(),
            bytes == utf8_len_upto(ts, k as int),
            bytes <= NAME_MAX_BYTES,
            fitting_from(ts, 0) == fitting_from(ts, k as int),
        ensures
            k <= t.len(),
            bytes == utf8_len_upto(ts, k as int),
            fitting_from(ts, 0) == fitting_from(ts, k as int),
            k < t.len() ==> utf8_len_upto(ts, k as int + 1) > NAME_MAX_BYTES,
        decreases t.len() - k,
    {
        let u = t[k] as u32;
        let w: usize = if u < 0x80 {
            1
        } else if u < 0x800 {
            2
        } else if u < 0x10000 {
            3
        } else {
            4
        };
        assert(w == utf8_width(ts[k as int]));
        if bytes + w > NAME_MAX_BYTES {
            break;
        }
        bytes = bytes + w;
        k = k + 1;
    }
    let mut out: Vec<char> = Vec::new();
    let mut j: usize = 0;
    while j < k
        invariant
            j <= k,
            k <= t.len(),
            out@ == t@.take(j as int),
        decreases k - j,
    {
        out.push(t[j]);
        j = j + 1;
        assert(out@ =~= t@.take(j as int));
    }
    proof {
        assert(fitting_from(ts, k as int) == k);
        if !is_blank(name@) && utf8_len(name@) > NAME_MAX_BYTES {
            let kk = choose|kk: int| 0 <= kk <= name@.len() && #[trigger] utf8_len_upto(name@, kk) == NAME_MAX_BYTES;
            if kk > k {
                lemma_utf8_len_mono(ts, k as int + 1, kk);
            } else if kk < k {
                lemma_utf8_len_mono(ts, kk, k as int);
            }
            lemma_utf8_len_take(ts, k as int);
        }
    }
    string_from_chars(&out)
}

impl AvatarSave {
    /// A save of `avatar` stamped with the current time.
    pub fn new(id: &str, name: &str, avatar: &Avatar, animation: Option<String>) -> (s: AvatarSave)
        requires
            name_cut_ok(name@),
        ensures
            save_records(*avatar, s),
            sanitized(id@).len() > 0 ==> s.id@ == sanitized(id@),
            sanitized(id@).len() == 0 ==> is_generated_id(s.id@),
            s.name@ == clamped_name(name@),
            s.animation == animation,
            s.created_at@ == s.updated_at@,
            exists|n: nat| s.created_at@ == #[trigger] decimal(n),
    {
        let now = timestamp_now();
        let later = owned(now.as_str());
        Self::from_parts(id, name, avatar, animation, now, later)
    }

    /// A save of `avatar` with the given stamps.
    pub fn from_parts(
        id: &str,
        name: &str,
        avatar: &Avatar,
        animation: Option<String>,
        created_at: String,
        updated_at: String,
    ) -> (s: AvatarSave)
        requires
            name_cut_ok(name@),
        ensures
            save_records(*avatar, s),
            sanitized(id@).len() > 0 ==> s.id@ == sanitized(id@),
            sanitized(id@).len() == 0 ==> is_generated_id(s.id@),
            s.name@ == clamped_name(name@),
            s.created_at == created_at,
            s.updated_at == updated_at,
            s.animation == animation,
    {
        let base_body = match avatar.slots.get(Slot::Body) {
            Some(b) => b.clone(),
            None => owned(DEFAULT_BODY_TYPE),
        };
        let mut slots = avatar.slots.clone_entries();
        slots.remove(Slot::Body);
        let colors = avatar.slot_colors.copied();
        assert(slots@ =~= avatar.slots@.remove(Slot::Body));
        AvatarSave {
            schema_version: SAVE_SCHEMA_VERSION,
            id: sanitize_id(id),
            name: clamp_name(name),
            created_at,
            updated_at,
            base_body,
            body_type: avatar.body_type.clone(),
            skin_tone: avatar.skin_tone,
            slots,
            colors,
            expression: avatar.expression,
            animation,
        }
    }

    /// The avatar this save describes.
    pub fn into_avatar(&self) -> (r: Result<Avatar, SaveError>)
        ensures
            self.schema_version == SAVE_SCHEMA_VERSION ==> (r matches Ok(a) && restores(*self, a)),
            self.schema_version != SAVE_SCHEMA_VERSION ==> r == Err::<Avatar, SaveError>(
                SaveError::Schema { found: self.schema_version, expected: SAVE_SCHEMA_VERSION },
            ),
    {
        match self.validate_schema() {
            Err(e) => {
                return Err(e);
            },
            Ok(()) => {},
        }
        let mut slots = self.slots.clone_entries();
        slots.remove(Slot::Body);
        if !str_eq(self.base_body.as_str(), DEFAULT_BODY_TYPE) {
            slots.insert(Slot::Body, self.base_body.clone());
        }
        let colors = self.colors.copied();
        assert(slots@ =~= restored_slots(*self));
        Ok(
            Avatar {
                body_type: self.body_type.clone(),
                skin_tone: self.skin_tone,
                slots,
                slot_colors: colors,
                expression: self.expression,
            },
        )
    }

    /// Refuse saves of another schema version.
    pub fn validate_schema(&self) -> (r: Result<(), SaveError>)
        ensures
            self.schema_version == SAVE_SCHEMA_VERSION ==> r is Ok,
            self.schema_version != SAVE_SCHEMA_VERSION ==> r == Err::<(), SaveError>(
                SaveError::Schema { found: self.schema_version, expected: SAVE_SCHEMA_VERSION },
            ),
    {
        if self.schema_version != SAVE_SCHEMA_VERSION {
            return Err(SaveError::Schema { found: self.schema_version, expected: SAVE_SCHEMA_VERSION });
        }
        Ok(())
    }
}

impl CharacterStore {
    pub fn new(root: String) -> (s: CharacterStore)
        ensures
            s.root_path() == root@,
    {
        CharacterStore { root }
    }

    pub closed spec fn root_path(&self) -> Seq<char> {
        self.root@
    }

    pub fn root(&self) -> (r: &str)
        ensures
            r@ == self.root_path(),
    {
        self.root.as_str()
    }

    /// `<root>/<sanitized id>.json`.
    pub fn path_for(&self, id: &str) -> (p: String)
        ensures
            sanitized(id@).len() > 0 ==> p@ == path_join(self.root_path(), sanitized(id@) + ".json"@),
            sanitized(id@).len() == 0 ==> exists|g: Seq<char>|
                is_generated_id(g) && p@ == #[trigger] path_join(self.root_path(), g + ".json"@),
    {
        let clean = sanitize_id(id);
        let file = concat(clean.as_str(), ".json");
        let p = join_path(self.root.as_str(), file.as_str());
        assert(p@ == path_join(self.root_path(), clean@ + ".json"@));
        p
    }
}

/// `a` sorts before `b` as `str`s do: by code point, a prefix first.
pub open spec fn text_lt(a: Seq<char>, b: Seq<char>) -> bool
    decreases a.len(),
{
    if a.len() == 0 {
        b.len() > 0
    } else if b.len() == 0 {
        false
    } else if a[0] < b[0] {
        true
    } else if a[0] > b[0] {
        false
    } else {
        text_lt(a.drop_first(), b.drop_first())
    }
}

proof fn lemma_text_lt_irreflexive(a: Seq<char>)
    ensures
        !text_lt(a, a),
    decreases a.len(),
{
    if a.len() > 0 {
        lemma_text_lt_irreflexive(a.drop_first());
    }
}

proof fn lemma_text_lt_total(a: Seq<char>, b: Seq<char>)
    ensures
        a == b || text_lt(a, b) || text_lt(b, a),
        !(text_lt(a, b) && text_lt(b, a)),
    decreases a.len(),
{
    if a.len() > 0 && b.len() > 0 {
        lemma_text_lt_total(a.drop_first(), b.drop_first());
        if a[0] == b[0] && a.drop_first() == b.drop_first() {
            assert(a =~= seq![a[0]] + a.drop_first());
            assert(b =~= seq![b[0]] + b.drop_first());
        }
    } else if a.len() == 0 && b.len() == 0 {
        assert(a =~= b);
    }
}

proof fn lemma_text_lt_transitive(a: Seq<char>, b: Seq<char>, c: Seq<char>)
    requires
        text_lt(a, b),
        text_lt(b, c),
    ensures
        text_lt(a, c),
    decreases a.len(),
{
    if a.len() > 0 && b.len() > 0 && c.len() > 0 && a[0] == b[0] && b[0] == c[0] {
        lemma_text_lt_transitive(a.drop_first(), b.drop_first(), c.drop_first());
    }
}

/// Whether `x` may stand before `y` in the gallery: newer first, then by
/// name.
pub open spec fn gallery_le(x: SavedCharacterSummary, y: SavedCharacterSummary) -> bool {
    text_lt(y.updated_at@, x.updated_at@) || (x.updated_at@ == y.updated_at@ && !text_lt(y.name@, x.name@))
}

proof fn lemma_gallery_total(x: SavedCharacterSummary, y: SavedCharacterSummary)
    ensures
        gallery_le(x, y) || gallery_le(y, x),
{
    lemma_text_lt_total(x.updated_at@, y.updated_at@);
    lemma_text_lt_total(x.name@, y.name@);
}

proof fn lemma_gallery_transitive(x: SavedCharacterSummary, y: SavedCharacterSummary, z: SavedCharacterSummary)
    requires
        gallery_le(x, y),
        gallery_le(y, z),
    ensures
        gallery_le(x, z),
{
    lemma_text_lt_total(x.updated_at@, y.updated_at@);
    lemma_text_lt_total(y.updated_at@, z.updated_at@);
    lemma_text_lt_total(x.updated_at@, z.updated_at@);
    lemma_text_lt_total(x.name@, z.name@);
    if text_lt(y.updated_at@, x.updated_at@) && text_lt(z.updated_at@, y.updated_at@) {
        lemma_text_lt_transitive(z.updated_at@, y.updated_at@, x.updated_at@);
    }
    if x.updated_at@ == y.updated_at@ && y.updated_at@ == z.updated_at@ {
        if text_lt(z.name@, x.name@) {
            lemma_text_lt_total(y.name@, z.name@);
            lemma_text_lt_total(x.name@, y.name@);
            if text_lt(z.name@, y.name@) {
            } else if y.name@ == z.name@ {
            } else {
                lemma_text_lt_transitive(z.name@, x.name@, y.name@);
            }
        }
    }
}

/// Executable form of [`text_lt`].
fn text_less(a: &str, b: &str) -> (r: bool)
    ensures
        r == text_lt(a@, b@),
{
    let va = chars_of(a);
    let vb = chars_of(b);
    let mut i: usize = 0;
    assert(a@.skip(0) =~= a@);
    assert(b@.skip(0) =~= b@);
    while i < va.len() && i < vb.len()
        invariant
            va@ == a@,
            vb@ == b@,
            i <= va.len(),
            i <= vb.len(),
            text_lt(a@, b@) == text_lt(a@.skip(i as int), b@.skip(i as int)),
        decreases va.len() - i,
    {
        let x = va[i];
        let y = vb[i];
        if x < y {
            return true;
        }
        if x > y {
            return false;
        }
        assert(a@.skip(i as int).drop_first() =~= a@.skip(i + 1));
        assert(b@.skip(i as int).drop_first() =~= b@.skip(i + 1));
        i = i + 1;
    }
    i == va.len() && i < vb.len()
}

/// Order gallery entries newest first (by `updated_at`), then by name.
pub fn sort_newest_first(summaries: Vec<SavedCharacterSummary>) -> (out: Vec<SavedCharacterSummary>)
    ensures
        out@.to_multiset() == summaries@.to_multiset(),
        forall|i: int, j: int| 0 <= i < j < out@.len() ==> gallery_le(#[trigger] out@[i], #[trigger] out@[j]),
{
    broadcast use vstd::seq_lib::to_multiset_insert;

    let mut out: Vec<SavedCharacterSummary> = Vec::new();
    let mut rest = summaries;
    let ghost all = rest@;
    let n = rest.len();
    let mut taken: usize = 0;
    proof {
        assert(all.take(0) =~= Seq::<SavedCharacterSummary>::empty());
    }
    while rest.len() > 0
        invariant
            taken <= all.len(),
            all.len() == n,
            rest@ == all.skip(taken as int),
            rest@.len() == all.len() - taken,
            out@.to_multiset() == all.take(taken as int).to_multiset(),
            forall|i: int, j: int| 0 <= i < j < out@.len() ==> gallery_le(#[trigger] out@[i], #[trigger] out@[j]),
        decreases rest.len(),
    {
        let x = rest.remove(0);
        proof {
            assert(all.take(taken + 1) =~= all.take(taken as int).push(x));
            vstd::seq_lib::to_multiset_build(all.take(taken as int), x);
        }
        let mut pos: usize = 0;
        while pos < out.len()
            invariant
                pos <= out.len(),
                forall|k: int| 0 <= k < pos ==> gallery_le(#[trigger] out@[k], x),
            ensures
                pos <= out.len(),
                forall|k: int| 0 <= k < pos ==> gallery_le(#[trigger] out@[k], x),
                pos < out.len() ==> !gallery_le(out@[pos as int], x),
            decreases out.len() - pos,
        {
            let o = &out[pos];
            let le = text_less(x.updated_at.as_str(), o.updated_at.as_str()) || (str_eq(
                o.updated_at.as_str(),
                x.updated_at.as_str(),
            ) && !text_less(x.name.as_str(), o.name.as_str()));
            if !le {
                break;
            }
            pos = pos + 1;
        }
        let ghost old_out = out@;
        out.insert(pos, x);
        proof {
            assert(out@ == old_out.insert(pos as int, x));
            vstd::seq_lib::to_multiset_insert(old_out, pos as int, x);
            assert(rest@ =~= all.skip(taken + 1));
            assert forall|i: int, j: int| 0 <= i < j < out@.len() implies gallery_le(
                #[trigger] out@[i],
                #[trigger] out@[j],
            ) by {
                if j < pos {
                    assert(gallery_le(old_out[i], old_out[j]));
                } else if j == pos {
                } else if i < pos {
                    assert(gallery_le(old_out[i], old_out[j - 1]));
                } else if i == pos {
                    lemma_gallery_total(old_out[pos as int], x);
                    if j - 1 > pos {
                        assert(gallery_le(old_out[pos as int], old_out[j - 1]));
                        lemma_gallery_transitive(x, old_out[pos as int], old_out[j - 1]);
                    }
                } else {
                    assert(gallery_le(old_out[i - 1], old_out[j - 1]));
                }
            }
        }
        taken = taken + 1;
    }
    assert(all.take(all.len() as int) =~= all);
    out
}

} // verus!
