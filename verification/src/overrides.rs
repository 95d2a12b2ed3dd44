//! Per-object edits the user made in the editor on top of what the scene
//! says: visibility, lock, and the three parts of the local transform.
//! Float components are held as their IEEE-754 bit patterns.

use vstd::prelude::*;

use crate::text::str_eq;

verus! {

/// Bit patterns of an object's local transform: translation, rotation
/// quaternion `[x, y, z, w]`, and scale.
#[derive(Debug, Clone, Copy, PartialEq, Eq)]
pub struct ObjectTransform {
    pub translation: [u32; 3],
    pub rotation: [u32; 4],
    pub scale: [u32; 3],
}

/// What the user overrode on one object; `None` keeps the scene's value.
#[derive(Debug, Clone, Copy, PartialEq, Eq)]
pub struct ObjectRuntimeOverrides {
    pub visible: Option<bool>,
    pub locked: Option<bool>,
    pub translation: Option<[u32; 3]>,
    pub rotation: Option<[u32; 4]>,
    pub scale: Option<[u32; 3]>,
}

/// Overrides nothing.
pub open spec fn no_overrides() -> ObjectRuntimeOverrides {
    ObjectRuntimeOverrides { visible: None, locked: None, translation: None, rotation: None, scale: None }
}

/// Every field is `None`.
pub open spec fn overrides_nothing(o: ObjectRuntimeOverrides) -> bool {
    o.visible is None && o.locked is None && o.translation is None && o.rotation is None && o.scale is None
}

/// `base` with each overridden part replaced.
pub open spec fn applied_transform(o: ObjectRuntimeOverrides, base: ObjectTransform) -> ObjectTransform {
    ObjectTransform {
        translation: match o.translation {
            Some(t) => t,
            None => base.translation,
        },
        rotation: match o.rotation {
            Some(r) => r,
            None => base.rotation,
        },
        scale: match o.scale {
            Some(s) => s,
            None => base.scale,
        },
    }
}

impl Default for ObjectRuntimeOverrides {
    fn default() -> (o: ObjectRuntimeOverrides)
        ensures
            o == no_overrides(),
    {
        ObjectRuntimeOverrides { visible: None, locked: None, translation: None, rotation: None, scale: None }
    }
}

impl ObjectRuntimeOverrides {
    pub fn is_empty(&self) -> (b: bool)
        ensures
            b == overrides_nothing(*self),
    {
        self.visible.is_none() && self.locked.is_none() && self.translation.is_none() && self.rotation.is_none()
            && self.scale.is_none()
    }

    pub fn apply_to_transform(&self, base: ObjectTransform) -> (t: ObjectTransform)
        ensures
            t == applied_transform(*self, base),
    {
        let mut out = base;
        if let Some(translation) = self.translation {
            out.translation = translation;
        }
        if let Some(rotation) = self.rotation {
            out.rotation = rotation;
        }
        if let Some(scale) = self.scale {
            out.scale = scale;
        }
        out
    }
}

/// The overrides stored for `id`, or none at all.
pub open spec fn overrides_for(m: Map<Seq<char>, ObjectRuntimeOverrides>, id: Seq<char>) -> ObjectRuntimeOverrides {
    if m.contains_key(id) {
        m[id]
    } else {
        no_overrides()
    }
}

/// Visibility of `id`: its override, else `default_visible`.
pub open spec fn effective_visibility_in(m: Map<Seq<char>, ObjectRuntimeOverrides>, id: Seq<char>, default_visible: bool) -> bool {
    match overrides_for(m, id).visible {
        Some(v) => v,
        None => default_visible,
    }
}

/// Lock state of `id`: its override, else `default_locked`.
pub open spec fn effective_locked_in(m: Map<Seq<char>, ObjectRuntimeOverrides>, id: Seq<char>, default_locked: bool) -> bool {
    match overrides_for(m, id).locked {
        Some(v) => v,
        None => default_locked,
    }
}

/// Transform of `id`: `base` with its overridden parts replaced.
pub open spec fn effective_transform_in(m: Map<Seq<char>, ObjectRuntimeOverrides>, id: Seq<char>, base: ObjectTransform) -> ObjectTransform {
    applied_transform(overrides_for(m, id), base)
}

/// `m` with `o` stored for `id`, or `id` dropped when `o` overrides nothing.
pub open spec fn stored(m: Map<Seq<char>, ObjectRuntimeOverrides>, id: Seq<char>, o: ObjectRuntimeOverrides) -> Map<Seq<char>, ObjectRuntimeOverrides> {
    if overrides_nothing(o) {
        m.remove(id)
    } else {
        m.insert(id, o)
    }
}

pub open spec fn with_translation(m: Map<Seq<char>, ObjectRuntimeOverrides>, id: Seq<char>, t: [u32; 3]) -> Map<Seq<char>, ObjectRuntimeOverrides> {
    stored(m, id, ObjectRuntimeOverrides { translation: Some(t), ..overrides_for(m, id) })
}

pub open spec fn with_rotation(m: Map<Seq<char>, ObjectRuntimeOverrides>, id: Seq<char>, r: [u32; 4]) -> Map<Seq<char>, ObjectRuntimeOverrides> {
    stored(m, id, ObjectRuntimeOverrides { rotation: Some(r), ..overrides_for(m, id) })
}

pub open spec fn with_scale(m: Map<Seq<char>, ObjectRuntimeOverrides>, id: Seq<char>, s: [u32; 3]) -> Map<Seq<char>, ObjectRuntimeOverrides> {
    stored(m, id, ObjectRuntimeOverrides { scale: Some(s), ..overrides_for(m, id) })
}

pub open spec fn with_visible(m: Map<Seq<char>, ObjectRuntimeOverrides>, id: Seq<char>, v: bool) -> Map<Seq<char>, ObjectRuntimeOverrides> {
    stored(m, id, ObjectRuntimeOverrides { visible: Some(v), ..overrides_for(m, id) })
}

pub open spec fn with_locked(m: Map<Seq<char>, ObjectRuntimeOverrides>, id: Seq<char>, v: bool) -> Map<Seq<char>, ObjectRuntimeOverrides> {
    stored(m, id, ObjectRuntimeOverrides { locked: Some(v), ..overrides_for(m, id) })
}

/// `m` with the transform overrides of `id` dropped; visibility and lock
/// stay, and an entry left with nothing is removed.
pub open spec fn without_transform(m: Map<Seq<char>, ObjectRuntimeOverrides>, id: Seq<char>) -> Map<Seq<char>, ObjectRuntimeOverrides> {
    if m.contains_key(id) {
        stored(m, id, ObjectRuntimeOverrides { translation: None, rotation: None, scale: None, ..m[id] })
    } else {
        m
    }
}

/// The editor's overrides, keyed by scene-object id. An id is stored at
/// most once, and only while it overrides something.
pub struct ObjectOverrides {
    entries: Vec<(String, ObjectRuntimeOverrides)>,
    contents: Ghost<Map<Seq<char>, ObjectRuntimeOverrides>>,
}

impl View for ObjectOverrides {
    type V = Map<Seq<char>, ObjectRuntimeOverrides>;

    closed spec fn view(&self) -> Map<Seq<char>, ObjectRuntimeOverrides> {
        self.contents@
    }
}

impl ObjectOverrides {
    /// Ids are distinct, entries and map agree, and no stored entry
    /// overrides nothing.
    pub closed spec fn wf(&self) -> bool {
        let e = self.entries@;
        let m = self.contents@;
        &&& forall|i: int, j: int| 0 <= i < j < e.len() ==> (#[trigger] e[i]).0@ != (#[trigger] e[j]).0@
        &&& forall|i: int| 0 <= i < e.len() ==> m.contains_key((#[trigger] e[i]).0@) && m[e[i].0@] == e[i].1
        &&& forall|k: Seq<char>| #[trigger] m.contains_key(k) ==> exists|i: int| 0 <= i < e.len() && (#[trigger] e[i]).0@ == k
        &&& forall|k: Seq<char>| #[trigger] m.contains_key(k) ==> !overrides_nothing(m[k])
    }

    pub fn new() -> (s: ObjectOverrides)
        ensures
            s.wf(),
            s@ == Map::<Seq<char>, ObjectRuntimeOverrides>::empty(),
    {
        ObjectOverrides { entries: Vec::new(), contents: Ghost(Map::empty()) }
    }

    /// Position of `id` in the entries, if stored.
    fn position(&self, id: &str) -> (r: Option<usize>)
        requires
            self.wf(),
        ensures
            match r {
                Some(i) => i < self.entries@.len() && self.entries@[i as int].0@ == id@,
                None => !self@.contains_key(id@),
            },
    {
        let mut i: usize = 0;
        while i < self.entries.len()
            invariant
                self.wf(),
                i <= self.entries@.len(),
                forall|j: int| 0 <= j < i ==> (#[trigger] self.entries@[j]).0@ != id@,
            decreases self.entries.len() - i,
        {
            if str_eq(self.entries[i].0.as_str(), id) {
                return Some(i);
            }
            i = i + 1;
        }
        None
    }

    /// The overrides stored for `id`.
    pub fn get(&self, id: &str) -> (r: Option<ObjectRuntimeOverrides>)
        requires
            self.wf(),
        ensures
            self@.contains_key(id@) ==> r == Some(self@[id@]),
            !self@.contains_key(id@) ==> r is None,
    {
        match self.position(id) {
            Some(i) => Some(self.entries[i].1),
            None => None,
        }
    }

    /// Number of objects with overrides.
    pub fn len(&self) -> (n: usize)
        requires
            self.wf(),
        ensures
            n == self@.len(),
    {
        proof {
            self.lemma_len();
        }
        self.entries.len()
    }

    /// The overrides of `id`, or an empty set of them.
    fn current(&self, id: &str) -> (o: ObjectRuntimeOverrides)
        requires
            self.wf(),
        ensures
            o == overrides_for(self@, id@),
    {
        match self.get(id) {
            Some(o) => o,
            None => ObjectRuntimeOverrides::default(),
        }
    }

    /// Store `o` for `id`, dropping the entry when `o` overrides nothing.
    fn store(&mut self, id: &str, o: ObjectRuntimeOverrides)
        requires
            old(self).wf(),
        ensures
            final(self).wf(),
            final(self)@ == stored(old(self)@, id@, o),
    {
        let ghost m0 = self.contents@;
        let empty = o.is_empty();
        match self.position(id) {
            Some(i) => {
                if empty {
                    let ghost e0 = self.entries@;
                    self.entries.remove(i);
                    proof {
                        let e = self.entries@;
                        let m = m0.remove(id@);
                        self.contents = Ghost(m);
                        assert forall|a: int| 0 <= a < e.len() implies e[a] == (if a < i { e0[a] } else { e0[a + 1] }) by {}
                        assert forall|a: int, b: int| 0 <= a < b < e.len() implies (#[trigger] e[a]).0@ != (#[trigger] e[b]).0@ by {
                            let a0 = if a < i { a } else { a + 1 };
                            let b0 = if b < i { b } else { b + 1 };
                            assert(e[a] == e0[a0] && e[b] == e0[b0]);
                            assert(e0[a0].0@ != e0[b0].0@);
                        }
                        assert forall|a: int| 0 <= a < e.len() implies m.contains_key((#[trigger] e[a]).0@) && m[e[a].0@] == e[a].1 by {
                            let a0 = if a < i { a } else { a + 1 };
                            assert(e[a] == e0[a0]);
                            if a0 < i {
                                assert(e0[a0].0@ != e0[i as int].0@);
                            } else {
                                assert(e0[i as int].0@ != e0[a0].0@);
                            }
                        }
                        assert forall|k: Seq<char>| #[trigger] m.contains_key(k) implies exists|a: int| 0 <= a < e.len() && (#[trigger] e[a]).0@ == k by {
                            assert(m0.contains_key(k));
                            let a0 = choose|a: int| 0 <= a < e0.len() && (#[trigger] e0[a]).0@ == k;
                            assert(a0 != i);
                            let a = if a0 < i { a0 } else { a0 - 1 };
                            assert(e[a] == e0[a0]);
                        }
                        assert(forall|k: Seq<char>| #[trigger] m.contains_key(k) ==> !overrides_nothing(m[k]));
                        assert(self.entries@ == e);
                        assert(self.contents@ == m);
                        assert(self.wf());
                    }
                } else {
                    let ghost e0 = self.entries@;
                    let key = self.entries[i].0.clone();
                    self.entries.set(i, (key, o));
                    proof {
                        let e = self.entries@;
                        let m = m0.insert(id@, o);
                        self.contents = Ghost(m);
                        assert forall|a: int, b: int| 0 <= a < b < e.len() implies (#[trigger] e[a]).0@ != (#[trigger] e[b]).0@ by {
                            assert(e0[a].0@ != e0[b].0@);
                        }
                        assert forall|a: int| 0 <= a < e.len() implies m.contains_key((#[trigger] e[a]).0@) && m[e[a].0@] == e[a].1 by {
                            if a != i {
                                if a < i {
                                    assert(e0[a].0@ != e0[i as int].0@);
                                } else {
                                    assert(e0[i as int].0@ != e0[a].0@);
                                }
                            }
                        }
                        assert forall|k: Seq<char>| #[trigger] m.contains_key(k) implies exists|a: int| 0 <= a < e.len() && (#[trigger] e[a]).0@ == k by {
                            if k == id@ {
                                assert(e[i as int].0@ == k);
                            } else {
                                let a0 = choose|a: int| 0 <= a < e0.len() && (#[trigger] e0[a]).0@ == k;
                                assert(e[a0].0@ == k);
                            }
                        }
                        assert(forall|k: Seq<char>| #[trigger] m.contains_key(k) ==> !overrides_nothing(m[k]));
                        assert(self.entries@ == e);
                        assert(self.contents@ == m);
                        assert(self.wf());
                    }
                }
            },
            None => {
                if !empty {
                    let ghost e0 = self.entries@;
                    self.entries.push((id.to_string(), o));
                    proof {
                        let e = self.entries@;
                        let m = m0.insert(id@, o);
                        self.contents = Ghost(m);
                        let n = e0.len() as int;
                        assert(e[n].0@ == id@);
                        assert forall|a: int, b: int| 0 <= a < b < e.len() implies (#[trigger] e[a]).0@ != (#[trigger] e[b]).0@ by {
                            if b == n {
                                assert(m0.contains_key(e0[a].0@));
                            } else {
                                assert(e0[a].0@ != e0[b].0@);
                            }
                        }
                        assert forall|a: int| 0 <= a < e.len() implies m.contains_key((#[trigger] e[a]).0@) && m[e[a].0@] == e[a].1 by {
                            if a < n {
                                assert(m0.contains_key(e0[a].0@));
                            }
                        }
                        assert forall|k: Seq<char>| #[trigger] m.contains_key(k) implies exists|a: int| 0 <= a < e.len() && (#[trigger] e[a]).0@ == k by {
                            if k == id@ {
                                assert(e[n].0@ == k);
                            } else {
                                let a0 = choose|a: int| 0 <= a < e0.len() && (#[trigger] e0[a]).0@ == k;
                                assert(e[a0].0@ == k);
                            }
                        }
                        assert(forall|k: Seq<char>| #[trigger] m.contains_key(k) ==> !overrides_nothing(m[k]));
                        assert(self.entries@ == e);
                        assert(self.contents@ == m);
                        assert(self.wf());
                    }
                } else {
                    proof {
                        assert(m0.remove(id@) =~= m0);
                    }
                }
            },
        }
    }

    /// Visibility of `id`: its override, else `default_visible`.
    pub fn effective_visibility(&self, id: &str, default_visible: bool) -> (b: bool)
        requires
            self.wf(),
        ensures
            b == effective_visibility_in(self@, id@, default_visible),
    {
        match self.current(id).visible {
            Some(v) => v,
            None => default_visible,
        }
    }

    /// Lock state of `id`: its override, else `default_locked`.
    pub fn effective_locked(&self, id: &str, default_locked: bool) -> (b: bool)
        requires
            self.wf(),
        ensures
            b == effective_locked_in(self@, id@, default_locked),
    {
        match self.current(id).locked {
            Some(v) => v,
            None => default_locked,
        }
    }

    /// Transform of `id`: `base` with its overridden parts replaced.
    pub fn effective_transform(&self, id: &str, base: ObjectTransform) -> (t: ObjectTransform)
        requires
            self.wf(),
        ensures
            t == effective_transform_in(self@, id@, base),
    {
        self.current(id).apply_to_transform(base)
    }

    pub fn set_translation(&mut self, id: &str, translation: [u32; 3])
        requires
            old(self).wf(),
        ensures
            final(self).wf(),
            final(self)@ == with_translation(old(self)@, id@, translation),
    {
        let mut o = self.current(id);
        o.translation = Some(translation);
        self.store(id, o);
    }

    pub fn set_rotation(&mut self, id: &str, rotation: [u32; 4])
        requires
            old(self).wf(),
        ensures
            final(self).wf(),
            final(self)@ == with_rotation(old(self)@, id@, rotation),
    {
        let mut o = self.current(id);
        o.rotation = Some(rotation);
        self.store(id, o);
    }

    pub fn set_scale(&mut self, id: &str, scale: [u32; 3])
        requires
            old(self).wf(),
        ensures
            final(self).wf(),
            final(self)@ == with_scale(old(self)@, id@, scale),
    {
        let mut o = self.current(id);
        o.scale = Some(scale);
        self.store(id, o);
    }

    pub fn set_visible(&mut self, id: &str, visible: bool)
        requires
            old(self).wf(),
        ensures
            final(self).wf(),
            final(self)@ == with_visible(old(self)@, id@, visible),
    {
        let mut o = self.current(id);
        o.visible = Some(visible);
        self.store(id, o);
    }

    pub fn set_locked(&mut self, id: &str, locked: bool)
        requires
            old(self).wf(),
        ensures
            final(self).wf(),
            final(self)@ == with_locked(old(self)@, id@, locked),
    {
        let mut o = self.current(id);
        o.locked = Some(locked);
        self.store(id, o);
    }

    /// Drop the translation, rotation and scale overrides of `id`; its
    /// visibility and lock overrides stay.
    pub fn clear_transform(&mut self, id: &str)
        requires
            old(self).wf(),
        ensures
            final(self).wf(),
            final(self)@ == without_transform(old(self)@, id@),
    {
        if let Some(mut o) = self.get(id) {
            o.translation = None;
            o.rotation = None;
            o.scale = None;
            self.store(id, o);
        }
    }

    /// The stored `(id, overrides)` pairs, each id once.
    pub fn entries(&self) -> (v: Vec<(String, ObjectRuntimeOverrides)>)
        requires
            self.wf(),
        ensures
            v@.len() == self@.len(),
            forall|i: int| 0 <= i < v@.len() ==> self@.contains_key((#[trigger] v@[i]).0@) && self@[v@[i].0@] == v@[i].1,
            forall|i: int, j: int| 0 <= i < j < v@.len() ==> (#[trigger] v@[i]).0@ != (#[trigger] v@[j]).0@,
    {
        proof {
            self.lemma_len();
        }
        let mut out: Vec<(String, ObjectRuntimeOverrides)> = Vec::new();
        let mut i: usize = 0;
        while i < self.entries.len()
            invariant
                self.wf(),
                i <= self.entries@.len(),
                out@.len() == i,
                forall|a: int| 0 <= a < i ==> (#[trigger] out@[a]).0@ == self.entries@[a].0@ && out@[a].1 == self.entries@[a].1,
            decreases self.entries.len() - i,
        {
            let (k, o) = &self.entries[i];
            out.push((k.clone(), *o));
            i = i + 1;
        }
        proof {
            assert forall|a: int, b: int| 0 <= a < b < out@.len() implies (#[trigger] out@[a]).0@ != (#[trigger] out@[b]).0@ by {
                assert(self.entries@[a].0@ != self.entries@[b].0@);
            }
            assert forall|a: int| 0 <= a < out@.len() implies self@.contains_key((#[trigger] out@[a]).0@) && self@[out@[a].0@] == out@[a].1 by {
                assert(self.contents@.contains_key(self.entries@[a].0@));
            }
        }
        out
    }

    proof fn lemma_len(&self)
        requires
            self.wf(),
        ensures
            self@.len() == self.entries@.len(),
            self@.dom().finite(),
    {
        let e = self.entries@;
        let keys = Seq::new(e.len(), |i: int| e[i].0@);
        assert(keys.no_duplicates()) by {
            assert forall|i: int, j: int| 0 <= i < keys.len() && 0 <= j < keys.len() && i != j implies keys[i]
                != keys[j] by {
                if i < j {
                    assert(e[i].0@ != e[j].0@);
                } else {
                    assert(e[j].0@ != e[i].0@);
                }
            }
        }
        assert(keys.to_set() =~= self@.dom()) by {
            assert forall|k: Seq<char>| keys.to_set().contains(k) implies self@.dom().contains(k) by {
                let i = choose|i: int| 0 <= i < keys.len() && keys[i] == k;
                assert(self@.contains_key(e[i].0@));
            }
            assert forall|k: Seq<char>| self@.dom().contains(k) implies keys.to_set().contains(k) by {
                assert(self@.contains_key(k));
                let i = choose|i: int| 0 <= i < e.len() && (#[trigger] e[i]).0@ == k;
                assert(keys[i] == k);
            }
        }
        keys.unique_seq_to_set();
    }
}

/// An override, once set, is what the editor shows for that object,
/// whatever the scene's own value.
pub proof fn law_override_read_back(
    m: Map<Seq<char>, ObjectRuntimeOverrides>,
    id: Seq<char>,
    v: bool,
    t: [u32; 3],
    r: [u32; 4],
    s: [u32; 3],
    default_flag: bool,
    base: ObjectTransform,
)
    ensures
        effective_visibility_in(with_visible(m, id, v), id, default_flag) == v,
        effective_locked_in(with_locked(m, id, v), id, default_flag) == v,
        effective_transform_in(with_translation(m, id, t), id, base).translation == t,
        effective_transform_in(with_rotation(m, id, r), id, base).rotation == r,
        effective_transform_in(with_scale(m, id, s), id, base).scale == s,
{
}

/// Setting one part of one object's overrides changes nothing else: not
/// the other parts of that object, and nothing of any other object.
pub proof fn law_override_touches_one_part(
    m: Map<Seq<char>, ObjectRuntimeOverrides>,
    id: Seq<char>,
    other: Seq<char>,
    v: bool,
    t: [u32; 3],
    default_flag: bool,
    base: ObjectTransform,
)
    requires
        other != id,
    ensures
        effective_transform_in(with_visible(m, id, v), id, base) == effective_transform_in(m, id, base),
        effective_locked_in(with_visible(m, id, v), id, default_flag) == effective_locked_in(m, id, default_flag),
        effective_visibility_in(with_translation(m, id, t), id, default_flag) == effective_visibility_in(m, id, default_flag),
        effective_transform_in(with_translation(m, id, t), id, base).rotation == effective_transform_in(m, id, base).rotation,
        effective_transform_in(with_translation(m, id, t), id, base).scale == effective_transform_in(m, id, base).scale,
        overrides_for(with_visible(m, id, v), other) == overrides_for(m, other),
        overrides_for(with_locked(m, id, v), other) == overrides_for(m, other),
        overrides_for(with_translation(m, id, t), other) == overrides_for(m, other),
        overrides_for(without_transform(m, id), other) == overrides_for(m, other),
{
}

/// Resetting an object's transform shows the scene's transform again and
/// keeps its visibility and lock overrides.
pub proof fn law_clear_transform_restores_base(
    m: Map<Seq<char>, ObjectRuntimeOverrides>,
    id: Seq<char>,
    default_flag: bool,
    base: ObjectTransform,
)
    ensures
        effective_transform_in(without_transform(m, id), id, base) == base,
        effective_visibility_in(without_transform(m, id), id, default_flag) == effective_visibility_in(m, id, default_flag),
        effective_locked_in(without_transform(m, id), id, default_flag) == effective_locked_in(m, id, default_flag),
{
}

} // verus!
