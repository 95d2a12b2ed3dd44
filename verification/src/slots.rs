//! Avatar slot model: the body plus the eight wearable slots, and a small
//! map keyed by slot.
//!
//! The `accessory` slot is a catch-all for the long tail of accessories
//! (earrings, necklace, watch, backpack, handheld).

use vstd::prelude::*;

use crate::metadata::AssetCategory;

verus! {

broadcast use vstd::array::group_array_axioms;

/// One place on the avatar that can hold an asset.
#[derive(Debug, Clone, Copy, PartialEq, Eq, Hash, Structural)]
pub enum Slot {
    Body,
    Head,
    Hair,
    Top,
    Bottom,
    Shoes,
    Hat,
    Glasses,
    Accessory,
}

/// Number of slots.
pub const SLOT_COUNT: usize = 9;

/// Position of a slot in [`Slot::ALL`].
pub open spec fn slot_index(s: Slot) -> int {
    match s {
        Slot::Body => 0,
        Slot::Head => 1,
        Slot::Hair => 2,
        Slot::Top => 3,
        Slot::Bottom => 4,
        Slot::Shoes => 5,
        Slot::Hat => 6,
        Slot::Glasses => 7,
        Slot::Accessory => 8,
    }
}

/// The slot at position `i` of [`Slot::ALL`] (`Accessory` past the end).
pub open spec fn slot_at(i: int) -> Slot {
    if i == 0 {
        Slot::Body
    } else if i == 1 {
        Slot::Head
    } else if i == 2 {
        Slot::Hair
    } else if i == 3 {
        Slot::Top
    } else if i == 4 {
        Slot::Bottom
    } else if i == 5 {
        Slot::Shoes
    } else if i == 6 {
        Slot::Hat
    } else if i == 7 {
        Slot::Glasses
    } else {
        Slot::Accessory
    }
}

/// The user-facing label of a slot.
pub open spec fn slot_label(s: Slot) -> Seq<char> {
    match s {
        Slot::Body => "Body"@,
        Slot::Head => "Head"@,
        Slot::Hair => "Hair"@,
        Slot::Top => "Top"@,
        Slot::Bottom => "Bottom"@,
        Slot::Shoes => "Shoes"@,
        Slot::Hat => "Hat"@,
        Slot::Glasses => "Glasses"@,
        Slot::Accessory => "Accessory"@,
    }
}

/// The slot an asset category populates; `None` for categories that are
/// not equippable.
pub open spec fn slot_for_category(cat: AssetCategory) -> Option<Slot> {
    match cat {
        AssetCategory::Body => Some(Slot::Body),
        AssetCategory::Head => Some(Slot::Head),
        AssetCategory::Hair => Some(Slot::Hair),
        AssetCategory::Top => Some(Slot::Top),
        AssetCategory::Bottom => Some(Slot::Bottom),
        AssetCategory::Shoes => Some(Slot::Shoes),
        AssetCategory::Hat => Some(Slot::Hat),
        AssetCategory::Glasses => Some(Slot::Glasses),
        AssetCategory::Accessory => Some(Slot::Accessory),
        _ => None,
    }
}

pub proof fn lemma_slot_index_round_trip(s: Slot)
    ensures
        0 <= slot_index(s) < 9,
        slot_at(slot_index(s)) == s,
{
}

impl Slot {
    /// Every slot, body first so that walking the list renders the body
    /// before any wearable.
    pub const ALL: [Slot; 9] = [
        Slot::Body,
        Slot::Head,
        Slot::Hair,
        Slot::Top,
        Slot::Bottom,
        Slot::Shoes,
        Slot::Hat,
        Slot::Glasses,
        Slot::Accessory,
    ];

    /// Position of this slot in [`Slot::ALL`].
    pub fn index(self) -> (i: usize)
        ensures
            i as int == slot_index(self),
    {
        match self {
            Slot::Body => 0,
            Slot::Head => 1,
            Slot::Hair => 2,
            Slot::Top => 3,
            Slot::Bottom => 4,
            Slot::Shoes => 5,
            Slot::Hat => 6,
            Slot::Glasses => 7,
            Slot::Accessory => 8,
        }
    }

    /// The slot at position `i` of [`Slot::ALL`].
    pub fn from_index(i: usize) -> (s: Slot)
        requires
            i < 9,
        ensures
            s == slot_at(i as int),
            slot_index(s) == i,
    {
        if i == 0 {
            Slot::Body
        } else if i == 1 {
            Slot::Head
        } else if i == 2 {
            Slot::Hair
        } else if i == 3 {
            Slot::Top
        } else if i == 4 {
            Slot::Bottom
        } else if i == 5 {
            Slot::Shoes
        } else if i == 6 {
            Slot::Hat
        } else if i == 7 {
            Slot::Glasses
        } else {
            Slot::Accessory
        }
    }

    pub fn label(self) -> (s: &'static str)
        ensures
            s@ == slot_label(self),
    {
        match self {
            Slot::Body => "Body",
            Slot::Head => "Head",
            Slot::Hair => "Hair",
            Slot::Top => "Top",
            Slot::Bottom => "Bottom",
            Slot::Shoes => "Shoes",
            Slot::Hat => "Hat",
            Slot::Glasses => "Glasses",
            Slot::Accessory => "Accessory",
        }
    }

    /// Map an asset category to the slot it should populate. Returns `None`
    /// for categories that aren't equippable (`animation`, `pose`,
    /// `background`, `material`).
    pub fn from_asset_category(cat: AssetCategory) -> (s: Option<Slot>)
        ensures
            s == slot_for_category(cat),
    {
        match cat {
            AssetCategory::Body => Some(Slot::Body),
            AssetCategory::Head => Some(Slot::Head),
            AssetCategory::Hair => Some(Slot::Hair),
            AssetCategory::Top => Some(Slot::Top),
            AssetCategory::Bottom => Some(Slot::Bottom),
            AssetCategory::Shoes => Some(Slot::Shoes),
            AssetCategory::Hat => Some(Slot::Hat),
            AssetCategory::Glasses => Some(Slot::Glasses),
            AssetCategory::Accessory => Some(Slot::Accessory),
            AssetCategory::Animation | AssetCategory::Pose | AssetCategory::Background
            | AssetCategory::Material => None,
        }
    }
}

/// A map from slots to values, laid out in [`Slot::ALL`] order.
#[derive(Debug, Clone, PartialEq)]
pub struct SlotMap<V> {
    entries: [Option<V>; 9],
}

/// The occupied slots of `m` among the first `n` positions of
/// [`Slot::ALL`], in that order, with their values.
pub open spec fn slot_order_prefix<V>(m: Map<Slot, V>, n: int) -> Seq<(Slot, V)>
    decreases n,
{
    if n <= 0 {
        Seq::empty()
    } else {
        let rest = slot_order_prefix(m, n - 1);
        if m.contains_key(slot_at(n - 1)) {
            rest.push((slot_at(n - 1), m[slot_at(n - 1)]))
        } else {
            rest
        }
    }
}

/// The occupied slots of `m` in [`Slot::ALL`] order, with their values.
pub open spec fn slot_order<V>(m: Map<Slot, V>) -> Seq<(Slot, V)> {
    slot_order_prefix(m, 9)
}

impl<V> View for SlotMap<V> {
    type V = Map<Slot, V>;

    closed spec fn view(&self) -> Map<Slot, V> {
        Map::new(
            |s: Slot| self.entries@[slot_index(s)] is Some,
            |s: Slot| self.entries@[slot_index(s)]->0,
        )
    }
}

impl<V> SlotMap<V> {
    /// An empty map.
    pub fn new() -> (m: SlotMap<V>)
        ensures
            m@ == Map::<Slot, V>::empty(),
    {
        let entries: [Option<V>; 9] = [None, None, None, None, None, None, None, None, None];
        let m = SlotMap { entries };
        assert(m@ =~= Map::<Slot, V>::empty());
        m
    }

    /// The value held for `slot`, if any.
    pub fn get(&self, slot: Slot) -> (r: Option<&V>)
        ensures
            r == (if self@.contains_key(slot) { Some(&self@[slot]) } else { None }),
    {
        match &self.entries[slot.index()] {
            Some(v) => Some(v),
            None => None,
        }
    }

    pub fn contains_key(&self, slot: Slot) -> (b: bool)
        ensures
            b == self@.contains_key(slot),
    {
        self.entries[slot.index()].is_some()
    }

    /// Put `value` into `slot`, replacing what was there.
    pub fn insert(&mut self, slot: Slot, value: V)
        ensures
            final(self)@ == old(self)@.insert(slot, value),
    {
        let i = slot.index();
        self.entries[i] = Some(value);
        assert(self@ =~= old(self)@.insert(slot, value));
    }

    /// Empty `slot`. No-op if it is already empty.
    pub fn remove(&mut self, slot: Slot)
        ensures
            final(self)@ == old(self)@.remove(slot),
    {
        let i = slot.index();
        self.entries[i] = None;
        assert(self@ =~= old(self)@.remove(slot));
    }

    /// Empty every slot.
    pub fn clear(&mut self)
        ensures
            final(self)@ == Map::<Slot, V>::empty(),
    {
        let mut i: usize = 0;
        while i < 9
            invariant
                i <= 9,
                forall|j: int| 0 <= j < i ==> self.entries@[j] is None,
            decreases 9 - i,
        {
            self.entries[i] = None;
            i = i + 1;
        }
        assert(self@ =~= Map::<Slot, V>::empty());
    }

    /// Number of occupied slots.
    pub fn len(&self) -> (n: usize)
        ensures
            n == slot_order(self@).len(),
    {
        let mut n: usize = 0;
        let mut i: usize = 0;
        while i < 9
            invariant
                i <= 9,
                n <= i,
                n == slot_order_prefix(self@, i as int).len(),
            decreases 9 - i,
        {
            proof {
                lemma_slot_index_round_trip(slot_at(i as int));
            }
            if self.entries[i].is_some() {
                n = n + 1;
            }
            i = i + 1;
        }
        n
    }

    pub fn is_empty(&self) -> (b: bool)
        ensures
            b == (self@.dom() == Set::<Slot>::empty()),
    {
        let mut i: usize = 0;
        while i < 9
            invariant
                i <= 9,
                forall|j: int| 0 <= j < i ==> self.entries@[j] is None,
            decreases 9 - i,
        {
            if self.entries[i].is_some() {
                assert(self@.dom().contains(slot_at(i as int)));
                return false;
            }
            i = i + 1;
        }
        assert(self@.dom() =~= Set::<Slot>::empty());
        true
    }

    /// The occupied slots in [`Slot::ALL`] order, with their values.
    pub fn entries(&self) -> (v: Vec<(Slot, &V)>)
        ensures
            v@.len() == slot_order(self@).len(),
            forall|i: int|
                0 <= i < v@.len() ==> (#[trigger] v@[i]).0 == slot_order(self@)[i].0 && *v@[i].1 == slot_order(
                    self@,
                )[i].1,
    {
        let mut out: Vec<(Slot, &V)> = Vec::new();
        let mut i: usize = 0;
        while i < 9
            invariant
                i <= 9,
                out@.len() == slot_order_prefix(self@, i as int).len(),
                forall|k: int|
                    0 <= k < out@.len() ==> (#[trigger] out@[k]).0 == slot_order_prefix(self@, i as int)[k].0
                        && *out@[k].1 == slot_order_prefix(self@, i as int)[k].1,
            decreases 9 - i,
        {
            proof {
                lemma_slot_index_round_trip(slot_at(i as int));
            }
            let slot = Slot::from_index(i);
            match &self.entries[i] {
                Some(v) => {
                    out.push((slot, v));
                },
                None => {},
            }
            i = i + 1;
        }
        out
    }
}

impl<V: Clone> SlotMap<V> {
    /// A map with a clone of every value, in the same slots.
    pub fn clone_entries(&self) -> (m: SlotMap<V>)
        ensures
            m@.dom() == self@.dom(),
            forall|s: Slot| #[trigger] m@.contains_key(s) ==> cloned::<V>(self@[s], m@[s]),
    {
        let mut m: SlotMap<V> = SlotMap::new();
        let mut i: usize = 0;
        while i < 9
            invariant
                i <= 9,
                forall|s: Slot| #[trigger] m@.contains_key(s) ==> self@.contains_key(s) && slot_index(s) < i,
                forall|s: Slot|
                    self@.contains_key(s) && slot_index(s) < i ==> #[trigger] m@.contains_key(s) && cloned::<V>(
                        self@[s],
                        m@[s],
                    ),
            decreases 9 - i,
        {
            proof {
                lemma_slot_index_round_trip(slot_at(i as int));
            }
            let slot = Slot::from_index(i);
            let ghost m0 = m@;
            match &self.entries[i] {
                Some(v) => {
                    m.insert(slot, v.clone());
                },
                None => {},
            }
            assert(self@.contains_key(slot) ==> m@.contains_key(slot));
            assert(self@.contains_key(slot) ==> cloned::<V>(self@[slot], m@[slot]));
            proof {
                assert forall|s: Slot| self@.contains_key(s) && slot_index(s) < i + 1 implies #[trigger] m@.contains_key(
                    s,
                ) && cloned::<V>(self@[s], m@[s]) by {
                    lemma_slot_index_round_trip(s);
                    if slot_index(s) < i {
                        assert(m0.contains_key(s));
                    }
                }
            }
            i = i + 1;
        }
        assert(m@.dom() =~= self@.dom()) by {
            assert forall|s: Slot| self@.contains_key(s) implies m@.contains_key(s) by {
                lemma_slot_index_round_trip(s);
            }
        }
        m
    }
}

impl<V: Copy> SlotMap<V> {
    /// A map with the same values in the same slots.
    pub fn copied(&self) -> (m: SlotMap<V>)
        ensures
            m@ == self@,
    {
        let mut entries: [Option<V>; 9] = [None, None, None, None, None, None, None, None, None];
        let mut i: usize = 0;
        while i < 9
            invariant
                i <= 9,
                forall|j: int| 0 <= j < i ==> entries@[j] == self.entries@[j],
            decreases 9 - i,
        {
            entries[i] = match &self.entries[i] {
                Some(v) => Some(*v),
                None => None,
            };
            i = i + 1;
        }
        let m = SlotMap { entries };
        assert(m@ =~= self@);
        m
    }
}

} // verus!
