//! The avatar being edited: its body family, skin tone, what is equipped in
//! each slot, per-slot colours and facial expression.

use vstd::prelude::*;

use crate::expressions::Expression;
use crate::slots::{slot_order, Slot, SlotMap};
use crate::text::owned;

verus! {

/// `body_type` when no body asset is equipped. Wearables whose
/// `compatible_body_types` is empty match any body, this one included.
pub const DEFAULT_BODY_TYPE: &'static str = "default";

/// The editor's avatar. `skin_tone` and the slot colours hold the `f32` bit
/// patterns of sRGB channels.
#[derive(Debug, Clone, PartialEq)]
pub struct Avatar {
    /// The body family of the current rig; wearables declare
    /// `compatible_body_types` against it.
    pub body_type: String,
    pub skin_tone: [u32; 3],
    /// Asset id equipped in each slot.
    pub slots: SlotMap<String>,
    /// The user's colour pick per slot. It outlives unequipping the slot and
    /// is cleared by [`Avatar::clear_all`].
    pub slot_colors: SlotMap<[u32; 3]>,
    /// Active facial expression preset.
    pub expression: Expression,
}

/// Bit patterns of the default skin tone `[0.62, 0.41, 0.28]`.
pub const DEFAULT_SKIN_TONE: [u32; 3] = [0x3f1e_b852, 0x3ed1_eb85, 0x3e8f_5c29];

impl Default for Avatar {
    fn default() -> (a: Avatar)
        ensures
            a.body_type@ == DEFAULT_BODY_TYPE@,
            a.skin_tone == DEFAULT_SKIN_TONE,
            a.slots@ == Map::<Slot, String>::empty(),
            a.slot_colors@ == Map::<Slot, [u32; 3]>::empty(),
            a.expression == Expression::Neutral,
    {
        Avatar {
            body_type: owned(DEFAULT_BODY_TYPE),
            skin_tone: DEFAULT_SKIN_TONE,
            slots: SlotMap::new(),
            slot_colors: SlotMap::new(),
            expression: Expression::default(),
        }
    }
}

impl Avatar {
    /// Equip `asset_id` into `slot`, replacing whatever was there.
    pub fn equip(&mut self, slot: Slot, asset_id: String)
        ensures
            final(self).slots@ == old(self).slots@.insert(slot, asset_id),
            final(self).slot_colors@ == old(self).slot_colors@,
            final(self).body_type == old(self).body_type,
            final(self).skin_tone == old(self).skin_tone,
            final(self).expression == old(self).expression,
    {
        self.slots.insert(slot, asset_id);
    }

    /// Empty `slot`; a no-op if it is already empty.
    pub fn unequip(&mut self, slot: Slot)
        ensures
            final(self).slots@ == old(self).slots@.remove(slot),
            final(self).slot_colors@ == old(self).slot_colors@,
            final(self).body_type == old(self).body_type,
            final(self).skin_tone == old(self).skin_tone,
            final(self).expression == old(self).expression,
    {
        self.slots.remove(slot);
    }

    /// The asset id equipped in `slot`.
    pub fn equipped(&self, slot: Slot) -> (r: Option<&str>)
        ensures
            self.slots@.contains_key(slot) ==> (r matches Some(s) && s@ == self.slots@[slot]@),
            !self.slots@.contains_key(slot) ==> r is None,
    {
        match self.slots.get(slot) {
            Some(id) => Some(id.as_str()),
            None => None,
        }
    }

    /// The equipped slots in [`Slot::ALL`] order, so the body comes first.
    pub fn iter(&self) -> (v: Vec<(Slot, &str)>)
        ensures
            v@.len() == slot_order(self.slots@).len(),
            forall|i: int|
                0 <= i < v@.len() ==> (#[trigger] v@[i]).0 == slot_order(self.slots@)[i].0 && v@[i].1@
                    == slot_order(self.slots@)[i].1@,
    {
        let entries = self.slots.entries();
        let mut out: Vec<(Slot, &str)> = Vec::new();
        let mut i: usize = 0;
        while i < entries.len()
            invariant
                i <= entries.len(),
                out@.len() == i,
                forall|k: int|
                    0 <= k < i ==> (#[trigger] out@[k]).0 == entries@[k].0 && out@[k].1@ == entries@[k].1@,
            decreases entries.len() - i,
        {
            let (slot, id) = entries[i];
            out.push((slot, id.as_str()));
            i = i + 1;
        }
        out
    }

    /// Drop everything: equipped assets, remembered colours, body type and
    /// expression.
    pub fn clear_all(&mut self)
        ensures
            final(self).slots@ == Map::<Slot, String>::empty(),
            final(self).slot_colors@ == Map::<Slot, [u32; 3]>::empty(),
            final(self).body_type@ == DEFAULT_BODY_TYPE@,
            final(self).expression == Expression::Neutral,
            final(self).skin_tone == old(self).skin_tone,
    {
        self.slots.clear();
        self.slot_colors.clear();
        self.body_type = owned(DEFAULT_BODY_TYPE);
        self.expression = Expression::default();
    }

    /// Remember the user's sRGB colour for `slot`.
    pub fn set_slot_color(&mut self, slot: Slot, color_srgb: [u32; 3])
        ensures
            final(self).slot_colors@ == old(self).slot_colors@.insert(slot, color_srgb),
            final(self).slots@ == old(self).slots@,
            final(self).body_type == old(self).body_type,
            final(self).skin_tone == old(self).skin_tone,
            final(self).expression == old(self).expression,
    {
        self.slot_colors.insert(slot, color_srgb);
    }

    /// The colour picked for `slot`, if any.
    pub fn slot_color(&self, slot: Slot) -> (r: Option<[u32; 3]>)
        ensures
            r == (if self.slot_colors@.contains_key(slot) {
                Some(self.slot_colors@[slot])
            } else {
                None
            }),
    {
        match self.slot_colors.get(slot) {
            Some(c) => Some(*c),
            None => None,
        }
    }

    /// Equip a body asset.
    pub fn set_active_body_asset(&mut self, id: String)
        ensures
            final(self).slots@ == old(self).slots@.insert(Slot::Body, id),
            final(self).slot_colors@ == old(self).slot_colors@,
            final(self).body_type == old(self).body_type,
            final(self).skin_tone == old(self).skin_tone,
            final(self).expression == old(self).expression,
    {
        self.equip(Slot::Body, id);
    }

    /// Unequip the body.
    pub fn clear_active_body_asset(&mut self)
        ensures
            final(self).slots@ == old(self).slots@.remove(Slot::Body),
            final(self).slot_colors@ == old(self).slot_colors@,
            final(self).body_type == old(self).body_type,
            final(self).skin_tone == old(self).skin_tone,
            final(self).expression == old(self).expression,
    {
        self.unequip(Slot::Body);
    }
}

} // verus!
