//! The inventory panel's rules: equipment slots above the backpack, with a
//! two-click swap. Click a slot to pick it up, then click another to swap their
//! contents; clicking the picked-up slot again cancels.

use vstd::prelude::*;

use crate::data::items::{spec_item_name, spec_item_weapon, spec_weapon_label};

use crate::ability::{slots_wf, spec_swap, Inventory, Slots, EQUIP_COUNT, TOTAL_SLOTS};

verus! {

/// Which slot is currently picked up (awaiting a destination click).
#[derive(Clone, Copy, PartialEq, Eq, Structural, Debug)]
pub struct Selection(pub Option<usize>);

/// The selection and slots after a click on `slot`.
pub open spec fn spec_click(sel: Option<usize>, s: Slots, slot: int) -> (Option<usize>, Slots) {
    match sel {
        None => if 0 <= slot < s.len() && s[slot] is Some {
            (Some(slot as usize), s)
        } else {
            (None, s)
        },
        Some(src) => if src != slot {
            (None, spec_swap(s, src as int, slot))
        } else {
            (None, s)
        },
    }
}

impl Selection {
    /// A selection holds a valid slot index, if any.
    pub open spec fn wf(&self) -> bool {
        self.0 matches Some(src) ==> src < TOTAL_SLOTS
    }

    /// Nothing picked up.
    pub fn new() -> (sel: Self)
        ensures
            sel.0 is None,
    {
        Selection(None)
    }

    /// Drop whatever is picked up (leaving the playing screen).
    pub fn reset(&mut self)
        ensures
            final(self).0 is None,
    {
        self.0 = None;
    }

    /// A press on slot `slot`. With nothing held, an occupied slot is picked up
    /// (an empty one is ignored). With a slot held, pressing another slot swaps
    /// the two and pressing the same slot cancels; either way the hand empties.
    pub fn click(&mut self, inv: &mut Inventory, slot: usize)
        requires
            old(self).wf(),
            old(inv).wf(),
            old(self).0 is Some ==> slot < TOTAL_SLOTS,
        ensures
            final(self).wf(),
            final(inv).wf(),
            (final(self).0, final(inv)@) == spec_click(old(self).0, old(inv)@, slot as int),
    {
        match self.0 {
            None => {
                if inv.get(slot).is_some() {
                    self.0 = Some(slot);
                }
            },
            Some(src) => {
                if src != slot {
                    inv.swap(src, slot);
                }
                self.0 = None;
            },
        }
    }
}

impl Default for Selection {
    fn default() -> (sel: Self)
        ensures
            sel.0 is None,
    {
        Selection(None)
    }
}

/// How a slot is painted.
#[derive(Clone, Copy, PartialEq, Eq, Structural, Debug)]
pub enum SlotStyle {
    /// Picked up, awaiting a swap destination.
    Selected,
    /// Under the pointer.
    Hovered,
    /// An occupied equipment slot.
    Equipped,
    /// An occupied backpack slot.
    Occupied,
    /// An empty slot.
    Empty,
}

pub open spec fn spec_slot_style(sel: Option<usize>, hovered: bool, s: Slots, index: int) -> SlotStyle {
    if sel == Some(index as usize) {
        SlotStyle::Selected
    } else if hovered {
        SlotStyle::Hovered
    } else if 0 <= index < s.len() && s[index] is Some {
        if index < EQUIP_COUNT {
            SlotStyle::Equipped
        } else {
            SlotStyle::Occupied
        }
    } else {
        SlotStyle::Empty
    }
}

/// The style of slot `index`: selected first, then hovered, then occupied
/// (equipment slots tinted apart from the backpack), else empty.
pub fn slot_style(sel: &Selection, hovered: bool, inv: &Inventory, index: usize) -> (st: SlotStyle)
    requires
        inv.wf(),
    ensures
        st == spec_slot_style(sel.0, hovered, inv@, index as int),
{
    let selected = match sel.0 {
        Some(src) => src == index,
        None => false,
    };
    if selected {
        SlotStyle::Selected
    } else if hovered {
        SlotStyle::Hovered
    } else if inv.get(index).is_some() {
        if Inventory::is_equip_slot(index) {
            SlotStyle::Equipped
        } else {
            SlotStyle::Occupied
        }
    } else {
        SlotStyle::Empty
    }
}

/// Picking a slot up and dropping it on another is exactly a swap of the two;
/// dropping it back on itself leaves the inventory as it was. Either way the
/// hand is empty afterwards.
pub proof fn law_two_click_swap(s: Slots, a: int, b: int)
    requires
        slots_wf(s),
        0 <= a < TOTAL_SLOTS,
        0 <= b < TOTAL_SLOTS,
        s[a] is Some,
    ensures
        ({
            let (sel1, s1) = spec_click(None, s, a);
            let (sel2, s2) = spec_click(sel1, s1, b);
            &&& sel1 == Some(a as usize)
            &&& s1 == s
            &&& sel2 is None
            &&& s2 == (if a == b { s } else { spec_swap(s, a, b) })
        }),
{
}

/// A click on an empty slot with nothing held changes nothing.
pub proof fn law_click_empty_ignored(s: Slots, a: int)
    requires
        0 <= a < s.len(),
        s[a] is None,
    ensures
        spec_click(None, s, a) == (None::<usize>, s),
{
}

/// The text of a slot: `Name [Weapon]` for an item, a dash for an empty slot.
pub open spec fn spec_slot_label(item: Option<crate::data::items::ItemId>) -> Seq<char> {
    match item {
        Some(id) => spec_item_name(id) + " ["@ + spec_weapon_label(spec_item_weapon(id)) + "]"@,
        None => "\u{2014}"@,
    }
}

/// The text painted on slot `index`.
pub fn slot_label(inv: &Inventory, index: usize) -> (s: String)
    requires
        inv.wf(),
    ensures
        s@ == spec_slot_label(if index < TOTAL_SLOTS { inv@[index as int] } else { None }),
{
    let mut s = String::new();
    match inv.get(index) {
        Some(id) => {
            let def = id.def();
            s.append(def.name);
            s.append(" [");
            s.append(def.weapon.label());
            s.append("]");
        },
        None => {
            s.append("\u{2014}");
        },
    }
    assert(s@ =~= spec_slot_label(if index < TOTAL_SLOTS { inv@[index as int] } else { None }));
    s
}

} // verus!
