//! Editing each side's buy-menu weapons; this does not equip the player's held
//! weapon.
use vstd::prelude::*;
use crate::config::{BuyCategory, PlayerLoadout, SideBuyLoadout, WeaponId, BUY_SLOT_COUNT};
use crate::skins::PlayerSide;
use crate::text::{to_uppercase, uppercase};

verus! {

/// A buy slot: its category and its place in it.
#[derive(Clone, Copy, PartialEq, Eq, Debug, Structural)]
pub struct Slot {
    pub category: BuyCategory,
    pub index: usize,
}

impl Default for Slot {
    fn default() -> (r: Self)
        ensures
            r == (Slot { category: BuyCategory::Rifles, index: 0 }),
    {
        Slot { category: BuyCategory::Rifles, index: 0 }
    }
}

/// The side being edited and the slot selected for each side.
#[derive(Clone, Copy, PartialEq, Eq, Debug, Structural)]
pub struct LoadoutEditor {
    pub side: PlayerSide,
    pub attacker: Slot,
    pub defender: Slot,
}

impl Default for LoadoutEditor {
    fn default() -> (r: Self)
        ensures
            r.side == PlayerSide::Attacker,
            r.attacker == (Slot { category: BuyCategory::Rifles, index: 0 }),
            r.defender == (Slot { category: BuyCategory::Rifles, index: 0 }),
    {
        LoadoutEditor { side: PlayerSide::Attacker, attacker: Slot::default(), defender: Slot::default() }
    }
}

impl LoadoutEditor {
    /// The selected slot of the side being edited: defenders have their own, every
    /// other side edits the attacker selection.
    pub open spec fn spec_slot(self) -> Slot {
        if self.side == PlayerSide::Defender {
            self.defender
        } else {
            self.attacker
        }
    }

    pub fn slot(&self) -> (r: Slot)
        ensures
            r == self.spec_slot(),
    {
        if self.side == PlayerSide::Defender {
            self.defender
        } else {
            self.attacker
        }
    }

    pub fn select(&mut self, slot: Slot)
        ensures
            final(self).side == old(self).side,
            old(self).side == PlayerSide::Defender ==> final(self).defender == slot && final(self).attacker == old(
                self,
            ).attacker,
            old(self).side != PlayerSide::Defender ==> final(self).attacker == slot && final(self).defender
                == old(self).defender,
    {
        if self.side == PlayerSide::Defender {
            self.defender = slot;
        } else {
            self.attacker = slot;
        }
    }

    /// Every selected slot lies within its category.
    pub open spec fn valid(self) -> bool {
        self.attacker.index < BUY_SLOT_COUNT && self.defender.index < BUY_SLOT_COUNT
    }
}

/// The buttons of the load-out screen.
#[derive(Clone, Copy, PartialEq, Eq, Debug, Structural)]
pub enum LoadoutButton {
    Side(PlayerSide),
    Slot(Slot),
    Category(BuyCategory),
    Weapon(WeaponId),
    Melee(WeaponId),
    Clear,
}

/// What pressing a button does: switch the side, select a slot (or the first slot
/// of a category), put a weapon into the selected slot, pick the knife, or empty
/// the selected slot. Weapons go into the loadout of the side being edited.
pub fn press(editor: &mut LoadoutEditor, loadout: &mut PlayerLoadout, button: LoadoutButton)
    ensures
        match button {
            LoadoutButton::Side(side) => *final(editor) == (LoadoutEditor { side, ..*old(editor) }) && *final(loadout)
                == *old(loadout),
            LoadoutButton::Slot(slot) => final(editor).spec_slot() == slot && final(editor).side == old(editor).side
                && *final(loadout) == *old(loadout),
            LoadoutButton::Category(category) => final(editor).spec_slot() == (Slot { category, index: 0 })
                && final(editor).side == old(editor).side && *final(loadout) == *old(loadout),
            LoadoutButton::Melee(knife) => *final(editor) == *old(editor) && *final(loadout) == (PlayerLoadout {
                melee_weapon: knife,
                ..*old(loadout)
            }),
            _ => *final(editor) == *old(editor) && final(loadout).primary_weapon == old(loadout).primary_weapon
                && final(loadout).melee_weapon == old(loadout).melee_weapon && final(loadout).selected_skin
                == old(loadout).selected_skin,
        },
        ({
            let slot = old(editor).spec_slot();
            let weapon = match button {
                LoadoutButton::Weapon(w) => Some(Some(w)),
                LoadoutButton::Clear => Some(None),
                _ => None,
            };
            let edited = old(loadout).buy_weapons.spec_side(old(editor).side);
            let untouched = if old(editor).side == PlayerSide::Defender {
                final(loadout).buy_weapons.attacker == old(loadout).buy_weapons.attacker
            } else {
                final(loadout).buy_weapons.defender == old(loadout).buy_weapons.defender
            };
            weapon matches Some(w) ==> untouched && {
                let after = final(loadout).buy_weapons.spec_side(old(editor).side);
                &&& after.valid()
                &&& (slot.index >= BUY_SLOT_COUNT || (w is Some && !slot.category.spec_accepts_for(
                    w->0,
                    old(editor).side,
                ))) ==> after == edited
                &&& !(slot.index >= BUY_SLOT_COUNT || (w is Some && !slot.category.spec_accepts_for(
                    w->0,
                    old(editor).side,
                ))) ==> {
                    &&& after.spec_slots(slot.category) == crate::config::placed(
                        edited.spec_slots(slot.category),
                        slot.index as int,
                        w,
                    )
                    &&& forall|c: BuyCategory| c != slot.category ==> after.spec_slots(c) == edited.spec_slots(c)
                }
            }
        }),
{
    match button {
        LoadoutButton::Side(side) => {
            editor.side = side;
        },
        LoadoutButton::Slot(slot) => {
            editor.select(slot);
        },
        LoadoutButton::Category(category) => {
            editor.select(Slot { category, index: 0 });
        },
        LoadoutButton::Weapon(weapon) => {
            let slot = editor.slot();
            let side = editor.side;
            loadout.buy_weapons.side_mut(side).set(slot.category, slot.index, Some(weapon), side);
        },
        LoadoutButton::Melee(knife) => {
            loadout.melee_weapon = knife;
        },
        LoadoutButton::Clear => {
            let slot = editor.slot();
            let side = editor.side;
            loadout.buy_weapons.side_mut(side).set(slot.category, slot.index, None, side);
        },
    }
}

/// Whether a button shows: weapons only for the selected slot's category, the
/// clear button only when the selected slot holds a weapon.
pub open spec fn spec_visible(side: SideBuyLoadout, selected: Slot, button: LoadoutButton) -> bool {
    match button {
        LoadoutButton::Weapon(w) => selected.category.spec_accepts(w),
        LoadoutButton::Clear => side.spec_slots(selected.category)[selected.index as int] is Some,
        _ => true,
    }
}

pub fn button_visible(side: &SideBuyLoadout, selected: Slot, button: LoadoutButton) -> (r: bool)
    requires
        selected.index < BUY_SLOT_COUNT,
    ensures
        r == spec_visible(*side, selected, button),
{
    match button {
        LoadoutButton::Weapon(w) => selected.category.accepts(w),
        LoadoutButton::Clear => side.slots(selected.category)[selected.index].is_some(),
        _ => true,
    }
}

/// Whether a button is highlighted: the side being edited, the selected slot and
/// its category, the weapon in the selected slot, and the chosen knife.
pub open spec fn spec_active(
    editor: LoadoutEditor,
    side: SideBuyLoadout,
    melee: WeaponId,
    button: LoadoutButton,
) -> bool {
    let selected = editor.spec_slot();
    match button {
        LoadoutButton::Side(s) => editor.side == s,
        LoadoutButton::Slot(slot) => selected == slot,
        LoadoutButton::Category(c) => selected.category == c,
        LoadoutButton::Weapon(w) => side.spec_slots(selected.category)[selected.index as int] == Some(w),
        LoadoutButton::Melee(k) => melee == k,
        LoadoutButton::Clear => false,
    }
}

pub fn button_active(editor: &LoadoutEditor, loadout: &PlayerLoadout, button: LoadoutButton) -> (r: bool)
    requires
        editor.valid(),
    ensures
        r == spec_active(*editor, loadout.buy_weapons.spec_side(editor.side), loadout.melee_weapon, button),
{
    let selected = editor.slot();
    let side = loadout.buy_weapons.side(editor.side);
    match button {
        LoadoutButton::Side(s) => editor.side == s,
        LoadoutButton::Slot(slot) => selected == slot,
        LoadoutButton::Category(c) => selected.category == c,
        LoadoutButton::Weapon(w) => side.slots(selected.category)[selected.index] == Some(w),
        LoadoutButton::Melee(k) => loadout.melee_weapon == k,
        LoadoutButton::Clear => false,
    }
}

/// A slot's label: the weapon in it, or `Empty`.
pub fn slot_label(side: &SideBuyLoadout, slot: Slot) -> (r: &'static str)
    requires
        slot.index < BUY_SLOT_COUNT,
    ensures
        r@ == match side.spec_slots(slot.category)[slot.index as int] {
            Some(w) => w.spec_name(),
            None => "Empty"@,
        },
{
    match side.slots(slot.category)[slot.index] {
        Some(w) => w.name(),
        None => "Empty",
    }
}

/// A slot's status line.
pub fn slot_status(side: &SideBuyLoadout, slot: Slot) -> (r: &'static str)
    requires
        slot.index < BUY_SLOT_COUNT,
    ensures
        r@ == (if side.spec_slots(slot.category)[slot.index as int] is Some {
            "Available to buy"@
        } else {
            "Select weapon"@
        }),
{
    if side.slots(slot.category)[slot.index].is_some() {
        "Available to buy"
    } else {
        "Select weapon"
    }
}

/// A weapon's status line for the selected slot: already there, elsewhere in the
/// category (it would move), or not in it yet.
pub fn weapon_status(side: &SideBuyLoadout, selected: Slot, weapon: WeaponId) -> (r: &'static str)
    requires
        selected.index < BUY_SLOT_COUNT,
    ensures
        ({
            let slots = side.spec_slots(selected.category);
            r@ == (if slots[selected.index as int] == Some(weapon) {
                "Available to buy"@
            } else if slots.contains(Some(weapon)) {
                "Move to selected slot"@
            } else {
                "Add to selected slot"@
            })
        }),
{
    let slots = side.slots(selected.category);
    if slots[selected.index] == Some(weapon) {
        return "Available to buy";
    }
    let mut i: usize = 0;
    while i < 5
        invariant
            i <= 5,
            slots@.len() == 5,
            slots@ == side.spec_slots(selected.category),
            selected.index < 5,
            slots@[selected.index as int] != Some(weapon),
            forall|k: int| 0 <= k < i ==> slots@[k] != Some(weapon),
        decreases 5 - i,
    {
        if slots[i] == Some(weapon) {
            assert(slots@[i as int] == Some(weapon));
            assert(side.spec_slots(selected.category).contains(Some(weapon)));
            return "Move to selected slot";
        }
        i += 1;
    }
    "Add to selected slot"
}

/// The load-out heading: the side's name in capitals.
pub fn loadout_heading(side: PlayerSide) -> (r: String)
    ensures
        r@ == uppercase(side.spec_name()) + " / LOAD OUT"@,
{
    let mut r = to_uppercase(side.name());
    r.append(" / LOAD OUT");
    r
}

/// The inventory heading: the side and the selected category, in capitals.
pub fn inventory_heading(side: PlayerSide, category: BuyCategory) -> (r: String)
    ensures
        r@ == "INVENTORY / "@ + uppercase(side.spec_name()) + " / "@ + uppercase(category.spec_name()),
{
    let mut r = String::from_str("INVENTORY / ");
    let s = to_uppercase(side.name());
    r.append(s.as_str());
    r.append(" / ");
    let c = to_uppercase(category.name());
    r.append(c.as_str());
    r
}

} // verus!
