//! Fixed inventory equipment, separate from held weapons and character cosmetics.
//! Armor previews never become attachments on a gameplay character.
use vstd::prelude::*;
use crate::skins::PlayerSide;
use crate::text::str_eq;

verus! {

#[derive(Clone, Copy, PartialEq, Eq, Debug, Structural)]
pub enum EquipmentCategory {
    Grenade,
    Equipment,
}

#[derive(Clone, Copy, PartialEq, Eq, Debug, Structural)]
pub enum EquipmentSide {
    Both,
    Attacker,
    Defender,
}

/// One entry of the equipment catalogue.
pub struct EquipmentItem {
    pub key: String,
    pub name: String,
    pub category: EquipmentCategory,
    pub side: EquipmentSide,
    pub icon: String,
    /// Standalone asset for inventory presentation, never a character attachment.
    pub model: String,
}

impl EquipmentItem {
    pub open spec fn spec_available_on(&self, side: PlayerSide) -> bool {
        match self.side {
            EquipmentSide::Both => true,
            EquipmentSide::Attacker => side == PlayerSide::Attacker,
            EquipmentSide::Defender => side == PlayerSide::Defender,
        }
    }

    pub fn available_on(&self, side: PlayerSide) -> (r: bool)
        ensures
            r == self.spec_available_on(side),
    {
        match self.side {
            EquipmentSide::Both => true,
            EquipmentSide::Attacker => side == PlayerSide::Attacker,
            EquipmentSide::Defender => side == PlayerSide::Defender,
        }
    }

    pub open spec fn spec_subtitle(&self) -> Seq<char> {
        match self.side {
            EquipmentSide::Attacker => "Equipment · Attacker"@,
            EquipmentSide::Defender => "Equipment · Defender"@,
            EquipmentSide::Both => match self.category {
                EquipmentCategory::Grenade => "Grenade · Both teams"@,
                EquipmentCategory::Equipment => "Equipment · Both teams"@,
            },
        }
    }

    pub fn subtitle(&self) -> (r: &'static str)
        ensures
            r@ == self.spec_subtitle(),
    {
        match self.side {
            EquipmentSide::Attacker => "Equipment · Attacker",
            EquipmentSide::Defender => "Equipment · Defender",
            EquipmentSide::Both => match self.category {
                EquipmentCategory::Grenade => "Grenade · Both teams",
                EquipmentCategory::Equipment => "Equipment · Both teams",
            },
        }
    }

    pub open spec fn spec_status(&self) -> Seq<char> {
        if self.key@ == "kevlar"@ || self.key@ == "kevlar_helmet"@ {
            "Invisible on character"@
        } else {
            "Fixed selection"@
        }
    }

    /// Armor is never drawn on the character; everything else is a fixed selection.
    pub fn status(&self) -> (r: &'static str)
        ensures
            r@ == self.spec_status(),
    {
        if str_eq(self.key.as_str(), "kevlar") || str_eq(self.key.as_str(), "kevlar_helmet") {
            "Invisible on character"
        } else {
            "Fixed selection"
        }
    }
}

} // verus!
