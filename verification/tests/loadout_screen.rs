use open_strike::config::{BuyCategory, PlayerLoadout, SideBuyLoadout, WeaponId};
use open_strike::loadout_editor::{
    button_active, button_visible, inventory_heading, loadout_heading, press, slot_label, slot_status, weapon_status,
    LoadoutButton, LoadoutEditor, Slot,
};
use open_strike::skins::PlayerSide;

fn slot(category: BuyCategory, index: usize) -> Slot {
    Slot { category, index }
}

#[test]
fn editor_starts_on_the_first_rifle_slot_of_attackers() {
    let editor = LoadoutEditor::default();
    assert_eq!(editor.side, PlayerSide::Attacker);
    assert_eq!(editor.slot(), slot(BuyCategory::Rifles, 0));
    assert_eq!(editor.defender, slot(BuyCategory::Rifles, 0));
}

#[test]
fn each_side_keeps_its_own_selection() {
    let mut editor = LoadoutEditor::default();
    let mut loadout = PlayerLoadout::default();
    press(&mut editor, &mut loadout, LoadoutButton::Slot(slot(BuyCategory::Pistols, 3)));
    press(&mut editor, &mut loadout, LoadoutButton::Side(PlayerSide::Defender));
    assert_eq!(editor.slot(), slot(BuyCategory::Rifles, 0));
    press(&mut editor, &mut loadout, LoadoutButton::Category(BuyCategory::MidTier));
    assert_eq!(editor.slot(), slot(BuyCategory::MidTier, 0));
    press(&mut editor, &mut loadout, LoadoutButton::Side(PlayerSide::Attacker));
    assert_eq!(editor.slot(), slot(BuyCategory::Pistols, 3));
}

#[test]
fn weapons_go_into_the_edited_side_only() {
    let mut editor = LoadoutEditor::default();
    let mut loadout = PlayerLoadout::default();
    press(&mut editor, &mut loadout, LoadoutButton::Slot(slot(BuyCategory::Rifles, 2)));
    press(&mut editor, &mut loadout, LoadoutButton::Weapon(WeaponId::AK47));
    let attacker = loadout.buy_weapons.attacker.slots(BuyCategory::Rifles);
    assert_eq!(attacker[2], Some(WeaponId::AK47));
    assert_eq!(attacker[0], None);
    assert_eq!(
        loadout.buy_weapons.defender.slots(BuyCategory::Rifles)[0],
        Some(WeaponId::M4a4)
    );
    assert_eq!(loadout.primary_weapon, WeaponId::AK47);
}

#[test]
fn other_side_weapons_are_refused() {
    let mut editor = LoadoutEditor::default();
    let mut loadout = PlayerLoadout::default();
    press(&mut editor, &mut loadout, LoadoutButton::Weapon(WeaponId::M4a4));
    assert_eq!(
        loadout.buy_weapons.attacker.slots(BuyCategory::Rifles),
        SideBuyLoadout::for_side(PlayerSide::Attacker).slots(BuyCategory::Rifles)
    );
}

#[test]
fn clear_and_knife() {
    let mut editor = LoadoutEditor::default();
    let mut loadout = PlayerLoadout::default();
    press(&mut editor, &mut loadout, LoadoutButton::Clear);
    assert_eq!(loadout.buy_weapons.attacker.slots(BuyCategory::Rifles)[0], None);
    press(&mut editor, &mut loadout, LoadoutButton::Melee(WeaponId::DefaultKnifeT));
    assert_eq!(loadout.melee_weapon, WeaponId::DefaultKnifeT);
    assert_eq!(editor, LoadoutEditor::default());
}

#[test]
fn visibility_and_highlight() {
    let side = SideBuyLoadout::for_side(PlayerSide::Attacker);
    let rifle = slot(BuyCategory::Rifles, 0);
    assert!(button_visible(&side, rifle, LoadoutButton::Weapon(WeaponId::Galil)));
    assert!(!button_visible(&side, rifle, LoadoutButton::Weapon(WeaponId::Glock18)));
    assert!(button_visible(&side, rifle, LoadoutButton::Clear));
    assert!(!button_visible(&SideBuyLoadout::empty(), rifle, LoadoutButton::Clear));
    assert!(button_visible(&side, rifle, LoadoutButton::Side(PlayerSide::Defender)));

    let editor = LoadoutEditor::default();
    let loadout = PlayerLoadout::default();
    assert!(button_active(&editor, &loadout, LoadoutButton::Side(PlayerSide::Attacker)));
    assert!(!button_active(&editor, &loadout, LoadoutButton::Side(PlayerSide::Defender)));
    assert!(button_active(&editor, &loadout, LoadoutButton::Slot(rifle)));
    assert!(button_active(&editor, &loadout, LoadoutButton::Category(BuyCategory::Rifles)));
    assert!(!button_active(&editor, &loadout, LoadoutButton::Category(BuyCategory::Pistols)));
    assert!(button_active(&editor, &loadout, LoadoutButton::Weapon(WeaponId::AK47)));
    assert!(!button_active(&editor, &loadout, LoadoutButton::Weapon(WeaponId::Galil)));
    assert!(button_active(&editor, &loadout, LoadoutButton::Melee(WeaponId::DefaultKnife)));
    assert!(!button_active(&editor, &loadout, LoadoutButton::Clear));
}

#[test]
fn labels_and_statuses() {
    let side = SideBuyLoadout::for_side(PlayerSide::Attacker);
    let empty = SideBuyLoadout::empty();
    let rifle = slot(BuyCategory::Rifles, 0);
    assert_eq!(slot_label(&side, rifle), "AK-47");
    assert_eq!(slot_label(&empty, rifle), "Empty");
    assert_eq!(slot_status(&side, rifle), "Available to buy");
    assert_eq!(slot_status(&empty, rifle), "Select weapon");
    assert_eq!(weapon_status(&side, rifle, WeaponId::AK47), "Available to buy");
    assert_eq!(weapon_status(&side, rifle, WeaponId::Galil), "Move to selected slot");
    assert_eq!(weapon_status(&side, rifle, WeaponId::Famas), "Add to selected slot");
}

#[test]
fn headings() {
    assert_eq!(loadout_heading(PlayerSide::Defender), "DEFENDER / LOAD OUT");
    assert_eq!(
        inventory_heading(PlayerSide::Attacker, BuyCategory::MidTier),
        "INVENTORY / ATTACKER / MID-TIER"
    );
}
