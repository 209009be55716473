use open_strike::config::{BuyCategory, PlayerLoadout, SideBuyLoadout, WeaponId};
use open_strike::local::{
    decode_side, encode_side, encode_slots, same_keys, StoredBuy, StoredBuySide, StoredLoadout,
    BUY_DEFAULTS_VERSION, KEY_HUB, KEY_LOADOUT, KEY_SETTINGS,
};
use open_strike::skins::{PlayerSide, SkinId};

fn keys(list: &[Option<&str>]) -> Vec<Option<String>> {
    list.iter().map(|k| k.map(|s| s.to_string())).collect()
}

fn side(pistols: &[Option<&str>], mid: &[Option<&str>], rifles: &[Option<&str>]) -> StoredBuySide {
    StoredBuySide { pistols: keys(pistols), mid_tier: keys(mid), rifles: keys(rifles) }
}

fn same_side(a: &SideBuyLoadout, b: &SideBuyLoadout) -> bool {
    BuyCategory::ALL.iter().all(|c| a.slots(*c) == b.slots(*c))
}

#[test]
fn store_keys() {
    assert_eq!((KEY_HUB, KEY_SETTINGS, KEY_LOADOUT), ("hub", "settings", "loadout"));
    assert_eq!(BUY_DEFAULTS_VERSION, 1);
}

#[test]
fn slots_are_stored_as_keys() {
    let slots = [Some(WeaponId::Glock18), None, Some(WeaponId::Deagle), None, None];
    assert_eq!(encode_slots(&slots), keys(&[Some("glock18"), None, Some("deagle"), None, None]));
    let stored = encode_side(&SideBuyLoadout::for_side(PlayerSide::Defender));
    assert_eq!(stored.rifles[0].as_deref(), Some("m4a4"));
    assert!(same_keys(&stored.pistols, &stored.pistols));
    assert!(!same_keys(&stored.pistols, &stored.rifles));
}

#[test]
fn a_loadout_survives_the_store() {
    let mut live = PlayerLoadout::default();
    live.primary_weapon = WeaponId::Awp;
    live.melee_weapon = WeaponId::Karambit;
    live.selected_skin = SkinId::Police;
    live.buy_weapons.attacker.set(BuyCategory::Rifles, 4, None, PlayerSide::Attacker);
    let stored = StoredLoadout::from_live(&live);
    assert_eq!(stored.buy_defaults_version, BUY_DEFAULTS_VERSION);
    assert_eq!((stored.primary_weapon.as_str(), stored.melee_weapon.as_str()), ("awp", "karambit"));
    assert_eq!(stored.selected_skin, "police");
    let mut restored = PlayerLoadout::default();
    stored.apply(&mut restored);
    assert_eq!(restored.primary_weapon, WeaponId::Awp);
    assert_eq!(restored.melee_weapon, WeaponId::Karambit);
    assert_eq!(restored.selected_skin, SkinId::Police);
    assert!(same_side(&restored.buy_weapons.attacker, &live.buy_weapons.attacker));
    assert!(same_side(&restored.buy_weapons.defender, &live.buy_weapons.defender));
    assert_eq!(restored.buy_weapons.attacker.slots(BuyCategory::Rifles)[4], None);
}

#[test]
fn unknown_keys_leave_the_loadout() {
    let stored = StoredLoadout {
        buy_defaults_version: 1,
        primary_weapon: "railgun".into(),
        melee_weapon: String::new(),
        selected_skin: "pirate".into(),
        buy_weapons: StoredBuy {
            attacker: side(&[Some("bfg"), Some("usps"), Some("tec9")], &[], &[]),
            defender: side(&[], &[], &[]),
        },
    };
    let mut loadout = PlayerLoadout::default();
    stored.apply(&mut loadout);
    assert_eq!(loadout.primary_weapon, WeaponId::AK47);
    assert_eq!(loadout.melee_weapon, WeaponId::DefaultKnife);
    assert_eq!(loadout.selected_skin, SkinId::Soldier);
    assert_eq!(
        loadout.buy_weapons.attacker.slots(BuyCategory::Pistols),
        &[None, None, Some(WeaponId::Tec9), None, None]
    );
    assert!(same_side(&loadout.buy_weapons.defender, &SideBuyLoadout::for_side(PlayerSide::Defender)));
}

#[test]
fn saves_without_slots_take_the_preset() {
    let decoded = decode_side(&side(&[], &[], &[]), PlayerSide::Attacker, false);
    assert!(same_side(&decoded, &SideBuyLoadout::for_side(PlayerSide::Attacker)));
    let cleared = decode_side(&side(&[None; 5], &[None; 5], &[None; 5]), PlayerSide::Attacker, false);
    assert!(same_side(&cleared, &SideBuyLoadout::empty()));
}

#[test]
fn the_former_preset_is_upgraded_once() {
    let legacy = side(
        &[Some("glock18"), None, None, None, None],
        &[None, None, None, None, None],
        &[Some("ak47"), None, None, None, None],
    );
    let upgraded = decode_side(&legacy, PlayerSide::Attacker, true);
    assert!(same_side(&upgraded, &SideBuyLoadout::for_side(PlayerSide::Attacker)));
    let kept = decode_side(&legacy, PlayerSide::Attacker, false);
    assert_eq!(kept.slots(BuyCategory::Pistols), &[Some(WeaponId::Glock18), None, None, None, None]);
    assert_eq!(kept.first_gun(), Some(WeaponId::AK47));
    let other_team = decode_side(&legacy, PlayerSide::Defender, true);
    assert_eq!(other_team.first_gun(), None);
    let defender_legacy = side(
        &[Some("usps"), None, None, None, None],
        &[None, None, None, None, None],
        &[Some("m4a4"), None, None, None, None],
    );
    let upgraded = decode_side(&defender_legacy, PlayerSide::Defender, true);
    assert!(same_side(&upgraded, &SideBuyLoadout::for_side(PlayerSide::Defender)));
}

#[test]
fn edited_sides_and_cleared_slots_read_back() {
    for player_side in [PlayerSide::Attacker, PlayerSide::Defender] {
        let mut built = SideBuyLoadout::for_side(player_side);
        built.set(BuyCategory::Rifles, 4, Some(WeaponId::Awp), player_side);
        built.set(BuyCategory::Pistols, 1, None, player_side);
        built.set(BuyCategory::MidTier, 0, Some(WeaponId::Nova), player_side);
        let back = decode_side(&encode_side(&built), player_side, false);
        assert!(same_side(&back, &built));
        let cleared = side(&[None; 5], &[None; 5], &[None; 5]);
        for upgrade in [false, true] {
            assert!(same_side(&decode_side(&cleared, player_side, upgrade), &SideBuyLoadout::empty()));
        }
    }
}

#[test]
fn hub_file_is_imported_once_when_it_is_json() {
    let text = r#"{"url":"http://hub.example:8080"}"#;
    assert_eq!(open_strike::local::hub_import(false, Some(text)), Some(text.to_string()));
    assert_eq!(open_strike::local::hub_import(true, Some(text)), None);
    assert_eq!(open_strike::local::hub_import(false, Some("{not json")), None);
    assert_eq!(open_strike::local::hub_import(false, None), None);
}
