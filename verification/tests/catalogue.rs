use open_strike::config::{
    BotDifficulty, BuyCategory, BuyLoadouts, GameConfig, GameMode, MapId, MatchSettings, PlayerLoadout,
    SideBuyLoadout, WeaponId, BUY_SLOT_COUNT, PRESET_ARMOR, PRESET_GRENADES,
};
use open_strike::equipment::{EquipmentCategory, EquipmentItem, EquipmentSide};
use open_strike::game::{simulation_paused, GameState};
use open_strike::skins::{PlayerSide, SkinId, SkinRegistry};

#[test]
fn weapon_keys_round_trip() {
    let all = WeaponId::all();
    assert_eq!(all.len(), 40);
    for w in all.iter() {
        assert_eq!(WeaponId::from_key(w.key()), Some(*w));
        assert_eq!(WeaponId::from_code(w.code()), *w);
    }
    assert_eq!(WeaponId::from_key("bfg"), None);
    assert_eq!(WeaponId::AK47.key(), "ak47");
    assert_eq!(WeaponId::DefaultKnife.key(), "knife");
    assert_eq!(WeaponId::AK47.code(), 0);
    assert_eq!(WeaponId::from_code(200), WeaponId::AK47);
    assert_eq!(WeaponId::knives().len() + WeaponId::guns().len(), 40);
    assert!(WeaponId::knives().iter().all(|w| w.is_knife()));
    assert!(WeaponId::guns().iter().all(|w| !w.is_knife()));
}

#[test]
fn weapon_facts() {
    assert_eq!(WeaponId::M4a4.name(), "M4A4");
    assert_eq!(WeaponId::M4a4.buy_category(), Some(BuyCategory::Rifles));
    assert_eq!(WeaponId::Glock18.buy_category(), Some(BuyCategory::Pistols));
    assert_eq!(WeaponId::Karambit.buy_category(), None);
    assert_eq!(WeaponId::Glock18.side(), PlayerSide::Attacker);
    assert_eq!(WeaponId::Usps.side(), PlayerSide::Defender);
    assert_eq!(WeaponId::Awp.side(), PlayerSide::Any);
    assert!(WeaponId::Awp.available_on(PlayerSide::Defender));
    assert!(!WeaponId::AK47.available_on(PlayerSide::Defender));
    assert!(WeaponId::AK47.has_viewmodel());
    assert!(!WeaponId::Awp.has_viewmodel());
    assert_eq!(WeaponId::AK47.inventory_path(), "generated/ui/inventory/ak47.png");
    assert_eq!(WeaponId::AK47.world_path(), "generated/ak_world.glb");
    assert_eq!(WeaponId::Glock18.world_path(), "generated/weapons/glock18.glb");
    assert_eq!(WeaponId::DefaultKnife.subtitle(), "Melee · Default finish");
    assert_eq!(WeaponId::Deagle.subtitle(), "Pistol");
    assert_eq!(WeaponId::Nova.subtitle(), "Mid-tier");
    assert_eq!(WeaponId::Awp.subtitle(), "Rifle");
}

#[test]
fn buy_categories() {
    assert_eq!(BuyCategory::ALL.len(), 3);
    assert_eq!(BuyCategory::MidTier.description(), "SMGs and shotguns");
    assert!(BuyCategory::Rifles.accepts(WeaponId::AK47));
    assert!(!BuyCategory::Pistols.accepts(WeaponId::AK47));
    assert!(BuyCategory::Rifles.accepts_for(WeaponId::AK47, PlayerSide::Attacker));
    assert!(!BuyCategory::Rifles.accepts_for(WeaponId::AK47, PlayerSide::Defender));
    assert_eq!(BUY_SLOT_COUNT, 5);
    assert_eq!(PRESET_ARMOR, ["Kevlar vest", "Kevlar + helmet"]);
    assert_eq!(PRESET_GRENADES[0], "Flashbang");
}

#[test]
fn buy_slots() {
    let mut side = SideBuyLoadout::empty();
    assert_eq!(side.first_gun(), None);
    side.set(BuyCategory::Pistols, 2, Some(WeaponId::Glock18), PlayerSide::Attacker);
    assert_eq!(side.slots(BuyCategory::Pistols)[2], Some(WeaponId::Glock18));
    side.set(BuyCategory::Pistols, 0, Some(WeaponId::Glock18), PlayerSide::Attacker);
    assert_eq!(side.slots(BuyCategory::Pistols), &[Some(WeaponId::Glock18), None, None, None, None]);
    side.set(BuyCategory::Pistols, 1, Some(WeaponId::Usps), PlayerSide::Attacker);
    side.set(BuyCategory::Rifles, 0, Some(WeaponId::Glock18), PlayerSide::Attacker);
    side.set(BuyCategory::Rifles, 5, Some(WeaponId::AK47), PlayerSide::Attacker);
    assert_eq!(side.slots(BuyCategory::Pistols)[1], None);
    assert_eq!(side.slots(BuyCategory::Rifles), &[None; 5]);
    assert_eq!(side.first_gun(), Some(WeaponId::Glock18));
    side.set(BuyCategory::MidTier, 4, Some(WeaponId::Mac10), PlayerSide::Attacker);
    assert_eq!(side.first_gun(), Some(WeaponId::Mac10));
    side.set(BuyCategory::MidTier, 4, None, PlayerSide::Attacker);
    assert_eq!(side.first_gun(), Some(WeaponId::Glock18));
    let defender = SideBuyLoadout::for_side(PlayerSide::Defender);
    assert_eq!(defender.first_gun(), Some(WeaponId::M4a4));
}

#[test]
fn loadouts_and_spawn_guns() {
    let mut loadout = PlayerLoadout::default();
    assert_eq!(loadout.primary_weapon, WeaponId::AK47);
    assert_eq!(loadout.melee_weapon, WeaponId::DefaultKnife);
    assert_eq!(loadout.selected_skin, SkinId::Soldier);
    assert_eq!(loadout.spawn_gun(PlayerSide::Attacker), WeaponId::AK47);
    assert_eq!(loadout.spawn_gun(PlayerSide::Defender), WeaponId::M4a4);
    *loadout.buy_weapons.side_mut(PlayerSide::Defender) = SideBuyLoadout::empty();
    assert_eq!(loadout.spawn_gun(PlayerSide::Defender), WeaponId::AK47);
    let buy = BuyLoadouts::default();
    assert_eq!(buy.side(PlayerSide::Any).first_gun(), Some(WeaponId::AK47));
}

#[test]
fn modes_maps_and_settings() {
    assert_eq!(GameMode::default(), GameMode::TeamDeathmatch);
    assert_eq!(GameMode::from_key("dm"), Some(GameMode::Deathmatch));
    assert_eq!(GameMode::from_key("ctf"), None);
    assert!(GameMode::TeamDeathmatch.teams());
    assert!(!GameMode::Deathmatch.teams());
    assert!(GameMode::Deathmatch.scored());
    assert!(!GameMode::Freemode.scored());
    for m in [GameMode::Freemode, GameMode::Deathmatch, GameMode::TeamDeathmatch] {
        assert_eq!(GameMode::from_code(m.code()), m);
        assert_eq!(GameMode::from_key(m.key()), Some(m));
    }
    for m in [MapId::Warehouse, MapId::Dust2, MapId::Mirage] {
        assert_eq!(MapId::from_code(m.code()), m);
        assert_eq!(MapId::from_key(m.key()), Some(m));
    }
    assert_eq!(MapId::PLAYABLE, [MapId::Dust2, MapId::Mirage]);
    assert_eq!(BotDifficulty::from_key("hard"), Some(BotDifficulty::Hard));
    assert_eq!(BotDifficulty::default(), BotDifficulty::Easy);
    let settings = MatchSettings::default();
    assert_eq!((settings.time_limit_secs, settings.score_limit, settings.respawn_secs), (Some(600), Some(50), 3));
    let config = GameConfig::default();
    assert_eq!((config.mode, config.map, config.bot_difficulty), (GameMode::TeamDeathmatch, MapId::Dust2, BotDifficulty::Easy));
}

#[test]
fn skins_and_equipment() {
    let registry = SkinRegistry::default();
    assert_eq!(registry.get(SkinId::Police).unwrap().name, "Police Defender");
    assert_eq!(registry.get_for_side(PlayerSide::Attacker).len(), 1);
    assert_eq!(registry.get_for_side(PlayerSide::Any).len(), 0);
    assert_eq!(SkinId::from_key(SkinId::Police.key()), Some(SkinId::Police));
    assert_eq!(SkinId::from_key("pirate"), None);
    let item = |key: &str, category, side| EquipmentItem {
        key: key.into(),
        name: key.into(),
        category,
        side,
        icon: String::new(),
        model: String::new(),
    };
    let vest = item("kevlar", EquipmentCategory::Equipment, EquipmentSide::Both);
    assert_eq!(vest.status(), "Invisible on character");
    assert_eq!(vest.subtitle(), "Equipment · Both teams");
    assert!(vest.available_on(PlayerSide::Defender));
    let flash = item("flashbang", EquipmentCategory::Grenade, EquipmentSide::Both);
    assert_eq!(flash.status(), "Fixed selection");
    assert_eq!(flash.subtitle(), "Grenade · Both teams");
    let kit = item("defuse_kit", EquipmentCategory::Equipment, EquipmentSide::Defender);
    assert_eq!(kit.subtitle(), "Equipment · Defender");
    assert!(!kit.available_on(PlayerSide::Attacker));
    assert!(simulation_paused(GameState::Paused));
    assert!(!simulation_paused(GameState::Playing));
}
