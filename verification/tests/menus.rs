use open_strike::config::{GameConfig, GameMode, MapId, PlayerLoadout, WeaponId, PRESET_GRENADES};
use open_strike::game::GameState;
use open_strike::menu::{
    card_shown, character_preview, cursor_locked, dialog_fill, dialog_outline, dialog_page_shown, frame_keys,
    grenade_name, inventory_cards, item_count_text, item_status, nav_bar_shown, nav_target, page_shown,
    pause_dialog_shown, pick_category, press_dialog, press_play_page, press_quit_icon, reset_menu, DialogAction, DialogOutcome,
    ExitConfirmation, Fill, FrameKeys, InventoryCard, InventoryCategory, InventoryItem, LocalMatchOption, MenuTab,
    Outline, Pointer,
};
use open_strike::skins::SkinId;

fn keys(escape: bool, enter: bool, unfocused: bool) -> FrameKeys {
    FrameKeys { escape, enter, unfocused, capturing: false }
}

#[test]
fn local_option_is_team_deathmatch_on_dust2() {
    assert_eq!(LocalMatchOption::LABEL, "Deathmatch");
    let mut config = GameConfig::default();
    config.mode = GameMode::Freemode;
    config.map = MapId::Mirage;
    assert!(!LocalMatchOption::selected(&config));
    assert_eq!(reset_menu(&mut config), MenuTab::Home);
    assert!(LocalMatchOption::selected(&config));
    assert_eq!(config.mode, GameMode::TeamDeathmatch);
    assert_eq!(config.map, MapId::Dust2);
}

#[test]
fn pages_and_tabs() {
    assert_eq!(MenuTab::default(), MenuTab::Home);
    assert!(page_shown(GameState::MainMenu, MenuTab::Play, MenuTab::Play));
    assert!(!page_shown(GameState::MainMenu, MenuTab::Play, MenuTab::Home));
    assert!(!page_shown(GameState::Playing, MenuTab::Play, MenuTab::Play));
    assert!(nav_bar_shown(GameState::MainMenu));
    assert!(!nav_bar_shown(GameState::Paused));
    assert_eq!(nav_target(MenuTab::Home, MenuTab::Settings), Some(MenuTab::Settings));
    assert_eq!(nav_target(MenuTab::Home, MenuTab::Home), None);
}

#[test]
fn pause_dialog_buttons() {
    let mut confirmation = ExitConfirmation::default();
    assert_eq!(
        press_dialog(GameState::Paused, &mut confirmation, DialogAction::Resume),
        DialogOutcome::Enter(GameState::Playing)
    );
    assert_eq!(
        press_dialog(GameState::Paused, &mut confirmation, DialogAction::MainMenu),
        DialogOutcome::Enter(GameState::MainMenu)
    );
    assert_eq!(press_dialog(GameState::Paused, &mut confirmation, DialogAction::ConfirmExit), DialogOutcome::Stay);
    assert_eq!(press_dialog(GameState::Paused, &mut confirmation, DialogAction::RequestExit), DialogOutcome::Stay);
    assert!(confirmation.open);
    // While the confirmation is open the pause buttons do nothing.
    assert_eq!(press_dialog(GameState::Paused, &mut confirmation, DialogAction::Resume), DialogOutcome::Stay);
    assert_eq!(press_dialog(GameState::Paused, &mut confirmation, DialogAction::CancelExit), DialogOutcome::Stay);
    assert!(!confirmation.open);
    press_quit_icon(&mut confirmation);
    assert_eq!(press_dialog(GameState::MainMenu, &mut confirmation, DialogAction::ConfirmExit), DialogOutcome::Quit);
    // Outside the pause, without a confirmation, nothing happens.
    let mut closed = ExitConfirmation::default();
    assert_eq!(press_dialog(GameState::Playing, &mut closed, DialogAction::Resume), DialogOutcome::Stay);
    assert_eq!(press_dialog(GameState::MainMenu, &mut closed, DialogAction::RequestExit), DialogOutcome::Stay);
    assert!(!closed.open);
}

#[test]
fn pause_dialog_visibility_and_looks() {
    let open = ExitConfirmation { open: true };
    let closed = ExitConfirmation::default();
    assert!(pause_dialog_shown(GameState::Paused, closed));
    assert!(pause_dialog_shown(GameState::MainMenu, open));
    assert!(!pause_dialog_shown(GameState::MainMenu, closed));
    assert!(!pause_dialog_shown(GameState::Playing, open));
    assert!(dialog_page_shown(true, open));
    assert!(!dialog_page_shown(false, open));
    assert!(dialog_page_shown(false, closed));
    assert_eq!(DialogAction::Resume.caption(), ("Resume", "ESC"));
    assert_eq!(DialogAction::ConfirmExit.caption(), ("Exit Game", ""));
    assert_eq!(dialog_fill(DialogAction::MainMenu, Pointer::Pressed), Fill::Pressed);
    assert_eq!(dialog_fill(DialogAction::ConfirmExit, Pointer::Hovered), Fill::HoveredDanger);
    assert_eq!(dialog_fill(DialogAction::Resume, Pointer::Idle), Fill::Highlight);
    assert_eq!(dialog_fill(DialogAction::ConfirmExit, Pointer::Idle), Fill::Danger);
    assert_eq!(dialog_fill(DialogAction::MainMenu, Pointer::Idle), Fill::Faint);
    assert_eq!(dialog_outline(DialogAction::Resume, Pointer::Idle), Outline::Accent);
    assert_eq!(dialog_outline(DialogAction::MainMenu, Pointer::Idle), Outline::Plain);
    assert_eq!(dialog_outline(DialogAction::ConfirmExit, Pointer::Hovered), Outline::Danger);
}

#[test]
fn escape_and_enter() {
    let mut confirmation = ExitConfirmation::default();
    assert_eq!(frame_keys(GameState::Playing, keys(true, false, false), &mut confirmation), Some(GameState::Paused));
    assert_eq!(frame_keys(GameState::Paused, keys(true, false, false), &mut confirmation), Some(GameState::Playing));
    assert_eq!(frame_keys(GameState::Finished, keys(true, false, false), &mut confirmation), Some(GameState::MainMenu));
    assert_eq!(frame_keys(GameState::MainMenu, keys(true, false, false), &mut confirmation), None);
    assert_eq!(frame_keys(GameState::LoadFailed, keys(false, true, false), &mut confirmation), Some(GameState::Loading));
    assert_eq!(frame_keys(GameState::Playing, keys(false, true, false), &mut confirmation), None);
    assert_eq!(frame_keys(GameState::Playing, keys(false, false, true), &mut confirmation), Some(GameState::Paused));
    let capture = FrameKeys { escape: false, enter: false, unfocused: true, capturing: true };
    assert_eq!(frame_keys(GameState::Playing, capture, &mut confirmation), None);
    // Escape first closes an open confirmation.
    confirmation.open = true;
    assert_eq!(frame_keys(GameState::Paused, keys(true, false, false), &mut confirmation), None);
    assert!(!confirmation.open);
    assert!(cursor_locked(GameState::Playing, true));
    assert!(!cursor_locked(GameState::Playing, false));
    assert!(!cursor_locked(GameState::Paused, true));
}

#[test]
fn inventory_filter_counts() {
    let cards = inventory_cards(&SkinId::all());
    let weapons = WeaponId::all().len();
    assert_eq!(cards.len(), weapons + 2 + 5);
    assert_eq!(cards[0], InventoryCard::Item(InventoryItem::Weapon(WeaponId::Glock18)));
    assert_eq!(cards[weapons], InventoryCard::Item(InventoryItem::Character(SkinId::Soldier)));
    assert_eq!(cards[weapons + 2], InventoryCard::Grenade(0));
    assert_eq!(item_count_text(&cards, InventoryCategory::Everything), format!("{} items", weapons + 7));
    assert_eq!(item_count_text(&cards, InventoryCategory::Weapons), format!("{} items", weapons));
    assert_eq!(item_count_text(&cards, InventoryCategory::Characters), "2 items");
    assert_eq!(item_count_text(&cards, InventoryCategory::Grenades), "5 items");
    assert_eq!(item_count_text(&Vec::new(), InventoryCategory::Everything), "0 items");
    assert!(card_shown(InventoryCategory::Everything, InventoryCard::Grenade(1)));
    assert!(!card_shown(InventoryCategory::Weapons, InventoryCard::Grenade(1)));
    assert_eq!(grenade_name(0), PRESET_GRENADES[0]);
    assert_eq!(InventoryCategory::Characters.title(), "CHARACTERS");
    assert_eq!(InventoryCategory::default(), InventoryCategory::Everything);
    assert_eq!(character_preview(SkinId::Police), "generated/ui/defender_portrait.png");
}

#[test]
fn inventory_tabs_and_equipped() {
    let mut selected = InventoryCategory::default();
    assert!(pick_category(&mut selected, InventoryCategory::Weapons));
    assert_eq!(selected, InventoryCategory::Weapons);
    assert!(!pick_category(&mut selected, InventoryCategory::Weapons));
    let loadout = PlayerLoadout::default();
    assert_eq!(item_status(&loadout, InventoryItem::Weapon(WeaponId::AK47)), "Equipped");
    assert_eq!(item_status(&loadout, InventoryItem::Weapon(WeaponId::DefaultKnife)), "Equipped");
    assert_eq!(item_status(&loadout, InventoryItem::Weapon(WeaponId::Awp)), "Available");
    assert_eq!(item_status(&loadout, InventoryItem::Character(SkinId::Soldier)), "Equipped");
    assert_eq!(item_status(&loadout, InventoryItem::Character(SkinId::Police)), "Available");
}

#[test]
fn play_page_starts_once() {
    let mut config = GameConfig::default();
    config.map = MapId::Mirage;
    let mut starting = false;
    assert!(!press_play_page(&mut config, &mut starting, false, true));
    assert!(!starting);
    assert!(press_play_page(&mut config, &mut starting, true, true));
    assert_eq!(config.map, MapId::Dust2);
    assert!(starting);
    assert!(!press_play_page(&mut config, &mut starting, false, true));
}
