//! Menu navigation: tabs, the quick-play option, the pause dialog with its exit
//! confirmation, what Escape and Enter do, and the inventory filter.
use vstd::prelude::*;
use crate::config::{all_weapons, GameConfig, GameMode, MapId, PlayerLoadout, WeaponId, PRESET_GRENADES};
use crate::game::GameState;
use crate::skins::SkinId;
use crate::text::{decimal, spec_decimal};

verus! {

/// The pages of the main menu.
#[derive(Clone, Copy, PartialEq, Eq, Debug, Hash, Structural)]
pub enum MenuTab {
    Home,
    Inventory,
    Play,
    LoadOut,
    Settings,
}

impl Default for MenuTab {
    fn default() -> (r: Self)
        ensures
            r == MenuTab::Home,
    {
        MenuTab::Home
    }
}

/// The public local-play option; the game configuration alone owns the selection.
pub struct LocalMatchOption;

impl LocalMatchOption {
    pub const LABEL: &'static str = "Deathmatch";

    pub fn select(config: &mut GameConfig)
        ensures
            final(config).mode == GameMode::TeamDeathmatch,
            final(config).map == MapId::Dust2,
            final(config).match_settings == old(config).match_settings,
            final(config).bot_difficulty == old(config).bot_difficulty,
    {
        config.mode = GameMode::TeamDeathmatch;
        config.map = MapId::Dust2;
    }

    pub fn selected(config: &GameConfig) -> (r: bool)
        ensures
            r == (config.mode == GameMode::TeamDeathmatch && config.map == MapId::Dust2),
    {
        config.mode == GameMode::TeamDeathmatch && config.map == MapId::Dust2
    }
}

/// Entering the main menu selects the local-play option and opens the home page.
pub fn reset_menu(config: &mut GameConfig) -> (r: MenuTab)
    ensures
        r == MenuTab::Home,
        final(config).mode == GameMode::TeamDeathmatch,
        final(config).map == MapId::Dust2,
        final(config).match_settings == old(config).match_settings,
        final(config).bot_difficulty == old(config).bot_difficulty,
{
    LocalMatchOption::select(config);
    MenuTab::Home
}

/// A page shows only in the main menu, and only while its tab is open.
pub fn page_shown(state: GameState, open: MenuTab, page: MenuTab) -> (r: bool)
    ensures
        r == (state == GameState::MainMenu && page == open),
{
    state == GameState::MainMenu && page == open
}

/// The navigation bar shows only in the main menu.
pub fn nav_bar_shown(state: GameState) -> (r: bool)
    ensures
        r == (state == GameState::MainMenu),
{
    state == GameState::MainMenu
}

/// Pressing a tab button switches to that tab unless it is already open.
pub fn nav_target(open: MenuTab, pressed: MenuTab) -> (r: Option<MenuTab>)
    ensures
        r == (if pressed == open { None } else { Some(pressed) }),
{
    if pressed == open {
        None
    } else {
        Some(pressed)
    }
}

/// Whether leaving the game waits for confirmation; shared by the shutdown icon and
/// the pause menu. Only an explicit confirmation exits.
#[derive(Clone, Copy, PartialEq, Eq, Debug, Structural)]
pub struct ExitConfirmation {
    pub open: bool,
}

impl Default for ExitConfirmation {
    fn default() -> (r: Self)
        ensures
            !r.open,
    {
        ExitConfirmation { open: false }
    }
}

/// The buttons of the pause dialog and of the exit confirmation.
#[derive(Clone, Copy, PartialEq, Eq, Debug, Structural)]
pub enum DialogAction {
    Resume,
    MainMenu,
    RequestExit,
    CancelExit,
    ConfirmExit,
}

impl DialogAction {
    pub open spec fn spec_primary(self) -> bool {
        self == DialogAction::Resume || self == DialogAction::CancelExit
    }

    pub fn primary(self) -> (r: bool)
        ensures
            r == self.spec_primary(),
    {
        matches!(self, DialogAction::Resume | DialogAction::CancelExit)
    }

    pub open spec fn spec_destructive(self) -> bool {
        self == DialogAction::ConfirmExit
    }

    pub fn destructive(self) -> (r: bool)
        ensures
            r == self.spec_destructive(),
    {
        matches!(self, DialogAction::ConfirmExit)
    }

    /// The button's caption and its key hint (empty when it has none).
    pub fn caption(self) -> (r: (&'static str, &'static str))
        ensures
            r.0@ == match self {
                DialogAction::Resume => "Resume"@,
                DialogAction::MainMenu => "Main Menu"@,
                DialogAction::RequestExit => "Exit Game"@,
                DialogAction::CancelExit => "Cancel"@,
                DialogAction::ConfirmExit => "Exit Game"@,
            },
            r.1@ == (if self == DialogAction::Resume || self == DialogAction::CancelExit {
                "ESC"@
            } else {
                ""@
            }),
    {
        match self {
            DialogAction::Resume => ("Resume", "ESC"),
            DialogAction::MainMenu => ("Main Menu", ""),
            DialogAction::RequestExit => ("Exit Game", ""),
            DialogAction::CancelExit => ("Cancel", "ESC"),
            DialogAction::ConfirmExit => ("Exit Game", ""),
        }
    }
}

/// What the pointer is doing over a button.
#[derive(Clone, Copy, PartialEq, Eq, Debug, Structural)]
pub enum Pointer {
    Idle,
    Hovered,
    Pressed,
}

/// How a dialog button is filled.
#[derive(Clone, Copy, PartialEq, Eq, Debug, Structural)]
pub enum Fill {
    Pressed,
    HoveredDanger,
    Highlight,
    Danger,
    Faint,
}

/// How a dialog button is outlined.
#[derive(Clone, Copy, PartialEq, Eq, Debug, Structural)]
pub enum Outline {
    Plain,
    Accent,
    Danger,
}

pub fn dialog_fill(action: DialogAction, pointer: Pointer) -> (r: Fill)
    ensures
        r == (if pointer == Pointer::Pressed {
            Fill::Pressed
        } else if pointer == Pointer::Hovered {
            if action.spec_destructive() {
                Fill::HoveredDanger
            } else {
                Fill::Highlight
            }
        } else if action.spec_primary() {
            Fill::Highlight
        } else if action.spec_destructive() {
            Fill::Danger
        } else {
            Fill::Faint
        }),
{
    match pointer {
        Pointer::Pressed => Fill::Pressed,
        Pointer::Hovered => if action.destructive() {
            Fill::HoveredDanger
        } else {
            Fill::Highlight
        },
        Pointer::Idle => if action.primary() {
            Fill::Highlight
        } else if action.destructive() {
            Fill::Danger
        } else {
            Fill::Faint
        },
    }
}

/// Primary buttons, and any button under the pointer, are outlined; the exit
/// confirmation in the danger colour.
pub fn dialog_outline(action: DialogAction, pointer: Pointer) -> (r: Outline)
    ensures
        r == (if action.spec_primary() || pointer != Pointer::Idle {
            if action.spec_destructive() {
                Outline::Danger
            } else {
                Outline::Accent
            }
        } else {
            Outline::Plain
        }),
{
    if action.primary() || pointer != Pointer::Idle {
        if action.destructive() {
            Outline::Danger
        } else {
            Outline::Accent
        }
    } else {
        Outline::Plain
    }
}

/// The pause dialog shows while paused, and in the main menu while an exit waits
/// for confirmation.
pub fn pause_dialog_shown(state: GameState, confirmation: ExitConfirmation) -> (r: bool)
    ensures
        r == (state == GameState::Paused || (state == GameState::MainMenu && confirmation.open)),
{
    state == GameState::Paused || (state == GameState::MainMenu && confirmation.open)
}

/// Of the dialog's two pages, the confirmation page shows exactly while an exit
/// waits for confirmation.
pub fn dialog_page_shown(confirmation_page: bool, confirmation: ExitConfirmation) -> (r: bool)
    ensures
        r == (confirmation_page == confirmation.open),
{
    confirmation_page == confirmation.open
}

/// What a pressed dialog button leads to.
#[derive(Clone, Copy, PartialEq, Eq, Debug, Structural)]
pub enum DialogOutcome {
    Stay,
    Enter(GameState),
    Quit,
}

/// The outcome of a pressed dialog button and whether the confirmation is open
/// afterwards. The confirmation buttons act only while it is open; the pause
/// buttons only while paused with no confirmation open.
pub open spec fn spec_press_dialog(state: GameState, open: bool, action: DialogAction) -> (DialogOutcome, bool) {
    if action == DialogAction::CancelExit && open {
        (DialogOutcome::Stay, false)
    } else if action == DialogAction::ConfirmExit && open {
        (DialogOutcome::Quit, open)
    } else if state != GameState::Paused || open {
        (DialogOutcome::Stay, open)
    } else {
        match action {
            DialogAction::Resume => (DialogOutcome::Enter(GameState::Playing), open),
            DialogAction::MainMenu => (DialogOutcome::Enter(GameState::MainMenu), open),
            DialogAction::RequestExit => (DialogOutcome::Stay, true),
            _ => (DialogOutcome::Stay, open),
        }
    }
}

pub fn press_dialog(state: GameState, confirmation: &mut ExitConfirmation, action: DialogAction) -> (r: DialogOutcome)
    ensures
        (r, final(confirmation).open) == spec_press_dialog(state, old(confirmation).open, action),
{
    match action {
        DialogAction::CancelExit if confirmation.open => {
            confirmation.open = false;
            DialogOutcome::Stay
        },
        DialogAction::ConfirmExit if confirmation.open => DialogOutcome::Quit,
        _ if state != GameState::Paused || confirmation.open => DialogOutcome::Stay,
        DialogAction::Resume => DialogOutcome::Enter(GameState::Playing),
        DialogAction::MainMenu => DialogOutcome::Enter(GameState::MainMenu),
        DialogAction::RequestExit => {
            confirmation.open = true;
            DialogOutcome::Stay
        },
        _ => DialogOutcome::Stay,
    }
}

/// The shutdown icon asks for confirmation.
pub fn press_quit_icon(confirmation: &mut ExitConfirmation)
    ensures
        final(confirmation).open,
{
    confirmation.open = true;
}

/// The keys and the window focus of one frame.
#[derive(Clone, Copy, PartialEq, Eq, Debug, Structural)]
pub struct FrameKeys {
    pub escape: bool,
    pub enter: bool,
    /// The window lost focus.
    pub unfocused: bool,
    /// A native capture is running, which keeps playing without focus.
    pub capturing: bool,
}

/// The state requested by the keys of one frame, and whether the confirmation is
/// open afterwards. Losing focus pauses a match; Escape first closes an open exit
/// confirmation, else toggles the pause and leaves loading, failure and result
/// screens for the menu; Enter retries a failed load or plays again. A later rule
/// overrides an earlier one.
pub open spec fn spec_frame_keys(state: GameState, keys: FrameKeys, open: bool) -> (Option<GameState>, bool) {
    let focus = if state == GameState::Playing && keys.unfocused && !keys.capturing {
        Some(GameState::Paused)
    } else {
        None
    };
    if keys.escape && open {
        (focus, false)
    } else {
        let escape = if !keys.escape {
            focus
        } else {
            match state {
                GameState::Playing => Some(GameState::Paused),
                GameState::Paused => Some(GameState::Playing),
                GameState::Loading | GameState::LoadFailed | GameState::Finished => Some(GameState::MainMenu),
                _ => focus,
            }
        };
        let enter = if keys.enter && (state == GameState::LoadFailed || state == GameState::Finished) {
            Some(GameState::Loading)
        } else {
            escape
        };
        (enter, open)
    }
}

pub fn frame_keys(state: GameState, keys: FrameKeys, confirmation: &mut ExitConfirmation) -> (r: Option<GameState>)
    ensures
        (r, final(confirmation).open) == spec_frame_keys(state, keys, old(confirmation).open),
{
    let mut next: Option<GameState> = None;
    if state == GameState::Playing && keys.unfocused && !keys.capturing {
        next = Some(GameState::Paused);
    }
    if keys.escape {
        if confirmation.open {
            confirmation.open = false;
            return next;
        }
        match state {
            GameState::Playing => next = Some(GameState::Paused),
            GameState::Paused => next = Some(GameState::Playing),
            GameState::Loading | GameState::LoadFailed | GameState::Finished => next = Some(GameState::MainMenu),
            _ => {},
        }
    }
    if keys.enter && (state == GameState::LoadFailed || state == GameState::Finished) {
        next = Some(GameState::Loading);
    }
    next
}

/// The cursor is captured only while playing in a focused window.
pub fn cursor_locked(state: GameState, focused: bool) -> (r: bool)
    ensures
        r == (state == GameState::Playing && focused),
{
    state == GameState::Playing && focused
}

/// The filter tabs of the inventory page.
#[derive(Clone, Copy, PartialEq, Eq, Debug, Structural)]
pub enum InventoryCategory {
    Everything,
    Weapons,
    Characters,
    Grenades,
}

impl Default for InventoryCategory {
    fn default() -> (r: Self)
        ensures
            r == InventoryCategory::Everything,
    {
        InventoryCategory::Everything
    }
}

impl InventoryCategory {
    pub const ALL: [InventoryCategory; 4] = [
        InventoryCategory::Everything,
        InventoryCategory::Weapons,
        InventoryCategory::Characters,
        InventoryCategory::Grenades,
    ];

    pub fn title(self) -> (r: &'static str)
        ensures
            r@ == match self {
                InventoryCategory::Everything => "EVERYTHING"@,
                InventoryCategory::Weapons => "WEAPONS"@,
                InventoryCategory::Characters => "CHARACTERS"@,
                InventoryCategory::Grenades => "GRENADES"@,
            },
    {
        match self {
            InventoryCategory::Everything => "EVERYTHING",
            InventoryCategory::Weapons => "WEAPONS",
            InventoryCategory::Characters => "CHARACTERS",
            InventoryCategory::Grenades => "GRENADES",
        }
    }
}

/// An item that can be equipped.
#[derive(Clone, Copy, PartialEq, Eq, Debug, Structural)]
pub enum InventoryItem {
    Weapon(WeaponId),
    Character(SkinId),
}

/// A card of the inventory page: an item, or a preset grenade by its place in
/// `PRESET_GRENADES`.
#[derive(Clone, Copy, PartialEq, Eq, Debug, Structural)]
pub enum InventoryCard {
    Item(InventoryItem),
    Grenade(usize),
}

impl InventoryCard {
    pub open spec fn spec_category(self) -> InventoryCategory {
        match self {
            InventoryCard::Item(InventoryItem::Weapon(_)) => InventoryCategory::Weapons,
            InventoryCard::Item(InventoryItem::Character(_)) => InventoryCategory::Characters,
            InventoryCard::Grenade(_) => InventoryCategory::Grenades,
        }
    }

    pub fn category(self) -> (r: InventoryCategory)
        ensures
            r == self.spec_category(),
    {
        match self {
            InventoryCard::Item(InventoryItem::Weapon(_)) => InventoryCategory::Weapons,
            InventoryCard::Item(InventoryItem::Character(_)) => InventoryCategory::Characters,
            InventoryCard::Grenade(_) => InventoryCategory::Grenades,
        }
    }
}

pub open spec fn weapon_card(w: WeaponId) -> InventoryCard {
    InventoryCard::Item(InventoryItem::Weapon(w))
}

pub open spec fn character_card(s: SkinId) -> InventoryCard {
    InventoryCard::Item(InventoryItem::Character(s))
}

/// The cards of the inventory page, in order: every weapon, every character skin
/// given, then the preset grenades.
pub open spec fn spec_inventory_cards(skins: Seq<SkinId>) -> Seq<InventoryCard> {
    all_weapons().map_values(|w: WeaponId| weapon_card(w)) + skins.map_values(|s: SkinId| character_card(s))
        + seq![
        InventoryCard::Grenade(0),
        InventoryCard::Grenade(1),
        InventoryCard::Grenade(2),
        InventoryCard::Grenade(3),
        InventoryCard::Grenade(4),
    ]
}

pub fn inventory_cards(skins: &Vec<SkinId>) -> (r: Vec<InventoryCard>)
    ensures
        r@ == spec_inventory_cards(skins@),
{
    let weapons = WeaponId::all();
    let mut r: Vec<InventoryCard> = Vec::new();
    let mut i: usize = 0;
    while i < weapons.len()
        invariant
            i <= weapons@.len(),
            weapons@ == all_weapons(),
            r@ == weapons@.subrange(0, i as int).map_values(|w: WeaponId| weapon_card(w)),
        decreases weapons@.len() - i,
    {
        r.push(InventoryCard::Item(InventoryItem::Weapon(weapons[i])));
        i += 1;
        assert(r@ =~= weapons@.subrange(0, i as int).map_values(|w: WeaponId| weapon_card(w)));
    }
    assert(weapons@.subrange(0, i as int) =~= weapons@);
    let ghost base = r@;
    let mut j: usize = 0;
    while j < skins.len()
        invariant
            j <= skins@.len(),
            r@ == base + skins@.subrange(0, j as int).map_values(|s: SkinId| character_card(s)),
        decreases skins@.len() - j,
    {
        r.push(InventoryCard::Item(InventoryItem::Character(skins[j])));
        j += 1;
        assert(r@ =~= base + skins@.subrange(0, j as int).map_values(|s: SkinId| character_card(s)));
    }
    assert(skins@.subrange(0, j as int) =~= skins@);
    let mut g: usize = 0;
    while g < 5
        invariant
            g <= 5,
            r@ == base + skins@.map_values(|s: SkinId| character_card(s)) + Seq::new(
                g as nat,
                |k: int| InventoryCard::Grenade(k as usize),
            ),
        decreases 5 - g,
    {
        r.push(InventoryCard::Grenade(g));
        g += 1;
        assert(r@ =~= base + skins@.map_values(|s: SkinId| character_card(s)) + Seq::new(
            g as nat,
            |k: int| InventoryCard::Grenade(k as usize),
        ));
    }
    assert(Seq::new(5, |k: int| InventoryCard::Grenade(k as usize)) =~= seq![
        InventoryCard::Grenade(0),
        InventoryCard::Grenade(1),
        InventoryCard::Grenade(2),
        InventoryCard::Grenade(3),
        InventoryCard::Grenade(4),
    ]);
    r
}

/// The name on a grenade card.
pub fn grenade_name(index: usize) -> (r: &'static str)
    requires
        index < 5,
    ensures
        r == PRESET_GRENADES[index as int],
{
    PRESET_GRENADES[index]
}

/// The picture on a character card.
pub fn character_preview(skin: SkinId) -> (r: &'static str)
    ensures
        r@ == match skin {
            SkinId::Soldier => "generated/ui/attacker_portrait.png"@,
            SkinId::Police => "generated/ui/defender_portrait.png"@,
        },
{
    match skin {
        SkinId::Soldier => "generated/ui/attacker_portrait.png",
        SkinId::Police => "generated/ui/defender_portrait.png",
    }
}

/// A card shows under "everything" and under its own category.
pub open spec fn spec_card_shown(selected: InventoryCategory, card: InventoryCard) -> bool {
    selected == InventoryCategory::Everything || selected == card.spec_category()
}

pub fn card_shown(selected: InventoryCategory, card: InventoryCard) -> (r: bool)
    ensures
        r == spec_card_shown(selected, card),
{
    selected == InventoryCategory::Everything || selected == card.category()
}

/// How many of the cards show under a filter.
pub open spec fn shown_count(cards: Seq<InventoryCard>, selected: InventoryCategory) -> nat
    decreases cards.len(),
{
    if cards.len() == 0 {
        0
    } else {
        shown_count(cards.drop_last(), selected) + if spec_card_shown(selected, cards.last()) {
            1nat
        } else {
            0nat
        }
    }
}

/// The count line above the cards, such as `41 items`.
pub fn item_count_text(cards: &Vec<InventoryCard>, selected: InventoryCategory) -> (r: String)
    ensures
        r@ == spec_decimal(shown_count(cards@, selected)) + " items"@,
{
    let mut count: u64 = 0;
    let mut i: usize = 0;
    while i < cards.len()
        invariant
            i <= cards@.len(),
            count == shown_count(cards@.subrange(0, i as int), selected),
            count <= i,
        decreases cards@.len() - i,
    {
        assert(cards@.subrange(0, i as int + 1).drop_last() =~= cards@.subrange(0, i as int));
        if card_shown(selected, cards[i]) {
            count += 1;
        }
        i += 1;
    }
    assert(cards@.subrange(0, i as int) =~= cards@);
    let mut r = decimal(count);
    r.append(" items");
    r
}

/// Pressing a filter tab selects it; the cards scroll back to the top when the
/// filter changes.
pub fn pick_category(selected: &mut InventoryCategory, pressed: InventoryCategory) -> (scroll_to_top: bool)
    ensures
        *final(selected) == pressed,
        scroll_to_top == (*old(selected) != pressed),
{
    let changed = *selected != pressed;
    *selected = pressed;
    changed
}

/// An item is equipped when it is the held weapon, the knife or the skin worn.
pub open spec fn spec_equipped(loadout: PlayerLoadout, item: InventoryItem) -> bool {
    match item {
        InventoryItem::Weapon(w) => w == loadout.primary_weapon || w == loadout.melee_weapon,
        InventoryItem::Character(s) => s == loadout.selected_skin,
    }
}

/// The status line of an item card.
pub fn item_status(loadout: &PlayerLoadout, item: InventoryItem) -> (r: &'static str)
    ensures
        r@ == (if spec_equipped(*loadout, item) {
            "Equipped"@
        } else {
            "Available"@
        }),
{
    let equipped = match item {
        InventoryItem::Weapon(w) => w == loadout.primary_weapon || w == loadout.melee_weapon,
        InventoryItem::Character(s) => s == loadout.selected_skin,
    };
    if equipped {
        "Equipped"
    } else {
        "Available"
    }
}

/// The play page: pressing the map card selects the local match, and the start
/// button starts it, once, while it is selected. `true` means loading begins.
pub fn press_play_page(config: &mut GameConfig, starting: &mut bool, card_pressed: bool, start_pressed: bool) -> (r:
    bool)
    ensures
        card_pressed ==> final(config).mode == GameMode::TeamDeathmatch && final(config).map == MapId::Dust2,
        !card_pressed ==> final(config).mode == old(config).mode && final(config).map == old(config).map,
        final(config).match_settings == old(config).match_settings,
        final(config).bot_difficulty == old(config).bot_difficulty,
        r == (!*old(starting) && start_pressed && final(config).mode == GameMode::TeamDeathmatch
            && final(config).map == MapId::Dust2),
        *final(starting) == (*old(starting) || r),
{
    if card_pressed {
        LocalMatchOption::select(config);
    }
    if !*starting && LocalMatchOption::selected(config) && start_pressed {
        *starting = true;
        true
    } else {
        false
    }
}


/// Only an explicit confirmation exits: a dialog button quits only when it is the
/// confirmation button and the confirmation is open.
pub proof fn lemma_only_confirmation_exits(state: GameState, open: bool, action: DialogAction)
    ensures
        spec_press_dialog(state, open, action).0 == DialogOutcome::Quit ==> action == DialogAction::ConfirmExit
            && open,
{
}

/// With no exit waiting for confirmation, Escape toggles the pause: from a match
/// it pauses, from the pause it resumes, and pressing it again returns to where it
/// started.
pub proof fn lemma_escape_toggles_pause(state: GameState, keys: FrameKeys)
    requires
        keys.escape,
        state == GameState::Playing || state == GameState::Paused,
    ensures
        spec_frame_keys(state, keys, false) == (
            Some(if state == GameState::Playing { GameState::Paused } else { GameState::Playing }),
            false,
        ),
        spec_frame_keys(spec_frame_keys(state, keys, false).0->Some_0, keys, false).0 == Some(state),
{
}

/// The filters split the cards: "everything" shows each card, and every card
/// shows under exactly one of the other filters.
pub proof fn lemma_filters_partition(cards: Seq<InventoryCard>)
    ensures
        shown_count(cards, InventoryCategory::Everything) == cards.len(),
        shown_count(cards, InventoryCategory::Weapons) + shown_count(cards, InventoryCategory::Characters)
            + shown_count(cards, InventoryCategory::Grenades) == cards.len(),
    decreases cards.len(),
{
    if cards.len() > 0 {
        lemma_filters_partition(cards.drop_last());
    }
}

} // verus!
