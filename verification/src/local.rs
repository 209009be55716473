//! What the client stores between runs: the player's loadout, in a form that
//! survives changes to the weapon catalogue, and how it is read back.
use vstd::prelude::*;
use crate::config::{
    first_some, placed, slots_valid, weapon_from_key, BuyCategory, PlayerLoadout, SideBuyLoadout,
    WeaponId, BUY_SLOT_COUNT,
};
use crate::skins::{lemma_skin_key_injective, PlayerSide, SkinId};
use crate::text::str_eq;

verus! {

pub const KEY_HUB: &'static str = "hub";

pub const KEY_SETTINGS: &'static str = "settings";

pub const KEY_LOADOUT: &'static str = "loadout";

/// Saves written before this version hold the former sparse buy preset.
pub const BUY_DEFAULTS_VERSION: u32 = 1;

/// One side's buy slots as stored: weapon keys, `None` for an empty slot.
pub struct StoredBuySide {
    pub pistols: Vec<Option<String>>,
    pub mid_tier: Vec<Option<String>>,
    pub rifles: Vec<Option<String>>,
}

pub struct StoredBuy {
    pub attacker: StoredBuySide,
    pub defender: StoredBuySide,
}

/// The stored loadout.
pub struct StoredLoadout {
    pub buy_defaults_version: u32,
    pub primary_weapon: String,
    pub melee_weapon: String,
    pub selected_skin: String,
    pub buy_weapons: StoredBuy,
}

pub open spec fn key_view(k: Option<String>) -> Option<Seq<char>> {
    match k {
        Some(s) => Some(s@),
        None => None,
    }
}

pub open spec fn keys_view(keys: Seq<Option<String>>) -> Seq<Option<Seq<char>>> {
    keys.map_values(|k: Option<String>| key_view(k))
}

/// The stored form of some slots: the key of each weapon.
pub open spec fn encoded(slots: Seq<Option<WeaponId>>) -> Seq<Option<Seq<char>>> {
    slots.map_values(
        |w: Option<WeaponId>|
            match w {
                Some(w) => Some(w.spec_key()),
                None => None,
            },
    )
}

pub fn encode_slots(slots: &[Option<WeaponId>; 5]) -> (r: Vec<Option<String>>)
    ensures
        keys_view(r@) == encoded(slots@),
{
    let mut out: Vec<Option<String>> = Vec::new();
    let mut i: usize = 0;
    while i < 5
        invariant
            i <= 5,
            slots@.len() == 5,
            out@.len() == i,
            forall|k: int| 0 <= k < i ==> key_view(#[trigger] out@[k]) == encoded(slots@)[k],
        decreases 5 - i,
    {
        let entry = match slots[i] {
            Some(w) => Some(String::from_str(w.key())),
            None => None,
        };
        out.push(entry);
        i += 1;
    }
    assert(keys_view(out@) =~= encoded(slots@));
    out
}

pub fn encode_side(side: &SideBuyLoadout) -> (r: StoredBuySide)
    ensures
        keys_view(r.pistols@) == encoded(side.spec_slots(BuyCategory::Pistols)),
        keys_view(r.mid_tier@) == encoded(side.spec_slots(BuyCategory::MidTier)),
        keys_view(r.rifles@) == encoded(side.spec_slots(BuyCategory::Rifles)),
{
    StoredBuySide {
        pistols: encode_slots(side.slots(BuyCategory::Pistols)),
        mid_tier: encode_slots(side.slots(BuyCategory::MidTier)),
        rifles: encode_slots(side.slots(BuyCategory::Rifles)),
    }
}

/// The weapon a stored key names, if any.
pub open spec fn decode_key(key: Option<Seq<char>>) -> Option<WeaponId> {
    match key {
        Some(k) => weapon_from_key(k),
        None => None,
    }
}

/// Whether `serde_json` reads a text as a JSON value.
pub uninterp spec fn parses_as_json(text: Seq<char>) -> bool;

/// Checks that a text is JSON: `serde_json::from_str::<serde_json::Value>`
/// succeeds on it. Whether it does is a function of the text, named
/// `parses_as_json`; the JSON grammar is not restated here.
#[verifier::external_body]
fn json_parses(text: &str) -> (r: bool)
    ensures
        r == parses_as_json(text@),
{
    serde_json::from_str::<serde_json::Value>(text).is_ok()
}

/// What the store imports from the older hub address file: nothing when it
/// already holds a hub entry or there is no file, otherwise the file's text when
/// it is JSON.
pub fn hub_import(has_entry: bool, file_text: Option<&str>) -> (r: Option<String>)
    ensures
        match r {
            Some(t) => !has_entry && (file_text matches Some(f) && t@ == f@ && parses_as_json(f@)),
            None => has_entry || file_text is None || !parses_as_json(file_text->Some_0@),
        },
{
    if has_entry {
        return None;
    }
    match file_text {
        Some(text) => if json_parses(text) {
            Some(String::from_str(text))
        } else {
            None
        },
        None => None,
    }
}

/// Whether placing `weapon` in a slot of `category` is allowed for `side`.
pub open spec fn placeable(category: BuyCategory, weapon: Option<WeaponId>, side: PlayerSide) -> bool {
    match weapon {
        Some(w) => category.spec_accepts_for(w, side),
        None => true,
    }
}

/// Slots after placing the first `k` stored keys, one slot each, in order; keys
/// that name no weapon clear their slot, weapons the category or side refuses are
/// skipped.
pub open spec fn apply_keys(
    slots: Seq<Option<WeaponId>>,
    keys: Seq<Option<Seq<char>>>,
    category: BuyCategory,
    side: PlayerSide,
    k: int,
) -> Seq<Option<WeaponId>>
    decreases k,
{
    if k <= 0 {
        slots
    } else {
        let prev = apply_keys(slots, keys, category, side, k - 1);
        let w = decode_key(keys[k - 1]);
        if placeable(category, w, side) {
            placed(prev, k - 1, w)
        } else {
            prev
        }
    }
}

pub open spec fn empty_slots() -> Seq<Option<WeaponId>> {
    seq![None::<WeaponId>, None, None, None, None]
}

/// Number of stored keys that are read: at most one per slot.
pub open spec fn read_count(keys: Seq<Option<Seq<char>>>) -> int {
    if keys.len() < BUY_SLOT_COUNT {
        keys.len() as int
    } else {
        BUY_SLOT_COUNT as int
    }
}

/// Fills the slots of `category` from stored keys, one slot per key.
pub fn apply_slots(
    side: &mut SideBuyLoadout,
    category: BuyCategory,
    keys: &Vec<Option<String>>,
    player_side: PlayerSide,
)
    ensures
        final(side).spec_slots(category) == apply_keys(
            old(side).spec_slots(category),
            keys_view(keys@),
            category,
            player_side,
            read_count(keys_view(keys@)),
        ),
        forall|c: BuyCategory| c != category ==> final(side).spec_slots(c) == old(side).spec_slots(c),
{
    let ghost start = side.spec_slots(category);
    let ghost kv = keys_view(keys@);
    let n: usize = if keys.len() < BUY_SLOT_COUNT {
        keys.len()
    } else {
        BUY_SLOT_COUNT
    };
    let mut i: usize = 0;
    while i < n
        invariant
            n as int == read_count(kv),
            kv == keys_view(keys@),
            i <= n,
            n <= keys@.len(),
            n <= BUY_SLOT_COUNT,
            side.spec_slots(category) == apply_keys(start, kv, category, player_side, i as int),
            forall|c: BuyCategory| c != category ==> side.spec_slots(c) == old(side).spec_slots(c),
        decreases n - i,
    {
        let weapon = match &keys[i] {
            Some(k) => WeaponId::from_key(k.as_str()),
            None => None,
        };
        assert(weapon == decode_key(kv[i as int]));
        side.set(category, i, weapon, player_side);
        i += 1;
    }
}

/// Slots whose first `k` entries are those of `s` and the rest empty.
pub open spec fn filled_upto(s: Seq<Option<WeaponId>>, k: int) -> Seq<Option<WeaponId>> {
    Seq::new(
        BUY_SLOT_COUNT as nat,
        |i: int|
            if i < k {
                s[i]
            } else {
                None
            },
    )
}

/// Storing the slots of a category and reading them back gives the same slots, as
/// long as every weapon in them may be bought by the side they are read for.
pub proof fn lemma_slots_roundtrip(s: Seq<Option<WeaponId>>, category: BuyCategory, side: PlayerSide)
    requires
        slots_valid(s, category),
        forall|i: int| 0 <= i < s.len() && (#[trigger] s[i]) is Some ==> s[i]->0.spec_available_on(side),
    ensures
        read_count(encoded(s)) == BUY_SLOT_COUNT,
        apply_keys(empty_slots(), encoded(s), category, side, BUY_SLOT_COUNT as int) == s,
{
    let enc = encoded(s);
    assert forall|k: int| 0 <= k <= BUY_SLOT_COUNT implies apply_keys(empty_slots(), enc, category, side, k)
        == filled_upto(s, k) by {
        lemma_apply_prefix(s, category, side, k);
    }
    assert(filled_upto(s, BUY_SLOT_COUNT as int) =~= s);
}

proof fn lemma_apply_prefix(s: Seq<Option<WeaponId>>, category: BuyCategory, side: PlayerSide, k: int)
    requires
        slots_valid(s, category),
        forall|i: int| 0 <= i < s.len() && (#[trigger] s[i]) is Some ==> s[i]->0.spec_available_on(side),
        0 <= k <= BUY_SLOT_COUNT,
    ensures
        apply_keys(empty_slots(), encoded(s), category, side, k) == filled_upto(s, k),
    decreases k,
{
    let enc = encoded(s);
    if k == 0 {
        assert(filled_upto(s, 0) =~= empty_slots());
    } else {
        lemma_apply_prefix(s, category, side, k - 1);
        let prev = filled_upto(s, k - 1);
        let w = s[k - 1];
        match w {
            Some(x) => {
                crate::config::lemma_weapon_from_key(x);
            },
            None => {},
        }
        assert(decode_key(enc[k - 1]) == w);
        assert(placeable(category, w, side));
        let cleared = if w is Some {
            prev.map_values(|t: Option<WeaponId>| if t == w { None } else { t })
        } else {
            prev
        };
        assert(cleared =~= prev) by {
            if w is Some {
                assert forall|i: int| 0 <= i < prev.len() implies cleared[i] == prev[i] by {
                    if i < k - 1 && prev[i] is Some {
                        assert(s[i] != s[k - 1]);
                    }
                }
            }
        }
        assert(placed(prev, k - 1, w) =~= filled_upto(s, k));
    }
}

pub open spec fn all_empty(stored: StoredBuySide) -> bool {
    stored.pistols@.len() == 0 && stored.mid_tier@.len() == 0 && stored.rifles@.len() == 0
}

pub open spec fn stored_keys(stored: StoredBuySide, category: BuyCategory) -> Seq<Option<Seq<char>>> {
    match category {
        BuyCategory::Pistols => keys_view(stored.pistols@),
        BuyCategory::MidTier => keys_view(stored.mid_tier@),
        BuyCategory::Rifles => keys_view(stored.rifles@),
    }
}

/// The slots the former preset gave a side: its starting pistol and rifle.
pub open spec fn legacy_slots(category: BuyCategory, side: PlayerSide) -> Seq<Option<WeaponId>> {
    let (pistol, rifle) = if side == PlayerSide::Defender {
        (WeaponId::Usps, WeaponId::M4a4)
    } else {
        (WeaponId::Glock18, WeaponId::AK47)
    };
    match category {
        BuyCategory::Pistols => if placeable(category, Some(pistol), side) {
            placed(empty_slots(), 0, Some(pistol))
        } else {
            empty_slots()
        },
        BuyCategory::MidTier => empty_slots(),
        BuyCategory::Rifles => if placeable(category, Some(rifle), side) {
            placed(empty_slots(), 0, Some(rifle))
        } else {
            empty_slots()
        },
    }
}

/// Whether a stored side holds exactly the former preset.
pub open spec fn is_legacy(stored: StoredBuySide, side: PlayerSide) -> bool {
    forall|c: BuyCategory| stored_keys(stored, c) == encoded(legacy_slots(c, side))
}

/// The buy slots a stored side reads back as. Saves without buy slots, and (when
/// upgrading older saves) saves holding exactly the former preset, take the current
/// preset; otherwise each category is read from its keys into empty slots.
pub open spec fn decoded_slots(stored: StoredBuySide, side: PlayerSide, upgrade: bool, category: BuyCategory) -> Seq<
    Option<WeaponId>,
> {
    if all_empty(stored) || (upgrade && is_legacy(stored, side)) {
        SideBuyLoadout::spec_for_side(side, category)
    } else {
        let keys = stored_keys(stored, category);
        apply_keys(empty_slots(), keys, category, side, read_count(keys))
    }
}

/// Whether two stored slot lists hold the same keys.
pub fn same_keys(a: &Vec<Option<String>>, b: &Vec<Option<String>>) -> (r: bool)
    ensures
        r == (keys_view(a@) == keys_view(b@)),
{
    if a.len() != b.len() {
        assert(keys_view(a@).len() != keys_view(b@).len());
        return false;
    }
    let mut i: usize = 0;
    while i < a.len()
        invariant
            a@.len() == b@.len(),
            i <= a@.len(),
            forall|k: int| 0 <= k < i ==> key_view(#[trigger] a@[k]) == key_view(b@[k]),
        decreases a@.len() - i,
    {
        let same = match (&a[i], &b[i]) {
            (Some(x), Some(y)) => str_eq(x.as_str(), y.as_str()),
            (None, None) => true,
            _ => false,
        };
        if !same {
            assert(keys_view(a@)[i as int] != keys_view(b@)[i as int]);
            return false;
        }
        i += 1;
    }
    assert(keys_view(a@) =~= keys_view(b@));
    true
}

/// Reads a stored side back for `player_side`.
pub fn decode_side(stored: &StoredBuySide, player_side: PlayerSide, upgrade_defaults: bool) -> (r: SideBuyLoadout)
    ensures
        forall|c: BuyCategory| r.spec_slots(c) == decoded_slots(*stored, player_side, upgrade_defaults, c),
{
    // Older saves without buy slots inherit the current preset. Explicitly cleared
    // slots are stored as five empty entries and stay empty.
    if stored.pistols.len() == 0 && stored.mid_tier.len() == 0 && stored.rifles.len() == 0 {
        return SideBuyLoadout::for_side(player_side);
    }
    let mut side = SideBuyLoadout::empty();
    apply_slots(&mut side, BuyCategory::Pistols, &stored.pistols, player_side);
    apply_slots(&mut side, BuyCategory::MidTier, &stored.mid_tier, player_side);
    apply_slots(&mut side, BuyCategory::Rifles, &stored.rifles, player_side);
    proof {
        assert(empty_slots() =~= seq![None::<WeaponId>, None, None, None, None]);
    }
    if upgrade_defaults {
        let mut legacy = SideBuyLoadout::empty();
        let (pistol, rifle) = if player_side == PlayerSide::Defender {
            (WeaponId::Usps, WeaponId::M4a4)
        } else {
            (WeaponId::Glock18, WeaponId::AK47)
        };
        legacy.set(BuyCategory::Pistols, 0, Some(pistol), player_side);
        legacy.set(BuyCategory::Rifles, 0, Some(rifle), player_side);
        let encoded_legacy = encode_side(&legacy);
        proof {
            assert forall|c: BuyCategory| legacy.spec_slots(c) == legacy_slots(c, player_side) by {}
        }
        // Upgrade only the exact former preset, independently for each team.
        if same_keys(&stored.pistols, &encoded_legacy.pistols) && same_keys(
            &stored.mid_tier,
            &encoded_legacy.mid_tier,
        ) && same_keys(&stored.rifles, &encoded_legacy.rifles) {
            proof {
                assert forall|c: BuyCategory| stored_keys(*stored, c) == encoded(legacy_slots(c, player_side)) by {}
            }
            return SideBuyLoadout::for_side(player_side);
        }
        proof {
            if is_legacy(*stored, player_side) {
                assert(stored_keys(*stored, BuyCategory::Pistols) == encoded(legacy_slots(BuyCategory::Pistols, player_side)));
                assert(stored_keys(*stored, BuyCategory::MidTier) == encoded(legacy_slots(BuyCategory::MidTier, player_side)));
                assert(stored_keys(*stored, BuyCategory::Rifles) == encoded(legacy_slots(BuyCategory::Rifles, player_side)));
            }
        }
    }
    side
}

/// `stored` holds `side`'s slots as keys.
pub open spec fn stores_side(stored: StoredBuySide, side: SideBuyLoadout) -> bool {
    forall|c: BuyCategory| stored_keys(stored, c) == encoded(#[trigger] side.spec_slots(c))
}

/// `stored` is what the store writes for `loadout`.
pub open spec fn stores_loadout(stored: StoredLoadout, loadout: PlayerLoadout) -> bool {
    &&& stored.buy_defaults_version == BUY_DEFAULTS_VERSION
    &&& stored.primary_weapon@ == loadout.primary_weapon.spec_key()
    &&& stored.melee_weapon@ == loadout.melee_weapon.spec_key()
    &&& stored.selected_skin@ == loadout.selected_skin.spec_key()
    &&& stores_side(stored.buy_weapons.attacker, loadout.buy_weapons.attacker)
    &&& stores_side(stored.buy_weapons.defender, loadout.buy_weapons.defender)
}

/// The weapon a stored key names, or `current` when it names none.
pub open spec fn weapon_or(key: Seq<char>, current: WeaponId) -> WeaponId {
    match weapon_from_key(key) {
        Some(w) => w,
        None => current,
    }
}

/// `after` is `before` with `stored` read into it: known weapon and skin keys
/// replace the current ones, unknown keys leave them, and both sides' buy slots
/// are read back, upgrading the former preset when the save predates it.
pub open spec fn applied_loadout(stored: StoredLoadout, before: PlayerLoadout, after: PlayerLoadout) -> bool {
    let upgrade = stored.buy_defaults_version < BUY_DEFAULTS_VERSION;
    &&& after.primary_weapon == weapon_or(stored.primary_weapon@, before.primary_weapon)
    &&& after.melee_weapon == weapon_or(stored.melee_weapon@, before.melee_weapon)
    &&& (exists|s: SkinId| s.spec_key() == stored.selected_skin@) ==> after.selected_skin.spec_key()
        == stored.selected_skin@
    &&& !(exists|s: SkinId| s.spec_key() == stored.selected_skin@) ==> after.selected_skin
        == before.selected_skin
    &&& forall|c: BuyCategory|
        #[trigger] after.buy_weapons.attacker.spec_slots(c) == decoded_slots(
            stored.buy_weapons.attacker,
            PlayerSide::Attacker,
            upgrade,
            c,
        )
    &&& forall|c: BuyCategory|
        #[trigger] after.buy_weapons.defender.spec_slots(c) == decoded_slots(
            stored.buy_weapons.defender,
            PlayerSide::Defender,
            upgrade,
            c,
        )
}

impl StoredLoadout {
    /// What the store writes for `loadout`.
    pub fn from_live(loadout: &PlayerLoadout) -> (r: Self)
        ensures
            stores_loadout(r, *loadout),
    {
        let attacker = encode_side(loadout.buy_weapons.side(PlayerSide::Attacker));
        let defender = encode_side(loadout.buy_weapons.side(PlayerSide::Defender));
        let r = StoredLoadout {
            buy_defaults_version: BUY_DEFAULTS_VERSION,
            primary_weapon: String::from_str(loadout.primary_weapon.key()),
            melee_weapon: String::from_str(loadout.melee_weapon.key()),
            selected_skin: String::from_str(loadout.selected_skin.key()),
            buy_weapons: StoredBuy { attacker, defender },
        };
        assert forall|c: BuyCategory|
            stored_keys(r.buy_weapons.attacker, c) == encoded(
                #[trigger] loadout.buy_weapons.attacker.spec_slots(c),
            ) by {}
        assert forall|c: BuyCategory|
            stored_keys(r.buy_weapons.defender, c) == encoded(
                #[trigger] loadout.buy_weapons.defender.spec_slots(c),
            ) by {}
        r
    }

    /// Reads the stored loadout into `loadout`.
    pub fn apply(self, loadout: &mut PlayerLoadout)
        ensures
            applied_loadout(self, *old(loadout), *final(loadout)),
    {
        if let Some(weapon) = WeaponId::from_key(self.primary_weapon.as_str()) {
            loadout.primary_weapon = weapon;
        }
        if let Some(weapon) = WeaponId::from_key(self.melee_weapon.as_str()) {
            loadout.melee_weapon = weapon;
        }
        match SkinId::from_key(self.selected_skin.as_str()) {
            Some(skin) => {
                loadout.selected_skin = skin;
            },
            None => {
                assert(!(exists|s: SkinId| s.spec_key() == self.selected_skin@));
            },
        }
        let upgrade_defaults = self.buy_defaults_version < BUY_DEFAULTS_VERSION;
        loadout.buy_weapons.attacker = decode_side(
            &self.buy_weapons.attacker,
            PlayerSide::Attacker,
            upgrade_defaults,
        );
        loadout.buy_weapons.defender = decode_side(
            &self.buy_weapons.defender,
            PlayerSide::Defender,
            upgrade_defaults,
        );
    }
}

/// Writing a loadout to the store and reading it back into any loadout gives the
/// written loadout back, as long as each side's slots hold only weapons that side
/// may buy.
pub proof fn lemma_loadout_roundtrip(
    loadout: PlayerLoadout,
    stored: StoredLoadout,
    before: PlayerLoadout,
    after: PlayerLoadout,
)
    requires
        loadout.buy_weapons.attacker.valid(),
        loadout.buy_weapons.defender.valid(),
        loadout.buy_weapons.attacker.buyable_by(PlayerSide::Attacker),
        loadout.buy_weapons.defender.buyable_by(PlayerSide::Defender),
        stores_loadout(stored, loadout),
        applied_loadout(stored, before, after),
    ensures
        after.primary_weapon == loadout.primary_weapon,
        after.melee_weapon == loadout.melee_weapon,
        after.selected_skin == loadout.selected_skin,
        forall|c: BuyCategory|
            #[trigger] after.buy_weapons.attacker.spec_slots(c) == loadout.buy_weapons.attacker.spec_slots(c),
        forall|c: BuyCategory|
            #[trigger] after.buy_weapons.defender.spec_slots(c) == loadout.buy_weapons.defender.spec_slots(c),
{
    crate::config::lemma_weapon_from_key(loadout.primary_weapon);
    crate::config::lemma_weapon_from_key(loadout.melee_weapon);
    lemma_skin_key_injective(after.selected_skin, loadout.selected_skin);
    assert forall|c: BuyCategory|
        #[trigger] after.buy_weapons.attacker.spec_slots(c) == loadout.buy_weapons.attacker.spec_slots(c) by {
        lemma_side_roundtrip(loadout.buy_weapons.attacker, stored.buy_weapons.attacker, PlayerSide::Attacker);
    }
    assert forall|c: BuyCategory|
        #[trigger] after.buy_weapons.defender.spec_slots(c) == loadout.buy_weapons.defender.spec_slots(c) by {
        lemma_side_roundtrip(loadout.buy_weapons.defender, stored.buy_weapons.defender, PlayerSide::Defender);
    }
}

/// Storing one side's slots and reading them back for that side gives the same
/// slots, as long as the side may buy every weapon in them. `empty()` and the
/// side's own preset are such loadouts, and `set` for that side keeps them so
/// (see their contracts), so every loadout the editor builds for a side qualifies.
pub proof fn lemma_side_roundtrip(side: SideBuyLoadout, stored: StoredBuySide, player_side: PlayerSide)
    requires
        side.valid(),
        side.buyable_by(player_side),
        stores_side(stored, side),
    ensures
        forall|c: BuyCategory| #[trigger] decoded_slots(stored, player_side, false, c) == side.spec_slots(c),
{
    assert forall|c: BuyCategory| #[trigger] decoded_slots(stored, player_side, false, c) == side.spec_slots(c) by {
        let s = side.spec_slots(c);
        assert(stored_keys(stored, c) == encoded(s));
        assert(slots_valid(s, c));
        assert(stored_keys(stored, BuyCategory::Pistols) == encoded(side.spec_slots(BuyCategory::Pistols)));
        assert(stored_keys(stored, BuyCategory::Pistols).len() == BUY_SLOT_COUNT);
        assert(!all_empty(stored));
        assert forall|i: int| 0 <= i < s.len() && (#[trigger] s[i]) is Some implies s[i]->0.spec_available_on(
            player_side,
        ) by {
            assert(side.spec_slots(c)[i] is Some);
        }
        lemma_slots_roundtrip(s, c, player_side);
    }
}

/// A save without buy slots reads back as the side's preset, whether or not the
/// save predates the current preset.
pub proof fn lemma_unsaved_side_is_preset(stored: StoredBuySide, side: PlayerSide, upgrade: bool)
    requires
        all_empty(stored),
    ensures
        forall|c: BuyCategory|
            #[trigger] decoded_slots(stored, side, upgrade, c) == SideBuyLoadout::spec_for_side(side, c),
{
}

/// Slots cleared on purpose are saved as five empty entries and stay empty when
/// read back, also when an older save is upgraded.
pub proof fn lemma_cleared_side_stays_empty(stored: StoredBuySide, side: PlayerSide, upgrade: bool)
    requires
        side == PlayerSide::Attacker || side == PlayerSide::Defender,
        forall|c: BuyCategory| #[trigger] stored_keys(stored, c) == seq![None::<Seq<char>>, None, None, None, None],
    ensures
        forall|c: BuyCategory| #[trigger] decoded_slots(stored, side, upgrade, c) == empty_slots(),
{
    let nones = seq![None::<Seq<char>>, None, None, None, None];
    assert(stored_keys(stored, BuyCategory::Pistols) == nones);
    assert(!all_empty(stored));
    let pistol = if side == PlayerSide::Defender { WeaponId::Usps } else { WeaponId::Glock18 };
    assert(placeable(BuyCategory::Pistols, Some(pistol), side));
    assert(encoded(legacy_slots(BuyCategory::Pistols, side))[0] == Some(pistol.spec_key()));
    assert(!is_legacy(stored, side));
    assert forall|c: BuyCategory| #[trigger] decoded_slots(stored, side, upgrade, c) == empty_slots() by {
        assert(stored_keys(stored, c) == nones);
        lemma_nones_apply(c, side, 5);
    }
}

proof fn lemma_nones_apply(c: BuyCategory, side: PlayerSide, k: int)
    requires
        0 <= k <= 5,
    ensures
        apply_keys(empty_slots(), seq![None::<Seq<char>>, None, None, None, None], c, side, k) == empty_slots(),
    decreases k,
{
    if k > 0 {
        lemma_nones_apply(c, side, k - 1);
        assert(placed(empty_slots(), k - 1, None) =~= empty_slots());
    }
}

} // verus!
