//! Settings, supported loadouts, map choice and match defaults.
use vstd::prelude::*;
use crate::skins::{PlayerSide, SkinId};
use crate::text::str_eq;

verus! {

/// Shared by all bots. Local matches read this from player settings.
#[derive(Clone, Copy, PartialEq, Eq, Debug, Structural)]
pub enum BotDifficulty {
    Easy,
    Normal,
    Hard,
}

impl Default for BotDifficulty {
    fn default() -> (r: Self)
        ensures
            r == BotDifficulty::Easy,
    {
        BotDifficulty::Easy
    }
}

impl BotDifficulty {
    pub const ALL: [BotDifficulty; 3] = [BotDifficulty::Easy, BotDifficulty::Normal, BotDifficulty::Hard];

    pub open spec fn spec_name(self) -> Seq<char> {
        match self {
            BotDifficulty::Easy => "Easy"@,
            BotDifficulty::Normal => "Normal"@,
            BotDifficulty::Hard => "Hard"@,
        }
    }

    pub fn name(self) -> (r: &'static str)
        ensures
            r@ == self.spec_name(),
    {
        match self {
            BotDifficulty::Easy => "Easy",
            BotDifficulty::Normal => "Normal",
            BotDifficulty::Hard => "Hard",
        }
    }

    pub open spec fn spec_key(self) -> Seq<char> {
        match self {
            BotDifficulty::Easy => "easy"@,
            BotDifficulty::Normal => "normal"@,
            BotDifficulty::Hard => "hard"@,
        }
    }

    pub fn key(self) -> (r: &'static str)
        ensures
            r@ == self.spec_key(),
    {
        match self {
            BotDifficulty::Easy => "easy",
            BotDifficulty::Normal => "normal",
            BotDifficulty::Hard => "hard",
        }
    }

    pub fn from_key(key: &str) -> (r: Option<Self>)
        ensures
            match r {
                Some(d) => d.spec_key() == key@,
                None => forall|d: BotDifficulty| d.spec_key() != key@,
            },
    {
        if str_eq(key, "easy") {
            Some(BotDifficulty::Easy)
        } else if str_eq(key, "normal") {
            Some(BotDifficulty::Normal)
        } else if str_eq(key, "hard") {
            Some(BotDifficulty::Hard)
        } else {
            None
        }
    }
}

/// Available game modes.
#[derive(Clone, Copy, PartialEq, Eq, Debug, Hash, Structural)]
pub enum GameMode {
    Freemode,
    Deathmatch,
    TeamDeathmatch,
}

impl Default for GameMode {
    fn default() -> (r: Self)
        ensures
            r == GameMode::TeamDeathmatch,
    {
        GameMode::TeamDeathmatch
    }
}

impl GameMode {
    pub open spec fn spec_name(self) -> Seq<char> {
        match self {
            GameMode::Freemode => "Freemode"@,
            GameMode::Deathmatch => "Deathmatch"@,
            GameMode::TeamDeathmatch => "Team Deathmatch"@,
        }
    }

    pub fn name(&self) -> (r: &'static str)
        ensures
            r@ == self.spec_name(),
    {
        match self {
            GameMode::Freemode => "Freemode",
            GameMode::Deathmatch => "Deathmatch",
            GameMode::TeamDeathmatch => "Team Deathmatch",
        }
    }

    pub open spec fn spec_teams(self) -> bool {
        self == GameMode::TeamDeathmatch
    }

    /// Whether actors are grouped into two sides; free-for-all treats everyone as hostile.
    pub fn teams(&self) -> (r: bool)
        ensures
            r == self.spec_teams(),
    {
        matches!(self, GameMode::TeamDeathmatch)
    }

    pub open spec fn spec_scored(self) -> bool {
        self == GameMode::Deathmatch || self == GameMode::TeamDeathmatch
    }

    /// Whether the match keeps score and ends on time or score limits.
    pub fn scored(&self) -> (r: bool)
        ensures
            r == self.spec_scored(),
    {
        matches!(self, GameMode::Deathmatch | GameMode::TeamDeathmatch)
    }

    pub open spec fn spec_key(self) -> Seq<char> {
        match self {
            GameMode::Freemode => "free"@,
            GameMode::Deathmatch => "dm"@,
            GameMode::TeamDeathmatch => "tdm"@,
        }
    }

    /// Short identifier used by the hub and the server command line.
    pub fn key(&self) -> (r: &'static str)
        ensures
            r@ == self.spec_key(),
    {
        match self {
            GameMode::Freemode => "free",
            GameMode::Deathmatch => "dm",
            GameMode::TeamDeathmatch => "tdm",
        }
    }

    /// The value whose key is `key`, if any.
    pub open spec fn spec_from_key(key: Seq<char>) -> Option<Self> {
        if exists|m: GameMode| m.spec_key() == key {
            Some(choose|m: GameMode| m.spec_key() == key)
        } else {
            None
        }
    }

    pub fn from_key(key: &str) -> (r: Option<Self>)
        ensures
            match r {
                Some(m) => m.spec_key() == key@,
                None => forall|m: GameMode| m.spec_key() != key@,
            },
            r == Self::spec_from_key(key@),
    {
        let r = if str_eq(key, "free") {
            Some(GameMode::Freemode)
        } else if str_eq(key, "dm") {
            Some(GameMode::Deathmatch)
        } else if str_eq(key, "tdm") {
            Some(GameMode::TeamDeathmatch)
        } else {
            None
        };
        proof {
            if let Some(m) = r {
                assert(m.spec_key() == key@);
                lemma_mode_key_injective(choose|c: GameMode| c.spec_key() == key@, m);
            }
        }
        r
    }

    pub open spec fn spec_code(self) -> u8 {
        match self {
            GameMode::Freemode => 0,
            GameMode::Deathmatch => 1,
            GameMode::TeamDeathmatch => 2,
        }
    }

    pub fn code(&self) -> (r: u8)
        ensures
            r == self.spec_code(),
    {
        match self {
            GameMode::Freemode => 0,
            GameMode::Deathmatch => 1,
            GameMode::TeamDeathmatch => 2,
        }
    }

    pub open spec fn spec_from_code(code: u8) -> GameMode {
        if code == 1 {
            GameMode::Deathmatch
        } else if code == 2 {
            GameMode::TeamDeathmatch
        } else {
            GameMode::Freemode
        }
    }

    /// Unknown codes fall back to free mode.
    pub fn from_code(code: u8) -> (r: Self)
        ensures
            r == Self::spec_from_code(code),
    {
        match code {
            1 => GameMode::Deathmatch,
            2 => GameMode::TeamDeathmatch,
            _ => GameMode::Freemode,
        }
    }
}

/// Available maps.
#[derive(Clone, Copy, PartialEq, Eq, Debug, Hash, Structural)]
pub enum MapId {
    Warehouse,
    Dust2,
    Mirage,
}

impl Default for MapId {
    fn default() -> (r: Self)
        ensures
            r == MapId::Dust2,
    {
        MapId::Dust2
    }
}

impl MapId {
    pub const PLAYABLE: [MapId; 2] = [MapId::Dust2, MapId::Mirage];

    pub open spec fn spec_name(self) -> Seq<char> {
        match self {
            MapId::Warehouse => "Warehouse"@,
            MapId::Dust2 => "Dust 2"@,
            MapId::Mirage => "Mirage"@,
        }
    }

    pub fn name(&self) -> (r: &'static str)
        ensures
            r@ == self.spec_name(),
    {
        match self {
            MapId::Warehouse => "Warehouse",
            MapId::Dust2 => "Dust 2",
            MapId::Mirage => "Mirage",
        }
    }

    pub open spec fn spec_key(self) -> Seq<char> {
        match self {
            MapId::Warehouse => "warehouse"@,
            MapId::Dust2 => "dust2"@,
            MapId::Mirage => "mirage"@,
        }
    }

    pub fn key(&self) -> (r: &'static str)
        ensures
            r@ == self.spec_key(),
    {
        match self {
            MapId::Warehouse => "warehouse",
            MapId::Dust2 => "dust2",
            MapId::Mirage => "mirage",
        }
    }

    /// The value whose key is `key`, if any.
    pub open spec fn spec_from_key(key: Seq<char>) -> Option<Self> {
        if exists|m: MapId| m.spec_key() == key {
            Some(choose|m: MapId| m.spec_key() == key)
        } else {
            None
        }
    }

    pub fn from_key(key: &str) -> (r: Option<Self>)
        ensures
            match r {
                Some(m) => m.spec_key() == key@,
                None => forall|m: MapId| m.spec_key() != key@,
            },
            r == Self::spec_from_key(key@),
    {
        let r = if str_eq(key, "warehouse") {
            Some(MapId::Warehouse)
        } else if str_eq(key, "dust2") {
            Some(MapId::Dust2)
        } else if str_eq(key, "mirage") {
            Some(MapId::Mirage)
        } else {
            None
        };
        proof {
            if let Some(m) = r {
                assert(m.spec_key() == key@);
                lemma_map_key_injective(choose|c: MapId| c.spec_key() == key@, m);
            }
        }
        r
    }

    pub open spec fn spec_code(self) -> u8 {
        match self {
            MapId::Warehouse => 0,
            MapId::Dust2 => 1,
            MapId::Mirage => 2,
        }
    }

    pub fn code(&self) -> (r: u8)
        ensures
            r == self.spec_code(),
    {
        match self {
            MapId::Warehouse => 0,
            MapId::Dust2 => 1,
            MapId::Mirage => 2,
        }
    }

    pub open spec fn spec_from_code(code: u8) -> MapId {
        if code == 0 {
            MapId::Warehouse
        } else if code == 2 {
            MapId::Mirage
        } else {
            MapId::Dust2
        }
    }

    /// Unknown codes fall back to Dust 2.
    pub fn from_code(code: u8) -> (r: Self)
        ensures
            r == Self::spec_from_code(code),
    {
        match code {
            0 => MapId::Warehouse,
            2 => MapId::Mirage,
            _ => MapId::Dust2,
        }
    }

    pub open spec fn spec_config_path(self) -> Seq<char> {
        match self {
            MapId::Warehouse => "maps/warehouse/config.map.ron"@,
            MapId::Dust2 => "maps/de_dust_2/config.map.ron"@,
            MapId::Mirage => "maps/de_mirage/config.map.ron"@,
        }
    }

    /// The config file path for this map.
    pub fn config_path(&self) -> (r: &'static str)
        ensures
            r@ == self.spec_config_path(),
    {
        match self {
            MapId::Warehouse => "maps/warehouse/config.map.ron",
            MapId::Dust2 => "maps/de_dust_2/config.map.ron",
            MapId::Mirage => "maps/de_mirage/config.map.ron",
        }
    }
}

/// Match-specific settings, in whole seconds.
#[derive(Clone, Debug)]
pub struct MatchSettings {
    /// `None` is unlimited.
    pub time_limit_secs: Option<u64>,
    /// `None` is unlimited.
    pub score_limit: Option<u32>,
    /// 0 is instant.
    pub respawn_secs: u64,
}

impl Default for MatchSettings {
    fn default() -> (r: Self)
        ensures
            r.time_limit_secs == Some(600u64),
            r.score_limit == Some(50u32),
            r.respawn_secs == 3,
    {
        MatchSettings { time_limit_secs: Some(600), score_limit: Some(50), respawn_secs: 3 }
    }
}

/// Main game configuration.
#[derive(Clone)]
pub struct GameConfig {
    pub mode: GameMode,
    pub map: MapId,
    pub match_settings: MatchSettings,
    pub bot_difficulty: BotDifficulty,
}

impl Default for GameConfig {
    fn default() -> (r: Self)
        ensures
            r.mode == GameMode::TeamDeathmatch,
            r.map == MapId::Dust2,
            r.match_settings.time_limit_secs == Some(600u64),
            r.match_settings.score_limit == Some(50u32),
            r.match_settings.respawn_secs == 3,
            r.bot_difficulty == BotDifficulty::Easy,
    {
        GameConfig {
            mode: GameMode::default(),
            map: MapId::default(),
            match_settings: MatchSettings::default(),
            bot_difficulty: BotDifficulty::default(),
        }
    }
}

/// Available weapons for loadout.
#[derive(Clone, Copy, PartialEq, Eq, Debug, Hash, Structural)]
pub enum WeaponId {
    Glock18,
    Usps,
    P2000,
    DualBerettas,
    P250,
    Tec9,
    FiveSeven,
    Cz75,
    Deagle,
    R8,
    Mac10,
    Mp9,
    Mp7,
    Mp5sd,
    Ump45,
    P90,
    Bizon,
    Nova,
    Xm1014,
    SawedOff,
    M249,
    Negev,
    Galil,
    Famas,
    AK47,
    M4a4,
    M4a1s,
    Sg553,
    Aug,
    Ssg08,
    Awp,
    G3sg1,
    Scar20,
    DefaultKnife,
    DefaultKnifeStained,
    DefaultKnifeForest,
    DefaultKnifeCt,
    DefaultKnifeT,
    ReferenceKnife,
    Karambit
}

/// Every weapon, in catalogue order.
pub open spec fn all_weapons() -> Seq<WeaponId> {
    seq![
            WeaponId::Glock18,
            WeaponId::Usps,
            WeaponId::P2000,
            WeaponId::DualBerettas,
            WeaponId::P250,
            WeaponId::Tec9,
            WeaponId::FiveSeven,
            WeaponId::Cz75,
            WeaponId::Deagle,
            WeaponId::R8,
            WeaponId::Mac10,
            WeaponId::Mp9,
            WeaponId::Mp7,
            WeaponId::Mp5sd,
            WeaponId::Ump45,
            WeaponId::P90,
            WeaponId::Bizon,
            WeaponId::Nova,
            WeaponId::Xm1014,
            WeaponId::SawedOff,
            WeaponId::M249,
            WeaponId::Negev,
            WeaponId::Galil,
            WeaponId::Famas,
            WeaponId::AK47,
            WeaponId::M4a4,
            WeaponId::M4a1s,
            WeaponId::Sg553,
            WeaponId::Aug,
            WeaponId::Ssg08,
            WeaponId::Awp,
            WeaponId::G3sg1,
            WeaponId::Scar20,
            WeaponId::DefaultKnife,
            WeaponId::DefaultKnifeStained,
            WeaponId::DefaultKnifeForest,
            WeaponId::DefaultKnifeCt,
            WeaponId::DefaultKnifeT,
            WeaponId::ReferenceKnife,
            WeaponId::Karambit
    ]
}

impl WeaponId {
    pub open spec fn spec_is_knife(self) -> bool {
        match self {
            WeaponId::DefaultKnife | WeaponId::DefaultKnifeStained | WeaponId::DefaultKnifeForest | WeaponId::DefaultKnifeCt | WeaponId::DefaultKnifeT | WeaponId::ReferenceKnife | WeaponId::Karambit => true,
            _ => false,
        }
    }

    pub fn is_knife(self) -> (r: bool)
        ensures
            r == self.spec_is_knife(),
    {
        matches!(self, WeaponId::DefaultKnife | WeaponId::DefaultKnifeStained | WeaponId::DefaultKnifeForest | WeaponId::DefaultKnifeCt | WeaponId::DefaultKnifeT | WeaponId::ReferenceKnife | WeaponId::Karambit)
    }

    pub open spec fn spec_has_viewmodel(self) -> bool {
        self == WeaponId::AK47 || self == WeaponId::DefaultKnife || self == WeaponId::ReferenceKnife
    }

    pub fn has_viewmodel(self) -> (r: bool)
        ensures
            r == self.spec_has_viewmodel(),
    {
        matches!(self, WeaponId::AK47 | WeaponId::DefaultKnife | WeaponId::ReferenceKnife)
    }

    pub open spec fn spec_name(self) -> Seq<char> {
        match self {
            WeaponId::Glock18 => "Glock-18"@,
            WeaponId::Usps => "USP-S"@,
            WeaponId::P2000 => "P2000"@,
            WeaponId::DualBerettas => "Dual Berettas"@,
            WeaponId::P250 => "P250"@,
            WeaponId::Tec9 => "Tec-9"@,
            WeaponId::FiveSeven => "Five-SeveN"@,
            WeaponId::Cz75 => "CZ75-Auto"@,
            WeaponId::Deagle => "Desert Eagle"@,
            WeaponId::R8 => "R8 Revolver"@,
            WeaponId::Mac10 => "MAC-10"@,
            WeaponId::Mp9 => "MP9"@,
            WeaponId::Mp7 => "MP7"@,
            WeaponId::Mp5sd => "MP5-SD"@,
            WeaponId::Ump45 => "UMP-45"@,
            WeaponId::P90 => "P90"@,
            WeaponId::Bizon => "PP-Bizon"@,
            WeaponId::Nova => "Nova"@,
            WeaponId::Xm1014 => "XM1014"@,
            WeaponId::SawedOff => "Sawed-Off"@,
            WeaponId::M249 => "M249"@,
            WeaponId::Negev => "Negev"@,
            WeaponId::Galil => "Galil AR"@,
            WeaponId::Famas => "FAMAS"@,
            WeaponId::AK47 => "AK-47"@,
            WeaponId::M4a4 => "M4A4"@,
            WeaponId::M4a1s => "M4A1-S"@,
            WeaponId::Sg553 => "SG 553"@,
            WeaponId::Aug => "AUG"@,
            WeaponId::Ssg08 => "SSG 08"@,
            WeaponId::Awp => "AWP"@,
            WeaponId::G3sg1 => "G3SG1"@,
            WeaponId::Scar20 => "SCAR-20"@,
            WeaponId::DefaultKnife => "Default Knife"@,
            WeaponId::DefaultKnifeStained => "Default Knife · Stained"@,
            WeaponId::DefaultKnifeForest => "Default Knife · Forest"@,
            WeaponId::DefaultKnifeCt => "Default Knife · CT"@,
            WeaponId::DefaultKnifeT => "Default Knife · T"@,
            WeaponId::ReferenceKnife => "Reference Knife"@,
            WeaponId::Karambit => "Karambit"@,
        }
    }

    pub fn name(self) -> (r: &'static str)
        ensures
            r@ == self.spec_name(),
    {
        match self {
            WeaponId::Glock18 => "Glock-18",
            WeaponId::Usps => "USP-S",
            WeaponId::P2000 => "P2000",
            WeaponId::DualBerettas => "Dual Berettas",
            WeaponId::P250 => "P250",
            WeaponId::Tec9 => "Tec-9",
            WeaponId::FiveSeven => "Five-SeveN",
            WeaponId::Cz75 => "CZ75-Auto",
            WeaponId::Deagle => "Desert Eagle",
            WeaponId::R8 => "R8 Revolver",
            WeaponId::Mac10 => "MAC-10",
            WeaponId::Mp9 => "MP9",
            WeaponId::Mp7 => "MP7",
            WeaponId::Mp5sd => "MP5-SD",
            WeaponId::Ump45 => "UMP-45",
            WeaponId::P90 => "P90",
            WeaponId::Bizon => "PP-Bizon",
            WeaponId::Nova => "Nova",
            WeaponId::Xm1014 => "XM1014",
            WeaponId::SawedOff => "Sawed-Off",
            WeaponId::M249 => "M249",
            WeaponId::Negev => "Negev",
            WeaponId::Galil => "Galil AR",
            WeaponId::Famas => "FAMAS",
            WeaponId::AK47 => "AK-47",
            WeaponId::M4a4 => "M4A4",
            WeaponId::M4a1s => "M4A1-S",
            WeaponId::Sg553 => "SG 553",
            WeaponId::Aug => "AUG",
            WeaponId::Ssg08 => "SSG 08",
            WeaponId::Awp => "AWP",
            WeaponId::G3sg1 => "G3SG1",
            WeaponId::Scar20 => "SCAR-20",
            WeaponId::DefaultKnife => "Default Knife",
            WeaponId::DefaultKnifeStained => "Default Knife · Stained",
            WeaponId::DefaultKnifeForest => "Default Knife · Forest",
            WeaponId::DefaultKnifeCt => "Default Knife · CT",
            WeaponId::DefaultKnifeT => "Default Knife · T",
            WeaponId::ReferenceKnife => "Reference Knife",
            WeaponId::Karambit => "Karambit",
        }
    }

    pub open spec fn spec_key(self) -> Seq<char> {
        match self {
            WeaponId::Glock18 => "glock18"@,
            WeaponId::Usps => "usps"@,
            WeaponId::P2000 => "p2000"@,
            WeaponId::DualBerettas => "dual_berettas"@,
            WeaponId::P250 => "p250"@,
            WeaponId::Tec9 => "tec9"@,
            WeaponId::FiveSeven => "fiveseven"@,
            WeaponId::Cz75 => "cz75"@,
            WeaponId::Deagle => "deagle"@,
            WeaponId::R8 => "r8"@,
            WeaponId::Mac10 => "mac10"@,
            WeaponId::Mp9 => "mp9"@,
            WeaponId::Mp7 => "mp7"@,
            WeaponId::Mp5sd => "mp5sd"@,
            WeaponId::Ump45 => "ump45"@,
            WeaponId::P90 => "p90"@,
            WeaponId::Bizon => "bizon"@,
            WeaponId::Nova => "nova"@,
            WeaponId::Xm1014 => "xm1014"@,
            WeaponId::SawedOff => "sawedoff"@,
            WeaponId::M249 => "m249"@,
            WeaponId::Negev => "negev"@,
            WeaponId::Galil => "galil"@,
            WeaponId::Famas => "famas"@,
            WeaponId::AK47 => "ak47"@,
            WeaponId::M4a4 => "m4a4"@,
            WeaponId::M4a1s => "m4a1s"@,
            WeaponId::Sg553 => "sg553"@,
            WeaponId::Aug => "aug"@,
            WeaponId::Ssg08 => "ssg08"@,
            WeaponId::Awp => "awp"@,
            WeaponId::G3sg1 => "g3sg1"@,
            WeaponId::Scar20 => "scar20"@,
            WeaponId::DefaultKnife => "knife"@,
            WeaponId::DefaultKnifeStained => "knife_stained"@,
            WeaponId::DefaultKnifeForest => "knife_forest"@,
            WeaponId::DefaultKnifeCt => "knife_ct"@,
            WeaponId::DefaultKnifeT => "knife_t"@,
            WeaponId::ReferenceKnife => "reference_knife"@,
            WeaponId::Karambit => "karambit"@,
        }
    }

    /// Stable identifier used by the local store.
    pub fn key(self) -> (r: &'static str)
        ensures
            r@ == self.spec_key(),
    {
        match self {
            WeaponId::Glock18 => "glock18",
            WeaponId::Usps => "usps",
            WeaponId::P2000 => "p2000",
            WeaponId::DualBerettas => "dual_berettas",
            WeaponId::P250 => "p250",
            WeaponId::Tec9 => "tec9",
            WeaponId::FiveSeven => "fiveseven",
            WeaponId::Cz75 => "cz75",
            WeaponId::Deagle => "deagle",
            WeaponId::R8 => "r8",
            WeaponId::Mac10 => "mac10",
            WeaponId::Mp9 => "mp9",
            WeaponId::Mp7 => "mp7",
            WeaponId::Mp5sd => "mp5sd",
            WeaponId::Ump45 => "ump45",
            WeaponId::P90 => "p90",
            WeaponId::Bizon => "bizon",
            WeaponId::Nova => "nova",
            WeaponId::Xm1014 => "xm1014",
            WeaponId::SawedOff => "sawedoff",
            WeaponId::M249 => "m249",
            WeaponId::Negev => "negev",
            WeaponId::Galil => "galil",
            WeaponId::Famas => "famas",
            WeaponId::AK47 => "ak47",
            WeaponId::M4a4 => "m4a4",
            WeaponId::M4a1s => "m4a1s",
            WeaponId::Sg553 => "sg553",
            WeaponId::Aug => "aug",
            WeaponId::Ssg08 => "ssg08",
            WeaponId::Awp => "awp",
            WeaponId::G3sg1 => "g3sg1",
            WeaponId::Scar20 => "scar20",
            WeaponId::DefaultKnife => "knife",
            WeaponId::DefaultKnifeStained => "knife_stained",
            WeaponId::DefaultKnifeForest => "knife_forest",
            WeaponId::DefaultKnifeCt => "knife_ct",
            WeaponId::DefaultKnifeT => "knife_t",
            WeaponId::ReferenceKnife => "reference_knife",
            WeaponId::Karambit => "karambit",
        }
    }

    /// The weapon whose key is `key`, searched in catalogue order.
    pub fn from_key(key: &str) -> (r: Option<Self>)
        ensures
            r == weapon_from_key(key@),
    {
        if str_eq(key, "glock18") {
            proof {
                lemma_weapon_from_key(WeaponId::Glock18);
            }
            return Some(WeaponId::Glock18);
        }
        if str_eq(key, "usps") {
            proof {
                lemma_weapon_from_key(WeaponId::Usps);
            }
            return Some(WeaponId::Usps);
        }
        if str_eq(key, "p2000") {
            proof {
                lemma_weapon_from_key(WeaponId::P2000);
            }
            return Some(WeaponId::P2000);
        }
        if str_eq(key, "dual_berettas") {
            proof {
                lemma_weapon_from_key(WeaponId::DualBerettas);
            }
            return Some(WeaponId::DualBerettas);
        }
        if str_eq(key, "p250") {
            proof {
                lemma_weapon_from_key(WeaponId::P250);
            }
            return Some(WeaponId::P250);
        }
        if str_eq(key, "tec9") {
            proof {
                lemma_weapon_from_key(WeaponId::Tec9);
            }
            return Some(WeaponId::Tec9);
        }
        if str_eq(key, "fiveseven") {
            proof {
                lemma_weapon_from_key(WeaponId::FiveSeven);
            }
            return Some(WeaponId::FiveSeven);
        }
        if str_eq(key, "cz75") {
            proof {
                lemma_weapon_from_key(WeaponId::Cz75);
            }
            return Some(WeaponId::Cz75);
        }
        if str_eq(key, "deagle") {
            proof {
                lemma_weapon_from_key(WeaponId::Deagle);
            }
            return Some(WeaponId::Deagle);
        }
        if str_eq(key, "r8") {
            proof {
                lemma_weapon_from_key(WeaponId::R8);
            }
            return Some(WeaponId::R8);
        }
        if str_eq(key, "mac10") {
            proof {
                lemma_weapon_from_key(WeaponId::Mac10);
            }
            return Some(WeaponId::Mac10);
        }
        if str_eq(key, "mp9") {
            proof {
                lemma_weapon_from_key(WeaponId::Mp9);
            }
            return Some(WeaponId::Mp9);
        }
        if str_eq(key, "mp7") {
            proof {
                lemma_weapon_from_key(WeaponId::Mp7);
            }
            return Some(WeaponId::Mp7);
        }
        if str_eq(key, "mp5sd") {
            proof {
                lemma_weapon_from_key(WeaponId::Mp5sd);
            }
            return Some(WeaponId::Mp5sd);
        }
        if str_eq(key, "ump45") {
            proof {
                lemma_weapon_from_key(WeaponId::Ump45);
            }
            return Some(WeaponId::Ump45);
        }
        if str_eq(key, "p90") {
            proof {
                lemma_weapon_from_key(WeaponId::P90);
            }
            return Some(WeaponId::P90);
        }
        if str_eq(key, "bizon") {
            proof {
                lemma_weapon_from_key(WeaponId::Bizon);
            }
            return Some(WeaponId::Bizon);
        }
        if str_eq(key, "nova") {
            proof {
                lemma_weapon_from_key(WeaponId::Nova);
            }
            return Some(WeaponId::Nova);
        }
        if str_eq(key, "xm1014") {
            proof {
                lemma_weapon_from_key(WeaponId::Xm1014);
            }
            return Some(WeaponId::Xm1014);
        }
        if str_eq(key, "sawedoff") {
            proof {
                lemma_weapon_from_key(WeaponId::SawedOff);
            }
            return Some(WeaponId::SawedOff);
        }
        if str_eq(key, "m249") {
            proof {
                lemma_weapon_from_key(WeaponId::M249);
            }
            return Some(WeaponId::M249);
        }
        if str_eq(key, "negev") {
            proof {
                lemma_weapon_from_key(WeaponId::Negev);
            }
            return Some(WeaponId::Negev);
        }
        if str_eq(key, "galil") {
            proof {
                lemma_weapon_from_key(WeaponId::Galil);
            }
            return Some(WeaponId::Galil);
        }
        if str_eq(key, "famas") {
            proof {
                lemma_weapon_from_key(WeaponId::Famas);
            }
            return Some(WeaponId::Famas);
        }
        if str_eq(key, "ak47") {
            proof {
                lemma_weapon_from_key(WeaponId::AK47);
            }
            return Some(WeaponId::AK47);
        }
        if str_eq(key, "m4a4") {
            proof {
                lemma_weapon_from_key(WeaponId::M4a4);
            }
            return Some(WeaponId::M4a4);
        }
        if str_eq(key, "m4a1s") {
            proof {
                lemma_weapon_from_key(WeaponId::M4a1s);
            }
            return Some(WeaponId::M4a1s);
        }
        if str_eq(key, "sg553") {
            proof {
                lemma_weapon_from_key(WeaponId::Sg553);
            }
            return Some(WeaponId::Sg553);
        }
        if str_eq(key, "aug") {
            proof {
                lemma_weapon_from_key(WeaponId::Aug);
            }
            return Some(WeaponId::Aug);
        }
        if str_eq(key, "ssg08") {
            proof {
                lemma_weapon_from_key(WeaponId::Ssg08);
            }
            return Some(WeaponId::Ssg08);
        }
        if str_eq(key, "awp") {
            proof {
                lemma_weapon_from_key(WeaponId::Awp);
            }
            return Some(WeaponId::Awp);
        }
        if str_eq(key, "g3sg1") {
            proof {
                lemma_weapon_from_key(WeaponId::G3sg1);
            }
            return Some(WeaponId::G3sg1);
        }
        if str_eq(key, "scar20") {
            proof {
                lemma_weapon_from_key(WeaponId::Scar20);
            }
            return Some(WeaponId::Scar20);
        }
        if str_eq(key, "knife") {
            proof {
                lemma_weapon_from_key(WeaponId::DefaultKnife);
            }
            return Some(WeaponId::DefaultKnife);
        }
        if str_eq(key, "knife_stained") {
            proof {
                lemma_weapon_from_key(WeaponId::DefaultKnifeStained);
            }
            return Some(WeaponId::DefaultKnifeStained);
        }
        if str_eq(key, "knife_forest") {
            proof {
                lemma_weapon_from_key(WeaponId::DefaultKnifeForest);
            }
            return Some(WeaponId::DefaultKnifeForest);
        }
        if str_eq(key, "knife_ct") {
            proof {
                lemma_weapon_from_key(WeaponId::DefaultKnifeCt);
            }
            return Some(WeaponId::DefaultKnifeCt);
        }
        if str_eq(key, "knife_t") {
            proof {
                lemma_weapon_from_key(WeaponId::DefaultKnifeT);
            }
            return Some(WeaponId::DefaultKnifeT);
        }
        if str_eq(key, "reference_knife") {
            proof {
                lemma_weapon_from_key(WeaponId::ReferenceKnife);
            }
            return Some(WeaponId::ReferenceKnife);
        }
        if str_eq(key, "karambit") {
            proof {
                lemma_weapon_from_key(WeaponId::Karambit);
            }
            return Some(WeaponId::Karambit);
        }
        assert(forall|w: WeaponId| w.spec_key() != key@);
        None
    }

    /// Every weapon, in catalogue order.
    pub fn all() -> (r: Vec<WeaponId>)
        ensures
            r@ == all_weapons(),
    {
        let mut v: Vec<WeaponId> = Vec::new();
        v.push(WeaponId::Glock18);
        v.push(WeaponId::Usps);
        v.push(WeaponId::P2000);
        v.push(WeaponId::DualBerettas);
        v.push(WeaponId::P250);
        v.push(WeaponId::Tec9);
        v.push(WeaponId::FiveSeven);
        v.push(WeaponId::Cz75);
        v.push(WeaponId::Deagle);
        v.push(WeaponId::R8);
        v.push(WeaponId::Mac10);
        v.push(WeaponId::Mp9);
        v.push(WeaponId::Mp7);
        v.push(WeaponId::Mp5sd);
        v.push(WeaponId::Ump45);
        v.push(WeaponId::P90);
        v.push(WeaponId::Bizon);
        v.push(WeaponId::Nova);
        v.push(WeaponId::Xm1014);
        v.push(WeaponId::SawedOff);
        v.push(WeaponId::M249);
        v.push(WeaponId::Negev);
        v.push(WeaponId::Galil);
        v.push(WeaponId::Famas);
        v.push(WeaponId::AK47);
        v.push(WeaponId::M4a4);
        v.push(WeaponId::M4a1s);
        v.push(WeaponId::Sg553);
        v.push(WeaponId::Aug);
        v.push(WeaponId::Ssg08);
        v.push(WeaponId::Awp);
        v.push(WeaponId::G3sg1);
        v.push(WeaponId::Scar20);
        v.push(WeaponId::DefaultKnife);
        v.push(WeaponId::DefaultKnifeStained);
        v.push(WeaponId::DefaultKnifeForest);
        v.push(WeaponId::DefaultKnifeCt);
        v.push(WeaponId::DefaultKnifeT);
        v.push(WeaponId::ReferenceKnife);
        v.push(WeaponId::Karambit);
        assert(v@ =~= all_weapons());
        v
    }

    /// All knives, in catalogue order.
    pub fn knives() -> (r: Vec<WeaponId>)
        ensures
            r@ == all_weapons().filter(|w: WeaponId| w.spec_is_knife()),
    {
        let all = Self::all();
        let mut out: Vec<WeaponId> = Vec::new();
        let mut i: usize = 0;
        while i < all.len()
            invariant
                all@ == all_weapons(),
                i <= all@.len(),
                out@ == all@.take(i as int).filter(|w: WeaponId| w.spec_is_knife()),
            decreases all@.len() - i,
        {
            proof {
                reveal_with_fuel(Seq::<_>::filter, 1);
                assert(all@.take(i + 1).drop_last() =~= all@.take(i as int));
            }
            if all[i].is_knife() {
                out.push(all[i]);
            }
            i += 1;
        }
        assert(all@.take(all@.len() as int) =~= all@);
        out
    }

    /// All guns (every weapon that is not a knife), in catalogue order.
    pub fn guns() -> (r: Vec<WeaponId>)
        ensures
            r@ == all_weapons().filter(|w: WeaponId| !w.spec_is_knife()),
    {
        let all = Self::all();
        let mut out: Vec<WeaponId> = Vec::new();
        let mut i: usize = 0;
        while i < all.len()
            invariant
                all@ == all_weapons(),
                i <= all@.len(),
                out@ == all@.take(i as int).filter(|w: WeaponId| !w.spec_is_knife()),
            decreases all@.len() - i,
        {
            proof {
                reveal_with_fuel(Seq::<_>::filter, 1);
                assert(all@.take(i + 1).drop_last() =~= all@.take(i as int));
            }
            if !all[i].is_knife() {
                out.push(all[i]);
            }
            i += 1;
        }
        assert(all@.take(all@.len() as int) =~= all@);
        out
    }

    pub open spec fn spec_buy_category(self) -> Option<BuyCategory> {
        match self {
            WeaponId::Glock18 => Some(BuyCategory::Pistols),
            WeaponId::Usps => Some(BuyCategory::Pistols),
            WeaponId::P2000 => Some(BuyCategory::Pistols),
            WeaponId::DualBerettas => Some(BuyCategory::Pistols),
            WeaponId::P250 => Some(BuyCategory::Pistols),
            WeaponId::Tec9 => Some(BuyCategory::Pistols),
            WeaponId::FiveSeven => Some(BuyCategory::Pistols),
            WeaponId::Cz75 => Some(BuyCategory::Pistols),
            WeaponId::Deagle => Some(BuyCategory::Pistols),
            WeaponId::R8 => Some(BuyCategory::Pistols),
            WeaponId::Mac10 => Some(BuyCategory::MidTier),
            WeaponId::Mp9 => Some(BuyCategory::MidTier),
            WeaponId::Mp7 => Some(BuyCategory::MidTier),
            WeaponId::Mp5sd => Some(BuyCategory::MidTier),
            WeaponId::Ump45 => Some(BuyCategory::MidTier),
            WeaponId::P90 => Some(BuyCategory::MidTier),
            WeaponId::Bizon => Some(BuyCategory::MidTier),
            WeaponId::Nova => Some(BuyCategory::MidTier),
            WeaponId::Xm1014 => Some(BuyCategory::MidTier),
            WeaponId::SawedOff => Some(BuyCategory::MidTier),
            WeaponId::M249 => Some(BuyCategory::MidTier),
            WeaponId::Negev => Some(BuyCategory::MidTier),
            WeaponId::Galil => Some(BuyCategory::Rifles),
            WeaponId::Famas => Some(BuyCategory::Rifles),
            WeaponId::AK47 => Some(BuyCategory::Rifles),
            WeaponId::M4a4 => Some(BuyCategory::Rifles),
            WeaponId::M4a1s => Some(BuyCategory::Rifles),
            WeaponId::Sg553 => Some(BuyCategory::Rifles),
            WeaponId::Aug => Some(BuyCategory::Rifles),
            WeaponId::Ssg08 => Some(BuyCategory::Rifles),
            WeaponId::Awp => Some(BuyCategory::Rifles),
            WeaponId::G3sg1 => Some(BuyCategory::Rifles),
            WeaponId::Scar20 => Some(BuyCategory::Rifles),
            WeaponId::DefaultKnife => None,
            WeaponId::DefaultKnifeStained => None,
            WeaponId::DefaultKnifeForest => None,
            WeaponId::DefaultKnifeCt => None,
            WeaponId::DefaultKnifeT => None,
            WeaponId::ReferenceKnife => None,
            WeaponId::Karambit => None,
        }
    }

    pub fn buy_category(self) -> (r: Option<BuyCategory>)
        ensures
            r == self.spec_buy_category(),
    {
        match self {
            WeaponId::Glock18 => Some(BuyCategory::Pistols),
            WeaponId::Usps => Some(BuyCategory::Pistols),
            WeaponId::P2000 => Some(BuyCategory::Pistols),
            WeaponId::DualBerettas => Some(BuyCategory::Pistols),
            WeaponId::P250 => Some(BuyCategory::Pistols),
            WeaponId::Tec9 => Some(BuyCategory::Pistols),
            WeaponId::FiveSeven => Some(BuyCategory::Pistols),
            WeaponId::Cz75 => Some(BuyCategory::Pistols),
            WeaponId::Deagle => Some(BuyCategory::Pistols),
            WeaponId::R8 => Some(BuyCategory::Pistols),
            WeaponId::Mac10 => Some(BuyCategory::MidTier),
            WeaponId::Mp9 => Some(BuyCategory::MidTier),
            WeaponId::Mp7 => Some(BuyCategory::MidTier),
            WeaponId::Mp5sd => Some(BuyCategory::MidTier),
            WeaponId::Ump45 => Some(BuyCategory::MidTier),
            WeaponId::P90 => Some(BuyCategory::MidTier),
            WeaponId::Bizon => Some(BuyCategory::MidTier),
            WeaponId::Nova => Some(BuyCategory::MidTier),
            WeaponId::Xm1014 => Some(BuyCategory::MidTier),
            WeaponId::SawedOff => Some(BuyCategory::MidTier),
            WeaponId::M249 => Some(BuyCategory::MidTier),
            WeaponId::Negev => Some(BuyCategory::MidTier),
            WeaponId::Galil => Some(BuyCategory::Rifles),
            WeaponId::Famas => Some(BuyCategory::Rifles),
            WeaponId::AK47 => Some(BuyCategory::Rifles),
            WeaponId::M4a4 => Some(BuyCategory::Rifles),
            WeaponId::M4a1s => Some(BuyCategory::Rifles),
            WeaponId::Sg553 => Some(BuyCategory::Rifles),
            WeaponId::Aug => Some(BuyCategory::Rifles),
            WeaponId::Ssg08 => Some(BuyCategory::Rifles),
            WeaponId::Awp => Some(BuyCategory::Rifles),
            WeaponId::G3sg1 => Some(BuyCategory::Rifles),
            WeaponId::Scar20 => Some(BuyCategory::Rifles),
            WeaponId::DefaultKnife => None,
            WeaponId::DefaultKnifeStained => None,
            WeaponId::DefaultKnifeForest => None,
            WeaponId::DefaultKnifeCt => None,
            WeaponId::DefaultKnifeT => None,
            WeaponId::ReferenceKnife => None,
            WeaponId::Karambit => None,
        }
    }

    pub open spec fn spec_side(self) -> PlayerSide {
        match self {
            WeaponId::Glock18 => PlayerSide::Attacker,
            WeaponId::Usps => PlayerSide::Defender,
            WeaponId::P2000 => PlayerSide::Defender,
            WeaponId::DualBerettas => PlayerSide::Any,
            WeaponId::P250 => PlayerSide::Any,
            WeaponId::Tec9 => PlayerSide::Attacker,
            WeaponId::FiveSeven => PlayerSide::Defender,
            WeaponId::Cz75 => PlayerSide::Any,
            WeaponId::Deagle => PlayerSide::Any,
            WeaponId::R8 => PlayerSide::Any,
            WeaponId::Mac10 => PlayerSide::Attacker,
            WeaponId::Mp9 => PlayerSide::Defender,
            WeaponId::Mp7 => PlayerSide::Any,
            WeaponId::Mp5sd => PlayerSide::Any,
            WeaponId::Ump45 => PlayerSide::Any,
            WeaponId::P90 => PlayerSide::Any,
            WeaponId::Bizon => PlayerSide::Any,
            WeaponId::Nova => PlayerSide::Any,
            WeaponId::Xm1014 => PlayerSide::Any,
            WeaponId::SawedOff => PlayerSide::Attacker,
            WeaponId::M249 => PlayerSide::Any,
            WeaponId::Negev => PlayerSide::Any,
            WeaponId::Galil => PlayerSide::Attacker,
            WeaponId::Famas => PlayerSide::Defender,
            WeaponId::AK47 => PlayerSide::Attacker,
            WeaponId::M4a4 => PlayerSide::Defender,
            WeaponId::M4a1s => PlayerSide::Defender,
            WeaponId::Sg553 => PlayerSide::Attacker,
            WeaponId::Aug => PlayerSide::Defender,
            WeaponId::Ssg08 => PlayerSide::Any,
            WeaponId::Awp => PlayerSide::Any,
            WeaponId::G3sg1 => PlayerSide::Attacker,
            WeaponId::Scar20 => PlayerSide::Defender,
            WeaponId::DefaultKnife => PlayerSide::Any,
            WeaponId::DefaultKnifeStained => PlayerSide::Any,
            WeaponId::DefaultKnifeForest => PlayerSide::Any,
            WeaponId::DefaultKnifeCt => PlayerSide::Any,
            WeaponId::DefaultKnifeT => PlayerSide::Any,
            WeaponId::ReferenceKnife => PlayerSide::Any,
            WeaponId::Karambit => PlayerSide::Any,
        }
    }

    pub fn side(self) -> (r: PlayerSide)
        ensures
            r == self.spec_side(),
    {
        match self {
            WeaponId::Glock18 => PlayerSide::Attacker,
            WeaponId::Usps => PlayerSide::Defender,
            WeaponId::P2000 => PlayerSide::Defender,
            WeaponId::DualBerettas => PlayerSide::Any,
            WeaponId::P250 => PlayerSide::Any,
            WeaponId::Tec9 => PlayerSide::Attacker,
            WeaponId::FiveSeven => PlayerSide::Defender,
            WeaponId::Cz75 => PlayerSide::Any,
            WeaponId::Deagle => PlayerSide::Any,
            WeaponId::R8 => PlayerSide::Any,
            WeaponId::Mac10 => PlayerSide::Attacker,
            WeaponId::Mp9 => PlayerSide::Defender,
            WeaponId::Mp7 => PlayerSide::Any,
            WeaponId::Mp5sd => PlayerSide::Any,
            WeaponId::Ump45 => PlayerSide::Any,
            WeaponId::P90 => PlayerSide::Any,
            WeaponId::Bizon => PlayerSide::Any,
            WeaponId::Nova => PlayerSide::Any,
            WeaponId::Xm1014 => PlayerSide::Any,
            WeaponId::SawedOff => PlayerSide::Attacker,
            WeaponId::M249 => PlayerSide::Any,
            WeaponId::Negev => PlayerSide::Any,
            WeaponId::Galil => PlayerSide::Attacker,
            WeaponId::Famas => PlayerSide::Defender,
            WeaponId::AK47 => PlayerSide::Attacker,
            WeaponId::M4a4 => PlayerSide::Defender,
            WeaponId::M4a1s => PlayerSide::Defender,
            WeaponId::Sg553 => PlayerSide::Attacker,
            WeaponId::Aug => PlayerSide::Defender,
            WeaponId::Ssg08 => PlayerSide::Any,
            WeaponId::Awp => PlayerSide::Any,
            WeaponId::G3sg1 => PlayerSide::Attacker,
            WeaponId::Scar20 => PlayerSide::Defender,
            WeaponId::DefaultKnife => PlayerSide::Any,
            WeaponId::DefaultKnifeStained => PlayerSide::Any,
            WeaponId::DefaultKnifeForest => PlayerSide::Any,
            WeaponId::DefaultKnifeCt => PlayerSide::Any,
            WeaponId::DefaultKnifeT => PlayerSide::Any,
            WeaponId::ReferenceKnife => PlayerSide::Any,
            WeaponId::Karambit => PlayerSide::Any,
        }
    }

    pub open spec fn spec_available_on(self, side: PlayerSide) -> bool {
        self.spec_side() == PlayerSide::Any || self.spec_side() == side
    }

    pub fn available_on(self, side: PlayerSide) -> (r: bool)
        ensures
            r == self.spec_available_on(side),
    {
        matches!(self.side(), PlayerSide::Any) || self.side() == side
    }

    pub open spec fn spec_inventory_path(self) -> Seq<char> {
        match self {
            WeaponId::Glock18 => "generated/ui/inventory/glock18.png"@,
            WeaponId::Usps => "generated/ui/inventory/usps.png"@,
            WeaponId::P2000 => "generated/ui/inventory/p2000.png"@,
            WeaponId::DualBerettas => "generated/ui/inventory/dual_berettas.png"@,
            WeaponId::P250 => "generated/ui/inventory/p250.png"@,
            WeaponId::Tec9 => "generated/ui/inventory/tec9.png"@,
            WeaponId::FiveSeven => "generated/ui/inventory/fiveseven.png"@,
            WeaponId::Cz75 => "generated/ui/inventory/cz75.png"@,
            WeaponId::Deagle => "generated/ui/inventory/deagle.png"@,
            WeaponId::R8 => "generated/ui/inventory/r8.png"@,
            WeaponId::Mac10 => "generated/ui/inventory/mac10.png"@,
            WeaponId::Mp9 => "generated/ui/inventory/mp9.png"@,
            WeaponId::Mp7 => "generated/ui/inventory/mp7.png"@,
            WeaponId::Mp5sd => "generated/ui/inventory/mp5sd.png"@,
            WeaponId::Ump45 => "generated/ui/inventory/ump45.png"@,
            WeaponId::P90 => "generated/ui/inventory/p90.png"@,
            WeaponId::Bizon => "generated/ui/inventory/bizon.png"@,
            WeaponId::Nova => "generated/ui/inventory/nova.png"@,
            WeaponId::Xm1014 => "generated/ui/inventory/xm1014.png"@,
            WeaponId::SawedOff => "generated/ui/inventory/sawedoff.png"@,
            WeaponId::M249 => "generated/ui/inventory/m249.png"@,
            WeaponId::Negev => "generated/ui/inventory/negev.png"@,
            WeaponId::Galil => "generated/ui/inventory/galil.png"@,
            WeaponId::Famas => "generated/ui/inventory/famas.png"@,
            WeaponId::AK47 => "generated/ui/inventory/ak47.png"@,
            WeaponId::M4a4 => "generated/ui/inventory/m4a4.png"@,
            WeaponId::M4a1s => "generated/ui/inventory/m4a1s.png"@,
            WeaponId::Sg553 => "generated/ui/inventory/sg553.png"@,
            WeaponId::Aug => "generated/ui/inventory/aug.png"@,
            WeaponId::Ssg08 => "generated/ui/inventory/ssg08.png"@,
            WeaponId::Awp => "generated/ui/inventory/awp.png"@,
            WeaponId::G3sg1 => "generated/ui/inventory/g3sg1.png"@,
            WeaponId::Scar20 => "generated/ui/inventory/scar20.png"@,
            WeaponId::DefaultKnife => "generated/ui/inventory/knife.png"@,
            WeaponId::DefaultKnifeStained => "generated/ui/inventory/knife_stained.png"@,
            WeaponId::DefaultKnifeForest => "generated/ui/inventory/knife_forest.png"@,
            WeaponId::DefaultKnifeCt => "generated/ui/inventory/knife_ct.png"@,
            WeaponId::DefaultKnifeT => "generated/ui/inventory/knife_t.png"@,
            WeaponId::ReferenceKnife => "generated/ui/inventory/reference_knife.png"@,
            WeaponId::Karambit => "generated/ui/inventory/karambit.png"@,
        }
    }

    pub fn inventory_path(self) -> (r: &'static str)
        ensures
            r@ == self.spec_inventory_path(),
    {
        match self {
            WeaponId::Glock18 => "generated/ui/inventory/glock18.png",
            WeaponId::Usps => "generated/ui/inventory/usps.png",
            WeaponId::P2000 => "generated/ui/inventory/p2000.png",
            WeaponId::DualBerettas => "generated/ui/inventory/dual_berettas.png",
            WeaponId::P250 => "generated/ui/inventory/p250.png",
            WeaponId::Tec9 => "generated/ui/inventory/tec9.png",
            WeaponId::FiveSeven => "generated/ui/inventory/fiveseven.png",
            WeaponId::Cz75 => "generated/ui/inventory/cz75.png",
            WeaponId::Deagle => "generated/ui/inventory/deagle.png",
            WeaponId::R8 => "generated/ui/inventory/r8.png",
            WeaponId::Mac10 => "generated/ui/inventory/mac10.png",
            WeaponId::Mp9 => "generated/ui/inventory/mp9.png",
            WeaponId::Mp7 => "generated/ui/inventory/mp7.png",
            WeaponId::Mp5sd => "generated/ui/inventory/mp5sd.png",
            WeaponId::Ump45 => "generated/ui/inventory/ump45.png",
            WeaponId::P90 => "generated/ui/inventory/p90.png",
            WeaponId::Bizon => "generated/ui/inventory/bizon.png",
            WeaponId::Nova => "generated/ui/inventory/nova.png",
            WeaponId::Xm1014 => "generated/ui/inventory/xm1014.png",
            WeaponId::SawedOff => "generated/ui/inventory/sawedoff.png",
            WeaponId::M249 => "generated/ui/inventory/m249.png",
            WeaponId::Negev => "generated/ui/inventory/negev.png",
            WeaponId::Galil => "generated/ui/inventory/galil.png",
            WeaponId::Famas => "generated/ui/inventory/famas.png",
            WeaponId::AK47 => "generated/ui/inventory/ak47.png",
            WeaponId::M4a4 => "generated/ui/inventory/m4a4.png",
            WeaponId::M4a1s => "generated/ui/inventory/m4a1s.png",
            WeaponId::Sg553 => "generated/ui/inventory/sg553.png",
            WeaponId::Aug => "generated/ui/inventory/aug.png",
            WeaponId::Ssg08 => "generated/ui/inventory/ssg08.png",
            WeaponId::Awp => "generated/ui/inventory/awp.png",
            WeaponId::G3sg1 => "generated/ui/inventory/g3sg1.png",
            WeaponId::Scar20 => "generated/ui/inventory/scar20.png",
            WeaponId::DefaultKnife => "generated/ui/inventory/knife.png",
            WeaponId::DefaultKnifeStained => "generated/ui/inventory/knife_stained.png",
            WeaponId::DefaultKnifeForest => "generated/ui/inventory/knife_forest.png",
            WeaponId::DefaultKnifeCt => "generated/ui/inventory/knife_ct.png",
            WeaponId::DefaultKnifeT => "generated/ui/inventory/knife_t.png",
            WeaponId::ReferenceKnife => "generated/ui/inventory/reference_knife.png",
            WeaponId::Karambit => "generated/ui/inventory/karambit.png",
        }
    }

    pub open spec fn spec_world_path(self) -> Seq<char> {
        match self {
            WeaponId::Glock18 => "generated/weapons/glock18.glb"@,
            WeaponId::Usps => "generated/weapons/usps.glb"@,
            WeaponId::P2000 => "generated/weapons/p2000.glb"@,
            WeaponId::DualBerettas => "generated/weapons/dual_berettas.glb"@,
            WeaponId::P250 => "generated/weapons/p250.glb"@,
            WeaponId::Tec9 => "generated/weapons/tec9.glb"@,
            WeaponId::FiveSeven => "generated/weapons/fiveseven.glb"@,
            WeaponId::Cz75 => "generated/weapons/cz75.glb"@,
            WeaponId::Deagle => "generated/weapons/deagle.glb"@,
            WeaponId::R8 => "generated/weapons/r8.glb"@,
            WeaponId::Mac10 => "generated/weapons/mac10.glb"@,
            WeaponId::Mp9 => "generated/weapons/mp9.glb"@,
            WeaponId::Mp7 => "generated/weapons/mp7.glb"@,
            WeaponId::Mp5sd => "generated/weapons/mp5sd.glb"@,
            WeaponId::Ump45 => "generated/weapons/ump45.glb"@,
            WeaponId::P90 => "generated/weapons/p90.glb"@,
            WeaponId::Bizon => "generated/weapons/bizon.glb"@,
            WeaponId::Nova => "generated/weapons/nova.glb"@,
            WeaponId::Xm1014 => "generated/weapons/xm1014.glb"@,
            WeaponId::SawedOff => "generated/weapons/sawedoff.glb"@,
            WeaponId::M249 => "generated/weapons/m249.glb"@,
            WeaponId::Negev => "generated/weapons/negev.glb"@,
            WeaponId::Galil => "generated/weapons/galil.glb"@,
            WeaponId::Famas => "generated/weapons/famas.glb"@,
            WeaponId::AK47 => "generated/ak_world.glb"@,
            WeaponId::M4a4 => "generated/weapons/m4a4.glb"@,
            WeaponId::M4a1s => "generated/weapons/m4a1s.glb"@,
            WeaponId::Sg553 => "generated/weapons/sg553.glb"@,
            WeaponId::Aug => "generated/weapons/aug.glb"@,
            WeaponId::Ssg08 => "generated/weapons/ssg08.glb"@,
            WeaponId::Awp => "generated/weapons/awp.glb"@,
            WeaponId::G3sg1 => "generated/weapons/g3sg1.glb"@,
            WeaponId::Scar20 => "generated/weapons/scar20.glb"@,
            WeaponId::DefaultKnife => "generated/knife_world.glb"@,
            WeaponId::DefaultKnifeStained => "generated/weapons/knife_stained.glb"@,
            WeaponId::DefaultKnifeForest => "generated/weapons/knife_forest.glb"@,
            WeaponId::DefaultKnifeCt => "generated/weapons/knife_ct.glb"@,
            WeaponId::DefaultKnifeT => "generated/weapons/knife_t.glb"@,
            WeaponId::ReferenceKnife => "generated/reference_knife_world.glb"@,
            WeaponId::Karambit => "generated/weapons/karambit.glb"@,
        }
    }

    pub fn world_path(self) -> (r: &'static str)
        ensures
            r@ == self.spec_world_path(),
    {
        match self {
            WeaponId::Glock18 => "generated/weapons/glock18.glb",
            WeaponId::Usps => "generated/weapons/usps.glb",
            WeaponId::P2000 => "generated/weapons/p2000.glb",
            WeaponId::DualBerettas => "generated/weapons/dual_berettas.glb",
            WeaponId::P250 => "generated/weapons/p250.glb",
            WeaponId::Tec9 => "generated/weapons/tec9.glb",
            WeaponId::FiveSeven => "generated/weapons/fiveseven.glb",
            WeaponId::Cz75 => "generated/weapons/cz75.glb",
            WeaponId::Deagle => "generated/weapons/deagle.glb",
            WeaponId::R8 => "generated/weapons/r8.glb",
            WeaponId::Mac10 => "generated/weapons/mac10.glb",
            WeaponId::Mp9 => "generated/weapons/mp9.glb",
            WeaponId::Mp7 => "generated/weapons/mp7.glb",
            WeaponId::Mp5sd => "generated/weapons/mp5sd.glb",
            WeaponId::Ump45 => "generated/weapons/ump45.glb",
            WeaponId::P90 => "generated/weapons/p90.glb",
            WeaponId::Bizon => "generated/weapons/bizon.glb",
            WeaponId::Nova => "generated/weapons/nova.glb",
            WeaponId::Xm1014 => "generated/weapons/xm1014.glb",
            WeaponId::SawedOff => "generated/weapons/sawedoff.glb",
            WeaponId::M249 => "generated/weapons/m249.glb",
            WeaponId::Negev => "generated/weapons/negev.glb",
            WeaponId::Galil => "generated/weapons/galil.glb",
            WeaponId::Famas => "generated/weapons/famas.glb",
            WeaponId::AK47 => "generated/ak_world.glb",
            WeaponId::M4a4 => "generated/weapons/m4a4.glb",
            WeaponId::M4a1s => "generated/weapons/m4a1s.glb",
            WeaponId::Sg553 => "generated/weapons/sg553.glb",
            WeaponId::Aug => "generated/weapons/aug.glb",
            WeaponId::Ssg08 => "generated/weapons/ssg08.glb",
            WeaponId::Awp => "generated/weapons/awp.glb",
            WeaponId::G3sg1 => "generated/weapons/g3sg1.glb",
            WeaponId::Scar20 => "generated/weapons/scar20.glb",
            WeaponId::DefaultKnife => "generated/knife_world.glb",
            WeaponId::DefaultKnifeStained => "generated/weapons/knife_stained.glb",
            WeaponId::DefaultKnifeForest => "generated/weapons/knife_forest.glb",
            WeaponId::DefaultKnifeCt => "generated/weapons/knife_ct.glb",
            WeaponId::DefaultKnifeT => "generated/weapons/knife_t.glb",
            WeaponId::ReferenceKnife => "generated/reference_knife_world.glb",
            WeaponId::Karambit => "generated/weapons/karambit.glb",
        }
    }

    pub open spec fn spec_subtitle(self) -> Seq<char> {
        match self {
            WeaponId::DefaultKnife => "Melee · Default finish"@,
            WeaponId::DefaultKnifeStained => "Melee · Stained finish"@,
            WeaponId::DefaultKnifeForest => "Melee · Forest finish"@,
            WeaponId::DefaultKnifeCt => "Melee · CT"@,
            WeaponId::DefaultKnifeT => "Melee · T"@,
            WeaponId::ReferenceKnife => "Melee · Reference finish"@,
            WeaponId::Karambit => "Melee · Karambit"@,
            other => match other.spec_buy_category() {
                Some(BuyCategory::Pistols) => "Pistol"@,
                Some(BuyCategory::MidTier) => "Mid-tier"@,
                Some(BuyCategory::Rifles) => "Rifle"@,
                None => "Weapon"@,
            },
        }
    }

    pub fn subtitle(self) -> (r: &'static str)
        ensures
            r@ == self.spec_subtitle(),
    {
        match self {
            WeaponId::DefaultKnife => "Melee · Default finish",
            WeaponId::DefaultKnifeStained => "Melee · Stained finish",
            WeaponId::DefaultKnifeForest => "Melee · Forest finish",
            WeaponId::DefaultKnifeCt => "Melee · CT",
            WeaponId::DefaultKnifeT => "Melee · T",
            WeaponId::ReferenceKnife => "Melee · Reference finish",
            WeaponId::Karambit => "Melee · Karambit",
            other => match other.buy_category() {
                Some(BuyCategory::Pistols) => "Pistol",
                Some(BuyCategory::MidTier) => "Mid-tier",
                Some(BuyCategory::Rifles) => "Rifle",
                None => "Weapon",
            },
        }
    }

    /// Wire code: the AK-47 and the two viewmodel knives first, then every other
    /// weapon in catalogue order.
    pub open spec fn spec_code(self) -> u8 {
        match self {
            WeaponId::Glock18 => 3,
            WeaponId::Usps => 4,
            WeaponId::P2000 => 5,
            WeaponId::DualBerettas => 6,
            WeaponId::P250 => 7,
            WeaponId::Tec9 => 8,
            WeaponId::FiveSeven => 9,
            WeaponId::Cz75 => 10,
            WeaponId::Deagle => 11,
            WeaponId::R8 => 12,
            WeaponId::Mac10 => 13,
            WeaponId::Mp9 => 14,
            WeaponId::Mp7 => 15,
            WeaponId::Mp5sd => 16,
            WeaponId::Ump45 => 17,
            WeaponId::P90 => 18,
            WeaponId::Bizon => 19,
            WeaponId::Nova => 20,
            WeaponId::Xm1014 => 21,
            WeaponId::SawedOff => 22,
            WeaponId::M249 => 23,
            WeaponId::Negev => 24,
            WeaponId::Galil => 25,
            WeaponId::Famas => 26,
            WeaponId::AK47 => 0,
            WeaponId::M4a4 => 27,
            WeaponId::M4a1s => 28,
            WeaponId::Sg553 => 29,
            WeaponId::Aug => 30,
            WeaponId::Ssg08 => 31,
            WeaponId::Awp => 32,
            WeaponId::G3sg1 => 33,
            WeaponId::Scar20 => 34,
            WeaponId::DefaultKnife => 1,
            WeaponId::DefaultKnifeStained => 35,
            WeaponId::DefaultKnifeForest => 36,
            WeaponId::DefaultKnifeCt => 37,
            WeaponId::DefaultKnifeT => 38,
            WeaponId::ReferenceKnife => 2,
            WeaponId::Karambit => 39,
        }
    }

    pub fn code(self) -> (r: u8)
        ensures
            r == self.spec_code(),
    {
        match self {
            WeaponId::Glock18 => 3,
            WeaponId::Usps => 4,
            WeaponId::P2000 => 5,
            WeaponId::DualBerettas => 6,
            WeaponId::P250 => 7,
            WeaponId::Tec9 => 8,
            WeaponId::FiveSeven => 9,
            WeaponId::Cz75 => 10,
            WeaponId::Deagle => 11,
            WeaponId::R8 => 12,
            WeaponId::Mac10 => 13,
            WeaponId::Mp9 => 14,
            WeaponId::Mp7 => 15,
            WeaponId::Mp5sd => 16,
            WeaponId::Ump45 => 17,
            WeaponId::P90 => 18,
            WeaponId::Bizon => 19,
            WeaponId::Nova => 20,
            WeaponId::Xm1014 => 21,
            WeaponId::SawedOff => 22,
            WeaponId::M249 => 23,
            WeaponId::Negev => 24,
            WeaponId::Galil => 25,
            WeaponId::Famas => 26,
            WeaponId::AK47 => 0,
            WeaponId::M4a4 => 27,
            WeaponId::M4a1s => 28,
            WeaponId::Sg553 => 29,
            WeaponId::Aug => 30,
            WeaponId::Ssg08 => 31,
            WeaponId::Awp => 32,
            WeaponId::G3sg1 => 33,
            WeaponId::Scar20 => 34,
            WeaponId::DefaultKnife => 1,
            WeaponId::DefaultKnifeStained => 35,
            WeaponId::DefaultKnifeForest => 36,
            WeaponId::DefaultKnifeCt => 37,
            WeaponId::DefaultKnifeT => 38,
            WeaponId::ReferenceKnife => 2,
            WeaponId::Karambit => 39,
        }
    }

    pub open spec fn spec_from_code(code: u8) -> WeaponId {
        match code {
            0 => WeaponId::AK47,
            1 => WeaponId::DefaultKnife,
            2 => WeaponId::ReferenceKnife,
            3 => WeaponId::Glock18,
            4 => WeaponId::Usps,
            5 => WeaponId::P2000,
            6 => WeaponId::DualBerettas,
            7 => WeaponId::P250,
            8 => WeaponId::Tec9,
            9 => WeaponId::FiveSeven,
            10 => WeaponId::Cz75,
            11 => WeaponId::Deagle,
            12 => WeaponId::R8,
            13 => WeaponId::Mac10,
            14 => WeaponId::Mp9,
            15 => WeaponId::Mp7,
            16 => WeaponId::Mp5sd,
            17 => WeaponId::Ump45,
            18 => WeaponId::P90,
            19 => WeaponId::Bizon,
            20 => WeaponId::Nova,
            21 => WeaponId::Xm1014,
            22 => WeaponId::SawedOff,
            23 => WeaponId::M249,
            24 => WeaponId::Negev,
            25 => WeaponId::Galil,
            26 => WeaponId::Famas,
            27 => WeaponId::M4a4,
            28 => WeaponId::M4a1s,
            29 => WeaponId::Sg553,
            30 => WeaponId::Aug,
            31 => WeaponId::Ssg08,
            32 => WeaponId::Awp,
            33 => WeaponId::G3sg1,
            34 => WeaponId::Scar20,
            35 => WeaponId::DefaultKnifeStained,
            36 => WeaponId::DefaultKnifeForest,
            37 => WeaponId::DefaultKnifeCt,
            38 => WeaponId::DefaultKnifeT,
            39 => WeaponId::Karambit,
            _ => WeaponId::AK47,
        }
    }

    /// Unknown codes fall back to the AK-47.
    pub fn from_code(code: u8) -> (r: WeaponId)
        ensures
            r == Self::spec_from_code(code),
    {
        match code {
            0 => WeaponId::AK47,
            1 => WeaponId::DefaultKnife,
            2 => WeaponId::ReferenceKnife,
            3 => WeaponId::Glock18,
            4 => WeaponId::Usps,
            5 => WeaponId::P2000,
            6 => WeaponId::DualBerettas,
            7 => WeaponId::P250,
            8 => WeaponId::Tec9,
            9 => WeaponId::FiveSeven,
            10 => WeaponId::Cz75,
            11 => WeaponId::Deagle,
            12 => WeaponId::R8,
            13 => WeaponId::Mac10,
            14 => WeaponId::Mp9,
            15 => WeaponId::Mp7,
            16 => WeaponId::Mp5sd,
            17 => WeaponId::Ump45,
            18 => WeaponId::P90,
            19 => WeaponId::Bizon,
            20 => WeaponId::Nova,
            21 => WeaponId::Xm1014,
            22 => WeaponId::SawedOff,
            23 => WeaponId::M249,
            24 => WeaponId::Negev,
            25 => WeaponId::Galil,
            26 => WeaponId::Famas,
            27 => WeaponId::M4a4,
            28 => WeaponId::M4a1s,
            29 => WeaponId::Sg553,
            30 => WeaponId::Aug,
            31 => WeaponId::Ssg08,
            32 => WeaponId::Awp,
            33 => WeaponId::G3sg1,
            34 => WeaponId::Scar20,
            35 => WeaponId::DefaultKnifeStained,
            36 => WeaponId::DefaultKnifeForest,
            37 => WeaponId::DefaultKnifeCt,
            38 => WeaponId::DefaultKnifeT,
            39 => WeaponId::Karambit,
            _ => WeaponId::AK47,
        }
    }
}

/// Decoding a weapon's wire code gives the weapon back.
pub proof fn lemma_weapon_code_roundtrip(w: WeaponId)
    ensures
        WeaponId::spec_from_code(w.spec_code()) == w,
        w.spec_code() < 40,
{
}

/// Every code below 40 names exactly one weapon, whose code it is.
pub proof fn lemma_weapon_code_onto(code: u8)
    requires
        code < 40,
    ensures
        WeaponId::spec_from_code(code).spec_code() == code,
{
}

/// Length, first two and last character of a key; these four already tell
/// every weapon key apart.
pub open spec fn key_signature(s: Seq<char>) -> (nat, char, char, char) {
    (s.len(), s[0], s[1], s[s.len() - 1])
}

/// The weapon whose key has the given signature.
pub open spec fn weapon_with_signature(sig: (nat, char, char, char)) -> Option<WeaponId> {
    if sig == (7nat, 'g', 'l', '8') {
        Some(WeaponId::Glock18)
    } else
    if sig == (4nat, 'u', 's', 's') {
        Some(WeaponId::Usps)
    } else
    if sig == (5nat, 'p', '2', '0') {
        Some(WeaponId::P2000)
    } else
    if sig == (13nat, 'd', 'u', 's') {
        Some(WeaponId::DualBerettas)
    } else
    if sig == (4nat, 'p', '2', '0') {
        Some(WeaponId::P250)
    } else
    if sig == (4nat, 't', 'e', '9') {
        Some(WeaponId::Tec9)
    } else
    if sig == (9nat, 'f', 'i', 'n') {
        Some(WeaponId::FiveSeven)
    } else
    if sig == (4nat, 'c', 'z', '5') {
        Some(WeaponId::Cz75)
    } else
    if sig == (6nat, 'd', 'e', 'e') {
        Some(WeaponId::Deagle)
    } else
    if sig == (2nat, 'r', '8', '8') {
        Some(WeaponId::R8)
    } else
    if sig == (5nat, 'm', 'a', '0') {
        Some(WeaponId::Mac10)
    } else
    if sig == (3nat, 'm', 'p', '9') {
        Some(WeaponId::Mp9)
    } else
    if sig == (3nat, 'm', 'p', '7') {
        Some(WeaponId::Mp7)
    } else
    if sig == (5nat, 'm', 'p', 'd') {
        Some(WeaponId::Mp5sd)
    } else
    if sig == (5nat, 'u', 'm', '5') {
        Some(WeaponId::Ump45)
    } else
    if sig == (3nat, 'p', '9', '0') {
        Some(WeaponId::P90)
    } else
    if sig == (5nat, 'b', 'i', 'n') {
        Some(WeaponId::Bizon)
    } else
    if sig == (4nat, 'n', 'o', 'a') {
        Some(WeaponId::Nova)
    } else
    if sig == (6nat, 'x', 'm', '4') {
        Some(WeaponId::Xm1014)
    } else
    if sig == (8nat, 's', 'a', 'f') {
        Some(WeaponId::SawedOff)
    } else
    if sig == (4nat, 'm', '2', '9') {
        Some(WeaponId::M249)
    } else
    if sig == (5nat, 'n', 'e', 'v') {
        Some(WeaponId::Negev)
    } else
    if sig == (5nat, 'g', 'a', 'l') {
        Some(WeaponId::Galil)
    } else
    if sig == (5nat, 'f', 'a', 's') {
        Some(WeaponId::Famas)
    } else
    if sig == (4nat, 'a', 'k', '7') {
        Some(WeaponId::AK47)
    } else
    if sig == (4nat, 'm', '4', '4') {
        Some(WeaponId::M4a4)
    } else
    if sig == (5nat, 'm', '4', 's') {
        Some(WeaponId::M4a1s)
    } else
    if sig == (5nat, 's', 'g', '3') {
        Some(WeaponId::Sg553)
    } else
    if sig == (3nat, 'a', 'u', 'g') {
        Some(WeaponId::Aug)
    } else
    if sig == (5nat, 's', 's', '8') {
        Some(WeaponId::Ssg08)
    } else
    if sig == (3nat, 'a', 'w', 'p') {
        Some(WeaponId::Awp)
    } else
    if sig == (5nat, 'g', '3', '1') {
        Some(WeaponId::G3sg1)
    } else
    if sig == (6nat, 's', 'c', '0') {
        Some(WeaponId::Scar20)
    } else
    if sig == (5nat, 'k', 'n', 'e') {
        Some(WeaponId::DefaultKnife)
    } else
    if sig == (13nat, 'k', 'n', 'd') {
        Some(WeaponId::DefaultKnifeStained)
    } else
    if sig == (12nat, 'k', 'n', 't') {
        Some(WeaponId::DefaultKnifeForest)
    } else
    if sig == (8nat, 'k', 'n', 't') {
        Some(WeaponId::DefaultKnifeCt)
    } else
    if sig == (7nat, 'k', 'n', 't') {
        Some(WeaponId::DefaultKnifeT)
    } else
    if sig == (15nat, 'r', 'e', 'e') {
        Some(WeaponId::ReferenceKnife)
    } else
    if sig == (8nat, 'k', 'a', 't') {
        Some(WeaponId::Karambit)
    } else {
        None
    }
}

/// A weapon's key signature identifies the weapon.
pub proof fn lemma_key_signature(w: WeaponId)
    ensures
        weapon_with_signature(key_signature(w.spec_key())) == Some(w),
{
    match w {
        WeaponId::Glock18 => {
            reveal_strlit("glock18");
        },
        WeaponId::Usps => {
            reveal_strlit("usps");
        },
        WeaponId::P2000 => {
            reveal_strlit("p2000");
        },
        WeaponId::DualBerettas => {
            reveal_strlit("dual_berettas");
        },
        WeaponId::P250 => {
            reveal_strlit("p250");
        },
        WeaponId::Tec9 => {
            reveal_strlit("tec9");
        },
        WeaponId::FiveSeven => {
            reveal_strlit("fiveseven");
        },
        WeaponId::Cz75 => {
            reveal_strlit("cz75");
        },
        WeaponId::Deagle => {
            reveal_strlit("deagle");
        },
        WeaponId::R8 => {
            reveal_strlit("r8");
        },
        WeaponId::Mac10 => {
            reveal_strlit("mac10");
        },
        WeaponId::Mp9 => {
            reveal_strlit("mp9");
        },
        WeaponId::Mp7 => {
            reveal_strlit("mp7");
        },
        WeaponId::Mp5sd => {
            reveal_strlit("mp5sd");
        },
        WeaponId::Ump45 => {
            reveal_strlit("ump45");
        },
        WeaponId::P90 => {
            reveal_strlit("p90");
        },
        WeaponId::Bizon => {
            reveal_strlit("bizon");
        },
        WeaponId::Nova => {
            reveal_strlit("nova");
        },
        WeaponId::Xm1014 => {
            reveal_strlit("xm1014");
        },
        WeaponId::SawedOff => {
            reveal_strlit("sawedoff");
        },
        WeaponId::M249 => {
            reveal_strlit("m249");
        },
        WeaponId::Negev => {
            reveal_strlit("negev");
        },
        WeaponId::Galil => {
            reveal_strlit("galil");
        },
        WeaponId::Famas => {
            reveal_strlit("famas");
        },
        WeaponId::AK47 => {
            reveal_strlit("ak47");
        },
        WeaponId::M4a4 => {
            reveal_strlit("m4a4");
        },
        WeaponId::M4a1s => {
            reveal_strlit("m4a1s");
        },
        WeaponId::Sg553 => {
            reveal_strlit("sg553");
        },
        WeaponId::Aug => {
            reveal_strlit("aug");
        },
        WeaponId::Ssg08 => {
            reveal_strlit("ssg08");
        },
        WeaponId::Awp => {
            reveal_strlit("awp");
        },
        WeaponId::G3sg1 => {
            reveal_strlit("g3sg1");
        },
        WeaponId::Scar20 => {
            reveal_strlit("scar20");
        },
        WeaponId::DefaultKnife => {
            reveal_strlit("knife");
        },
        WeaponId::DefaultKnifeStained => {
            reveal_strlit("knife_stained");
        },
        WeaponId::DefaultKnifeForest => {
            reveal_strlit("knife_forest");
        },
        WeaponId::DefaultKnifeCt => {
            reveal_strlit("knife_ct");
        },
        WeaponId::DefaultKnifeT => {
            reveal_strlit("knife_t");
        },
        WeaponId::ReferenceKnife => {
            reveal_strlit("reference_knife");
        },
        WeaponId::Karambit => {
            reveal_strlit("karambit");
        },
    }
}

/// Distinct weapons have distinct keys, so a key names one weapon.
pub proof fn lemma_weapon_key_injective(a: WeaponId, b: WeaponId)
    ensures
        a.spec_key() == b.spec_key() ==> a == b,
{
    lemma_key_signature(a);
    lemma_key_signature(b);
}

/// Position of a weapon in the catalogue.
pub open spec fn catalogue_index(w: WeaponId) -> int {
    match w {
        WeaponId::Glock18 => 0,
        WeaponId::Usps => 1,
        WeaponId::P2000 => 2,
        WeaponId::DualBerettas => 3,
        WeaponId::P250 => 4,
        WeaponId::Tec9 => 5,
        WeaponId::FiveSeven => 6,
        WeaponId::Cz75 => 7,
        WeaponId::Deagle => 8,
        WeaponId::R8 => 9,
        WeaponId::Mac10 => 10,
        WeaponId::Mp9 => 11,
        WeaponId::Mp7 => 12,
        WeaponId::Mp5sd => 13,
        WeaponId::Ump45 => 14,
        WeaponId::P90 => 15,
        WeaponId::Bizon => 16,
        WeaponId::Nova => 17,
        WeaponId::Xm1014 => 18,
        WeaponId::SawedOff => 19,
        WeaponId::M249 => 20,
        WeaponId::Negev => 21,
        WeaponId::Galil => 22,
        WeaponId::Famas => 23,
        WeaponId::AK47 => 24,
        WeaponId::M4a4 => 25,
        WeaponId::M4a1s => 26,
        WeaponId::Sg553 => 27,
        WeaponId::Aug => 28,
        WeaponId::Ssg08 => 29,
        WeaponId::Awp => 30,
        WeaponId::G3sg1 => 31,
        WeaponId::Scar20 => 32,
        WeaponId::DefaultKnife => 33,
        WeaponId::DefaultKnifeStained => 34,
        WeaponId::DefaultKnifeForest => 35,
        WeaponId::DefaultKnifeCt => 36,
        WeaponId::DefaultKnifeT => 37,
        WeaponId::ReferenceKnife => 38,
        WeaponId::Karambit => 39,
    }
}

/// The weapon that a stored key names, if any.
pub open spec fn weapon_from_key(key: Seq<char>) -> Option<WeaponId> {
    if exists|w: WeaponId| w.spec_key() == key {
        Some(choose|w: WeaponId| w.spec_key() == key)
    } else {
        None
    }
}

/// Reading back a weapon's key gives the weapon.
pub proof fn lemma_weapon_from_key(w: WeaponId)
    ensures
        weapon_from_key(w.spec_key()) == Some(w),
{
    let c = choose|c: WeaponId| c.spec_key() == w.spec_key();
    lemma_weapon_key_injective(c, w);
}

/// Every weapon is in the catalogue.
pub proof fn lemma_all_weapons_complete(w: WeaponId)
    ensures
        all_weapons().contains(w),
{
    assert(all_weapons()[catalogue_index(w)] == w);
}

/// Buy-menu categories.
#[derive(Clone, Copy, Debug, PartialEq, Eq, Structural)]
pub enum BuyCategory {
    Pistols,
    MidTier,
    Rifles,
}

impl BuyCategory {
    pub const ALL: [BuyCategory; 3] = [BuyCategory::Pistols, BuyCategory::MidTier, BuyCategory::Rifles];

    pub open spec fn spec_name(self) -> Seq<char> {
        match self {
            BuyCategory::Pistols => "Pistols"@,
            BuyCategory::MidTier => "Mid-Tier"@,
            BuyCategory::Rifles => "Rifles"@,
        }
    }

    pub fn name(self) -> (r: &'static str)
        ensures
            r@ == self.spec_name(),
    {
        match self {
            BuyCategory::Pistols => "Pistols",
            BuyCategory::MidTier => "Mid-Tier",
            BuyCategory::Rifles => "Rifles",
        }
    }

    pub open spec fn spec_description(self) -> Seq<char> {
        match self {
            BuyCategory::Pistols => "Secondary weapons"@,
            BuyCategory::MidTier => "SMGs and shotguns"@,
            BuyCategory::Rifles => "Rifles and snipers"@,
        }
    }

    pub fn description(self) -> (r: &'static str)
        ensures
            r@ == self.spec_description(),
    {
        match self {
            BuyCategory::Pistols => "Secondary weapons",
            BuyCategory::MidTier => "SMGs and shotguns",
            BuyCategory::Rifles => "Rifles and snipers",
        }
    }

    pub open spec fn spec_accepts(self, weapon: WeaponId) -> bool {
        weapon.spec_buy_category() == Some(self)
    }

    pub fn accepts(self, weapon: WeaponId) -> (r: bool)
        ensures
            r == self.spec_accepts(weapon),
    {
        match weapon.buy_category() {
            Some(c) => c == self,
            None => false,
        }
    }

    pub open spec fn spec_accepts_for(self, weapon: WeaponId, side: PlayerSide) -> bool {
        self.spec_accepts(weapon) && weapon.spec_available_on(side)
    }

    pub fn accepts_for(self, weapon: WeaponId, side: PlayerSide) -> (r: bool)
        ensures
            r == self.spec_accepts_for(weapon, side),
    {
        self.accepts(weapon) && weapon.available_on(side)
    }
}

pub const BUY_SLOT_COUNT: usize = 5;

pub const PRESET_ARMOR: [&'static str; 2] = ["Kevlar vest", "Kevlar + helmet"];

pub const PRESET_GRENADES: [&'static str; 5] = [
    "Flashbang",
    "Smoke grenade",
    "HE grenade",
    "Incendiary grenade",
    "Decoy grenade",
];

} // verus!

verus! {

/// The first weapon in a sequence of slots, skipping empty ones.
pub open spec fn first_some(slots: Seq<Option<WeaponId>>) -> Option<WeaponId>
    decreases slots.len(),
{
    if slots.len() == 0 {
        None
    } else if slots[0] is Some {
        slots[0]
    } else {
        first_some(slots.drop_first())
    }
}

/// Slots of one buy category are consistent: five of them, each filled slot holds
/// a weapon of that category, and no weapon fills two slots.
pub open spec fn slots_valid(slots: Seq<Option<WeaponId>>, category: BuyCategory) -> bool {
    &&& slots.len() == BUY_SLOT_COUNT
    &&& forall|i: int|
        0 <= i < slots.len() && (#[trigger] slots[i]) is Some ==> slots[i]->0.spec_buy_category()
            == Some(category)
    &&& forall|i: int, j: int|
        0 <= i < j < slots.len() && (#[trigger] slots[i]) is Some ==> slots[i] != #[trigger] slots[j]
}

/// Slots after placing `weapon` at `index`: a weapon occupies one slot per
/// category, so any other slot holding it is emptied first.
pub open spec fn placed(slots: Seq<Option<WeaponId>>, index: int, weapon: Option<WeaponId>) -> Seq<
    Option<WeaponId>,
> {
    let cleared = if weapon is Some {
        slots.map_values(|s: Option<WeaponId>| if s == weapon { None } else { s })
    } else {
        slots
    };
    cleared.update(index, weapon)
}

/// The weapons one side can buy, five slots per category.
#[derive(Clone, Copy)]
pub struct SideBuyLoadout {
    pistols: [Option<WeaponId>; 5],
    mid_tier: [Option<WeaponId>; 5],
    rifles: [Option<WeaponId>; 5],
}

impl SideBuyLoadout {
    /// The slots of one category.
    pub closed spec fn spec_slots(self, category: BuyCategory) -> Seq<Option<WeaponId>> {
        match category {
            BuyCategory::Pistols => self.pistols@,
            BuyCategory::MidTier => self.mid_tier@,
            BuyCategory::Rifles => self.rifles@,
        }
    }

    /// Every category's slots are consistent.
    pub open spec fn valid(self) -> bool {
        &&& slots_valid(self.spec_slots(BuyCategory::Pistols), BuyCategory::Pistols)
        &&& slots_valid(self.spec_slots(BuyCategory::MidTier), BuyCategory::MidTier)
        &&& slots_valid(self.spec_slots(BuyCategory::Rifles), BuyCategory::Rifles)
    }

    #[verifier::type_invariant]
    closed spec fn inv(self) -> bool {
        self.valid()
    }

    /// Every weapon in the slots may be bought by `side`.
    pub open spec fn buyable_by(self, side: PlayerSide) -> bool {
        forall|c: BuyCategory, i: int|
            0 <= i < BUY_SLOT_COUNT && (#[trigger] self.spec_slots(c)[i]) is Some ==> self.spec_slots(
                c,
            )[i]->0.spec_available_on(side)
    }

    /// The preset loadout of a side; the defender preset for defenders, the attacker
    /// preset otherwise.
    pub open spec fn spec_for_side(side: PlayerSide, category: BuyCategory) -> Seq<Option<WeaponId>> {
        if side == PlayerSide::Defender {
            match category {
                BuyCategory::Pistols => seq![
                    Some(WeaponId::Usps),
                    Some(WeaponId::DualBerettas),
                    Some(WeaponId::P250),
                    Some(WeaponId::FiveSeven),
                    Some(WeaponId::Deagle),
                ],
                BuyCategory::MidTier => seq![
                    Some(WeaponId::Mp9),
                    Some(WeaponId::Mp7),
                    Some(WeaponId::Ump45),
                    Some(WeaponId::P90),
                    Some(WeaponId::Xm1014),
                ],
                BuyCategory::Rifles => seq![
                    Some(WeaponId::M4a4),
                    Some(WeaponId::M4a1s),
                    Some(WeaponId::Famas),
                    Some(WeaponId::Ssg08),
                    Some(WeaponId::Awp),
                ],
            }
        } else {
            match category {
                BuyCategory::Pistols => seq![
                    Some(WeaponId::Glock18),
                    Some(WeaponId::DualBerettas),
                    Some(WeaponId::P250),
                    Some(WeaponId::Tec9),
                    Some(WeaponId::Deagle),
                ],
                BuyCategory::MidTier => seq![
                    Some(WeaponId::Mac10),
                    Some(WeaponId::Mp7),
                    Some(WeaponId::Ump45),
                    Some(WeaponId::P90),
                    Some(WeaponId::Xm1014),
                ],
                BuyCategory::Rifles => seq![
                    Some(WeaponId::AK47),
                    Some(WeaponId::Galil),
                    Some(WeaponId::Sg553),
                    Some(WeaponId::Ssg08),
                    Some(WeaponId::Awp),
                ],
            }
        }
    }

    pub fn for_side(side: PlayerSide) -> (r: Self)
        ensures
            forall|c: BuyCategory| r.spec_slots(c) == Self::spec_for_side(side, c),
            side != PlayerSide::Any ==> r.buyable_by(side),
    {
        let r = if side == PlayerSide::Defender {
            SideBuyLoadout {
                pistols: [
                    Some(WeaponId::Usps),
                    Some(WeaponId::DualBerettas),
                    Some(WeaponId::P250),
                    Some(WeaponId::FiveSeven),
                    Some(WeaponId::Deagle),
                ],
                mid_tier: [
                    Some(WeaponId::Mp9),
                    Some(WeaponId::Mp7),
                    Some(WeaponId::Ump45),
                    Some(WeaponId::P90),
                    Some(WeaponId::Xm1014),
                ],
                rifles: [
                    Some(WeaponId::M4a4),
                    Some(WeaponId::M4a1s),
                    Some(WeaponId::Famas),
                    Some(WeaponId::Ssg08),
                    Some(WeaponId::Awp),
                ],
            }
        } else {
            SideBuyLoadout {
                pistols: [
                    Some(WeaponId::Glock18),
                    Some(WeaponId::DualBerettas),
                    Some(WeaponId::P250),
                    Some(WeaponId::Tec9),
                    Some(WeaponId::Deagle),
                ],
                mid_tier: [
                    Some(WeaponId::Mac10),
                    Some(WeaponId::Mp7),
                    Some(WeaponId::Ump45),
                    Some(WeaponId::P90),
                    Some(WeaponId::Xm1014),
                ],
                rifles: [
                    Some(WeaponId::AK47),
                    Some(WeaponId::Galil),
                    Some(WeaponId::Sg553),
                    Some(WeaponId::Ssg08),
                    Some(WeaponId::Awp),
                ],
            }
        };
        assert forall|c: BuyCategory| r.spec_slots(c) =~= Self::spec_for_side(side, c) by {}
        assert(side != PlayerSide::Any ==> r.buyable_by(side)) by {
            if side != PlayerSide::Any {
                assert forall|c: BuyCategory, i: int|
                    0 <= i < BUY_SLOT_COUNT && (#[trigger] r.spec_slots(c)[i]) is Some implies r.spec_slots(
                        c,
                    )[i]->0.spec_available_on(side) by {
                    assert(0 <= i < 5);
                }
            }
        }
        r
    }

    /// A loadout with every slot empty.
    pub fn empty() -> (r: Self)
        ensures
            forall|c: BuyCategory| r.spec_slots(c) == seq![None::<WeaponId>, None, None, None, None],
            forall|side: PlayerSide| r.buyable_by(side),
    {
        let r = SideBuyLoadout {
            pistols: [None, None, None, None, None],
            mid_tier: [None, None, None, None, None],
            rifles: [None, None, None, None, None],
        };
        assert forall|c: BuyCategory| r.spec_slots(c) =~= seq![None::<WeaponId>, None, None, None, None] by {}
        r
    }

    pub fn slots(&self, category: BuyCategory) -> (r: &[Option<WeaponId>; 5])
        ensures
            r@ == self.spec_slots(category),
    {
        match category {
            BuyCategory::Pistols => &self.pistols,
            BuyCategory::MidTier => &self.mid_tier,
            BuyCategory::Rifles => &self.rifles,
        }
    }

    /// The first weapon found among the rifles, then the mid-tier slots, then the pistols.
    pub fn first_gun(&self) -> (r: Option<WeaponId>)
        ensures
            r == first_some(
                self.spec_slots(BuyCategory::Rifles) + self.spec_slots(BuyCategory::MidTier)
                    + self.spec_slots(BuyCategory::Pistols),
            ),
    {
        let ghost all = self.spec_slots(BuyCategory::Rifles) + self.spec_slots(BuyCategory::MidTier)
            + self.spec_slots(BuyCategory::Pistols);
        proof {
            use_type_invariant(self);
        }
        assert(all.skip(0) =~= all);
        let mut k: usize = 0;
        while k < 15
            invariant
                all.len() == 15,
                all == self.spec_slots(BuyCategory::Rifles) + self.spec_slots(BuyCategory::MidTier)
                    + self.spec_slots(BuyCategory::Pistols),
                self.valid(),
                k <= 15,
                first_some(all) == first_some(all.skip(k as int)),
            decreases 15 - k,
        {
            let slot = if k < 5 {
                self.rifles[k]
            } else if k < 10 {
                self.mid_tier[k - 5]
            } else {
                self.pistols[k - 10]
            };
            assert(slot == all[k as int]);
            assert(all.skip(k as int).drop_first() =~= all.skip(k + 1));
            if slot.is_some() {
                return slot;
            }
            k += 1;
        }
        assert(all.skip(15).len() == 0);
        None
    }

    /// Places `weapon` (or clears the slot, for `None`) at `index` of `category`.
    /// Nothing changes when the index is out of range or the weapon does not belong
    /// to the category or is not available to `side`.
    pub fn set(
        &mut self,
        category: BuyCategory,
        index: usize,
        weapon: Option<WeaponId>,
        side: PlayerSide,
    )
        ensures
            final(self).valid(),
            (index >= BUY_SLOT_COUNT || (weapon is Some && !category.spec_accepts_for(
                weapon->0,
                side,
            ))) ==> *final(self) == *old(self),
            !(index >= BUY_SLOT_COUNT || (weapon is Some && !category.spec_accepts_for(
                weapon->0,
                side,
            ))) ==> {
                &&& final(self).spec_slots(category) == placed(
                    old(self).spec_slots(category),
                    index as int,
                    weapon,
                )
                &&& forall|c: BuyCategory|
                    c != category ==> final(self).spec_slots(c) == old(self).spec_slots(c)
            },
            old(self).buyable_by(side) ==> final(self).buyable_by(side),
    {
        proof {
            use_type_invariant(&*self);
        }
        let refuse = match weapon {
            Some(w) => !category.accepts_for(w, side),
            None => false,
        };
        if index >= BUY_SLOT_COUNT || refuse {
            return;
        }
        let mut slots: [Option<WeaponId>; 5] = *self.slots(category);
        let ghost before = slots@;
        if weapon.is_some() {
            let mut i: usize = 0;
            while i < 5
                invariant
                    i <= 5,
                    weapon is Some,
                    slots@.len() == 5,
                    before.len() == 5,
                    forall|k: int|
                        0 <= k < i ==> slots@[k] == (if before[k] == weapon {
                            None
                        } else {
                            before[k]
                        }),
                    forall|k: int| i <= k < 5 ==> slots@[k] == before[k],
                decreases 5 - i,
            {
                if slots[i] == weapon {
                    slots[i] = None;
                }
                i += 1;
            }
        }
        slots[index] = weapon;
        proof {
            assert(slots@ =~= placed(before, index as int, weapon));
            let old_slots = before;
            assert(slots_valid(old_slots, category));
            assert forall|i: int|
                0 <= i < slots@.len() && (#[trigger] slots@[i]) is Some implies slots@[i]->0.spec_buy_category()
                == Some(category) by {
                if i != index {
                    assert(slots@[i] == before[i]);
                }
            }
            assert forall|i: int, j: int|
                0 <= i < j < slots@.len() && (#[trigger] slots@[i]) is Some implies slots@[i]
                != #[trigger] slots@[j] by {
                let cleared_i = if before[i] == weapon { None } else { before[i] };
                let cleared_j = if before[j] == weapon { None } else { before[j] };
                if i != index {
                    assert(slots@[i] == cleared_i);
                }
                if j != index {
                    assert(slots@[j] == cleared_j);
                }
                if i != index && j != index && before[i] is Some {
                    assert(before[i] != before[j]);
                }
            }
        }
        let ghost was = *self;
        match category {
            BuyCategory::Pistols => {
                self.pistols = slots;
            },
            BuyCategory::MidTier => {
                self.mid_tier = slots;
            },
            BuyCategory::Rifles => {
                self.rifles = slots;
            },
        }
        proof {
            if was.buyable_by(side) {
                assert forall|c: BuyCategory, i: int|
                    0 <= i < BUY_SLOT_COUNT && (#[trigger] self.spec_slots(c)[i]) is Some implies self.spec_slots(
                        c,
                    )[i]->0.spec_available_on(side) by {
                    if c == category && i != index {
                        assert(self.spec_slots(c)[i] == before[i] || self.spec_slots(c)[i] is None);
                        assert(before[i] == was.spec_slots(c)[i]);
                    } else if c != category {
                        assert(self.spec_slots(c)[i] == was.spec_slots(c)[i]);
                    }
                }
            }
        }
    }
}

impl Default for SideBuyLoadout {
    fn default() -> (r: Self)
        ensures
            forall|c: BuyCategory|
                r.spec_slots(c) == SideBuyLoadout::spec_for_side(PlayerSide::Attacker, c),
    {
        Self::for_side(PlayerSide::Attacker)
    }
}

/// Buy loadouts of both sides.
#[derive(Clone, Copy)]
pub struct BuyLoadouts {
    pub attacker: SideBuyLoadout,
    pub defender: SideBuyLoadout,
}

impl Default for BuyLoadouts {
    fn default() -> (r: Self)
        ensures
            forall|c: BuyCategory|
                r.attacker.spec_slots(c) == SideBuyLoadout::spec_for_side(PlayerSide::Attacker, c),
            forall|c: BuyCategory|
                r.defender.spec_slots(c) == SideBuyLoadout::spec_for_side(PlayerSide::Defender, c),
    {
        BuyLoadouts {
            attacker: SideBuyLoadout::for_side(PlayerSide::Attacker),
            defender: SideBuyLoadout::for_side(PlayerSide::Defender),
        }
    }
}

impl BuyLoadouts {
    /// The loadout a side buys from: defenders use theirs, everyone else the attacker one.
    pub open spec fn spec_side(self, side: PlayerSide) -> SideBuyLoadout {
        if side == PlayerSide::Defender {
            self.defender
        } else {
            self.attacker
        }
    }

    pub fn side(&self, side: PlayerSide) -> (r: &SideBuyLoadout)
        ensures
            *r == self.spec_side(side),
    {
        if side == PlayerSide::Defender {
            &self.defender
        } else {
            &self.attacker
        }
    }

    pub fn side_mut(&mut self, side: PlayerSide) -> (r: &mut SideBuyLoadout)
        ensures
            *r == old(self).spec_side(side),
            side == PlayerSide::Defender ==> final(self).defender == *final(r)
                && final(self).attacker == old(self).attacker,
            side != PlayerSide::Defender ==> final(self).attacker == *final(r)
                && final(self).defender == old(self).defender,
    {
        if side == PlayerSide::Defender {
            &mut self.defender
        } else {
            &mut self.attacker
        }
    }
}

/// The player's loadout.
pub struct PlayerLoadout {
    pub primary_weapon: WeaponId,
    pub selected_skin: SkinId,
    pub melee_weapon: WeaponId,
    /// Weapons offered for purchase, independent of the currently held weapon.
    pub buy_weapons: BuyLoadouts,
}

impl Default for PlayerLoadout {
    fn default() -> (r: Self)
        ensures
            r.primary_weapon == WeaponId::AK47,
            r.melee_weapon == WeaponId::DefaultKnife,
            r.selected_skin == SkinId::Soldier,
            forall|c: BuyCategory|
                r.buy_weapons.attacker.spec_slots(c) == SideBuyLoadout::spec_for_side(
                    PlayerSide::Attacker,
                    c,
                ),
            forall|c: BuyCategory|
                r.buy_weapons.defender.spec_slots(c) == SideBuyLoadout::spec_for_side(
                    PlayerSide::Defender,
                    c,
                ),
    {
        PlayerLoadout {
            primary_weapon: WeaponId::AK47,
            melee_weapon: WeaponId::DefaultKnife,
            selected_skin: SkinId::default(),
            buy_weapons: BuyLoadouts::default(),
        }
    }
}

impl PlayerLoadout {
    /// The gun an actor of `side` spawns with.
    pub open spec fn spec_spawn_gun(self, side: PlayerSide) -> WeaponId {
        let side_loadout = self.buy_weapons.spec_side(side);
        let first = first_some(
            side_loadout.spec_slots(BuyCategory::Rifles) + side_loadout.spec_slots(
                BuyCategory::MidTier,
            ) + side_loadout.spec_slots(BuyCategory::Pistols),
        );
        match first {
            Some(w) => if w.spec_available_on(side) {
                w
            } else {
                self.primary_weapon
            },
            None => self.primary_weapon,
        }
    }

    /// The first buyable gun of the side's loadout when that side may use it,
    /// the primary weapon otherwise.
    pub fn spawn_gun(&self, side: PlayerSide) -> (r: WeaponId)
        ensures
            r == self.spec_spawn_gun(side),
    {
        match self.buy_weapons.side(side).first_gun() {
            Some(w) => if w.available_on(side) {
                w
            } else {
                self.primary_weapon
            },
            None => self.primary_weapon,
        }
    }
}

} // verus!

verus! {

/// Difficulty keys tell the difficulties apart.
pub proof fn lemma_difficulty_key_injective(a: BotDifficulty, b: BotDifficulty)
    ensures
        a.spec_key() == b.spec_key() ==> a == b,
{
    reveal_strlit("easy");
    reveal_strlit("normal");
    reveal_strlit("hard");
    if a.spec_key() == b.spec_key() && a != b {
        assert(a.spec_key().len() != b.spec_key().len() || a.spec_key()[0] != b.spec_key()[0]);
    }
}

/// Mode keys tell the modes apart.
pub proof fn lemma_mode_key_injective(a: GameMode, b: GameMode)
    ensures
        a.spec_key() == b.spec_key() ==> a == b,
{
    reveal_strlit("free");
    reveal_strlit("dm");
    reveal_strlit("tdm");
    if a.spec_key() == b.spec_key() && a != b {
        assert(a.spec_key().len() != b.spec_key().len() || a.spec_key()[0] != b.spec_key()[0]);
    }
}

/// Map keys tell the maps apart.
pub proof fn lemma_map_key_injective(a: MapId, b: MapId)
    ensures
        a.spec_key() == b.spec_key() ==> a == b,
{
    reveal_strlit("warehouse");
    reveal_strlit("dust2");
    reveal_strlit("mirage");
    if a.spec_key() == b.spec_key() && a != b {
        assert(a.spec_key().len() != b.spec_key().len() || a.spec_key()[0] != b.spec_key()[0]);
    }
}

/// Decoding a mode's wire code gives the mode back.
pub proof fn lemma_mode_code_roundtrip(m: GameMode)
    ensures
        GameMode::spec_from_code(m.spec_code()) == m,
{
}

/// Decoding a map's wire code gives the map back.
pub proof fn lemma_map_code_roundtrip(m: MapId)
    ensures
        MapId::spec_from_code(m.spec_code()) == m,
{
}

} // verus!
