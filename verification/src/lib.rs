//! Game rules, protocol bookkeeping and account logic of Open Strike, verified with Verus.
use vstd::prelude::*;

pub mod config;
pub mod credentials;
pub mod equipment;
pub mod game;
pub mod hub;
pub mod hud;
pub mod level;
pub mod loadout_editor;
pub mod local;
pub mod matchplay;
pub mod menu;
pub mod scenario;
pub mod net;
pub mod skins;
pub mod strike_hub;
pub mod text;
pub mod text_field;

verus! {
}
