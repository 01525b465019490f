//! Verified core of the RomM terminal client: library browsing state,
//! text search, OpenAPI endpoint registry, screen state machines and
//! self-update helpers.

pub mod text;
pub mod types;
pub mod json;
pub mod text_search;
pub mod rom_group;
pub mod cache;
pub mod requests;
pub mod library_browse;
pub mod search;
pub mod openapi;
pub mod loading;
pub mod browse;
pub mod execute;
pub mod main_menu;
pub mod splash;
pub mod runtime;
pub mod keys;
pub mod library_keys;
pub mod screen_keys;
pub mod settings;
pub mod update;
pub mod setup_wizard;
pub mod game_detail;
pub mod result;
pub mod theme;
pub mod keyboard_help;
pub mod path_picker;
pub mod downloads;
pub mod extras_picker;

use vstd::prelude::*;

verus! {

} // verus!
