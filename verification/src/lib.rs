//! Configuration model, INI reader/writer, settings updates and game-launch
//! command construction for the MapleLink launcher.

pub mod text;
pub mod decimal;
pub mod config;
pub mod error;
pub mod config_parser;
pub mod round_trip;
pub mod config_field;
pub mod game_launcher;
pub mod shell;
pub mod field_effects;
pub mod ini_entries;
