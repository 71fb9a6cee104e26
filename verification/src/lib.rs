//! Game rules of a local multiplayer arena shooter: wrapping menu counters,
//! character selection, round scoring, burro combat state and bot decisions.

pub mod config;
pub mod game_state;
pub mod util;
pub mod burro;
pub mod round;
pub mod menu;
pub mod bot;
pub mod player;
pub mod mecha_picker;
pub mod game_controller;
pub mod score_display;
pub mod options;
pub mod character_select;
pub mod winner;
