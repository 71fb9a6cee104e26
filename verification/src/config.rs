use vstd::prelude::*;
use crate::util::text::{decimal_string, decimal_text};

verus! {

/// Seats at the table: players and bots together.
pub const MAX_NUMBER_OF_PLAYERS: isize = 8;

/// Levels played in one game.
pub const NUMBER_OF_LEVELS: usize = 7;

/// The timing rules of a match, in milliseconds.
pub struct GameConfiguration {
    /// How long a burro stays untouchable after it gets back up.
    pub invulnerability_cooldown_ms: u32,
    /// How long a hit burro stays down.
    pub down_cooldown_ms: u32,
    /// Whether the camera follows the burros.
    pub follow_burros: bool,
}

impl Default for GameConfiguration {
    fn default() -> (r: GameConfiguration)
        ensures
            r.invulnerability_cooldown_ms == 1000,
            r.down_cooldown_ms == 1500,
            r.follow_burros,
    {
        GameConfiguration { invulnerability_cooldown_ms: 1000, down_cooldown_ms: 1500, follow_burros: true }
    }
}

/// The model file of a level: `models/level_`, the level's number written with at least two
/// digits, and `.glb`.
pub open spec fn level_asset_text(level: usize) -> Seq<char> {
    "models/level_"@ + (if level < 10 { "0"@ } else { Seq::empty() }) + decimal_text(level as int) + ".glb"@
}

/// The model file to load for a level.
pub fn level_asset_path(level: usize) -> (r: String)
    ensures
        r@ == level_asset_text(level),
{
    let mut text = "models/level_".to_string();
    if level < 10 {
        text.append("0");
    }
    let number = decimal_string(level as i128);
    text.append(number.as_str());
    text.append(".glb");
    text
}

/// The model that the room-by-room level order plays at each level: levels one to six play
/// models 2, 3, 6, 5, 4 and 1, and every other level plays model 0.
pub open spec fn spec_debug_level_model(level: usize) -> usize {
    if level == 1 {
        2
    } else if level == 2 {
        3
    } else if level == 3 {
        6
    } else if level == 4 {
        5
    } else if level == 5 {
        4
    } else if level == 6 {
        1
    } else {
        0
    }
}

/// The model the room-by-room level order plays at `level`.
pub fn debug_level_model(level: usize) -> (r: usize)
    ensures
        r == spec_debug_level_model(level),
{
    if level == 1 {
        2
    } else if level == 2 {
        3
    } else if level == 3 {
        6
    } else if level == 4 {
        5
    } else if level == 5 {
        4
    } else if level == 6 {
        1
    } else {
        0
    }
}

/// The model file the room-by-room level order loads at `level`.
pub fn debug_level_asset_path(level: usize) -> (r: String)
    ensures
        r@ == level_asset_text(spec_debug_level_model(level)),
{
    level_asset_path(debug_level_model(level))
}

} // verus!
