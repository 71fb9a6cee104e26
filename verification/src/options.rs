use vstd::prelude::*;
use crate::character_select::BurroCharacter;

verus! {

/// The rows of the options menu: the number of bots, then the start button.
pub const BOTS_ROW: usize = 0;
pub const START_ROW: usize = 1;

/// What a press on the options menu asks for.
#[derive(Clone, Copy, Debug, PartialEq, Eq, Structural)]
pub enum OptionChange {
    Increase,
    Decrease,
    Select,
}

/// The options chosen before a game: the players who joined, how many they are and how many
/// bots fill in.
pub struct OptionState {
    pub players: Vec<BurroCharacter>,
    pub number_of_players: usize,
    pub number_of_bots: usize,
}

/// What the menu must do after a change.
#[derive(Clone, Copy, Debug, PartialEq, Eq, Structural)]
pub struct OptionOutcome {
    pub play_audio: bool,
    pub start_game: bool,
}

/// The fewest bots for a number of players: a lone player needs one opponent.
pub open spec fn fewest_bots(number_of_players: usize) -> int {
    if number_of_players == 1 { 1 } else { 0 }
}

impl OptionState {
    /// The options for the players who joined: every free seat of the eight gets a bot.
    pub fn initialize(players: Vec<BurroCharacter>) -> (r: OptionState)
        requires
            players@.len() <= 8,
        ensures
            r.players@ == players@,
            r.number_of_players == players@.len(),
            r.number_of_bots == 8 - players@.len(),
    {
        let number_of_players = players.len();
        OptionState { players, number_of_players, number_of_bots: 8 - number_of_players }
    }

    /// Applies a press on the highlighted row. On the bots row, increase adds a bot up to the
    /// free seats and decrease removes one down to the fewest allowed, sounding only when the
    /// number changes; on the start row, select starts the game.
    pub fn change(&mut self, current_option: usize, change: OptionChange) -> (r: OptionOutcome)
        requires
            current_option == BOTS_ROW && change == OptionChange::Increase ==> {
                &&& old(self).number_of_players <= 8
                &&& old(self).number_of_bots < usize::MAX
            },
            current_option == BOTS_ROW && change == OptionChange::Decrease ==> old(self).number_of_bots >= 1,
        ensures
            current_option == BOTS_ROW && change == OptionChange::Increase ==> {
                let wanted = if old(self).number_of_bots + 1 <= 8 - old(self).number_of_players {
                    old(self).number_of_bots + 1
                } else {
                    8 - old(self).number_of_players
                };
                &&& final(self).number_of_bots == wanted
                &&& r.play_audio == (wanted != old(self).number_of_bots)
                &&& !r.start_game
            },
            current_option == BOTS_ROW && change == OptionChange::Decrease ==> {
                let wanted = if old(self).number_of_bots - 1 >= fewest_bots(old(self).number_of_players) {
                    old(self).number_of_bots - 1
                } else {
                    fewest_bots(old(self).number_of_players)
                };
                &&& final(self).number_of_bots == wanted
                &&& r.play_audio == (wanted != old(self).number_of_bots)
                &&& !r.start_game
            },
            current_option == START_ROW ==> {
                &&& final(self).number_of_bots == old(self).number_of_bots
                &&& r.start_game == (change == OptionChange::Select)
                &&& r.play_audio == (change == OptionChange::Select)
            },
            (current_option != BOTS_ROW && current_option != START_ROW) || (current_option == BOTS_ROW
                && change == OptionChange::Select) ==> {
                &&& final(self).number_of_bots == old(self).number_of_bots
                &&& !r.play_audio
                &&& !r.start_game
            },
            final(self).number_of_players == old(self).number_of_players,
            final(self).players@ == old(self).players@,
    {
        if current_option == BOTS_ROW {
            match change {
                OptionChange::Increase => {
                    let room = 8 - self.number_of_players;
                    let wanted = if self.number_of_bots + 1 <= room { self.number_of_bots + 1 } else { room };
                    if wanted != self.number_of_bots {
                        self.number_of_bots = wanted;
                        return OptionOutcome { play_audio: true, start_game: false };
                    }
                    OptionOutcome { play_audio: false, start_game: false }
                },
                OptionChange::Decrease => {
                    let fewest: usize = if self.number_of_players == 1 { 1 } else { 0 };
                    let wanted = if self.number_of_bots - 1 >= fewest { self.number_of_bots - 1 } else { fewest };
                    if wanted != self.number_of_bots {
                        self.number_of_bots = wanted;
                        return OptionOutcome { play_audio: true, start_game: false };
                    }
                    OptionOutcome { play_audio: false, start_game: false }
                },
                OptionChange::Select => OptionOutcome { play_audio: false, start_game: false },
            }
        } else if current_option == START_ROW {
            let start = change == OptionChange::Select;
            OptionOutcome { play_audio: start, start_game: start }
        } else {
            OptionOutcome { play_audio: false, start_game: false }
        }
    }
}

/// Moves the highlighted row of the options menu: up stops at the first row, down at the
/// start row.
pub fn move_option(current_option: usize, up: bool, down: bool) -> (r: usize)
    requires
        down ==> current_option < usize::MAX,
    ensures
        r == ({
            let after_up = if up { if current_option == 0 { 0 } else { current_option - 1 } } else { current_option as int };
            if down { if after_up + 1 <= START_ROW { after_up + 1 } else { START_ROW as int } } else { after_up }
        }),
{
    let mut current = current_option;
    if up {
        current = current.saturating_sub(1);
    }
    if down {
        current = if current + 1 <= START_ROW { current + 1 } else { START_ROW };
    }
    current
}

/// The number of bots stays between the fewest allowed and the free seats: a change on the
/// bots row keeps a number inside that range inside it.
pub proof fn bots_stay_in_range(number_of_players: usize, number_of_bots: usize, increase: bool)
    requires
        number_of_players <= 8,
        fewest_bots(number_of_players) <= number_of_bots <= 8 - number_of_players,
        !increase ==> number_of_bots >= 1,
    ensures
        ({
            let wanted = if increase {
                if number_of_bots + 1 <= 8 - number_of_players { number_of_bots + 1 } else { 8 - number_of_players }
            } else if number_of_bots - 1 >= fewest_bots(number_of_players) {
                number_of_bots - 1
            } else {
                fewest_bots(number_of_players)
            };
            fewest_bots(number_of_players) <= wanted <= 8 - number_of_players
        }),
{
}

} // verus!
