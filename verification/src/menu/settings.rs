use vstd::prelude::*;
use super::MenuOption;
use crate::burro::{fire_rate, next_fire_cooldown};
use crate::config::MAX_NUMBER_OF_PLAYERS;
use crate::game_state::{BurroState, GameState, bot_seats, choices_fit, claimed_burros, unclaimed_below};
use crate::util::num_ext::RangedWrap;
use crate::util::text::{decimal_string, decimal_text};

verus! {

/// The rows of the settings menu.
#[derive(Clone, Copy, Debug, PartialEq, Eq, Structural)]
pub enum Settings {
    NumberOfBots,
    UnfairAdvantage,
    Vamos,
}

/// The settings chosen before a game.
pub struct SettingsMenuState {
    pub selected_setting: Settings,
    pub number_of_players: isize,
    pub number_of_bots: isize,
    /// 0, 1 or 2: how strong the mechaburro is.
    pub unfair_advantage: isize,
}

/// The name shown for each level of unfair advantage.
pub open spec fn advantage_name(level: isize) -> Seq<char> {
    if level == 0 {
        "Mechaburrito"@
    } else if level == 1 {
        " Mechaburro "@
    } else {
        "Mechagigante"@
    }
}

impl MenuOption for Settings {
    open spec fn count() -> nat {
        3
    }

    open spec fn spec_position(&self) -> nat {
        match self {
            Settings::NumberOfBots => 0,
            Settings::UnfairAdvantage => 1,
            Settings::Vamos => 2,
        }
    }

    open spec fn spec_label(&self) -> Seq<char> {
        match self {
            Settings::NumberOfBots => "Number of Bots"@,
            Settings::UnfairAdvantage => "Unfair Advantage"@,
            Settings::Vamos => "¡Vamos!"@,
        }
    }

    proof fn position_identifies(a: Self, b: Self) {
    }

    proof fn position_in_menu(option: Self) {
    }

    fn option_count() -> (r: usize) {
        3
    }

    fn position(&self) -> (r: usize) {
        match self {
            Settings::NumberOfBots => 0,
            Settings::UnfairAdvantage => 1,
            Settings::Vamos => 2,
        }
    }

    fn at(position: usize) -> (r: Self) {
        if position == 0 {
            Settings::NumberOfBots
        } else if position == 1 {
            Settings::UnfairAdvantage
        } else {
            Settings::Vamos
        }
    }

    fn get_label(&self) -> (r: &'static str) {
        match self {
            Settings::NumberOfBots => "Number of Bots",
            Settings::UnfairAdvantage => "Unfair Advantage",
            Settings::Vamos => "¡Vamos!",
        }
    }
}

impl SettingsMenuState {
    /// The menu as it opens: nothing chosen, first row highlighted.
    pub fn new() -> (r: SettingsMenuState)
        ensures
            r.selected_setting == Settings::NumberOfBots,
            r.number_of_players == 0,
            r.number_of_bots == 0,
            r.unfair_advantage == 0,
    {
        SettingsMenuState {
            selected_setting: Settings::NumberOfBots,
            number_of_players: 0,
            number_of_bots: 0,
            unfair_advantage: 0,
        }
    }

    pub open spec fn spec_max_bots(&self) -> int {
        MAX_NUMBER_OF_PLAYERS - self.number_of_players
    }

    pub open spec fn spec_min_bots(&self) -> int {
        if self.number_of_players == 1 {
            1
        } else {
            0
        }
    }

    /// The text shown for a row: the number of bots, the name of the advantage level, or
    /// the row's label.
    pub open spec fn spec_display(&self, setting: Settings) -> Seq<char> {
        match setting {
            Settings::NumberOfBots => decimal_text(self.number_of_bots as int),
            Settings::UnfairAdvantage => advantage_name(self.unfair_advantage),
            Settings::Vamos => setting.spec_label(),
        }
    }

    pub fn display(&self, setting: &Settings) -> (r: String)
        ensures
            r@ == self.spec_display(*setting),
    {
        match setting {
            Settings::NumberOfBots => decimal_string(self.number_of_bots as i128),
            Settings::UnfairAdvantage => {
                if self.unfair_advantage == 0 {
                    "Mechaburrito".to_string()
                } else if self.unfair_advantage == 1 {
                    " Mechaburro ".to_string()
                } else {
                    "Mechagigante".to_string()
                }
            },
            setting => setting.get_label().to_string(),
        }
    }

    /// The most bots that fit beside the players.
    pub fn max_bots(&self) -> (r: isize)
        requires
            self.number_of_players >= MAX_NUMBER_OF_PLAYERS - isize::MAX,
        ensures
            r == self.spec_max_bots(),
    {
        MAX_NUMBER_OF_PLAYERS - self.number_of_players
    }

    /// The fewest bots: a lone player needs at least one opponent.
    pub fn min_bots(&self) -> (r: isize)
        ensures
            r == self.spec_min_bots(),
    {
        if self.number_of_players == 1 {
            1
        } else {
            0
        }
    }

    /// The inputs on which changing the highlighted row's value stays inside `isize`.
    pub open spec fn step_defined(&self, forward: bool) -> bool {
        match self.selected_setting {
            Settings::NumberOfBots => {
                &&& self.number_of_players >= MAX_NUMBER_OF_PLAYERS - isize::MAX
                &&& if forward {
                    self.number_of_bots.increment_defined(self.spec_min_bots() as isize, self.spec_max_bots() as isize)
                } else {
                    self.number_of_bots.decrement_defined(self.spec_min_bots() as isize, self.spec_max_bots() as isize)
                }
            },
            Settings::UnfairAdvantage => if forward {
                self.unfair_advantage.increment_defined(0, 2)
            } else {
                self.unfair_advantage.decrement_defined(0, 2)
            },
            Settings::Vamos => true,
        }
    }

    /// Steps the highlighted row's value forward, wrapping around its range: the number of
    /// bots within `[min_bots, max_bots]`, the advantage within `[0, 2]`.
    pub fn increment(&mut self)
        requires
            old(self).step_defined(true),
        ensures
            old(self).selected_setting == Settings::NumberOfBots ==> *final(self) == (SettingsMenuState {
                number_of_bots: old(self).number_of_bots.spec_circular_increment(
                    old(self).spec_min_bots() as isize,
                    old(self).spec_max_bots() as isize,
                ),
                ..*old(self)
            }),
            old(self).selected_setting == Settings::UnfairAdvantage ==> *final(self) == (SettingsMenuState {
                unfair_advantage: old(self).unfair_advantage.spec_circular_increment(0, 2),
                ..*old(self)
            }),
            old(self).selected_setting == Settings::Vamos ==> *final(self) == *old(self),
    {
        match self.selected_setting {
            Settings::NumberOfBots => {
                let lower = self.min_bots();
                let upper = self.max_bots();
                self.number_of_bots = self.number_of_bots.circular_increment(lower, upper);
            },
            Settings::UnfairAdvantage => {
                self.unfair_advantage = self.unfair_advantage.circular_increment(0, 2);
            },
            _ => {},
        }
    }

    /// Steps the highlighted row's value back, wrapping around its range.
    pub fn decrement(&mut self)
        requires
            old(self).step_defined(false),
        ensures
            old(self).selected_setting == Settings::NumberOfBots ==> *final(self) == (SettingsMenuState {
                number_of_bots: old(self).number_of_bots.spec_circular_decrement(
                    old(self).spec_min_bots() as isize,
                    old(self).spec_max_bots() as isize,
                ),
                ..*old(self)
            }),
            old(self).selected_setting == Settings::UnfairAdvantage ==> *final(self) == (SettingsMenuState {
                unfair_advantage: old(self).unfair_advantage.spec_circular_decrement(0, 2),
                ..*old(self)
            }),
            old(self).selected_setting == Settings::Vamos ==> *final(self) == *old(self),
    {
        match self.selected_setting {
            Settings::NumberOfBots => {
                let lower = self.min_bots();
                let upper = self.max_bots();
                self.number_of_bots = self.number_of_bots.circular_decrement(lower, upper);
            },
            Settings::UnfairAdvantage => {
                self.unfair_advantage = self.unfair_advantage.circular_decrement(0, 2);
            },
            _ => {},
        }
    }

    /// The difficulty of the game, in halves: the advantage level plus one half.
    pub open spec fn spec_difficulty_halves(&self) -> int {
        2 * self.unfair_advantage + 1
    }

    /// Starts a game for the chosen players with the chosen number of bots and the chosen
    /// advantage; bots draw their burros at random among those not taken.
    pub fn start_game(&self, players: Vec<BurroState>, burro_asset_count: usize) -> (r: GameState)
        requires
            0 <= self.number_of_bots <= unclaimed_below(claimed_burros(players@), burro_asset_count as nat).len(),
            0 <= self.unfair_advantage <= 0x7fff_ffff,
        ensures
            exists|choices: Seq<usize>| {
                &&& choices.len() == self.number_of_bots
                &&& choices_fit(unclaimed_below(claimed_burros(players@), burro_asset_count as nat).len(), choices)
                &&& r.burros@ == players@ + bot_seats(players@, choices, burro_asset_count as nat)
            },
            r.dead_burros@ == Seq::<usize>::empty(),
            r.current_level == 0,
            r.difficulty_halves == self.spec_difficulty_halves(),
    {
        let bots = self.number_of_bots as usize;
        let halves = 2 * (self.unfair_advantage as usize) + 1;
        GameState::initialize(players, bots, halves, burro_asset_count)
    }
}

/// Stepping a setting keeps it in its range: the number of bots stays within
/// `[min_bots, max_bots]` and the advantage within `[0, 2]`, and a step back undoes a step
/// forward.
pub proof fn settings_stay_in_range(state: SettingsMenuState)
    requires
        0 <= state.number_of_players <= MAX_NUMBER_OF_PLAYERS,
        state.spec_min_bots() <= state.number_of_bots <= state.spec_max_bots(),
        0 <= state.unfair_advantage <= 2,
    ensures
        state.number_of_bots.increment_defined(state.spec_min_bots() as isize, state.spec_max_bots() as isize),
        state.number_of_bots.decrement_defined(state.spec_min_bots() as isize, state.spec_max_bots() as isize),
        state.spec_min_bots() <= state.number_of_bots.spec_circular_increment(
            state.spec_min_bots() as isize,
            state.spec_max_bots() as isize,
        ) <= state.spec_max_bots(),
        state.spec_min_bots() <= state.number_of_bots.spec_circular_decrement(
            state.spec_min_bots() as isize,
            state.spec_max_bots() as isize,
        ) <= state.spec_max_bots(),
        0 <= state.unfair_advantage.spec_circular_increment(0, 2) <= 2,
        0 <= state.unfair_advantage.spec_circular_decrement(0, 2) <= 2,
        state.unfair_advantage.spec_circular_increment(0, 2).spec_circular_decrement(0, 2) == state.unfair_advantage,
{
    crate::util::num_ext::isize_wrap_round_trip(
        state.number_of_bots,
        state.spec_min_bots() as isize,
        state.spec_max_bots() as isize,
    );
    crate::util::num_ext::isize_wrap_round_trip(state.unfair_advantage, 0, 2);
}

/// At every level of unfair advantage, Mechaburrito included, the mechaburro recharges
/// strictly faster than the other burros: its cooldown drains at a higher rate, and over a
/// frame from a cooldown within range it ends lower whenever the other burro's stays above
/// its floor.
pub proof fn mechaburro_faster_at_every_advantage(state: SettingsMenuState, cooldown: i64, delta_ms: u32)
    requires
        0 <= state.unfair_advantage <= 2,
    ensures
        fire_rate(true, state.spec_difficulty_halves() as u32) > fire_rate(false, state.spec_difficulty_halves() as u32),
        delta_ms > 0 && cooldown <= 3000 && next_fire_cooldown(
            cooldown,
            false,
            state.spec_difficulty_halves() as u32,
            delta_ms,
        ) > -10000 ==> next_fire_cooldown(cooldown, true, state.spec_difficulty_halves() as u32, delta_ms)
            < next_fire_cooldown(cooldown, false, state.spec_difficulty_halves() as u32, delta_ms),
{
    crate::burro::mechaburro_recharges_faster(cooldown, state.spec_difficulty_halves() as u32, delta_ms);
}

/// The limits on the number of bots: at least as many as make a match of two burros and no
/// more, so only a lone player needs a bot, and at most as many as fill the remaining seats.
pub proof fn bot_limits_make_a_match(state: SettingsMenuState)
    requires
        1 <= state.number_of_players <= MAX_NUMBER_OF_PLAYERS,
    ensures
        state.spec_min_bots() >= 0,
        state.number_of_players + state.spec_min_bots() >= 2,
        state.spec_min_bots() > 0 ==> state.number_of_players + state.spec_min_bots() - 1 < 2,
        state.number_of_players + state.spec_max_bots() == MAX_NUMBER_OF_PLAYERS,
        state.spec_min_bots() <= state.spec_max_bots(),
{
}

} // verus!
