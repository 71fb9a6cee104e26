use vstd::prelude::*;
use crate::burro::clamp;
use crate::game_state::{BurroState, GameState, outranks};

verus! {

/// The pause before the winner is announced, in milliseconds.
pub const ANNOUNCEMENT_DELAY_MS: i64 = 2000;

/// How long the winner stays on screen, in milliseconds.
pub const WINNER_SHOWN_MS: i64 = 4000;

/// How long the celebration after the last level lasts at most, in milliseconds.
pub const WINNER_CIRCLE_MS: u64 = 20000;

/// The winner screen: the time left in the current phase, and whether the winner is shown.
#[derive(Clone, Copy, Debug, PartialEq, Eq, Structural)]
pub struct WinnerTimers {
    pub cooldown_ms: i64,
    pub display_set: bool,
}

/// What the winner screen does this frame.
#[derive(Clone, Copy, Debug, PartialEq, Eq, Structural)]
pub enum WinnerStep {
    /// The current phase goes on.
    Wait,
    /// The pause is over: announce the winner.
    ShowWinner,
    /// The winner has been shown long enough: leave the screen.
    Leave,
}

/// The celebration after the last level: the time it has run.
#[derive(Clone, Copy, Debug, PartialEq, Eq, Structural)]
pub struct WinnerCircleTimer {
    pub elapsed_ms: u64,
}

impl WinnerTimers {
    /// The screen as it opens: a pause, nothing shown yet.
    pub fn new() -> (r: WinnerTimers)
        ensures
            r.cooldown_ms == ANNOUNCEMENT_DELAY_MS,
            !r.display_set,
    {
        WinnerTimers { cooldown_ms: ANNOUNCEMENT_DELAY_MS, display_set: false }
    }

    /// One frame of `delta_ms` milliseconds. The time left runs down (kept within
    /// `[-10000, 6000]`); when it is up, the winner is announced and stays for
    /// `WINNER_SHOWN_MS`, after which the screen is left.
    pub fn update(&mut self, delta_ms: u32) -> (r: WinnerStep)
        ensures
            ({
                let left = clamp(old(self).cooldown_ms - delta_ms, -10000, 6000);
                &&& left > 0 ==> r == WinnerStep::Wait && *final(self) == (WinnerTimers {
                    cooldown_ms: left as i64,
                    ..*old(self)
                })
                &&& left <= 0 && old(self).display_set ==> r == WinnerStep::Leave && *final(self) == (WinnerTimers {
                    cooldown_ms: left as i64,
                    ..*old(self)
                })
                &&& left <= 0 && !old(self).display_set ==> r == WinnerStep::ShowWinner && *final(self) == (
                WinnerTimers { cooldown_ms: WINNER_SHOWN_MS, display_set: true })
            }),
    {
        let next = self.cooldown_ms as i128 - delta_ms as i128;
        self.cooldown_ms = if next < -10000 {
            -10000
        } else if next > 6000 {
            6000
        } else {
            next as i64
        };
        if self.cooldown_ms > 0 {
            WinnerStep::Wait
        } else if self.display_set {
            WinnerStep::Leave
        } else {
            self.display_set = true;
            self.cooldown_ms = WINNER_SHOWN_MS;
            WinnerStep::ShowWinner
        }
    }
}

impl WinnerCircleTimer {
    pub fn new() -> (r: WinnerCircleTimer)
        ensures
            r.elapsed_ms == 0,
    {
        WinnerCircleTimer { elapsed_ms: 0 }
    }

    /// One frame of the celebration: it ends when start is pressed, or once it has run for
    /// `WINNER_CIRCLE_MS`. A press ends it without running the clock.
    pub fn tick(&mut self, delta_ms: u64, start_pressed: bool) -> (leave: bool)
        ensures
            start_pressed ==> leave && *final(self) == *old(self),
            !start_pressed ==> final(self).elapsed_ms == (if old(self).elapsed_ms + delta_ms >= WINNER_CIRCLE_MS {
                WINNER_CIRCLE_MS as int
            } else {
                old(self).elapsed_ms + delta_ms
            }) && leave == (final(self).elapsed_ms >= WINNER_CIRCLE_MS),
    {
        if start_pressed {
            return true;
        }
        self.elapsed_ms = if self.elapsed_ms >= WINNER_CIRCLE_MS || delta_ms >= WINNER_CIRCLE_MS - self.elapsed_ms {
            WINNER_CIRCLE_MS
        } else {
            self.elapsed_ms + delta_ms
        };
        self.elapsed_ms >= WINNER_CIRCLE_MS
    }
}

/// The line under the winner's name: congratulations for a human winner, commiseration when a
/// bot has won.
pub open spec fn winner_message_text(is_bot: bool) -> Seq<char> {
    if is_bot {
        "Ay que pena!"@
    } else {
        "Congratulations!"@
    }
}

/// The line shown under the winner's name.
pub fn winner_message(winner: &BurroState) -> (r: String)
    ensures
        r@ == winner_message_text(winner.is_bot),
{
    if winner.is_bot {
        "Ay que pena!".to_string()
    } else {
        "Congratulations!".to_string()
    }
}

/// What the winner screen announces: the seat that won the game (the last of the seats with
/// the most points) and the line under its name; `None` for a game without seats.
pub fn announce_winner(game: &GameState) -> (r: Option<(usize, String)>)
    ensures
        r is None <==> game.burros@.len() == 0,
        r matches Some((w, message)) ==> {
            &&& w < game.burros@.len()
            &&& forall|k: int| 0 <= k < game.burros@.len() ==> !outranks(game.burros@, k, w as int)
            &&& message@ == winner_message_text(game.burros@[w as int].is_bot)
        },
{
    match game.winner() {
        Some(w) => Some((w, winner_message(&game.burros[w]))),
        None => None,
    }
}

} // verus!
