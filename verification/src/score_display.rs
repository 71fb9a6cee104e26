use vstd::prelude::*;
use crate::burro::clamp;
use crate::game_state::BurroState;
use crate::util::text::{decimal_string, decimal_text};

verus! {

/// How long each step of the results screen lasts, in milliseconds.
pub const STEP_MS: u64 = 1000;

/// The steps of the results screen after a round.
#[derive(Clone, Copy, Debug, PartialEq, Eq, Structural)]
pub enum Script {
    Initial,
    MoveToLevelResults,
    AddScore,
    MoveOffScreen,
    MoveToCurrentRanking,
    Wait,
}

/// What the results screen does this frame.
#[derive(Clone, Copy, Debug, PartialEq, Eq, Structural)]
pub enum ScriptAction {
    /// Nothing new.
    Nothing,
    /// Award the round's points.
    AddScore,
    /// Slide the burros off screen.
    MoveOffScreen,
    /// Bring the burros back in the order of the overall standings.
    ShowRanking,
    /// Leave the screen for the next level (or the end of the game).
    AdvanceLevel,
}

/// The results screen: its step and the time left before the next one.
pub struct ScoreDisplayState {
    pub script_step: Script,
    pub remaining_ms: u64,
}

/// The step that follows a finished step, with its duration and what happens on the way.
/// The last step waits for the continue button.
pub open spec fn script_after(step: Script, continue_pressed: bool) -> (Script, u64, ScriptAction) {
    match step {
        Script::Initial => (Script::MoveToLevelResults, STEP_MS, ScriptAction::Nothing),
        Script::MoveToLevelResults => (Script::AddScore, STEP_MS, ScriptAction::Nothing),
        Script::AddScore => (Script::MoveOffScreen, STEP_MS, ScriptAction::AddScore),
        Script::MoveOffScreen => (Script::MoveToCurrentRanking, STEP_MS, ScriptAction::MoveOffScreen),
        Script::MoveToCurrentRanking => (Script::Wait, STEP_MS, ScriptAction::ShowRanking),
        Script::Wait => (Script::Wait, 0, if continue_pressed { ScriptAction::AdvanceLevel } else { ScriptAction::Nothing }),
    }
}

impl ScoreDisplayState {
    /// The screen as it opens: the first step is already due.
    pub fn new() -> (r: ScoreDisplayState)
        ensures
            r.script_step == Script::Initial,
            r.remaining_ms == 0,
    {
        ScoreDisplayState { script_step: Script::Initial, remaining_ms: 0 }
    }

    /// One frame of `delta_ms` milliseconds. Pressing continue ends the current step at once.
    /// When the step's time is up the screen moves on, as `script_after` says.
    pub fn update(&mut self, delta_ms: u64, continue_pressed: bool) -> (r: ScriptAction)
        ensures
            ({
                let left = if continue_pressed || old(self).remaining_ms <= delta_ms {
                    0
                } else {
                    old(self).remaining_ms - delta_ms
                };
                &&& left > 0 ==> r == ScriptAction::Nothing && final(self).script_step == old(self).script_step
                    && final(self).remaining_ms == left
                &&& left == 0 ==> {
                    let (step, duration, action) = script_after(old(self).script_step, continue_pressed);
                    &&& r == action
                    &&& final(self).script_step == step
                    &&& final(self).remaining_ms == duration
                }
            }),
    {
        if continue_pressed {
            self.remaining_ms = 0;
        }
        self.remaining_ms = if self.remaining_ms <= delta_ms { 0 } else { self.remaining_ms - delta_ms };
        if self.remaining_ms > 0 {
            return ScriptAction::Nothing;
        }
        match self.script_step {
            Script::Initial => {
                self.remaining_ms = STEP_MS;
                self.script_step = Script::MoveToLevelResults;
                ScriptAction::Nothing
            },
            Script::MoveToLevelResults => {
                self.remaining_ms = STEP_MS;
                self.script_step = Script::AddScore;
                ScriptAction::Nothing
            },
            Script::AddScore => {
                self.remaining_ms = STEP_MS;
                self.script_step = Script::MoveOffScreen;
                ScriptAction::AddScore
            },
            Script::MoveOffScreen => {
                self.remaining_ms = STEP_MS;
                self.script_step = Script::MoveToCurrentRanking;
                ScriptAction::MoveOffScreen
            },
            Script::MoveToCurrentRanking => {
                self.remaining_ms = STEP_MS;
                self.script_step = Script::Wait;
                ScriptAction::ShowRanking
            },
            Script::Wait => {
                if continue_pressed {
                    ScriptAction::AdvanceLevel
                } else {
                    ScriptAction::Nothing
                }
            },
        }
    }
}

/// The ordinal shown for a place in the results, 0 being first; places past the eighth show
/// as eighth.
pub open spec fn ordinal_label(place: usize) -> Seq<char> {
    if place == 0 {
        "1st"@
    } else if place == 1 {
        "2nd"@
    } else if place == 2 {
        "3rd"@
    } else if place == 3 {
        "4th"@
    } else if place == 4 {
        "5th"@
    } else if place == 5 {
        "6th"@
    } else if place == 6 {
        "7th"@
    } else {
        "8th"@
    }
}

/// A place in the results of a round.
#[derive(Clone, Copy, Debug)]
pub struct Ranking(pub usize);

impl Ranking {
    /// The ordinal of the place, as shown on screen.
    pub fn label(&self) -> (r: String)
        ensures
            r@ == ordinal_label(self.0),
    {
        let text = if self.0 == 0 {
            "1st"
        } else if self.0 == 1 {
            "2nd"
        } else if self.0 == 2 {
            "3rd"
        } else if self.0 == 3 {
            "4th"
        } else if self.0 == 4 {
            "5th"
        } else if self.0 == 5 {
            "6th"
        } else if self.0 == 6 {
            "7th"
        } else {
            "8th"
        };
        text.to_string()
    }
}

/// The name tag of a seat: "BOT" for bots, "P" and the player's number (counting from one)
/// for humans.
pub open spec fn seat_tag(seat: BurroState) -> Seq<char> {
    if seat.is_bot {
        "BOT"@
    } else {
        "P"@ + decimal_text(seat.player + 1)
    }
}

pub fn seat_label(seat: &BurroState) -> (r: String)
    ensures
        r@ == seat_tag(*seat),
{
    if seat.is_bot {
        "BOT".to_string()
    } else {
        let number = decimal_string(seat.player as i128 + 1);
        let mut text = "P".to_string();
        text.append(number.as_str());
        text
    }
}

/// The points of a seat, as shown on screen.
pub fn score_label(seat: &BurroState) -> (r: String)
    ensures
        r@ == decimal_text(seat.score as int),
{
    decimal_string(seat.score as i128)
}

/// Within one pass through the results screen the round's points are awarded exactly once:
/// only the step that follows `AddScore` awards them, and it leads to a step that never
/// leads back to it.
pub proof fn points_awarded_once(step: Script, continue_pressed: bool)
    ensures
        (script_after(step, continue_pressed).2 == ScriptAction::AddScore) <==> step == Script::AddScore,
        script_after(Script::AddScore, continue_pressed).0 == Script::MoveOffScreen,
        script_after(Script::MoveOffScreen, continue_pressed).0 == Script::MoveToCurrentRanking,
        script_after(Script::MoveToCurrentRanking, continue_pressed).0 == Script::Wait,
        script_after(Script::Wait, continue_pressed).0 == Script::Wait,
{
}

/// The phases of the quick results screen: scores before the round's points, while they are
/// added, after, and the final ranking.
#[derive(Clone, Copy, Debug, PartialEq, Eq, Structural)]
pub enum ScoreStates {
    Initial,
    Adding,
    Added,
    Displaying,
}

/// The quick results screen: its phase, the time left in it, and whether it has been drawn.
#[derive(Clone, Copy, Debug, PartialEq, Eq, Structural)]
pub struct ScoreState {
    pub state: ScoreStates,
    pub cooldown_ms: i64,
    pub first_render: bool,
}

/// What the quick results screen does this frame.
#[derive(Clone, Copy, Debug, PartialEq, Eq, Structural)]
pub enum ScoreFrame {
    /// Keep showing what is on screen.
    Wait,
    /// Leave the screen.
    Leave,
    /// Redraw the seats: with their points or with their ranking, sorted by points or in
    /// seat order, and award the round's points first when asked.
    Render { add_score: bool, show_score: bool, order_by_rank: bool },
}

/// How long each phase of the quick results screen lasts, in milliseconds.
pub const SCORE_PHASE_MS: i64 = 3000;

/// The phase after a finished one.
pub open spec fn phase_after(state: ScoreStates) -> ScoreStates {
    match state {
        ScoreStates::Initial => ScoreStates::Adding,
        ScoreStates::Adding => ScoreStates::Added,
        _ => ScoreStates::Displaying,
    }
}

/// One frame of the quick results screen. The time left runs down (kept within
/// `[-10000, 3000]`). The first frame draws the screen as it is. Later frames wait until the
/// time is up; then the last phase leaves the screen, and any other moves to the next phase
/// for three seconds and redraws it, awarding the round's points when leaving the first phase.
/// The ranking, sorted by points, is shown in the last phase; the points before it.
pub open spec fn score_frame(screen: ScoreState, delta_ms: u64) -> (ScoreState, ScoreFrame) {
    let left = clamp(screen.cooldown_ms - delta_ms, -10000, 3000) as i64;
    if !screen.first_render && left > 0 {
        (ScoreState { cooldown_ms: left, ..screen }, ScoreFrame::Wait)
    } else if !screen.first_render && screen.state == ScoreStates::Displaying {
        (ScoreState { cooldown_ms: left, ..screen }, ScoreFrame::Leave)
    } else {
        let advancing = !screen.first_render;
        let state = if advancing { phase_after(screen.state) } else { screen.state };
        (
            ScoreState {
                state,
                cooldown_ms: if advancing { SCORE_PHASE_MS } else { left },
                first_render: false,
            },
            ScoreFrame::Render {
                add_score: advancing && screen.state == ScoreStates::Initial,
                show_score: state != ScoreStates::Displaying,
                order_by_rank: state == ScoreStates::Displaying,
            },
        )
    }
}

impl ScoreState {
    /// The screen as it opens: first phase, not yet drawn.
    pub fn new() -> (r: ScoreState)
        ensures
            r == (ScoreState { state: ScoreStates::Initial, cooldown_ms: 0, first_render: true }),
    {
        ScoreState { state: ScoreStates::Initial, cooldown_ms: 0, first_render: true }
    }

    /// One frame of `delta_ms` milliseconds, as `score_frame` says.
    pub fn update(&mut self, delta_ms: u64) -> (r: ScoreFrame)
        ensures
            (*final(self), r) == score_frame(*old(self), delta_ms),
    {
        let next = self.cooldown_ms as i128 - delta_ms as i128;
        self.cooldown_ms = if next < -10000 {
            -10000
        } else if next > 3000 {
            3000
        } else {
            next as i64
        };
        let mut add_score = false;
        if !self.first_render {
            if self.cooldown_ms > 0 {
                return ScoreFrame::Wait;
            }
            if self.state == ScoreStates::Displaying {
                return ScoreFrame::Leave;
            }
            add_score = self.state == ScoreStates::Initial;
            self.state = match self.state {
                ScoreStates::Initial => ScoreStates::Adding,
                ScoreStates::Adding => ScoreStates::Added,
                _ => ScoreStates::Displaying,
            };
            self.cooldown_ms = SCORE_PHASE_MS;
        }
        self.first_render = false;
        let displaying = self.state == ScoreStates::Displaying;
        ScoreFrame::Render { add_score, show_score: !displaying, order_by_rank: displaying }
    }
}

/// The quick results screen awards the round's points at most once: only a frame that leaves
/// the first phase awards them, and no frame ever comes back to the first phase after it.
pub proof fn quick_results_award_points_once(screen: ScoreState, delta_ms: u64)
    ensures
        score_frame(screen, delta_ms).1 matches ScoreFrame::Render { add_score: true, .. }
            ==> screen.state == ScoreStates::Initial && score_frame(screen, delta_ms).0.state
            == ScoreStates::Adding,
        screen.state != ScoreStates::Initial ==> score_frame(screen, delta_ms).0.state != ScoreStates::Initial,
{
}

} // verus!
