use vstd::prelude::*;
use crate::burro::clamp;

verus! {

/// How long the bots keep fighting once every human has lost, in milliseconds.
pub const ROUND_END_DELAY_MS: i64 = 5000;

/// Counts down the end of a round once no human player is left.
#[derive(Clone, Copy, Debug, PartialEq, Eq, Structural)]
pub struct RoundEndTimer {
    pub round_ending: bool,
    pub cooldown_ms: i64,
}

/// The timer after one frame of `delta_ms` milliseconds, and whether the burros still in
/// the arena must now be eliminated.
pub open spec fn round_end_step(timer: RoundEndTimer, delta_ms: u32, players_died_early: bool) -> (RoundEndTimer, bool) {
    if timer.round_ending {
        let cooldown = clamp(timer.cooldown_ms - delta_ms, -10000, ROUND_END_DELAY_MS as int) as i64;
        (RoundEndTimer { round_ending: true, cooldown_ms: cooldown }, cooldown <= 0)
    } else if players_died_early {
        (RoundEndTimer { round_ending: true, cooldown_ms: ROUND_END_DELAY_MS }, false)
    } else {
        (timer, false)
    }
}

/// The timer after a run of frames in which the humans stay eliminated.
pub open spec fn round_end_run(timer: RoundEndTimer, deltas: Seq<u32>) -> (RoundEndTimer, bool)
    decreases deltas.len(),
{
    if deltas.len() == 0 {
        (timer, false)
    } else {
        let (next, eliminate) = round_end_step(timer, deltas[0], true);
        if deltas.len() == 1 {
            (next, eliminate)
        } else {
            round_end_run(next, deltas.drop_first())
        }
    }
}

/// Total time of a run of frames.
pub open spec fn total_ms(deltas: Seq<u32>) -> int
    decreases deltas.len(),
{
    if deltas.len() == 0 {
        0
    } else {
        deltas[0] + total_ms(deltas.drop_first())
    }
}

impl RoundEndTimer {
    /// A timer that is not counting.
    pub fn new() -> (r: RoundEndTimer)
        ensures
            !r.round_ending,
            r.cooldown_ms == 0,
    {
        RoundEndTimer { round_ending: false, cooldown_ms: 0 }
    }

    /// One frame of `delta_ms` milliseconds. The first frame on which the humans have all
    /// been eliminated starts the countdown; once it has run out, every frame answers that
    /// the burros still in the arena must be eliminated.
    pub fn update(&mut self, delta_ms: u32, players_died_early: bool) -> (eliminate_remaining: bool)
        ensures
            (*final(self), eliminate_remaining) == round_end_step(*old(self), delta_ms, players_died_early),
    {
        if self.round_ending {
            let next = self.cooldown_ms as i128 - delta_ms as i128;
            self.cooldown_ms = if next < -10000 {
                -10000
            } else if next > ROUND_END_DELAY_MS as i128 {
                ROUND_END_DELAY_MS
            } else {
                next as i64
            };
            self.cooldown_ms <= 0
        } else {
            if players_died_early {
                self.cooldown_ms = ROUND_END_DELAY_MS;
                self.round_ending = true;
            }
            false
        }
    }
}

proof fn lemma_round_end_run(timer: RoundEndTimer, deltas: Seq<u32>, spent: int)
    requires
        timer.round_ending,
        0 <= spent,
        timer.cooldown_ms == clamp(ROUND_END_DELAY_MS - spent, -10000, ROUND_END_DELAY_MS as int),
        deltas.len() > 0,
    ensures
        round_end_run(timer, deltas).1 == (spent + total_ms(deltas) >= ROUND_END_DELAY_MS),
        round_end_run(timer, deltas).0.cooldown_ms == clamp(
            ROUND_END_DELAY_MS - spent - total_ms(deltas),
            -10000,
            ROUND_END_DELAY_MS as int,
        ),
    decreases deltas.len(),
{
    lemma_total_nonnegative(deltas.drop_first());
    if deltas.len() > 1 {
        let (next, _) = round_end_step(timer, deltas[0], true);
        lemma_round_end_run(next, deltas.drop_first(), spent + deltas[0]);
    }
}

proof fn lemma_total_nonnegative(deltas: Seq<u32>)
    ensures
        total_ms(deltas) >= 0,
    decreases deltas.len(),
{
    if deltas.len() > 0 {
        lemma_total_nonnegative(deltas.drop_first());
    }
}

/// Once every human has lost, the round ends five seconds later: the countdown starts at
/// five seconds, and after any further run of frames the remaining burros are eliminated
/// exactly when those frames add up to at least five seconds.
pub proof fn round_ends_five_seconds_after_humans_lose(timer: RoundEndTimer, first_delta_ms: u32, deltas: Seq<u32>)
    requires
        !timer.round_ending,
        deltas.len() > 0,
    ensures
        round_end_step(timer, first_delta_ms, true).0.round_ending,
        round_end_step(timer, first_delta_ms, true).0.cooldown_ms == ROUND_END_DELAY_MS,
        !round_end_step(timer, first_delta_ms, true).1,
        round_end_run(round_end_step(timer, first_delta_ms, true).0, deltas).1
            == (total_ms(deltas) >= ROUND_END_DELAY_MS),
{
    let started = round_end_step(timer, first_delta_ms, true).0;
    lemma_round_end_run(started, deltas, 0);
}

} // verus!
