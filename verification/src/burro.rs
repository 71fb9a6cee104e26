use vstd::prelude::*;

verus! {

/// Hits a burro takes before it is eliminated.
pub const STARTING_HEALTH: usize = 3;

/// Time between two shots, in milliseconds.
pub const FIRE_COOLDOWN_MS: i64 = 400;

/// The combat state of one burro in the arena. Cooldowns count down in milliseconds.
#[derive(Clone, Copy, Debug, PartialEq, Eq, Structural)]
pub struct Burro {
    pub selected_burro: usize,
    pub health: usize,
    pub fire_cooldown_ms: i64,
    pub invulnerability_cooldown_ms: i64,
    pub is_visible: bool,
    pub is_mechaburro: bool,
    pub is_down: bool,
    pub down_cooldown_ms: i64,
}

/// What a burro asks of the rest of the game after a frame.
#[derive(Clone, Copy, Debug, PartialEq, Eq)]
pub enum BurroSignal {
    /// Out of health: the burro leaves the round.
    Death,
    /// Show the burro (end of a blink, or end of invulnerability).
    Show,
    /// Hide the burro for the off phase of a blink.
    Hide,
    /// Nothing to do.
    Quiet,
}

/// `value` clamped into `[lower, upper]`.
pub open spec fn clamp(value: int, lower: int, upper: int) -> int {
    if value < lower {
        lower
    } else if value > upper {
        upper
    } else {
        value
    }
}

/// How fast the shooting cooldown runs out: every burro at rate one, except the mechaburro,
/// which recharges at twice the difficulty and never slower than twice the others, so that
/// its cooldown is shorter at every difficulty.
pub open spec fn fire_rate(is_mechaburro: bool, difficulty_halves: u32) -> int {
    if is_mechaburro {
        if difficulty_halves > 2 { difficulty_halves as int } else { 2 }
    } else {
        1
    }
}

/// The shooting cooldown after `delta_ms` milliseconds.
pub open spec fn next_fire_cooldown(cooldown: i64, is_mechaburro: bool, difficulty_halves: u32, delta_ms: u32) -> i64 {
    clamp(cooldown - fire_rate(is_mechaburro, difficulty_halves) * delta_ms, -10000, 3000) as i64
}

/// The invulnerability cooldown after `delta_ms` milliseconds.
pub open spec fn next_invulnerability_cooldown(cooldown: i64, delta_ms: u32) -> i64 {
    clamp(cooldown - delta_ms, -10000, 3000) as i64
}

/// The blink signal of a frame: invulnerability just ended, or the blinking wave (whose sign
/// is `wave`) disagrees with whether the burro is shown.
pub open spec fn blink_signal(was_invulnerable: bool, cooldown_after: i64, is_visible: bool, wave: i8) -> BurroSignal {
    if was_invulnerable && cooldown_after <= 0 {
        BurroSignal::Show
    } else if cooldown_after > 0 {
        if wave > 0 && !is_visible {
            BurroSignal::Show
        } else if wave < 0 && is_visible {
            BurroSignal::Hide
        } else {
            BurroSignal::Quiet
        }
    } else {
        BurroSignal::Quiet
    }
}

fn clamp_ms(value: i128, lower: i64, upper: i64) -> (r: i64)
    requires
        lower <= upper,
    ensures
        r == clamp(value as int, lower as int, upper as int),
{
    if value < lower as i128 {
        lower
    } else if value > upper as i128 {
        upper
    } else {
        value as i64
    }
}

impl Burro {
    /// A fresh burro at full health, ready to shoot.
    pub fn new(selected_burro: usize) -> (r: Burro)
        ensures
            r.selected_burro == selected_burro,
            r.health == STARTING_HEALTH,
            r.fire_cooldown_ms == 0,
            r.invulnerability_cooldown_ms == 0,
            r.is_visible,
            !r.is_mechaburro,
            !r.is_down,
            r.down_cooldown_ms == 0,
    {
        Burro {
            selected_burro,
            health: STARTING_HEALTH,
            fire_cooldown_ms: 0,
            invulnerability_cooldown_ms: 0,
            is_visible: true,
            is_mechaburro: false,
            is_down: false,
            down_cooldown_ms: 0,
        }
    }

    pub open spec fn spec_is_invulnerable(&self) -> bool {
        self.invulnerability_cooldown_ms > 0
    }

    pub open spec fn spec_can_fire(&self) -> bool {
        self.fire_cooldown_ms <= 0 && !self.spec_is_invulnerable()
    }

    pub open spec fn spec_can_be_hit(&self) -> bool {
        !self.is_down && !self.spec_is_invulnerable()
    }

    /// Whether the burro may shoot: its cooldown has run out and it is not invulnerable.
    pub fn can_fire(&self) -> (r: bool)
        ensures
            r == self.spec_can_fire(),
    {
        self.fire_cooldown_ms <= 0 && !self.is_invulnerable()
    }

    /// Starts the cooldown after a shot.
    pub fn fire(&mut self)
        ensures
            *final(self) == (Burro { fire_cooldown_ms: FIRE_COOLDOWN_MS, ..*old(self) }),
            !final(self).spec_can_fire(),
    {
        self.fire_cooldown_ms = FIRE_COOLDOWN_MS;
    }

    /// Takes a hit: a burro that can be hit loses one health (never going below zero) and
    /// goes down for `down_cooldown_ms`; any other burro is left as it was.
    pub fn hit(&mut self, down_cooldown_ms: u32)
        ensures
            old(self).spec_can_be_hit() ==> *final(self) == (Burro {
                health: if old(self).health > 0 { (old(self).health - 1) as usize } else { 0 },
                is_down: true,
                down_cooldown_ms: down_cooldown_ms as i64,
                ..*old(self)
            }),
            !old(self).spec_can_be_hit() ==> *final(self) == *old(self),
            !final(self).spec_can_be_hit(),
    {
        if !self.can_be_hit() {
            return;
        }
        if let Some(health) = self.health.checked_sub(1) {
            self.health = health;
        }
        self.is_down = true;
        self.down_cooldown_ms = down_cooldown_ms as i64;
    }

    /// Whether a bullet can hurt the burro: it is standing and not invulnerable.
    pub fn can_be_hit(&self) -> (r: bool)
        ensures
            r == self.spec_can_be_hit(),
    {
        !self.is_down && !self.is_invulnerable()
    }

    /// Whether the burro is still untouchable after getting back up.
    pub fn is_invulnerable(&self) -> (r: bool)
        ensures
            r == self.spec_is_invulnerable(),
    {
        self.invulnerability_cooldown_ms > 0
    }

    /// One frame of `delta_ms` milliseconds for a burro in the arena. A burro without health
    /// signals its death and changes nothing else. Otherwise the shooting cooldown runs out at
    /// `fire_rate`, the invulnerability runs out at rate one (both clamped to
    /// `[-10000, 3000]`), and the blinking of an invulnerable burro follows the sign `wave`.
    pub fn tick(&mut self, delta_ms: u32, difficulty_halves: u32, wave: i8) -> (r: BurroSignal)
        ensures
            old(self).health == 0 ==> r == BurroSignal::Death && *final(self) == *old(self),
            old(self).health > 0 ==> {
                &&& *final(self) == (Burro {
                    fire_cooldown_ms: next_fire_cooldown(
                        old(self).fire_cooldown_ms,
                        old(self).is_mechaburro,
                        difficulty_halves,
                        delta_ms,
                    ),
                    invulnerability_cooldown_ms: next_invulnerability_cooldown(
                        old(self).invulnerability_cooldown_ms,
                        delta_ms,
                    ),
                    ..*old(self)
                })
                &&& r == blink_signal(
                    old(self).spec_is_invulnerable(),
                    final(self).invulnerability_cooldown_ms,
                    old(self).is_visible,
                    wave,
                )
            },
    {
        if self.health == 0 {
            return BurroSignal::Death;
        }
        let rate: u64 = if !self.is_mechaburro {
            1
        } else if difficulty_halves > 2 {
            difficulty_halves as u64
        } else {
            2
        };
        assert(rate * (delta_ms as u64) <= 0xffff_ffff * 0xffff_ffff) by (nonlinear_arith)
            requires
                rate <= 0xffff_ffff,
                delta_ms <= 0xffff_ffff,
        ;
        let spent: u64 = rate * (delta_ms as u64);
        self.fire_cooldown_ms = clamp_ms(self.fire_cooldown_ms as i128 - spent as i128, -10000, 3000);

        let was_invulnerable = self.is_invulnerable();
        self.invulnerability_cooldown_ms = clamp_ms(
            self.invulnerability_cooldown_ms as i128 - delta_ms as i128,
            -10000,
            3000,
        );

        if was_invulnerable && !self.is_invulnerable() {
            BurroSignal::Show
        } else if self.is_invulnerable() {
            if wave > 0 && !self.is_visible {
                BurroSignal::Show
            } else if wave < 0 && self.is_visible {
                BurroSignal::Hide
            } else {
                BurroSignal::Quiet
            }
        } else {
            BurroSignal::Quiet
        }
    }

    /// One frame of `delta_ms` milliseconds for a burro that is down. When its down time runs
    /// out it gets back up, invulnerable for `invulnerability_cooldown_ms`, and `true` is
    /// returned. A standing burro is left as it was.
    pub fn get_up(&mut self, delta_ms: u32, invulnerability_cooldown_ms: u32) -> (got_up: bool)
        ensures
            !old(self).is_down ==> !got_up && *final(self) == *old(self),
            old(self).is_down ==> {
                let remaining = clamp(old(self).down_cooldown_ms - delta_ms, -3000, 10000);
                &&& got_up == (remaining < 0)
                &&& got_up ==> *final(self) == (Burro {
                    is_down: false,
                    down_cooldown_ms: 0,
                    invulnerability_cooldown_ms: invulnerability_cooldown_ms as i64,
                    ..*old(self)
                })
                &&& !got_up ==> *final(self) == (Burro { down_cooldown_ms: remaining as i64, ..*old(self) })
            },
    {
        if !self.is_down {
            return false;
        }
        self.down_cooldown_ms = clamp_ms(self.down_cooldown_ms as i128 - delta_ms as i128, -3000, 10000);
        if self.down_cooldown_ms < 0 {
            self.down_cooldown_ms = 0;
            self.is_down = false;
            self.invulnerability_cooldown_ms = invulnerability_cooldown_ms as i64;
            true
        } else {
            false
        }
    }

    /// Shows or hides the burro, as a blink signal asks.
    pub fn set_visible(&mut self, show: bool)
        ensures
            *final(self) == (Burro { is_visible: show, ..*old(self) }),
    {
        self.is_visible = show;
    }
}

/// The mechaburro's cooldown between shots is shorter than any other burro's, at every
/// difficulty: over the same frame its shooting cooldown never ends higher, and it ends
/// strictly lower whenever time passes from a cooldown within range and the other burro's
/// cooldown stays above its floor.
pub proof fn mechaburro_recharges_faster(cooldown: i64, difficulty_halves: u32, delta_ms: u32)
    ensures
        fire_rate(true, difficulty_halves) > fire_rate(false, difficulty_halves),
        next_fire_cooldown(cooldown, true, difficulty_halves, delta_ms)
            <= next_fire_cooldown(cooldown, false, difficulty_halves, delta_ms),
        delta_ms > 0 && cooldown <= 3000 && next_fire_cooldown(cooldown, false, difficulty_halves, delta_ms) > -10000
            ==> next_fire_cooldown(cooldown, true, difficulty_halves, delta_ms)
                < next_fire_cooldown(cooldown, false, difficulty_halves, delta_ms),
{
    let rate = fire_rate(true, difficulty_halves);
    assert(rate * delta_ms >= delta_ms) by (nonlinear_arith)
        requires
            rate >= 2,
    ;
    if delta_ms > 0 {
        assert(rate * delta_ms > delta_ms) by (nonlinear_arith)
            requires
                rate >= 2,
                delta_ms > 0,
        ;
    }
}

/// A burro that is down or still invulnerable cannot be hit, and an invulnerable burro
/// cannot shoot either.
pub proof fn protected_burros(burro: Burro)
    ensures
        burro.spec_is_invulnerable() ==> !burro.spec_can_fire() && !burro.spec_can_be_hit(),
        burro.is_down ==> !burro.spec_can_be_hit(),
{
}

/// After a shot a burro must wait out its cooldown before shooting again: time that has
/// drained less than the cooldown (at the burro's `fire_rate`) leaves it unable to shoot,
/// and time that has drained all of it makes it ready.
pub proof fn shot_cooldown_runs_out(is_mechaburro: bool, difficulty_halves: u32, delta_ms: u32)
    ensures
        fire_rate(is_mechaburro, difficulty_halves) * delta_ms < FIRE_COOLDOWN_MS
            ==> next_fire_cooldown(FIRE_COOLDOWN_MS, is_mechaburro, difficulty_halves, delta_ms) > 0,
        fire_rate(is_mechaburro, difficulty_halves) * delta_ms >= FIRE_COOLDOWN_MS
            ==> next_fire_cooldown(FIRE_COOLDOWN_MS, is_mechaburro, difficulty_halves, delta_ms) <= 0,
{
}

} // verus!
