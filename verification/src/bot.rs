use vstd::prelude::*;
use crate::burro::clamp;
use crate::player::PlayerAction;

verus! {

/// The eight compass directions a bot walks or shoots in. North is toward growing `x`,
/// east toward growing `z`.
#[derive(Clone, Copy, Debug, PartialEq, Eq, Structural)]
pub enum Cardinal {
    N,
    S,
    E,
    W,
    NE,
    NW,
    SE,
    SW,
}

/// What drives a bot: where it walks, where it shoots, and how long until it thinks again.
#[derive(Clone, Copy, Debug, PartialEq, Eq, Structural)]
pub struct Bot {
    pub heading: Option<Cardinal>,
    pub shooting: Option<Cardinal>,
    pub mind_cooldown_ms: i64,
}

/// What the bot sees of its way toward its target: whether the target lies roughly on a
/// diagonal, or mostly along `x`; on which side of the bot it lies; and which neighbouring
/// spots are walkable floor.
#[derive(Clone, Copy, Debug)]
pub struct SteeringView {
    pub diagonal: bool,
    pub mostly_along_x: bool,
    pub target_at_lower_x: bool,
    pub target_at_lower_z: bool,
    pub walkable_lower_x: bool,
    pub walkable_higher_x: bool,
    pub walkable_lower_z: bool,
    pub walkable_higher_z: bool,
}

/// The heading a bot takes toward its target, or `None` when the way is blocked and it
/// gives the target up.
pub open spec fn steering_choice(v: SteeringView) -> Option<Cardinal> {
    if v.diagonal {
        if v.target_at_lower_x && v.walkable_lower_x {
            if v.target_at_lower_z {
                if v.walkable_lower_z { Some(Cardinal::SW) } else { None }
            } else if v.walkable_higher_z {
                Some(Cardinal::SE)
            } else {
                None
            }
        } else if v.walkable_higher_x {
            if v.target_at_lower_z {
                if v.walkable_lower_z { Some(Cardinal::NW) } else { None }
            } else if v.walkable_higher_z {
                Some(Cardinal::NE)
            } else {
                None
            }
        } else {
            None
        }
    } else if v.mostly_along_x {
        if v.target_at_lower_x {
            if v.walkable_lower_x { Some(Cardinal::S) } else { None }
        } else if v.walkable_higher_x {
            Some(Cardinal::N)
        } else {
            None
        }
    } else if v.target_at_lower_z {
        if v.walkable_lower_z { Some(Cardinal::W) } else { None }
    } else if v.walkable_higher_z {
        Some(Cardinal::E)
    } else {
        None
    }
}

/// Where a bot that can fire shoots at a burro on its grid row or column: west or east when
/// they share `x`, south or north when they share `z`, nowhere otherwise.
pub open spec fn aim_at(can_fire: bool, x: isize, z: isize, other_x: isize, other_z: isize) -> Option<Cardinal> {
    if !can_fire {
        None
    } else if z == other_z && x != other_x {
        if x > other_x { Some(Cardinal::S) } else { Some(Cardinal::N) }
    } else if x == other_x && z != other_z {
        if z > other_z { Some(Cardinal::W) } else { Some(Cardinal::E) }
    } else {
        None
    }
}

/// The first entry with the smallest distance key.
pub open spec fn is_nearest(others: Seq<(usize, isize, isize)>, n: int) -> bool {
    &&& 0 <= n < others.len()
    &&& forall|k: int| 0 <= k < others.len() ==> others[n].0 <= #[trigger] others[k].0
    &&& forall|k: int| 0 <= k < n ==> others[n].0 < #[trigger] others[k].0
}

/// The buttons a bot holds for a heading and a shooting direction.
pub open spec fn bot_buttons(heading: Option<Cardinal>, shooting: Option<Cardinal>) -> Seq<PlayerAction> {
    let walk = match heading {
        Some(Cardinal::N) => seq![PlayerAction::Up],
        Some(Cardinal::S) => seq![PlayerAction::Down],
        Some(Cardinal::W) => seq![PlayerAction::Left],
        Some(Cardinal::E) => seq![PlayerAction::Right],
        Some(Cardinal::NE) => seq![PlayerAction::Up, PlayerAction::Right],
        Some(Cardinal::NW) => seq![PlayerAction::Up, PlayerAction::Left],
        Some(Cardinal::SE) => seq![PlayerAction::Down, PlayerAction::Right],
        Some(Cardinal::SW) => seq![PlayerAction::Down, PlayerAction::Left],
        None => Seq::empty(),
    };
    let shoot = match shooting {
        Some(Cardinal::N) => seq![PlayerAction::ActionUp],
        Some(Cardinal::S) => seq![PlayerAction::ActionDown],
        Some(Cardinal::W) => seq![PlayerAction::ActionLeft],
        Some(Cardinal::E) => seq![PlayerAction::ActionRight],
        _ => Seq::empty(),
    };
    walk + shoot
}

impl Default for Bot {
    fn default() -> (r: Bot)
        ensures
            r.heading is None,
            r.shooting is None,
            r.mind_cooldown_ms == 0,
    {
        Bot { heading: None, shooting: None, mind_cooldown_ms: 0 }
    }
}

impl Bot {
    /// Whether the bot may think this frame.
    pub fn can_think(&self) -> (r: bool)
        ensures
            r == (self.mind_cooldown_ms <= 0),
    {
        self.mind_cooldown_ms <= 0
    }

    /// Lets `delta_ms` milliseconds pass for the bot's mind (clamped to `[-10000, 30000]`).
    pub fn tick_mind(&mut self, delta_ms: u32)
        ensures
            final(self).mind_cooldown_ms == clamp(old(self).mind_cooldown_ms - delta_ms, -10000, 30000),
            final(self).heading == old(self).heading,
            final(self).shooting == old(self).shooting,
    {
        let next = self.mind_cooldown_ms as i128 - delta_ms as i128;
        self.mind_cooldown_ms = if next < -10000 {
            -10000
        } else if next > 30000 {
            30000
        } else {
            next as i64
        };
    }

    /// Gives up the current target: the bot thinks again at once.
    pub fn forget_target(&mut self)
        ensures
            final(self).mind_cooldown_ms == 0,
            final(self).heading == old(self).heading,
            final(self).shooting == old(self).shooting,
    {
        self.mind_cooldown_ms = 0;
    }

    /// Chooses a heading toward the target. When the way is blocked the bot keeps its heading,
    /// thinks again at once, and `None` tells the caller to drop the target.
    pub fn steer(&mut self, view: SteeringView) -> (r: Option<Cardinal>)
        ensures
            r == steering_choice(view),
            r is Some ==> final(self).heading == r && final(self).mind_cooldown_ms == old(self).mind_cooldown_ms,
            r is None ==> final(self).heading == old(self).heading && final(self).mind_cooldown_ms == 0,
            final(self).shooting == old(self).shooting,
    {
        let choice = if view.diagonal {
            if view.target_at_lower_x && view.walkable_lower_x {
                if view.target_at_lower_z {
                    if view.walkable_lower_z { Some(Cardinal::SW) } else { None }
                } else if view.walkable_higher_z {
                    Some(Cardinal::SE)
                } else {
                    None
                }
            } else if view.walkable_higher_x {
                if view.target_at_lower_z {
                    if view.walkable_lower_z { Some(Cardinal::NW) } else { None }
                } else if view.walkable_higher_z {
                    Some(Cardinal::NE)
                } else {
                    None
                }
            } else {
                None
            }
        } else if view.mostly_along_x {
            if view.target_at_lower_x {
                if view.walkable_lower_x { Some(Cardinal::S) } else { None }
            } else if view.walkable_higher_x {
                Some(Cardinal::N)
            } else {
                None
            }
        } else if view.target_at_lower_z {
            if view.walkable_lower_z { Some(Cardinal::W) } else { None }
        } else if view.walkable_higher_z {
            Some(Cardinal::E)
        } else {
            None
        };
        match choice {
            Some(_) => {
                self.heading = choice;
            },
            None => {
                self.mind_cooldown_ms = 0;
            },
        }
        choice
    }

    /// Picks what to shoot at. `others` lists the burros that can be hit, each as a distance
    /// key and its grid position; the nearest one (the first among equal keys) decides. With
    /// no such burro the shooting direction is kept.
    pub fn decide_shooting(&mut self, can_fire: bool, x: isize, z: isize, others: &Vec<(usize, isize, isize)>)
        ensures
            others@.len() == 0 ==> final(self).shooting == old(self).shooting,
            others@.len() > 0 ==> exists|n: int| is_nearest(others@, n) && final(self).shooting == aim_at(
                can_fire,
                x,
                z,
                others@[n].1,
                others@[n].2,
            ),
            final(self).heading == old(self).heading,
            final(self).mind_cooldown_ms == old(self).mind_cooldown_ms,
    {
        if others.len() == 0 {
            return;
        }
        let mut nearest: usize = 0;
        let mut k: usize = 1;
        while k < others.len()
            invariant
                others@.len() > 0,
                1 <= k <= others@.len(),
                nearest < k,
                forall|j: int| 0 <= j < k ==> others@[nearest as int].0 <= #[trigger] others@[j].0,
                forall|j: int| 0 <= j < nearest ==> others@[nearest as int].0 < #[trigger] others@[j].0,
            decreases others@.len() - k,
        {
            if others[k].0 < others[nearest].0 {
                nearest = k;
            }
            k = k + 1;
        }
        let (_, other_x, other_z) = others[nearest];
        let mut shooting: Option<Cardinal> = None;
        if can_fire {
            if x == other_x {
                if z > other_z {
                    shooting = Some(Cardinal::W);
                } else if z < other_z {
                    shooting = Some(Cardinal::E);
                }
            }
            if z == other_z {
                if x > other_x {
                    shooting = Some(Cardinal::S);
                } else if x < other_x {
                    shooting = Some(Cardinal::N);
                }
            }
        }
        self.shooting = shooting;
        assert(is_nearest(others@, nearest as int));
    }

    /// The buttons the bot holds this frame: those of its heading, then that of its shooting
    /// direction (diagonal shots are not made).
    pub fn controller_buttons(&self) -> (r: Vec<PlayerAction>)
        ensures
            r@ == bot_buttons(self.heading, self.shooting),
    {
        let mut buttons: Vec<PlayerAction> = Vec::new();
        match self.heading {
            Some(Cardinal::N) => buttons.push(PlayerAction::Up),
            Some(Cardinal::S) => buttons.push(PlayerAction::Down),
            Some(Cardinal::W) => buttons.push(PlayerAction::Left),
            Some(Cardinal::E) => buttons.push(PlayerAction::Right),
            Some(Cardinal::NE) => {
                buttons.push(PlayerAction::Up);
                buttons.push(PlayerAction::Right);
            },
            Some(Cardinal::NW) => {
                buttons.push(PlayerAction::Up);
                buttons.push(PlayerAction::Left);
            },
            Some(Cardinal::SE) => {
                buttons.push(PlayerAction::Down);
                buttons.push(PlayerAction::Right);
            },
            Some(Cardinal::SW) => {
                buttons.push(PlayerAction::Down);
                buttons.push(PlayerAction::Left);
            },
            None => {},
        }
        let ghost walk = buttons@;
        match self.shooting {
            Some(Cardinal::N) => buttons.push(PlayerAction::ActionUp),
            Some(Cardinal::S) => buttons.push(PlayerAction::ActionDown),
            Some(Cardinal::W) => buttons.push(PlayerAction::ActionLeft),
            Some(Cardinal::E) => buttons.push(PlayerAction::ActionRight),
            _ => {},
        }
        assert(buttons@ == bot_buttons(self.heading, self.shooting));
        buttons
    }
}

/// Shots only ever go in the four cardinal directions: a bot aims north, south, east or
/// west, and a diagonal shooting direction holds no button.
pub proof fn shots_are_cardinal(can_fire: bool, x: isize, z: isize, other_x: isize, other_z: isize, heading: Option<Cardinal>, shooting: Cardinal)
    ensures
        aim_at(can_fire, x, z, other_x, other_z) matches Some(c) ==> (c == Cardinal::N || c == Cardinal::S
            || c == Cardinal::E || c == Cardinal::W),
        (shooting == Cardinal::NE || shooting == Cardinal::NW || shooting == Cardinal::SE || shooting == Cardinal::SW)
            ==> bot_buttons(heading, Some(shooting)) == bot_buttons(heading, None),
{
}

/// How far a compass direction goes along `x` (toward the top of the arena).
pub open spec fn compass_x(c: Cardinal) -> int {
    match c {
        Cardinal::N | Cardinal::NE | Cardinal::NW => 1,
        Cardinal::S | Cardinal::SE | Cardinal::SW => -1,
        _ => 0,
    }
}

/// How far a compass direction goes along `z` (toward the right of the arena).
pub open spec fn compass_z(c: Cardinal) -> int {
    match c {
        Cardinal::E | Cardinal::NE | Cardinal::SE => 1,
        Cardinal::W | Cardinal::NW | Cardinal::SW => -1,
        _ => 0,
    }
}

/// A bot only heads onto floor it has found walkable: every step a chosen heading takes, along
/// `x` or along `z`, goes to a side that the view reports walkable. A diagonal view gives a
/// diagonal heading, on the target's side along `z`; any other view gives a heading along the
/// axis on which the target mostly lies, going down that axis only toward a target there.
/// The bot gives up its target only when the way it would take is not walkable.
pub proof fn headings_step_onto_walkable_floor(v: SteeringView)
    ensures
        steering_choice(v) matches Some(c) ==> {
            &&& compass_x(c) < 0 ==> v.walkable_lower_x
            &&& compass_x(c) > 0 ==> v.walkable_higher_x
            &&& compass_z(c) < 0 ==> v.walkable_lower_z
            &&& compass_z(c) > 0 ==> v.walkable_higher_z
            &&& v.diagonal <==> (compass_x(c) != 0 && compass_z(c) != 0)
            &&& v.diagonal ==> (compass_z(c) < 0 <==> v.target_at_lower_z)
            &&& v.diagonal ==> (compass_x(c) < 0 <==> v.target_at_lower_x && v.walkable_lower_x)
            &&& !v.diagonal ==> (v.mostly_along_x <==> compass_x(c) != 0)
            &&& !v.diagonal ==> (compass_x(c) < 0 <==> v.mostly_along_x && v.target_at_lower_x)
            &&& !v.diagonal ==> (compass_z(c) < 0 <==> !v.mostly_along_x && v.target_at_lower_z)
        },
        !v.diagonal && v.mostly_along_x ==> (steering_choice(v) is None <==> if v.target_at_lower_x {
            !v.walkable_lower_x
        } else {
            !v.walkable_higher_x
        }),
        !v.diagonal && !v.mostly_along_x ==> (steering_choice(v) is None <==> if v.target_at_lower_z {
            !v.walkable_lower_z
        } else {
            !v.walkable_higher_z
        }),
        v.diagonal ==> (steering_choice(v) is None <==> (!(v.target_at_lower_x && v.walkable_lower_x)
            && !v.walkable_higher_x) || (if v.target_at_lower_z {
            !v.walkable_lower_z
        } else {
            !v.walkable_higher_z
        })),
{
}

/// The buttons a set of pressed buttons holds.
pub open spec fn held_of(buttons: Seq<PlayerAction>) -> crate::player::HeldActions {
    crate::player::HeldActions {
        up: buttons.contains(PlayerAction::Up),
        down: buttons.contains(PlayerAction::Down),
        left: buttons.contains(PlayerAction::Left),
        right: buttons.contains(PlayerAction::Right),
        action_up: buttons.contains(PlayerAction::ActionUp),
        action_down: buttons.contains(PlayerAction::ActionDown),
        action_left: buttons.contains(PlayerAction::ActionLeft),
        action_right: buttons.contains(PlayerAction::ActionRight),
    }
}

/// A bot's virtual controller drives its burro the way the bot decided, read as a player's
/// turn reads held buttons: the walking buttons add up to the bot's heading (no buttons when it
/// has none), and the action buttons aim along the shooting direction when that is one of the
/// four a burro can shoot in.
pub proof fn bot_buttons_drive_the_decision(heading: Option<Cardinal>, shooting: Option<Cardinal>)
    ensures
        ({
            let walk = crate::player::held_movement(held_of(bot_buttons(heading, shooting)));
            &&& heading matches Some(c) ==> walk.x == compass_x(c) && walk.z == compass_z(c)
            &&& heading is None ==> walk.x == 0 && walk.z == 0
        }),
        ({
            let aim = crate::player::aimed_direction(held_of(bot_buttons(heading, shooting)));
            match shooting {
                Some(c) => if compass_x(c) == 0 || compass_z(c) == 0 { aim == shooting } else { aim is None },
                None => aim is None,
            }
        }),
{
    let buttons = bot_buttons(heading, shooting);
    let actions = seq![
        PlayerAction::Up,
        PlayerAction::Down,
        PlayerAction::Left,
        PlayerAction::Right,
        PlayerAction::ActionUp,
        PlayerAction::ActionDown,
        PlayerAction::ActionLeft,
        PlayerAction::ActionRight,
    ];
    assert forall|i: int| 0 <= i < 8 implies (#[trigger] buttons.contains(actions[i]) <==> exists|k: int|
        0 <= k < buttons.len() && buttons[k] == actions[i]) by {}
    assert(buttons.len() <= 3);
    if buttons.len() > 0 {
        assert(buttons.contains(buttons[0]));
    }
    if buttons.len() > 1 {
        assert(buttons.contains(buttons[1]));
    }
    if buttons.len() > 2 {
        assert(buttons.contains(buttons[2]));
    }
}

} // verus!
