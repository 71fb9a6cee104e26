use vstd::prelude::*;
use crate::bot::Cardinal;
use crate::burro::Burro;

verus! {

/// The buttons of a player in the arena.
#[derive(Clone, Copy, Debug, PartialEq, Eq, Structural)]
pub enum PlayerAction {
    Up,
    Down,
    Left,
    Right,
    ActionUp,
    ActionDown,
    ActionRight,
    ActionLeft,
}

/// A walking direction on the floor: `x` grows toward the top of the arena, `z` toward
/// its right.
#[derive(Clone, Copy, Debug, PartialEq, Eq, Structural)]
pub struct Direction {
    pub x: i32,
    pub z: i32,
}

impl Direction {
    pub fn neutral() -> (r: Direction)
        ensures
            r.x == 0 && r.z == 0,
    {
        Direction { x: 0, z: 0 }
    }

    /// The sum of two directions.
    pub fn add(self, other: Direction) -> (r: Direction)
        requires
            i32::MIN <= self.x + other.x <= i32::MAX,
            i32::MIN <= self.z + other.z <= i32::MAX,
        ensures
            r.x == self.x + other.x,
            r.z == self.z + other.z,
    {
        Direction { x: self.x + other.x, z: self.z + other.z }
    }
}

/// The walking direction of a movement button; action buttons do not walk.
pub open spec fn action_direction(action: PlayerAction) -> Direction {
    match action {
        PlayerAction::Up => Direction { x: 1, z: 0 },
        PlayerAction::Down => Direction { x: -1i32, z: 0 },
        PlayerAction::Left => Direction { x: 0, z: -1i32 },
        PlayerAction::Right => Direction { x: 0, z: 1 },
        _ => Direction { x: 0, z: 0 },
    }
}

impl PlayerAction {
    pub fn direction(self) -> (r: Direction)
        ensures
            r == action_direction(self),
    {
        match self {
            PlayerAction::Up => Direction { x: 1, z: 0 },
            PlayerAction::Down => Direction { x: -1, z: 0 },
            PlayerAction::Left => Direction { x: 0, z: -1 },
            PlayerAction::Right => Direction { x: 0, z: 1 },
            _ => Direction { x: 0, z: 0 },
        }
    }
}

/// Which of a player's buttons are held this frame.
#[derive(Clone, Copy, Debug)]
pub struct HeldActions {
    pub up: bool,
    pub down: bool,
    pub left: bool,
    pub right: bool,
    pub action_up: bool,
    pub action_down: bool,
    pub action_left: bool,
    pub action_right: bool,
}

/// The kind of bullet a burro fires: lasers for the mechaburro, candy for everyone else.
#[derive(Clone, Copy, Debug, PartialEq, Eq, Structural)]
pub enum BulletType {
    Candy,
    Laser,
}

/// The bullet a burro fires.
pub open spec fn bullet_for(is_mechaburro: bool) -> BulletType {
    if is_mechaburro { BulletType::Laser } else { BulletType::Candy }
}

/// How fast a bullet flies, in world units per second.
pub open spec fn spec_bullet_speed(kind: BulletType) -> u32 {
    match kind {
        BulletType::Candy => 12,
        BulletType::Laser => 24,
    }
}

/// How long a bullet flies before it vanishes, in milliseconds.
pub open spec fn spec_bullet_lifetime_ms(kind: BulletType) -> u32 {
    match kind {
        BulletType::Candy => 3000,
        BulletType::Laser => 3000,
    }
}

impl BulletType {
    /// How fast the bullet flies, in world units per second.
    pub fn speed(self) -> (r: u32)
        ensures
            r == spec_bullet_speed(self),
    {
        match self {
            BulletType::Candy => 12,
            BulletType::Laser => 24,
        }
    }

    /// How long the bullet flies, in milliseconds.
    pub fn lifetime_ms(self) -> (r: u32)
        ensures
            r == spec_bullet_lifetime_ms(self),
    {
        match self {
            BulletType::Candy => 3000,
            BulletType::Laser => 3000,
        }
    }
}

/// What a standing player does this frame.
#[derive(Clone, Copy, Debug, PartialEq, Eq, Structural)]
pub struct PlayerTurn {
    /// The direction of a shot fired this frame.
    pub shot: Option<Cardinal>,
    /// The kind of bullet the burro fires: a laser for the mechaburro, candy otherwise.
    pub bullet_type: BulletType,
    /// Where the burro turns to face, in quarter turns about the vertical axis.
    pub facing_quarter_turns: Option<u8>,
    /// Where the burro walks.
    pub movement: Direction,
}

/// The direction of the held action button, in the order up, down, left, right.
pub open spec fn aimed_direction(held: HeldActions) -> Option<Cardinal> {
    if held.action_up {
        Some(Cardinal::N)
    } else if held.action_down {
        Some(Cardinal::S)
    } else if held.action_left {
        Some(Cardinal::W)
    } else if held.action_right {
        Some(Cardinal::E)
    } else {
        None
    }
}

/// The facing that goes with an aimed direction, in quarter turns.
pub open spec fn facing_for(aim: Option<Cardinal>) -> Option<u8> {
    match aim {
        Some(Cardinal::N) => Some(0u8),
        Some(Cardinal::S) => Some(2u8),
        Some(Cardinal::W) => Some(1u8),
        Some(Cardinal::E) => Some(3u8),
        _ => None,
    }
}

/// The sum of the held movement buttons' directions.
pub open spec fn held_movement(held: HeldActions) -> Direction {
    Direction {
        x: ((if held.up { 1i32 } else { 0i32 }) + (if held.down { -1i32 } else { 0i32 })) as i32,
        z: ((if held.left { -1i32 } else { 0i32 }) + (if held.right { 1i32 } else { 0i32 })) as i32,
    }
}

/// A player's frame: a burro that is down does nothing; otherwise it aims where an action
/// button is held, shoots there when it can fire (starting its cooldown) a laser if it is the
/// mechaburro and candy otherwise, and walks the sum of the held movement buttons.
pub fn player_turn(burro: &mut Burro, held: HeldActions) -> (r: Option<PlayerTurn>)
    ensures
        old(burro).is_down ==> r is None && *final(burro) == *old(burro),
        !old(burro).is_down ==> {
            let aim = aimed_direction(held);
            let fires = old(burro).spec_can_fire() && aim is Some;
            &&& r matches Some(turn) && turn.shot == (if fires { aim } else { None })
                && turn.bullet_type == bullet_for(old(burro).is_mechaburro)
                && turn.facing_quarter_turns == facing_for(aim)
                && turn.movement == held_movement(held)
            &&& fires ==> *final(burro) == (Burro { fire_cooldown_ms: crate::burro::FIRE_COOLDOWN_MS, ..*old(burro) })
            &&& !fires ==> *final(burro) == *old(burro)
        },
{
    if burro.is_down {
        return None;
    }
    let aim = if held.action_up {
        Some(Cardinal::N)
    } else if held.action_down {
        Some(Cardinal::S)
    } else if held.action_left {
        Some(Cardinal::W)
    } else if held.action_right {
        Some(Cardinal::E)
    } else {
        None
    };
    let facing = match aim {
        Some(Cardinal::N) => Some(0u8),
        Some(Cardinal::S) => Some(2u8),
        Some(Cardinal::W) => Some(1u8),
        Some(Cardinal::E) => Some(3u8),
        _ => None,
    };
    let mut shot = None;
    if burro.can_fire() && aim.is_some() {
        shot = aim;
        burro.fire();
    }
    let mut movement = Direction::neutral();
    if held.up {
        movement = movement.add(PlayerAction::Up.direction());
    }
    if held.down {
        movement = movement.add(PlayerAction::Down.direction());
    }
    if held.left {
        movement = movement.add(PlayerAction::Left.direction());
    }
    if held.right {
        movement = movement.add(PlayerAction::Right.direction());
    }
    let bullet_type = if burro.is_mechaburro { BulletType::Laser } else { BulletType::Candy };
    Some(PlayerTurn { shot, bullet_type, facing_quarter_turns: facing, movement })
}

/// A player aims only along the four cardinal directions, and the burro faces the way it
/// aims.
pub proof fn players_aim_cardinally(held: HeldActions)
    ensures
        aimed_direction(held) matches Some(c) ==> (c == Cardinal::N || c == Cardinal::S || c == Cardinal::E
            || c == Cardinal::W),
        aimed_direction(held) is Some <==> facing_for(aimed_direction(held)) is Some,
{
}

/// A burro moves independently of where it aims: the movement buttons alone decide where it
/// walks, and the action buttons alone decide where it aims and faces.
pub proof fn aim_and_movement_are_independent(a: HeldActions, b: HeldActions)
    ensures
        a.up == b.up && a.down == b.down && a.left == b.left && a.right == b.right
            ==> held_movement(a) == held_movement(b),
        a.action_up == b.action_up && a.action_down == b.action_down && a.action_left == b.action_left
            && a.action_right == b.action_right ==> aimed_direction(a) == aimed_direction(b)
            && facing_for(aimed_direction(a)) == facing_for(aimed_direction(b)),
{
}

/// The mechaburro's lasers fly faster and reach farther than candy.
pub proof fn lasers_fly_faster_and_farther()
    ensures
        spec_bullet_speed(BulletType::Laser) > spec_bullet_speed(BulletType::Candy),
        spec_bullet_speed(BulletType::Laser) * spec_bullet_lifetime_ms(BulletType::Laser)
            > spec_bullet_speed(BulletType::Candy) * spec_bullet_lifetime_ms(BulletType::Candy),
{
}

/// Where a burro facing north (`x` up) looks after `quarters` quarter turns about the vertical
/// axis, each turning `(x, z)` into `(z, -x)`.
pub open spec fn facing_after_turns(quarters: nat) -> (int, int)
    decreases quarters,
{
    if quarters == 0 {
        (1, 0)
    } else {
        let (x, z) = facing_after_turns((quarters - 1) as nat);
        (z, -x)
    }
}

/// A burro faces the way it aims: whenever a direction is aimed, the facing turns the burro
/// from north onto exactly that direction, within one full turn; with nothing aimed the facing
/// is left alone.
pub proof fn burros_face_where_they_aim(held: HeldActions)
    ensures
        aimed_direction(held) matches Some(c) ==> facing_for(aimed_direction(held)) matches Some(q) && q < 4
            && facing_after_turns(q as nat) == (crate::bot::compass_x(c), crate::bot::compass_z(c)),
        aimed_direction(held) is None ==> facing_for(aimed_direction(held)) is None,
{
    reveal_with_fuel(facing_after_turns, 4);
}

/// An action button aims the way its walking twin walks (action up where up walks, and so on);
/// when several are held the first of up, down, left, right wins, and with none held nothing
/// is aimed.
pub proof fn action_buttons_aim_like_walking(held: HeldActions)
    ensures
        ({
            let twin = if held.action_up {
                Some(PlayerAction::Up)
            } else if held.action_down {
                Some(PlayerAction::Down)
            } else if held.action_left {
                Some(PlayerAction::Left)
            } else if held.action_right {
                Some(PlayerAction::Right)
            } else {
                None
            };
            match twin {
                Some(walk) => aimed_direction(held) matches Some(c) && crate::bot::compass_x(c) == action_direction(walk).x
                    && crate::bot::compass_z(c) == action_direction(walk).z,
                None => aimed_direction(held) is None,
            }
        }),
{
}

/// A burro walks the sum of the directions of the walking buttons it holds: each held button
/// adds the step it walks alone, so opposite buttons cancel out.
pub proof fn walking_adds_up_the_held_buttons(held: HeldActions)
    ensures
        held_movement(held).x == (if held.up { action_direction(PlayerAction::Up).x } else { 0 }) + (if held.down {
            action_direction(PlayerAction::Down).x
        } else {
            0
        }) + (if held.left { action_direction(PlayerAction::Left).x } else { 0 }) + (if held.right {
            action_direction(PlayerAction::Right).x
        } else {
            0
        }),
        held_movement(held).z == (if held.up { action_direction(PlayerAction::Up).z } else { 0 }) + (if held.down {
            action_direction(PlayerAction::Down).z
        } else {
            0
        }) + (if held.left { action_direction(PlayerAction::Left).z } else { 0 }) + (if held.right {
            action_direction(PlayerAction::Right).z
        } else {
            0
        }),
{
}

} // verus!
