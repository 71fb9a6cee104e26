use mechaburro::bot::{Bot, Cardinal, SteeringView};
use mechaburro::burro::Burro;
use mechaburro::player::{player_turn, BulletType, Direction, HeldActions, PlayerAction, PlayerTurn};

fn view(diagonal: bool, along_x: bool, lower_x: bool, lower_z: bool, walk: [bool; 4]) -> SteeringView {
    SteeringView {
        diagonal,
        mostly_along_x: along_x,
        target_at_lower_x: lower_x,
        target_at_lower_z: lower_z,
        walkable_lower_x: walk[0],
        walkable_higher_x: walk[1],
        walkable_lower_z: walk[2],
        walkable_higher_z: walk[3],
    }
}

#[test]
fn bots_think_on_cooldown() {
    let mut bot = Bot::default();
    assert!(bot.can_think());
    bot.mind_cooldown_ms = 500;
    assert!(!bot.can_think());
    bot.tick_mind(400);
    assert_eq!(bot.mind_cooldown_ms, 100);
    bot.tick_mind(100);
    assert!(bot.can_think());
    bot.tick_mind(50000);
    assert_eq!(bot.mind_cooldown_ms, -10000);
    bot.forget_target();
    assert_eq!(bot.mind_cooldown_ms, 0);
}

#[test]
fn steering_toward_target() {
    let all = [true; 4];
    let mut bot = Bot::default();
    assert_eq!(bot.steer(view(true, false, true, true, all)), Some(Cardinal::SW));
    assert_eq!(bot.heading, Some(Cardinal::SW));
    assert_eq!(bot.steer(view(true, false, true, false, all)), Some(Cardinal::SE));
    assert_eq!(bot.steer(view(true, false, false, true, all)), Some(Cardinal::NW));
    assert_eq!(bot.steer(view(true, false, false, false, all)), Some(Cardinal::NE));
    assert_eq!(bot.steer(view(false, true, true, false, all)), Some(Cardinal::S));
    assert_eq!(bot.steer(view(false, true, false, false, all)), Some(Cardinal::N));
    assert_eq!(bot.steer(view(false, false, false, true, all)), Some(Cardinal::W));
    assert_eq!(bot.steer(view(false, false, false, false, all)), Some(Cardinal::E));
}

#[test]
fn blocked_way_drops_the_target() {
    let mut bot = Bot::default();
    bot.heading = Some(Cardinal::E);
    bot.mind_cooldown_ms = 700;
    assert_eq!(bot.steer(view(false, true, true, false, [false, true, true, true])), None);
    assert_eq!(bot.heading, Some(Cardinal::E));
    assert_eq!(bot.mind_cooldown_ms, 0);
    // a diagonal target on the lower-x side with that side blocked goes the other way
    assert_eq!(bot.steer(view(true, false, true, false, [false, true, true, true])), Some(Cardinal::NE));
}

#[test]
fn shooting_at_the_nearest_burro_in_line() {
    let mut bot = Bot::default();
    bot.decide_shooting(true, 0, 0, &vec![(5, 0, 4), (2, 3, 0), (2, 0, -1)]);
    assert_eq!(bot.shooting, Some(Cardinal::N));
    bot.decide_shooting(true, 0, 0, &vec![(1, 0, 4)]);
    assert_eq!(bot.shooting, Some(Cardinal::E));
    bot.decide_shooting(true, 0, 0, &vec![(1, 0, -4)]);
    assert_eq!(bot.shooting, Some(Cardinal::W));
    bot.decide_shooting(true, 0, 0, &vec![(1, -2, 0)]);
    assert_eq!(bot.shooting, Some(Cardinal::S));
    bot.decide_shooting(true, 0, 0, &vec![(1, 2, 2)]);
    assert_eq!(bot.shooting, None);
    bot.shooting = Some(Cardinal::N);
    bot.decide_shooting(true, 0, 0, &vec![]);
    assert_eq!(bot.shooting, Some(Cardinal::N));
    bot.decide_shooting(false, 0, 0, &vec![(1, 0, 3)]);
    assert_eq!(bot.shooting, None);
}

#[test]
fn bot_buttons() {
    let mut bot = Bot::default();
    assert!(bot.controller_buttons().is_empty());
    bot.heading = Some(Cardinal::NE);
    bot.shooting = Some(Cardinal::W);
    assert_eq!(bot.controller_buttons(), vec![PlayerAction::Up, PlayerAction::Right, PlayerAction::ActionLeft]);
    bot.heading = Some(Cardinal::S);
    bot.shooting = Some(Cardinal::SE);
    assert_eq!(bot.controller_buttons(), vec![PlayerAction::Down]);
}

fn held(up: bool, down: bool, left: bool, right: bool, au: bool, ad: bool, al: bool, ar: bool) -> HeldActions {
    HeldActions {
        up,
        down,
        left,
        right,
        action_up: au,
        action_down: ad,
        action_left: al,
        action_right: ar,
    }
}

#[test]
fn player_turns() {
    let mut b = Burro::new(0);
    let turn = player_turn(&mut b, held(true, false, false, true, false, true, true, false)).unwrap();
    assert_eq!(
        turn,
        PlayerTurn {
            shot: Some(Cardinal::S),
            bullet_type: BulletType::Candy,
            facing_quarter_turns: Some(2),
            movement: Direction { x: 1, z: 1 }
        }
    );
    assert!(!b.can_fire());
    let turn = player_turn(&mut b, held(true, true, false, false, false, false, false, true)).unwrap();
    assert_eq!(turn.shot, None);
    assert_eq!(turn.facing_quarter_turns, Some(3));
    assert_eq!(turn.movement, Direction { x: 0, z: 0 });
    b.hit(1000);
    assert_eq!(player_turn(&mut b, held(true, false, false, false, true, false, false, false)), None);
}

#[test]
fn action_directions() {
    assert_eq!(PlayerAction::Up.direction(), Direction { x: 1, z: 0 });
    assert_eq!(PlayerAction::Down.direction(), Direction { x: -1, z: 0 });
    assert_eq!(PlayerAction::Left.direction(), Direction { x: 0, z: -1 });
    assert_eq!(PlayerAction::Right.direction(), Direction { x: 0, z: 1 });
    assert_eq!(PlayerAction::ActionUp.direction(), Direction::neutral());
    assert_eq!(Direction { x: 1, z: -1 }.add(Direction { x: 2, z: 3 }), Direction { x: 3, z: 2 });
}

#[test]
fn aiming_and_walking_are_independent() {
    let mut first = Burro::new(0);
    let mut second = Burro::new(1);
    let walk_aim_left = player_turn(&mut first, held(false, true, true, false, false, false, true, false)).unwrap();
    let walk_aim_up = player_turn(&mut second, held(false, true, true, false, true, false, false, false)).unwrap();
    assert_eq!(walk_aim_left.movement, walk_aim_up.movement);
    assert_eq!(walk_aim_left.movement, Direction { x: -1, z: -1 });
    assert_eq!(walk_aim_left.shot, Some(Cardinal::W));
    assert_eq!(walk_aim_up.shot, Some(Cardinal::N));

    let mut third = Burro::new(2);
    let still_aim_left = player_turn(&mut third, held(false, false, false, false, false, false, true, false)).unwrap();
    assert_eq!(still_aim_left.movement, Direction::neutral());
    assert_eq!(still_aim_left.facing_quarter_turns, walk_aim_left.facing_quarter_turns);
}

#[test]
fn the_mechaburro_shoots_lasers() {
    let mut mecha = Burro::new(0);
    mecha.is_mechaburro = true;
    let turn = player_turn(&mut mecha, held(false, false, false, false, false, false, false, true)).unwrap();
    assert_eq!(turn.shot, Some(Cardinal::E));
    assert_eq!(turn.bullet_type, BulletType::Laser);
    let mut candy = Burro::new(1);
    let turn = player_turn(&mut candy, held(false, false, false, false, true, false, false, false)).unwrap();
    assert_eq!(turn.bullet_type, BulletType::Candy);
    assert_eq!(BulletType::Candy.speed(), 12);
    assert_eq!(BulletType::Laser.speed(), 24);
    assert_eq!(BulletType::Laser.lifetime_ms(), 3000);
    assert!(BulletType::Laser.speed() * BulletType::Laser.lifetime_ms() > BulletType::Candy.speed() * BulletType::Candy.lifetime_ms());
}
