use mechaburro::burro::{Burro, BurroSignal, FIRE_COOLDOWN_MS, STARTING_HEALTH};
use mechaburro::config::GameConfiguration;
use mechaburro::round::RoundEndTimer;

#[test]
fn fresh_burro_can_shoot_and_be_hit() {
    let b = Burro::new(4);
    assert_eq!(b.selected_burro, 4);
    assert_eq!(b.health, STARTING_HEALTH);
    assert!(b.can_fire());
    assert!(b.can_be_hit());
    assert!(!b.is_invulnerable());
}

#[test]
fn firing_starts_the_cooldown() {
    let mut b = Burro::new(0);
    b.fire();
    assert_eq!(b.fire_cooldown_ms, FIRE_COOLDOWN_MS);
    assert!(!b.can_fire());
    assert_eq!(b.tick(300, 1, 0), BurroSignal::Quiet);
    assert!(!b.can_fire());
    b.tick(100, 1, 0);
    assert!(b.can_fire());
}

#[test]
fn mechaburro_recharges_at_twice_the_difficulty() {
    let mut normal = Burro::new(0);
    let mut mecha = Burro::new(1);
    mecha.is_mechaburro = true;
    normal.fire();
    mecha.fire();
    normal.tick(100, 5, 0);
    mecha.tick(100, 5, 0);
    assert_eq!(normal.fire_cooldown_ms, 300);
    assert_eq!(mecha.fire_cooldown_ms, -100);
    assert!(mecha.can_fire());
    assert!(!normal.can_fire());
}

#[test]
fn cooldowns_are_clamped() {
    let mut b = Burro::new(0);
    b.tick(60000, 1, 0);
    assert_eq!(b.fire_cooldown_ms, -10000);
    assert_eq!(b.invulnerability_cooldown_ms, -10000);
    b.fire_cooldown_ms = 9000;
    b.tick(0, 1, 0);
    assert_eq!(b.fire_cooldown_ms, 3000);
}

#[test]
fn a_hit_knocks_down_and_costs_one_heart() {
    let config = GameConfiguration::default();
    assert_eq!(config.down_cooldown_ms, 1500);
    assert_eq!(config.invulnerability_cooldown_ms, 1000);
    assert!(config.follow_burros);
    let mut b = Burro::new(0);
    b.hit(config.down_cooldown_ms);
    assert_eq!(b.health, 2);
    assert!(b.is_down);
    assert_eq!(b.down_cooldown_ms, 1500);
    assert!(!b.can_be_hit());
    b.hit(config.down_cooldown_ms);
    assert_eq!(b.health, 2);
}

#[test]
fn getting_up_grants_invulnerability() {
    let mut b = Burro::new(0);
    b.hit(1500);
    assert!(!b.get_up(1000, 1000));
    assert_eq!(b.down_cooldown_ms, 500);
    assert!(!b.get_up(500, 1000));
    assert!(b.get_up(1, 1000));
    assert!(!b.is_down);
    assert_eq!(b.down_cooldown_ms, 0);
    assert!(b.is_invulnerable());
    assert!(!b.can_fire());
    assert!(!b.can_be_hit());
    assert!(!b.get_up(10, 1000));
}

#[test]
fn blinking_while_invulnerable() {
    let mut b = Burro::new(0);
    b.invulnerability_cooldown_ms = 1000;
    assert_eq!(b.tick(100, 1, -1), BurroSignal::Hide);
    b.set_visible(false);
    assert_eq!(b.tick(100, 1, -1), BurroSignal::Quiet);
    assert_eq!(b.tick(100, 1, 1), BurroSignal::Show);
    b.set_visible(true);
    assert_eq!(b.tick(100, 1, 1), BurroSignal::Quiet);
    b.set_visible(false);
    assert_eq!(b.tick(600, 1, -1), BurroSignal::Show);
    assert!(!b.is_invulnerable());
    assert_eq!(b.tick(100, 1, -1), BurroSignal::Quiet);
}

#[test]
fn out_of_health_means_death() {
    let mut b = Burro::new(0);
    for _ in 0..3 {
        b.hit(1);
        b.get_up(2, 0);
    }
    assert_eq!(b.health, 0);
    let before = b;
    assert_eq!(b.tick(100, 1, 0), BurroSignal::Death);
    assert_eq!(b, before);
}

#[test]
fn round_ends_five_seconds_after_the_humans() {
    let mut t = RoundEndTimer::new();
    assert!(!t.update(100, false));
    assert!(!t.round_ending);
    assert!(!t.update(100, true));
    assert!(t.round_ending);
    assert_eq!(t.cooldown_ms, 5000);
    for _ in 0..4 {
        assert!(!t.update(1000, true));
    }
    assert!(!t.update(999, false));
    assert!(t.update(1, false));
    assert!(t.update(100000, false));
    assert_eq!(t.cooldown_ms, -10000);
}

#[test]
fn a_mechaburro_waits_out_a_shorter_cooldown() {
    let mut mecha = Burro::new(3);
    mecha.is_mechaburro = true;
    mecha.fire();
    mecha.tick(133, 3, 0);
    assert_eq!(mecha.fire_cooldown_ms, 1);
    assert!(!mecha.can_fire());
    mecha.tick(1, 3, 0);
    assert!(mecha.can_fire());
}

#[test]
fn the_mechaburrito_still_recharges_faster() {
    let mut normal = Burro::new(0);
    let mut mecha = Burro::new(1);
    mecha.is_mechaburro = true;
    normal.tick(16, 1, 0);
    mecha.tick(16, 1, 0);
    assert_eq!(normal.fire_cooldown_ms, -16);
    assert_eq!(mecha.fire_cooldown_ms, -32);
    normal.fire();
    mecha.fire();
    normal.tick(100, 1, 0);
    mecha.tick(100, 1, 0);
    assert_eq!(normal.fire_cooldown_ms, 300);
    assert_eq!(mecha.fire_cooldown_ms, 200);
}
