use mechaburro::game_state::{BurroState, GameState, PlayerMarker};
use mechaburro::menu::character_select::{PlayerSelectionState, SelectionState};

fn seat(player: usize, burro: usize, score: usize, is_bot: bool) -> BurroState {
    BurroState { player, selected_burro: burro, outline_color: None, score, is_bot }
}

fn game(burros: Vec<BurroState>, dead: Vec<usize>) -> GameState {
    GameState { burros, dead_burros: dead, current_level: 0, difficulty_halves: 1 }
}

#[test]
fn unclaimed_burros_skip_taken_ones() {
    let seats = vec![seat(0, 2, 0, false), seat(1, 5, 0, false)];
    assert_eq!(GameState::unclaimed_burro_list(&seats, 7), vec![0, 1, 3, 4, 6]);
}

#[test]
fn bots_take_the_drawn_burros() {
    let seats = vec![seat(0, 2, 0, false)];
    let g = GameState::initialize_with_choices(seats, &vec![1, 0, 3], 5, 8);
    // available: 0 1 3 4 5 6 7 -> take index 1 (1), then index 0 (0), then index 3 of [3 4 5 6 7] (6)
    let picked: Vec<usize> = g.burros.iter().skip(1).map(|b| b.selected_burro).collect();
    assert_eq!(picked, vec![1, 0, 6]);
    assert_eq!(g.burros[1], BurroState { player: 8, selected_burro: 1, outline_color: None, score: 0, is_bot: true });
    assert_eq!(g.burros[3].player, 10);
    assert_eq!(g.difficulty_halves, 5);
    assert_eq!(g.current_level, 0);
}

#[test]
fn random_bots_are_distinct_and_free() {
    for _ in 0..20 {
        let g = GameState::initialize(vec![seat(0, 3, 0, false)], 7, 1, 8);
        let mut all: Vec<usize> = g.burros.iter().map(|b| b.selected_burro).collect();
        all.sort();
        assert_eq!(all, vec![0, 1, 2, 3, 4, 5, 6, 7]);
        assert!(g.burros.iter().skip(1).all(|b| b.is_bot && b.score == 0));
    }
}

#[test]
fn deaths_are_recorded_once_and_end_the_round() {
    let mut g = game(vec![seat(0, 0, 0, false), seat(1, 1, 0, true), seat(2, 2, 0, true)], vec![]);
    assert!(!g.record_death(1));
    assert!(!g.record_death(1));
    assert_eq!(g.dead_burros, vec![1]);
    assert!(g.record_death(2));
    assert_eq!(g.dead_burros, vec![1, 2]);
}

#[test]
fn round_points_follow_elimination_order() {
    let mut g = game(
        vec![seat(0, 0, 10, false), seat(1, 1, 0, true), seat(2, 2, 5, true), seat(3, 3, 0, true)],
        vec![2, 0, 3],
    );
    assert_eq!(g.round_points(2), 0);
    assert_eq!(g.round_points(0), 1);
    assert_eq!(g.round_points(3), 2);
    assert_eq!(g.round_points(1), 3);
    g.score_round();
    let scores: Vec<usize> = g.burros.iter().map(|b| b.score).collect();
    assert_eq!(scores, vec![11, 3, 5, 2]);
    assert_eq!(g.dead_burros, vec![2, 0, 3]);
}

#[test]
fn standings_order_by_points_then_later_seat() {
    let g = game(vec![seat(0, 0, 3, false), seat(1, 1, 7, true), seat(2, 2, 3, true), seat(3, 3, 1, true)], vec![]);
    assert_eq!(g.standings(), vec![2, 0, 1, 3]);
    assert_eq!(g.winner(), Some(1));
    let tie = game(vec![seat(0, 0, 4, false), seat(1, 1, 4, true)], vec![]);
    assert_eq!(tie.standings(), vec![1, 0]);
    assert_eq!(tie.winner(), Some(1));
    assert_eq!(game(vec![], vec![]).winner(), None);
}

#[test]
fn elimination_slots() {
    let g = game(vec![seat(0, 0, 0, false), seat(1, 1, 0, true), seat(2, 2, 0, true)], vec![2, 1]);
    assert_eq!(g.elimination_slot(2), 1);
    assert_eq!(g.elimination_slot(1), 2);
    assert_eq!(g.elimination_slot(0), 0);
}

#[test]
fn humans_alive() {
    let mut g = game(vec![seat(0, 0, 0, false), seat(1, 1, 0, true)], vec![1]);
    assert!(g.any_humans_alive());
    g.record_death(0);
    assert!(!g.any_humans_alive());
    let bots_only = game(vec![seat(8, 0, 0, true)], vec![]);
    assert!(!bots_only.any_humans_alive());
}

#[test]
fn levels_advance_until_game_over() {
    let mut g = game(vec![seat(0, 0, 0, false)], vec![3]);
    for level in 1..7 {
        assert!(!g.advance_level());
        assert_eq!(g.current_level, level);
        assert!(!g.is_game_over());
    }
    assert!(g.advance_level());
    assert!(g.is_game_over());
    g.restart_levels();
    assert_eq!(g.current_level, 0);
    g.on_new_level();
    assert!(g.dead_burros.is_empty());
}

#[test]
fn selection_becomes_a_seat() {
    let selection = PlayerSelectionState { burro: 5, outline_color: 9, state: SelectionState::Ready };
    let s: BurroState = BurroState::from((selection, PlayerMarker(2)));
    assert_eq!(s, BurroState { player: 2, selected_burro: 5, outline_color: Some(9), score: 0, is_bot: false });
}

#[test]
fn level_models_are_numbered_with_two_digits() {
    assert_eq!(mechaburro::config::level_asset_path(0), "models/level_00.glb");
    assert_eq!(mechaburro::config::level_asset_path(6), "models/level_06.glb");
    assert_eq!(mechaburro::config::level_asset_path(12), "models/level_12.glb");
}

#[test]
fn room_by_room_level_order() {
    let models: Vec<usize> = (0..9).map(mechaburro::config::debug_level_model).collect();
    assert_eq!(models, vec![0, 2, 3, 6, 5, 4, 1, 0, 0]);
    assert_eq!(mechaburro::config::debug_level_asset_path(3), "models/level_06.glb");
    assert_eq!(mechaburro::config::debug_level_asset_path(0), "models/level_00.glb");
}
