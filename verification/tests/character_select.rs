use mechaburro::game_state::PlayerMarker;
use mechaburro::menu::character_select::{
    force_burro_uniqueness, handle_selection_frame, ready_players, selected_burros, selection_counts, MenuPresses,
    PlayerSelectionState, SelectionOutcome, SelectionState, COLOR_COUNT,
};

fn press(select: bool, back: bool, left: bool, right: bool) -> MenuPresses {
    MenuPresses { select, back, left, right }
}

const NONE: MenuPresses = MenuPresses { select: false, back: false, left: false, right: false };

fn player(burro: usize, color: usize, state: SelectionState) -> PlayerSelectionState {
    PlayerSelectionState { burro, outline_color: color, state }
}

#[test]
fn selected_states() {
    assert!(!SelectionState::NotPlaying.has_selected_burro());
    assert!(!SelectionState::Burro.has_selected_burro());
    assert!(SelectionState::OutlineColor.has_selected_burro());
    assert!(SelectionState::Ready.has_selected_burro());
    let d = PlayerSelectionState::default();
    assert_eq!(d, player(0, 0, SelectionState::NotPlaying));
}

#[test]
fn joining_and_leaving() {
    let mut p = player(0, 0, SelectionState::NotPlaying);
    let out = p.handle_input(press(true, false, false, false), 1, 0, &vec![], 7);
    assert_eq!(p.state, SelectionState::Burro);
    assert_eq!(out, SelectionOutcome { play_audio: true, back_to_title: false, completed: false });

    let mut q = player(0, 0, SelectionState::NotPlaying);
    let out = q.handle_input(press(false, true, false, false), 0, 0, &vec![], 7);
    assert_eq!(out, SelectionOutcome { play_audio: true, back_to_title: true, completed: false });
    let out = q.handle_input(press(false, true, false, false), 1, 0, &vec![], 7);
    assert_eq!(out, SelectionOutcome { play_audio: false, back_to_title: false, completed: false });
}

#[test]
fn browsing_burros() {
    let mut p = player(7, 0, SelectionState::Burro);
    p.handle_input(press(false, false, false, true), 1, 0, &vec![], 7);
    assert_eq!(p.burro, 0);
    p.handle_input(press(false, false, true, false), 1, 0, &vec![7, 6], 7);
    assert_eq!(p.burro, 5);
    p.handle_input(press(false, false, true, false), 1, 0, &vec![4], 7);
    assert_eq!(p.burro, 3);
    p.handle_input(press(true, false, false, false), 1, 0, &vec![], 7);
    assert_eq!(p.state, SelectionState::OutlineColor);
}

#[test]
fn left_wraps_past_taken_burros() {
    let mut p = player(1, 0, SelectionState::Burro);
    p.handle_input(press(false, false, true, false), 2, 0, &vec![0, 7], 7);
    assert_eq!(p.burro, 6);
    let mut only_own = player(3, 0, SelectionState::Burro);
    only_own.handle_input(press(false, false, true, false), 2, 0, &vec![0, 1, 2, 4, 5, 6, 7], 7);
    assert_eq!(only_own.burro, 3);
}

#[test]
fn choosing_colors() {
    let mut p = player(2, COLOR_COUNT - 1, SelectionState::OutlineColor);
    p.handle_input(press(false, false, false, true), 1, 0, &vec![2], 7);
    assert_eq!(p.outline_color, 0);
    p.handle_input(press(false, false, true, false), 1, 0, &vec![2], 7);
    assert_eq!(p.outline_color, COLOR_COUNT - 1);
    p.handle_input(press(false, true, false, false), 1, 0, &vec![2], 7);
    assert_eq!(p.state, SelectionState::Burro);
    assert_eq!(p.burro, 2);
}

#[test]
fn ready_players_complete_together() {
    let mut p = player(2, 1, SelectionState::Ready);
    let out = p.handle_input(press(true, false, false, false), 2, 1, &vec![2], 7);
    assert!(!out.completed);
    let out = p.handle_input(press(true, false, false, false), 2, 2, &vec![2], 7);
    assert!(out.completed && out.play_audio);
    p.handle_input(press(false, true, false, false), 2, 2, &vec![2], 7);
    assert_eq!(p.state, SelectionState::OutlineColor);
}

#[test]
fn counts_and_taken_burros() {
    let players = vec![
        player(1, 0, SelectionState::NotPlaying),
        player(2, 0, SelectionState::Burro),
        player(3, 0, SelectionState::OutlineColor),
        player(4, 0, SelectionState::Ready),
    ];
    assert_eq!(selected_burros(&players), vec![3, 4]);
    assert_eq!(selection_counts(&players), (3, 1));
}

#[test]
fn a_frame_uses_the_counts_from_its_start() {
    let mut players = vec![player(0, 0, SelectionState::Ready), player(1, 0, SelectionState::OutlineColor)];
    let presses = vec![press(true, false, false, false), press(true, false, false, false)];
    let out = handle_selection_frame(&mut players, &presses, 7);
    assert!(!out.completed);
    assert!(out.play_audio);
    assert_eq!(players[1].state, SelectionState::Ready);
    let out = handle_selection_frame(&mut players, &vec![press(true, false, false, false), NONE], 7);
    assert!(out.completed);
}

#[test]
fn uniqueness_moves_browsing_players_forward() {
    let mut players = vec![
        player(0, 0, SelectionState::Ready),
        player(0, 0, SelectionState::Burro),
        player(1, 0, SelectionState::OutlineColor),
        player(5, 0, SelectionState::NotPlaying),
        player(7, 0, SelectionState::Burro),
    ];
    force_burro_uniqueness(&mut players, 7);
    assert_eq!(players[0].burro, 0);
    assert_eq!(players[1].burro, 2);
    assert_eq!(players[2].burro, 1);
    assert_eq!(players[3].burro, 5);
    assert_eq!(players[4].burro, 7);
}

#[test]
fn only_ready_players_go_on() {
    let players = vec![
        (player(1, 2, SelectionState::Ready), PlayerMarker(0)),
        (player(2, 2, SelectionState::Burro), PlayerMarker(1)),
        (player(3, 4, SelectionState::Ready), PlayerMarker(5)),
    ];
    let ready = ready_players(&players);
    assert_eq!(ready.len(), 2);
    assert_eq!(ready[0].1, PlayerMarker(0));
    assert_eq!(ready[1].1, PlayerMarker(5));
    assert_eq!(ready[1].0.burro, 3);
}
