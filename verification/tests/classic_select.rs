use mechaburro::character_select::{picked_skin_list, update_character_selection, BurroCharacter, ACTION_COOLDOWN_MS};
use mechaburro::menu::character_select::MenuPresses;

fn press(select: bool, left: bool, right: bool) -> MenuPresses {
    MenuPresses { select, back: false, left, right }
}

fn none() -> MenuPresses {
    press(false, false, false)
}

fn character(player: usize, is_playing: bool, has_picked: bool, skin: usize) -> BurroCharacter {
    BurroCharacter { player, is_playing, has_picked, selected_burro: skin, action_cooldown_ms: 0 }
}

#[test]
fn screen_cooldown_holds_every_press() {
    let mut burros = vec![character(0, true, false, 0)];
    let mut screen = 200;
    let start = update_character_selection(&mut burros, &mut screen, &vec![press(true, true, false)], 50);
    assert!(!start);
    assert_eq!(screen, 150);
    assert_eq!(burros, vec![character(0, true, false, 0)]);
}

#[test]
fn left_and_right_cycle_the_skins() {
    let mut burros = vec![character(0, true, false, 7), character(1, true, false, 0)];
    let mut screen = 0;
    update_character_selection(&mut burros, &mut screen, &vec![press(false, true, false), press(false, false, true)], 16);
    assert_eq!(burros[0].selected_burro, 0);
    assert_eq!(burros[1].selected_burro, 7);
    assert_eq!(burros[0].action_cooldown_ms, ACTION_COOLDOWN_MS);
    update_character_selection(&mut burros, &mut screen, &vec![press(false, true, false), none()], 100);
    assert_eq!(burros[0].selected_burro, 0);
    assert_eq!(burros[0].action_cooldown_ms, 100);
}

#[test]
fn joining_then_settling_starts_the_game() {
    let mut burros = vec![character(0, false, false, 2), character(1, false, false, 2)];
    let mut screen = 0;
    assert!(!update_character_selection(&mut burros, &mut screen, &vec![press(true, false, false), none()], 16));
    assert!(burros[0].is_playing);
    assert!(!burros[0].has_picked);
    assert!(update_character_selection(&mut burros, &mut screen, &vec![press(true, false, false), none()], 16));
    assert!(burros[0].has_picked);
    assert_eq!(picked_skin_list(&burros), vec![2]);
}

#[test]
fn a_taken_skin_cannot_be_settled_on() {
    let mut burros = vec![character(0, true, true, 3), character(1, true, false, 3)];
    let mut screen = 0;
    let start = update_character_selection(&mut burros, &mut screen, &vec![none(), press(true, false, false)], 16);
    assert!(!start);
    assert!(!burros[1].has_picked);
}

#[test]
fn an_undecided_player_holds_the_start() {
    let mut burros = vec![character(0, true, false, 1), character(1, true, false, 4)];
    let mut screen = 0;
    let start = update_character_selection(&mut burros, &mut screen, &vec![press(true, false, false), none()], 16);
    assert!(!start);
    assert!(burros[0].has_picked);
}

#[test]
fn labels_name_the_skin_or_invite() {
    assert_eq!(character(0, true, false, 4).label(), "Medianoche");
    assert_eq!(character(2, false, false, 4).label(), "P3 Press Start");
}

#[test]
fn skins_go_round() {
    let mut burros = vec![character(0, true, false, 5)];
    let mut screen = 0;
    update_character_selection(&mut burros, &mut screen, &vec![press(false, true, false)], 16);
    assert_eq!(burros[0].selected_burro, 6);
    update_character_selection(&mut burros, &mut screen, &vec![press(false, false, true)], 200);
    assert_eq!(burros[0].selected_burro, 5);
    let mut seen = vec![];
    for _ in 0..8 {
        update_character_selection(&mut burros, &mut screen, &vec![press(false, true, false)], 200);
        seen.push(burros[0].selected_burro);
    }
    assert_eq!(burros[0].selected_burro, 5);
    seen.sort();
    assert_eq!(seen, vec![0, 1, 2, 3, 4, 5, 6, 7]);
}
