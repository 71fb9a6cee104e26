use mechaburro::game_controller::{GameButton, GameController};
use mechaburro::game_state::BurroState;
use mechaburro::mecha_picker::{choose_mecha, mecha_candidates, roulette_name, MechaPicker, MechaSelectionStage, PickStep};
use mechaburro::score_display::{score_label, seat_label, Ranking, Script, ScoreDisplayState, ScoreFrame, ScoreState, ScoreStates, ScriptAction, SCORE_PHASE_MS};
use mechaburro::game_state::GameState;
use mechaburro::winner::{announce_winner, winner_message, WinnerCircleTimer, WinnerStep, WinnerTimers, WINNER_CIRCLE_MS, WINNER_SHOWN_MS};

fn seat(player: usize, burro: usize, is_bot: bool) -> BurroState {
    BurroState { player, selected_burro: burro, outline_color: None, score: 0, is_bot }
}

#[test]
fn mecha_stages_in_order() {
    let mut stage = MechaSelectionStage::Initial;
    let expected = [
        (MechaSelectionStage::MovingToBurro, 2000),
        (MechaSelectionStage::ChangingBurro, 2000),
        (MechaSelectionStage::LaserShot, 2000),
        (MechaSelectionStage::ZoomOut, 2000),
        (MechaSelectionStage::StartRound, 0),
        (MechaSelectionStage::StartRound, 0),
    ];
    for e in expected {
        let next = stage.next_stage();
        assert_eq!(next, e);
        stage = next.0;
    }
}

#[test]
fn name_roulette_then_choice() {
    let mut picker = MechaPicker::new();
    assert_eq!(picker.pick_tick(100), PickStep::ShuffleNames);
    assert_eq!(picker.name_change_cooldown_ms, 150);
    assert_eq!(picker.pick_tick(100), PickStep::Idle);
    assert_eq!(picker.pick_tick(50), PickStep::ShuffleNames);
    assert_eq!(picker.overall_name_selection_cooldown_ms, 2750);
    assert_eq!(picker.pick_tick(3000), PickStep::ChooseMecha);
    picker.mecha_chosen();
    assert!(picker.has_picked);
    assert_eq!(picker.pick_tick(1000), PickStep::Idle);
    assert_eq!(picker.mecha_display_cooldown_ms, 2000);
}

#[test]
fn show_stages_follow_the_announcement() {
    let mut picker = MechaPicker::new();
    assert_eq!(picker.advance_stage(5000), None);
    picker.select_burro(3);
    assert_eq!(picker.advance_stage(1000), None);
    assert_eq!(picker.advance_stage(1000), Some(MechaSelectionStage::MovingToBurro));
    assert_eq!(picker.mecha_selection_cooldown_ms, 2000);
    assert_eq!(picker.advance_stage(2000), Some(MechaSelectionStage::ChangingBurro));
}

#[test]
fn any_seat_can_be_the_mechaburro() {
    let burros = vec![seat(0, 4, false), seat(8, 1, true), seat(9, 6, true)];
    assert_eq!(mecha_candidates(&burros), vec![4, 1, 6]);
    for _ in 0..20 {
        let chosen = choose_mecha(&burros).unwrap();
        assert!(chosen == 4 || chosen == 1 || chosen == 6);
    }
    assert_eq!(choose_mecha(&vec![seat(0, 4, false)]), Some(4));
    assert_eq!(choose_mecha(&vec![]), None);
    for _ in 0..20 {
        let name = roulette_name(&burros).unwrap();
        assert!(name == 4 || name == 1 || name == 6);
    }
    assert_eq!(roulette_name(&vec![]), None);
}

#[test]
fn results_screen_script() {
    let mut s = ScoreDisplayState::new();
    assert_eq!(s.update(16, false), ScriptAction::Nothing);
    assert_eq!(s.script_step, Script::MoveToLevelResults);
    assert_eq!(s.update(500, false), ScriptAction::Nothing);
    assert_eq!(s.update(500, false), ScriptAction::Nothing);
    assert_eq!(s.script_step, Script::AddScore);
    assert_eq!(s.update(1000, false), ScriptAction::AddScore);
    assert_eq!(s.update(10, true), ScriptAction::MoveOffScreen);
    assert_eq!(s.update(1000, false), ScriptAction::ShowRanking);
    assert_eq!(s.script_step, Script::Wait);
    assert_eq!(s.update(5000, false), ScriptAction::Nothing);
    assert_eq!(s.update(16, true), ScriptAction::AdvanceLevel);
}

#[test]
fn labels() {
    let names = ["1st", "2nd", "3rd", "4th", "5th", "6th", "7th", "8th", "8th"];
    for (i, name) in names.iter().enumerate() {
        assert_eq!(Ranking(i).label(), *name);
    }
    assert_eq!(seat_label(&seat(8, 0, true)), "BOT");
    assert_eq!(seat_label(&seat(0, 0, false)), "P1");
    assert_eq!(seat_label(&seat(11, 0, false)), "P12");
    let mut scored = seat(0, 0, false);
    scored.score = 42;
    assert_eq!(score_label(&scored), "42");
    assert_eq!(score_label(&seat(0, 0, false)), "0");
}

#[test]
fn controller_presses() {
    let mut c = GameController::new();
    c.store_events(&vec![(GameButton::Start, true), (GameButton::Up, true), (GameButton::Up, true)]);
    assert_eq!(c.pressed, vec![GameButton::Up, GameButton::Start]);
    assert_eq!(c.just_pressed, vec![GameButton::Up, GameButton::Start]);
    c.store_events(&vec![(GameButton::ActionDown, true), (GameButton::Start, false)]);
    assert_eq!(c.pressed, vec![GameButton::Up, GameButton::ActionDown]);
    assert_eq!(c.just_pressed, vec![GameButton::ActionDown]);
    c.store_events(&vec![(GameButton::Left, true), (GameButton::Left, false)]);
    assert_eq!(c.pressed, vec![GameButton::Up, GameButton::ActionDown]);
    assert!(c.just_pressed.is_empty());
    c.clear_presses();
    assert!(c.pressed.is_empty() && c.just_pressed.is_empty());
}

#[test]
fn winner_screen_pauses_shows_then_leaves() {
    let mut timers = WinnerTimers::new();
    assert_eq!(timers.update(1500), WinnerStep::Wait);
    assert_eq!(timers.cooldown_ms, 500);
    assert_eq!(timers.update(500), WinnerStep::ShowWinner);
    assert_eq!(timers, WinnerTimers { cooldown_ms: WINNER_SHOWN_MS, display_set: true });
    assert_eq!(timers.update(3999), WinnerStep::Wait);
    assert_eq!(timers.update(1), WinnerStep::Leave);
}

#[test]
fn winner_circle_ends_on_start_or_after_twenty_seconds() {
    let mut circle = WinnerCircleTimer::new();
    assert!(!circle.tick(19_000, false));
    assert_eq!(circle.elapsed_ms, 19_000);
    assert!(circle.tick(5, true));
    assert_eq!(circle.elapsed_ms, 19_000);
    assert!(circle.tick(5_000, false));
    assert_eq!(circle.elapsed_ms, WINNER_CIRCLE_MS);
}

#[test]
fn winner_message_depends_on_who_won() {
    assert_eq!(winner_message(&seat(0, 3, false)), "Congratulations!");
    assert_eq!(winner_message(&seat(8, 5, true)), "Ay que pena!");
    let mut human = seat(0, 3, false);
    human.score = 7;
    let mut bot = seat(8, 5, true);
    bot.score = 7;
    let mut trailing = seat(1, 1, false);
    trailing.score = 2;
    let game = GameState { burros: vec![human, bot, trailing], dead_burros: vec![], current_level: 7, difficulty_halves: 2 };
    assert_eq!(announce_winner(&game), Some((1, "Ay que pena!".to_string())));
    let game = GameState { burros: vec![bot, human], dead_burros: vec![], current_level: 7, difficulty_halves: 2 };
    assert_eq!(announce_winner(&game), Some((1, "Congratulations!".to_string())));
    let empty = GameState { burros: vec![], dead_burros: vec![], current_level: 7, difficulty_halves: 2 };
    assert_eq!(announce_winner(&empty), None);
}

#[test]
fn labels_of_the_largest_values() {
    let mut big = seat(usize::MAX, 0, false);
    big.score = usize::MAX;
    assert_eq!(score_label(&big), usize::MAX.to_string());
    assert_eq!(seat_label(&big), format!("P{}", usize::MAX as u128 + 1));
}

#[test]
fn quick_results_screen_phases() {
    let mut screen = ScoreState::new();
    assert_eq!(
        screen.update(16),
        ScoreFrame::Render { add_score: false, show_score: true, order_by_rank: false }
    );
    assert_eq!(screen.state, ScoreStates::Initial);
    assert_eq!(screen.cooldown_ms, -16);
    assert_eq!(
        screen.update(16),
        ScoreFrame::Render { add_score: true, show_score: true, order_by_rank: false }
    );
    assert_eq!(screen.state, ScoreStates::Adding);
    assert_eq!(screen.cooldown_ms, SCORE_PHASE_MS);
    assert_eq!(screen.update(2999), ScoreFrame::Wait);
    assert_eq!(
        screen.update(1),
        ScoreFrame::Render { add_score: false, show_score: true, order_by_rank: false }
    );
    assert_eq!(screen.state, ScoreStates::Added);
    assert_eq!(
        screen.update(3000),
        ScoreFrame::Render { add_score: false, show_score: false, order_by_rank: true }
    );
    assert_eq!(screen.state, ScoreStates::Displaying);
    assert_eq!(screen.update(3000), ScoreFrame::Leave);
}
