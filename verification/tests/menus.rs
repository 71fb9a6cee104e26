use mechaburro::game_state::{BurroState, GameState};
use mechaburro::menu::settings::{Settings, SettingsMenuState};
use mechaburro::menu::title_screen::{button_choice, move_button_selection, TitleScreenOptions, TitleScreenState};
use mechaburro::menu::MenuOption;
use mechaburro::character_select::BurroCharacter;
use mechaburro::options::{move_option, OptionChange, OptionOutcome, OptionState, BOTS_ROW, START_ROW};

#[test]
fn settings_cycle_through_rows() {
    assert_eq!(Settings::NumberOfBots.next(), Settings::UnfairAdvantage);
    assert_eq!(Settings::UnfairAdvantage.next(), Settings::Vamos);
    assert_eq!(Settings::Vamos.next(), Settings::NumberOfBots);
    assert_eq!(Settings::NumberOfBots.previous(), Settings::Vamos);
    assert_eq!(Settings::Vamos.previous(), Settings::UnfairAdvantage);
    assert_eq!(
        Settings::get(),
        vec![Settings::NumberOfBots, Settings::UnfairAdvantage, Settings::Vamos]
    );
}

#[test]
fn title_options_cycle() {
    assert_eq!(TitleScreenOptions::Start.next(), TitleScreenOptions::Quit);
    assert_eq!(TitleScreenOptions::Quit.next(), TitleScreenOptions::Start);
    assert_eq!(TitleScreenOptions::Start.previous(), TitleScreenOptions::Quit);
    assert_eq!(TitleScreenOptions::get(), vec![TitleScreenOptions::Start, TitleScreenOptions::Quit]);
    assert_eq!(TitleScreenOptions::Start.get_label(), "Start");
    assert_eq!(TitleScreenOptions::Quit.get_label(), "Quit");
    assert_eq!(TitleScreenState::new().selected_option, TitleScreenOptions::Start);
}

#[test]
fn settings_labels() {
    assert_eq!(Settings::NumberOfBots.get_label(), "Number of Bots");
    assert_eq!(Settings::UnfairAdvantage.get_label(), "Unfair Advantage");
    assert_eq!(Settings::Vamos.get_label(), "¡Vamos!");
}

fn state(players: isize, bots: isize, advantage: isize, selected: Settings) -> SettingsMenuState {
    SettingsMenuState {
        selected_setting: selected,
        number_of_players: players,
        number_of_bots: bots,
        unfair_advantage: advantage,
    }
}

#[test]
fn settings_display_values() {
    let s = state(2, 3, 0, Settings::NumberOfBots);
    assert_eq!(s.display(&Settings::NumberOfBots), "3");
    assert_eq!(s.display(&Settings::UnfairAdvantage), "Mechaburrito");
    assert_eq!(s.display(&Settings::Vamos), "¡Vamos!");
    assert_eq!(state(2, 12, 1, Settings::Vamos).display(&Settings::UnfairAdvantage), " Mechaburro ");
    assert_eq!(state(2, 12, 2, Settings::Vamos).display(&Settings::UnfairAdvantage), "Mechagigante");
    assert_eq!(state(2, 12, 7, Settings::Vamos).display(&Settings::NumberOfBots), "12");
    assert_eq!(state(2, -4, 7, Settings::Vamos).display(&Settings::NumberOfBots), "-4");
}

#[test]
fn bot_limits() {
    assert_eq!(state(1, 1, 0, Settings::NumberOfBots).min_bots(), 1);
    assert_eq!(state(1, 1, 0, Settings::NumberOfBots).max_bots(), 7);
    assert_eq!(state(3, 0, 0, Settings::NumberOfBots).min_bots(), 0);
    assert_eq!(state(3, 0, 0, Settings::NumberOfBots).max_bots(), 5);
}

#[test]
fn increment_and_decrement_wrap() {
    let mut s = state(1, 7, 0, Settings::NumberOfBots);
    s.increment();
    assert_eq!(s.number_of_bots, 1);
    s.decrement();
    assert_eq!(s.number_of_bots, 7);
    s.decrement();
    assert_eq!(s.number_of_bots, 6);

    let mut a = state(1, 1, 2, Settings::UnfairAdvantage);
    a.increment();
    assert_eq!(a.unfair_advantage, 0);
    a.decrement();
    assert_eq!(a.unfair_advantage, 2);
    assert_eq!(a.number_of_bots, 1);

    let mut v = state(1, 1, 1, Settings::Vamos);
    v.increment();
    v.decrement();
    assert_eq!((v.number_of_bots, v.unfair_advantage), (1, 1));
}

#[test]
fn new_settings_menu() {
    let s = SettingsMenuState::new();
    assert_eq!(s.selected_setting, Settings::NumberOfBots);
    assert_eq!((s.number_of_players, s.number_of_bots, s.unfair_advantage), (0, 0, 0));
}

fn human(player: usize, burro: usize) -> BurroState {
    BurroState { player, selected_burro: burro, outline_color: Some(player), score: 0, is_bot: false }
}

#[test]
fn start_game_fills_bots() {
    let s = state(2, 3, 1, Settings::Vamos);
    let game: GameState = s.start_game(vec![human(0, 4), human(1, 0)], 8);
    assert_eq!(game.burros.len(), 5);
    assert_eq!(game.difficulty_halves, 3);
    assert_eq!(game.current_level, 0);
    assert!(game.dead_burros.is_empty());
    let mut seen = vec![4usize, 0];
    for (i, seat) in game.burros[2..].iter().enumerate() {
        assert!(seat.is_bot);
        assert_eq!(seat.player, 8 + i);
        assert!(seat.selected_burro < 8);
        assert!(!seen.contains(&seat.selected_burro));
        seen.push(seat.selected_burro);
    }
}

#[test]
fn title_buttons_wrap() {
    assert_eq!(move_button_selection(0, 2, true, false), 1);
    assert_eq!(move_button_selection(1, 2, true, false), 0);
    assert_eq!(move_button_selection(1, 2, false, true), 0);
    assert_eq!(move_button_selection(0, 2, false, true), 1);
    assert_eq!(move_button_selection(0, 2, false, false), 0);
    assert_eq!(button_choice(0), Some(TitleScreenOptions::Start));
    assert_eq!(button_choice(1), Some(TitleScreenOptions::Quit));
    assert_eq!(button_choice(2), None);
}

#[test]
fn options_menu_changes() {
    let mut o = OptionState::initialize(vec![joined(0), joined(1), joined(2)]);
    assert_eq!(o.players.len(), 3);
    assert_eq!((o.number_of_players, o.number_of_bots), (3, 5));
    assert_eq!(o.change(BOTS_ROW, OptionChange::Increase), OptionOutcome { play_audio: false, start_game: false });
    assert_eq!(o.number_of_bots, 5);
    assert_eq!(o.change(BOTS_ROW, OptionChange::Decrease), OptionOutcome { play_audio: true, start_game: false });
    assert_eq!(o.number_of_bots, 4);
    assert_eq!(o.change(START_ROW, OptionChange::Select), OptionOutcome { play_audio: true, start_game: true });
    assert_eq!(o.change(START_ROW, OptionChange::Increase), OptionOutcome { play_audio: false, start_game: false });

    let mut lone = OptionState::initialize(vec![joined(0)]);
    lone.number_of_bots = 1;
    assert_eq!(lone.change(BOTS_ROW, OptionChange::Decrease), OptionOutcome { play_audio: false, start_game: false });
    assert_eq!(lone.number_of_bots, 1);
}

#[test]
fn options_rows_clamp() {
    assert_eq!(move_option(0, true, false), 0);
    assert_eq!(move_option(1, true, false), 0);
    assert_eq!(move_option(0, false, true), 1);
    assert_eq!(move_option(1, false, true), 1);
}

fn joined(player: usize) -> BurroCharacter {
    BurroCharacter { player, is_playing: true, has_picked: true, selected_burro: player, action_cooldown_ms: 0 }
}
