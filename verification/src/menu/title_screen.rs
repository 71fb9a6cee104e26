use vstd::prelude::*;
use super::MenuOption;

verus! {

/// The choices of the title screen.
#[derive(Clone, Copy, Debug, PartialEq, Eq, Structural)]
pub enum TitleScreenOptions {
    Start,
    Quit,
}

/// The title screen's highlighted choice.
pub struct TitleScreenState {
    pub selected_option: TitleScreenOptions,
}

impl TitleScreenState {
    pub fn new() -> (r: TitleScreenState)
        ensures
            r.selected_option == TitleScreenOptions::Start,
    {
        TitleScreenState { selected_option: TitleScreenOptions::Start }
    }
}

impl MenuOption for TitleScreenOptions {
    open spec fn count() -> nat {
        2
    }

    open spec fn spec_position(&self) -> nat {
        match self {
            TitleScreenOptions::Start => 0,
            TitleScreenOptions::Quit => 1,
        }
    }

    open spec fn spec_label(&self) -> Seq<char> {
        match self {
            TitleScreenOptions::Start => "Start"@,
            TitleScreenOptions::Quit => "Quit"@,
        }
    }

    proof fn position_identifies(a: Self, b: Self) {
    }

    proof fn position_in_menu(option: Self) {
    }

    fn option_count() -> (r: usize) {
        2
    }

    fn position(&self) -> (r: usize) {
        match self {
            TitleScreenOptions::Start => 0,
            TitleScreenOptions::Quit => 1,
        }
    }

    fn at(position: usize) -> (r: Self) {
        if position == 0 {
            TitleScreenOptions::Start
        } else {
            TitleScreenOptions::Quit
        }
    }

    fn get_label(&self) -> (r: &'static str) {
        match self {
            TitleScreenOptions::Start => "Start",
            TitleScreenOptions::Quit => "Quit",
        }
    }
}

/// Moves the highlighted button of a column of `number_of_buttons` buttons: up from the first
/// wraps to the last, down from the last wraps to the first.
pub fn move_button_selection(selected: usize, number_of_buttons: usize, up: bool, down: bool) -> (r: usize)
    requires
        up || down ==> number_of_buttons >= 1,
    ensures
        r == ({
            let after_up = if up {
                if selected == 0 { number_of_buttons - 1 } else { selected - 1 }
            } else {
                selected as int
            };
            if down {
                if after_up + 1 > number_of_buttons - 1 { 0 } else { after_up + 1 }
            } else {
                after_up
            }
        }),
{
    let mut current = selected;
    if up {
        current = match current.checked_sub(1) {
            Some(previous) => previous,
            None => number_of_buttons - 1,
        };
    }
    if down {
        let next = match current.checked_add(1) {
            Some(next) => next,
            None => 0,
        };
        current = if next > number_of_buttons - 1 { 0 } else { next };
    }
    current
}

/// The choice a pressed button makes: the first starts, the second quits.
pub fn button_choice(selected: usize) -> (r: Option<TitleScreenOptions>)
    ensures
        selected == 0 ==> r == Some(TitleScreenOptions::Start),
        selected == 1 ==> r == Some(TitleScreenOptions::Quit),
        selected > 1 ==> r is None,
{
    if selected == 0 {
        Some(TitleScreenOptions::Start)
    } else if selected == 1 {
        Some(TitleScreenOptions::Quit)
    } else {
        None
    }
}

} // verus!
