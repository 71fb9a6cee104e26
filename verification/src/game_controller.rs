use vstd::prelude::*;

verus! {

/// The buttons of an arcade cabinet, in the order in which held buttons are listed.
#[derive(Clone, Copy, Debug, PartialEq, Eq, Structural)]
pub enum GameButton {
    Up,
    Down,
    Left,
    Right,
    ActionUp,
    ActionLeft,
    ActionRight,
    ActionDown,
    Start,
}

/// Every button, in listing order.
pub open spec fn all_buttons() -> Seq<GameButton> {
    seq![
        GameButton::Up,
        GameButton::Down,
        GameButton::Left,
        GameButton::Right,
        GameButton::ActionUp,
        GameButton::ActionLeft,
        GameButton::ActionRight,
        GameButton::ActionDown,
        GameButton::Start,
    ]
}

/// The buttons held and those newly pressed this frame.
pub struct GameController {
    pub pressed: Vec<GameButton>,
    pub just_pressed: Vec<GameButton>,
}

/// Whether the frame's events press `button`.
pub open spec fn pressed_by(events: Seq<(GameButton, bool)>, button: GameButton) -> bool {
    exists|i: int| 0 <= i < events.len() && #[trigger] events[i] == (button, true)
}

/// Whether the frame's events release `button`.
pub open spec fn released_by(events: Seq<(GameButton, bool)>, button: GameButton) -> bool {
    exists|i: int| 0 <= i < events.len() && #[trigger] events[i] == (button, false)
}

/// Whether `button` is held after the frame: held before or pressed now, and not released now.
pub open spec fn held_after(held: Seq<GameButton>, events: Seq<(GameButton, bool)>, button: GameButton) -> bool {
    (held.contains(button) || pressed_by(events, button)) && !released_by(events, button)
}

/// The buttons of `buttons` that satisfy `keep`, in order.
pub open spec fn keep_buttons(buttons: Seq<GameButton>, keep: spec_fn(GameButton) -> bool) -> Seq<GameButton>
    decreases buttons.len(),
{
    if buttons.len() == 0 {
        Seq::empty()
    } else {
        let before = keep_buttons(buttons.drop_last(), keep);
        if keep(buttons.last()) {
            before.push(buttons.last())
        } else {
            before
        }
    }
}

fn event_matches(events: &Vec<(GameButton, bool)>, button: GameButton, value: bool) -> (r: bool)
    ensures
        r == exists|i: int| 0 <= i < events@.len() && #[trigger] events@[i] == (button, value),
{
    let mut i: usize = 0;
    while i < events.len()
        invariant
            i <= events@.len(),
            forall|j: int| 0 <= j < i ==> #[trigger] events@[j] != (button, value),
        decreases events@.len() - i,
    {
        let (b, v) = events[i];
        if b == button && v == value {
            assert(events@[i as int] == (button, value));
            return true;
        }
        i = i + 1;
    }
    false
}

fn holds(buttons: &Vec<GameButton>, button: GameButton) -> (r: bool)
    ensures
        r == buttons@.contains(button),
{
    let mut i: usize = 0;
    while i < buttons.len()
        invariant
            i <= buttons@.len(),
            forall|j: int| 0 <= j < i ==> buttons@[j] != button,
        decreases buttons@.len() - i,
    {
        if buttons[i] == button {
            assert(buttons@[i as int] == button);
            return true;
        }
        i = i + 1;
    }
    false
}

fn button_at(i: usize) -> (r: GameButton)
    requires
        i < 9,
    ensures
        r == all_buttons()[i as int],
{
    if i == 0 {
        GameButton::Up
    } else if i == 1 {
        GameButton::Down
    } else if i == 2 {
        GameButton::Left
    } else if i == 3 {
        GameButton::Right
    } else if i == 4 {
        GameButton::ActionUp
    } else if i == 5 {
        GameButton::ActionLeft
    } else if i == 6 {
        GameButton::ActionRight
    } else if i == 7 {
        GameButton::ActionDown
    } else {
        GameButton::Start
    }
}

impl GameController {
    pub fn new() -> (r: GameController)
        ensures
            r.pressed@.len() == 0,
            r.just_pressed@.len() == 0,
    {
        GameController { pressed: Vec::new(), just_pressed: Vec::new() }
    }

    /// Forgets every press.
    pub fn clear_presses(&mut self)
        ensures
            final(self).pressed@.len() == 0,
            final(self).just_pressed@.len() == 0,
    {
        self.pressed = Vec::new();
        self.just_pressed = Vec::new();
    }

    /// Applies a frame's button events (a button and whether it went down): the held buttons
    /// become those held before or pressed now and not released now, listed once each in
    /// button order; the newly pressed are those of them that were not held before.
    pub fn store_events(&mut self, events: &Vec<(GameButton, bool)>)
        ensures
            final(self).pressed@ == keep_buttons(
                all_buttons(),
                |b: GameButton| held_after(old(self).pressed@, events@, b),
            ),
            final(self).just_pressed@ == keep_buttons(
                all_buttons(),
                |b: GameButton| held_after(old(self).pressed@, events@, b) && !old(self).pressed@.contains(b),
            ),
    {
        let ghost before = self.pressed@;
        let ghost keep_held = |b: GameButton| held_after(before, events@, b);
        let ghost keep_new = |b: GameButton| held_after(before, events@, b) && !before.contains(b);
        let mut pressed: Vec<GameButton> = Vec::new();
        let mut just_pressed: Vec<GameButton> = Vec::new();
        let mut i: usize = 0;
        while i < 9
            invariant
                i <= 9,
                before == old(self).pressed@,
                self.pressed@ == before,
                keep_held == (|b: GameButton| held_after(before, events@, b)),
                keep_new == (|b: GameButton| held_after(before, events@, b) && !before.contains(b)),
                pressed@ == keep_buttons(all_buttons().take(i as int), keep_held),
                just_pressed@ == keep_buttons(all_buttons().take(i as int), keep_new),
            decreases 9 - i,
        {
            let button = button_at(i);
            assert(all_buttons().take(i + 1).drop_last() == all_buttons().take(i as int));
            let was_held = holds(&self.pressed, button);
            let pressed_now = event_matches(events, button, true);
            let released_now = event_matches(events, button, false);
            let held = (was_held || pressed_now) && !released_now;
            assert(pressed_now == pressed_by(events@, button));
            assert(released_now == released_by(events@, button));
            assert(was_held == before.contains(button));
            assert(all_buttons().take(i + 1).last() == button);
            assert(keep_held(button) == held);
            assert(keep_new(button) == (held && !was_held));
            if held {
                pressed.push(button);
                if !was_held {
                    just_pressed.push(button);
                }
            }
            i = i + 1;
        }
        assert(all_buttons().take(9) == all_buttons());
        self.pressed = pressed;
        self.just_pressed = just_pressed;
    }
}

} // verus!
