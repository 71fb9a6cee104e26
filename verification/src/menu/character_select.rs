use vstd::prelude::*;
use crate::game_state::{BurroState, PlayerMarker};
use crate::util::num_ext::RangedWrap;

verus! {

/// `burro` moved `steps` times through `[0, last]`, forward or back, wrapping around.
pub open spec fn cycle_burro(burro: usize, steps: nat, last: usize, forward: bool) -> usize
    decreases steps,
{
    if steps == 0 {
        burro
    } else {
        let before = cycle_burro(burro, (steps - 1) as nat, last, forward);
        if forward {
            before.spec_circular_increment(0, last)
        } else {
            before.spec_circular_decrement(0, last)
        }
    }
}

/// `found` is the first burro, at least `min_steps` steps from `start` in the given
/// direction, that is not in `taken`.
pub open spec fn is_first_free(
    taken: Seq<usize>,
    start: usize,
    last: usize,
    forward: bool,
    min_steps: nat,
    found: usize,
) -> bool {
    exists|k: nat| {
        &&& min_steps <= k
        &&& found == cycle_burro(start, k, last, forward)
        &&& !taken.contains(found)
        &&& forall|j: nat| min_steps <= j < k ==> taken.contains(#[trigger] cycle_burro(start, j, last, forward))
    }
}

/// Some burro in `[0, last]` is not taken.
pub open spec fn has_free_burro(taken: Seq<usize>, last: usize) -> bool {
    exists|f: usize| f <= last && !taken.contains(f)
}

/// The bounds under which stepping through `[0, last]` from `start` stays inside `usize`.
pub open spec fn cycle_fits(start: usize, last: usize) -> bool {
    &&& start + last + 1 <= usize::MAX
    &&& 2 * last + 1 <= usize::MAX
}

/// One step of the cycle, from any starting point, as a remainder.
proof fn lemma_step(v: usize, last: usize, forward: bool)
    requires
        v + last + 1 <= usize::MAX,
        2 * last + 1 <= usize::MAX,
    ensures
        v.increment_defined(0, last),
        v.decrement_defined(0, last),
        forward ==> v.spec_circular_increment(0, last) == (v + 1) % (last + 1),
        !forward ==> v.spec_circular_decrement(0, last) == (v + last) % (last + 1),
        v.spec_circular_increment(0, last) <= last,
        v.spec_circular_decrement(0, last) <= last,
        v <= last ==> v.spec_circular_decrement(0, last) == (v - 1) % (last + 1),
{
    let m = last + 1;
    vstd::arithmetic::div_mod::lemma_mod_pos_bound(v + 1, m as int);
    vstd::arithmetic::div_mod::lemma_mod_pos_bound(v + last, m as int);
    if v <= last {
        vstd::arithmetic::div_mod::lemma_mod_add_multiples_vanish(v - 1, m as int);
    }
}

/// Stepping from inside the range, as a closed form.
proof fn lemma_cycle_closed_form(t: usize, j: nat, last: usize, forward: bool)
    requires
        t <= last,
        2 * last + 1 <= usize::MAX,
    ensures
        forward ==> cycle_burro(t, j, last, forward) == (t + j) % (last + 1),
        !forward ==> cycle_burro(t, j, last, forward) == (t - j) % (last + 1),
        cycle_burro(t, j, last, forward) <= last,
    decreases j,
{
    let m = (last + 1) as int;
    if j == 0 {
        vstd::arithmetic::div_mod::lemma_small_mod(t as nat, m as nat);
    } else {
        lemma_cycle_closed_form(t, (j - 1) as nat, last, forward);
        let before = cycle_burro(t, (j - 1) as nat, last, forward);
        lemma_step(before, last, forward);
        if forward {
            vstd::arithmetic::div_mod::lemma_add_mod_noop(t + j - 1, 1, m);
            vstd::arithmetic::div_mod::lemma_mod_twice(t + j - 1, m);
            if m > 1 {
                vstd::arithmetic::div_mod::lemma_small_mod(1, m as nat);
            } else {
                vstd::arithmetic::div_mod::lemma_mod_division_less_than_divisor(t + j, m);
                vstd::arithmetic::div_mod::lemma_mod_division_less_than_divisor(t - j, m);
            }
        } else {
            vstd::arithmetic::div_mod::lemma_sub_mod_noop(t - (j - 1), 1, m);
            vstd::arithmetic::div_mod::lemma_mod_twice(t - (j - 1), m);
            if m > 1 {
                vstd::arithmetic::div_mod::lemma_small_mod(1, m as nat);
            } else {
                vstd::arithmetic::div_mod::lemma_mod_division_less_than_divisor(t + j, m);
                vstd::arithmetic::div_mod::lemma_mod_division_less_than_divisor(t - j, m);
            }
        }
    }
}

proof fn lemma_cycle_shift(s: usize, j: nat, last: usize, forward: bool)
    ensures
        cycle_burro(s, j + 1, last, forward) == cycle_burro(cycle_burro(s, 1, last, forward), j, last, forward),
    decreases j,
{
    if j > 0 {
        lemma_cycle_shift(s, (j - 1) as nat, last, forward);
    }
}

/// From inside the range, the cycle reaches every burro of the range.
proof fn lemma_cycle_reaches(t: usize, f: usize, last: usize, forward: bool)
    requires
        t <= last,
        f <= last,
        2 * last + 1 <= usize::MAX,
    ensures
        forward ==> cycle_burro(t, ((f - t) % (last + 1)) as nat, last, forward) == f,
        !forward ==> cycle_burro(t, ((t - f) % (last + 1)) as nat, last, forward) == f,
        forward ==> 0 <= (f - t) % (last + 1) <= last,
        !forward ==> 0 <= (t - f) % (last + 1) <= last,
        cycle_burro(t, (last + 1) as nat, last, forward) == t,
{
    let m = (last + 1) as int;
    vstd::arithmetic::div_mod::lemma_mod_division_less_than_divisor(f - t, m);
    vstd::arithmetic::div_mod::lemma_mod_division_less_than_divisor(t - f, m);
    let a = ((f - t) % m) as nat;
    let b = ((t - f) % m) as nat;
    lemma_cycle_closed_form(t, a, last, true);
    lemma_cycle_closed_form(t, b, last, false);
    lemma_cycle_closed_form(t, m as nat, last, forward);
    vstd::arithmetic::div_mod::lemma_add_mod_noop_right(t as int, f - t, m);
    vstd::arithmetic::div_mod::lemma_sub_mod_noop_right(t as int, t - f, m);
    vstd::arithmetic::div_mod::lemma_small_mod(f as nat, m as nat);
    vstd::arithmetic::div_mod::lemma_small_mod(t as nat, m as nat);
    vstd::arithmetic::div_mod::lemma_mod_add_multiples_vanish(t as int, m);
    vstd::arithmetic::div_mod::lemma_mod_sub_multiples_vanish(t as int, m);
}

/// Walks from `start` through `[0, last]` in the given direction, taking at least
/// `min_steps` steps, until it finds a burro that is not in `taken`.
fn find_free_burro(start: usize, last: usize, taken: &Vec<usize>, forward: bool, min_steps: usize) -> (r: usize)
    requires
        cycle_fits(start, last),
        has_free_burro(taken@, last),
        min_steps <= 1,
    ensures
        is_first_free(taken@, start, last, forward, min_steps as nat, r),
        r <= last || (min_steps == 0 && r == start),
{
    let ghost f = choose|f: usize| f <= last && !taken@.contains(f);
    let ghost m = (last + 1) as int;
    proof {
        lemma_step(start, last, forward);
    }
    let ghost t1 = cycle_burro(start, 1, last, forward);
    let ghost target: nat = if start <= last {
        let d = if forward { (f - start) % m } else { (start - f) % m };
        if d >= min_steps { d as nat } else { m as nat }
    } else {
        let d = if forward { (f - t1) % m } else { (t1 - f) % m };
        (d + 1) as nat
    };
    proof {
        assert(cycle_burro(start, 0, last, forward) == start);
        assert(t1 == (if forward { start.spec_circular_increment(0, last) } else { start.spec_circular_decrement(0, last) }));
        if start <= last {
            lemma_cycle_reaches(start, f, last, forward);
        } else {
            lemma_cycle_reaches(t1, f, last, forward);
            let d = if forward { (f - t1) % m } else { (t1 - f) % m };
            lemma_cycle_shift(start, d as nat, last, forward);
        }
        assert(cycle_burro(start, target, last, forward) == f);
        assert(min_steps <= target <= m + 1);
    }
    let mut current = start;
    let mut k: usize = 0;
    if min_steps == 1 {
        current = if forward { current.circular_increment(0, last) } else { current.circular_decrement(0, last) };
        k = 1;
    }
    while vec_contains_burro(taken, current)
        invariant
            cycle_fits(start, last),
            min_steps <= k <= target,
            k <= m + 1,
            target <= m + 1,
            m == last + 1,
            current == cycle_burro(start, k as nat, last, forward),
            cycle_burro(start, target, last, forward) == f,
            !taken@.contains(f),
            f <= last,
            k >= 1 ==> current <= last,
            k == 0 ==> current == start,
            forall|j: nat| min_steps <= j < k ==> taken@.contains(#[trigger] cycle_burro(start, j, last, forward)),
        decreases target - k,
    {
        proof {
            if k == target {
                assert(current == f);
            }
            if k == 0 {
                lemma_step(start, last, forward);
            } else {
                lemma_step(current, last, forward);
            }
        }
        current = if forward { current.circular_increment(0, last) } else { current.circular_decrement(0, last) };
        k = k + 1;
    }
    proof {
        assert(is_first_free(taken@, start, last, forward, min_steps as nat, current) == (exists|kk: nat| {
            &&& min_steps <= kk
            &&& current == cycle_burro(start, kk, last, forward)
            &&& !taken@.contains(current)
            &&& forall|j: nat| min_steps <= j < kk ==> taken@.contains(#[trigger] cycle_burro(start, j, last, forward))
        }));
        let kk = k as nat;
        assert(min_steps <= kk && current == cycle_burro(start, kk, last, forward) && !taken@.contains(current));
    }
    current
}

fn vec_contains_burro(v: &Vec<usize>, x: usize) -> (r: bool)
    ensures
        r == v@.contains(x),
{
    let mut i: usize = 0;
    while i < v.len()
        invariant
            i <= v.len(),
            forall|j: int| 0 <= j < i ==> v@[j] != x,
        decreases v.len() - i,
    {
        if v[i] == x {
            assert(v@[i as int] == x);
            return true;
        }
        i = i + 1;
    }
    false
}

/// Number of outline colors a player can pick from.
pub const COLOR_COUNT: usize = 24;

/// Where a player is in choosing a burro.
#[derive(Clone, Copy, Debug, PartialEq, Eq, Structural)]
pub enum SelectionState {
    NotPlaying,
    Burro,
    OutlineColor,
    Ready,
}

impl SelectionState {
    pub open spec fn spec_has_selected_burro(&self) -> bool {
        match self {
            SelectionState::NotPlaying | SelectionState::Burro => false,
            _ => true,
        }
    }

    /// Whether the player has settled on a burro (and is choosing a color or is ready).
    pub fn has_selected_burro(&self) -> (r: bool)
        ensures
            r == self.spec_has_selected_burro(),
    {
        match self {
            SelectionState::NotPlaying | SelectionState::Burro => false,
            _ => true,
        }
    }
}

/// One player's choices on the character selection screen.
#[derive(Clone, Copy, Debug, PartialEq, Eq, Structural)]
pub struct PlayerSelectionState {
    pub burro: usize,
    pub outline_color: usize,
    pub state: SelectionState,
}

impl Default for PlayerSelectionState {
    fn default() -> (r: PlayerSelectionState)
        ensures
            r.burro == 0,
            r.outline_color == 0,
            r.state == SelectionState::NotPlaying,
    {
        PlayerSelectionState { burro: 0, outline_color: 0, state: SelectionState::NotPlaying }
    }
}

/// The menu buttons one player pressed this frame.
#[derive(Clone, Copy, Debug)]
pub struct MenuPresses {
    pub select: bool,
    pub back: bool,
    pub left: bool,
    pub right: bool,
}

/// What the screen must do after the players' input.
#[derive(Clone, Copy, Debug, PartialEq, Eq, Structural)]
pub struct SelectionOutcome {
    pub play_audio: bool,
    pub back_to_title: bool,
    pub completed: bool,
}

/// The selection state a player moves to. Within one frame the presses apply in the order
/// select, then back.
pub open spec fn next_selection_state(state: SelectionState, presses: MenuPresses) -> SelectionState {
    match state {
        SelectionState::NotPlaying => if presses.select { SelectionState::Burro } else { state },
        SelectionState::Burro => if presses.back {
            SelectionState::NotPlaying
        } else if presses.select {
            SelectionState::OutlineColor
        } else {
            state
        },
        SelectionState::OutlineColor => if presses.back {
            SelectionState::Burro
        } else if presses.select {
            SelectionState::Ready
        } else {
            state
        },
        SelectionState::Ready => if presses.back { SelectionState::OutlineColor } else { state },
    }
}

/// Whether the player, with the whole screen's counts, finishes the selection this frame:
/// a ready player presses select while every playing player is ready.
pub open spec fn completes_selection(state: SelectionState, presses: MenuPresses, playing_count: usize, ready_count: usize) -> bool {
    state == SelectionState::Ready && presses.select && ready_count == playing_count
}

/// Whether the player leaves for the title screen: back pressed while nobody plays.
pub open spec fn goes_back_to_title(state: SelectionState, presses: MenuPresses, playing_count: usize) -> bool {
    state == SelectionState::NotPlaying && presses.back && playing_count == 0
}

/// Whether the player's presses make the menu sound.
pub open spec fn plays_audio(state: SelectionState, presses: MenuPresses, playing_count: usize, ready_count: usize) -> bool {
    match state {
        SelectionState::NotPlaying => presses.select || (presses.back && playing_count == 0),
        SelectionState::Burro | SelectionState::OutlineColor => presses.select || presses.back || presses.left || presses.right,
        SelectionState::Ready => presses.back || (presses.select && ready_count == playing_count),
    }
}

/// The burro a player browsing burros has after a right press (one step forward).
pub open spec fn burro_after_right(player: PlayerSelectionState, presses: MenuPresses, last_burro: usize) -> usize {
    if presses.right { player.burro.spec_circular_increment(0, last_burro) } else { player.burro }
}

/// The color a player browsing colors has after the right and left presses.
pub open spec fn color_after_presses(player: PlayerSelectionState, presses: MenuPresses) -> usize {
    let after_right = if presses.right {
        player.outline_color.spec_circular_increment(0, (COLOR_COUNT - 1) as usize)
    } else {
        player.outline_color
    };
    if presses.left { after_right.spec_circular_decrement(0, (COLOR_COUNT - 1) as usize) } else { after_right }
}

/// The inputs on which the player's presses keep every step inside `usize` and every search
/// for a free burro finite.
pub open spec fn input_defined(player: PlayerSelectionState, presses: MenuPresses, taken: Seq<usize>, last_burro: usize) -> bool {
    match player.state {
        SelectionState::Burro => {
            &&& presses.right ==> player.burro.increment_defined(0, last_burro)
            &&& presses.left ==> cycle_fits(burro_after_right(player, presses, last_burro), last_burro)
                && has_free_burro(taken, last_burro)
        },
        SelectionState::OutlineColor => {
            &&& presses.right ==> player.outline_color.increment_defined(0, (COLOR_COUNT - 1) as usize)
            &&& presses.left ==> (if presses.right {
                player.outline_color.spec_circular_increment(0, (COLOR_COUNT - 1) as usize)
            } else {
                player.outline_color
            }).decrement_defined(0, (COLOR_COUNT - 1) as usize)
        },
        _ => true,
    }
}

/// How a player's choices change with the presses of a frame: the state moves on, a player
/// browsing burros steps right and then, on a left press, walks left to the first burro that
/// nobody has settled on, and a player browsing colors steps through the palette.
pub open spec fn selection_updated(
    before: PlayerSelectionState,
    after: PlayerSelectionState,
    presses: MenuPresses,
    taken: Seq<usize>,
    last_burro: usize,
) -> bool {
    &&& after.state == next_selection_state(before.state, presses)
    &&& match before.state {
        SelectionState::Burro => {
            &&& after.outline_color == before.outline_color
            &&& if presses.left {
                is_first_free(taken, burro_after_right(before, presses, last_burro), last_burro, false, 1, after.burro)
            } else {
                after.burro == burro_after_right(before, presses, last_burro)
            }
        },
        SelectionState::OutlineColor => {
            &&& after.burro == before.burro
            &&& after.outline_color == color_after_presses(before, presses)
        },
        _ => after.burro == before.burro && after.outline_color == before.outline_color,
    }
}

impl PlayerSelectionState {
    /// Applies one player's presses of a frame. `taken` lists the burros that players have
    /// settled on, `playing_count` and `ready_count` count the players in the game and those
    /// ready, all as they were at the start of the frame; burros are numbered `0..=last_burro`.
    pub fn handle_input(
        &mut self,
        presses: MenuPresses,
        playing_count: usize,
        ready_count: usize,
        taken: &Vec<usize>,
        last_burro: usize,
    ) -> (r: SelectionOutcome)
        requires
            input_defined(*old(self), presses, taken@, last_burro),
        ensures
            selection_updated(*old(self), *final(self), presses, taken@, last_burro),
            r.play_audio == plays_audio(old(self).state, presses, playing_count, ready_count),
            r.back_to_title == goes_back_to_title(old(self).state, presses, playing_count),
            r.completed == completes_selection(old(self).state, presses, playing_count, ready_count),
    {
        let mut play_audio = false;
        let mut back_to_title = false;
        let mut completed = false;
        match self.state {
            SelectionState::NotPlaying => {
                if presses.select {
                    play_audio = true;
                    self.state = SelectionState::Burro;
                }
                if presses.back && playing_count == 0 {
                    back_to_title = true;
                    play_audio = true;
                }
            },
            SelectionState::Burro => {
                if presses.select {
                    play_audio = true;
                    self.state = SelectionState::OutlineColor;
                }
                if presses.back {
                    play_audio = true;
                    self.state = SelectionState::NotPlaying;
                }
                if presses.right {
                    play_audio = true;
                    self.burro = self.burro.circular_increment(0, last_burro);
                }
                if presses.left {
                    play_audio = true;
                    self.burro = find_free_burro(self.burro, last_burro, taken, false, 1);
                }
            },
            SelectionState::OutlineColor => {
                if presses.select {
                    play_audio = true;
                    self.state = SelectionState::Ready;
                }
                if presses.back {
                    play_audio = true;
                    self.state = SelectionState::Burro;
                }
                if presses.right {
                    play_audio = true;
                    self.outline_color = self.outline_color.circular_increment(0, COLOR_COUNT - 1);
                }
                if presses.left {
                    play_audio = true;
                    self.outline_color = self.outline_color.circular_decrement(0, COLOR_COUNT - 1);
                }
            },
            SelectionState::Ready => {
                if presses.back {
                    play_audio = true;
                    self.state = SelectionState::OutlineColor;
                }
                if presses.select && ready_count == playing_count {
                    play_audio = true;
                    completed = true;
                }
            },
        }
        SelectionOutcome { play_audio, back_to_title, completed }
    }
}

/// The burros that players have settled on, in player order.
pub open spec fn taken_burros(players: Seq<PlayerSelectionState>) -> Seq<usize>
    decreases players.len(),
{
    if players.len() == 0 {
        Seq::empty()
    } else {
        let before = taken_burros(players.drop_last());
        if players.last().state.spec_has_selected_burro() {
            before.push(players.last().burro)
        } else {
            before
        }
    }
}

/// How many players are in the game.
pub open spec fn count_playing(players: Seq<PlayerSelectionState>) -> nat
    decreases players.len(),
{
    if players.len() == 0 {
        0
    } else {
        count_playing(players.drop_last()) + if players.last().state != SelectionState::NotPlaying { 1nat } else { 0nat }
    }
}

/// How many players are ready.
pub open spec fn count_ready(players: Seq<PlayerSelectionState>) -> nat
    decreases players.len(),
{
    if players.len() == 0 {
        0
    } else {
        count_ready(players.drop_last()) + if players.last().state == SelectionState::Ready { 1nat } else { 0nat }
    }
}

/// The ready players, in order, with their markers.
pub open spec fn ready_only(players: Seq<(PlayerSelectionState, PlayerMarker)>) -> Seq<(PlayerSelectionState, PlayerMarker)>
    decreases players.len(),
{
    if players.len() == 0 {
        Seq::empty()
    } else {
        let before = ready_only(players.drop_last());
        if players.last().0.state == SelectionState::Ready {
            before.push(players.last())
        } else {
            before
        }
    }
}

proof fn lemma_counts_bounded(players: Seq<PlayerSelectionState>)
    ensures
        count_ready(players) <= count_playing(players) <= players.len(),
    decreases players.len(),
{
    if players.len() > 0 {
        lemma_counts_bounded(players.drop_last());
    }
}

/// The burros that players have settled on.
pub fn selected_burros(players: &Vec<PlayerSelectionState>) -> (r: Vec<usize>)
    ensures
        r@ == taken_burros(players@),
{
    let mut taken: Vec<usize> = Vec::new();
    let mut i: usize = 0;
    while i < players.len()
        invariant
            i <= players@.len(),
            taken@ == taken_burros(players@.take(i as int)),
        decreases players@.len() - i,
    {
        assert(players@.take(i + 1).drop_last() == players@.take(i as int));
        if players[i].state.has_selected_burro() {
            taken.push(players[i].burro);
        }
        i = i + 1;
    }
    assert(players@.take(players@.len() as int) == players@);
    taken
}

/// How many players are in the game, and how many of them are ready.
pub fn selection_counts(players: &Vec<PlayerSelectionState>) -> (r: (usize, usize))
    ensures
        r.0 == count_playing(players@),
        r.1 == count_ready(players@),
{
    let mut playing: usize = 0;
    let mut ready: usize = 0;
    let mut i: usize = 0;
    while i < players.len()
        invariant
            i <= players@.len(),
            playing == count_playing(players@.take(i as int)),
            ready == count_ready(players@.take(i as int)),
        decreases players@.len() - i,
    {
        assert(players@.take(i + 1).drop_last() == players@.take(i as int));
        proof {
            lemma_counts_bounded(players@.take(i as int));
        }
        if players[i].state != SelectionState::NotPlaying {
            playing = playing + 1;
            if players[i].state == SelectionState::Ready {
                ready = ready + 1;
            }
        }
        i = i + 1;
    }
    assert(players@.take(players@.len() as int) == players@);
    (playing, ready)
}

/// Applies every player's presses of one frame (`presses[i]` belongs to `players[i]`),
/// against the burros taken and the counts as they stood at the start of the frame. The
/// outcome sounds, leaves or completes when any player's presses do.
pub fn handle_selection_frame(
    players: &mut Vec<PlayerSelectionState>,
    presses: &Vec<MenuPresses>,
    last_burro: usize,
) -> (r: SelectionOutcome)
    requires
        presses@.len() == old(players)@.len(),
        forall|i: int| 0 <= i < old(players)@.len() ==> input_defined(
            #[trigger] old(players)@[i],
            presses@[i],
            taken_burros(old(players)@),
            last_burro,
        ),
    ensures
        final(players)@.len() == old(players)@.len(),
        forall|i: int| 0 <= i < old(players)@.len() ==> selection_updated(
            #[trigger] old(players)@[i],
            final(players)@[i],
            presses@[i],
            taken_burros(old(players)@),
            last_burro,
        ),
        r.play_audio == exists|i: int| 0 <= i < old(players)@.len() && plays_audio(
            #[trigger] old(players)@[i].state,
            presses@[i],
            count_playing(old(players)@) as usize,
            count_ready(old(players)@) as usize,
        ),
        r.back_to_title == exists|i: int| 0 <= i < old(players)@.len() && goes_back_to_title(
            #[trigger] old(players)@[i].state,
            presses@[i],
            count_playing(old(players)@) as usize,
        ),
        r.completed == exists|i: int| 0 <= i < old(players)@.len() && completes_selection(
            #[trigger] old(players)@[i].state,
            presses@[i],
            count_playing(old(players)@) as usize,
            count_ready(old(players)@) as usize,
        ),
{
    let ghost start = players@;
    let taken = selected_burros(players);
    let (playing_count, ready_count) = selection_counts(players);
    let mut play_audio = false;
    let mut back_to_title = false;
    let mut completed = false;
    let mut i: usize = 0;
    while i < players.len()
        invariant
            i <= players@.len(),
            players@.len() == start.len(),
            presses@.len() == start.len(),
            taken@ == taken_burros(start),
            playing_count == count_playing(start),
            ready_count == count_ready(start),
            forall|k: int| 0 <= k < start.len() ==> input_defined(#[trigger] start[k], presses@[k], taken@, last_burro),
            forall|k: int| 0 <= k < i ==> selection_updated(#[trigger] start[k], players@[k], presses@[k], taken@, last_burro),
            forall|k: int| i <= k < start.len() ==> #[trigger] players@[k] == start[k],
            play_audio == exists|k: int| 0 <= k < i && plays_audio(#[trigger] start[k].state, presses@[k], playing_count, ready_count),
            back_to_title == exists|k: int| 0 <= k < i && goes_back_to_title(#[trigger] start[k].state, presses@[k], playing_count),
            completed == exists|k: int| 0 <= k < i && completes_selection(#[trigger] start[k].state, presses@[k], playing_count, ready_count),
        decreases start.len() - i,
    {
        let mut player = players[i];
        let outcome = player.handle_input(presses[i], playing_count, ready_count, &taken, last_burro);
        players.set(i, player);
        play_audio = play_audio || outcome.play_audio;
        back_to_title = back_to_title || outcome.back_to_title;
        completed = completed || outcome.completed;
        proof {
            if play_audio && !outcome.play_audio {
                let k = choose|k: int| 0 <= k < i && plays_audio(#[trigger] start[k].state, presses@[k], playing_count, ready_count);
                assert(0 <= k < i + 1);
            }
            if back_to_title && !outcome.back_to_title {
                let k = choose|k: int| 0 <= k < i && goes_back_to_title(#[trigger] start[k].state, presses@[k], playing_count);
                assert(0 <= k < i + 1);
            }
            if completed && !outcome.completed {
                let k = choose|k: int| 0 <= k < i && completes_selection(#[trigger] start[k].state, presses@[k], playing_count, ready_count);
                assert(0 <= k < i + 1);
            }
        }
        i = i + 1;
    }
    SelectionOutcome { play_audio, back_to_title, completed }
}

/// Moves every player who has not settled on a burro off any burro that another player has
/// settled on: forward, wrapping around, to the first free one.
pub fn force_burro_uniqueness(players: &mut Vec<PlayerSelectionState>, last_burro: usize)
    requires
        forall|i: int| 0 <= i < old(players)@.len() && !(#[trigger] old(players)@[i]).state.spec_has_selected_burro()
            ==> cycle_fits(old(players)@[i].burro, last_burro),
        forall|i: int| 0 <= i < old(players)@.len() && !(#[trigger] old(players)@[i]).state.spec_has_selected_burro()
            && taken_burros(old(players)@).contains(old(players)@[i].burro)
            ==> has_free_burro(taken_burros(old(players)@), last_burro),
    ensures
        final(players)@.len() == old(players)@.len(),
        forall|i: int| 0 <= i < old(players)@.len() ==> {
            let (before, after) = (#[trigger] old(players)@[i], final(players)@[i]);
            &&& after.state == before.state
            &&& after.outline_color == before.outline_color
            &&& before.state.spec_has_selected_burro() ==> after.burro == before.burro
            &&& !before.state.spec_has_selected_burro() ==> is_first_free(
                taken_burros(old(players)@),
                before.burro,
                last_burro,
                true,
                0,
                after.burro,
            )
        },
{
    let ghost start = players@;
    let taken = selected_burros(players);
    let mut i: usize = 0;
    while i < players.len()
        invariant
            i <= players@.len(),
            players@.len() == start.len(),
            taken@ == taken_burros(start),
            forall|k: int| 0 <= k < start.len() && !(#[trigger] start[k]).state.spec_has_selected_burro()
                ==> cycle_fits(start[k].burro, last_burro),
            forall|k: int| 0 <= k < start.len() && !(#[trigger] start[k]).state.spec_has_selected_burro()
                && taken@.contains(start[k].burro) ==> has_free_burro(taken@, last_burro),
            forall|k: int| i <= k < start.len() ==> #[trigger] players@[k] == start[k],
            forall|k: int| 0 <= k < i ==> {
                let (before, after) = (#[trigger] start[k], players@[k]);
                &&& after.state == before.state
                &&& after.outline_color == before.outline_color
                &&& before.state.spec_has_selected_burro() ==> after.burro == before.burro
                &&& !before.state.spec_has_selected_burro() ==> is_first_free(taken@, before.burro, last_burro, true, 0, after.burro)
            },
        decreases start.len() - i,
    {
        let mut player = players[i];
        if !player.state.has_selected_burro() {
            if vec_contains_burro(&taken, player.burro) {
                player.burro = find_free_burro(player.burro, last_burro, &taken, true, 0);
            } else {
                proof {
                    let b = player.burro;
                    assert(cycle_burro(b, 0, last_burro, true) == b);
                    assert(0 <= 0nat && b == cycle_burro(b, 0, last_burro, true) && !taken@.contains(b));
                }
            }
        }
        players.set(i, player);
        i = i + 1;
    }
}

/// The players who are ready, with their markers, in order.
pub fn ready_players(players: &Vec<(PlayerSelectionState, PlayerMarker)>) -> (r: Vec<(PlayerSelectionState, PlayerMarker)>)
    ensures
        r@ == ready_only(players@),
{
    let mut ready: Vec<(PlayerSelectionState, PlayerMarker)> = Vec::new();
    let mut i: usize = 0;
    while i < players.len()
        invariant
            i <= players@.len(),
            ready@ == ready_only(players@.take(i as int)),
        decreases players@.len() - i,
    {
        assert(players@.take(i + 1).drop_last() == players@.take(i as int));
        let entry = players[i];
        if entry.0.state == SelectionState::Ready {
            ready.push(entry);
        }
        i = i + 1;
    }
    assert(players@.take(players@.len() as int) == players@);
    ready
}

/// The seat a player takes in the game, from the choices made on this screen.
pub open spec fn seat_from_selection(selection: PlayerSelectionState, marker: PlayerMarker) -> BurroState {
    BurroState {
        player: marker.0,
        selected_burro: selection.burro,
        outline_color: Some(selection.outline_color),
        score: 0,
        is_bot: false,
    }
}

impl From<(PlayerSelectionState, PlayerMarker)> for BurroState {
    fn from(item: (PlayerSelectionState, PlayerMarker)) -> (r: BurroState) {
        BurroState {
            player: item.1.0,
            selected_burro: item.0.burro,
            outline_color: Some(item.0.outline_color),
            score: 0,
            is_bot: false,
        }
    }
}

impl vstd::std_specs::convert::FromSpecImpl<(PlayerSelectionState, PlayerMarker)> for BurroState {
    open spec fn obeys_from_spec() -> bool {
        true
    }

    open spec fn from_spec(item: (PlayerSelectionState, PlayerMarker)) -> BurroState {
        seat_from_selection(item.0, item.1)
    }
}

/// The burro a search for a free burro lands on is never one that a player has settled on,
/// and it lies within the burros of the game.
pub proof fn found_burro_is_free(taken: Seq<usize>, start: usize, last: usize, forward: bool, min_steps: nat, found: usize)
    requires
        is_first_free(taken, start, last, forward, min_steps, found),
        cycle_fits(start, last),
        min_steps >= 1 || start <= last,
    ensures
        !taken.contains(found),
        found <= last,
{
    let k = choose|k: nat| {
        &&& min_steps <= k
        &&& found == cycle_burro(start, k, last, forward)
        &&& !taken.contains(found)
        &&& forall|j: nat| min_steps <= j < k ==> taken.contains(#[trigger] cycle_burro(start, j, last, forward))
    };
    if start <= last {
        lemma_cycle_closed_form(start, k, last, forward);
    } else {
        lemma_step(start, last, forward);
        assert(cycle_burro(start, 0, last, forward) == start);
        let t1 = cycle_burro(start, 1, last, forward);
        lemma_cycle_shift(start, (k - 1) as nat, last, forward);
        lemma_cycle_closed_form(t1, (k - 1) as nat, last, forward);
    }
}

/// The selection completes only when every player in the game is ready.
pub proof fn completion_needs_everyone_ready(state: SelectionState, presses: MenuPresses, playing_count: usize, ready_count: usize)
    ensures
        completes_selection(state, presses, playing_count, ready_count) ==> ready_count == playing_count
            && state == SelectionState::Ready,
{
}

/// How far a player has come through the selection: not playing, browsing burros, browsing
/// colors, ready.
pub open spec fn selection_stage(state: SelectionState) -> int {
    match state {
        SelectionState::NotPlaying => 0,
        SelectionState::Burro => 1,
        SelectionState::OutlineColor => 2,
        SelectionState::Ready => 3,
    }
}

/// Back and select walk a player through the stages of the selection one at a time: back
/// takes a player who has joined one stage back toward not playing (browsing burros leaves the
/// game), select without back takes a player one stage forward up to ready, and a frame with
/// neither leaves the stage as it was. A player not playing only joins, by select.
pub proof fn back_and_select_step_through_stages(
    before: PlayerSelectionState,
    after: PlayerSelectionState,
    presses: MenuPresses,
    taken: Seq<usize>,
    last_burro: usize,
)
    requires
        selection_updated(before, after, presses, taken, last_burro),
    ensures
        presses.back && before.state != SelectionState::NotPlaying
            ==> selection_stage(after.state) == selection_stage(before.state) - 1,
        presses.back && before.state == SelectionState::Burro ==> after.state == SelectionState::NotPlaying,
        !presses.back && presses.select && before.state != SelectionState::Ready
            ==> selection_stage(after.state) == selection_stage(before.state) + 1,
        !presses.back && presses.select && before.state == SelectionState::Ready ==> after.state == before.state,
        !presses.back && !presses.select ==> after.state == before.state,
        before.state == SelectionState::NotPlaying ==> after.state == (if presses.select {
            SelectionState::Burro
        } else {
            SelectionState::NotPlaying
        }),
{
}

/// Browsing steps one place at a time, wrapping around: a right press shows the next burro,
/// and in the color stage right shows the next color and left the previous one.
pub proof fn browsing_steps_one_at_a_time(
    before: PlayerSelectionState,
    after: PlayerSelectionState,
    presses: MenuPresses,
    taken: Seq<usize>,
    last_burro: usize,
)
    requires
        selection_updated(before, after, presses, taken, last_burro),
        before.burro <= last_burro,
        2 * last_burro + 1 <= usize::MAX,
        before.outline_color < COLOR_COUNT,
    ensures
        before.state == SelectionState::Burro && presses.right && !presses.left
            ==> after.burro == (before.burro + 1) % (last_burro + 1),
        before.state == SelectionState::Burro && !presses.right && !presses.left ==> after.burro == before.burro,
        before.state == SelectionState::OutlineColor && presses.right && !presses.left
            ==> after.outline_color == (before.outline_color + 1) % (COLOR_COUNT as int),
        before.state == SelectionState::OutlineColor && presses.left && !presses.right
            ==> after.outline_color == (before.outline_color + COLOR_COUNT - 1) % (COLOR_COUNT as int),
        before.state != SelectionState::Burro ==> after.burro == before.burro,
{
    lemma_step(before.burro, last_burro, true);
    lemma_step(before.outline_color, (COLOR_COUNT - 1) as usize, true);
    lemma_step(before.outline_color, (COLOR_COUNT - 1) as usize, false);
}

/// The menu sounds for every press that changes something: a player's stage changing, and a
/// step through burros or colors; a frame without presses is silent. Only a player not
/// playing, with nobody playing, goes back to the title, and only a ready player completes the
/// selection, when every player in the game is ready.
pub proof fn presses_that_change_something_sound(
    before: PlayerSelectionState,
    after: PlayerSelectionState,
    presses: MenuPresses,
    taken: Seq<usize>,
    last_burro: usize,
    playing_count: usize,
    ready_count: usize,
)
    requires
        selection_updated(before, after, presses, taken, last_burro),
    ensures
        after.state != before.state ==> plays_audio(before.state, presses, playing_count, ready_count),
        (before.state == SelectionState::Burro || before.state == SelectionState::OutlineColor) && (presses.left
            || presses.right) ==> plays_audio(before.state, presses, playing_count, ready_count),
        !presses.select && !presses.back && !presses.left && !presses.right ==> !plays_audio(
            before.state,
            presses,
            playing_count,
            ready_count,
        ),
        goes_back_to_title(before.state, presses, playing_count) ==> before.state == SelectionState::NotPlaying
            && presses.back && playing_count == 0,
        completes_selection(before.state, presses, playing_count, ready_count) ==> before.state
            == SelectionState::Ready && presses.select && ready_count == playing_count,
{
}

} // verus!
