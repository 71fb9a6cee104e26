use vstd::prelude::*;
use crate::burro::clamp;
use crate::menu::character_select::MenuPresses;
use crate::util::text::{decimal_string, decimal_text};

verus! {

/// Number of burro skins on the classic selection screen.
pub const SKIN_COUNT: usize = 8;

/// Time a player's presses are ignored after a press, in milliseconds.
pub const ACTION_COOLDOWN_MS: i64 = 200;

/// One player on the classic selection screen: whether they joined, whether they settled on
/// a skin, the skin shown (`0..SKIN_COUNT`) and the time before their next press counts.
#[derive(Clone, Copy, Debug, PartialEq, Eq, Structural)]
pub struct BurroCharacter {
    pub player: usize,
    pub is_playing: bool,
    pub has_picked: bool,
    pub selected_burro: usize,
    pub action_cooldown_ms: i64,
}

/// A cooldown after `delta_ms` milliseconds, kept within `[-10000, 3000]`.
pub open spec fn cooled(cooldown: i64, delta_ms: u32) -> i64 {
    clamp(cooldown - delta_ms, -10000, 3000) as i64
}

/// The skin shown after pressing left: the next one, wrapping from the last to the first.
pub open spec fn skin_after_left(skin: usize) -> usize {
    ((skin + 1) % (SKIN_COUNT as int)) as usize
}

/// The skin shown after pressing right: the previous one, wrapping from the first to the last.
pub open spec fn skin_after_right(skin: usize) -> usize {
    ((skin + SKIN_COUNT - 1) % (SKIN_COUNT as int)) as usize
}

/// The skins settled on by players in the game, in player order.
pub open spec fn picked_skins(burros: Seq<BurroCharacter>) -> Seq<usize>
    decreases burros.len(),
{
    if burros.len() == 0 {
        Seq::empty()
    } else {
        let before = picked_skins(burros.drop_last());
        if burros.last().is_playing && burros.last().has_picked {
            before.push(burros.last().selected_burro)
        } else {
            before
        }
    }
}

/// One player's frame, when the screen takes presses: the player after it, whether the
/// player settled on a skin (which asks for the game to start), and whether the player is in
/// the game without a skin yet. A player whose press cooldown has not run out is only cooled.
/// Left then right apply, then select: it joins the game, or settles on the shown skin when
/// no player had settled on that skin at the start of the frame.
pub open spec fn character_step(
    burro: BurroCharacter,
    presses: MenuPresses,
    delta_ms: u32,
    picked: Seq<usize>,
) -> (BurroCharacter, bool, bool) {
    let cooldown = cooled(burro.action_cooldown_ms, delta_ms);
    if cooldown > 0 {
        (BurroCharacter { action_cooldown_ms: cooldown, ..burro }, false, false)
    } else {
        let after_left = if presses.left { skin_after_left(burro.selected_burro) } else { burro.selected_burro };
        let skin = if presses.right { skin_after_right(after_left) } else { after_left };
        let moved_cooldown = if presses.left || presses.right { ACTION_COOLDOWN_MS } else { cooldown };
        let joins = presses.select && !burro.is_playing;
        let settles = presses.select && burro.is_playing && !picked.contains(skin);
        let after = BurroCharacter {
            is_playing: burro.is_playing || joins,
            has_picked: burro.has_picked || settles,
            selected_burro: skin,
            action_cooldown_ms: if settles { ACTION_COOLDOWN_MS } else { moved_cooldown },
            ..burro
        };
        (after, settles, after.is_playing && !after.has_picked)
    }
}

/// Every skin index is one of the skins.
pub open spec fn skins_valid(burros: Seq<BurroCharacter>) -> bool {
    forall|i: int| 0 <= i < burros.len() ==> #[trigger] burros[i].selected_burro < SKIN_COUNT
}

fn contains_skin(skins: &Vec<usize>, skin: usize) -> (r: bool)
    ensures
        r == skins@.contains(skin),
{
    let mut i: usize = 0;
    while i < skins.len()
        invariant
            i <= skins.len(),
            forall|j: int| 0 <= j < i ==> skins@[j] != skin,
        decreases skins.len() - i,
    {
        if skins[i] == skin {
            assert(skins@[i as int] == skin);
            return true;
        }
        i = i + 1;
    }
    false
}

fn cool(cooldown: i64, delta_ms: u32) -> (r: i64)
    ensures
        r == cooled(cooldown, delta_ms),
{
    let next = cooldown as i128 - delta_ms as i128;
    if next < -10000 {
        -10000
    } else if next > 3000 {
        3000
    } else {
        next as i64
    }
}

/// The skins settled on by players in the game.
pub fn picked_skin_list(burros: &Vec<BurroCharacter>) -> (r: Vec<usize>)
    ensures
        r@ == picked_skins(burros@),
{
    let mut picked: Vec<usize> = Vec::new();
    let mut i: usize = 0;
    while i < burros.len()
        invariant
            i <= burros@.len(),
            picked@ == picked_skins(burros@.take(i as int)),
        decreases burros@.len() - i,
    {
        assert(burros@.take(i + 1).drop_last() == burros@.take(i as int));
        if burros[i].is_playing && burros[i].has_picked {
            picked.push(burros[i].selected_burro);
        }
        i = i + 1;
    }
    assert(burros@.take(burros@.len() as int) == burros@);
    picked
}

/// One player's frame, as `character_step` says.
fn step_character(burro: &mut BurroCharacter, presses: MenuPresses, delta_ms: u32, picked: &Vec<usize>) -> (r: (bool, bool))
    requires
        old(burro).selected_burro < SKIN_COUNT,
    ensures
        (*final(burro), r.0, r.1) == character_step(*old(burro), presses, delta_ms, picked@),
        final(burro).selected_burro < SKIN_COUNT,
{
    let cooldown = cool(burro.action_cooldown_ms, delta_ms);
    burro.action_cooldown_ms = cooldown;
    if cooldown > 0 {
        return (false, false);
    }
    if presses.left {
        burro.selected_burro = (burro.selected_burro + 1) % SKIN_COUNT;
        burro.action_cooldown_ms = ACTION_COOLDOWN_MS;
    }
    if presses.right {
        burro.selected_burro = (burro.selected_burro + SKIN_COUNT - 1) % SKIN_COUNT;
        burro.action_cooldown_ms = ACTION_COOLDOWN_MS;
    }
    let mut settles = false;
    if presses.select {
        if !burro.is_playing {
            burro.is_playing = true;
        } else if !contains_skin(picked, burro.selected_burro) {
            burro.action_cooldown_ms = ACTION_COOLDOWN_MS;
            burro.has_picked = true;
            settles = true;
        }
    }
    (settles, burro.is_playing && !burro.has_picked)
}

/// Whether some player settled on a skin this frame.
pub open spec fn any_settles(burros: Seq<BurroCharacter>, presses: Seq<MenuPresses>, delta_ms: u32, picked: Seq<usize>) -> bool {
    exists|i: int| 0 <= i < burros.len() && (#[trigger] character_step(burros[i], presses[i], delta_ms, picked)).1
}

/// Whether some player whose presses counted this frame is in the game without a skin.
pub open spec fn any_undecided(burros: Seq<BurroCharacter>, presses: Seq<MenuPresses>, delta_ms: u32, picked: Seq<usize>) -> bool {
    exists|i: int| 0 <= i < burros.len() && (#[trigger] character_step(burros[i], presses[i], delta_ms, picked)).2
}

/// One frame of the classic selection screen (`presses[i]` belongs to `burros[i]`). The
/// screen's own cooldown runs first; while it has not run out nothing else changes. Then
/// every player takes a step against the skins settled on at the start of the frame, and
/// `true` asks for the game to start: some player settled on a skin this frame and no player
/// whose presses counted is in the game without one.
pub fn update_character_selection(
    burros: &mut Vec<BurroCharacter>,
    screen_cooldown_ms: &mut i64,
    presses: &Vec<MenuPresses>,
    delta_ms: u32,
) -> (start_game: bool)
    requires
        presses@.len() == old(burros)@.len(),
        skins_valid(old(burros)@),
    ensures
        *final(screen_cooldown_ms) == cooled(*old(screen_cooldown_ms), delta_ms),
        *final(screen_cooldown_ms) > 0 ==> final(burros)@ == old(burros)@ && !start_game,
        *final(screen_cooldown_ms) <= 0 ==> {
            let picked = picked_skins(old(burros)@);
            &&& final(burros)@.len() == old(burros)@.len()
            &&& forall|i: int| 0 <= i < old(burros)@.len() ==> #[trigger] final(burros)@[i] == character_step(
                old(burros)@[i],
                presses@[i],
                delta_ms,
                picked,
            ).0
            &&& start_game == (any_settles(old(burros)@, presses@, delta_ms, picked) && !any_undecided(
                old(burros)@,
                presses@,
                delta_ms,
                picked,
            ))
        },
        skins_valid(final(burros)@),
{
    *screen_cooldown_ms = cool(*screen_cooldown_ms, delta_ms);
    if *screen_cooldown_ms > 0 {
        return false;
    }
    let picked = picked_skin_list(burros);
    let ghost start = burros@;
    let mut attempt = false;
    let mut undecided = false;
    let mut i: usize = 0;
    while i < burros.len()
        invariant
            i <= burros@.len(),
            burros@.len() == start.len(),
            presses@.len() == start.len(),
            picked@ == picked_skins(start),
            skins_valid(start),
            forall|k: int| 0 <= k < i ==> #[trigger] burros@[k] == character_step(start[k], presses@[k], delta_ms, picked@).0,
            forall|k: int| i <= k < start.len() ==> #[trigger] burros@[k] == start[k],
            forall|k: int| 0 <= k < i ==> #[trigger] burros@[k].selected_burro < SKIN_COUNT,
            attempt == exists|k: int| 0 <= k < i && (#[trigger] character_step(start[k], presses@[k], delta_ms, picked@)).1,
            undecided == exists|k: int| 0 <= k < i && (#[trigger] character_step(start[k], presses@[k], delta_ms, picked@)).2,
        decreases start.len() - i,
    {
        let mut burro = burros[i];
        assert(burro == start[i as int]);
        let (settles, waiting) = step_character(&mut burro, presses[i], delta_ms, &picked);
        burros.set(i, burro);
        attempt = attempt || settles;
        undecided = undecided || waiting;
        proof {
            let step = character_step(start[i as int], presses@[i as int], delta_ms, picked@);
            if settles {
                assert(step.1);
            }
            if waiting {
                assert(step.2);
            }
        }
        i = i + 1;
    }
    attempt && !undecided
}

/// The name of a skin.
pub open spec fn skin_name(skin: usize) -> Seq<char> {
    if skin == 0 {
        "Pinata"@
    } else if skin == 1 {
        "Meow"@
    } else if skin == 2 {
        "Salud"@
    } else if skin == 3 {
        "Mexico"@
    } else if skin == 4 {
        "Medianoche"@
    } else if skin == 5 {
        "Morir"@
    } else if skin == 6 {
        "Gators"@
    } else {
        "Aguas"@
    }
}

/// The label under a player: the skin's name once they joined, an invitation otherwise.
pub open spec fn character_label(burro: BurroCharacter) -> Seq<char> {
    if burro.is_playing {
        skin_name(burro.selected_burro)
    } else {
        "P"@ + decimal_text(burro.player + 1) + " Press Start"@
    }
}

impl BurroCharacter {
    /// The text shown under the player.
    pub fn label(&self) -> (r: String)
        ensures
            r@ == character_label(*self),
    {
        if self.is_playing {
            let name = if self.selected_burro == 0 {
                "Pinata"
            } else if self.selected_burro == 1 {
                "Meow"
            } else if self.selected_burro == 2 {
                "Salud"
            } else if self.selected_burro == 3 {
                "Mexico"
            } else if self.selected_burro == 4 {
                "Medianoche"
            } else if self.selected_burro == 5 {
                "Morir"
            } else if self.selected_burro == 6 {
                "Gators"
            } else {
                "Aguas"
            };
            name.to_string()
        } else {
            let mut text = "P".to_string();
            let number = decimal_string(self.player as i128 + 1);
            text.append(number.as_str());
            text.append(" Press Start");
            text
        }
    }
}

/// The skin shown after `presses` left presses.
pub open spec fn skin_after_lefts(skin: usize, presses: nat) -> usize
    decreases presses,
{
    if presses == 0 {
        skin
    } else {
        skin_after_left(skin_after_lefts(skin, (presses - 1) as nat))
    }
}

proof fn lemma_lefts_closed_form(skin: usize, presses: nat)
    requires
        skin < SKIN_COUNT,
    ensures
        skin_after_lefts(skin, presses) == (skin + presses) % 8,
    decreases presses,
{
    if presses > 0 {
        lemma_lefts_closed_form(skin, (presses - 1) as nat);
        vstd::arithmetic::div_mod::lemma_add_mod_noop(skin + presses - 1, 1, 8);
        vstd::arithmetic::div_mod::lemma_mod_twice(skin + presses - 1, 8);
    }
}

/// The skins shown, in order, over `presses` left presses starting from `skin`.
pub open spec fn skins_shown(skin: usize, presses: nat) -> Seq<usize> {
    Seq::new(presses, |k: int| skin_after_lefts(skin, k as nat))
}

/// Browsing skins goes round the eight of them: a right press undoes a left press (and the
/// other way round), and eight left presses show every skin once before coming back.
pub proof fn skins_go_round(skin: usize)
    requires
        skin < SKIN_COUNT,
    ensures
        skin_after_right(skin_after_left(skin)) == skin,
        skin_after_left(skin_after_right(skin)) == skin,
        skin_after_lefts(skin, 8) == skin,
        skins_shown(skin, 8).no_duplicates(),
        forall|t: usize| t < SKIN_COUNT ==> #[trigger] skins_shown(skin, 8).contains(t),
{
    let shown = skins_shown(skin, 8);
    lemma_lefts_closed_form(skin, 8);
    assert forall|i: int, j: int| 0 <= i < shown.len() && 0 <= j < shown.len() && i != j implies shown[i] != shown[j] by {
        lemma_lefts_closed_form(skin, i as nat);
        lemma_lefts_closed_form(skin, j as nat);
    }
    assert forall|t: usize| t < SKIN_COUNT implies #[trigger] shown.contains(t) by {
        let k: int = if t >= skin { t - skin } else { t + 8 - skin };
        lemma_lefts_closed_form(skin, k as nat);
        assert(shown[k] == t);
    }
}

} // verus!
