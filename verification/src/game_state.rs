use vstd::prelude::*;
use crate::config::{MAX_NUMBER_OF_PLAYERS, NUMBER_OF_LEVELS};
use crate::util::rng::random_index;

verus! {

/// One seat in the game: a player or a bot, the burro it plays and its points so far.
#[derive(Clone, Copy, Debug, PartialEq, Eq, Structural)]
pub struct BurroState {
    pub player: usize,
    pub selected_burro: usize,
    /// Index into the outline palette; `None` is the black outline that bots wear.
    pub outline_color: Option<usize>,
    pub score: usize,
    pub is_bot: bool,
}

/// Marks which player (seat) an entity or a selection belongs to.
#[derive(Clone, Copy, Debug, PartialEq, Eq, Structural)]
pub struct PlayerMarker(pub usize);

/// The state of a whole game: who plays, who has been eliminated this round (in order),
/// which level is being played and how hard the mechaburro hits.
pub struct GameState {
    pub burros: Vec<BurroState>,
    /// Burros eliminated in the current round, first eliminated first.
    pub dead_burros: Vec<usize>,
    pub current_level: usize,
    /// Difficulty in halves: a difficulty of 1.5 is stored as 3.
    pub difficulty_halves: usize,
}

/// The burros that the given seats have taken.
pub open spec fn claimed_burros(burros: Seq<BurroState>) -> Seq<usize> {
    burros.map_values(|b: BurroState| b.selected_burro)
}

/// The burros below `count` that no seat has taken, in increasing order.
pub open spec fn unclaimed_below(claimed: Seq<usize>, count: nat) -> Seq<usize>
    decreases count,
{
    if count == 0 {
        Seq::empty()
    } else {
        let before = unclaimed_below(claimed, (count - 1) as nat);
        if claimed.contains((count - 1) as usize) {
            before
        } else {
            before.push((count - 1) as usize)
        }
    }
}

/// The burros that bots receive: the `i`-th draw takes the element at index `choices[i]`
/// out of what is still available.
pub open spec fn pick_bots(available: Seq<usize>, choices: Seq<usize>) -> Seq<usize>
    decreases choices.len(),
{
    if choices.len() == 0 {
        Seq::empty()
    } else {
        seq![available[choices[0] as int]] + pick_bots(
            available.remove(choices[0] as int),
            choices.drop_first(),
        )
    }
}

/// Each draw indexes into what is still available at that draw.
pub open spec fn choices_fit(available_len: nat, choices: Seq<usize>) -> bool {
    &&& choices.len() <= available_len
    &&& forall|i: int| 0 <= i < choices.len() ==> #[trigger] choices[i] < available_len - i
}

/// The seat of the `i`-th bot.
pub open spec fn bot_seat(i: int, selected_burro: usize) -> BurroState {
    BurroState {
        player: (MAX_NUMBER_OF_PLAYERS + i) as usize,
        selected_burro,
        outline_color: None,
        score: 0,
        is_bot: true,
    }
}

/// The first position of `x` in `s`, when there is one.
pub open spec fn first_position(s: Seq<usize>, x: usize) -> int {
    choose|i: int| 0 <= i < s.len() && s[i] == x && forall|j: int| 0 <= j < i ==> s[j] != x
}

/// Points a burro earns in a round: the first eliminated earns 0, each later elimination earns
/// one more than the one before, and every burro still standing earns one more than the last
/// eliminated.
pub open spec fn elimination_points(dead: Seq<usize>, burro: usize) -> int {
    if dead.contains(burro) {
        first_position(dead, burro)
    } else {
        dead.len() as int
    }
}

/// Where a burro lands on the results screen of a round: 0 for those still standing, and
/// one past its first position among the eliminated otherwise.
pub open spec fn elimination_slot(dead: Seq<usize>, burro: usize) -> int {
    if dead.contains(burro) {
        first_position(dead, burro) + 1
    } else {
        0int
    }
}

/// Seat `k` stands above seat `i` in the overall standings: more points, or as many points
/// and a later seat.
pub open spec fn outranks(burros: Seq<BurroState>, k: int, i: int) -> bool {
    ||| burros[k].score > burros[i].score
    ||| (burros[k].score == burros[i].score && k > i)
}

/// How many of the first `upto` seats stand above seat `i`.
pub open spec fn count_outranking(burros: Seq<BurroState>, i: int, upto: nat) -> nat
    decreases upto,
{
    if upto == 0 {
        0
    } else {
        count_outranking(burros, i, (upto - 1) as nat) + if outranks(burros, upto - 1, i) {
            1nat
        } else {
            0nat
        }
    }
}

/// The place of seat `i` in the overall standings, 0 being first.
pub open spec fn standing(burros: Seq<BurroState>, i: int) -> nat {
    count_outranking(burros, i, burros.len())
}

/// Whether a human player is still in the round.
pub open spec fn humans_alive(burros: Seq<BurroState>, dead: Seq<usize>) -> bool {
    exists|i: int| 0 <= i < burros.len() && !burros[i].is_bot && !dead.contains(#[trigger] burros[i].selected_burro)
}

fn vec_contains(v: &Vec<usize>, x: usize) -> (r: bool)
    ensures
        r == v@.contains(x),
{
    let mut i: usize = 0;
    while i < v.len()
        invariant
            i <= v.len(),
            forall|j: int| 0 <= j < i ==> v@[j] != x,
        decreases v.len() - i,
    {
        if v[i] == x {
            assert(v@[i as int] == x);
            return true;
        }
        i = i + 1;
    }
    false
}

/// The first position of `x` in `v`, if any.
fn vec_position(v: &Vec<usize>, x: usize) -> (r: Option<usize>)
    ensures
        r is None <==> !v@.contains(x),
        r matches Some(p) ==> p == first_position(v@, x) && p < v@.len(),
{
    let mut i: usize = 0;
    while i < v.len()
        invariant
            i <= v.len(),
            forall|j: int| 0 <= j < i ==> v@[j] != x,
        decreases v.len() - i,
    {
        if v[i] == x {
            proof {
                lemma_first_position(v@, x, i as int);
            }
            return Some(i);
        }
        i = i + 1;
    }
    None
}

proof fn lemma_first_position(s: Seq<usize>, x: usize, p: int)
    requires
        0 <= p < s.len(),
        s[p] == x,
        forall|j: int| 0 <= j < p ==> s[j] != x,
    ensures
        first_position(s, x) == p,
        s.contains(x),
{
    let f = first_position(s, x);
    assert(0 <= f < s.len() && s[f] == x && forall|j: int| 0 <= j < f ==> s[j] != x);
    if f < p {
        assert(s[f] != x);
    }
    if f > p {
        assert(s[p] != x);
    }
}

/// The seats of the bots that a game starts with, for the given draws.
pub open spec fn bot_seats(burros: Seq<BurroState>, choices: Seq<usize>, burro_asset_count: nat) -> Seq<BurroState> {
    let picks = pick_bots(unclaimed_below(claimed_burros(burros), burro_asset_count), choices);
    Seq::new(choices.len(), |i: int| bot_seat(i, picks[i]))
}

proof fn lemma_unclaimed(claimed: Seq<usize>, count: nat)
    requires
        count <= usize::MAX + 1,
    ensures
        unclaimed_below(claimed, count).len() <= count,
        forall|i: int| 0 <= i < unclaimed_below(claimed, count).len() ==> {
            &&& #[trigger] unclaimed_below(claimed, count)[i] < count
            &&& !claimed.contains(unclaimed_below(claimed, count)[i])
        },
        forall|i: int, j: int| 0 <= i < j < unclaimed_below(claimed, count).len()
            ==> unclaimed_below(claimed, count)[i] < unclaimed_below(claimed, count)[j],
        forall|a: usize| a < count && !claimed.contains(a) ==> unclaimed_below(claimed, count).contains(a),
    decreases count,
{
    if count > 0 {
        lemma_unclaimed(claimed, (count - 1) as nat);
        let before = unclaimed_below(claimed, (count - 1) as nat);
        let now = unclaimed_below(claimed, count);
        assert forall|a: usize| a < count && !claimed.contains(a) implies now.contains(a) by {
            if a == count - 1 {
                assert(now[now.len() - 1] == a);
            } else {
                let k = choose|k: int| 0 <= k < before.len() && before[k] == a;
                assert(now[k] == a);
            }
        }
    }
}

proof fn lemma_pick_bots(available: Seq<usize>, choices: Seq<usize>)
    requires
        choices_fit(available.len(), choices),
    ensures
        pick_bots(available, choices).len() == choices.len(),
        forall|i: int| 0 <= i < choices.len() ==> available.contains(#[trigger] pick_bots(available, choices)[i]),
        available.no_duplicates() ==> pick_bots(available, choices).no_duplicates(),
    decreases choices.len(),
{
    if choices.len() > 0 {
        let c = choices[0] as int;
        let rest = available.remove(c);
        let tail = choices.drop_first();
        assert(choices[0] < available.len());
        assert forall|i: int| 0 <= i < tail.len() implies #[trigger] tail[i] < rest.len() - i by {
            assert(choices[i + 1] < available.len() - (i + 1));
        }
        lemma_pick_bots(rest, tail);
        let picks = pick_bots(available, choices);
        let tail_picks = pick_bots(rest, tail);
        assert(picks == seq![available[c]] + tail_picks);
        assert forall|i: int| 0 <= i < choices.len() implies available.contains(#[trigger] picks[i]) by {
            if i == 0 {
                assert(available[c] == picks[0]);
            } else {
                assert(picks[i] == tail_picks[i - 1]);
                assert(rest.contains(tail_picks[i - 1]));
                let k = choose|k: int| 0 <= k < rest.len() && rest[k] == tail_picks[i - 1];
                if k < c {
                    assert(available[k] == rest[k]);
                } else {
                    assert(available[k + 1] == rest[k]);
                }
            }
        }
        if available.no_duplicates() {
            assert(rest.no_duplicates()) by {
                assert forall|i: int, j: int| 0 <= i < rest.len() && 0 <= j < rest.len() && i != j
                    implies rest[i] != rest[j] by {
                    let ii = if i < c { i } else { i + 1 };
                    let jj = if j < c { j } else { j + 1 };
                    assert(rest[i] == available[ii]);
                    assert(rest[j] == available[jj]);
                }
            }
            assert forall|i: int, j: int| 0 <= i < picks.len() && 0 <= j < picks.len() && i != j
                implies picks[i] != picks[j] by {
                if i == 0 && j > 0 {
                    assert(rest.contains(tail_picks[j - 1]));
                    let k = choose|k: int| 0 <= k < rest.len() && rest[k] == tail_picks[j - 1];
                    let kk = if k < c { k } else { k + 1 };
                    assert(available[kk] == rest[k]);
                } else if j == 0 && i > 0 {
                    assert(rest.contains(tail_picks[i - 1]));
                    let k = choose|k: int| 0 <= k < rest.len() && rest[k] == tail_picks[i - 1];
                    let kk = if k < c { k } else { k + 1 };
                    assert(available[kk] == rest[k]);
                } else if i > 0 && j > 0 {
                    assert(picks[i] == tail_picks[i - 1]);
                    assert(picks[j] == tail_picks[j - 1]);
                }
            }
        }
    }
}

impl GameState {
    /// The burros below `burro_asset_count` that none of `burros` has taken, in increasing order.
    pub fn unclaimed_burro_list(burros: &Vec<BurroState>, burro_asset_count: usize) -> (r: Vec<usize>)
        ensures
            r@ == unclaimed_below(claimed_burros(burros@), burro_asset_count as nat),
    {
        let mut claimed: Vec<usize> = Vec::new();
        let mut i: usize = 0;
        while i < burros.len()
            invariant
                i <= burros.len(),
                claimed@ == burros@.take(i as int).map_values(|b: BurroState| b.selected_burro),
            decreases burros.len() - i,
        {
            claimed.push(burros[i].selected_burro);
            assert(burros@.take(i + 1) == burros@.take(i as int).push(burros@[i as int]));
            i = i + 1;
        }
        assert(burros@.take(burros.len() as int) == burros@);
        let mut available: Vec<usize> = Vec::new();
        let mut a: usize = 0;
        while a < burro_asset_count
            invariant
                a <= burro_asset_count,
                claimed@ == claimed_burros(burros@),
                available@ == unclaimed_below(claimed@, a as nat),
            decreases burro_asset_count - a,
        {
            if !vec_contains(&claimed, a) {
                available.push(a);
            }
            a = a + 1;
        }
        available
    }

    /// A new game for the given seats, with `choices.len()` bots added. Bot `i` sits in seat
    /// `MAX_NUMBER_OF_PLAYERS + i` and plays the burro at index `choices[i]` among those
    /// still untaken at its draw.
    pub fn initialize_with_choices(
        burros: Vec<BurroState>,
        choices: &Vec<usize>,
        difficulty_halves: usize,
        burro_asset_count: usize,
    ) -> (r: GameState)
        requires
            choices_fit(unclaimed_below(claimed_burros(burros@), burro_asset_count as nat).len(), choices@),
            choices@.len() + MAX_NUMBER_OF_PLAYERS <= usize::MAX,
        ensures
            r.burros@ == burros@ + bot_seats(burros@, choices@, burro_asset_count as nat),
            r.dead_burros@ == Seq::<usize>::empty(),
            r.current_level == 0,
            r.difficulty_halves == difficulty_halves,
    {
        let mut available = Self::unclaimed_burro_list(&burros, burro_asset_count);
        let ghost initial = available@;
        let ghost picks = pick_bots(initial, choices@);
        proof {
            lemma_pick_bots(initial, choices@);
        }
        let mut seats = burros;
        let ghost start = seats@;
        let mut i: usize = 0;
        assert(choices@.skip(0) == choices@);
        assert(picks.take(0) + picks == picks);
        while i < choices.len()
            invariant
                i <= choices.len(),
                choices.len() + MAX_NUMBER_OF_PLAYERS <= usize::MAX,
                picks == pick_bots(initial, choices@),
                picks.len() == choices@.len(),
                available@.len() == initial.len() - i,
                choices_fit(available@.len(), choices@.skip(i as int)),
                picks == picks.take(i as int) + pick_bots(available@, choices@.skip(i as int)),
                seats@ == start + Seq::new(i as nat, |k: int| bot_seat(k, picks[k])),
            decreases choices.len() - i,
        {
            let ghost before = available@;
            let ghost rest_choices = choices@.skip(i as int);
            assert(rest_choices[0] == choices@[i as int]);
            assert(rest_choices.drop_first() == choices@.skip(i + 1));
            let c = choices[i];
            let picked = available.remove(c);
            assert(pick_bots(before, rest_choices) == seq![before[c as int]] + pick_bots(
                available@,
                choices@.skip(i + 1),
            ));
            assert(picks[i as int] == picked);
            assert(picks.take(i + 1) == picks.take(i as int).push(picked));
            assert(picks == picks.take(i + 1) + pick_bots(available@, choices@.skip(i + 1)));
            assert forall|k: int| 0 <= k < choices@.skip(i + 1).len() implies #[trigger] choices@.skip(i + 1)[k] < available@.len() - k by {
                assert(choices@.skip(i + 1)[k] == rest_choices[k + 1]);
            }
            seats.push(
                BurroState {
                    player: MAX_NUMBER_OF_PLAYERS as usize + i,
                    selected_burro: picked,
                    outline_color: None,
                    score: 0,
                    is_bot: true,
                },
            );
            assert(seats@ == start + Seq::new((i + 1) as nat, |k: int| bot_seat(k, picks[k])));
            i = i + 1;
        }
        GameState { burros: seats, dead_burros: Vec::new(), current_level: 0, difficulty_halves }
    }

    /// A new game for the given seats with `number_of_bots` bots added, each bot playing a
    /// burro drawn at random among those that no seat has taken yet.
    pub fn initialize(
        burros: Vec<BurroState>,
        number_of_bots: usize,
        difficulty_halves: usize,
        burro_asset_count: usize,
    ) -> (r: GameState)
        requires
            number_of_bots <= unclaimed_below(claimed_burros(burros@), burro_asset_count as nat).len(),
            number_of_bots + MAX_NUMBER_OF_PLAYERS <= usize::MAX,
        ensures
            exists|choices: Seq<usize>| {
                &&& choices.len() == number_of_bots
                &&& choices_fit(unclaimed_below(claimed_burros(burros@), burro_asset_count as nat).len(), choices)
                &&& r.burros@ == burros@ + bot_seats(burros@, choices, burro_asset_count as nat)
            },
            r.burros@.len() == burros@.len() + number_of_bots,
            forall|i: int| 0 <= i < burros@.len() ==> r.burros@[i] == burros@[i],
            forall|i: int| 0 <= i < number_of_bots ==> {
                let seat = #[trigger] r.burros@[burros@.len() + i];
                &&& seat.is_bot
                &&& seat.player == MAX_NUMBER_OF_PLAYERS + i
                &&& seat.score == 0
                &&& seat.outline_color is None
                &&& seat.selected_burro < burro_asset_count
                &&& !claimed_burros(burros@).contains(seat.selected_burro)
            },
            forall|i: int, j: int| burros@.len() <= i < j < r.burros@.len()
                ==> r.burros@[i].selected_burro != r.burros@[j].selected_burro,
            r.dead_burros@ == Seq::<usize>::empty(),
            r.current_level == 0,
            r.difficulty_halves == difficulty_halves,
    {
        let available = Self::unclaimed_burro_list(&burros, burro_asset_count);
        let available_count = available.len();
        let mut choices: Vec<usize> = Vec::new();
        let mut i: usize = 0;
        while i < number_of_bots
            invariant
                i <= number_of_bots <= available_count,
                available_count == unclaimed_below(claimed_burros(burros@), burro_asset_count as nat).len(),
                choices@.len() == i,
                forall|k: int| 0 <= k < i ==> #[trigger] choices@[k] < available_count - k,
            decreases number_of_bots - i,
        {
            choices.push(random_index(available_count - i));
            i = i + 1;
        }
        let ghost unclaimed = unclaimed_below(claimed_burros(burros@), burro_asset_count as nat);
        let ghost start = burros@;
        proof {
            lemma_unclaimed(claimed_burros(burros@), burro_asset_count as nat);
            assert(unclaimed.no_duplicates());
            lemma_pick_bots(unclaimed, choices@);
        }
        let r = Self::initialize_with_choices(burros, &choices, difficulty_halves, burro_asset_count);
        proof {
            let picks = pick_bots(unclaimed, choices@);
            assert forall|i: int| 0 <= i < number_of_bots implies {
                let seat = #[trigger] r.burros@[start.len() + i];
                &&& seat.selected_burro < burro_asset_count
                &&& !claimed_burros(start).contains(seat.selected_burro)
            } by {
                assert(r.burros@[start.len() + i] == bot_seat(i, picks[i]));
                assert(unclaimed.contains(picks[i]));
                let k = choose|k: int| 0 <= k < unclaimed.len() && unclaimed[k] == picks[i];
                assert(unclaimed[k] < burro_asset_count);
            }
            assert forall|i: int, j: int| start.len() <= i < j < r.burros@.len()
                implies r.burros@[i].selected_burro != r.burros@[j].selected_burro by {
                assert(r.burros@[i] == bot_seat(i - start.len(), picks[i - start.len()]));
                assert(r.burros@[j] == bot_seat(j - start.len(), picks[j - start.len()]));
            }
            let w = choices@;
            assert(w.len() == number_of_bots && choices_fit(unclaimed.len(), w)
                && r.burros@ == start + bot_seats(start, w, burro_asset_count as nat));
        }
        r
    }

    /// Clears the eliminations when a new level starts.
    pub fn on_new_level(&mut self)
        ensures
            final(self).dead_burros@ == Seq::<usize>::empty(),
            final(self).burros@ == old(self).burros@,
            final(self).current_level == old(self).current_level,
            final(self).difficulty_halves == old(self).difficulty_halves,
    {
        self.dead_burros = Vec::new();
    }

    /// Whether every level has been played.
    pub fn is_game_over(&self) -> (r: bool)
        ensures
            r == (self.current_level >= NUMBER_OF_LEVELS),
    {
        self.current_level >= NUMBER_OF_LEVELS
    }

    /// Records that a burro was eliminated, once, and tells whether the round is over: at
    /// most one burro is left standing.
    pub fn record_death(&mut self, selected_burro: usize) -> (round_over: bool)
        requires
            old(self).burros@.len() >= 1,
        ensures
            final(self).dead_burros@ == (if old(self).dead_burros@.contains(selected_burro) {
                old(self).dead_burros@
            } else {
                old(self).dead_burros@.push(selected_burro)
            }),
            old(self).dead_burros@.no_duplicates() ==> final(self).dead_burros@.no_duplicates(),
            round_over == (final(self).dead_burros@.len() >= old(self).burros@.len() - 1),
            final(self).burros@ == old(self).burros@,
            final(self).current_level == old(self).current_level,
            final(self).difficulty_halves == old(self).difficulty_halves,
    {
        let number_of_burros = self.burros.len();
        if !vec_contains(&self.dead_burros, selected_burro) {
            self.dead_burros.push(selected_burro);
        }
        self.dead_burros.len() >= number_of_burros - 1
    }

    /// Points earned this round by the given burro, as `elimination_points` says.
    pub fn round_points(&self, selected_burro: usize) -> (r: usize)
        ensures
            r == elimination_points(self.dead_burros@, selected_burro),
    {
        match vec_position(&self.dead_burros, selected_burro) {
            Some(p) => p,
            None => self.dead_burros.len(),
        }
    }

    /// Adds to every seat the points it earned this round.
    pub fn score_round(&mut self)
        requires
            forall|i: int| 0 <= i < old(self).burros@.len() ==>
                #[trigger] old(self).burros@[i].score + elimination_points(
                    old(self).dead_burros@,
                    old(self).burros@[i].selected_burro,
                ) <= usize::MAX,
        ensures
            final(self).burros@.len() == old(self).burros@.len(),
            forall|i: int| 0 <= i < final(self).burros@.len() ==> #[trigger] final(self).burros@[i] == (BurroState {
                score: (old(self).burros@[i].score + elimination_points(
                    old(self).dead_burros@,
                    old(self).burros@[i].selected_burro,
                )) as usize,
                ..old(self).burros@[i]
            }),
            final(self).dead_burros@ == old(self).dead_burros@,
            final(self).current_level == old(self).current_level,
            final(self).difficulty_halves == old(self).difficulty_halves,
    {
        let ghost before = self.burros@;
        let mut i: usize = 0;
        while i < self.burros.len()
            invariant
                i <= self.burros@.len(),
                self.burros@.len() == before.len(),
                self.dead_burros@ == old(self).dead_burros@,
                self.current_level == old(self).current_level,
                self.difficulty_halves == old(self).difficulty_halves,
                before == old(self).burros@,
                forall|k: int| 0 <= k < before.len() ==> #[trigger] before[k].score + elimination_points(
                    self.dead_burros@,
                    before[k].selected_burro,
                ) <= usize::MAX,
                forall|k: int| 0 <= k < i ==> #[trigger] self.burros@[k] == (BurroState {
                    score: (before[k].score + elimination_points(self.dead_burros@, before[k].selected_burro)) as usize,
                    ..before[k]
                }),
                forall|k: int| i <= k < before.len() ==> #[trigger] self.burros@[k] == before[k],
            decreases before.len() - i,
        {
            let seat = self.burros[i];
            assert(seat == before[i as int]);
            let points = self.round_points(seat.selected_burro);
            let updated = BurroState { score: seat.score + points, ..seat };
            self.burros.set(i, updated);
            i = i + 1;
        }
    }

    /// The place of every seat in the overall standings (0 is first): seats with more points
    /// come first, and among equal points the later seat comes first.
    pub fn standings(&self) -> (r: Vec<usize>)
        ensures
            r@.len() == self.burros@.len(),
            forall|i: int| 0 <= i < r@.len() ==> #[trigger] r@[i] == standing(self.burros@, i),
    {
        let n = self.burros.len();
        let mut places: Vec<usize> = Vec::new();
        let mut i: usize = 0;
        while i < n
            invariant
                n == self.burros@.len(),
                i <= n,
                places@.len() == i,
                forall|j: int| 0 <= j < i ==> #[trigger] places@[j] == standing(self.burros@, j),
            decreases n - i,
        {
            let mut count: usize = 0;
            let mut k: usize = 0;
            while k < n
                invariant
                    n == self.burros@.len(),
                    i < n,
                    k <= n,
                    count == count_outranking(self.burros@, i as int, k as nat),
                    count <= k,
                decreases n - k,
            {
                if self.burros[k].score > self.burros[i].score
                    || (self.burros[k].score == self.burros[i].score && k > i) {
                    count = count + 1;
                }
                k = k + 1;
            }
            places.push(count);
            i = i + 1;
        }
        places
    }

    /// The seat at the top of the standings, the one that wins the game.
    pub fn winner(&self) -> (r: Option<usize>)
        ensures
            r is None <==> self.burros@.len() == 0,
            r matches Some(w) ==> {
                &&& w < self.burros@.len()
                &&& forall|k: int| 0 <= k < self.burros@.len() ==> !outranks(self.burros@, k, w as int)
            },
    {
        if self.burros.len() == 0 {
            return None;
        }
        let mut best: usize = 0;
        let mut k: usize = 1;
        while k < self.burros.len()
            invariant
                1 <= k <= self.burros@.len(),
                best < k,
                forall|j: int| 0 <= j < k ==> !outranks(self.burros@, j, best as int),
            decreases self.burros@.len() - k,
        {
            let ghost old_best = best;
            if self.burros[k].score >= self.burros[best].score {
                best = k;
            }
            assert forall|j: int| 0 <= j < k + 1 implies !outranks(self.burros@, j, best as int) by {
                if j < k {
                    assert(!outranks(self.burros@, j, old_best as int));
                }
            }
            k = k + 1;
        }
        Some(best)
    }

    /// Where a burro lands on the results screen of the round.
    pub fn elimination_slot(&self, selected_burro: usize) -> (r: usize)
        ensures
            r == elimination_slot(self.dead_burros@, selected_burro),
    {
        let dead_count = self.dead_burros.len();
        match vec_position(&self.dead_burros, selected_burro) {
            Some(p) => {
                assert(p < dead_count);
                p + 1
            },
            None => 0,
        }
    }

    /// Whether any human player is still in the round.
    pub fn any_humans_alive(&self) -> (r: bool)
        ensures
            r == humans_alive(self.burros@, self.dead_burros@),
    {
        let mut i: usize = 0;
        while i < self.burros.len()
            invariant
                i <= self.burros@.len(),
                forall|j: int| 0 <= j < i ==> !(!self.burros@[j].is_bot && !self.dead_burros@.contains(
                    #[trigger] self.burros@[j].selected_burro,
                )),
            decreases self.burros@.len() - i,
        {
            if !self.burros[i].is_bot && !vec_contains(&self.dead_burros, self.burros[i].selected_burro) {
                return true;
            }
            i = i + 1;
        }
        false
    }

    /// Moves on to the next level and tells whether the game is over.
    pub fn advance_level(&mut self) -> (game_over: bool)
        requires
            old(self).current_level < usize::MAX,
        ensures
            final(self).current_level == old(self).current_level + 1,
            game_over == (final(self).current_level >= NUMBER_OF_LEVELS),
            final(self).burros@ == old(self).burros@,
            final(self).dead_burros@ == old(self).dead_burros@,
            final(self).difficulty_halves == old(self).difficulty_halves,
    {
        self.current_level = self.current_level + 1;
        self.current_level >= NUMBER_OF_LEVELS
    }

    /// Goes back to the first level, as when the winner has been celebrated.
    pub fn restart_levels(&mut self)
        ensures
            final(self).current_level == 0,
            final(self).burros@ == old(self).burros@,
            final(self).dead_burros@ == old(self).dead_burros@,
            final(self).difficulty_halves == old(self).difficulty_halves,
    {
        self.current_level = 0;
    }

} // impl GameState

/// Round scoring follows the order of elimination: the first burro eliminated earns 0 points
/// and each burro eliminated after it earns 1 point more than the one eliminated just before.
pub proof fn elimination_order_scoring(dead: Seq<usize>, i: int)
    requires
        dead.no_duplicates(),
        0 <= i < dead.len(),
    ensures
        elimination_points(dead, dead[0]) == 0,
        elimination_points(dead, dead[i]) == i,
        i + 1 < dead.len() ==> elimination_points(dead, dead[i + 1]) == elimination_points(dead, dead[i]) + 1,
{
    lemma_first_position(dead, dead[0], 0);
    lemma_first_position(dead, dead[i], i);
    if i + 1 < dead.len() {
        lemma_first_position(dead, dead[i + 1], i + 1);
    }
}

/// A burro still standing at the end of a round earns more points than any burro that was
/// eliminated, and all burros still standing earn the same.
pub proof fn survivors_score_most(dead: Seq<usize>, survivor: usize, eliminated: usize)
    requires
        !dead.contains(survivor),
        dead.contains(eliminated),
    ensures
        elimination_points(dead, survivor) == dead.len(),
        elimination_points(dead, survivor) > elimination_points(dead, eliminated),
{
    let f = first_position(dead, eliminated);
    let k = choose|k: int| 0 <= k < dead.len() && dead[k] == eliminated;
    assert(exists|i: int| 0 <= i < dead.len() && dead[i] == eliminated && forall|j: int| 0 <= j < i ==> dead[j] != eliminated) by {
        lemma_first_occurrence_exists(dead, eliminated, k);
    }
    assert(0 <= f < dead.len());
}

proof fn lemma_first_occurrence_exists(s: Seq<usize>, x: usize, k: int)
    requires
        0 <= k < s.len(),
        s[k] == x,
    ensures
        exists|i: int| 0 <= i < s.len() && s[i] == x && forall|j: int| 0 <= j < i ==> s[j] != x,
    decreases k,
{
    if exists|j: int| 0 <= j < k && s[j] == x {
        let j = choose|j: int| 0 <= j < k && s[j] == x;
        lemma_first_occurrence_exists(s, x, j);
    } else {
        assert(forall|j: int| 0 <= j < k ==> s[j] != x);
    }
}

proof fn lemma_count_outranking_compare(burros: Seq<BurroState>, i: int, j: int, upto: nat)
    requires
        upto <= burros.len(),
        0 <= i < burros.len(),
        0 <= j < burros.len(),
        outranks(burros, i, j),
    ensures
        count_outranking(burros, i, upto) + (if i < upto { 1nat } else { 0nat }) <= count_outranking(burros, j, upto),
        count_outranking(burros, i, upto) <= upto,
    decreases upto,
{
    if upto > 0 {
        lemma_count_outranking_compare(burros, i, j, (upto - 1) as nat);
    }
}

proof fn lemma_count_outranking_bound(burros: Seq<BurroState>, i: int, upto: nat)
    requires
        upto <= burros.len(),
        0 <= i < burros.len(),
    ensures
        count_outranking(burros, i, upto) + (if i < upto { 1nat } else { 0nat }) <= upto,
    decreases upto,
{
    if upto > 0 {
        lemma_count_outranking_bound(burros, i, (upto - 1) as nat);
    }
}

proof fn lemma_count_outranking_zero(burros: Seq<BurroState>, w: int, upto: nat)
    requires
        upto <= burros.len(),
        forall|k: int| 0 <= k < burros.len() ==> !outranks(burros, k, w),
    ensures
        count_outranking(burros, w, upto) == 0,
    decreases upto,
{
    if upto > 0 {
        lemma_count_outranking_zero(burros, w, (upto - 1) as nat);
    }
}

/// The overall standings are a ranking of the seats: every place is below the number of
/// seats, no two seats share a place, and a seat with more points is placed ahead.
pub proof fn standings_rank_seats(burros: Seq<BurroState>, i: int, j: int)
    requires
        0 <= i < burros.len(),
        0 <= j < burros.len(),
    ensures
        standing(burros, i) < burros.len(),
        i != j ==> standing(burros, i) != standing(burros, j),
        burros[i].score > burros[j].score ==> standing(burros, i) < standing(burros, j),
{
    lemma_count_outranking_bound(burros, i, burros.len());
    if outranks(burros, i, j) {
        lemma_count_outranking_compare(burros, i, j, burros.len());
    } else if i != j {
        assert(outranks(burros, j, i));
        lemma_count_outranking_compare(burros, j, i, burros.len());
    }
}

/// The winner of the game is the seat in first place of the standings.
pub proof fn winner_stands_first(burros: Seq<BurroState>, w: int)
    requires
        0 <= w < burros.len(),
        forall|k: int| 0 <= k < burros.len() ==> !outranks(burros, k, w),
    ensures
        standing(burros, w) == 0,
{
    lemma_count_outranking_zero(burros, w, burros.len());
}

/// Every seat of a new game plays its own burro: when the players' burros are distinct, the
/// bots' draws repeat neither a player's burro nor one another's.
pub proof fn seats_play_distinct_burros(burros: Seq<BurroState>, choices: Seq<usize>, burro_asset_count: usize)
    requires
        choices_fit(unclaimed_below(claimed_burros(burros), burro_asset_count as nat).len(), choices),
        forall|i: int, j: int| 0 <= i < j < burros.len() ==> burros[i].selected_burro != burros[j].selected_burro,
    ensures
        ({
            let seats = burros + bot_seats(burros, choices, burro_asset_count as nat);
            forall|i: int, j: int| 0 <= i < j < seats.len() ==> seats[i].selected_burro != seats[j].selected_burro
        }),
{
    let claimed = claimed_burros(burros);
    let unclaimed = unclaimed_below(claimed, burro_asset_count as nat);
    let picks = pick_bots(unclaimed, choices);
    let seats = burros + bot_seats(burros, choices, burro_asset_count as nat);
    lemma_unclaimed(claimed, burro_asset_count as nat);
    assert(unclaimed.no_duplicates());
    lemma_pick_bots(unclaimed, choices);
    assert forall|i: int, j: int| 0 <= i < j < seats.len() implies seats[i].selected_burro != seats[j].selected_burro by {
        let n = burros.len() as int;
        if j >= n {
            assert(seats[j].selected_burro == picks[j - n]);
            assert(unclaimed.contains(picks[j - n]));
            let k = choose|k: int| 0 <= k < unclaimed.len() && unclaimed[k] == picks[j - n];
            assert(!claimed.contains(unclaimed[k]));
            if i < n {
                assert(claimed[i] == burros[i].selected_burro);
                assert(claimed.contains(seats[i].selected_burro));
            } else {
                assert(seats[i].selected_burro == picks[i - n]);
            }
        }
    }
}

} // verus!
