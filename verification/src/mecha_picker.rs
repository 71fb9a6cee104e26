use vstd::prelude::*;
use crate::burro::clamp;
use crate::game_state::BurroState;
use crate::util::rng::choose_value;

verus! {

/// The stages of the show that reveals the mechaburro.
#[derive(Clone, Copy, Debug, PartialEq, Eq, Structural)]
pub enum MechaSelectionStage {
    Initial,
    MovingToBurro,
    ChangingBurro,
    LaserShot,
    ZoomOut,
    StartRound,
}

/// The stage after `stage`, and how long it lasts in milliseconds.
pub open spec fn stage_after(stage: MechaSelectionStage) -> (MechaSelectionStage, i64) {
    match stage {
        MechaSelectionStage::Initial => (MechaSelectionStage::MovingToBurro, 2000),
        MechaSelectionStage::MovingToBurro => (MechaSelectionStage::ChangingBurro, 2000),
        MechaSelectionStage::ChangingBurro => (MechaSelectionStage::LaserShot, 2000),
        MechaSelectionStage::LaserShot => (MechaSelectionStage::ZoomOut, 2000),
        MechaSelectionStage::ZoomOut => (MechaSelectionStage::StartRound, 0),
        MechaSelectionStage::StartRound => (MechaSelectionStage::StartRound, 0),
    }
}

impl MechaSelectionStage {
    pub fn next_stage(self) -> (r: (MechaSelectionStage, i64))
        ensures
            r == stage_after(self),
    {
        match self {
            MechaSelectionStage::Initial => (MechaSelectionStage::MovingToBurro, 2000),
            MechaSelectionStage::MovingToBurro => (MechaSelectionStage::ChangingBurro, 2000),
            MechaSelectionStage::ChangingBurro => (MechaSelectionStage::LaserShot, 2000),
            MechaSelectionStage::LaserShot => (MechaSelectionStage::ZoomOut, 2000),
            MechaSelectionStage::ZoomOut => (MechaSelectionStage::StartRound, 0),
            MechaSelectionStage::StartRound => (MechaSelectionStage::StartRound, 0),
        }
    }
}

/// The timers of the mechaburro show, in milliseconds.
pub struct MechaPicker {
    pub name_change_cooldown_ms: i64,
    pub overall_name_selection_cooldown_ms: i64,
    pub mecha_display_cooldown_ms: i64,
    pub has_picked: bool,
    /// The burro chosen as mechaburro, once the choice has been announced.
    pub selected_burro: Option<usize>,
    pub mecha_selection_stage: MechaSelectionStage,
    pub mecha_selection_cooldown_ms: i64,
}

/// What the name roulette does this frame.
#[derive(Clone, Copy, Debug, PartialEq, Eq, Structural)]
pub enum PickStep {
    /// Nothing to show.
    Idle,
    /// Show another random burro's name.
    ShuffleNames,
    /// Time is up: choose the mechaburro.
    ChooseMecha,
}

fn clamp_timer(value: i64, delta_ms: u32, upper: i64) -> (r: i64)
    requires
        -10000 <= upper,
    ensures
        r == clamp(value - delta_ms, -10000, upper as int),
{
    let next = value as i128 - delta_ms as i128;
    if next < -10000 {
        -10000
    } else if next > upper as i128 {
        upper
    } else {
        next as i64
    }
}

impl MechaPicker {
    /// The show as it starts: three seconds of name roulette, then the stages.
    pub fn new() -> (r: MechaPicker)
        ensures
            r.name_change_cooldown_ms == 0,
            r.overall_name_selection_cooldown_ms == 3000,
            r.mecha_display_cooldown_ms == 0,
            !r.has_picked,
            r.selected_burro is None,
            r.mecha_selection_stage == MechaSelectionStage::Initial,
            r.mecha_selection_cooldown_ms == 2000,
    {
        MechaPicker {
            name_change_cooldown_ms: 0,
            overall_name_selection_cooldown_ms: 3000,
            mecha_display_cooldown_ms: 0,
            has_picked: false,
            selected_burro: None,
            mecha_selection_stage: MechaSelectionStage::Initial,
            mecha_selection_cooldown_ms: 2000,
        }
    }

    /// One frame of the name roulette. After the choice only the display timer runs.
    /// Before it, the roulette shows a new name every 150 ms until its three seconds are up,
    /// and then asks for the mechaburro to be chosen.
    pub fn pick_tick(&mut self, delta_ms: u32) -> (r: PickStep)
        ensures
            old(self).has_picked ==> r == PickStep::Idle && *final(self) == (MechaPicker {
                mecha_display_cooldown_ms: clamp(old(self).mecha_display_cooldown_ms - delta_ms, -10000, 3000) as i64,
                ..*old(self)
            }),
            !old(self).has_picked ==> {
                let name = clamp(old(self).name_change_cooldown_ms - delta_ms, -10000, 3000);
                let overall = clamp(old(self).overall_name_selection_cooldown_ms - delta_ms, -10000, 3000);
                &&& r == (if name > 0 {
                    PickStep::Idle
                } else if overall < 0 {
                    PickStep::ChooseMecha
                } else {
                    PickStep::ShuffleNames
                })
                &&& *final(self) == (MechaPicker {
                    name_change_cooldown_ms: if r == PickStep::ShuffleNames { 150 } else { name as i64 },
                    overall_name_selection_cooldown_ms: overall as i64,
                    ..*old(self)
                })
            },
    {
        if self.has_picked {
            self.mecha_display_cooldown_ms = clamp_timer(self.mecha_display_cooldown_ms, delta_ms, 3000);
            return PickStep::Idle;
        }
        self.name_change_cooldown_ms = clamp_timer(self.name_change_cooldown_ms, delta_ms, 3000);
        self.overall_name_selection_cooldown_ms = clamp_timer(self.overall_name_selection_cooldown_ms, delta_ms, 3000);
        if self.name_change_cooldown_ms > 0 {
            return PickStep::Idle;
        }
        if self.overall_name_selection_cooldown_ms < 0 {
            PickStep::ChooseMecha
        } else {
            self.name_change_cooldown_ms = 150;
            PickStep::ShuffleNames
        }
    }

    /// Records that the mechaburro has been chosen: its name stays on screen for three seconds.
    pub fn mecha_chosen(&mut self)
        ensures
            *final(self) == (MechaPicker { mecha_display_cooldown_ms: 3000, has_picked: true, ..*old(self) }),
    {
        self.mecha_display_cooldown_ms = 3000;
        self.has_picked = true;
    }

    /// Records which burro was announced as mechaburro, which starts the stages of the show.
    pub fn select_burro(&mut self, selected_burro: usize)
        ensures
            *final(self) == (MechaPicker { selected_burro: Some(selected_burro), ..*old(self) }),
    {
        self.selected_burro = Some(selected_burro);
    }

    /// One frame of the show's stages, which only run once a burro has been announced. When
    /// the current stage's time is up the show moves to the next stage, which is returned.
    pub fn advance_stage(&mut self, delta_ms: u32) -> (r: Option<MechaSelectionStage>)
        ensures
            old(self).selected_burro is None ==> r is None && *final(self) == *old(self),
            old(self).selected_burro is Some ==> {
                let cooldown = clamp(old(self).mecha_selection_cooldown_ms - delta_ms, -10000, 10000);
                &&& cooldown > 0 ==> r is None && *final(self) == (MechaPicker {
                    mecha_selection_cooldown_ms: cooldown as i64,
                    ..*old(self)
                })
                &&& cooldown <= 0 ==> r == Some(stage_after(old(self).mecha_selection_stage).0)
                    && *final(self) == (MechaPicker {
                        mecha_selection_stage: stage_after(old(self).mecha_selection_stage).0,
                        mecha_selection_cooldown_ms: stage_after(old(self).mecha_selection_stage).1,
                        ..*old(self)
                    })
            },
    {
        if self.selected_burro.is_none() {
            return None;
        }
        self.mecha_selection_cooldown_ms = clamp_timer(self.mecha_selection_cooldown_ms, delta_ms, 10000);
        if self.mecha_selection_cooldown_ms <= 0 {
            let (stage, cooldown) = self.mecha_selection_stage.next_stage();
            self.mecha_selection_stage = stage;
            self.mecha_selection_cooldown_ms = cooldown;
            Some(stage)
        } else {
            None
        }
    }
}

/// The burros of every seat, in seat order.
pub open spec fn seat_burros(burros: Seq<BurroState>) -> Seq<usize> {
    burros.map_values(|b: BurroState| b.selected_burro)
}

/// The burros that can become the mechaburro: every seat's burro, human or bot, in seat order.
pub fn mecha_candidates(burros: &Vec<BurroState>) -> (r: Vec<usize>)
    ensures
        r@ == seat_burros(burros@),
{
    let mut all: Vec<usize> = Vec::new();
    let mut i: usize = 0;
    while i < burros.len()
        invariant
            i <= burros@.len(),
            all@ == seat_burros(burros@.take(i as int)),
        decreases burros@.len() - i,
    {
        assert(seat_burros(burros@.take(i + 1)) == seat_burros(burros@.take(i as int)).push(burros@[i as int].selected_burro));
        all.push(burros[i].selected_burro);
        i = i + 1;
    }
    assert(burros@.take(burros@.len() as int) == burros@);
    all
}

/// Chooses the mechaburro at random among the burros of all seats: one is chosen whenever the
/// game has a seat, `None` only for a game without seats.
pub fn choose_mecha(burros: &Vec<BurroState>) -> (r: Option<usize>)
    ensures
        r is None <==> burros@.len() == 0,
        r matches Some(b) ==> seat_burros(burros@).contains(b),
{
    let candidates = mecha_candidates(burros);
    choose_value(&candidates)
}

/// Chooses a burro at random among all seats, for the name roulette; `None` when there is
/// no seat.
pub fn roulette_name(burros: &Vec<BurroState>) -> (r: Option<usize>)
    ensures
        r is None <==> burros@.len() == 0,
        r matches Some(b) ==> seat_burros(burros@).contains(b),
{
    let all = mecha_candidates(burros);
    choose_value(&all)
}

/// One burro is upgraded every round, and any seat can be the one: every seat's burro is a
/// candidate, and a chosen candidate is the burro of some seat.
pub proof fn any_seat_can_be_the_mechaburro(burros: Seq<BurroState>, seat: int, chosen: usize)
    requires
        0 <= seat < burros.len(),
    ensures
        seat_burros(burros).len() == burros.len(),
        seat_burros(burros).contains(burros[seat].selected_burro),
        seat_burros(burros).contains(chosen) ==> exists|i: int|
            0 <= i < burros.len() && #[trigger] burros[i].selected_burro == chosen,
{
    assert(seat_burros(burros)[seat] == burros[seat].selected_burro);
    if seat_burros(burros).contains(chosen) {
        let k = choose|k: int| 0 <= k < seat_burros(burros).len() && seat_burros(burros)[k] == chosen;
        assert(burros[k].selected_burro == chosen);
    }
}

} // verus!
