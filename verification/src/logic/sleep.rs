//! Сон и сновидения.

use crate::logic::cause_of_death::CauseOfDeath;
use crate::logic::game_screen::GameScreen;
use crate::logic::game_state::{GameState, Location};
use crate::logic::player::Player;
use crate::logic::subjects::Subject;
use crate::logic::timetable::{Time, NUM_DAYS};
use crate::logic::scene_router::exams::roll_against;
use crate::random::{bounded_draw, Rng};
use vstd::prelude::*;

verus! {

#[derive(Debug, Clone, Copy, Eq, PartialEq, Structural)]
pub enum DreamScreen {
    SubjectRelated(Option<Subject>),
    Stupid(StupidDream),
    Djug(DjugDream),
}

/// What the hero may dream about tonight.
#[derive(Debug, Clone, Copy, Eq, PartialEq, Structural)]
pub enum DreamTheme {
    SubjectRelated,
    Stupid,
    Djug,
}

#[derive(Debug, Clone, Copy, Eq, PartialEq, Structural)]
pub enum StupidDream {
    Phase1(StupidDreamSubject, StupidDreamScenario),
    Phase2,
}

#[derive(Debug, Clone, Copy, Eq, PartialEq, Structural)]
pub enum StupidDreamSubject {
    /// "Розовые слоники с блестящими крылышками…"
    PinkElephants,

    /// "Зеленые человечки с длинными антеннами…"
    GreenMen,

    /// "Овечки с ослепительно-белой шерстью…"
    Sheep,
}

pub const STUPID_DREAM_SUBJECT_COUNT: usize = 3;

impl StupidDreamSubject {
    pub open spec fn spec_variant_index(self) -> int {
        match self {
            StupidDreamSubject::PinkElephants => 0,
            StupidDreamSubject::GreenMen => 1,
            StupidDreamSubject::Sheep => 2,
        }
    }

    /// The variant at `index` in declaration order.
    pub fn variant(index: usize) -> (r: StupidDreamSubject)
        requires
            index < STUPID_DREAM_SUBJECT_COUNT,
        ensures
            r.spec_variant_index() == index,
    {
        match index {
            0 => StupidDreamSubject::PinkElephants,
            1 => StupidDreamSubject::GreenMen,
            _ => StupidDreamSubject::Sheep,
        }
    }
}

#[derive(Debug, Clone, Copy, Eq, PartialEq, Structural)]
pub enum StupidDreamScenario {
    /// "…и считают определитель матрицы 10 на 10"
    ComputingDeterminant,

    /// "…и ищут Жорданову форму матрицы"
    ComputingJordanMatrix,

    /// "…и возводят матрицы в 239-ю степень"
    RaiseMatrixToPower,

    /// "…и решают линейную систему уравнений с параметрами"
    SolvingLinearSystem,

    /// "…и доказывают неприводимость многочлена 10-й степени над Z"
    ProvingIrreducibilityOfPolynomial,

    /// "…и доказывают сходимость неопределенного интеграла с параметрами"
    ProvingConvergenceOfIntegral,

    /// "…и считают сумму ряда с параметрами"
    ComputingSumOfSeries,

    /// "…и дифференцируют, дифференцируют, дифференцируют"
    Differentiate,

    /// "…и берут интергалы не отдают их"
    TakingIntegrals,

    /// "…и решают задачи по математической болтологии"
    SolvingMathematicalProblems,
}

pub const STUPID_DREAM_SCENARIO_COUNT: usize = 10;

impl StupidDreamScenario {
    pub open spec fn spec_variant_index(self) -> int {
        match self {
            StupidDreamScenario::ComputingDeterminant => 0,
            StupidDreamScenario::ComputingJordanMatrix => 1,
            StupidDreamScenario::RaiseMatrixToPower => 2,
            StupidDreamScenario::SolvingLinearSystem => 3,
            StupidDreamScenario::ProvingIrreducibilityOfPolynomial => 4,
            StupidDreamScenario::ProvingConvergenceOfIntegral => 5,
            StupidDreamScenario::ComputingSumOfSeries => 6,
            StupidDreamScenario::Differentiate => 7,
            StupidDreamScenario::TakingIntegrals => 8,
            StupidDreamScenario::SolvingMathematicalProblems => 9,
        }
    }

    /// The variant at `index` in declaration order.
    pub fn variant(index: usize) -> (r: StupidDreamScenario)
        requires
            index < STUPID_DREAM_SCENARIO_COUNT,
        ensures
            r.spec_variant_index() == index,
    {
        match index {
            0 => StupidDreamScenario::ComputingDeterminant,
            1 => StupidDreamScenario::ComputingJordanMatrix,
            2 => StupidDreamScenario::RaiseMatrixToPower,
            3 => StupidDreamScenario::SolvingLinearSystem,
            4 => StupidDreamScenario::ProvingIrreducibilityOfPolynomial,
            5 => StupidDreamScenario::ProvingConvergenceOfIntegral,
            6 => StupidDreamScenario::ComputingSumOfSeries,
            7 => StupidDreamScenario::Differentiate,
            8 => StupidDreamScenario::TakingIntegrals,
            _ => StupidDreamScenario::SolvingMathematicalProblems,
        }
    }
}

#[derive(Debug, Clone, Copy, Eq, PartialEq, Structural)]
pub enum DjugDream {
    /// "Здравствуйте! ..."
    Phase1,

    /// "Оно большое ..."
    Phase2,

    /// "Оно пыхтит! ..."
    Phase3,

    /// "Оно медленно ползет прямо на тебя!!! ..."
    Phase4,

    /// "Оно говорит человеческим голосом:"
    Phase5(DjugQuote),

    Phase6,
}

#[derive(Debug, Clone, Copy, Eq, PartialEq, Structural)]
pub enum DjugQuote {
    /// "Молодой человек. Когда-нибудь Вы вырастете
    /// и будете работать на большой машине.
    /// Вам надо будет нажать кнопку жизни,
    /// а Вы нажмете кнопку смерти ..."
    DeathButton,

    /// "Это в средневековье ученые спорили,
    /// сколько чертей может поместиться
    /// на кончике иглы..."
    HowManyDevilsFitANeedleTip,

    /// "Задачи можно решать по-разному.
    /// Можно устно, можно на бумажке,
    /// можно - играя в крестики-нолики...
    /// А можно - просто списать ответ в конце задачника!"
    DifferentWaysOfSolvingProblems,
}

pub const DJUG_QUOTE_COUNT: usize = 3;

impl DjugQuote {
    pub open spec fn spec_variant_index(self) -> int {
        match self {
            DjugQuote::DeathButton => 0,
            DjugQuote::HowManyDevilsFitANeedleTip => 1,
            DjugQuote::DifferentWaysOfSolvingProblems => 2,
        }
    }

    /// The variant at `index` in declaration order.
    pub fn variant(index: usize) -> (r: DjugQuote)
        requires
            index < DJUG_QUOTE_COUNT,
        ensures
            r.spec_variant_index() == index,
    {
        match index {
            0 => DjugQuote::DeathButton,
            1 => DjugQuote::HowManyDevilsFitANeedleTip,
            _ => DjugQuote::DifferentWaysOfSolvingProblems,
        }
    }
}

/// Время вышло: наступил день, следующий за последним днём зачётной недели.
pub fn die_if_time_out(state: &mut GameState) -> (r: bool)
    requires
        old(state).current_day_index <= NUM_DAYS,
    ensures
        r == (old(state).current_day_index == NUM_DAYS),
        r ==> *final(state) == (GameState {
            player: Player { cause_of_death: Some(CauseOfDeath::TimeOut), ..old(state).player },
            ..*old(state)
        }),
        !r ==> *final(state) == *old(state),
{
    let last_day_index = NUM_DAYS as u8;
    let time_out = state.current_day_index() == last_day_index;
    if time_out {
        state.player.cause_of_death = Some(CauseOfDeath::TimeOut);
    }
    time_out
}

/// The screens of a stupid dream: some creatures doing some mathematics,
/// then the awakening.
pub open spec fn stupid_dreams(dreams: Seq<GameScreen>) -> bool {
    &&& dreams.len() == 2
    &&& dreams[0] matches GameScreen::Dreaming(DreamScreen::Stupid(StupidDream::Phase1(_, _)))
    &&& dreams[1] == GameScreen::Dreaming(DreamScreen::Stupid(StupidDream::Phase2))
}

/// The screens of a dream of DJuG, in its six phases, with some quote in
/// the fifth.
pub open spec fn djug_dreams(dreams: Seq<GameScreen>) -> bool {
    &&& dreams.len() == 6
    &&& dreams[0] == GameScreen::Dreaming(DreamScreen::Djug(DjugDream::Phase1))
    &&& dreams[1] == GameScreen::Dreaming(DreamScreen::Djug(DjugDream::Phase2))
    &&& dreams[2] == GameScreen::Dreaming(DreamScreen::Djug(DjugDream::Phase3))
    &&& dreams[3] == GameScreen::Dreaming(DreamScreen::Djug(DjugDream::Phase4))
    &&& dreams[4] matches GameScreen::Dreaming(DreamScreen::Djug(DjugDream::Phase5(_)))
    &&& dreams[5] == GameScreen::Dreaming(DreamScreen::Djug(DjugDream::Phase6))
}

/// The picks of a stupid dream shown as `dreams`, from the generator state
/// `before` to `after`: its subject by a draw below 3, then its scenario by
/// a draw below 10.
pub open spec fn stupid_dream_picked(before: u64, dreams: Seq<GameScreen>, after: u64) -> bool {
    match dreams[0] {
        GameScreen::Dreaming(DreamScreen::Stupid(StupidDream::Phase1(subject, scenario))) => exists|
            mid: u64,
        |
            #[trigger] bounded_draw(
                before,
                STUPID_DREAM_SUBJECT_COUNT as u64,
                subject.spec_variant_index() as u64,
                mid,
            ) && bounded_draw(
                mid,
                STUPID_DREAM_SCENARIO_COUNT as u64,
                scenario.spec_variant_index() as u64,
                after,
            ),
        _ => false,
    }
}

/// The pick of a dream of DJuG shown as `dreams`, from the generator state
/// `before` to `after`: the quote of its fifth phase, by a draw below 3.
pub open spec fn djug_dream_picked(before: u64, dreams: Seq<GameScreen>, after: u64) -> bool {
    match dreams[4] {
        GameScreen::Dreaming(DreamScreen::Djug(DjugDream::Phase5(quote))) => bounded_draw(
            before,
            DJUG_QUOTE_COUNT as u64,
            quote.spec_variant_index() as u64,
            after,
        ),
        _ => false,
    }
}

fn stupid_dream(rng: &mut Rng) -> (r: [DreamScreen; 2])
    ensures
        r[0] matches DreamScreen::Stupid(StupidDream::Phase1(_, _)),
        r[1] == DreamScreen::Stupid(StupidDream::Phase2),
        stupid_dream_picked(
            old(rng)@,
            seq![GameScreen::Dreaming(r[0]), GameScreen::Dreaming(r[1])],
            final(rng)@,
        ),
{
    let i = rng.random_index(STUPID_DREAM_SUBJECT_COUNT);
    let ghost mid = rng@;
    let j = rng.random_index(STUPID_DREAM_SCENARIO_COUNT);
    let subject = StupidDreamSubject::variant(i);
    let scenario = StupidDreamScenario::variant(j);
    assert(bounded_draw(old(rng)@, STUPID_DREAM_SUBJECT_COUNT as u64, subject.spec_variant_index() as u64, mid));
    [
        DreamScreen::Stupid(StupidDream::Phase1(subject, scenario)),
        DreamScreen::Stupid(StupidDream::Phase2),
    ]
}

fn djug_dream(rng: &mut Rng) -> (r: [DreamScreen; 6])
    ensures
        r[0] == DreamScreen::Djug(DjugDream::Phase1),
        r[1] == DreamScreen::Djug(DjugDream::Phase2),
        r[2] == DreamScreen::Djug(DjugDream::Phase3),
        r[3] == DreamScreen::Djug(DjugDream::Phase4),
        r[4] matches DreamScreen::Djug(DjugDream::Phase5(_)),
        r[5] == DreamScreen::Djug(DjugDream::Phase6),
        djug_dream_picked(
            old(rng)@,
            seq![
                GameScreen::Dreaming(r[0]),
                GameScreen::Dreaming(r[1]),
                GameScreen::Dreaming(r[2]),
                GameScreen::Dreaming(r[3]),
                GameScreen::Dreaming(r[4]),
                GameScreen::Dreaming(r[5]),
            ],
            final(rng)@,
        ),
{
    let quote = DjugQuote::variant(rng.random_index(DJUG_QUOTE_COUNT));
    [
        DreamScreen::Djug(DjugDream::Phase1),
        DreamScreen::Djug(DjugDream::Phase2),
        DreamScreen::Djug(DjugDream::Phase3),
        DreamScreen::Djug(DjugDream::Phase4),
        DreamScreen::Djug(DjugDream::Phase5(quote)),
        DreamScreen::Djug(DjugDream::Phase6),
    ]
}

/// The hero's health as he goes to bed: more than 40 drops to 40.
pub open spec fn bedtime_health(before: GameState) -> int {
    if before.player.health > 40 {
        40
    } else {
        before.player.health as int
    }
}

/// The health that a night's rest of `gain` brings: never above 50.
pub open spec fn rested_health(before: GameState, gain: int) -> int {
    if bedtime_health(before) + gain < 50 {
        bedtime_health(before) + gain
    } else {
        50
    }
}

/// How much health the rest actually brought.
pub open spec fn rest_gain(before: GameState, gain: int) -> int {
    rested_health(before, gain) - bedtime_health(before)
}

/// Having slept `7 + extra` hours from `before`, the hero wakes in `after`:
/// the next day when that passes midnight, and never before 5:00.
pub open spec fn woke_up(before: GameState, after: GameState, extra: int) -> bool {
    let t = before.current_time.0 + 7 + extra;
    if t >= 24 {
        &&& after.current_day_index == before.current_day_index + 1
        &&& after.current_time.0 == (if t - 24 < 5 {
            5
        } else {
            t - 24
        })
    } else {
        &&& after.current_day_index == before.current_day_index
        &&& after.current_time.0 == t
    }
}

/// The night from `before` to `after`, with `dreams`, rested the hero by
/// `gain` (from 15 to 34, to at most 50 health) and kept him asleep `7 +
/// extra` hours, `extra` below a quarter of what the rest brought. A stupid
/// dream or one of DJuG leaves him with 10 to 19 health; otherwise he has
/// what he rested to, or nothing at all when his stamina ran out.
pub open spec fn night_rested(
    before: GameState,
    after: GameState,
    dreams: Seq<GameScreen>,
    gain: int,
    extra: int,
) -> bool {
    &&& 15 <= gain < 35
    &&& 0 <= extra
    &&& extra == 0 || extra < rest_gain(before, gain) / 4
    &&& woke_up(before, after, extra)
    &&& dreams.len() >= 2 ==> 10 <= after.player.health < 20
    &&& dreams.len() < 2 ==> after.player.health == (if before.player.stamina <= 0 {
        0
    } else {
        rested_health(before, gain)
    })
}

/// The draws of a night's rest, from the generator state `before_rng` to
/// `after_rng`: the rest's `gain` (a draw from 15 to 34), then `extra` hours
/// of sleep (a draw below a quarter of what the rest brought).
pub open spec fn night_draws(before_rng: u64, before: GameState, gain: int, extra: int, after_rng: u64) -> bool {
    exists|mid: u64|
        #[trigger] bounded_draw(before_rng, 20, (gain - 15) as u64, mid) && roll_against(
            mid,
            rest_gain(before, gain) / 4,
            extra,
            after_rng,
        )
}

/// The rest itself: a draw from 15 to 34 of health, capped as
/// `rested_health` says. Returns the draw and what the rest brought.
fn restore_health(rng: &mut Rng, state: &mut GameState) -> (r: (i16, i16))
    ensures
        15 <= r.0 < 35,
        bounded_draw(old(rng)@, 20, (r.0 - 15) as u64, final(rng)@),
        r.1 == rest_gain(*old(state), r.0 as int),
        0 <= r.1 <= 34,
        *final(state) == (GameState {
            player: Player {
                health: rested_health(*old(state), r.0 as int) as i16,
                ..old(state).player
            },
            ..*old(state)
        }),
{
    if state.player.health > 40 {
        state.player.health = 40;
    }
    let health = state.player.health;
    let gain_roll = rng.random_in_range(15, 35);
    let restored = health as i32 + gain_roll as i32;
    let capped = if restored < 50 { restored } else { 50 };
    let health_gain = (capped - health as i32) as i16;
    state.player.health = health + health_gain;
    (gain_roll, health_gain)
}

/// The dreamless part of a night: health is restored by 15 to 34 points but
/// not above 50 (a hero with more than 40 first drops to 40), the hero sleeps
/// `7 + random(gain / 4)` hours and, when that passes midnight, wakes up the
/// next day, dying of time out if the exam week is then over.
#[verifier::rlimit(50)]
fn rest_overnight(rng: &mut Rng, state: &mut GameState) -> (drawn: Ghost<(int, int)>)
    requires
        old(state).current_day_index < NUM_DAYS,
        old(state).current_time.0 < 24,
    ensures
        final(state).player == (Player {
            health: final(state).player.health,
            cause_of_death: final(state).player.cause_of_death,
            ..old(state).player
        }),
        (GameState {
            player: old(state).player,
            current_time: old(state).current_time,
            current_day_index: old(state).current_day_index,
            ..*final(state)
        }) == *old(state),
        ({
            let h = if old(state).player.health > 40 { 40 } else { old(state).player.health as int };
            &&& final(state).player.health <= 50
            &&& final(state).player.health >= h
            &&& (h + 15 >= 50 ==> final(state).player.health == 50)
            &&& (h + 15 < 50 ==> final(state).player.health >= h + 15)
            &&& final(state).player.health < h + 35
        }),
        final(state).current_time.0 < 24,
        final(state).current_day_index == old(state).current_day_index
            || final(state).current_day_index == old(state).current_day_index + 1,
        ({
            let slept = final(state).current_time.0 + 24 * (final(state).current_day_index
                - old(state).current_day_index) - old(state).current_time.0;
            7 <= slept < 16
        }),
        final(state).player.cause_of_death == (if final(state).current_day_index == NUM_DAYS {
            Some(CauseOfDeath::TimeOut)
        } else {
            old(state).player.cause_of_death
        }),
        night_draws(old(rng)@, *old(state), drawn@.0, drawn@.1, final(rng)@),
        15 <= drawn@.0 < 35,
        final(state).player.health == rested_health(*old(state), drawn@.0),
        0 <= drawn@.1,
        drawn@.1 == 0 || drawn@.1 < rest_gain(*old(state), drawn@.0) / 4,
        final(state).current_time.0 + 24 * (final(state).current_day_index
            - old(state).current_day_index) == old(state).current_time.0 + 7 + drawn@.1,
{
    let (gain_roll, health_gain) = restore_health(rng, state);
    let ghost mid = rng@;
    let extra = rng.random(health_gain / 4);
    assert(roll_against(mid, rest_gain(*old(state), gain_roll as int) / 4, extra as int, rng@));
    assert(night_draws(old(rng)@, *old(state), gain_roll as int, extra as int, rng@));
    let sleep_duration = 7 + extra;
    sleep_for(state, sleep_duration as u8);
    Ghost((gain_roll as int, extra as int))
}

/// `hours` of sleep: the clock moves on, to the next day past midnight,
/// where the hero dies of time out if the exam week is over.
fn sleep_for(state: &mut GameState, hours: u8)
    requires
        old(state).current_day_index < NUM_DAYS,
        old(state).current_time.0 < 24,
        7 <= hours < 16,
    ensures
        final(state).player == (Player {
            cause_of_death: final(state).player.cause_of_death,
            ..old(state).player
        }),
        (GameState {
            player: old(state).player,
            current_time: old(state).current_time,
            current_day_index: old(state).current_day_index,
            ..*final(state)
        }) == *old(state),
        final(state).current_time.0 < 24,
        final(state).current_day_index == old(state).current_day_index
            || final(state).current_day_index == old(state).current_day_index + 1,
        final(state).current_time.0 + 24 * (final(state).current_day_index
            - old(state).current_day_index) == old(state).current_time.0 + hours,
        final(state).player.cause_of_death == (if final(state).current_day_index == NUM_DAYS {
            Some(CauseOfDeath::TimeOut)
        } else {
            old(state).player.cause_of_death
        }),
{
    let wake_up = state.current_time().0 + hours;
    if wake_up >= 24 {
        state.current_time = Time(wake_up - 24);
        state.current_day_index = state.current_day_index + 1;
        if state.current_day_index == NUM_DAYS as u8 {
            state.player.cause_of_death = Some(CauseOfDeath::TimeOut);
        }
    } else {
        state.current_time = Time(wake_up);
    }
}

/// A die with `sides` sides, rolled from the generator state `before`,
/// came up one (`hit`) or not, and left the state `after`.
pub open spec fn die_roll(before: u64, sides: u64, hit: bool, after: u64) -> bool {
    exists|v: u64| #[trigger] bounded_draw(before, sides, v, after) && v < sides && (hit <==> v == 0)
}

/// The draws of a night's dream of `theme`, from the generator state
/// `before` to `after`, the dream shown as `dreams` and the hero's health
/// going from `health0` to `health1`: a coin decides whether a dream comes;
/// a dream about an exam needs one more roll of a die; a stupid dream or one
/// of DJuG is picked (see `stupid_dream_picked`, `djug_dream_picked`) and
/// leaves 10 more than a draw below 10 of health.
pub open spec fn dream_drawn(
    before: u64,
    theme: DreamTheme,
    dreams: Seq<GameScreen>,
    health0: int,
    health1: int,
    after: u64,
) -> bool {
    exists|dreamt: bool, tossed: u64|
        #[trigger] die_roll(before, 2, dreamt, tossed) && (!dreamt ==> dreams.len() == 0 && health1
            == health0 && after == tossed) && (dreamt ==> match theme {
            DreamTheme::SubjectRelated => health1 == health0 && die_roll(
                tossed,
                3,
                dreams.len() == 1,
                after,
            ),
            DreamTheme::Stupid => exists|mid: u64|
                #[trigger] stupid_dream_picked(tossed, dreams, mid) && bounded_draw(
                    mid,
                    10,
                    (health1 - 10) as u64,
                    after,
                ),
            DreamTheme::Djug => exists|mid: u64|
                #[trigger] djug_dream_picked(tossed, dreams, mid) && bounded_draw(
                    mid,
                    10,
                    (health1 - 10) as u64,
                    after,
                ),
        })
}

/// Shows the dream of the given theme, if any: the next roll of a coin
/// decides whether one comes, and a dream about an exam needs one more roll
/// of a die. A stupid dream or a dream of Djug leaves the hero with 10 to 19
/// health.
fn dream(rng: &mut Rng, theme: DreamTheme, last_exam: Option<Subject>, health: &mut i16) -> (r: Vec<GameScreen>)
    ensures
        r@.len() <= 6,
        forall|i: int| 0 <= i < r@.len() ==> (#[trigger] r@[i]) is Dreaming,
        theme == DreamTheme::SubjectRelated ==> *final(health) == *old(health) && r@.len() <= 1
            && (r@.len() == 1 ==> r@[0] == GameScreen::Dreaming(DreamScreen::SubjectRelated(last_exam))),
        theme == DreamTheme::Stupid ==> (r@.len() == 0 && *final(health) == *old(health))
            || (stupid_dreams(r@) && 10 <= *final(health) < 20),
        theme == DreamTheme::Djug ==> (r@.len() == 0 && *final(health) == *old(health))
            || (djug_dreams(r@) && 10 <= *final(health) < 20),
        dream_drawn(old(rng)@, theme, r@, *old(health) as int, *final(health) as int, final(rng)@),
{
    let mut screens: Vec<GameScreen> = Vec::new();
    let dreamt = rng.roll_dice(2);
    let ghost tossed = rng@;
    assert(die_roll(old(rng)@, 2, dreamt, tossed));
    if dreamt {
        match theme {
            DreamTheme::Stupid => {
                let phases = stupid_dream(rng);
                let ghost mid = rng@;
                screens.push(GameScreen::Dreaming(phases[0]));
                screens.push(GameScreen::Dreaming(phases[1]));
                *health = rng.random_in_range(10, 20);
                assert(screens@ =~= seq![GameScreen::Dreaming(phases[0]), GameScreen::Dreaming(phases[1])]);
                assert(stupid_dream_picked(tossed, screens@, mid));
            },
            DreamTheme::Djug => {
                let phases = djug_dream(rng);
                let mut i: usize = 0;
                while i < 6
                    invariant
                        i <= 6,
                        screens@.len() == i,
                        forall|j: int| 0 <= j < screens@.len() ==> (#[trigger] screens@[j]) is Dreaming,
                        forall|j: int|
                            0 <= j < screens@.len() ==> #[trigger] screens@[j] == GameScreen::Dreaming(
                                phases[j],
                            ),
                    decreases 6 - i,
                {
                    screens.push(GameScreen::Dreaming(phases[i]));
                    i = i + 1;
                }
                let ghost mid = rng@;
                *health = rng.random_in_range(10, 20);
                assert(screens@ =~= seq![
                    GameScreen::Dreaming(phases[0]),
                    GameScreen::Dreaming(phases[1]),
                    GameScreen::Dreaming(phases[2]),
                    GameScreen::Dreaming(phases[3]),
                    GameScreen::Dreaming(phases[4]),
                    GameScreen::Dreaming(phases[5]),
                ]);
                assert(djug_dream_picked(tossed, screens@, mid));
            },
            DreamTheme::SubjectRelated => {
                let shown = rng.roll_dice(3);
                if shown {
                    screens.push(GameScreen::Dreaming(DreamScreen::SubjectRelated(last_exam)));
                }
                assert(die_roll(tossed, 3, screens@.len() == 1, rng@));
            },
        }
    }
    screens
}

/// The theme of the dream of a hero going to bed in `state`: DJuG for one
/// who knows him, a stupid dream for one with a brain of 2 or less, his last
/// exam otherwise.
pub open spec fn dream_theme(state: GameState) -> DreamTheme {
    if state.player.knows_djug {
        DreamTheme::Djug
    } else if state.player.brain <= 2 {
        DreamTheme::Stupid
    } else {
        DreamTheme::SubjectRelated
    }
}

/// The draws of a night after the rest, from the generator state `rested`
/// to `after_rng`, the hero going to bed in `before` and waking up in
/// `after`: the dream (see `dream_drawn`), then, for a hero who ate garlic,
/// a draw below 2 of charisma back.
pub open spec fn dreamt_drawn(
    rested: u64,
    before: GameState,
    after: GameState,
    dreams: Seq<GameScreen>,
    after_rng: u64,
) -> bool {
    exists|dreamt: u64, health: int|
        #[trigger] dream_drawn(rested, dream_theme(before), dreams, health, after.player.health as int, dreamt)
            && (before.player.garlic > 0 ==> bounded_draw(
            dreamt,
            2,
            (after.player.charisma - before.player.charisma) as u64,
            after_rng,
        )) && (before.player.garlic <= 0 ==> after_rng == dreamt)
}

/// What a night in the dorm does, from the state `before` the hero went to
/// bed to the state `after` he woke up in, showing `dreams` on the way.
///
/// When the exam week is already over, he dies of time out instead.
/// Otherwise he rests as `night_rested` says: health restored by 15 to 34
/// (to at most 50, from at most 40), `7 + extra` hours of sleep with `extra`
/// below a quarter of the health gained (waking up the next day when he
/// passes midnight, and not before 5 AM), a stupid or DJuG dream leaving
/// him with 10 to 19 health;
/// Sasha gets all her lecture notes back, invitations expire, and an exhausted
/// brain recovers to 2. A hero without stamina turns into a vegetable.
#[verifier::opaque]
pub open spec fn slept(before: GameState, after: GameState, dreams: Seq<GameScreen>) -> bool {
    if before.current_day_index == NUM_DAYS {
        dreams.len() == 0 && after == (GameState {
            player: Player { cause_of_death: Some(CauseOfDeath::TimeOut), ..before.player },
            ..before
        })
    } else {
        &&& dreams.len() <= 6
        &&& forall|i: int| 0 <= i < dreams.len() ==> (#[trigger] dreams[i]) is Dreaming
        &&& after.location == Location::Dorm
        &&& after.timetable == before.timetable
        &&& after.classmates == before.classmates
        &&& after.additional_computer_science_exams == before.additional_computer_science_exams
        &&& after.terkom_has_places == before.terkom_has_places
        &&& after.recursion == before.recursion
        &&& 5 <= after.current_time.0 < 24
        &&& after.current_day_index == before.current_day_index
            || after.current_day_index == before.current_day_index + 1
        &&& after.sasha_has_algebra_lecture_notes
        &&& after.sasha_has_calculus_lecture_notes
        &&& after.sasha_has_geometry_lecture_notes
        &&& !after.player.is_invited
        &&& !after.player.knows_djug
        &&& after.player.health <= 50
        &&& before.player.knows_djug ==> dreams.len() == 0 || djug_dreams(dreams)
        &&& !before.player.knows_djug && before.player.brain <= 2 ==> dreams.len() == 0
            || stupid_dreams(dreams)
        &&& !before.player.knows_djug && before.player.brain > 2 ==> dreams.len() <= 1 && (
        dreams.len() == 1 ==> dreams[0] == GameScreen::Dreaming(
            DreamScreen::SubjectRelated(before.player.last_exam),
        ))
        &&& after.player.brain == (if before.player.brain <= 2 {
            2
        } else {
            before.player.brain
        })
        &&& after.player.stamina == before.player.stamina
        &&& after.player.subjects == before.player.subjects
        &&& after.player.money == before.player.money
        &&& after.player.has_roundtrip_train_ticket == before.player.has_roundtrip_train_ticket
        &&& after.player.is_employed_at_terkom == before.player.is_employed_at_terkom
        &&& after.player.has_internet == before.player.has_internet
        &&& after.player.has_mmheroes_floppy == before.player.has_mmheroes_floppy
        &&& after.player.last_exam == before.player.last_exam
        &&& after.player.god_mode == before.player.god_mode
        &&& after.player.garlic == (if before.player.garlic > 0 {
            before.player.garlic - 1
        } else {
            before.player.garlic as int
        })
        &&& (before.player.garlic > 0 ==> before.player.charisma <= after.player.charisma
            <= before.player.charisma + 1)
        &&& (before.player.garlic <= 0 ==> after.player.charisma == before.player.charisma)
        &&& (before.player.stamina <= 0 ==> after.player.cause_of_death is Some)
        &&& (after.current_day_index == NUM_DAYS ==> after.player.cause_of_death is Some)
        &&& exists|gain: int, extra: int| #[trigger] night_rested(before, after, dreams, gain, extra)
    }
}

/// The hero sleeps in the dorm. Returns the dreams he sees, each to be shown
/// until a key is pressed.
#[verifier::rlimit(100)]
pub fn sleep(rng: &mut Rng, state: &mut GameState) -> (r: Vec<GameScreen>)
    requires
        old(state).location == Location::Dorm,
        old(state).current_day_index <= NUM_DAYS,
        old(state).current_time.0 < 24,
        old(state).player.charisma < i16::MAX,
    ensures
        slept(*old(state), *final(state), r@),
        final(state).classmates == old(state).classmates,
        old(state).current_day_index < NUM_DAYS ==> exists|gain: int, extra: int, rested: u64|
            #[trigger] night_draws(old(rng)@, *old(state), gain, extra, rested) && night_rested(
                *old(state),
                *final(state),
                r@,
                gain,
                extra,
            ) && dreamt_drawn(rested, *old(state), *final(state), r@, final(rng)@),
{
    if die_if_time_out(state) {
        proof {
            reveal(slept);
        }
        return Vec::new();
    }
    let drawn = rest_overnight(rng, state);
    let ghost rested_rng = rng@;
    let ghost rested = *state;
    let ghost gain = drawn@.0;
    let ghost extra = drawn@.1;
    state.sasha_has_algebra_lecture_notes = true;
    state.sasha_has_calculus_lecture_notes = true;
    state.sasha_has_geometry_lecture_notes = true;
    state.player.set_invited_to_party(false);

    if state.player.brain <= 2 {
        state.player.brain = 2;
    }
    let theme = if state.player.knows_djug() {
        DreamTheme::Djug
    } else if state.player.brain <= 2 {
        DreamTheme::Stupid
    } else {
        DreamTheme::SubjectRelated
    };
    if state.player.stamina <= 0 {
        state.player.health = 0;
        state.player.cause_of_death = Some(CauseOfDeath::TurnedToVegetable);
    }
    let last_exam = state.player.last_exam();
    let mut health = state.player.health;
    let ghost health0 = health as int;
    let screens = dream(rng, theme, last_exam, &mut health);
    let ghost dreamt = rng@;
    proof {
        reveal(slept);
    }
    state.player.health = health;

    state.player.set_knows_djug(false);
    if state.current_time().0 < 5 {
        state.set_current_time(Time(5));
    }
    if state.player.garlic > 0 {
        state.player.garlic = state.player.garlic - 1;
        state.player.charisma = state.player.charisma + rng.random(2);
    }
    proof {
        assert(theme == dream_theme(*old(state)));
        assert(dream_drawn(rested_rng, dream_theme(*old(state)), screens@, health0, state.player.health as int, dreamt));
        assert(dreamt_drawn(rested_rng, *old(state), *state, screens@, rng@));
        assert(night_rested(*old(state), *state, screens@, gain, extra));
        assert(night_draws(old(rng)@, *old(state), gain, extra, rested_rng));
    }
    screens
}

} // verus!
