//! Small rules shared by many scenes.

use crate::logic::cause_of_death::CauseOfDeath;
use crate::logic::characteristics::{BrainLevel, HealthLevel};
use crate::logic::game_screen::GameScreen;
use crate::logic::game_state::{GameState, Location};
use crate::logic::npc::{classmate_at, classmate_moves, classmates_drawn, Classmates};
use crate::logic::player::Player;
use crate::logic::sleep::{dreamt_drawn, night_draws, night_rested, sleep, slept};
use crate::logic::subjects::Subject;
use crate::logic::timetable::{Duration, Time, NUM_DAYS};
use crate::random::Rng;
use vstd::prelude::*;

verus! {

/// The hero loses `delta` health; if none is left, he dies of `cause_of_death`.
pub open spec fn health_decreased(
    before: GameState,
    delta: HealthLevel,
    cause_of_death: CauseOfDeath,
) -> GameState {
    let health = (before.player.health - delta) as i16;
    GameState {
        player: Player {
            health,
            cause_of_death: if health <= 0 {
                Some(cause_of_death)
            } else {
                before.player.cause_of_death
            },
            ..before.player
        },
        ..before
    }
}

/// The hero loses `delta` brain; if none is left, he dies of `cause_of_death`
/// and his health drops to zero.
pub open spec fn brain_decreased(
    before: GameState,
    delta: BrainLevel,
    cause_of_death: CauseOfDeath,
) -> GameState {
    let brain = (before.player.brain - delta) as i16;
    GameState {
        player: Player {
            brain,
            health: if brain <= 0 {
                0
            } else {
                before.player.health
            },
            cause_of_death: if brain <= 0 {
                Some(cause_of_death)
            } else {
                before.player.cause_of_death
            },
            ..before.player
        },
        ..before
    }
}

/// A hero whose health runs out dies of what took it, and only then: after
/// losing health he has a cause of death exactly when he has no health
/// left or had one already, and losing nothing changes nothing but that.
pub proof fn lemma_health_decreased_kills(before: GameState, delta: HealthLevel, cause_of_death: CauseOfDeath)
    requires
        i16::MIN <= before.player.health - delta <= i16::MAX,
    ensures
        ({
            let after = health_decreased(before, delta, cause_of_death);
            &&& after.player.health == before.player.health - delta
            &&& after.player.health <= 0 ==> after.player.cause_of_death == Some(cause_of_death)
            &&& after.player.health > 0 ==> after.player.cause_of_death == before.player.cause_of_death
            &&& after.player.cause_of_death is Some <==> (after.player.health <= 0
                || before.player.cause_of_death is Some)
        }),
{
}

pub fn decrease_health(state: &mut GameState, delta: HealthLevel, cause_of_death: CauseOfDeath)
    requires
        i16::MIN <= old(state).player.health - delta <= i16::MAX,
    ensures
        *final(state) == health_decreased(*old(state), delta, cause_of_death),
{
    state.player.health = state.player.health - delta;
    if state.player.health <= 0 {
        state.player.cause_of_death = Some(cause_of_death);
    }
}

pub fn decrease_brain(state: &mut GameState, delta: BrainLevel, cause_of_death: CauseOfDeath)
    requires
        i16::MIN <= old(state).player.brain - delta <= i16::MAX,
    ensures
        *final(state) == brain_decreased(*old(state), delta, cause_of_death),
{
    state.player.brain = state.player.brain - delta;
    if state.player.brain <= 0 {
        state.player.health = 0;
        state.player.cause_of_death = Some(cause_of_death);
    }
}

/// Every classmate moved on for the hour that starts at `time` of `today`,
/// while the hero was at `here`.
#[verifier::opaque]
pub open spec fn classmates_moved(
    before: Classmates,
    after: Classmates,
    here: Location,
    today: crate::logic::timetable::Day,
    time: Time,
) -> bool {
    &&& after.wf()
    &&& forall|i: int|
        0 <= i < 12 ==> exists|a: u64, b: u64|
            classmate_moves(
                classmate_at(i),
                before.0[i].current_location,
                #[trigger] after.0[i].current_location,
                here,
                today,
                time,
                a,
                b,
            )
}

/// Every classmate follows his routine for the hour that is starting.
pub fn run_classmate_routines(rng: &mut Rng, state: &mut GameState)
    requires
        old(state).classmates.wf(),
        old(state).current_day_index < 6,
    ensures
        *final(state) == (GameState { classmates: final(state).classmates, ..*old(state) }),
        classmates_moved(
            old(state).classmates,
            final(state).classmates,
            old(state).location,
            old(state).timetable.days[old(state).current_day_index as int],
            old(state).current_time,
        ),
        classmates_drawn(
            old(state).classmates,
            final(state).classmates,
            old(state).location,
            old(state).timetable.days[old(state).current_day_index as int],
            old(state).current_time,
            old(rng)@,
            final(rng)@,
        ),
{
    let day = *state.timetable.day(state.current_day_index());
    let time = state.current_time();
    let location = state.location();
    state.classmates.update_all(rng, location, &day, time);
    proof {
        reveal(classmates_moved);
    }
}

/// The state after the hour has passed but before midnight is handled: TERKOM
/// has free places again, the classmates are where `classmates` says, the
/// clock moves on, Djug hurts a hero at the geometry exam in PDMI (and the
/// hero gets to know him), and a hero without charisma dies of paranoia.
pub open spec fn hour_passed(
    before: GameState,
    classmates: Classmates,
    exam_in_progress: Option<Subject>,
) -> GameState {
    let s1 = GameState {
        terkom_has_places: true,
        classmates,
        current_time: Time((before.current_time.0 + 1) as u8),
        ..before
    };
    let s2 = if s1.location == Location::PDMI && exam_in_progress == Some(
        Subject::GeometryAndTopology,
    ) {
        let hurt = health_decreased(s1, 6, CauseOfDeath::DjugIsDeadly);
        GameState { player: Player { knows_djug: true, ..hurt.player }, ..hurt }
    } else {
        s1
    };
    if s2.player.charisma <= 0 {
        GameState {
            player: Player {
                health: 0,
                cause_of_death: Some(CauseOfDeath::Paranoia),
                ..s2.player
            },
            ..s2
        }
    } else {
        s2
    }
}

/// Only the geometry exam in PDMI hurts: an hour costs the hero 6 health
/// and makes him know DJuG exactly when he spends it in PDMI at the
/// geometry exam; otherwise his health and his knowing DJuG stay as they
/// were, unless he has no charisma left and dies of paranoia (health 0).
/// Either way the clock moves on by an hour and the classmates are where
/// they went.
pub proof fn lemma_hour_hurts_only_at_geometry_in_pdmi(
    before: GameState,
    classmates: Classmates,
    exam_in_progress: Option<Subject>,
)
    requires
        -10000 <= before.player.health <= 10000,
        before.current_time.0 < 24,
    ensures
        ({
            let after = hour_passed(before, classmates, exam_in_progress);
            let djug = before.location == Location::PDMI && exam_in_progress == Some(
                Subject::GeometryAndTopology,
            );
            &&& after.current_time.0 == before.current_time.0 + 1
            &&& after.classmates == classmates
            &&& after.location == before.location
            &&& after.player.knows_djug == (before.player.knows_djug || djug)
            &&& before.player.charisma > 0 ==> after.player.health == before.player.health - (if djug {
                6int
            } else {
                0
            })
            &&& before.player.charisma <= 0 ==> after.player.health == 0
                && after.player.cause_of_death == Some(CauseOfDeath::Paranoia)
            &&& !djug && before.player.charisma > 0 ==> after.player == before.player
        }),
{
}

/// The first minute of a new day, before the hero goes home.
pub open spec fn new_day(s: GameState) -> GameState {
    GameState {
        current_time: Time(0),
        current_day_index: (s.current_day_index + 1) as u8,
        ..s
    }
}

/// The hour itself passes: see `hour_passed`.
fn pass_the_hour(rng: &mut Rng, state: &mut GameState, exam_in_progress: Option<Subject>)
    requires
        old(state).classmates.wf(),
        old(state).current_day_index < 6,
        old(state).current_time.0 < 24,
        -15000 <= old(state).player.health <= 25000,
    ensures
        classmates_moved(
            old(state).classmates,
            final(state).classmates,
            old(state).location,
            old(state).timetable.days[old(state).current_day_index as int],
            old(state).current_time,
        ),
        *final(state) == hour_passed(*old(state), final(state).classmates, exam_in_progress),
        classmates_drawn(
            old(state).classmates,
            final(state).classmates,
            old(state).location,
            old(state).timetable.days[old(state).current_day_index as int],
            old(state).current_time,
            old(rng)@,
            final(rng)@,
        ),
{
    state.set_terkom_has_places(true);
    run_classmate_routines(rng, state);
    state.adjust_time(Duration(1));
    if state.location() == Location::PDMI && exam_in_progress == Some(Subject::GeometryAndTopology) {
        decrease_health(state, 6, CauseOfDeath::DjugIsDeadly);
        state.player.set_knows_djug(true);
    }
    if state.player.charisma <= 0 {
        state.player.health = 0;
        state.player.cause_of_death = Some(CauseOfDeath::Paranoia);
    }
}

/// The draws of midnight, from the generator state `before_rng` to
/// `after_rng`, the hour having ended in `before`: out of the dorm none; in
/// the dorm those of the night (see `night_draws` and `dreamt_drawn`), when
/// the exam week is not over.
pub open spec fn midnight_drawn(
    before: GameState,
    after: GameState,
    screens: Seq<GameScreen>,
    before_rng: u64,
    after_rng: u64,
) -> bool {
    let d = new_day(before);
    &&& before.location != Location::Dorm ==> after_rng == before_rng
    &&& before.location == Location::Dorm && d.current_day_index < NUM_DAYS ==> exists|
        gain: int,
        extra: int,
        rested: u64,
    |
        #[trigger] night_draws(before_rng, d, gain, extra, rested) && night_rested(
            d,
            after,
            screens,
            gain,
            extra,
        ) && dreamt_drawn(rested, d, after, screens, after_rng)
}

/// Midnight: a new day begins. A hero out of the dorm is told to go home
/// (falling asleep in the train from PDMI costs 4 health); a hero in the
/// dorm goes to sleep.
fn midnight(rng: &mut Rng, state: &mut GameState) -> (r: Vec<GameScreen>)
    requires
        old(state).current_time.0 == 24,
        old(state).current_day_index < 6,
        old(state).location != Location::ComputerClass,
        -20000 <= old(state).player.health <= 30000,
        old(state).player.charisma < i16::MAX,
    ensures
        final(state).classmates == old(state).classmates,
        ({
            let d = new_day(*old(state));
            &&& old(state).location == Location::Dorm ==> slept(d, *final(state), r@)
            &&& old(state).location != Location::Dorm ==> {
                &&& r@ == seq![GameScreen::Midnight(d)]
                &&& *final(state) == (GameState {
                    location: Location::Dorm,
                    ..(if old(state).location == Location::PDMI {
                        health_decreased(d, 4, CauseOfDeath::FellAsleepInTheTrain)
                    } else {
                        d
                    })
                })
            }
        }),
        midnight_drawn(*old(state), *final(state), r@, old(rng)@, final(rng)@),
{
    state.midnight();
    state.next_day();
    let mut screens: Vec<GameScreen> = Vec::new();
    match state.location() {
        Location::Dorm => {
            screens = sleep(rng, state);
        },
        _ => {
            screens.push(GameScreen::Midnight(*state));
            if state.location() == Location::PDMI {
                decrease_health(state, 4, CauseOfDeath::FellAsleepInTheTrain);
            }
            state.set_location(Location::Dorm);
        },
    }
    screens
}

/// One hour passed from `before` to `after`, with `screens` shown on the way:
/// see `hour_passed` and `midnight`.
#[verifier::opaque]
pub open spec fn passed_an_hour(
    before: GameState,
    after: GameState,
    exam_in_progress: Option<Subject>,
    screens: Seq<GameScreen>,
) -> bool {
    let s = hour_passed(before, after.classmates, exam_in_progress);
    let d = new_day(s);
    &&& classmates_moved(
        before.classmates,
        after.classmates,
        before.location,
        before.timetable.days[before.current_day_index as int],
        before.current_time,
    )
    &&& s.current_time.0 < 24 ==> screens.len() == 0 && after == s
    &&& s.current_time.0 == 24 && s.location == Location::Dorm ==> slept(d, after, screens)
    &&& s.current_time.0 == 24 && s.location != Location::Dorm ==> {
        &&& screens == seq![GameScreen::Midnight(d)]
        &&& after == (GameState {
            location: Location::Dorm,
            ..(if s.location == Location::PDMI {
                health_decreased(d, 4, CauseOfDeath::FellAsleepInTheTrain)
            } else {
                d
            })
        })
    }
}

/// `state` with the hero moved to `location`.
pub open spec fn relocated(state: GameState, location: Location) -> GameState {
    GameState { location, ..state }
}

/// What may be done to a state within an hour of play and still leave the
/// clock, the calendar and the hero's numbers in bounds for the next hour.
/// Health is kept within a range that an hour of any rule (which moves it
/// by less than 100, or raises it to a fixed level) cannot push out of
/// 16 bits; charisma must leave room for the one point that garlic adds at
/// night. Midnight cannot come in the computer class: it is closed by
/// then, so an hour there must start before 23:00.
pub open spec fn can_pass_an_hour(state: GameState) -> bool {
    &&& state.classmates.wf()
    &&& state.current_day_index < 6
    &&& state.current_time.0 < 24
    &&& (state.location == Location::ComputerClass ==> state.current_time.0 < 23)
    &&& -15000 <= state.player.health <= 25000
    &&& state.player.charisma < i16::MAX
}

/// Whether `state` is one from which an hour of play may pass (see
/// `can_pass_an_hour`).
pub fn hour_can_pass(state: &GameState) -> (r: bool)
    ensures
        r == can_pass_an_hour(*state),
{
    let all = crate::logic::npc::Classmate::all();
    let mut i: usize = 0;
    while i < 12
        invariant
            i <= 12,
            forall|j: int| 0 <= j < 12 ==> #[trigger] all[j] == classmate_at(j),
            forall|j: int| 0 <= j < i ==> (#[trigger] state.classmates.0[j]).classmate == classmate_at(j),
        decreases 12 - i,
    {
        if state.classmates.0[i].classmate != all[i] {
            return false;
        }
        i = i + 1;
    }
    state.current_day_index < 6 && state.current_time.0 < 24 && (state.location
        != Location::ComputerClass || state.current_time.0 < 23) && -15000 <= state.player.health
        && state.player.health <= 25000 && state.player.charisma < i16::MAX
}

/// One hour passes. Returns the screens to show, each until a key is
/// pressed: at midnight, a hero out of the dorm is told to go home (falling
/// asleep in the train from PDMI costs 4 health), and a hero in the dorm
/// goes to sleep. The classmates' moves take the first draws (see
/// `classmates_drawn`); before midnight they are the only ones, and at
/// midnight the night's draws follow (see `midnight_drawn`).
pub fn hour_pass(rng: &mut Rng, state: &mut GameState, exam_in_progress: Option<Subject>) -> (r: Vec<
    GameScreen,
>)
    requires
        can_pass_an_hour(*old(state)),
    ensures
        passed_an_hour(*old(state), *final(state), exam_in_progress, r@),
        final(state).timetable == old(state).timetable,
        final(state).player.subjects == old(state).player.subjects,
        final(state).player.money == old(state).player.money,
        final(state).classmates.wf(),
        final(state).current_time.0 < 24,
        final(state).current_day_index <= 6,
        final(state).location == old(state).location || final(state).location == Location::Dorm,
        final(state).player.has_roundtrip_train_ticket == old(state).player.has_roundtrip_train_ticket,
        final(state).player.is_employed_at_terkom == old(state).player.is_employed_at_terkom,
        final(state).player.has_internet == old(state).player.has_internet,
        final(state).player.has_mmheroes_floppy == old(state).player.has_mmheroes_floppy,
        final(state).player.last_exam == old(state).player.last_exam,
        final(state).recursion == old(state).recursion,
        final(state).additional_computer_science_exams == old(state).additional_computer_science_exams,
        final(state).player.god_mode == old(state).player.god_mode,
        old(state).location != Location::Dorm ==> {
            &&& final(state).current_day_index <= old(state).current_day_index + 1
            &&& final(state).player.charisma == old(state).player.charisma
            &&& (if old(state).player.health < 0 {
                old(state).player.health
            } else {
                0
            }) - 10 <= final(state).player.health <= (if old(state).player.health > 0 {
                old(state).player.health
            } else {
                0
            })
        },
        old(state).current_time.0 < 23 ==> {
            &&& r@.len() == 0
            &&& final(state).current_day_index == old(state).current_day_index
            &&& final(state).current_time.0 == old(state).current_time.0 + 1
            &&& final(state).location == old(state).location
            &&& final(state).player.charisma == old(state).player.charisma
            &&& final(state).player.health == 0 || old(state).player.health - 6
                <= final(state).player.health <= old(state).player.health
            &&& classmates_drawn(
                old(state).classmates,
                final(state).classmates,
                old(state).location,
                old(state).timetable.days[old(state).current_day_index as int],
                old(state).current_time,
                old(rng)@,
                final(rng)@,
            )
        },
        exists|moved: u64|
            #[trigger] classmates_drawn(
                old(state).classmates,
                final(state).classmates,
                old(state).location,
                old(state).timetable.days[old(state).current_day_index as int],
                old(state).current_time,
                old(rng)@,
                moved,
            ),
        old(state).current_time.0 == 23 ==> exists|moved: u64|
            #[trigger] classmates_drawn(
                old(state).classmates,
                final(state).classmates,
                old(state).location,
                old(state).timetable.days[old(state).current_day_index as int],
                old(state).current_time,
                old(rng)@,
                moved,
            ) && midnight_drawn(
                hour_passed(*old(state), final(state).classmates, exam_in_progress),
                *final(state),
                r@,
                moved,
                final(rng)@,
            ),
{
    pass_the_hour(rng, state, exam_in_progress);
    let ghost moved = rng@;
    let ghost moved_classmates = state.classmates;
    let r = if state.current_time().0 == 24 {
        midnight(rng, state)
    } else {
        Vec::new()
    };
    proof {
        reveal(passed_an_hour);
        reveal(classmates_moved);
        reveal(slept);
        assert(state.classmates == moved_classmates);
    }
    r
}

/// Two hours pass, one after another, with nothing in between: the
/// screens of the first hour come first.
pub fn two_hours_pass(rng: &mut Rng, state: &mut GameState) -> (r: Vec<GameScreen>)
    requires
        can_pass_an_hour(*old(state)),
        old(state).location != Location::Dorm,
        old(state).location == Location::ComputerClass ==> old(state).current_time.0 < 22,
        -10000 <= old(state).player.health <= 10000,
        old(state).current_time.0 < 23 || old(state).current_day_index < 5,
    ensures
        exists|mid: GameState, k: int|
            0 <= k <= r@.len() && #[trigger] passed_an_hour(*old(state), mid, None, r@.take(k))
                && passed_an_hour(mid, *final(state), None, r@.skip(k)),
        final(state).player.has_roundtrip_train_ticket == old(state).player.has_roundtrip_train_ticket,
{
    let mut screens = hour_pass(rng, state, None);
    let ghost mid = *state;
    let ghost first = screens@;
    let mut more = hour_pass(rng, state, None);
    let ghost second = more@;
    screens.append(&mut more);
    assert(screens@.take(first.len() as int) =~= first);
    assert(screens@.skip(first.len() as int) =~= second);
    assert(passed_an_hour(*old(state), mid, None, screens@.take(first.len() as int)));
    screens
}

} // verus!
