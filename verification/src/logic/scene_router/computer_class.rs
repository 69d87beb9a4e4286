//! Компьютерный класс.

use crate::logic::actions::Action;
use crate::logic::cause_of_death::CauseOfDeath;
use crate::logic::game_screen::GameScreen;
use crate::logic::game_state::{GameState, Location};
use crate::logic::misc::{
    can_pass_an_hour, decrease_health, health_decreased, hour_pass, passed_an_hour, relocated,
};
use crate::logic::scene_router::{add_classmates, classmate_actions, SceneOutcome};
use crate::logic::subjects::{subject_index, Subject};
use crate::logic::npc::{classmates_drawn, dice_rolled};
use crate::logic::timetable::{timetable_drawn, Timetable};
use crate::logic::scene_router::exams::roll_against;
use crate::random::{bounded_draw, Rng};
use vstd::prelude::*;

verus! {

#[derive(Debug, Clone, Copy, Eq, PartialEq, Structural)]
pub enum PlayMmheroesScene {
    /// "Неожиданно ты осознаешь, что началась зачетная неделя…"
    Ding,

    /// "СТОП! ЧТО-ТО ТАКОЕ ТЫ УЖЕ ВИДЕЛ!!!"
    Wait,

    /// "Не каждый способен пережить такое потрясение…"
    NotEveryoneCanSurviveThis,
}

/// The choices in the computer class: the computer science exam when it is
/// held here now, going home, leaving, going to PDMI or the mausoleum,
/// surfing the Internet (with access), playing MMHEROES (with the floppy),
/// talking to the classmates here, and being done.
pub open spec fn computer_class_actions_for(state: GameState) -> Seq<Action> {
    let today = state.timetable.days[state.current_day_index as int];
    (if Location::ComputerClass.spec_is_exam_here_now(
        Subject::ComputerScience,
        &today,
        state.current_time,
    ) {
        seq![Action::Exam(Subject::ComputerScience)]
    } else {
        seq![]
    }) + seq![
        Action::GoFromPunkToDorm,
        Action::LeaveComputerClass,
        Action::GoToPDMI,
        Action::GoToMausoleum,
    ] + (if state.player.has_internet {
        seq![Action::SurfInternet]
    } else {
        seq![]
    }) + (if state.player.has_mmheroes_floppy {
        seq![Action::PlayMMHEROES]
    } else {
        seq![]
    }) + classmate_actions(state) + seq![Action::IAmDone]
}

/// The computer class. After 20:00 it closes: the hero is sent home and
/// loses the next roll below 5 in health on the way. Otherwise its choices are offered.
pub fn scene_computer_class(rng: &mut Rng, state: &mut GameState) -> (r: SceneOutcome)
    requires
        old(state).current_day_index < 6,
        -10000 <= old(state).player.health <= 10000,
    ensures
        old(state).current_time.0 > 20 ==> exists|penalty: i16|
            0 <= penalty < 5 && bounded_draw(old(rng)@, 5, penalty as u64, final(rng)@) && (r matches SceneOutcome::Interrupted(screens) && screens@ == seq![
                GameScreen::ComputerClassClosing(*old(state)),
            ]) && *final(state) == #[trigger] health_decreased(
                relocated(*old(state), Location::Dorm),
                penalty,
                CauseOfDeath::OnTheWayToDorm,
            ),
        old(state).current_time.0 <= 20 ==> *final(state) == *old(state) && final(rng)@ == old(rng)@ && (r matches SceneOutcome::Actions(actions) && actions@ == computer_class_actions_for(*old(state))),
{
    if state.current_time().0 > 20 {
        let mut screens: Vec<GameScreen> = Vec::new();
        screens.push(GameScreen::ComputerClassClosing(*state));
        state.set_location(Location::Dorm);
        let penalty = rng.random(5);
        decrease_health(state, penalty, CauseOfDeath::OnTheWayToDorm);
        assert(*state == health_decreased(relocated(*old(state), Location::Dorm), penalty, CauseOfDeath::OnTheWayToDorm));
        return SceneOutcome::Interrupted(screens);
    }
    let mut actions: Vec<Action> = Vec::new();
    if Location::ComputerClass.is_exam_here_now(
        Subject::ComputerScience,
        state.current_day(),
        state.current_time(),
    ) {
        actions.push(Action::Exam(Subject::ComputerScience));
    }
    let ghost a0 = actions@;
    actions.push(Action::GoFromPunkToDorm);
    actions.push(Action::LeaveComputerClass);
    actions.push(Action::GoToPDMI);
    actions.push(Action::GoToMausoleum);
    let ghost a1 = actions@;
    if state.player.has_internet() {
        actions.push(Action::SurfInternet);
    }
    let ghost a2 = actions@;
    if state.player.has_mmheroes_floppy() {
        actions.push(Action::PlayMMHEROES);
    }
    let ghost a3 = actions@;
    add_classmates(&mut actions, state);
    let ghost a4 = actions@;
    actions.push(Action::IAmDone);
    proof {
        let s = *state;
        assert(a1 =~= a0 + seq![
            Action::GoFromPunkToDorm,
            Action::LeaveComputerClass,
            Action::GoToPDMI,
            Action::GoToMausoleum,
        ]);
        assert(a2 =~= a1 + (if s.player.has_internet {
            seq![Action::SurfInternet]
        } else {
            seq![]
        }));
        assert(a3 =~= a2 + (if s.player.has_mmheroes_floppy {
            seq![Action::PlayMMHEROES]
        } else {
            seq![]
        }));
        assert(actions@ =~= computer_class_actions_for(s));
    }
    SceneOutcome::Actions(actions)
}

/// What the hero got from the Internet, from `before` to `after`: with
/// `found_program`, one more computer science problem solved; without it,
/// maybe one more point of brain for one who had below 5.
pub open spec fn surfed(before: GameState, after: GameState, found_program: bool) -> bool {
    let i = subject_index(Subject::ComputerScience);
    let cs = before.player.subjects[i];
    &&& before.player.god_mode ==> found_program
    &&& cs.spec_solved_all_problems() && !before.player.god_mode ==> !found_program
    &&& found_program ==> after == (GameState {
        player: crate::logic::player::Player { subjects: after.player.subjects, ..before.player },
        ..before
    }) && after.player.subjects@ == before.player.subjects@.update(
        i,
        crate::logic::subject_status::SubjectStatus {
            problems_done: (cs.problems_done + 1) as u8,
            ..cs
        },
    )
    &&& !found_program ==> after == (GameState {
        player: crate::logic::player::Player { brain: after.player.brain, ..before.player },
        ..before
    }) && (after.player.brain == before.player.brain || (before.player.brain < 5
        && after.player.brain == before.player.brain + 1))
}

/// The draws of surfing the Internet, from the generator state `before_rng`
/// to `after_rng`: none in god mode; otherwise a roll against the hero's
/// brain, which finds a program when it beats 6 and problems remain, and,
/// for one who found none with a brain below 5, a die of three that makes
/// him smarter when it hits.
pub open spec fn browse_drawn(
    before_rng: u64,
    before: GameState,
    found: bool,
    after: GameState,
    after_rng: u64,
) -> bool {
    if before.player.god_mode {
        found && after_rng == before_rng
    } else {
        exists|roll: int, mid: u64|
            #[trigger] roll_against(before_rng, before.player.brain as int, roll, mid) && (found
                <==> roll > 6 && !before.player.status(
                Subject::ComputerScience,
            ).spec_solved_all_problems()) && (found || before.player.brain >= 5 ==> after_rng == mid)
                && (!found && before.player.brain < 5 ==> dice_rolled(
                mid,
                after_rng,
                3,
                after.player.brain == before.player.brain + 1,
            ))
    }
}

fn browse(rng: &mut Rng, state: &mut GameState) -> (found_program: bool)
    requires
        old(state).player.status(Subject::ComputerScience).problems_done < 120,
        -10000 <= old(state).player.brain <= 10000,
    ensures
        surfed(*old(state), *final(state), found_program),
        browse_drawn(old(rng)@, *old(state), found_program, *final(state), final(rng)@),
        final(state).location == old(state).location,
        final(state).current_time == old(state).current_time,
        final(state).current_day_index == old(state).current_day_index,
        final(state).classmates == old(state).classmates,
        final(state).player.health == old(state).player.health,
        final(state).player.charisma == old(state).player.charisma,
{
    let solved_all = state.player.status_for_subject(Subject::ComputerScience).solved_all_problems();
    let mut found_program = true;
    let ghost mut roll_seen: int = 0;
    if !state.player.is_god_mode() {
        let roll = rng.random(state.player.brain);
        proof {
            roll_seen = roll as int;
        }
        found_program = roll > 6 && !solved_all;
    }
    let ghost mid = rng@;
    if found_program {
        state.player.status_for_subject_mut(Subject::ComputerScience).more_problems_solved(1);
    } else if state.player.brain < 5 {
        let smarter = rng.roll_dice(3);
        if smarter {
            state.player.brain = state.player.brain + 1;
        }
    }
    proof {
        if !old(state).player.god_mode {
            assert(roll_against(old(rng)@, old(state).player.brain as int, roll_seen, mid));
        }
    }
    found_program
}

/// Surfing the Internet: a hero in god mode always finds a program that
/// solves a computer science problem; another finds one when a roll against
/// his brain beats 6 and not all problems are solved yet. One who finds
/// nothing and has a brain below 5 gets a little smarter one time in three.
/// Then an hour passes.
pub fn surf_internet(rng: &mut Rng, state: &mut GameState) -> (r: Vec<GameScreen>)
    requires
        can_pass_an_hour(*old(state)),
        old(state).player.status(Subject::ComputerScience).problems_done < 120,
        -10000 <= old(state).player.brain <= 10000,
    ensures
        r@.len() >= 1,
        exists|studied: GameState, found_program: bool|
            r@[0] == (GameScreen::SurfInternet { found_program }) && #[trigger] surfed(
                *old(state),
                studied,
                found_program,
            ) && #[trigger] passed_an_hour(studied, *final(state), None, r@.drop_first())
                && exists|drawn: u64|
                #[trigger] browse_drawn(old(rng)@, *old(state), found_program, studied, drawn),
{
    let found_program = browse(rng, state);
    let ghost drawn = rng@;
    let mut screens: Vec<GameScreen> = Vec::new();
    screens.push(GameScreen::SurfInternet { found_program });
    let ghost studied = *state;
    let mut more = hour_pass(rng, state, None);
    let ghost tail = more@;
    screens.append(&mut more);
    assert(screens@.drop_first() =~= tail);
    assert(passed_an_hour(studied, *state, None, screens@.drop_first()));
    assert(surfed(*old(state), studied, found_program));
    assert(browse_drawn(old(rng)@, *old(state), found_program, studied, drawn));
    screens
}

/// The game within the game, before its hour passes: one level of
/// recursion deeper, and 100 health lost to a split personality when the
/// hero's stamina and brain, less 5 for each level, come below 8.
pub open spec fn played_mmheroes(before: GameState) -> GameState {
    let deeper = GameState { recursion: (before.recursion + 1) as u8, ..before };
    if deeper.player.stamina + deeper.player.brain - deeper.recursion * 5 < 8 {
        health_decreased(deeper, 100, CauseOfDeath::SplitPersonality)
    } else {
        deeper
    }
}

/// Playing MMHEROES inside MMHEROES: one level of recursion deeper. A hero
/// whose stamina and brain, less 5 for each level, come below 8 loses 100
/// health to a split personality. An hour passes; a hero who survives it
/// learns that the timetable of the days to come has changed: they are
/// drawn anew, after the classmates' moves (see `timetable_drawn`).
pub fn play_mmheroes(rng: &mut Rng, state: &mut GameState) -> (r: Vec<GameScreen>)
    requires
        can_pass_an_hour(*old(state)),
        old(state).location == Location::ComputerClass,
        old(state).current_time.0 <= 20,
        old(state).recursion < 31,
        -10000 <= old(state).player.health <= 10000,
        -10000 <= old(state).player.brain <= 10000,
        -10000 <= old(state).player.stamina <= 10000,
    ensures
        r@.len() >= 2,
        r@[0] == GameScreen::PlayMmheroes(PlayMmheroesScene::Ding),
        r@[1] == GameScreen::PlayMmheroes(PlayMmheroesScene::Wait),
        final(state).recursion == old(state).recursion + 1,
        final(state).player.health > 0 ==> r@.last() == GameScreen::PlayMmheroes(
            PlayMmheroesScene::NotEveryoneCanSurviveThis,
        ),
        final(state).player.health > 0 ==> forall|i: int|
            0 <= i <= old(state).current_day_index ==> #[trigger] final(state).timetable.days[i]
                == old(state).timetable.days[i],
        final(state).player.health <= 0 ==> final(state).timetable == old(state).timetable,
        old(state).player.stamina + old(state).player.brain - (old(state).recursion + 1) * 5 < 8
            ==> final(state).player.health <= (if old(state).player.health - 100 > 0 {
            old(state).player.health - 100
        } else {
            0
        }),
        exists|lived: GameState, k: int|
            2 <= k <= r@.len() && #[trigger] passed_an_hour(
                played_mmheroes(*old(state)),
                lived,
                None,
                r@.subrange(2, k),
            ) && (lived.player.health <= 0 ==> k == r@.len() && *final(state) == lived) && (
            lived.player.health > 0 ==> k == r@.len() - 1 && *final(state) == (GameState {
                timetable: final(state).timetable,
                ..lived
            })),
        final(state).player.health <= 0 ==> classmates_drawn(
            old(state).classmates,
            final(state).classmates,
            old(state).location,
            old(state).timetable.days[old(state).current_day_index as int],
            old(state).current_time,
            old(rng)@,
            final(rng)@,
        ),
        final(state).player.health > 0 ==> exists|moved: u64, fresh: Timetable|
            #[trigger] timetable_drawn(moved, fresh, final(rng)@) && fresh.is_initial()
                && classmates_drawn(
                old(state).classmates,
                final(state).classmates,
                old(state).location,
                old(state).timetable.days[old(state).current_day_index as int],
                old(state).current_time,
                old(rng)@,
                moved,
            ) && forall|i: int|
                old(state).current_day_index < i < 6 ==> #[trigger] final(state).timetable.days[i]
                    == fresh.days[i],
{
    state.add_recursion_level();
    let mut screens: Vec<GameScreen> = Vec::new();
    screens.push(GameScreen::PlayMmheroes(PlayMmheroesScene::Ding));
    screens.push(GameScreen::PlayMmheroes(PlayMmheroesScene::Wait));
    if state.player.stamina + state.player.brain - (state.recursion() as i16) * 5 < 8 {
        decrease_health(state, 100, CauseOfDeath::SplitPersonality);
    }
    assert(*state == played_mmheroes(*old(state)));
    let ghost played = *state;
    let mut more = hour_pass(rng, state, None);
    let ghost hour = more@;
    screens.append(&mut more);
    let ghost lived = *state;
    let ghost k = screens@.len() as int;
    assert(screens@.subrange(2, k) =~= hour);
    assert(passed_an_hour(played, lived, None, screens@.subrange(2, k)));
    if state.player.health <= 0 {
        return screens;
    }
    screens.push(GameScreen::PlayMmheroes(PlayMmheroesScene::NotEveryoneCanSurviveThis));
    let day = state.current_day_index();
    state.timetable.randomize_from_day(day, rng);
    assert(screens@.subrange(2, k) =~= hour);
    assert(passed_an_hour(played, lived, None, screens@.subrange(2, k)));
    assert(*state == (GameState { timetable: state.timetable, ..lived }));
    screens
}

} // verus!
