//! Общежитие.

use crate::logic::actions::{Action, HelpAction};
use crate::logic::cause_of_death::CauseOfDeath;
use crate::logic::game_screen::GameScreen;
use crate::logic::game_state::{GameState, Location};
use crate::logic::misc::{can_pass_an_hour, decrease_health, hour_pass, passed_an_hour};
use crate::logic::scene_router::exams::roll_against;
use crate::logic::player::Player;
use crate::logic::scene_router::SceneOutcome;
use crate::logic::sleep::{dreamt_drawn, night_draws, night_rested, sleep, slept};
use crate::logic::subject_status::SubjectStatus;
use crate::logic::subjects::{subject_at, subject_index, Subject};
use crate::logic::timetable::NUM_DAYS;
use crate::random::{bounded_draw, Rng};
use vstd::prelude::*;

verus! {

#[derive(Debug, Clone, Copy)]
pub enum NeighborInvitation {
    InvitePrompt(GameState),
    LetsGo,
    TooBad,
}

/// The choices in the dorm.
pub open spec fn dorm_actions_for() -> Seq<Action> {
    seq![
        Action::Study,
        Action::ViewTimetable,
        Action::Rest,
        Action::GoToBed,
        Action::GoFromDormToPunk,
        Action::GoToPDMI,
        Action::GoToMausoleum,
        Action::IAmDone,
        Action::WhatToDo,
    ]
}

/// The hour after which the hero cannot stay awake: 23, an hour earlier for
/// each 12 points of health that he lacks to 50.
pub open spec fn bedtime(health: int) -> int {
    let lack = if 50 - health > 0 {
        50 - health
    } else {
        0
    };
    23 - lack / 12
}

/// The dorm. A hero up past his bedtime falls asleep (and the night
/// follows); after 18:00 a neighbour may invite him to a party, three times
/// in ten, unless he was invited already; otherwise the dorm's choices are
/// offered.
pub fn scene_dorm(rng: &mut Rng, state: &mut GameState) -> (r: SceneOutcome)
    requires
        old(state).location == Location::Dorm,
        3 < old(state).current_time.0 < 24,
        old(state).current_day_index <= NUM_DAYS,
        old(state).player.charisma < i16::MAX,
        -10000 <= old(state).player.health <= 10000,
    ensures
        old(state).current_time.0 > bedtime(old(state).player.health as int) ==> (r matches SceneOutcome::Interrupted(screens)
            && screens@.len() >= 1 && screens@[0] == GameScreen::CantStayAwake(*old(state))
            && slept(*old(state), *final(state), screens@.drop_first())),
        old(state).current_time.0 > bedtime(old(state).player.health as int) && old(state).current_day_index
            < NUM_DAYS ==> (r matches SceneOutcome::Interrupted(screens) && exists|
            gain: int,
            extra: int,
            rested: u64,
        |
            #[trigger] night_draws(old(rng)@, *old(state), gain, extra, rested) && night_rested(
                *old(state),
                *final(state),
                screens@.drop_first(),
                gain,
                extra,
            ) && dreamt_drawn(rested, *old(state), *final(state), screens@.drop_first(), final(rng)@)),
        old(state).current_time.0 <= bedtime(old(state).player.health as int) && old(state).current_time.0
            < 18 ==> final(rng)@ == old(rng)@ && (r matches SceneOutcome::Actions(_)),
        old(state).current_time.0 <= bedtime(old(state).player.health as int) && old(state).current_time.0
            >= 18 ==> exists|v: u64|
            #[trigger] bounded_draw(old(rng)@, 10, v, final(rng)@) && v < 10 && ((r is Interrupted)
                <==> v < 3 && !old(state).player.is_invited),
        old(state).current_time.0 <= bedtime(old(state).player.health as int) ==> {
            ||| (r matches SceneOutcome::Actions(actions) && actions@ == dorm_actions_for()
                && *final(state) == *old(state))
            ||| {
                &&& old(state).current_time.0 >= 18
                &&& !old(state).player.is_invited
                &&& *final(state) == (GameState {
                    player: Player { is_invited: true, ..old(state).player },
                    ..*old(state)
                })
                &&& r matches SceneOutcome::Interrupted(screens)
                &&& screens@ == seq![
                    GameScreen::NeighborInvites(NeighborInvitation::InvitePrompt(*final(state))),
                ]
            }
        },
{
    let health = state.player.health as i32;
    let lack = if 50 - health > 0 {
        50 - health
    } else {
        0
    };
    let bedtime = 23 - lack / 12;
    if (state.current_time().0 as i32) > bedtime {
        let mut screens: Vec<GameScreen> = Vec::new();
        screens.push(GameScreen::CantStayAwake(*state));
        let mut night = sleep(rng, state);
        let ghost dreams = night@;
        screens.append(&mut night);
        assert(screens@.drop_first() =~= dreams);
        return SceneOutcome::Interrupted(screens);
    }
    let mut invited = false;
    if state.current_time().0 >= 18 {
        let v = rng.random(10);
        assert(bounded_draw(old(rng)@, 10, v as u64, rng@));
        invited = v < 3 && !state.player.is_invited_to_party();
    }
    if invited {
        state.player.set_invited_to_party(true);
        let mut screens: Vec<GameScreen> = Vec::new();
        screens.push(GameScreen::NeighborInvites(NeighborInvitation::InvitePrompt(*state)));
        return SceneOutcome::Interrupted(screens);
    }
    let actions = vec![
        Action::Study,
        Action::ViewTimetable,
        Action::Rest,
        Action::GoToBed,
        Action::GoFromDormToPunk,
        Action::GoToPDMI,
        Action::GoToMausoleum,
        Action::IAmDone,
        Action::WhatToDo,
    ];
    assert(actions@ =~= dorm_actions_for());
    SceneOutcome::Actions(actions)
}

/// The subjects to study, each with whether its lecture notes are at hand,
/// in their canonical order, then "don't study".
pub open spec fn subjects_to_study_for(state: GameState) -> Seq<Action> {
    Seq::new(
        6,
        |i: int|
            Action::DoStudy {
                subject: subject_at(i),
                lecture_notes_available: state.player.subjects[i].has_lecture_notes,
            },
    ).push(Action::DontStudy)
}

pub fn subjects_to_study(state: &GameState) -> (r: Vec<Action>)
    requires
        state.player.wf(),
    ensures
        r@ == subjects_to_study_for(*state),
{
    let all = Subject::all_subjects();
    let mut r: Vec<Action> = Vec::new();
    let mut i: usize = 0;
    while i < 6
        invariant
            i <= 6,
            state.player.wf(),
            forall|j: int| 0 <= j < 6 ==> #[trigger] all[j] == subject_at(j),
            r@.len() == i,
            forall|j: int|
                0 <= j < i ==> #[trigger] r@[j] == (Action::DoStudy {
                    subject: subject_at(j),
                    lecture_notes_available: state.player.subjects[j].has_lecture_notes,
                }),
        decreases 6 - i,
    {
        let subject = all[i];
        r.push(
            Action::DoStudy {
                subject,
                lecture_notes_available: state.player.status_for_subject(
                    subject,
                ).has_lecture_notes(),
            },
        );
        proof {
            assert(subject_index(subject_at(i as int)) == i);
        }
        i = i + 1;
    }
    r.push(Action::DontStudy);
    assert(r@ =~= subjects_to_study_for(*state));
    r
}

/// Knowledge above this is lethal: studying past it costs 10 more health.
pub const LETHAL_KNOWLEDGE: i16 = 45;

/// What an hour of study gives, from `before` to `after`, before the hour
/// passes: with `power` (stamina for physical education, brain otherwise)
/// the knowledge of `subject` grows by `power` in good hours (before 19:00)
/// or two thirds of it later, less a roll below half the power, plus a roll
/// against health / 18, plus 10 with lecture notes. Health drops by 10 less a
/// roll against stamina (nothing with lecture notes), 12 more at night (after
/// 21:00 or before 4:00), and 10 more for a lethal knowledge.
#[verifier::opaque]
pub open spec fn studied(before: GameState, after: GameState, subject: Subject, use_lecture_notes: bool) -> bool {
    let i = subject_index(subject);
    let s0 = before.player.subjects[i];
    let s1 = after.player.subjects[i];
    let power = if subject == Subject::PhysicalEducation {
        before.player.stamina as int
    } else {
        before.player.brain as int
    };
    let base = if before.current_time.0 < 19 {
        power
    } else {
        power * 2 / 3
    };
    let gain = s1.knowledge - s0.knowledge - base - (if use_lecture_notes {
        10int
    } else {
        0
    });
    let night = before.current_time.0 > 21 || before.current_time.0 < 4;
    let loss = before.player.health - after.player.health;
    let extra = (if night {
        12int
    } else {
        0
    }) + (if s1.knowledge > LETHAL_KNOWLEDGE {
        10int
    } else {
        0
    });
    &&& after.player.subjects@ == before.player.subjects@.update(
        i,
        SubjectStatus { knowledge: s1.knowledge, ..s0 },
    )
    &&& after == (GameState {
        player: Player {
            subjects: after.player.subjects,
            health: after.player.health,
            cause_of_death: after.player.cause_of_death,
            ..before.player
        },
        ..before
    })
    &&& -(power / 2) <= gain
    &&& gain < (if before.player.health / 18 > 0 {
        before.player.health / 18
    } else {
        1
    })
    &&& use_lecture_notes ==> loss == extra
    &&& !use_lecture_notes ==> extra <= loss <= 10 + extra
    &&& after.player.health <= 0 ==> after.player.cause_of_death is Some
    &&& after.player.health > 0 ==> after.player.cause_of_death == before.player.cause_of_death
}

/// What an hour of study makes of `state` for the rolls `forgotten`,
/// `inspired` and `roll` (see `study_drawn`).
pub open spec fn study_outcome(
    state: GameState,
    subject: Subject,
    use_lecture_notes: bool,
    forgotten: int,
    inspired: int,
    roll: int,
    result: GameState,
) -> bool {
    let i = subject_index(subject);
    let power = if subject == Subject::PhysicalEducation {
        state.player.stamina as int
    } else {
        state.player.brain as int
    };
    let base = if state.current_time.0 < 19 {
        power
    } else {
        power * 2 / 3
    };
    let s0 = state.player.subjects[i];
    let knowledge = s0.knowledge + base - forgotten + inspired + (if use_lecture_notes {
        10int
    } else {
        0
    });
    let penalty = (if use_lecture_notes || 10 - roll < 0 {
        0int
    } else {
        10 - roll
    }) + (if state.current_time.0 > 21 || state.current_time.0 < 4 {
        12int
    } else {
        0
    });
    let tired = state.player.health - penalty;
    let cause = if tired <= 0 {
        Some(CauseOfDeath::Overstudied)
    } else {
        state.player.cause_of_death
    };
    let lethal = knowledge > LETHAL_KNOWLEDGE;
    let health = if lethal {
        tired - 10
    } else {
        tired
    };
    &&& result.player.subjects@ == state.player.subjects@.update(
        i,
        SubjectStatus { knowledge: knowledge as i16, ..s0 },
    )
    &&& result.player.health == health
    &&& result.player.cause_of_death == (if lethal && health <= 0 {
        Some(CauseOfDeath::StudiedTooWell)
    } else {
        cause
    })
    &&& result == (GameState {
        player: Player {
            subjects: result.player.subjects,
            health: result.player.health,
            cause_of_death: result.player.cause_of_death,
            ..state.player
        },
        ..state
    })
}

/// The three rolls of an hour of study, from the generator state `before`
/// through `s1` and `s2` to `after`, and what they make of `state`.
pub open spec fn study_rolls(
    before: u64,
    state: GameState,
    subject: Subject,
    use_lecture_notes: bool,
    result: GameState,
    after: u64,
    forgotten: int,
    inspired: int,
    roll: int,
    s1: u64,
    s2: u64,
) -> bool {
    let power = if subject == Subject::PhysicalEducation {
        state.player.stamina as int
    } else {
        state.player.brain as int
    };
    &&& roll_against(before, power / 2, forgotten, s1)
    &&& roll_against(s1, state.player.health / 18, inspired, s2)
    &&& roll_against(s2, state.player.stamina as int, roll, after)
    &&& study_outcome(state, subject, use_lecture_notes, forgotten, inspired, roll, result)
}

/// The draws of an hour of study, from the generator state `before` to
/// `after`, and what they make of `state`: a roll below half the power is
/// forgotten, a roll below health / 18 comes as inspiration, and, without
/// lecture notes, the hour costs 10 health less a roll below stamina (never
/// less than nothing); 12 more at night, and 10 more for a lethal knowledge.
#[verifier::opaque]
pub open spec fn study_drawn(
    before: u64,
    state: GameState,
    subject: Subject,
    use_lecture_notes: bool,
    result: GameState,
    after: u64,
) -> bool {
    exists|forgotten: int, inspired: int, roll: int, s1: u64, s2: u64|
        #[trigger] study_rolls(
            before,
            state,
            subject,
            use_lecture_notes,
            result,
            after,
            forgotten,
            inspired,
            roll,
            s1,
            s2,
        )
}

#[verifier::rlimit(100)]
fn learn(rng: &mut Rng, state: &mut GameState, subject: Subject, use_lecture_notes: bool)
    requires
        old(state).in_range(),
        (if subject == Subject::PhysicalEducation {
            old(state).player.stamina
        } else {
            old(state).player.brain
        }) > 0,
    ensures
        studied(*old(state), *final(state), subject, use_lecture_notes),
        study_drawn(old(rng)@, *old(state), subject, use_lecture_notes, *final(state), final(rng)@),
        old(state).player.status(subject).knowledge >= 0 ==> final(state).player.status(
            subject,
        ).knowledge >= 0,
        final(state).location == old(state).location,
        final(state).current_time == old(state).current_time,
        final(state).current_day_index == old(state).current_day_index,
        final(state).classmates == old(state).classmates,
        final(state).player.charisma == old(state).player.charisma,
        old(state).player.health - 32 <= final(state).player.health <= old(state).player.health,
{
    let power = if subject == Subject::PhysicalEducation {
        state.player.stamina
    } else {
        state.player.brain
    };
    let health = state.player.health;
    let time = state.current_time();
    let base = if time.is_optimal_study_time() {
        power
    } else {
        power * 2 / 3
    };
    let ghost r0 = rng@;
    let forgotten = rng.random(power / 2);
    let ghost r1 = rng@;
    let inspired = rng.random(health / 18);
    let ghost r2 = rng@;
    let notes: i16 = if use_lecture_notes {
        10
    } else {
        0
    };
    let status = state.player.status_for_subject_mut(subject);
    status.knowledge = status.knowledge + base - forgotten + inspired + notes;
    let knowledge = status.knowledge;
    let roll = rng.random(state.player.stamina);
    let mut penalty = 10 - roll;
    if penalty < 0 || use_lecture_notes {
        penalty = 0;
    }
    if time.is_suboptimal_study_time() {
        penalty = penalty + 12;
    }
    decrease_health(state, penalty, CauseOfDeath::Overstudied);
    if knowledge > LETHAL_KNOWLEDGE {
        decrease_health(state, 10, CauseOfDeath::StudiedTooWell);
    }
    proof {
        reveal(studied);
        assert(roll_against(r0, (power / 2) as int, forgotten as int, r1));
        assert(roll_against(r1, (health / 18) as int, inspired as int, r2));
        assert(roll_against(r2, old(state).player.stamina as int, roll as int, rng@));
        assert(study_outcome(
            *old(state),
            subject,
            use_lecture_notes,
            forgotten as int,
            inspired as int,
            roll as int,
            *state,
        ));
        assert(study_rolls(
            r0,
            *old(state),
            subject,
            use_lecture_notes,
            *state,
            rng@,
            forgotten as int,
            inspired as int,
            roll as int,
            r1,
            r2,
        ));
        reveal(study_drawn);
    }
}

/// An hour of study in the dorm (see `studied`, and `study_drawn` for the
/// draws), then the hour passes. A
/// hero with no brain (or, for physical education, no stamina) cannot study:
/// nothing happens.
pub fn study_subject(
    rng: &mut Rng,
    state: &mut GameState,
    subject: Subject,
    use_lecture_notes: bool,
) -> (r: Vec<GameScreen>)
    requires
        !use_lecture_notes || old(state).player.status(subject).has_lecture_notes,
        old(state).in_range(),
        can_pass_an_hour(*old(state)),
    ensures
        (if subject == Subject::PhysicalEducation {
            old(state).player.stamina
        } else {
            old(state).player.brain
        }) <= 0 ==> r@.len() == 0 && *final(state) == *old(state),
        (if subject == Subject::PhysicalEducation {
            old(state).player.stamina
        } else {
            old(state).player.brain
        }) > 0 ==> exists|learned: GameState|
            #[trigger] studied(*old(state), learned, subject, use_lecture_notes) && (exists|
                drawn: u64,
            |
                #[trigger] study_drawn(
                    old(rng)@,
                    *old(state),
                    subject,
                    use_lecture_notes,
                    learned,
                    drawn,
                )) && passed_an_hour(learned, *final(state), None, r@),
{
    let power = if subject == Subject::PhysicalEducation {
        state.player.stamina
    } else {
        state.player.brain
    };
    if power <= 0 {
        return Vec::new();
    }
    learn(rng, state, subject, use_lecture_notes);
    let ghost learned = *state;
    let ghost drawn = rng@;
    let r = hour_pass(rng, state, None);
    assert(studied(*old(state), learned, subject, use_lecture_notes));
    assert(study_drawn(old(rng)@, *old(state), subject, use_lecture_notes, learned, drawn));
    r
}

/// Resting in the dorm: 7 to 14 health back (the next draw), and an hour
/// passes.
pub fn rest(rng: &mut Rng, state: &mut GameState) -> (r: Vec<GameScreen>)
    requires
        can_pass_an_hour(*old(state)),
        old(state).player.health <= 10000,
    ensures
        exists|rested: GameState|
            #[trigger] passed_an_hour(rested, *final(state), None, r@) && rested == (GameState {
                player: Player { health: rested.player.health, ..old(state).player },
                ..*old(state)
            }) && 7 <= rested.player.health - old(state).player.health < 15 && exists|drawn: u64|
                #[trigger] bounded_draw(
                    old(rng)@,
                    8,
                    (rested.player.health - old(state).player.health - 7) as u64,
                    drawn,
                ),
{
    let gain = rng.random_in_range(7, 15);
    let ghost drawn = rng@;
    state.player.health = state.player.health + gain;
    let ghost rested = *state;
    assert(bounded_draw(old(rng)@, 8, (gain - 7) as u64, drawn));
    let r = hour_pass(rng, state, None);
    assert(passed_an_hour(rested, *state, None, r@));
    r
}

/// Going to bed in the dorm before the hero is sleepy: he does not want to
/// sleep yet. (Going to bed at night is not possible.)
pub fn go_to_bed(state: &GameState) -> (r: GameScreen)
    requires
        3 < state.current_time.0 < 20,
    ensures
        r == GameScreen::DontWantToSleep,
{
    GameScreen::DontWantToSleep
}

/// The help screen for a choice in the help menu; none for "thanks, but
/// nothing".
pub fn help_screen(state: &GameState, action: HelpAction) -> (r: Option<GameScreen>)
    ensures
        action == HelpAction::ThanksButNothing <==> r is None,
        action == HelpAction::WhatToDoAtAll ==> r == Some(GameScreen::WhatToDo(*state)),
        action == HelpAction::AboutScreen ==> r == Some(GameScreen::AboutScreen(*state)),
        action == HelpAction::WhereToGoAndWhy ==> r == Some(GameScreen::WhereToGoAndWhy(*state)),
        action == HelpAction::AboutProfessors ==> r == Some(GameScreen::AboutProfessors(*state)),
        action == HelpAction::AboutCharacters ==> r == Some(GameScreen::AboutCharacters(*state)),
        action == HelpAction::AboutThisProgram ==> r == Some(GameScreen::AboutThisProgram(*state)),
{
    match action {
        HelpAction::WhatToDoAtAll => Some(GameScreen::WhatToDo(*state)),
        HelpAction::AboutScreen => Some(GameScreen::AboutScreen(*state)),
        HelpAction::WhereToGoAndWhy => Some(GameScreen::WhereToGoAndWhy(*state)),
        HelpAction::AboutProfessors => Some(GameScreen::AboutProfessors(*state)),
        HelpAction::AboutCharacters => Some(GameScreen::AboutCharacters(*state)),
        HelpAction::AboutThisProgram => Some(GameScreen::AboutThisProgram(*state)),
        HelpAction::ThanksButNothing => None,
    }
}

} // verus!
