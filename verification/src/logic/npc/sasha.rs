//! Саша: даёт конспекты.


use crate::logic::actions::Action;
use crate::logic::game_screen::GameScreen;
use crate::logic::game_state::GameState;
use crate::logic::player::Player;
use crate::logic::subject_status::SubjectStatus;
use crate::logic::subjects::{spec_is_math, subject_index, Subject};
use crate::random::{bounded_draw, Rng};
use vstd::prelude::*;

verus! {

#[derive(Debug, Copy, Clone, Eq, PartialEq, Structural)]
pub enum SashaInteraction {
    /// Выбор предмета, по которому попросить конспект у Саши
    ChooseSubject,

    /// "Как знаешь..."
    SuitYourself,

    /// "Да, у меня с собой этот конспект ..."
    YesIHaveTheLectureNotes,

    /// "Ох, извини, кто-то другой уже позаимствовал ..."
    SorryGaveToSomeoneElse,
}

/// What the hero may ask Sasha for: the lecture notes of each
/// mathematical subject that he has none of, in their order, or nothing.
pub open spec fn sasha_actions_for(state: GameState) -> Seq<Action> {
    let wants = |s: Subject| !state.player.status(s).has_lecture_notes;
    (if wants(Subject::AlgebraAndNumberTheory) {
        seq![Action::RequestLectureNotesFromSasha(Subject::AlgebraAndNumberTheory)]
    } else {
        seq![]
    }) + (if wants(Subject::Calculus) {
        seq![Action::RequestLectureNotesFromSasha(Subject::Calculus)]
    } else {
        seq![]
    }) + (if wants(Subject::GeometryAndTopology) {
        seq![Action::RequestLectureNotesFromSasha(Subject::GeometryAndTopology)]
    } else {
        seq![]
    }) + seq![Action::DontNeedAnythingFromSasha]
}

pub fn sasha_actions(state: &GameState) -> (r: Vec<Action>)
    ensures
        r@ == sasha_actions_for(*state),
{
    let mut r: Vec<Action> = Vec::new();
    if !state.player.status_for_subject(Subject::AlgebraAndNumberTheory).has_lecture_notes() {
        r.push(Action::RequestLectureNotesFromSasha(Subject::AlgebraAndNumberTheory));
    }
    let ghost a0 = r@;
    if !state.player.status_for_subject(Subject::Calculus).has_lecture_notes() {
        r.push(Action::RequestLectureNotesFromSasha(Subject::Calculus));
    }
    let ghost a1 = r@;
    if !state.player.status_for_subject(Subject::GeometryAndTopology).has_lecture_notes() {
        r.push(Action::RequestLectureNotesFromSasha(Subject::GeometryAndTopology));
    }
    let ghost a2 = r@;
    r.push(Action::DontNeedAnythingFromSasha);
    proof {
        let s = *state;
        assert(a1 =~= a0 + (if !s.player.status(Subject::Calculus).has_lecture_notes {
            seq![Action::RequestLectureNotesFromSasha(Subject::Calculus)]
        } else {
            seq![]
        }));
        assert(a2 =~= a1 + (if !s.player.status(Subject::GeometryAndTopology).has_lecture_notes {
            seq![Action::RequestLectureNotesFromSasha(Subject::GeometryAndTopology)]
        } else {
            seq![]
        }));
        assert(r@ =~= sasha_actions_for(s));
    }
    r
}

/// Sasha's answer: she gives her lecture notes on `subject` to a hero whose
/// charisma beats the next roll below 18, if she still has them; otherwise they
/// are gone to someone else (she has none on it until the next night).
/// Asking for nothing changes nothing.
pub fn ask_sasha(rng: &mut Rng, state: &mut GameState, action: Action) -> (r: GameScreen)
    requires
        sasha_actions_for(*old(state)).contains(action),
    ensures
        action == Action::DontNeedAnythingFromSasha ==> r == GameScreen::SashaInteraction(
            *old(state),
            SashaInteraction::SuitYourself,
        ) && *final(state) == *old(state),
        action matches Action::RequestLectureNotesFromSasha(subject) ==> {
            ||| {
                &&& old(state).spec_sasha_has_lecture_notes(subject)
                &&& final(state).player.subjects@ == old(state).player.subjects@.update(
                    subject_index(subject),
                    SubjectStatus { has_lecture_notes: true, ..old(state).player.status(subject) },
                )
                &&& *final(state) == (GameState {
                    player: Player { subjects: final(state).player.subjects, ..old(state).player },
                    ..*old(state)
                })
                &&& r == GameScreen::SashaInteraction(
                    *final(state),
                    SashaInteraction::YesIHaveTheLectureNotes,
                )
            }
            ||| {
                &&& !final(state).spec_sasha_has_lecture_notes(subject)
                &&& final(state).player == old(state).player
                &&& r == GameScreen::SashaInteraction(
                    *final(state),
                    SashaInteraction::SorryGaveToSomeoneElse,
                )
            }
        },
        action == Action::DontNeedAnythingFromSasha ==> final(rng)@ == old(rng)@,
        action matches Action::RequestLectureNotesFromSasha(subject) ==> exists|v: u64|
            #[trigger] bounded_draw(old(rng)@, 18, v, final(rng)@) && v < 18 && ((r matches GameScreen::SashaInteraction(_, SashaInteraction::YesIHaveTheLectureNotes)) <==> (
            old(state).player.charisma > v && old(state).spec_sasha_has_lecture_notes(subject))),
{
    let interaction = match action {
        Action::RequestLectureNotesFromSasha(subject) => {
            let roll = rng.random(18);
            assert(bounded_draw(old(rng)@, 18, roll as u64, rng@));
            if state.player.charisma > roll && state.sasha_has_lecture_notes(subject) {
                state.player.status_for_subject_mut(subject).set_has_lecture_notes();
                SashaInteraction::YesIHaveTheLectureNotes
            } else {
                state.set_sasha_has_lecture_notes(subject, false);
                SashaInteraction::SorryGaveToSomeoneElse
            }
        },
        _ => SashaInteraction::SuitYourself,
    };
    GameScreen::SashaInteraction(*state, interaction)
}

} // verus!
