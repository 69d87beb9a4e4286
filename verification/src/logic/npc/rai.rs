//! RAI: просит помочь на зачёте.

use crate::logic::game_state::GameState;
use crate::logic::cause_of_death::CauseOfDeath;
use crate::logic::game_screen::GameScreen;
use crate::logic::misc::{
    can_pass_an_hour, decrease_health, health_decreased, hour_pass, passed_an_hour,
};
use crate::logic::player::Player;
use crate::logic::subjects::{spec_is_math, spec_mental_load, Subject};
use crate::logic::scene_router::exams::roll_against;
use crate::random::Rng;
use vstd::prelude::*;

verus! {

#[derive(Debug, Clone, Copy)]
pub enum RaiInteraction {
    /// "RAI не реагирует на твои позывы."
    Ignores(GameState),

    /// "Ты мне поможешь?"
    PromptWillYouHelpMe(GameState),

    /// "Ах, так! Получай! Получай!"
    TakeIt,

    /// "Ты помог RAI."
    YouHelped,

    /// "Ничего не вышло."
    Fail,
}

/// Whether RAI asks the hero for help: only at an exam in a mathematical
/// subject; elsewhere he ignores him.
pub fn rai_asks_for_help(exam_in_progress: Option<Subject>) -> (r: bool)
    ensures
        r == (exam_in_progress matches Some(s) && spec_is_math(s)),
{
    match exam_in_progress {
        Some(subject) => subject.is_math(),
        None => false,
    }
}

/// The hero's answer to RAI at the exam in `subject`. Helping him works when
/// a roll against the hero's knowledge of it beats one against its load (a
/// point of brain won); either way an hour passes. Refusing costs 10 health.
pub fn answer_rai(rng: &mut Rng, state: &mut GameState, subject: Subject, help: bool) -> (r: Vec<
    GameScreen,
>)
    requires
        can_pass_an_hour(*old(state)),
        old(state).in_range(),
    ensures
        r@.len() >= 1,
        !help ==> r@ == seq![GameScreen::RaiInteraction(RaiInteraction::TakeIt)] && *final(state)
            == health_decreased(*old(state), 10, CauseOfDeath::KilledByRai),
        help ==> (r@[0] == GameScreen::RaiInteraction(RaiInteraction::YouHelped) || r@[0]
            == GameScreen::RaiInteraction(RaiInteraction::Fail)) && exists|helped: GameState|
            #[trigger] passed_an_hour(helped, *final(state), None, r@.drop_first())
                && helped.player.brain == (if r@[0] == GameScreen::RaiInteraction(
                RaiInteraction::YouHelped,
            ) {
                old(state).player.brain + 1
            } else {
                old(state).player.brain as int
            }) && helped.player.health == old(state).player.health && helped.location
                == old(state).location && helped.current_time == old(state).current_time,
        !help ==> final(rng)@ == old(rng)@,
        help ==> exists|know: int, load: int, s1: u64, drawn: u64|
            #[trigger] roll_against(
                old(rng)@,
                old(state).player.status(subject).knowledge as int,
                know,
                s1,
            ) && #[trigger] roll_against(s1, spec_mental_load(subject) as int, load, drawn) && (r@[0]
                == GameScreen::RaiInteraction(RaiInteraction::YouHelped) <==> know > load),
{
    let mut screens: Vec<GameScreen> = Vec::new();
    if !help {
        screens.push(GameScreen::RaiInteraction(RaiInteraction::TakeIt));
        decrease_health(state, 10, CauseOfDeath::KilledByRai);
        return screens;
    }
    let knowledge_roll = rng.random(state.player.status_for_subject(subject).knowledge);
    let ghost s1 = rng@;
    let load_roll = rng.random(subject.mental_load());
    let ghost drawn = rng@;
    assert(roll_against(old(rng)@, old(state).player.status(subject).knowledge as int, knowledge_roll as int, s1));
    assert(roll_against(s1, spec_mental_load(subject) as int, load_roll as int, drawn));
    if knowledge_roll > load_roll {
        screens.push(GameScreen::RaiInteraction(RaiInteraction::YouHelped));
        state.player.brain = state.player.brain + 1;
    } else {
        screens.push(GameScreen::RaiInteraction(RaiInteraction::Fail));
    }
    let ghost helped = *state;
    let mut more = hour_pass(rng, state, None);
    let ghost tail = more@;
    screens.append(&mut more);
    assert(screens@.drop_first() =~= tail);
    assert(passed_an_hour(helped, *state, None, screens@.drop_first()));
    screens
}

} // verus!
