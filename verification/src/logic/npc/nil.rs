//! NiL: платит за помощь.

use crate::logic::characteristics::Money;
use crate::logic::game_state::GameState;
use crate::logic::cause_of_death::CauseOfDeath;
use crate::logic::game_screen::GameScreen;
use crate::logic::misc::{
    can_pass_an_hour, decrease_health, health_decreased, hour_pass, passed_an_hour,
};
use crate::logic::player::Player;
use crate::logic::subject_status::SubjectStatus;
use crate::logic::subjects::{
    spec_health_penalty, spec_is_math, spec_mental_load, spec_single_problem_mental_factor,
    subject_index, Subject,
};
use crate::random::{bounded_draw, Rng};
use vstd::prelude::*;

verus! {

#[derive(Debug, Clone, Copy)]
pub enum NilInteraction {
    /// "Маладой чилавек, вы мне не паможите решить задачу?
    /// А то я сигодня ни в зуб нагой ..."
    WillYouHelpMe(GameState),

    RefusedToHelp,

    /// "Ой, спасибо! Вот вам x руб. за это..."
    ThanksHereIsYourMoney(Money),

    /// "У тебя ничего не вышло."
    DidntWorkOut,
}

/// The state after helping NiL with `subject`, before the hour passes: the
/// hero is paid as much money as he knows, loses the problem factor plus
/// `roll` of knowledge, and the subject's health penalty.
pub open spec fn helped_nil(before: GameState, subject: Subject, roll: int, after: GameState) -> bool {
    let k = before.player.status(subject);
    &&& 0 <= roll < spec_health_penalty(subject)
    &&& after.player.subjects@ == before.player.subjects@.update(
        subject_index(subject),
        SubjectStatus {
            knowledge: (k.knowledge - spec_single_problem_mental_factor(subject) - roll) as i16,
            ..k
        },
    )
    &&& after == health_decreased(
        GameState {
            player: Player {
                money: Money((before.player.money.0 + k.knowledge) as i16),
                subjects: after.player.subjects,
                ..before.player
            },
            ..before
        },
        spec_health_penalty(subject),
        CauseOfDeath::Altruism,
    )
}

/// The three coins of a refusal, from the generator state `before` to
/// `after`: the brain, the charisma and the stamina the hero loses, in that
/// order, each a draw below 2.
pub open spec fn nil_refusal_drawn(before: u64, brain: int, charisma: int, stamina: int, after: u64) -> bool {
    exists|s1: u64, s2: u64|
        #[trigger] bounded_draw(before, 2, brain as u64, s1) && #[trigger] bounded_draw(
            s1,
            2,
            charisma as u64,
            s2,
        ) && bounded_draw(s2, 2, stamina as u64, after)
}

/// The hero's answer to NiL at the exam in `subject`. Helping a hero who
/// knows the subject beyond its load earns him as much money as he knows,
/// costs him the problem factor plus a roll below the health penalty of
/// knowledge, and the health penalty itself; an hour passes. With less
/// knowledge it does not work out: an hour passes and the health penalty
/// follows. Refusing costs up to a point each of brain, charisma and
/// stamina (see `nil_refusal_drawn`).
pub fn answer_nil(rng: &mut Rng, state: &mut GameState, subject: Subject, help: bool) -> (r: Vec<
    GameScreen,
>)
    requires
        spec_is_math(subject),
        old(state).location != crate::logic::game_state::Location::Dorm,
        can_pass_an_hour(*old(state)),
        old(state).in_range(),
    ensures
        r@.len() >= 1,
        !help ==> r@ == seq![GameScreen::NilInteraction(NilInteraction::RefusedToHelp)]
            && *final(state) == (GameState {
            player: Player {
                brain: final(state).player.brain,
                charisma: final(state).player.charisma,
                stamina: final(state).player.stamina,
                ..old(state).player
            },
            ..*old(state)
        }) && old(state).player.brain - 1 <= final(state).player.brain <= old(state).player.brain
            && old(state).player.charisma - 1 <= final(state).player.charisma
            <= old(state).player.charisma && old(state).player.stamina - 1
            <= final(state).player.stamina <= old(state).player.stamina && nil_refusal_drawn(
            old(rng)@,
            old(state).player.brain - final(state).player.brain,
            old(state).player.charisma - final(state).player.charisma,
            old(state).player.stamina - final(state).player.stamina,
            final(rng)@,
        ),
        help && old(state).player.status(subject).knowledge > spec_mental_load(subject) ==> r@[0]
            == GameScreen::NilInteraction(
            NilInteraction::ThanksHereIsYourMoney(
                Money(old(state).player.status(subject).knowledge),
            ),
        ) && exists|paid: GameState, roll: int|
            #[trigger] helped_nil(*old(state), subject, roll, paid) && passed_an_hour(
                paid,
                *final(state),
                Some(subject),
                r@.drop_first(),
            ) && exists|drawn: u64|
                #[trigger] bounded_draw(old(rng)@, spec_health_penalty(subject) as u64, roll as u64, drawn),
        help && old(state).player.status(subject).knowledge <= spec_mental_load(subject) ==> r@[0]
            == GameScreen::NilInteraction(NilInteraction::DidntWorkOut) && exists|tired: GameState|
            #[trigger] passed_an_hour(*old(state), tired, Some(subject), r@.drop_first())
                && *final(state) == health_decreased(
                tired,
                spec_health_penalty(subject),
                CauseOfDeath::Altruism,
            ),
{
    let mut screens: Vec<GameScreen> = Vec::new();
    if !help {
        screens.push(GameScreen::NilInteraction(NilInteraction::RefusedToHelp));
        let lost_brain = rng.random(2);
        let ghost s1 = rng@;
        let lost_charisma = rng.random(2);
        let ghost s2 = rng@;
        let lost_stamina = rng.random(2);
        state.player.brain = state.player.brain - lost_brain;
        state.player.charisma = state.player.charisma - lost_charisma;
        state.player.stamina = state.player.stamina - lost_stamina;
        assert(bounded_draw(old(rng)@, 2, lost_brain as u64, s1));
        assert(bounded_draw(s1, 2, lost_charisma as u64, s2));
        assert(nil_refusal_drawn(
            old(rng)@,
            lost_brain as int,
            lost_charisma as int,
            lost_stamina as int,
            rng@,
        ));
        return screens;
    }
    let knowledge = state.player.status_for_subject(subject).knowledge;
    if knowledge > subject.mental_load() {
        screens.push(GameScreen::NilInteraction(NilInteraction::ThanksHereIsYourMoney(Money(knowledge))));
        state.player.money = Money(state.player.money.0 + knowledge);
        let roll = rng.random(subject.health_penalty());
        let ghost drawn = rng@;
        assert(bounded_draw(old(rng)@, spec_health_penalty(subject) as u64, roll as u64, drawn));
        let cost = subject.single_problem_mental_factor() + roll;
        let status = state.player.status_for_subject_mut(subject);
        status.knowledge = status.knowledge - cost;
        decrease_health(state, subject.health_penalty(), CauseOfDeath::Altruism);
        let ghost paid = *state;
        assert(helped_nil(*old(state), subject, roll as int, paid));
        let mut more = hour_pass(rng, state, Some(subject));
        let ghost tail = more@;
        screens.append(&mut more);
        assert(screens@.drop_first() =~= tail);
        assert(helped_nil(*old(state), subject, roll as int, paid) && passed_an_hour(
            paid,
            *state,
            Some(subject),
            screens@.drop_first(),
        ));
    } else {
        screens.push(GameScreen::NilInteraction(NilInteraction::DidntWorkOut));
        let mut more = hour_pass(rng, state, Some(subject));
        let ghost tail = more@;
        let ghost tired = *state;
        screens.append(&mut more);
        assert(screens@.drop_first() =~= tail);
        assert(passed_an_hour(*old(state), tired, Some(subject), screens@.drop_first()));
        decrease_health(state, subject.health_penalty(), CauseOfDeath::Altruism);
    }
    screens
}

} // verus!
