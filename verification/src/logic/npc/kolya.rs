//! Коля: решает задачи по алгебре в мавзолее.

use crate::logic::cause_of_death::CauseOfDeath;
use crate::logic::characteristics::Money;
use crate::logic::game_screen::GameScreen;
use crate::logic::game_state::GameState;
use crate::logic::misc::{brain_decreased, can_pass_an_hour, decrease_brain, hour_pass, passed_an_hour};
use crate::logic::player::Player;
use crate::logic::subject_status::SubjectStatus;
use crate::logic::subjects::{subject_index, Subject};
use crate::random::{bounded_draw, Rng};
use vstd::prelude::*;

verus! {

#[derive(Debug, Copy, Clone, Eq, PartialEq, Structural)]
pub enum KolyaInteraction {
    /// "Коля решил тебе ещё 2 задачи по алгебре!"
    /// (не пришлось заказывать настойку овса)
    SolvedAlgebraProblemsForFree,

    /// "Заказать Коле настойку овса?"
    /// (да или нет)
    PromptOatTincture,

    /// "Коля решил тебе ещё 2 задачи по алгебре!"
    /// (пришлось заказать настойку овса для этого)
    SolvedAlgebraProblemsForOatTincture,

    /// "Коля достает тормозную жидкость, и вы распиваете еще по стакану."
    /// (так как нет денег на настойку овса)
    BrakeFluidNoMoney,

    /// "Коля достает тормозную жидкость, и вы распиваете еще по стакану."
    /// (отказался заказывать настойку овса)
    BrakeFluidBecauseRefused,

    /// "Твой альтруизм навсегда останется в памяти потомков."
    /// (заказал Коле настойку овса, но решать задачи он не стал)
    Altruism,
}

/// Kolya decided whether to solve algebra problems for `player` (`helps`)
/// with one roll below ten, drawn from the generator state `before` and
/// leaving `after`: the hero's charisma must beat the roll, and at least two
/// problems must remain.
pub open spec fn kolya_decides(before: u64, player: Player, helps: bool, after: u64) -> bool {
    exists|roll: u64|
        #[trigger] bounded_draw(before, 10, roll, after) && roll < 10 && (helps <==> (
        player.charisma > roll && player.status(
            Subject::AlgebraAndNumberTheory,
        ).spec_problems_remaining() >= 2))
}

/// Whether Kolya solves algebra problems for the hero: his charisma must
/// beat a roll below ten, and at least two problems must remain.
pub fn can_solve_algebra_problems(rng: &mut Rng, player: &Player) -> (r: bool)
    ensures
        kolya_decides(old(rng)@, *player, r, final(rng)@),
        r ==> player.status(Subject::AlgebraAndNumberTheory).spec_problems_remaining() >= 2,
        r ==> player.charisma > 0,
        player.charisma >= 10 ==> r == (player.status(
            Subject::AlgebraAndNumberTheory,
        ).spec_problems_remaining() >= 2),
{
    let roll = rng.random(10);
    assert(bounded_draw(old(rng)@, 10, roll as u64, rng@));
    if player.charisma <= roll {
        return false;
    }
    player.status_for_subject(Subject::AlgebraAndNumberTheory).problems_remaining() >= 2
}

/// `after` is `before` with two more algebra problems solved.
pub open spec fn two_algebra_problems_solved(before: GameState, after: GameState) -> bool {
    let i = subject_index(Subject::AlgebraAndNumberTheory);
    let s0 = before.player.subjects[i];
    &&& after == (GameState {
        player: Player { subjects: after.player.subjects, ..before.player },
        ..before
    })
    &&& after.player.subjects@ == before.player.subjects@.update(
        i,
        SubjectStatus { problems_done: (s0.problems_done + 2) as u8, ..s0 },
    )
}

/// Kolya solves two algebra problems, shown as `interaction`, and an hour
/// passes.
fn solve_algebra_problems(rng: &mut Rng, state: &mut GameState, interaction: KolyaInteraction) -> (r:
    Vec<GameScreen>)
    requires
        can_pass_an_hour(*old(state)),
        old(state).player.status(Subject::AlgebraAndNumberTheory).problems_done < 100,
    ensures
        r@.len() >= 1,
        r@[0] == GameScreen::KolyaInteraction(*old(state), interaction),
        exists|solved: GameState|
            #[trigger] two_algebra_problems_solved(*old(state), solved) && passed_an_hour(
                solved,
                *final(state),
                None,
                r@.drop_first(),
            ),
        final(state).player.money == old(state).player.money,
{
    let mut screens: Vec<GameScreen> = Vec::new();
    screens.push(GameScreen::KolyaInteraction(*state, interaction));
    state.player.status_for_subject_mut(Subject::AlgebraAndNumberTheory).more_problems_solved(2);
    let ghost solved = *state;
    assert(two_algebra_problems_solved(*old(state), solved));
    let mut more = hour_pass(rng, state, None);
    let ghost tail = more@;
    screens.append(&mut more);
    assert(screens@.drop_first() =~= tail);
    screens
}

/// The first part of a talk with Kolya in the mausoleum. If he can, he
/// solves two algebra problems for free (an hour passes). Otherwise a hero
/// without money for oat tincture (15) drinks brake fluid with him (a point
/// of brain, maybe the last). Otherwise Kolya asks for oat tincture: `true`
/// means the prompt is to be shown and `answer_oat_tincture` called.
pub fn meet_kolya(rng: &mut Rng, state: &mut GameState) -> (r: (Vec<GameScreen>, bool))
    requires
        can_pass_an_hour(*old(state)),
        old(state).in_range(),
        old(state).player.wf(),
        old(state).player.status(Subject::AlgebraAndNumberTheory).problems_done < 100,
    ensures
        r.1 ==> r.0@.len() == 0 && *final(state) == *old(state) && old(state).player.money.0 >= 15,
        !r.1 ==> r.0@.len() >= 1,
        !r.1 && r.0@[0] == GameScreen::KolyaInteraction(
            *old(state),
            KolyaInteraction::SolvedAlgebraProblemsForFree,
        ) ==> exists|solved: GameState|
            #[trigger] two_algebra_problems_solved(*old(state), solved) && passed_an_hour(
                solved,
                *final(state),
                None,
                r.0@.drop_first(),
            ),
        !r.1 && r.0@[0] != GameScreen::KolyaInteraction(
            *old(state),
            KolyaInteraction::SolvedAlgebraProblemsForFree,
        ) ==> old(state).player.money.0 < 15 && r.0@ == seq![
            GameScreen::KolyaInteraction(*old(state), KolyaInteraction::BrakeFluidNoMoney),
        ] && *final(state) == brain_decreased(*old(state), 1, CauseOfDeath::DrankTooMuch),
        exists|helps: bool, decided: u64|
            #[trigger] kolya_decides(old(rng)@, old(state).player, helps, decided) && (helps <==> (
            !r.1 && r.0@[0] == GameScreen::KolyaInteraction(
                *old(state),
                KolyaInteraction::SolvedAlgebraProblemsForFree,
            ))) && (!helps ==> final(rng)@ == decided),
        old(state).player.charisma >= 10 && old(state).player.status(
            Subject::AlgebraAndNumberTheory,
        ).spec_problems_remaining() >= 2 ==> !r.1 && r.0@[0] == GameScreen::KolyaInteraction(
            *old(state),
            KolyaInteraction::SolvedAlgebraProblemsForFree,
        ),
{
    let helps = can_solve_algebra_problems(rng, &state.player);
    let ghost decided = rng@;
    assert(kolya_decides(old(rng)@, old(state).player, helps, decided));
    if helps {
        let screens = solve_algebra_problems(rng, state, KolyaInteraction::SolvedAlgebraProblemsForFree);
        return (screens, false);
    }
    if state.player.money.0 < Money::oat_tincture_cost().0 {
        let mut screens: Vec<GameScreen> = Vec::new();
        screens.push(GameScreen::KolyaInteraction(*state, KolyaInteraction::BrakeFluidNoMoney));
        decrease_brain(state, 1, CauseOfDeath::DrankTooMuch);
        return (screens, false);
    }
    (Vec::new(), true)
}

/// What the oat tincture brought, from `before` to `after`, shown as
/// `screens`: two algebra problems solved by Kolya (and an hour passed), or
/// only the glory of altruism.
pub open spec fn treated_kolya(before: GameState, after: GameState, screens: Seq<GameScreen>) -> bool {
    ||| screens == seq![GameScreen::KolyaInteraction(before, KolyaInteraction::Altruism)]
        && after == before
    ||| screens.len() >= 1 && screens[0] == GameScreen::KolyaInteraction(
        before,
        KolyaInteraction::SolvedAlgebraProblemsForOatTincture,
    ) && exists|solved: GameState|
        #[trigger] two_algebra_problems_solved(before, solved) && passed_an_hour(
            solved,
            after,
            None,
            screens.drop_first(),
        )
}

fn treat_kolya(rng: &mut Rng, state: &mut GameState) -> (r: Vec<GameScreen>)
    requires
        can_pass_an_hour(*old(state)),
        old(state).player.status(Subject::AlgebraAndNumberTheory).problems_done < 100,
    ensures
        treated_kolya(*old(state), *final(state), r@),
        final(state).player.money == old(state).player.money,
        exists|helps: bool, decided: u64|
            #[trigger] kolya_decides(old(rng)@, old(state).player, helps, decided) && (helps <==> r@[0]
                == GameScreen::KolyaInteraction(
                *old(state),
                KolyaInteraction::SolvedAlgebraProblemsForOatTincture,
            )) && (!helps ==> final(rng)@ == decided),
{
    let helps = can_solve_algebra_problems(rng, &state.player);
    let ghost decided = rng@;
    assert(kolya_decides(old(rng)@, old(state).player, helps, decided));
    if helps {
        solve_algebra_problems(rng, state, KolyaInteraction::SolvedAlgebraProblemsForOatTincture)
    } else {
        let mut screens: Vec<GameScreen> = Vec::new();
        screens.push(GameScreen::KolyaInteraction(*state, KolyaInteraction::Altruism));
        screens
    }
}

/// The hero's answer to Kolya's request for oat tincture. Having ordered it
/// (for 15), he is treated (see `treated_kolya`). Having refused, he drinks
/// brake fluid with Kolya and loses a point of brain (without dying of it,
/// even below zero).
pub fn answer_oat_tincture(rng: &mut Rng, state: &mut GameState, order: bool) -> (r: Vec<GameScreen>)
    requires
        can_pass_an_hour(*old(state)),
        old(state).in_range(),
        old(state).player.status(Subject::AlgebraAndNumberTheory).problems_done < 100,
    ensures
        !order ==> r@ == seq![
            GameScreen::KolyaInteraction(*old(state), KolyaInteraction::BrakeFluidBecauseRefused),
        ] && *final(state) == (GameState {
            player: Player { brain: (old(state).player.brain - 1) as i16, ..old(state).player },
            ..*old(state)
        }),
        order ==> exists|helps: bool, decided: u64|
            #[trigger] kolya_decides(old(rng)@, old(state).player, helps, decided) && (helps <==> r@[0]
                == GameScreen::KolyaInteraction(
                *old(state),
                KolyaInteraction::SolvedAlgebraProblemsForOatTincture,
            )) && (!helps ==> final(rng)@ == decided),
        order && old(state).player.charisma >= 10 && old(state).player.status(
            Subject::AlgebraAndNumberTheory,
        ).spec_problems_remaining() >= 2 ==> r@[0] == GameScreen::KolyaInteraction(
            *old(state),
            KolyaInteraction::SolvedAlgebraProblemsForOatTincture,
        ),
        order ==> exists|treated: GameState|
            #[trigger] treated_kolya(*old(state), treated, r@) && *final(state) == (GameState {
                player: Player {
                    money: Money((treated.player.money.0 - 15) as i16),
                    ..treated.player
                },
                ..treated
            }),
{
    if !order {
        let mut screens: Vec<GameScreen> = Vec::new();
        screens.push(GameScreen::KolyaInteraction(*state, KolyaInteraction::BrakeFluidBecauseRefused));
        state.player.brain = state.player.brain - 1;
        return screens;
    }
    let screens = treat_kolya(rng, state);
    let ghost treated = *state;
    state.player.money = state.player.money.minus(Money::oat_tincture_cost());
    assert(treated_kolya(*old(state), treated, screens@));
    screens
}

} // verus!
