//! Электричка между ПУНКом и ПОМИ.

use crate::logic::cause_of_death::CauseOfDeath;
use crate::logic::characteristics::Money;
use crate::logic::game_screen::GameScreen;
use crate::logic::game_state::{GameState, Location};
use crate::logic::misc::{
    can_pass_an_hour, decrease_health, health_decreased, hour_pass, passed_an_hour, relocated,
    two_hours_pass,
};
use crate::logic::player::Player;
use crate::random::{bounded_draw, Rng};
use vstd::prelude::*;

verus! {

#[derive(Debug, Copy, Clone, Eq, PartialEq, Structural)]
pub enum TrainScene {
    /// "Здравый смысл подсказывает тебе, что в такое время ты там никого уже не найдешь.
    /// Не будем зря тратить здоровье на поездку в ПОМИ."
    NoPointToGoToPDMI,

    /// Денег у тебя нет, пришлось ехать зайцем...
    GatecrashBecauseNoMoney { caught_by_inspectors: bool },

    /// "Ехать зайцем" или "Честно заплатить 10 руб. за билет в оба конца"
    PromptToBuyTickets,

    /// Выбрали ехать зайцем, даже несмотря на то что деньги на билет были.
    GatecrashByChoice { caught_by_inspectors: bool },

    /// Купили билет
    BoughtRoundTripTicket,
}

#[derive(Debug, Clone, Copy)]
pub enum BaltiyskiyRailwayStationScene {
    /// "Ты в Питере, на Балтийском вокзале. Куда направляемся?"
    Prompt(GameState),

    /// "Тебя заловили контролеры!"
    CaughtByInspectors,
}

/// Inspectors catch a hero whose charisma is below the next roll under ten:
/// never one with a charisma of 9 or more, always one with a negative
/// charisma.
pub fn inspectors(rng: &mut Rng, state: &GameState) -> (r: bool)
    ensures
        exists|roll: u64|
            roll < 10 && #[trigger] bounded_draw(old(rng)@, 10, roll, final(rng)@) && r == (
            state.player.charisma < roll),
        state.player.charisma >= 9 ==> !r,
        state.player.charisma < 0 ==> r,
{
    let roll = rng.random(10);
    state.player.charisma < roll
}

/// The ticket costs 10 for a round trip to PDMI, 5 one way back from it.
pub open spec fn ticket_cost(back_from_pdmi: bool) -> int {
    if back_from_pdmi {
        5
    } else {
        10
    }
}

/// Whether the hero gets to choose between buying a ticket and riding
/// without one: he has no ticket yet but the money for one.
pub fn ticket_prompt_needed(state: &GameState, back_from_pdmi: bool) -> (r: bool)
    ensures
        r == (!state.player.has_roundtrip_train_ticket && state.player.money.0 >= ticket_cost(
            back_from_pdmi,
        )),
{
    let cost = if back_from_pdmi {
        Money::one_way_train_ticket_cost()
    } else {
        Money::roundtrip_train_ticket_cost()
    };
    !state.player.has_roundtrip_train_ticket() && state.player.money.0 >= cost.0
}

/// The health that a ride in the train costs: the next roll below ten.
pub fn train_health_penalty(rng: &mut Rng) -> (r: i16)
    ensures
        0 <= r < 10,
        bounded_draw(old(rng)@, 10, r as u64, final(rng)@),
{
    rng.random(10)
}

/// A ride in the train took the hero from `before` to `after`; `caught`
/// says whether the inspectors caught him and `scene` what is shown (see
/// `ride_train`).
pub open spec fn rode_train(
    before: GameState,
    after: GameState,
    health_penalty: i16,
    back_from_pdmi: bool,
    buy_ticket: bool,
    caught: bool,
    scene: Option<(GameState, TrainScene)>,
) -> bool {
    let p = before.player;
    let has_ticket = p.has_roundtrip_train_ticket;
    let no_money = p.money.0 < ticket_cost(back_from_pdmi);
    let bought = !has_ticket && !no_money && buy_ticket;
    let paid = if bought {
        GameState {
            player: Player {
                money: Money((p.money.0 - ticket_cost(back_from_pdmi)) as i16),
                has_roundtrip_train_ticket: true,
                ..p
            },
            ..before
        }
    } else {
        before
    };
    let hurt = health_decreased(paid, health_penalty, CauseOfDeath::CorpseFoundInTheTrain);
    &&& (has_ticket || bought) ==> !caught
    &&& has_ticket ==> scene is None
    &&& !has_ticket && no_money ==> scene == Some(
        (before, TrainScene::GatecrashBecauseNoMoney { caught_by_inspectors: caught }),
    )
    &&& !has_ticket && !no_money && !buy_ticket ==> scene == Some(
        (before, TrainScene::GatecrashByChoice { caught_by_inspectors: caught }),
    )
    &&& bought ==> scene == (if back_from_pdmi {
        None
    } else {
        Some((before, TrainScene::BoughtRoundTripTicket))
    })
    &&& after == (if caught && (no_money || back_from_pdmi) {
        health_decreased(hurt, 10, CauseOfDeath::KilledByInspectors)
    } else {
        hurt
    })
}

/// A ride in the train. A hero with a ticket rides quietly; one without
/// money for a ticket (or who chose, when asked, not to buy one, `buy_ticket`
/// false) rides without one and is caught by inspectors when his charisma
/// is below the next roll under ten (see `inspectors`); one who buys a
/// ticket pays for it (a round trip, to PDMI, is announced). The ride costs
/// `health_penalty`; being caught costs 10 more when there was no money or
/// the ride is back from PDMI. Returns whether the inspectors caught him and
/// what is to be shown, with the state as it was before the ride ended.
pub fn ride_train(
    rng: &mut Rng,
    state: &mut GameState,
    health_penalty: i16,
    back_from_pdmi: bool,
    buy_ticket: bool,
) -> (r: (bool, Option<(GameState, TrainScene)>))
    requires
        0 <= health_penalty < 10,
        -10000 <= old(state).player.health <= 10000,
        -10000 <= old(state).player.money.0 <= 10000,
    ensures
        rode_train(
            *old(state),
            *final(state),
            health_penalty,
            back_from_pdmi,
            buy_ticket,
            r.0,
            r.1,
        ),
        ({
            let p = old(state).player;
            let rides_free = !p.has_roundtrip_train_ticket && (p.money.0 < ticket_cost(
                back_from_pdmi,
            ) || !buy_ticket);
            &&& !rides_free ==> final(rng)@ == old(rng)@
            &&& rides_free ==> exists|roll: u64|
                #[trigger] bounded_draw(old(rng)@, 10, roll, final(rng)@) && roll < 10 && (r.0 <==> p.charisma
                    < roll)
        }),
{
    let cost = if back_from_pdmi {
        Money::one_way_train_ticket_cost()
    } else {
        Money::roundtrip_train_ticket_cost()
    };
    let no_money = state.player.money.0 < cost.0;
    let mut scene: Option<(GameState, TrainScene)> = None;
    let caught = if state.player.has_roundtrip_train_ticket() {
        false
    } else if no_money {
        let caught = inspectors(rng, state);
        scene = Some((*state, TrainScene::GatecrashBecauseNoMoney { caught_by_inspectors: caught }));
        caught
    } else if !buy_ticket {
        let caught = inspectors(rng, state);
        scene = Some((*state, TrainScene::GatecrashByChoice { caught_by_inspectors: caught }));
        caught
    } else {
        if !back_from_pdmi {
            scene = Some((*state, TrainScene::BoughtRoundTripTicket));
        }
        state.player.money = Money(state.player.money.0 - cost.0);
        state.player.set_has_roundtrip_train_ticket(true);
        false
    };
    decrease_health(state, health_penalty, CauseOfDeath::CorpseFoundInTheTrain);
    if caught && (no_money || back_from_pdmi) {
        decrease_health(state, 10, CauseOfDeath::KilledByInspectors);
    }
    (caught, scene)
}

/// Setting off to PDMI: after 20:00 there is no point (`None`, nothing
/// changes); otherwise the hero heads for PDMI and the ride's health cost is
/// rolled.
pub fn depart_to_pdmi(rng: &mut Rng, state: &mut GameState) -> (r: Option<i16>)
    ensures
        old(state).current_time.0 > 20 ==> r is None && *final(state) == *old(state),
        old(state).current_time.0 <= 20 ==> (r matches Some(penalty) && 0 <= penalty < 10
            && bounded_draw(old(rng)@, 10, penalty as u64, final(rng)@)
            && *final(state) == (GameState { location: Location::PDMI, ..*old(state) })),
{
    if state.current_time().0 > 20 {
        return None;
    }
    let penalty = train_health_penalty(rng);
    state.set_location(Location::PDMI);
    Some(penalty)
}

/// Arriving at PDMI: the ride took an hour, two when the inspectors caught
/// the hero.
pub fn arrive_at_pdmi(rng: &mut Rng, state: &mut GameState, caught_by_inspectors: bool) -> (r: Vec<
    GameScreen,
>)
    requires
        can_pass_an_hour(*old(state)),
        old(state).current_time.0 <= 20,
        old(state).location == Location::PDMI,
        -10000 <= old(state).player.health <= 10000,
    ensures
        !caught_by_inspectors ==> passed_an_hour(*old(state), *final(state), None, r@),
        caught_by_inspectors ==> exists|mid: GameState, k: int|
            0 <= k <= r@.len() && #[trigger] passed_an_hour(*old(state), mid, None, r@.take(k))
                && passed_an_hour(mid, *final(state), None, r@.skip(k)),
{
    if caught_by_inspectors {
        two_hours_pass(rng, state)
    } else {
        hour_pass(rng, state, None)
    }
}

/// Arriving in PUNK from PDMI: the ride took an hour, or two for a hero
/// without a ticket (even one the inspectors missed); the ticket is used up.
pub fn arrive_at_punk_from_pdmi(rng: &mut Rng, state: &mut GameState) -> (r: Vec<GameScreen>)
    requires
        can_pass_an_hour(*old(state)),
        -10000 <= old(state).player.health <= 10000,
        !old(state).player.has_roundtrip_train_ticket ==> old(state).current_time.0 < 23
            || old(state).current_day_index < 5,
    ensures
        !final(state).player.has_roundtrip_train_ticket,
        old(state).player.has_roundtrip_train_ticket ==> exists|rode: GameState|
            #[trigger] passed_an_hour(
                relocated(*old(state), Location::PUNK),
                rode,
                None,
                r@,
            ) && *final(state) == (GameState {
                player: Player { has_roundtrip_train_ticket: false, ..rode.player },
                ..rode
            }),
        !old(state).player.has_roundtrip_train_ticket ==> exists|mid: GameState, k: int|
            0 <= k <= r@.len() && #[trigger] passed_an_hour(
                relocated(*old(state), Location::PUNK),
                mid,
                None,
                r@.take(k),
            ) && passed_an_hour(mid, *final(state), None, r@.skip(k)),
{
    state.set_location(Location::PUNK);
    let ghost arrived = *state;
    assert(arrived == relocated(*old(state), Location::PUNK));
    let screens = if !state.player.has_roundtrip_train_ticket() {
        two_hours_pass(rng, state)
    } else {
        let screens = hour_pass(rng, state, None);
        assert(passed_an_hour(arrived, *state, None, screens@));
        screens
    };
    state.player.set_has_roundtrip_train_ticket(false);
    screens
}

} // verus!
