//! Мавзолей.

use crate::logic::actions::Action;
use crate::logic::cause_of_death::CauseOfDeath;
use crate::logic::characteristics::Money;
use crate::logic::game_screen::GameScreen;
use crate::logic::game_state::GameState;
use crate::logic::misc::{can_pass_an_hour, hour_pass, passed_an_hour};
use crate::logic::player::Player;
use crate::logic::scene_router::cafe::charisma_roll;
use crate::logic::npc::dice_rolled;
use crate::logic::scene_router::exams::roll_against;
use crate::random::Rng;
use vstd::prelude::*;

verus! {

/// The choices for a rest in the mausoleum: cola (4), soup (6) and beer (8)
/// as far as the money goes, resting without anything, and leaving.
pub open spec fn mausoleum_rest_actions_for(state: GameState) -> Seq<Action> {
    let money = state.player.money.0;
    (if money >= 4 {
        seq![Action::OrderCola]
    } else {
        seq![]
    }) + (if money >= 6 {
        seq![Action::OrderSoup]
    } else {
        seq![]
    }) + (if money >= 8 {
        seq![Action::OrderBeer]
    } else {
        seq![]
    }) + seq![Action::RestByOurselvesInMausoleum, Action::NoRestIsNoGood]
}

pub fn mausoleum_rest_actions(state: &GameState) -> (r: Vec<Action>)
    ensures
        r@ == mausoleum_rest_actions_for(*state),
{
    let money = state.player.money;
    let mut r: Vec<Action> = Vec::new();
    if money.0 >= Money::cola_cost().0 {
        r.push(Action::OrderCola);
    }
    let ghost a0 = r@;
    if money.0 >= Money::soup_cost().0 {
        r.push(Action::OrderSoup);
    }
    let ghost a1 = r@;
    if money.0 >= Money::beer_cost().0 {
        r.push(Action::OrderBeer);
    }
    let ghost a2 = r@;
    r.push(Action::RestByOurselvesInMausoleum);
    r.push(Action::NoRestIsNoGood);
    proof {
        assert(a1 =~= a0 + (if money.0 >= 6 {
            seq![Action::OrderSoup]
        } else {
            seq![]
        }));
        assert(a2 =~= a1 + (if money.0 >= 8 {
            seq![Action::OrderBeer]
        } else {
            seq![]
        }));
        assert(r@ =~= mausoleum_rest_actions_for(*state));
    }
    r
}

/// What resting in the mausoleum as `action` says did, from `before` to
/// `after`: cola adds 3 health and soup 5, each with a roll against
/// charisma, for their price; beer, for its price, may (each one time in
/// three) cost a point of brain, add one of charisma and two of stamina,
/// then adds a roll against the new charisma, and kills a hero left without
/// brain; resting alone adds a roll against charisma.
pub open spec fn rested_in_mausoleum(before: GameState, after: GameState, action: Action) -> bool {
    after == (GameState { player: after.player, ..before }) && rested_player(
        before.player,
        after.player,
        action,
    )
}

/// The hero's side of `rested_in_mausoleum`.
#[verifier::opaque]
pub open spec fn rested_player(p0: Player, p1: Player, action: Action) -> bool {
    let gain = p1.health - p0.health;
    &&& p1 == (Player {
        money: p1.money,
        health: p1.health,
        brain: p1.brain,
        charisma: p1.charisma,
        stamina: p1.stamina,
        cause_of_death: p1.cause_of_death,
        ..p0
    })
    &&& match action {
        Action::OrderCola => p1.money.0 == p0.money.0 - 4 && charisma_roll(
            p0.charisma as int,
            gain - 3,
        ) && p1.brain == p0.brain && p1.charisma == p0.charisma && p1.stamina == p0.stamina
            && p1.cause_of_death == p0.cause_of_death,
        Action::OrderSoup => p1.money.0 == p0.money.0 - 6 && charisma_roll(
            p0.charisma as int,
            gain - 5,
        ) && p1.brain == p0.brain && p1.charisma == p0.charisma && p1.stamina == p0.stamina
            && p1.cause_of_death == p0.cause_of_death,
        Action::OrderBeer => {
            &&& p1.money.0 == p0.money.0 - 8
            &&& (p1.brain == p0.brain || p1.brain == p0.brain - 1)
            &&& (p1.charisma == p0.charisma || p1.charisma == p0.charisma + 1)
            &&& (p1.stamina == p0.stamina || p1.stamina == p0.stamina + 2)
            &&& p1.brain <= 0 ==> p1.health == 0 && p1.cause_of_death == Some(
                CauseOfDeath::BeerAlcoholism,
            )
            &&& p1.brain > 0 ==> charisma_roll(p1.charisma as int, gain) && p1.cause_of_death
                == p0.cause_of_death
        },
        _ => p1.money == p0.money && charisma_roll(p0.charisma as int, gain) && p1.brain
            == p0.brain && p1.charisma == p0.charisma && p1.stamina == p0.stamina
            && p1.cause_of_death == p0.cause_of_death,
    }
}

/// Three dice of three, one after the other, from the generator state
/// `before` to `after`: `lost_brain`, `won_charisma` and `won_stamina` say
/// which came up one.
pub open spec fn beer_dice(before: u64, lost_brain: bool, won_charisma: bool, won_stamina: bool, after: u64) -> bool {
    exists|s1: u64, s2: u64|
        #[trigger] dice_rolled(before, s1, 3, lost_brain) && #[trigger] dice_rolled(
            s1,
            s2,
            3,
            won_charisma,
        ) && dice_rolled(s2, after, 3, won_stamina)
}

/// The draws of a rest in the mausoleum, from the generator state
/// `before_rng` to `after_rng`, as the hero went from `p0` to `p1`: for beer,
/// the three dice of `beer_dice` and then a roll against his charisma (which
/// the health gains, unless he drank himself to death); otherwise a roll
/// against his charisma, which the health gains besides the order's bonus.
pub open spec fn rest_drawn(before_rng: u64, p0: Player, p1: Player, action: Action, after_rng: u64) -> bool {
    if action == Action::OrderBeer {
        exists|lost: bool, won_c: bool, won_s: bool, s3: u64, roll: int|
            #![trigger beer_dice(before_rng, lost, won_c, won_s, s3), roll_against(s3, p1.charisma as int, roll, after_rng)]
            {
                &&& beer_dice(before_rng, lost, won_c, won_s, s3)
                &&& (lost <==> p1.brain == p0.brain - 1)
                &&& (won_c <==> p1.charisma == p0.charisma + 1)
                &&& (won_s <==> p1.stamina == p0.stamina + 2)
                &&& roll_against(s3, p1.charisma as int, roll, after_rng)
                &&& p1.brain > 0 ==> p1.health == p0.health + roll
            }
    } else {
        exists|roll: int|
            #[trigger] roll_against(before_rng, p0.charisma as int, roll, after_rng) && p1.health
                == p0.health + roll + (if action == Action::OrderCola {
                3int
            } else if action == Action::OrderSoup {
                5
            } else {
                0
            })
    }
}

#[verifier::rlimit(100)]
fn drink_beer(rng: &mut Rng, player: &mut Player)
    requires
        -10000 <= old(player).health <= 10000,
        -10000 <= old(player).money.0 <= 10000,
        -10000 <= old(player).brain <= 10000,
        -10000 <= old(player).charisma <= 10000,
        -10000 <= old(player).stamina <= 10000,
    ensures
        rested_player(*old(player), *final(player), Action::OrderBeer),
        final(player).health <= old(player).health + 10010,
        final(player).health >= 0 || final(player).health >= old(player).health,
        final(player).charisma <= old(player).charisma + 1,
        final(player).brain <= 0 ==> final(player).cause_of_death == Some(CauseOfDeath::BeerAlcoholism),
        rest_drawn(old(rng)@, *old(player), *final(player), Action::OrderBeer, final(rng)@),
{
    player.money = player.money.minus(Money::beer_cost());
    let (lost, won_c, won_s) = beer_rolls(rng);
    let ghost s3 = rng@;
    if lost {
        player.brain = player.brain - 1;
    }
    if won_c {
        player.charisma = player.charisma + 1;
    }
    if won_s {
        player.stamina = player.stamina + 2;
    }
    let roll = rng.random(player.charisma);
    assert(roll_against(s3, player.charisma as int, roll as int, rng@));
    player.health = player.health + roll;
    if player.brain <= 0 {
        player.health = 0;
        player.cause_of_death = Some(CauseOfDeath::BeerAlcoholism);
    }
    proof {
        reveal(rested_player);
        assert(beer_dice(old(rng)@, lost, won_c, won_s, s3));
        assert(lost <==> player.brain == old(player).brain - 1);
        assert(won_c <==> player.charisma == old(player).charisma + 1);
        assert(won_s <==> player.stamina == old(player).stamina + 2);
        assert(roll_against(s3, player.charisma as int, roll as int, rng@));
        assert(player.brain > 0 ==> player.health == old(player).health + roll);
        assert(rest_drawn(old(rng)@, *old(player), *player, Action::OrderBeer, rng@));
    }
}

fn beer_rolls(rng: &mut Rng) -> (r: (bool, bool, bool))
    ensures
        beer_dice(old(rng)@, r.0, r.1, r.2, final(rng)@),
{
    let lost = rng.roll_dice(3);
    let ghost s1 = rng@;
    let won_c = rng.roll_dice(3);
    let ghost s2 = rng@;
    let won_s = rng.roll_dice(3);
    assert(dice_rolled(old(rng)@, s1, 3, lost));
    assert(dice_rolled(s1, s2, 3, won_c));
    assert(dice_rolled(s2, rng@, 3, won_s));
    (lost, won_c, won_s)
}

fn take_rest(rng: &mut Rng, player: &mut Player, action: Action)
    requires
        action == Action::OrderCola || action == Action::OrderSoup || action == Action::OrderBeer
            || action == Action::RestByOurselvesInMausoleum,
        -10000 <= old(player).health <= 10000,
        -10000 <= old(player).money.0 <= 10000,
        -10000 <= old(player).brain <= 10000,
        -10000 <= old(player).charisma <= 10000,
        -10000 <= old(player).stamina <= 10000,
    ensures
        rested_player(*old(player), *final(player), action),
        final(player).health <= old(player).health + 10010,
        final(player).health >= 0 || final(player).health >= old(player).health,
        final(player).charisma <= old(player).charisma + 1,
        action == Action::OrderBeer && final(player).brain <= 0 ==> final(player).cause_of_death
            == Some(CauseOfDeath::BeerAlcoholism),
        rest_drawn(old(rng)@, *old(player), *final(player), action, final(rng)@),
{
    if action == Action::OrderBeer {
        drink_beer(rng, player);
        return;
    }
    let bonus: i16 = if action == Action::OrderCola {
        player.money = Money(player.money.0 - Money::cola_cost().0);
        3
    } else if action == Action::OrderSoup {
        player.money = Money(player.money.0 - Money::soup_cost().0);
        5
    } else {
        0
    };
    let roll = rng.random(player.charisma);
    assert(roll_against(old(rng)@, old(player).charisma as int, roll as int, rng@));
    player.health = player.health + roll + bonus;
    proof {
        reveal(rested_player);
    }
}

/// A rest in the mausoleum (see `rested_in_mausoleum`), then an hour
/// passes; leaving without rest changes nothing, and a hero who drank
/// himself to death has no hour left.
pub fn rest_in_mausoleum(rng: &mut Rng, state: &mut GameState, action: Action) -> (r: Vec<
    GameScreen,
>)
    requires
        mausoleum_rest_actions_for(*old(state)).contains(action),
        old(state).in_range(),
        can_pass_an_hour(*old(state)),
    ensures
        action == Action::NoRestIsNoGood ==> r@.len() == 0 && *final(state) == *old(state),
        action != Action::NoRestIsNoGood ==> exists|rested: GameState|
            #[trigger] rested_in_mausoleum(*old(state), rested, action) && (exists|drawn: u64|
                #[trigger] rest_drawn(old(rng)@, old(state).player, rested.player, action, drawn))
                && if action
                == Action::OrderBeer && rested.player.brain <= 0 {
                r@.len() == 0 && *final(state) == rested
            } else {
                passed_an_hour(rested, *final(state), None, r@)
            },
{
    if action == Action::NoRestIsNoGood {
        return Vec::new();
    }
    take_rest(rng, &mut state.player, action);
    let ghost rested = *state;
    let ghost drawn = rng@;
    assert(rest_drawn(old(rng)@, old(state).player, rested.player, action, drawn));
    assert(rested_in_mausoleum(*old(state), rested, action));
    if action == Action::OrderBeer && state.player.brain <= 0 {
        return Vec::new();
    }
    let r = hour_pass(rng, state, None);
    assert(passed_an_hour(rested, *state, None, r@));
    r
}

} // verus!
