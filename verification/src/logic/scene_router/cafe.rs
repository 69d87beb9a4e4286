//! Кафе в ПУНКе и в ПОМИ.

use crate::logic::actions::Action;
use crate::logic::characteristics::{HealthLevel, Money};
use crate::logic::game_screen::GameScreen;
use crate::logic::game_state::GameState;
use crate::logic::misc::{can_pass_an_hour, hour_pass, passed_an_hour};
use crate::logic::player::Player;
use crate::logic::scene_router::exams::roll_against;
use crate::random::Rng;
use vstd::prelude::*;

verus! {

/// What a cafe offers: an order, what it costs and how much health it adds,
/// plus resting without an order and leaving.
#[derive(Debug, Clone, Copy)]
pub struct CafeMenu {
    pub items: [(Action, Money, HealthLevel); 3],
    pub rest: Action,
    pub exit: Action,
}

impl CafeMenu {
    /// The menu's actions are all different.
    pub open spec fn wf(self) -> bool {
        &&& forall|i: int, j: int|
            0 <= i < j < 3 ==> (#[trigger] self.items[i]).0 != (#[trigger] self.items[j]).0
        &&& forall|i: int| 0 <= i < 3 ==> (#[trigger] self.items[i]).0 != self.rest
        &&& forall|i: int| 0 <= i < 3 ==> (#[trigger] self.items[i]).0 != self.exit
        &&& self.rest != self.exit
        &&& forall|i: int| 0 <= i < 3 ==> 0 <= (#[trigger] self.items[i]).1.0 <= 100
        &&& forall|i: int| 0 <= i < 3 ==> 0 <= (#[trigger] self.items[i]).2 <= 100
    }
}

/// The cafe in PUNK: tea (2 health), a cake (4) or both (7).
pub fn punk_cafe_menu() -> (r: CafeMenu)
    ensures
        r.wf(),
        r.items@ == seq![
            (Action::OrderTea, Money(2), 2i16),
            (Action::OrderCake, Money(4), 4i16),
            (Action::OrderTeaWithCake, Money(6), 7i16),
        ],
        r.rest == Action::RestInCafePUNK,
        r.exit == Action::ShouldntHaveComeToCafePUNK,
{
    CafeMenu {
        items: [
            (Action::OrderTea, Money::drink_cost(), 2),
            (Action::OrderCake, Money::pastry_cost(), 4),
            (Action::OrderTeaWithCake, Money::drink_with_pastry_cost(), 7),
        ],
        rest: Action::RestInCafePUNK,
        exit: Action::ShouldntHaveComeToCafePUNK,
    }
}

/// The cafe in PDMI: coffee (3 health), a pastry (6) or both (10).
pub fn pdmi_cafe_menu() -> (r: CafeMenu)
    ensures
        r.wf(),
        r.items@ == seq![
            (Action::OrderCoffee, Money(2), 3i16),
            (Action::OrderPastry, Money(4), 6i16),
            (Action::OrderCoffeeWithPastry, Money(6), 10i16),
        ],
        r.rest == Action::RestInCafePDMI,
        r.exit == Action::LeaveCafePDMI,
{
    CafeMenu {
        items: [
            (Action::OrderCoffee, Money::drink_cost(), 3),
            (Action::OrderPastry, Money::pastry_cost(), 6),
            (Action::OrderCoffeeWithPastry, Money::drink_with_pastry_cost(), 10),
        ],
        rest: Action::RestInCafePDMI,
        exit: Action::LeaveCafePDMI,
    }
}

/// The orders the hero can pay for, in the menu's order, then resting and
/// leaving.
pub open spec fn cafe_actions_for(state: GameState, menu: CafeMenu) -> Seq<Action> {
    menu.items@.filter(|item: (Action, Money, HealthLevel)| state.player.money.0 >= item.1.0).map_values(
        |item: (Action, Money, HealthLevel)| item.0,
    ).push(menu.rest).push(menu.exit)
}

pub fn cafe_actions(state: &GameState, menu: &CafeMenu) -> (r: Vec<Action>)
    ensures
        r@ == cafe_actions_for(*state, *menu),
{
    let mut r: Vec<Action> = Vec::new();
    let mut i: usize = 0;
    while i < 3
        invariant
            i <= 3,
            r@ == menu.items@.take(i as int).filter(
                |item: (Action, Money, HealthLevel)| state.player.money.0 >= item.1.0,
            ).map_values(|item: (Action, Money, HealthLevel)| item.0),
        decreases 3 - i,
    {
        proof {
            reveal_with_fuel(Seq::filter, 1);
            assert(menu.items@.take(i + 1).drop_last() =~= menu.items@.take(i as int));
        }
        let item = menu.items[i];
        if state.player.money.0 >= item.1.0 {
            r.push(item.0);
        }
        i = i + 1;
    }
    assert(menu.items@.take(3) =~= menu.items@);
    r.push(menu.rest);
    r.push(menu.exit);
    r
}

/// A roll against the hero's charisma (nothing without charisma).
pub open spec fn charisma_roll(charisma: int, roll: int) -> bool {
    if charisma > 0 {
        0 <= roll < charisma
    } else {
        roll == 0
    }
}

/// The hero, from `before` to `after`, got what `selected` in the cafe
/// gives: the health of the order (nothing for resting) and `roll`, a roll
/// against his charisma, for the order's price.
pub open spec fn fed_in_cafe(
    before: GameState,
    after: GameState,
    menu: CafeMenu,
    selected: Action,
    roll: int,
) -> bool {
    let gain = after.player.health - before.player.health;
    &&& after == (GameState {
        player: Player {
            money: after.player.money,
            health: after.player.health,
            ..before.player
        },
        ..before
    })
    &&& charisma_roll(before.player.charisma as int, roll)
    &&& selected == menu.rest ==> after.player.money == before.player.money && gain == roll
    &&& forall|i: int|
        0 <= i < 3 && (#[trigger] menu.items[i]).0 == selected ==> after.player.money.0
            == before.player.money.0 - menu.items[i].1.0 && gain - menu.items[i].2 == roll
}

/// An order offered to the hero is one he can pay for.
proof fn lemma_ordered_item_affordable(state: GameState, menu: CafeMenu, selected: Action, i: int)
    requires
        menu.wf(),
        cafe_actions_for(state, menu).contains(selected),
        0 <= i < 3,
        menu.items[i].0 == selected,
    ensures
        state.player.money.0 >= menu.items[i].1.0,
{
    broadcast use vstd::seq_lib::group_filter_ensures;

    let pred = |item: (Action, Money, HealthLevel)| state.player.money.0 >= item.1.0;
    let items = menu.items@.filter(pred);
    let all = cafe_actions_for(state, menu);
    let k = all.index_of(selected);
    assert(selected != menu.rest && selected != menu.exit);
    assert(k < items.len());
    assert(items.map_values(|item: (Action, Money, HealthLevel)| item.0)[k] == selected);
    assert(items.contains(items[k]));
    menu.items@.lemma_filter_contains_rev(pred, items[k]);
    let m = menu.items@.index_of(items[k]);
    assert(menu.items[m].0 == selected);
    if m != i {
        if m < i {
            assert(menu.items[m].0 != menu.items[i].0);
        } else {
            assert(menu.items[i].0 != menu.items[m].0);
        }
    }
    assert(pred(items[k]));
}

/// The hero made his choice in the cafe. A roll against his charisma is
/// drawn whatever he chose; leaving ends the visit at once. An order is paid
/// for and adds its health and the roll; resting adds the roll alone; then
/// an hour passes.
pub fn visit_cafe(rng: &mut Rng, state: &mut GameState, menu: &CafeMenu, selected: Action) -> (r:
    Vec<GameScreen>)
    requires
        menu.wf(),
        cafe_actions_for(*old(state), *menu).contains(selected),
        can_pass_an_hour(*old(state)),
        old(state).in_range(),
    ensures
        old(state).player.money.0 >= 0 ==> final(state).player.money.0 >= 0,
        selected == menu.exit ==> r@.len() == 0 && *final(state) == *old(state),
        exists|roll: int, drawn: u64|
            #[trigger] roll_against(old(rng)@, old(state).player.charisma as int, roll, drawn) && (
            selected == menu.exit ==> final(rng)@ == drawn) && (selected != menu.exit ==> exists|
                fed: GameState,
            |
                #[trigger] passed_an_hour(fed, *final(state), None, r@) && fed_in_cafe(
                    *old(state),
                    fed,
                    *menu,
                    selected,
                    roll,
                )),
{
    let roll = rng.random(state.player.charisma);
    let ghost drawn = rng@;
    assert(roll_against(old(rng)@, old(state).player.charisma as int, roll as int, drawn));
    if selected == menu.exit {
        return Vec::new();
    }
    let i: usize = if menu.items[0].0 == selected {
        0
    } else if menu.items[1].0 == selected {
        1
    } else if menu.items[2].0 == selected {
        2
    } else {
        3
    };
    if i < 3 {
        let item = menu.items[i];
        state.player.money = Money(state.player.money.0 - item.1.0);
        state.player.health = state.player.health + roll + item.2;
    } else {
        state.player.health = state.player.health + roll;
    }
    let ghost fed = *state;
    proof {
        if i < 3 {
            assert(menu.items[i as int].0 == selected);
            assert forall|j: int| 0 <= j < 3 && (#[trigger] menu.items[j]).0 == selected implies j
                == i by {
                if j != i {
                    if j < i {
                        assert((menu.items[j]).0 != (menu.items[i as int]).0);
                    } else {
                        assert((menu.items[i as int]).0 != (menu.items[j]).0);
                    }
                }
            }
            lemma_ordered_item_affordable(*old(state), *menu, selected, i as int);
        } else {
            assert(selected != menu.exit);
            assert(cafe_actions_for(*old(state), *menu).contains(selected));
            let items = menu.items@.filter(
                |item: (Action, Money, HealthLevel)| old(state).player.money.0 >= item.1.0,
            );
            let k = cafe_actions_for(*old(state), *menu).index_of(selected);
            if k < items.len() {
                assert(items.map_values(|item: (Action, Money, HealthLevel)| item.0)[k] == selected);
                assert(items.contains(items[k]));
                menu.items@.lemma_filter_contains_rev(
                    |item: (Action, Money, HealthLevel)| old(state).player.money.0 >= item.1.0,
                    items[k],
                );
                let m = menu.items@.index_of(items[k]);
                assert(menu.items[m].0 == selected);
                assert(false);
            }
            assert(selected == menu.rest);
        }
    }
    assert(fed_in_cafe(*old(state), fed, *menu, selected, roll as int));
    let r = hour_pass(rng, state, None);
    assert(passed_an_hour(fed, *state, None, r@));
    r
}

} // verus!
