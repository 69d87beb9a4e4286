//! Работа в ТЕРКОМе.

use crate::logic::actions::Action;
use crate::logic::cause_of_death::CauseOfDeath;
use crate::logic::characteristics::Money;
use crate::logic::game_screen::GameScreen;
use crate::logic::game_state::GameState;
use crate::logic::misc::{can_pass_an_hour, decrease_health, health_decreased, hour_pass, passed_an_hour};
use crate::logic::player::Player;
use crate::logic::scene_router::exams::roll_against;
use crate::random::{bounded_draw, Rng};
use vstd::prelude::*;

verus! {

#[derive(Debug, Clone, Copy, Eq, PartialEq, Structural)]
pub enum Terkom {
    SorryNoFreeComputers { hiccup: u8 },
    AgainNoFreeComputers { hiccup: u8 },
    Prompt,
    YouEarnedByWorking { income: Money, hiccup: u8 },
    YouEarnedBySurfingInternet { income: Money, hiccup: u8 },
    MmheroesPhase1 { hiccup: u8 },
    MmheroesPhase2 { hiccup: u8 },
    Leaving { hiccup: u8 },
    EndOfWorkDay { hiccup: u8 },
}

/// How badly the TERKOM clerk hiccups at `hour`: 5 before 10:00, then 4,
/// 3 and 2 until 14:00, 16:00 and 18:00, and 1 after. The smaller the
/// number, the more often he hiccups.
pub open spec fn hiccup_at(hour: int) -> u8 {
    if hour < 10 {
        5
    } else if hour < 14 {
        4
    } else if hour < 16 {
        3
    } else if hour < 18 {
        2
    } else {
        1
    }
}

/// Икота сотрудника ТЕРКОМа. Чем меньше число, тем чаще он икает. Чем ближе
/// конец дня, тем сильнее икота.
pub fn hiccup(state: &GameState) -> (r: u8)
    ensures
        r == hiccup_at(state.current_time.0 as int),
{
    let hour = state.current_time().0;
    if hour < 10 {
        5
    } else if hour < 14 {
        4
    } else if hour < 16 {
        3
    } else if hour < 18 {
        2
    } else {
        1
    }
}

/// Starting from `income` and the generator state `before`, the income is
/// drawn down, from 2 to two below it, while it is more than 4; it ends as
/// `result`, the generator in `after`.
pub open spec fn income_rerolled(before: u64, income: int, result: int, after: u64) -> bool
    decreases income,
{
    if income <= 4 {
        result == income && after == before
    } else {
        exists|v: u64, mid: u64|
            #[trigger] bounded_draw(before, (income - 3) as u64, v, mid) && v < income - 3
                && income_rerolled(mid, v + 2, result, after)
    }
}

/// The draws of an hour at TERKOM, from the generator state `before`: a
/// roll below the hero's brain and charisma, a roll below that, one more,
/// then drawn down while more than 4 (see `income_rerolled`).
pub open spec fn income_drawn(before: u64, player: Player, result: int, after: u64) -> bool {
    exists|first: int, second: int, s1: u64, s2: u64|
        #[trigger] roll_against(before, player.brain + player.charisma, first, s1) && #[trigger] roll_against(
            s1,
            first,
            second,
            s2,
        ) && income_rerolled(s2, second + 1, result, after)
}

/// The most an hour at TERKOM can bring the hero: one less than his brain
/// and charisma together, but at least 1.
pub open spec fn income_cap(player: Player) -> int {
    if player.brain + player.charisma - 1 > 1 {
        player.brain + player.charisma - 1
    } else {
        1
    }
}

/// The money that an hour at TERKOM brings: a roll below a roll below the
/// hero's brain and charisma, plus one, rerolled down while more than 4.
pub fn earned_money(rng: &mut Rng, player: &Player) -> (r: Money)
    requires
        -10000 <= player.brain <= 10000,
        -10000 <= player.charisma <= 10000,
    ensures
        1 <= r.0 <= 4,
        player.brain + player.charisma <= 1 ==> r.0 == 1,
        r.0 <= income_cap(*player),
        income_drawn(old(rng)@, *player, r.0 as int, final(rng)@),
{
    let first = rng.random(player.brain + player.charisma);
    let ghost s1 = rng@;
    let second = rng.random(first);
    let ghost s2 = rng@;
    let mut income = second + 1;
    let ghost start = income as int;
    while income > 4
        invariant
            1 <= income,
            player.brain + player.charisma <= 1 ==> income == 1,
            income <= income_cap(*player),
            forall|res: int, aft: u64|
                income_rerolled(rng@, income as int, res, aft) ==> #[trigger] income_rerolled(
                    s2,
                    start,
                    res,
                    aft,
                ),
        decreases income,
    {
        let ghost prev = rng@;
        let ghost prev_income = income as int;
        income = rng.random_in_range(2, income - 1);
        proof {
            assert forall|res: int, aft: u64|
                income_rerolled(rng@, income as int, res, aft) implies #[trigger] income_rerolled(
                    s2,
                    start,
                    res,
                    aft,
                ) by {
                assert(bounded_draw(prev, (prev_income - 3) as u64, (income - 2) as u64, rng@));
                assert(income_rerolled(prev, prev_income, res, aft));
            }
        }
    }
    proof {
        assert(income_rerolled(rng@, income as int, income as int, rng@));
        assert(roll_against(old(rng)@, player.brain + player.charisma, first as int, s1));
        assert(roll_against(s1, first as int, second as int, s2));
    }
    Money(income)
}

/// Coming to work at TERKOM. With no free computers left today, or when two
/// of three times there are none now (and then none for the rest of the
/// hour), the hero is sent away with the returned screen; otherwise he may
/// work (`None`).
pub fn enter_terkom(rng: &mut Rng, state: &mut GameState) -> (r: Option<GameScreen>)
    ensures
        !old(state).terkom_has_places ==> *final(state) == *old(state) && r == Some(
            GameScreen::Terkom(
                *old(state),
                Terkom::AgainNoFreeComputers { hiccup: hiccup_at(old(state).current_time.0 as int) },
            ),
        ),
        old(state).terkom_has_places ==> (r == Some(
            GameScreen::Terkom(
                *old(state),
                Terkom::SorryNoFreeComputers { hiccup: hiccup_at(old(state).current_time.0 as int) },
            ),
        ) && *final(state) == (GameState { terkom_has_places: false, ..*old(state) })) || (r
            is None && *final(state) == *old(state)),
        !old(state).terkom_has_places ==> final(rng)@ == old(rng)@,
        old(state).terkom_has_places ==> exists|v: u64|
            #[trigger] bounded_draw(old(rng)@, 3, v, final(rng)@) && v < 3 && (r is None <==> v == 0),
{
    if !state.terkom_has_places() {
        return Some(GameScreen::Terkom(*state, Terkom::AgainNoFreeComputers { hiccup: hiccup(state) }));
    }
    let roll = rng.random(3);
    assert(bounded_draw(old(rng)@, 3, roll as u64, rng@));
    if roll > 0 {
        let screen = GameScreen::Terkom(*state, Terkom::SorryNoFreeComputers { hiccup: hiccup(state) });
        state.set_terkom_has_places(false);
        return Some(screen);
    }
    None
}

/// What may be done at TERKOM: work, play MMHEROES (with the floppy), surf
/// the Internet (with access), leave.
pub open spec fn terkom_actions_for(state: GameState) -> Seq<Action> {
    let a = seq![Action::EarnAtTerkom];
    let b = if state.player.has_mmheroes_floppy {
        a.push(Action::PlayMMHEROES)
    } else {
        a
    };
    let c = if state.player.has_internet {
        b.push(Action::SurfInternetAtTerkom)
    } else {
        b
    };
    c.push(Action::ExitTerkom)
}

pub fn terkom_actions(state: &GameState) -> (r: Vec<Action>)
    ensures
        r@ == terkom_actions_for(*state),
{
    let mut r: Vec<Action> = Vec::new();
    r.push(Action::EarnAtTerkom);
    if state.player.has_mmheroes_floppy() {
        r.push(Action::PlayMMHEROES);
    }
    if state.player.has_internet() {
        r.push(Action::SurfInternetAtTerkom);
    }
    r.push(Action::ExitTerkom);
    r
}

/// What an hour at TERKOM gave, from `before` to `after`: the `income`, and
/// for work (not for surfing the Internet) twice that in health.
pub open spec fn terkom_earned(before: GameState, after: GameState, action: Action, income: Money) -> bool {
    let paid = GameState {
        player: Player { money: Money((before.player.money.0 + income.0) as i16), ..before.player },
        ..before
    };
    &&& 1 <= income.0 <= 4
    &&& income.0 <= income_cap(before.player)
    &&& after == (if action == Action::EarnAtTerkom {
        health_decreased(paid, (income.0 * 2) as i16, CauseOfDeath::Burnout)
    } else {
        paid
    })
}

/// Work at TERKOM is paid in health, the Internet is not: after an hour of
/// work the hero has his income more money and twice the income less
/// health (dying of burnout when none is left); after an hour of surfing
/// the Internet he has the income more money and the same health.
pub proof fn lemma_work_costs_twice_the_income(
    before: GameState,
    after: GameState,
    action: Action,
    income: Money,
)
    requires
        terkom_earned(before, after, action, income),
        -10000 <= before.player.health <= 10000,
        -10000 <= before.player.money.0 <= 10000,
    ensures
        after.player.money.0 == before.player.money.0 + income.0,
        action == Action::EarnAtTerkom ==> after.player.health == before.player.health - 2 * income.0
            && (after.player.health <= 0 ==> after.player.cause_of_death == Some(
            CauseOfDeath::Burnout,
        )),
        action != Action::EarnAtTerkom ==> after.player.health == before.player.health
            && after.player.cause_of_death == before.player.cause_of_death,
        after.current_time == before.current_time,
        after.location == before.location,
{
}

fn earn_at_terkom(rng: &mut Rng, state: &mut GameState, action: Action, hiccup: u8) -> (r: (
    GameScreen,
    Money,
))
    requires
        action == Action::EarnAtTerkom || action == Action::SurfInternetAtTerkom,
        old(state).in_range(),
    ensures
        terkom_earned(*old(state), *final(state), action, r.1),
        income_drawn(old(rng)@, old(state).player, r.1.0 as int, final(rng)@),
        r.0 == (if action == Action::EarnAtTerkom {
            GameScreen::Terkom(*old(state), Terkom::YouEarnedByWorking { income: r.1, hiccup })
        } else {
            GameScreen::Terkom(*old(state), Terkom::YouEarnedBySurfingInternet { income: r.1, hiccup })
        }),
        final(state).current_time == old(state).current_time,
        final(state).current_day_index == old(state).current_day_index,
        final(state).location == old(state).location,
        final(state).classmates == old(state).classmates,
        final(state).player.charisma == old(state).player.charisma,
        old(state).player.health - 8 <= final(state).player.health <= old(state).player.health,
{
    let income = earned_money(rng, &state.player);
    let screen = if action == Action::EarnAtTerkom {
        GameScreen::Terkom(*state, Terkom::YouEarnedByWorking { income, hiccup })
    } else {
        GameScreen::Terkom(*state, Terkom::YouEarnedBySurfingInternet { income, hiccup })
    };
    state.player.money = Money(state.player.money.0 + income.0);
    if action == Action::EarnAtTerkom {
        decrease_health(state, income.0 * 2, CauseOfDeath::Burnout);
    }
    (screen, income)
}

/// One choice at TERKOM, made at the given `hiccup`. Working earns what the
/// draws give (see `income_drawn`: 1 to 4, at most `income_cap`) and costs
/// twice that in health and an hour; surfing the Internet earns
/// as much without the health; MMHEROES is two screens and no time;
/// leaving ends the work. Returns the screens and whether the work is over:
/// after leaving, or when TERKOM closes (an end-of-day screen follows).
pub fn terkom_step(rng: &mut Rng, state: &mut GameState, action: Action, hiccup: u8) -> (r: (
    Vec<GameScreen>,
    bool,
))
    requires
        action == Action::EarnAtTerkom || action == Action::PlayMMHEROES || action
            == Action::SurfInternetAtTerkom || action == Action::ExitTerkom,
        can_pass_an_hour(*old(state)),
        old(state).in_range(),
    ensures
        action == Action::ExitTerkom ==> r.1 && *final(state) == *old(state) && r.0@ == seq![
            GameScreen::Terkom(*old(state), Terkom::Leaving { hiccup }),
        ],
        action != Action::ExitTerkom ==> r.1 == (final(state).current_time.0 >= 19),
        action != Action::ExitTerkom && r.1 ==> r.0@.len() >= 1 && r.0@.last() == GameScreen::Terkom(
            *final(state),
            Terkom::EndOfWorkDay { hiccup },
        ),
        action == Action::PlayMMHEROES ==> *final(state) == *old(state) && r.0@.len() >= 2
            && r.0@[0] == GameScreen::Terkom(*old(state), Terkom::MmheroesPhase1 { hiccup })
            && r.0@[1] == GameScreen::Terkom(*old(state), Terkom::MmheroesPhase2 { hiccup }),
        action == Action::EarnAtTerkom || action == Action::SurfInternetAtTerkom ==> exists|
            income: Money,
            worked: GameState,
        |
            #[trigger] terkom_earned(*old(state), worked, action, income) && (exists|drawn: u64|
                #[trigger] income_drawn(old(rng)@, old(state).player, income.0 as int, drawn))
                && r.0@.len() >= 1
                && r.0@[0] == (if action == Action::EarnAtTerkom {
                GameScreen::Terkom(*old(state), Terkom::YouEarnedByWorking { income, hiccup })
            } else {
                GameScreen::Terkom(
                    *old(state),
                    Terkom::YouEarnedBySurfingInternet { income, hiccup },
                )
            }) && passed_an_hour(
                worked,
                *final(state),
                None,
                r.0@.subrange(1, r.0@.len() - (if r.1 { 1int } else { 0 })),
            ),
{
    let mut screens: Vec<GameScreen> = Vec::new();
    if action == Action::ExitTerkom {
        screens.push(GameScreen::Terkom(*state, Terkom::Leaving { hiccup }));
        return (screens, true);
    }
    let ghost mut worked = *state;
    let ghost mut income = Money(0);
    let ghost mut hour: Seq<GameScreen> = seq![];
    if action == Action::PlayMMHEROES {
        screens.push(GameScreen::Terkom(*state, Terkom::MmheroesPhase1 { hiccup }));
        screens.push(GameScreen::Terkom(*state, Terkom::MmheroesPhase2 { hiccup }));
    } else {
        let (screen, earned) = earn_at_terkom(rng, state, action, hiccup);
        assert(income_drawn(old(rng)@, old(state).player, earned.0 as int, rng@));
        screens.push(screen);
        proof {
            worked = *state;
            income = earned;
        }
        let mut more = hour_pass(rng, state, None);
        proof {
            hour = more@;
        }
        screens.append(&mut more);
    }
    let ghost before_end = screens@;
    let done = state.current_time().0 >= 19;
    if done {
        screens.push(GameScreen::Terkom(*state, Terkom::EndOfWorkDay { hiccup }));
    }
    proof {
        if action != Action::PlayMMHEROES {
            assert(screens@.subrange(1, screens@.len() - (if done { 1int } else { 0 })) =~= hour);
            assert(terkom_earned(*old(state), worked, action, income));
            assert(passed_an_hour(worked, *state, None, hour));
        }
    }
    (screens, done)
}

} // verus!
