//! Паша — староста: раздаёт стипендию и воодушевляет.


use crate::logic::characteristics::Money;
use crate::logic::game_screen::GameScreen;
use crate::logic::game_state::GameState;
use crate::logic::player::Player;
use crate::logic::subjects::Subject;
use crate::logic::subject_status::SubjectStatus;
use crate::random::{bounded_draw, Rng};
use vstd::prelude::*;

verus! {

#[derive(Debug, Copy, Clone, Eq, PartialEq, Structural)]
pub enum PashaInteraction {
    /// "Паша вручает тебе твою стипуху за май: 50 руб."
    Stipend,

    /// "Паша воодушевляет тебя на великие дела."
    Inspiration,
}

/// Going through the first `n` subjects in order, each knowledge above 3
/// dropped from `olds` to `news` by the next roll below 3, taking the
/// generator from `before` to `after`.
pub open spec fn forgot_a_little(
    before: u64,
    olds: Seq<SubjectStatus>,
    news: Seq<SubjectStatus>,
    n: int,
    after: u64,
) -> bool
    decreases n,
{
    if n <= 0 {
        after == before
    } else if olds[n - 1].knowledge > 3 {
        exists|mid: u64|
            forgot_a_little(before, olds, news, n - 1, mid) && #[trigger] bounded_draw(
                mid,
                3,
                (olds[n - 1].knowledge - news[n - 1].knowledge) as u64,
                after,
            )
    } else {
        forgot_a_little(before, olds, news, n - 1, after)
    }
}

proof fn lemma_forgot_a_little_prefix(
    before: u64,
    olds: Seq<SubjectStatus>,
    news: Seq<SubjectStatus>,
    other: Seq<SubjectStatus>,
    n: int,
    after: u64,
)
    requires
        forgot_a_little(before, olds, news, n, after),
        forall|j: int| 0 <= j < n ==> news[j] == other[j],
    ensures
        forgot_a_little(before, olds, other, n, after),
    decreases n,
{
    reveal_with_fuel(forgot_a_little, 2);
    if n > 0 {
        if olds[n - 1].knowledge > 3 {
            assert(exists|mid: u64|
                forgot_a_little(before, olds, news, n - 1, mid) && #[trigger] bounded_draw(
                    mid,
                    3,
                    (olds[n - 1].knowledge - news[n - 1].knowledge) as u64,
                    after,
                ));
            let mid = choose|mid: u64|
                forgot_a_little(before, olds, news, n - 1, mid) && #[trigger] bounded_draw(
                    mid,
                    3,
                    (olds[n - 1].knowledge - news[n - 1].knowledge) as u64,
                    after,
                );
            lemma_forgot_a_little_prefix(before, olds, news, other, n - 1, mid);
            assert(news[n - 1] == other[n - 1]);
        } else {
            lemma_forgot_a_little_prefix(before, olds, news, other, n - 1, after);
        }
    }
}

/// Each knowledge above 3, in order, drops by the next roll below 3.
fn forget_a_little(rng: &mut Rng, subjects: &mut [crate::logic::subject_status::SubjectStatus; 6])
    ensures
        forall|i: int|
            0 <= i < 6 ==> {
                let k0 = old(subjects)[i].knowledge;
                let k1 = (#[trigger] final(subjects)[i]).knowledge;
                &&& final(subjects)[i] == crate::logic::subject_status::SubjectStatus {
                    knowledge: k1,
                    ..old(subjects)[i]
                }
                &&& k0 > 3 ==> k0 - 2 <= k1 <= k0
                &&& k0 <= 3 ==> k1 == k0
            },
        forgot_a_little(old(rng)@, old(subjects)@, final(subjects)@, 6, final(rng)@),
{
    let mut i: usize = 0;
    while i < 6
        invariant
            i <= 6,
            forall|j: int| i <= j < 6 ==> #[trigger] subjects[j] == old(subjects)[j],
            forall|j: int|
                0 <= j < i ==> {
                    let k0 = old(subjects)[j].knowledge;
                    let k1 = (#[trigger] subjects[j]).knowledge;
                    &&& subjects[j] == crate::logic::subject_status::SubjectStatus {
                        knowledge: k1,
                        ..old(subjects)[j]
                    }
                    &&& k0 > 3 ==> k0 - 2 <= k1 <= k0
                    &&& k0 <= 3 ==> k1 == k0
                },
            forgot_a_little(old(rng)@, old(subjects)@, subjects@, i as int, rng@),
        decreases 6 - i,
    {
        let knowledge = subjects[i].knowledge;
        let ghost mid = rng@;
        let ghost prior = subjects@;
        if knowledge > 3 {
            let mut status = subjects[i];
            let roll = rng.random(3);
            status.knowledge = knowledge - roll;
            subjects[i] = status;
            assert(bounded_draw(
                mid,
                3,
                (old(subjects)@[i as int].knowledge - subjects@[i as int].knowledge) as u64,
                rng@,
            ));
        }
        proof {
            lemma_forgot_a_little_prefix(old(rng)@, old(subjects)@, prior, subjects@, i as int, mid);
        }
        i = i + 1;
    }
}

/// Pasha, the head of the group, hands out the stipend (50) to a hero who
/// has not got it yet, and otherwise inspires him: a point of stamina, and
/// the knowledge of each subject above 3 drops by the next roll below 3 (see
/// `forgot_a_little`).
pub fn interact_with_pasha(rng: &mut Rng, state: &mut GameState) -> (r: Vec<GameScreen>)
    requires
        old(state).in_range(),
    ensures
        !old(state).player.got_stipend ==> r@ == seq![
            GameScreen::PashaInteraction(*old(state), PashaInteraction::Stipend),
        ] && *final(state) == (GameState {
            player: Player {
                got_stipend: true,
                money: Money((old(state).player.money.0 + 50) as i16),
                ..old(state).player
            },
            ..*old(state)
        }),
        old(state).player.got_stipend ==> r@ == seq![
            GameScreen::PashaInteraction(*old(state), PashaInteraction::Inspiration),
        ] && *final(state) == (GameState {
            player: Player {
                stamina: (old(state).player.stamina + 1) as i16,
                subjects: final(state).player.subjects,
                ..old(state).player
            },
            ..*old(state)
        }) && forall|i: int|
            0 <= i < 6 ==> {
                let k0 = old(state).player.subjects[i].knowledge;
                let k1 = (#[trigger] final(state).player.subjects[i]).knowledge;
                &&& final(state).player.subjects[i] == crate::logic::subject_status::SubjectStatus {
                    knowledge: k1,
                    ..old(state).player.subjects[i]
                }
                &&& k0 > 3 ==> k0 - 2 <= k1 <= k0
                &&& k0 <= 3 ==> k1 == k0
            },
        !old(state).player.got_stipend ==> final(rng)@ == old(rng)@,
        old(state).player.got_stipend ==> forgot_a_little(
            old(rng)@,
            old(state).player.subjects@,
            final(state).player.subjects@,
            6,
            final(rng)@,
        ),
{
    let interaction = if state.player.got_stipend() {
        PashaInteraction::Inspiration
    } else {
        PashaInteraction::Stipend
    };
    let mut screens: Vec<GameScreen> = Vec::new();
    screens.push(GameScreen::PashaInteraction(*state, interaction));
    match interaction {
        PashaInteraction::Stipend => {
            state.player.set_got_stipend();
            state.player.money = state.player.money.plus(Money::stipend());
        },
        PashaInteraction::Inspiration => {
            state.player.stamina = state.player.stamina + 1;
            let mut subjects = state.player.subjects;
            forget_a_little(rng, &mut subjects);
            state.player.subjects = subjects;
        },
    }
    screens
}

} // verus!
