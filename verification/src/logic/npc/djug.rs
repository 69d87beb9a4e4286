//! DJuG: лучше с ним не разговаривать.

use crate::logic::cause_of_death::CauseOfDeath;
use crate::logic::game_screen::GameScreen;
use crate::logic::game_state::GameState;
use crate::logic::misc::{decrease_health, health_decreased};
use crate::logic::player::Player;
use crate::logic::subject_status::SubjectStatus;
use crate::logic::subjects::{subject_index, Subject};
use crate::random::{bounded_draw, Rng};
use vstd::prelude::*;

verus! {

/// Talking to DJuG: a geometry knowledge above 5 drops by the next roll
/// below 5,
/// and the talk costs 15 health.
pub fn interact_with_djug(rng: &mut Rng, state: &mut GameState) -> (r: GameScreen)
    requires
        -10000 <= old(state).player.health <= 10000,
    ensures
        r == GameScreen::DjugInteraction(*old(state)),
        exists|confused: GameState|
            {
                let i = subject_index(Subject::GeometryAndTopology);
                let k0 = old(state).player.subjects[i].knowledge;
                let k1 = confused.player.subjects[i].knowledge;
                &&& confused == (GameState {
                    player: Player { subjects: confused.player.subjects, ..old(state).player },
                    ..*old(state)
                })
                &&& confused.player.subjects@ == old(state).player.subjects@.update(
                    i,
                    SubjectStatus { knowledge: k1, ..old(state).player.subjects[i] },
                )
                &&& k0 > 5 ==> k0 - 4 <= k1 <= k0 && bounded_draw(
                    old(rng)@,
                    5,
                    (k0 - k1) as u64,
                    final(rng)@,
                )
                &&& k0 <= 5 ==> k1 == k0 && final(rng)@ == old(rng)@
                &&& *final(state) == #[trigger] health_decreased(
                    confused,
                    15,
                    CauseOfDeath::DontTalkToDjug,
                )
            },
{
    let screen = GameScreen::DjugInteraction(*state);
    let status = state.player.status_for_subject_mut(Subject::GeometryAndTopology);
    if status.knowledge > 5 {
        let roll = rng.random(5);
        status.knowledge = status.knowledge - roll;
    }
    let ghost confused = *state;
    decrease_health(state, 15, CauseOfDeath::DontTalkToDjug);
    assert(*state == health_decreased(confused, 15, CauseOfDeath::DontTalkToDjug));
    screen
}

} // verus!
