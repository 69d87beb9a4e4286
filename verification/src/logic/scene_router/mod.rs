pub mod cafe;
pub mod computer_class;
pub mod dorm;
pub mod exams;
pub mod mausoleum;
pub mod terkom;
pub mod train;

use crate::logic::actions::Action;
use crate::logic::cause_of_death::CauseOfDeath;
use crate::logic::characteristics::HealthLevel;
use crate::logic::game_screen::GameScreen;
use crate::logic::game_state::{GameState, Location};
use crate::logic::misc::{decrease_health, health_decreased, relocated};
use crate::logic::npc::{ClassmateInfo, ClassmateLocation};
use crate::logic::timetable::Time;
use vstd::prelude::*;

verus! {

/// Talking to each classmate who is at the hero's location, in their order.
pub open spec fn classmate_actions(state: GameState) -> Seq<Action> {
    state.classmates.0@.filter(
        |c: ClassmateInfo| c.current_location == ClassmateLocation::Location(state.location),
    ).map_values(|c: ClassmateInfo| Action::InteractWithClassmate(c.classmate))
}

pub fn add_classmates(available_actions: &mut Vec<Action>, state: &GameState)
    ensures
        final(available_actions)@ == old(available_actions)@ + classmate_actions(*state),
{
    let here = state.classmates.filter_by_location(state.location());
    let ghost start = available_actions@;
    let mut i: usize = 0;
    while i < here.len()
        invariant
            i <= here@.len(),
            here@ == state.classmates.0@.filter(
                |c: ClassmateInfo| c.current_location == ClassmateLocation::Location(state.location),
            ),
            available_actions@ == start + here@.take(i as int).map_values(
                |c: ClassmateInfo| Action::InteractWithClassmate(c.classmate),
            ),
        decreases here@.len() - i,
    {
        available_actions.push(Action::InteractWithClassmate(here[i].classmate()));
        assert(here@.take(i + 1).map_values(
            |c: ClassmateInfo| Action::InteractWithClassmate(c.classmate),
        ) =~= here@.take(i as int).map_values(
            |c: ClassmateInfo| Action::InteractWithClassmate(c.classmate),
        ).push(Action::InteractWithClassmate(here@[i as int].classmate)));
        i = i + 1;
    }
    assert(here@.take(here@.len() as int) =~= here@);
}

/// Выбор на главном экране в ПУНКе.
pub open spec fn punk_actions(state: GameState) -> Seq<Action> {
    seq![
        Action::GoToProfessor,
        Action::LookAtBaobab,
        Action::GoFromPunkToDorm,
        Action::GoToPDMI,
        Action::GoToMausoleum,
    ] + (if state.current_time.0 < 20 {
        seq![Action::GoToComputerClass]
    } else {
        seq![]
    }) + (if 10 <= state.current_time.0 <= 18 {
        seq![Action::GoToCafePUNK]
    } else {
        seq![]
    }) + classmate_actions(state) + (if state.player.is_employed_at_terkom
        && state.current_time.0 < 19 {
        seq![Action::GoToWork]
    } else {
        seq![]
    }) + seq![Action::IAmDone]
}

pub fn scene_punk(state: &GameState) -> (r: Vec<Action>)
    ensures
        r@ == punk_actions(*state),
{
    let mut available_actions = vec![
        Action::GoToProfessor,
        Action::LookAtBaobab,
        Action::GoFromPunkToDorm,
        Action::GoToPDMI,
        Action::GoToMausoleum,
    ];
    let ghost a0 = available_actions@;
    if state.current_time().0 < Time::computer_class_closing().0 {
        available_actions.push(Action::GoToComputerClass);
    }
    let ghost a1 = available_actions@;
    if state.current_time().is_cafe_open() {
        available_actions.push(Action::GoToCafePUNK);
    }
    let ghost a2 = available_actions@;
    add_classmates(&mut available_actions, state);
    let ghost a3 = available_actions@;
    if state.player.is_employed_at_terkom() && state.current_time().0
        < Time::terkom_closing_time().0 {
        available_actions.push(Action::GoToWork);
    }
    let ghost a4 = available_actions@;
    available_actions.push(Action::IAmDone);
    proof {
        let s = *state;
        assert(a1 =~= a0 + (if s.current_time.0 < 20 {
            seq![Action::GoToComputerClass]
        } else {
            seq![]
        }));
        assert(a2 =~= a1 + (if 10 <= s.current_time.0 <= 18 {
            seq![Action::GoToCafePUNK]
        } else {
            seq![]
        }));
        assert(a4 =~= a3 + (if s.player.is_employed_at_terkom && s.current_time.0 < 19 {
            seq![Action::GoToWork]
        } else {
            seq![]
        }));
        assert(available_actions@ =~= punk_actions(s));
    }
    available_actions
}

/// Выбор на главном экране в ПОМИ.
pub open spec fn pdmi_actions(state: GameState) -> Seq<Action> {
    seq![
        Action::GoToProfessor,
        Action::LookAtBulletinBoard,
        Action::GoToCafePDMI,
        Action::GoToPUNKFromPDMI,
    ] + classmate_actions(state) + seq![Action::IAmDone]
}

pub fn scene_pdmi(state: &GameState) -> (r: Vec<Action>)
    ensures
        r@ == pdmi_actions(*state),
{
    let mut available_actions = vec![
        Action::GoToProfessor,
        Action::LookAtBulletinBoard,
        Action::GoToCafePDMI,
        Action::GoToPUNKFromPDMI,
    ];
    add_classmates(&mut available_actions, state);
    available_actions.push(Action::IAmDone);
    assert(available_actions@ =~= pdmi_actions(*state));
    available_actions
}

/// Выбор на главном экране в мавзолее.
pub open spec fn mausoleum_actions(state: GameState) -> Seq<Action> {
    seq![
        Action::GoFromMausoleumToPunk,
        Action::GoToPDMI,
        Action::GoFromMausoleumToDorm,
        Action::Rest,
    ] + classmate_actions(state) + seq![Action::IAmDone]
}

pub fn scene_mausoleum(state: &GameState) -> (r: Vec<Action>)
    ensures
        r@ == mausoleum_actions(*state),
{
    let mut available_actions = vec![
        Action::GoFromMausoleumToPunk,
        Action::GoToPDMI,
        Action::GoFromMausoleumToDorm,
        Action::Rest,
    ];
    add_classmates(&mut available_actions, state);
    available_actions.push(Action::IAmDone);
    assert(available_actions@ =~= mausoleum_actions(*state));
    available_actions
}

/// Where a walk leads and what it may cost: some health, and the cause of
/// death for a hero who has none left.
#[derive(Debug, Clone, Copy)]
pub struct Route {
    pub to: Location,
    pub toll: Option<(HealthLevel, CauseOfDeath)>,
}

/// The walks between the places, by the action that starts them: long ones
/// cost 3 health, short ones 2, and going home (to the dorm) is free.
pub open spec fn route_for(from: Location, action: Action) -> Option<Route> {
    match (from, action) {
        (Location::PUNK, Action::GoFromPunkToDorm) => Some(Route { to: Location::Dorm, toll: None }),
        (Location::PUNK, Action::GoToMausoleum) => Some(
            Route { to: Location::Mausoleum, toll: Some((3, CauseOfDeath::OnTheWayToMausoleum)) },
        ),
        (Location::PUNK, Action::GoToComputerClass) => Some(
            Route { to: Location::ComputerClass, toll: Some((2, CauseOfDeath::FellFromStairs)) },
        ),
        (Location::ComputerClass, Action::GoFromPunkToDorm) => Some(
            Route { to: Location::Dorm, toll: None },
        ),
        (Location::ComputerClass, Action::LeaveComputerClass) => Some(
            Route { to: Location::PUNK, toll: Some((2, CauseOfDeath::CouldntLeaveTheComputer)) },
        ),
        (Location::ComputerClass, Action::GoToMausoleum) => Some(
            Route { to: Location::Mausoleum, toll: Some((2, CauseOfDeath::OnTheWayToMausoleum)) },
        ),
        (Location::Dorm, Action::GoFromDormToPunk) => Some(
            Route { to: Location::PUNK, toll: Some((3, CauseOfDeath::OnTheWayToPUNK)) },
        ),
        (Location::Dorm, Action::GoToMausoleum) => Some(
            Route { to: Location::Mausoleum, toll: Some((3, CauseOfDeath::OnTheWayToMausoleum)) },
        ),
        (Location::Mausoleum, Action::GoFromMausoleumToPunk) => Some(
            Route { to: Location::PUNK, toll: Some((3, CauseOfDeath::OnTheWayToPUNK)) },
        ),
        (Location::Mausoleum, Action::GoFromMausoleumToDorm) => Some(
            Route { to: Location::Dorm, toll: None },
        ),
        _ => None,
    }
}

pub fn route(from: Location, action: Action) -> (r: Option<Route>)
    ensures
        r == route_for(from, action),
{
    let large = crate::logic::characteristics::LOCATION_CHANGE_LARGE_HEALTH_PENALTY;
    let small = crate::logic::characteristics::LOCATION_CHANGE_SMALL_HEALTH_PENALTY;
    match (from, action) {
        (Location::PUNK, Action::GoFromPunkToDorm) => Some(Route { to: Location::Dorm, toll: None }),
        (Location::PUNK, Action::GoToMausoleum) => Some(
            Route { to: Location::Mausoleum, toll: Some((large, CauseOfDeath::OnTheWayToMausoleum)) },
        ),
        (Location::PUNK, Action::GoToComputerClass) => Some(
            Route { to: Location::ComputerClass, toll: Some((small, CauseOfDeath::FellFromStairs)) },
        ),
        (Location::ComputerClass, Action::GoFromPunkToDorm) => Some(
            Route { to: Location::Dorm, toll: None },
        ),
        (Location::ComputerClass, Action::LeaveComputerClass) => Some(
            Route { to: Location::PUNK, toll: Some((small, CauseOfDeath::CouldntLeaveTheComputer)) },
        ),
        (Location::ComputerClass, Action::GoToMausoleum) => Some(
            Route { to: Location::Mausoleum, toll: Some((small, CauseOfDeath::OnTheWayToMausoleum)) },
        ),
        (Location::Dorm, Action::GoFromDormToPunk) => Some(
            Route { to: Location::PUNK, toll: Some((large, CauseOfDeath::OnTheWayToPUNK)) },
        ),
        (Location::Dorm, Action::GoToMausoleum) => Some(
            Route { to: Location::Mausoleum, toll: Some((large, CauseOfDeath::OnTheWayToMausoleum)) },
        ),
        (Location::Mausoleum, Action::GoFromMausoleumToPunk) => Some(
            Route { to: Location::PUNK, toll: Some((large, CauseOfDeath::OnTheWayToPUNK)) },
        ),
        (Location::Mausoleum, Action::GoFromMausoleumToDorm) => Some(
            Route { to: Location::Dorm, toll: None },
        ),
        _ => None,
    }
}

/// Where a walk along `route` leaves the hero.
pub open spec fn walked(state: GameState, route: Route) -> GameState {
    match route.toll {
        Some((penalty, cause)) => health_decreased(relocated(state, route.to), penalty, cause),
        None => relocated(state, route.to),
    }
}

/// The hero walks from where he is as `action` says (see `route_for`).
pub fn walk(state: &mut GameState, action: Action)
    requires
        route_for(old(state).location, action) is Some,
        -10000 <= old(state).player.health <= 10000,
    ensures
        *final(state) == walked(*old(state), route_for(old(state).location, action)->Some_0),
{
    match route(state.location(), action) {
        Some(route) => {
            state.set_location(route.to);
            match route.toll {
                Some((penalty, cause)) => decrease_health(state, penalty, cause),
                None => {},
            }
        },
        None => {},
    }
}

/// What a scene that may not offer its usual choices comes to.
#[derive(Debug)]
pub enum SceneOutcome {
    /// The usual choices of the place.
    Actions(Vec<Action>),
    /// Something happened instead; these screens are shown, each until a
    /// key is pressed, and the scene starts over.
    Interrupted(Vec<GameScreen>),
}

} // verus!
