use mmheroes_core::logic::characteristics::{CharismaAssessment, HealthAssessment};
use mmheroes_core::logic::game_state::{GameState, Location};
use mmheroes_core::logic::npc::Classmate;
use mmheroes_core::logic::npc::ClassmateLocation;
use mmheroes_core::logic::player::Player;
use mmheroes_core::logic::misc::run_classmate_routines;
use mmheroes_core::logic::subjects::Subject;
use mmheroes_core::logic::timetable::{Exam, Time, Timetable};
use mmheroes_core::random::Rng;

#[test]
fn same_seed_same_draws() {
    let mut a = Rng::new(2024);
    let mut b = Rng::new(2024);
    for bound in 1..200u64 {
        assert_eq!(
            a.random_number_with_upper_bound(bound),
            b.random_number_with_upper_bound(bound)
        );
    }
}

#[test]
fn bits_tell_locations_apart() {
    let mut rng = Rng::new(0);
    let player = Player::new(false, 10, 11, 12, 13, [0, 1, 2, 3, 4, 5]);
    let timetable = Timetable::random(&mut rng);
    let a = GameState::new(player, timetable, Location::Dorm);
    let b = GameState::new(player, timetable, Location::PUNK);
    assert_ne!(a.bits(), b.bits());
}

#[test]
fn djug_waits_at_the_geometry_exam_in_pdmi() {
    let mut rng = Rng::new(6);
    let player = Player::new(false, 40, 5, 5, 5, [0; 6]);
    let mut state = GameState::new(player, Timetable::random(&mut rng), Location::PUNK);
    state.current_day_mut().add_exam(Exam::new(
        Subject::GeometryAndTopology,
        Time(10),
        Time(12),
        Location::PDMI,
    ));
    run_classmate_routines(&mut rng, &mut state);
    assert_eq!(
        state.classmates.get(Classmate::DJuG).current_location(),
        ClassmateLocation::Exam(Subject::GeometryAndTopology)
    );
    state.current_day_mut().add_exam(Exam::new(
        Subject::GeometryAndTopology,
        Time(10),
        Time(12),
        Location::PUNK,
    ));
    run_classmate_routines(&mut rng, &mut state);
    assert_eq!(
        state.classmates.get(Classmate::DJuG).current_location(),
        ClassmateLocation::Nowhere
    );
}

#[test]
fn more_health_never_a_worse_assessment() {
    let mut last = HealthAssessment::from_health_level(-5);
    for level in -5..60 {
        let now = HealthAssessment::from_health_level(level);
        assert!(now >= last);
        last = now;
    }
    assert_eq!(HealthAssessment::from_health_level(0), HealthAssessment::LivingDead);
    assert_eq!(HealthAssessment::from_health_level(41), HealthAssessment::Great);
    let mut last = CharismaAssessment::from_charisma_level(-3);
    for level in -3..10 {
        let now = CharismaAssessment::from_charisma_level(level);
        assert!(now >= last);
        last = now;
    }
}

#[test]
fn a_seed_draws_one_timetable() {
    let mut a = Rng::new(42);
    let mut b = Rng::new(42);
    assert_eq!(Timetable::random(&mut a), Timetable::random(&mut b));
    assert_eq!(a.next(), b.next());
}
