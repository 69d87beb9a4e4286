use mmheroes_core::logic::game_state::{GameState, Location};
use mmheroes_core::logic::player::Player;
use mmheroes_core::logic::subjects::Subject;
use mmheroes_core::logic::timetable::{Duration, Time, Timetable};
use mmheroes_core::random::Rng;

#[test]
fn test_game_state_bits() {
    let mut rng = Rng::new(0);
    let player = Player::new(false, 10, 11, 12, 13, [0, 1, 2, 3, 4, 5]);
    let mut state = GameState::new(player, Timetable::random(&mut rng), Location::Dorm);
    assert_eq!(state.bits(), 0b1_100_111_00_01000_000);
    assert!(state.sasha_has_lecture_notes(Subject::AlgebraAndNumberTheory));
    assert!(state.sasha_has_lecture_notes(Subject::Calculus));
    assert!(state.sasha_has_lecture_notes(Subject::GeometryAndTopology));

    state.set_sasha_has_lecture_notes(Subject::Calculus, false);

    assert_eq!(state.bits(), 0b1_100_101_00_01000_000);
    assert!(state.sasha_has_lecture_notes(Subject::AlgebraAndNumberTheory));
    assert!(!state.sasha_has_lecture_notes(Subject::Calculus));
    assert!(state.sasha_has_lecture_notes(Subject::GeometryAndTopology));

    assert_eq!(state.additional_computer_science_exams(), 0);
    state.add_additional_computer_science_exam();
    assert_eq!(state.bits(), 0b1_100_101_01_01000_000);
    assert_eq!(state.additional_computer_science_exams(), 1);

    state.add_additional_computer_science_exam();
    assert_eq!(state.bits(), 0b1_100_101_10_01000_000);
    assert_eq!(state.additional_computer_science_exams(), 2);

    state.next_day();
    assert_eq!(state.bits(), 0b1_100_101_10_01000_001);
    assert_eq!(state.current_day_index(), 1);

    state.adjust_time(Duration(1));
    assert_eq!(state.bits(), 0b1_100_101_10_01001_001);
    assert_eq!(state.current_time(), Time(9));

    state.midnight();
    assert_eq!(state.bits(), 0b1_100_101_10_00000_001);
    assert_eq!(state.current_time(), Time(0));

    state.set_location(Location::PUNK);
    assert_eq!(state.bits(), 0b1_001_101_10_00000_001);
    assert_eq!(state.location(), Location::PUNK);

    state.set_terkom_has_places(false);
    assert_eq!(state.bits(), 0b0_001_101_10_00000_001);
    assert!(!state.terkom_has_places());
}
