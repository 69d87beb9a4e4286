use mmheroes_core::logic::actions::Action;
use mmheroes_core::logic::cause_of_death::CauseOfDeath;
use mmheroes_core::logic::game_screen::GameScreen;
use mmheroes_core::logic::game_state::{GameState, Location};
use mmheroes_core::logic::npc::Classmate;
use mmheroes_core::logic::player::Player;
use mmheroes_core::logic::scene_router::exams::{
    exam_actions, ignore_classmate, number_of_problems_accepted, problems_accepted,
    professor_actions, wants_something, ExamScene, NpcApproachRound,
};
use mmheroes_core::logic::subjects::Subject;
use mmheroes_core::logic::timetable::{Exam, Time, Timetable};
use mmheroes_core::random::Rng;

fn state_with(health: i16, brain: i16) -> GameState {
    let mut rng = Rng::new(7);
    let player = Player::new(false, health, brain, 5, 5, [0, 1, 2, 3, 4, 0]);
    GameState::new(player, Timetable::random(&mut rng), Location::PUNK)
}

#[test]
fn accepted_problems_are_the_rounded_root_ratio() {
    assert_eq!(problems_accepted(9, 3), 1);
    assert_eq!(problems_accepted(2, 1), 1);
    assert_eq!(problems_accepted(3, 1), 2);
    assert_eq!(problems_accepted(36, 2), 3);
    assert_eq!(problems_accepted(100, 3), 3);
    assert_eq!(problems_accepted(110, 3), 3);
    assert_eq!(problems_accepted(121, 3), 4);
}

#[test]
fn halves_round_up() {
    // √1 / 2 = 0.5 and √9 / 2 = 1.5
    assert_eq!(problems_accepted(1, 2), 1);
    assert_eq!(problems_accepted(9, 2), 2);
}

#[test]
fn no_capacity_no_problems() {
    assert_eq!(problems_accepted(0, 1), 0);
    assert_eq!(problems_accepted(-5, 3), 0);
    assert_eq!(problems_accepted(1, 3), 0);
}

#[test]
fn more_capacity_never_fewer_problems() {
    for factor in 1..=3 {
        let mut last = 0;
        for capacity in 0..2000 {
            let k = problems_accepted(capacity, factor);
            assert!(k >= last);
            last = k;
        }
    }
}

#[test]
fn never_more_problems_than_remain() {
    let mut rng = Rng::new(1);
    let state = state_with(50, 100);
    for _ in 0..100 {
        let n = number_of_problems_accepted(&mut rng, &state, Subject::PhysicalEducation, false);
        assert!(n <= 1);
    }
}

#[test]
fn ignoring_rai_hurts() {
    let mut state = state_with(20, 5);
    let screens = ignore_classmate(&mut state, Classmate::RAI);
    assert_eq!(screens.len(), 1);
    assert!(matches!(
        screens[0],
        GameScreen::Exam(ExamScene::IgnoredClassmate { feeling_bad: true })
    ));
    assert_eq!(state.player.health, 12);
    assert_eq!(state.player.cause_of_death, None);
}

#[test]
fn ignoring_nil_to_death() {
    let mut state = state_with(5, 5);
    ignore_classmate(&mut state, Classmate::NiL);
    assert_eq!(state.player.health, -3);
    assert_eq!(
        state.player.cause_of_death,
        Some(CauseOfDeath::BetterNotIgnoreClassmate(Classmate::NiL))
    );
}

#[test]
fn ignoring_kolya_is_fine() {
    let mut state = state_with(20, 5);
    let screens = ignore_classmate(&mut state, Classmate::Kolya);
    assert!(matches!(
        screens[0],
        GameScreen::Exam(ExamScene::IgnoredClassmate { feeling_bad: false })
    ));
    assert_eq!(state.player.health, 20);
}

#[test]
fn rai_leaves_computer_science_alone() {
    assert!(!wants_something(Classmate::RAI, Subject::ComputerScience));
    assert!(wants_something(Classmate::RAI, Subject::Calculus));
    assert!(wants_something(Classmate::NiL, Subject::ComputerScience));
}

#[test]
fn professor_actions_list_current_exams() {
    let mut state = state_with(50, 5);
    let day = state.current_day_mut();
    day.add_exam(Exam::new(Subject::Calculus, Time(8), Time(10), Location::PUNK));
    day.add_exam(Exam::new(Subject::English, Time(12), Time(14), Location::PUNK));
    let actions = professor_actions(&state);
    assert_eq!(actions, vec![Action::Exam(Subject::Calculus), Action::DontGoToProfessor]);
}

#[test]
fn exam_actions_offer_suffering_until_passed() {
    let mut state = state_with(50, 5);
    let actions = exam_actions(&state, Subject::Calculus);
    assert_eq!(actions.first(), Some(&Action::SufferMore));
    assert_eq!(actions.last(), Some(&Action::ExitExam));
    state
        .player
        .status_for_subject_mut(Subject::Calculus)
        .set_passed_exam_day_index(0);
    let actions = exam_actions(&state, Subject::Calculus);
    assert!(!actions.contains(&Action::SufferMore));
}

#[test]
fn nobody_approaches_a_hero_without_charisma() {
    let mut rng = Rng::new(3);
    let mut state = state_with(50, 5);
    state.player.charisma = 1;
    let mut round = NpcApproachRound::new(&state);
    let step = mmheroes_core::logic::scene_router::exams::npc_approach_step(
        &mut rng,
        &state,
        Subject::Calculus,
        &mut round,
    );
    assert_eq!(step, mmheroes_core::logic::scene_router::exams::NpcApproachStep::Done);
    assert_eq!(round.count(), 0);
}
