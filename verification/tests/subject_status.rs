use mmheroes_core::logic::subject_status::{
    passed_exam_day_index_from_bits, passed_exam_day_index_to_bits, NOT_PASSED,
};
use mmheroes_core::logic::subject_status::SubjectStatus;
use mmheroes_core::logic::subjects::Subject;

#[test]
fn test_debug() {
    let mut status = SubjectStatus::new(Subject::Calculus, 13);
    status.more_problems_solved(3);
    status.set_passed_exam_day_index(3);
    status.set_has_lecture_notes();
    let result = format!("{:?}\n", status);

    assert_eq!(result, "SubjectStatus { subject: Calculus, knowledge: 13, passed_exam_day_index: Some(3), problems_done: 3, has_lecture_notes: true }\n");
}

#[test]
fn passed_exam_day_survives_packing() {
    for day in 0..NOT_PASSED {
        assert_eq!(passed_exam_day_index_from_bits(passed_exam_day_index_to_bits(Some(day))), Some(day));
    }
    assert_eq!(passed_exam_day_index_to_bits(None), NOT_PASSED);
    assert_eq!(passed_exam_day_index_from_bits(NOT_PASSED), None);
}

#[test]
fn passed_exam_day_is_the_recorded_day() {
    let mut rng = mmheroes_core::random::Rng::new(42);
    let timetable = mmheroes_core::logic::timetable::Timetable::random(&mut rng);
    let mut status = SubjectStatus::new(Subject::English, 5);
    assert!(status.passed_exam_day(&timetable).is_none());
    assert!(!status.passed());
    status.set_passed_exam_day_index(4);
    assert!(status.passed());
    assert_eq!(status.passed_exam_day(&timetable), Some(timetable.day(4)));
}
