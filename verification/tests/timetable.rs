use mmheroes_core::logic::game_state::Location::{ComputerClass, PDMI, PUNK};
use mmheroes_core::logic::subjects::Subject::{
    AlgebraAndNumberTheory, Calculus, ComputerScience, English, GeometryAndTopology,
    PhysicalEducation,
};
use mmheroes_core::logic::timetable::{Day, Exam, Time, Timetable};
use mmheroes_core::random::Rng;

#[test]
fn generate_random_timetable() {
    let mut rng = Rng::new(42);

    {
        let timetable = Timetable::random(&mut rng);

            let expected = Timetable::new([
                    Day::new(
                        0,
                        [
                            Exam::no_exam(),
                            Exam::new(Calculus, Time(13), Time(16), PUNK),
                            Exam::no_exam(),
                            Exam::no_exam(),
                            Exam::no_exam(),
                            Exam::new(PhysicalEducation, Time(12), Time(13), PUNK),
                        ],
                    ),
                    Day::new(
                        1,
                        [
                            Exam::new(AlgebraAndNumberTheory, Time(10), Time(12), PUNK),
                            Exam::new(Calculus, Time(10), Time(13), PUNK),
                            Exam::no_exam(),
                            Exam::no_exam(),
                            Exam::new(English, Time(11), Time(13), PUNK),
                            Exam::no_exam(),
                        ],
                    ),
                    Day::new(
                        2,
                        [
                            Exam::new(AlgebraAndNumberTheory, Time(14), Time(17), PDMI),
                            Exam::new(Calculus, Time(14), Time(17), PUNK),
                            Exam::no_exam(),
                            Exam::no_exam(),
                            Exam::no_exam(),
                            Exam::new(PhysicalEducation, Time(12), Time(13), PUNK),
                        ],
                    ),
                    Day::new(
                        3,
                        [
                            Exam::no_exam(),
                            Exam::no_exam(),
                            Exam::no_exam(),
                            Exam::no_exam(),
                            Exam::no_exam(),
                            Exam::no_exam(),
                        ],
                    ),
                    Day::new(
                        4,
                        [
                            Exam::new(AlgebraAndNumberTheory, Time(9), Time(12), PDMI),
                            Exam::no_exam(),
                            Exam::new(GeometryAndTopology, Time(12), Time(14), PDMI),
                            Exam::new(ComputerScience, Time(16), Time(18), ComputerClass),
                            Exam::new(English, Time(12), Time(14), PUNK),
                            Exam::no_exam(),
                        ],
                    ),
                    Day::new(
                        5,
                        [
                            Exam::new(AlgebraAndNumberTheory, Time(12), Time(14), PUNK),
                            Exam::new(Calculus, Time(12), Time(15), PUNK),
                            Exam::new(GeometryAndTopology, Time(14), Time(16), PDMI),
                            Exam::new(ComputerScience, Time(11), Time(12), ComputerClass),
                            Exam::no_exam(),
                            Exam::no_exam(),
                        ],
                    ),
                ]);

            assert_eq!(timetable, expected);
    }
}
