//! The six subjects of the exam week and the constants that describe them.

use crate::logic::characteristics::{BrainLevel, HealthLevel, KnowledgeAssessment};
use crate::logic::game_state::Location;
use crate::logic::timetable::Duration;
use vstd::prelude::*;

verus! {

pub const SUBJECT_COUNT: usize = 6;

#[derive(Copy, Clone, Debug, Eq, PartialEq, Structural)]
pub enum Subject {
    AlgebraAndNumberTheory,
    Calculus,
    GeometryAndTopology,
    ComputerScience,
    English,
    PhysicalEducation,
}

/// The position of a subject in the list of all subjects.
pub open spec fn subject_index(subject: Subject) -> int {
    match subject {
        Subject::AlgebraAndNumberTheory => 0,
        Subject::Calculus => 1,
        Subject::GeometryAndTopology => 2,
        Subject::ComputerScience => 3,
        Subject::English => 4,
        Subject::PhysicalEducation => 5,
    }
}

/// The subject at a position in the list of all subjects.
pub open spec fn subject_at(index: int) -> Subject {
    if index == 0 {
        Subject::AlgebraAndNumberTheory
    } else if index == 1 {
        Subject::Calculus
    } else if index == 2 {
        Subject::GeometryAndTopology
    } else if index == 3 {
        Subject::ComputerScience
    } else if index == 4 {
        Subject::English
    } else {
        Subject::PhysicalEducation
    }
}

pub open spec fn spec_is_math(subject: Subject) -> bool {
    match subject {
        Subject::AlgebraAndNumberTheory | Subject::Calculus | Subject::GeometryAndTopology => true,
        _ => false,
    }
}

pub open spec fn spec_required_problems(subject: Subject) -> u8 {
    match subject {
        Subject::AlgebraAndNumberTheory => 12,
        Subject::Calculus => 10,
        Subject::GeometryAndTopology | Subject::English => 3,
        Subject::ComputerScience => 2,
        Subject::PhysicalEducation => 1,
    }
}

pub open spec fn spec_exam_days(subject: Subject) -> u16 {
    match subject {
        Subject::AlgebraAndNumberTheory | Subject::Calculus => 4,
        _ => 2,
    }
}

pub open spec fn spec_exam_min_duration(subject: Subject) -> i8 {
    match subject {
        Subject::AlgebraAndNumberTheory | Subject::Calculus | Subject::English => 2,
        _ => 1,
    }
}

pub open spec fn spec_exam_max_duration(subject: Subject) -> i8 {
    match subject {
        Subject::AlgebraAndNumberTheory => 4,
        Subject::Calculus | Subject::GeometryAndTopology => 3,
        Subject::ComputerScience | Subject::English => 2,
        Subject::PhysicalEducation => 1,
    }
}

pub open spec fn spec_mental_load(subject: Subject) -> BrainLevel {
    match subject {
        Subject::AlgebraAndNumberTheory => 10,
        Subject::Calculus => 8,
        Subject::GeometryAndTopology => 4,
        Subject::ComputerScience => 5,
        Subject::English | Subject::PhysicalEducation => 7,
    }
}

pub open spec fn spec_health_penalty(subject: Subject) -> HealthLevel {
    match subject {
        Subject::AlgebraAndNumberTheory => 17,
        Subject::Calculus => 14,
        Subject::GeometryAndTopology => 8,
        Subject::ComputerScience => 6,
        Subject::English => 10,
        Subject::PhysicalEducation => 20,
    }
}

pub open spec fn spec_single_problem_mental_factor(subject: Subject) -> i16 {
    match subject {
        Subject::AlgebraAndNumberTheory | Subject::GeometryAndTopology
        | Subject::ComputerScience => 3,
        Subject::Calculus => 2,
        Subject::English | Subject::PhysicalEducation => 1,
    }
}

pub open spec fn spec_exam_places(subject: Subject) -> Seq<Location> {
    match subject {
        Subject::AlgebraAndNumberTheory => seq![Location::PUNK, Location::PUNK, Location::PDMI],
        Subject::GeometryAndTopology => seq![Location::PUNK, Location::PDMI, Location::PDMI],
        Subject::ComputerScience => seq![
            Location::ComputerClass,
            Location::ComputerClass,
            Location::ComputerClass,
        ],
        _ => seq![Location::PUNK, Location::PUNK, Location::PUNK],
    }
}

/// The upper bounds (exclusive) of the knowledge that this subject's professor
/// grades as bad, satisfactory and good; anything above is excellent.
pub open spec fn spec_assessment_bounds(subject: Subject) -> (i16, i16, i16) {
    match subject {
        Subject::AlgebraAndNumberTheory => (11, 21, 51),
        Subject::Calculus => (9, 19, 41),
        Subject::GeometryAndTopology => (6, 11, 31),
        Subject::ComputerScience => (10, 16, 31),
        Subject::English | Subject::PhysicalEducation => (5, 9, 16),
    }
}

impl Subject {
    pub open spec fn spec_is_math(self) -> bool {
        spec_is_math(self)
    }

    pub open spec fn spec_required_problems(self) -> u8 {
        spec_required_problems(self)
    }

    pub open spec fn spec_exam_days(self) -> u16 {
        spec_exam_days(self)
    }

    pub open spec fn spec_mental_load(self) -> BrainLevel {
        spec_mental_load(self)
    }

    pub open spec fn spec_health_penalty(self) -> HealthLevel {
        spec_health_penalty(self)
    }

    pub open spec fn spec_single_problem_mental_factor(self) -> i16 {
        spec_single_problem_mental_factor(self)
    }

    /// All subjects, in their canonical order.
    pub fn all_subjects() -> (r: [Subject; SUBJECT_COUNT])
        ensures
            forall|i: int| 0 <= i < 6 ==> #[trigger] r[i] == subject_at(i),
    {
        [
            Subject::AlgebraAndNumberTheory,
            Subject::Calculus,
            Subject::GeometryAndTopology,
            Subject::ComputerScience,
            Subject::English,
            Subject::PhysicalEducation,
        ]
    }

    /// The mathematical subjects, in their canonical order.
    pub fn math_subjects() -> (r: [Subject; 3])
        ensures
            forall|i: int| 0 <= i < 3 ==> #[trigger] r[i] == subject_at(i),
    {
        [Subject::AlgebraAndNumberTheory, Subject::Calculus, Subject::GeometryAndTopology]
    }

    /// The position of this subject in the list of all subjects.
    pub fn index(self) -> (r: usize)
        ensures
            r == subject_index(self),
            subject_at(r as int) == self,
    {
        match self {
            Subject::AlgebraAndNumberTheory => 0,
            Subject::Calculus => 1,
            Subject::GeometryAndTopology => 2,
            Subject::ComputerScience => 3,
            Subject::English => 4,
            Subject::PhysicalEducation => 5,
        }
    }

    pub fn from_bits(bits: u8) -> (r: Subject)
        requires
            bits < 6,
        ensures
            r == subject_at(bits as int),
            subject_index(r) == bits,
    {
        match bits {
            0 => Subject::AlgebraAndNumberTheory,
            1 => Subject::Calculus,
            2 => Subject::GeometryAndTopology,
            3 => Subject::ComputerScience,
            4 => Subject::English,
            _ => Subject::PhysicalEducation,
        }
    }

    pub fn into_bits(self) -> (r: u8)
        ensures
            r == subject_index(self),
    {
        self.index() as u8
    }

    /// Является ли предмет математической дисциплиной.
    #[verifier::when_used_as_spec(spec_is_math)]
    pub fn is_math(self) -> (r: bool)
        ensures
            r == spec_is_math(self),
    {
        match self {
            Subject::AlgebraAndNumberTheory | Subject::Calculus | Subject::GeometryAndTopology => true,
            Subject::ComputerScience | Subject::English | Subject::PhysicalEducation => false,
        }
    }

    /// Количество задач, которые необходимо решить для получения зачёта по предмету.
    #[verifier::when_used_as_spec(spec_required_problems)]
    pub fn required_problems(self) -> (r: u8)
        ensures
            r == spec_required_problems(self),
    {
        match self {
            Subject::AlgebraAndNumberTheory => 12,
            Subject::Calculus => 10,
            Subject::GeometryAndTopology | Subject::English => 3,
            Subject::ComputerScience => 2,
            Subject::PhysicalEducation => 1,
        }
    }

    /// Количество дней в изначальном расписании, в которые может проходить зачёт.
    #[verifier::when_used_as_spec(spec_exam_days)]
    pub fn exam_days(self) -> (r: u16)
        ensures
            r == spec_exam_days(self),
    {
        match self {
            Subject::AlgebraAndNumberTheory | Subject::Calculus => 4,
            Subject::GeometryAndTopology | Subject::ComputerScience | Subject::English
            | Subject::PhysicalEducation => 2,
        }
    }

    /// Минимальная продолжительность зачёта по предмету в часах.
    pub fn exam_min_duration(self) -> (r: Duration)
        ensures
            r.0 == spec_exam_min_duration(self),
    {
        match self {
            Subject::AlgebraAndNumberTheory | Subject::Calculus | Subject::English => Duration(2),
            Subject::GeometryAndTopology | Subject::ComputerScience
            | Subject::PhysicalEducation => Duration(1),
        }
    }

    /// Максимальная продолжительность зачёта по предмету в часах (в изначальном
    /// расписании).
    pub fn exam_max_duration(self) -> (r: Duration)
        ensures
            r.0 == spec_exam_max_duration(self),
    {
        match self {
            Subject::AlgebraAndNumberTheory => Duration(4),
            Subject::Calculus | Subject::GeometryAndTopology => Duration(3),
            Subject::ComputerScience | Subject::English => Duration(2),
            Subject::PhysicalEducation => Duration(1),
        }
    }

    /// Чем больше это число, тем больше знаний, интеллекта и здоровья нужно для
    /// того, чтобы преподаватель зачёл задачу.
    #[verifier::when_used_as_spec(spec_mental_load)]
    pub fn mental_load(self) -> (r: BrainLevel)
        ensures
            r == spec_mental_load(self),
    {
        match self {
            Subject::AlgebraAndNumberTheory => 10,
            Subject::Calculus => 8,
            Subject::GeometryAndTopology => 4,
            Subject::ComputerScience => 5,
            Subject::English | Subject::PhysicalEducation => 7,
        }
    }

    /// Чем больше это число, тем больше выносливости нужно чтобы не терять
    /// здоровье при попытке сдать зачёт.
    #[verifier::when_used_as_spec(spec_health_penalty)]
    pub fn health_penalty(self) -> (r: HealthLevel)
        ensures
            r == spec_health_penalty(self),
    {
        match self {
            Subject::AlgebraAndNumberTheory => 17,
            Subject::Calculus => 14,
            Subject::GeometryAndTopology => 8,
            Subject::ComputerScience => 6,
            Subject::English => 10,
            Subject::PhysicalEducation => 20,
        }
    }

    /// Чем больше это число, тем больше mental capacity нужно для того, чтобы
    /// зачли одну задачу.
    #[verifier::when_used_as_spec(spec_single_problem_mental_factor)]
    pub fn single_problem_mental_factor(self) -> (r: i16)
        ensures
            r == spec_single_problem_mental_factor(self),
    {
        match self {
            Subject::AlgebraAndNumberTheory | Subject::GeometryAndTopology
            | Subject::ComputerScience => 3,
            Subject::Calculus => 2,
            Subject::English | Subject::PhysicalEducation => 1,
        }
    }

    /// В каких местах может проходить зачёт по предмету.
    pub fn exam_places(self) -> (r: [Location; 3])
        ensures
            r@ == spec_exam_places(self),
    {
        let r = match self {
            Subject::AlgebraAndNumberTheory => [Location::PUNK, Location::PUNK, Location::PDMI],
            Subject::GeometryAndTopology => [Location::PUNK, Location::PDMI, Location::PDMI],
            Subject::ComputerScience => [
                Location::ComputerClass,
                Location::ComputerClass,
                Location::ComputerClass,
            ],
            Subject::Calculus | Subject::English | Subject::PhysicalEducation => [
                Location::PUNK,
                Location::PUNK,
                Location::PUNK,
            ],
        };
        assert(r@ =~= spec_exam_places(self));
        r
    }

    /// Какой уровень знаний соответствует какой оценке по шкале этого препода.
    pub fn assessment_bounds(self) -> (r: [(BrainLevel, KnowledgeAssessment); 3])
        ensures
            r[0] == (spec_assessment_bounds(self).0, KnowledgeAssessment::Bad),
            r[1] == (spec_assessment_bounds(self).1, KnowledgeAssessment::Satisfactory),
            r[2] == (spec_assessment_bounds(self).2, KnowledgeAssessment::Good),
    {
        match self {
            Subject::AlgebraAndNumberTheory => [
                (11, KnowledgeAssessment::Bad),
                (21, KnowledgeAssessment::Satisfactory),
                (51, KnowledgeAssessment::Good),
            ],
            Subject::Calculus => [
                (9, KnowledgeAssessment::Bad),
                (19, KnowledgeAssessment::Satisfactory),
                (41, KnowledgeAssessment::Good),
            ],
            Subject::GeometryAndTopology => [
                (6, KnowledgeAssessment::Bad),
                (11, KnowledgeAssessment::Satisfactory),
                (31, KnowledgeAssessment::Good),
            ],
            Subject::ComputerScience => [
                (10, KnowledgeAssessment::Bad),
                (16, KnowledgeAssessment::Satisfactory),
                (31, KnowledgeAssessment::Good),
            ],
            Subject::English | Subject::PhysicalEducation => [
                (5, KnowledgeAssessment::Bad),
                (9, KnowledgeAssessment::Satisfactory),
                (16, KnowledgeAssessment::Good),
            ],
        }
    }
}

/// What one try at each exam asks of the hero's mind: the load taken off
/// his knowledge (algebra 10, calculus 8, English and physical education 7,
/// computer science 5, geometry 4) and what one problem costs (3 for
/// algebra, geometry and computer science, 2 for calculus, 1 for English
/// and physical education).
pub proof fn lemma_exam_demands(subject: Subject)
    ensures
        spec_mental_load(subject) == (match subject {
            Subject::AlgebraAndNumberTheory => 10int,
            Subject::Calculus => 8int,
            Subject::GeometryAndTopology => 4int,
            Subject::ComputerScience => 5int,
            Subject::English => 7int,
            Subject::PhysicalEducation => 7int,
        }),
        spec_single_problem_mental_factor(subject) == (match subject {
            Subject::AlgebraAndNumberTheory => 3int,
            Subject::Calculus => 2int,
            Subject::GeometryAndTopology => 3int,
            Subject::ComputerScience => 3int,
            Subject::English => 1int,
            Subject::PhysicalEducation => 1int,
        }),
{
}

/// Packing a subject into its bits and unpacking them gives it back: the
/// subjects and the numbers below 6 correspond one to one.
pub proof fn lemma_subject_bits_roundtrip(subject: Subject, bits: int)
    requires
        0 <= bits < 6,
    ensures
        0 <= subject_index(subject) < 6,
        subject_at(subject_index(subject)) == subject,
        subject_index(subject_at(bits)) == bits,
{
}

} // verus!
