//! The hero's progress in one subject.

use crate::logic::characteristics::BrainLevel;
use crate::logic::subjects::{spec_required_problems, Subject};
use crate::logic::timetable::{Day, Timetable};
use vstd::prelude::*;

verus! {

/// The number of distinct values that the packed day index can hold; the
/// largest of them marks an exam that has not been passed.
pub const NOT_PASSED: u8 = 7;

#[derive(Clone, Copy, Debug)]
pub struct SubjectStatus {
    pub subject: Subject,
    pub knowledge: BrainLevel,
    pub passed_exam_day_index: Option<u8>,
    pub problems_done: u8,
    pub has_lecture_notes: bool,
}

impl SubjectStatus {
    /// The packed representation stores the solved problems in seven bits and
    /// the day of the passed exam in three.
    pub open spec fn wf(self) -> bool {
        &&& self.problems_done < 128
        &&& match self.passed_exam_day_index {
            Some(index) => index < NOT_PASSED,
            None => true,
        }
    }

    pub open spec fn spec_problems_remaining(&self) -> u8 {
        if self.problems_done <= spec_required_problems(self.subject) {
            (spec_required_problems(self.subject) - self.problems_done) as u8
        } else {
            0
        }
    }

    pub open spec fn spec_solved_all_problems(&self) -> bool {
        self.problems_done >= spec_required_problems(self.subject)
    }

    pub open spec fn spec_passed(&self) -> bool {
        self.passed_exam_day_index is Some
    }

    /// The day of `timetable` on which the exam was passed, if it was.
    pub open spec fn spec_passed_exam_day(&self, timetable: Timetable) -> Option<Day> {
        match self.passed_exam_day_index {
            Some(i) => Some(timetable.days[i as int]),
            None => None,
        }
    }

    pub fn new(subject: Subject, knowledge: BrainLevel) -> (r: SubjectStatus)
        ensures
            r == (SubjectStatus {
                subject,
                knowledge,
                passed_exam_day_index: None,
                problems_done: 0,
                has_lecture_notes: false,
            }),
            r.wf(),
    {
        SubjectStatus {
            subject,
            knowledge,
            passed_exam_day_index: None,
            problems_done: 0,
            has_lecture_notes: false,
        }
    }

    pub fn knowledge(&self) -> (r: BrainLevel)
        ensures
            r == self.knowledge,
    {
        self.knowledge
    }

    pub fn subject(&self) -> (r: Subject)
        ensures
            r == self.subject,
    {
        self.subject
    }

    pub fn problems_done(&self) -> (r: u8)
        ensures
            r == self.problems_done,
    {
        self.problems_done
    }

    /// How many more problems the professor wants solved.
    #[verifier::when_used_as_spec(spec_problems_remaining)]
    pub fn problems_remaining(&self) -> (r: u8)
        ensures
            r == self.spec_problems_remaining(),
    {
        self.subject().required_problems().saturating_sub(self.problems_done())
    }

    #[verifier::when_used_as_spec(spec_solved_all_problems)]
    pub fn solved_all_problems(&self) -> (r: bool)
        ensures
            r == self.spec_solved_all_problems(),
    {
        self.problems_done() >= self.subject().required_problems()
    }

    pub fn more_problems_solved(&mut self, more: u8)
        requires
            old(self).problems_done + more < 128,
        ensures
            *final(self) == (SubjectStatus {
                problems_done: (old(self).problems_done + more) as u8,
                ..*old(self)
            }),
    {
        self.problems_done = self.problems_done + more;
    }

    pub fn passed_exam_day_index(&self) -> (r: Option<u8>)
        ensures
            r == self.passed_exam_day_index,
    {
        self.passed_exam_day_index
    }

    #[verifier::when_used_as_spec(spec_passed)]
    pub fn passed(&self) -> (r: bool)
        ensures
            r == self.spec_passed(),
    {
        self.passed_exam_day_index().is_some()
    }

    /// The day on which the exam was passed, if it was.
    pub fn passed_exam_day<'a>(&self, timetable: &'a Timetable) -> (r: Option<&'a Day>)
        requires
            self.wf(),
            self.passed_exam_day_index matches Some(i) ==> i < 6,
        ensures
            match self.passed_exam_day_index {
                Some(i) => r == Some(&timetable.days[i as int]),
                None => r is None,
            },
            r is None <==> !self.spec_passed(),
            r matches Some(d) ==> self.spec_passed_exam_day(*timetable) == Some(*d),
    {
        match self.passed_exam_day_index() {
            Some(i) => Some(timetable.day(i)),
            None => None,
        }
    }

    /// Records that the exam was passed on day `day_index`. An exam can be
    /// passed only once.
    pub fn set_passed_exam_day_index(&mut self, day_index: u8)
        requires
            day_index < NOT_PASSED,
            old(self).passed_exam_day_index is None,
        ensures
            *final(self) == (SubjectStatus {
                passed_exam_day_index: Some(day_index),
                ..*old(self)
            }),
    {
        self.passed_exam_day_index = Some(day_index);
    }

    pub fn has_lecture_notes(&self) -> (r: bool)
        ensures
            r == self.has_lecture_notes,
    {
        self.has_lecture_notes
    }

    /// The hero gets the lecture notes, which he did not have.
    pub fn set_has_lecture_notes(&mut self)
        requires
            !old(self).has_lecture_notes,
        ensures
            *final(self) == (SubjectStatus { has_lecture_notes: true, ..*old(self) }),
    {
        self.has_lecture_notes = true;
    }
}

/// The day of a passed exam as stored in three bits: the largest value
/// marks an exam not passed.
pub fn passed_exam_day_index_from_bits(bits: u8) -> (r: Option<u8>)
    ensures
        bits == NOT_PASSED ==> r is None,
        bits != NOT_PASSED ==> r == Some(bits),
{
    if bits == NOT_PASSED {
        None
    } else {
        Some(bits)
    }
}

/// The three bits that store the day of a passed exam.
pub fn passed_exam_day_index_to_bits(passed_exam_day_index: Option<u8>) -> (r: u8)
    ensures
        passed_exam_day_index matches Some(index) ==> r == index,
        passed_exam_day_index is None ==> r == NOT_PASSED,
{
    match passed_exam_day_index {
        Some(index) => index,
        None => NOT_PASSED,
    }
}

/// Storing the day of a passed exam and reading it back gives the same day,
/// for every day that fits (all but the marker).
pub proof fn lemma_passed_exam_day_bits_roundtrip(passed_exam_day_index: Option<u8>)
    requires
        passed_exam_day_index matches Some(index) ==> index < NOT_PASSED,
    ensures
        ({
            let bits = match passed_exam_day_index {
                Some(index) => index,
                None => NOT_PASSED,
            };
            (if bits == NOT_PASSED {
                None
            } else {
                Some(bits)
            }) == passed_exam_day_index
        }),
{
}

/// The day of a passed exam: a new status has none; once day `i` is
/// recorded, it is that day of the timetable; and a status has a day exactly
/// when its exam is passed.
pub proof fn lemma_passed_exam_day(subject: Subject, knowledge: BrainLevel, i: u8, timetable: Timetable)
    requires
        i < 6,
    ensures
        ({
            let fresh = SubjectStatus {
                subject,
                knowledge,
                passed_exam_day_index: None,
                problems_done: 0,
                has_lecture_notes: false,
            };
            &&& fresh.spec_passed_exam_day(timetable) is None
            &&& (SubjectStatus { passed_exam_day_index: Some(i), ..fresh }).spec_passed_exam_day(
                timetable,
            ) == Some(timetable.days[i as int])
        }),
        forall|s: SubjectStatus| #[trigger] s.spec_passed_exam_day(timetable) is None <==> !s.spec_passed(),
{
}

} // verus!
