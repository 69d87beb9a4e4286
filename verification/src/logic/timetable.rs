//! Time of day, exams and the timetable of the exam week.

use crate::logic::game_state::Location;
use crate::logic::subjects::{
    spec_exam_days, spec_exam_max_duration, spec_exam_min_duration, spec_exam_places, subject_at,
    subject_index, Subject, SUBJECT_COUNT,
};
use crate::random::{bounded_draw, lemma_bounded_draw_deterministic, lemma_draw_until_hit, lemma_future_hit, state_after, Rng};
use vstd::set_lib::{lemma_int_range, lemma_len_subset, set_int_range};
use vstd::prelude::*;

verus! {

pub const NUM_DAYS: usize = 6;

/// The hour at which the working day begins.
pub const WORKDAY_BEGINS: u8 = 9;

/// The hour at which the working day ends.
pub const WORKDAY_ENDS: u8 = 18;

/// Количество часов, прошедших с полуночи.
///
/// Имеет семантику таймстэмпа: к нему можно прибавлять `Duration`.
#[derive(Copy, Clone, Debug, Eq, PartialEq, Ord, PartialOrd, Structural)]
pub struct Time(pub u8);

/// A number of hours.
#[derive(Copy, Clone, Debug, Eq, PartialEq, Ord, PartialOrd, Structural)]
pub struct Duration(pub i8);

impl Time {
    pub fn from_bits(bits: u8) -> (r: Time)
        ensures
            r.0 == bits,
    {
        Time(bits)
    }

    pub fn into_bits(self) -> (r: u8)
        ensures
            r == self.0,
    {
        self.0
    }

    pub fn is_between_9_and_19(self) -> (r: bool)
        ensures
            r == (9 <= self.0 <= 19),
    {
        self.0 >= 9 && self.0 <= 19
    }

    pub fn is_optimal_study_time(self) -> (r: bool)
        ensures
            r == (self.0 < 19),
    {
        self.0 < 19
    }

    pub fn is_suboptimal_study_time(self) -> (r: bool)
        ensures
            r == (self.0 > 21 || self.0 < 4),
    {
        self.0 > 21 || self.0 < 4
    }

    /// Во сколько закрывается компьютерный класс.
    pub fn computer_class_closing() -> (r: Time)
        ensures
            r.0 == 20,
    {
        Time(20)
    }

    pub fn is_cafe_open(self) -> (r: bool)
        ensures
            r == (10 <= self.0 <= 18),
    {
        self.0 >= 10 && self.0 <= 18
    }

    pub fn terkom_closing_time() -> (r: Time)
        ensures
            r.0 == 19,
    {
        Time(19)
    }

    /// The time `rhs` hours later (or earlier, for a negative duration).
    pub fn add(self, rhs: Duration) -> (r: Time)
        requires
            rhs.0 != i8::MIN,
            0 <= self.0 + rhs.0 <= u8::MAX,
        ensures
            r.0 == self.0 + rhs.0,
    {
        if rhs.0 < 0 {
            Time(self.0 - ((-rhs.0) as u8))
        } else {
            Time(self.0 + rhs.0 as u8)
        }
    }

    /// The time `rhs` hours earlier.
    pub fn sub(self, rhs: Duration) -> (r: Time)
        requires
            rhs.0 != i8::MIN,
            0 <= self.0 - rhs.0 <= u8::MAX,
        ensures
            r.0 == self.0 - rhs.0,
    {
        self.add(Duration(-rhs.0))
    }

    pub fn rem(self, rhs: u8) -> (r: Time)
        requires
            rhs > 0,
        ensures
            r.0 == self.0 % rhs,
    {
        Time(self.0 % rhs)
    }
}

/// A slot of the timetable: which professor takes the exam, when and where.
#[derive(Debug, Clone, Copy, Eq, PartialEq, Structural)]
pub struct Exam {
    pub subject: Subject,
    /// Время начала зачёта
    pub from: Time,
    /// Время окончания зачёта
    pub to: Time,
    pub location: Location,
}

/// The empty slot of a timetable.
pub open spec fn spec_no_exam() -> Exam {
    Exam {
        subject: Subject::AlgebraAndNumberTheory,
        from: Time(0),
        to: Time(0),
        location: Location::PUNK,
    }
}

impl Exam {
    /// The bit-packed representation stores each hour in five bits.
    pub open spec fn wf(self) -> bool {
        self.from.0 < 32 && self.to.0 < 32
    }

    pub open spec fn spec_is_some(self) -> bool {
        self != spec_no_exam()
    }

    /// The value of an empty timetable slot.
    pub fn no_exam() -> (r: Exam)
        ensures
            r == spec_no_exam(),
    {
        Exam {
            subject: Subject::AlgebraAndNumberTheory,
            from: Time(0),
            to: Time(0),
            location: Location::PUNK,
        }
    }

    pub fn new(subject: Subject, from: Time, to: Time, location: Location) -> (r: Exam)
        requires
            from.0 < 32,
            to.0 < 32,
        ensures
            r == (Exam { subject, from, to, location }),
            r.wf(),
    {
        Exam { subject, from, to, location }
    }

    #[verifier::when_used_as_spec(spec_is_some)]
    pub fn is_some(self) -> (r: bool)
        ensures
            r == self.spec_is_some(),
    {
        !(self == Exam::no_exam())
    }

    pub fn subject(self) -> (r: Subject)
        ensures
            r == self.subject,
    {
        self.subject
    }

    /// Время начала зачёта
    pub fn from(self) -> (r: Time)
        ensures
            r == self.from,
    {
        self.from
    }

    /// Время окончания зачёта
    pub fn to(self) -> (r: Time)
        ensures
            r == self.to,
    {
        self.to
    }

    /// Зачёт затягивается на час.
    pub fn one_hour_more(&mut self)
        requires
            old(self).to.0 + 1 < 32,
        ensures
            *final(self) == (Exam { to: Time((old(self).to.0 + 1) as u8), ..*old(self) }),
    {
        self.to = self.to.add(Duration(1));
    }

    pub fn location(self) -> (r: Location)
        ensures
            r == self.location,
    {
        self.location
    }
}

#[derive(Clone, Copy, Debug, Eq, PartialEq)]
pub struct Day {
    pub index: u8,
    /// One slot per subject, indexed by `subject_index`.
    pub exams: [Exam; SUBJECT_COUNT],
}

/// Whether an exam is held at `location` at `time`.
pub open spec fn exam_is_now(exam: Exam, location: Location, time: Time) -> bool {
    exam.location == location && exam.from.0 <= time.0 && time.0 < exam.to.0
}

impl Day {
    pub open spec fn wf(self) -> bool {
        forall|i: int| 0 <= i < 6 ==> (#[trigger] self.exams[i]).wf()
    }

    pub open spec fn spec_exam(&self, subject: Subject) -> Option<Exam> {
        let exam = self.exams[subject_index(subject)];
        if exam.spec_is_some() {
            Some(exam)
        } else {
            None
        }
    }

    /// A day with the given slots.
    pub fn new(index: u8, exams: [Exam; SUBJECT_COUNT]) -> (r: Day)
        ensures
            r.index == index,
            r.exams == exams,
    {
        Day { index, exams }
    }

    #[verifier::when_used_as_spec(spec_exam)]
    pub fn exam(&self, subject: Subject) -> (r: Option<Exam>)
        ensures
            r == self.spec_exam(subject),
    {
        let exam = self.exams[subject.index()];
        if exam.is_some() {
            Some(exam)
        } else {
            None
        }
    }

    /// The exam in `subject` today lasts one hour longer.
    pub fn exam_one_hour_more(&mut self, subject: Subject)
        requires
            old(self).spec_exam(subject) is Some,
            old(self).exams[subject_index(subject)].to.0 + 1 < 32,
        ensures
            final(self).index == old(self).index,
            final(self).exams@ == old(self).exams@.update(
                subject_index(subject),
                Exam {
                    to: Time((old(self).exams[subject_index(subject)].to.0 + 1) as u8),
                    ..old(self).exams[subject_index(subject)]
                },
            ),
    {
        let i = subject.index();
        let mut exam = self.exams[i];
        exam.one_hour_more();
        self.exams[i] = exam;
    }

    pub fn add_exam(&mut self, exam: Exam)
        ensures
            final(self).index == old(self).index,
            final(self).exams@ == old(self).exams@.update(subject_index(exam.subject), exam),
    {
        let i = exam.subject().index();
        self.exams[i] = exam;
    }

    pub fn index(&self) -> (r: usize)
        ensures
            r == self.index,
    {
        self.index as usize
    }

    /// The exams of this day, in the order of their subjects.
    pub fn exams(&self) -> (r: Vec<Exam>)
        ensures
            r@ == self.exams@.filter(|e: Exam| e.spec_is_some()),
    {
        let mut r: Vec<Exam> = Vec::new();
        let mut i: usize = 0;
        while i < SUBJECT_COUNT
            invariant
                i <= 6,
                r@ == self.exams@.take(i as int).filter(|e: Exam| e.spec_is_some()),
            decreases 6 - i,
        {
            proof {
                reveal_with_fuel(Seq::filter, 1);
                assert(self.exams@.take(i + 1).drop_last() =~= self.exams@.take(i as int));
            }
            if self.exams[i].is_some() {
                r.push(self.exams[i]);
            }
            i = i + 1;
        }
        assert(self.exams@.take(6) =~= self.exams@);
        r
    }

    /// The exams held at `location` at `time`, in the order of their subjects.
    pub fn current_exams(&self, location: Location, time: Time) -> (r: Vec<Exam>)
        ensures
            r@ == self.exams@.filter(
                |e: Exam| e.spec_is_some() && exam_is_now(e, location, time),
            ),
    {
        let mut r: Vec<Exam> = Vec::new();
        let mut i: usize = 0;
        while i < SUBJECT_COUNT
            invariant
                i <= 6,
                r@ == self.exams@.take(i as int).filter(
                    |e: Exam| e.spec_is_some() && exam_is_now(e, location, time),
                ),
            decreases 6 - i,
        {
            proof {
                reveal_with_fuel(Seq::filter, 1);
                assert(self.exams@.take(i + 1).drop_last() =~= self.exams@.take(i as int));
            }
            let exam = self.exams[i];
            if exam.is_some() && exam.location == location && time.0 >= exam.from.0 && time.0
                < exam.to.0 {
                r.push(exam);
            }
            i = i + 1;
        }
        assert(self.exams@.take(6) =~= self.exams@);
        r
    }
}

/// An exam in slot `s` as the initial timetable places it: the right
/// subject, within the working day, of an allowed length and at one of the
/// subject's places.
pub open spec fn is_initial_exam(e: Exam, s: int) -> bool {
    let subject = subject_at(s);
    &&& e.subject == subject
    &&& e.wf()
    &&& WORKDAY_BEGINS <= e.from.0
    &&& e.from.0 + spec_exam_max_duration(subject) <= WORKDAY_ENDS
    &&& spec_exam_min_duration(subject) <= e.to.0 - e.from.0 <= spec_exam_max_duration(subject)
    &&& spec_exam_places(subject).contains(e.location)
}

/// Slot `s` of the days holds an initial exam on exactly `exam_days` distinct
/// days among the six and is empty on the others.
pub open spec fn initial_slot(days: Seq<Day>, s: int) -> bool {
    &&& forall|d: int|
        0 <= d < 6 && (#[trigger] days[d].exams[s]).spec_is_some() ==> is_initial_exam(
            days[d].exams[s],
            s,
        )
    &&& exists|ds: Seq<int>|
        {
            &&& ds.len() == spec_exam_days(subject_at(s))
            &&& ds.no_duplicates()
            &&& forall|k: int| 0 <= k < ds.len() ==> 0 <= #[trigger] ds[k] < 6
            &&& forall|d: int|
                0 <= d < 6 ==> (#[trigger] days[d].exams[s].spec_is_some() <==> ds.contains(d))
        }
}

/// Draws of a day below six from `before`, each leaving the next state in
/// `states`, that all fell on days already in `used`; the generator is now
/// in `now`.
pub open spec fn rejected_days(
    states: Seq<u64>,
    values: Seq<u64>,
    used: Seq<int>,
    before: u64,
    now: u64,
) -> bool {
    &&& states.len() == values.len() + 1
    &&& states[0] == before
    &&& states[values.len() as int] == now
    &&& forall|k: int|
        #![trigger values[k]]
        0 <= k < values.len() ==> bounded_draw(states[k], 6, values[k], states[k + 1])
            && used.contains(values[k] as int)
}

/// Draws of a day below six from `before`, repeated while they fell on a day
/// in `used`, ended on the free day `day` and left the state `after`.
pub open spec fn day_drawn(before: u64, used: Seq<int>, day: int, after: u64) -> bool {
    exists|states: Seq<u64>, values: Seq<u64>, last: u64|
        #[trigger] rejected_days(states, values, used, before, last) && bounded_draw(
            last,
            6,
            day as u64,
            after,
        ) && 0 <= day < 6 && !used.contains(day)
}

/// One exam of `subject` drawn from `before`: a free day (see `day_drawn`),
/// then the start hour, then the length, then one of the subject's three
/// places, leaving the state `after`.
pub open spec fn exam_drawn(
    before: u64,
    subject: Subject,
    used: Seq<int>,
    day: int,
    exam: Exam,
    after: u64,
) -> bool {
    let min = spec_exam_min_duration(subject) as int;
    let max = spec_exam_max_duration(subject) as int;
    exists|s1: u64, s2: u64, s3: u64, start: u64, extra: u64, place: u64|
        #![trigger day_drawn(before, used, day, s1), bounded_draw(s1, (WORKDAY_ENDS - max - WORKDAY_BEGINS + 1) as u64, start, s2), bounded_draw(s2, (max - min + 1) as u64, extra, s3), bounded_draw(s3, 3, place, after)]
        {
            &&& day_drawn(before, used, day, s1)
            &&& bounded_draw(s1, (WORKDAY_ENDS - max - WORKDAY_BEGINS + 1) as u64, start, s2)
            &&& bounded_draw(s2, (max - min + 1) as u64, extra, s3)
            &&& bounded_draw(s3, 3, place, after)
            &&& place < 3
            &&& exam == (Exam {
                subject,
                from: Time((WORKDAY_BEGINS + start) as u8),
                to: Time((WORKDAY_BEGINS + start + min + extra) as u8),
                location: spec_exam_places(subject)[place as int],
            })
        }
}

/// The exams of `subject`, on the days `picked`, drawn one after the other
/// from `before`, leaving `after`.
pub open spec fn subject_drawn(
    before: u64,
    subject: Subject,
    picked: Seq<int>,
    exams: Seq<Exam>,
    after: u64,
) -> bool
    decreases picked.len(),
{
    if picked.len() == 0 {
        exams.len() == 0 && after == before
    } else {
        exams.len() == picked.len() && exists|mid: u64|
            subject_drawn(before, subject, picked.drop_last(), exams.drop_last(), mid)
                && #[trigger] exam_drawn(
                mid,
                subject,
                picked.drop_last(),
                picked.last(),
                exams.last(),
                after,
            )
    }
}

/// Slot `s` of `days` holds `exams` on the days `picked` and nothing else.
pub open spec fn slot_filled(days: Seq<Day>, s: int, picked: Seq<int>, exams: Seq<Exam>) -> bool {
    &&& picked.len() == spec_exam_days(subject_at(s))
    &&& exams.len() == picked.len()
    &&& forall|k: int|
        0 <= k < picked.len() ==> days[#[trigger] picked[k]].exams[s] == exams[k]
    &&& forall|d: int|
        0 <= d < 6 && !picked.contains(d) ==> (#[trigger] days[d].exams[s]) == spec_no_exam()
}

/// Slot `s` of `days` was drawn from `before`, leaving `after`.
pub open spec fn slot_drawn(before: u64, s: int, days: Seq<Day>, after: u64) -> bool {
    exists|picked: Seq<int>, exams: Seq<Exam>|
        #[trigger] subject_drawn(before, subject_at(s), picked, exams, after) && slot_filled(
            days,
            s,
            picked,
            exams,
        )
}

/// The first `n` slots of `days` were drawn, subject after subject, from
/// `before`, leaving `after`.
pub open spec fn subjects_drawn(before: u64, n: int, days: Seq<Day>, after: u64) -> bool
    decreases n,
{
    if n <= 0 {
        after == before
    } else {
        exists|mid: u64|
            subjects_drawn(before, n - 1, days, mid) && #[trigger] slot_drawn(mid, n - 1, days, after)
    }
}

/// The timetable that the generator draws from the state `before`, leaving
/// `after`: for each subject in turn, for each of its exam days, a free day,
/// a start hour, a length and a place.
pub open spec fn timetable_drawn(before: u64, tt: Timetable, after: u64) -> bool {
    &&& forall|d: int| 0 <= d < 6 ==> #[trigger] tt.days[d].index == d
    &&& subjects_drawn(before, 6, tt.days@, after)
}

proof fn lemma_subjects_drawn_frame(before: u64, n: int, days1: Seq<Day>, days2: Seq<Day>, after: u64)
    requires
        0 <= n <= 6,
        subjects_drawn(before, n, days1, after),
        forall|d: int, t: int|
            0 <= d < 6 && 0 <= t < n ==> #[trigger] days2[d].exams[t] == days1[d].exams[t],
    ensures
        subjects_drawn(before, n, days2, after),
    decreases n,
{
    if n > 0 {
        let mid = choose|mid: u64|
            subjects_drawn(before, n - 1, days1, mid) && #[trigger] slot_drawn(mid, n - 1, days1, after);
        lemma_subjects_drawn_frame(before, n - 1, days1, days2, mid);
        let (picked, exams) = choose|picked: Seq<int>, exams: Seq<Exam>|
            #[trigger] subject_drawn(mid, subject_at(n - 1), picked, exams, after) && slot_filled(
                days1,
                n - 1,
                picked,
                exams,
            );
        assert forall|k: int| 0 <= k < picked.len() implies days2[#[trigger] picked[k]].exams[n - 1]
            == exams[k] by {
            lemma_subject_drawn_days(mid, subject_at(n - 1), picked, exams, after);
            assert(0 <= picked[k] < 6);
        }
        assert(slot_filled(days2, n - 1, picked, exams));
        assert(slot_drawn(mid, n - 1, days2, after));
    }
}

proof fn lemma_subject_drawn_days(before: u64, subject: Subject, picked: Seq<int>, exams: Seq<Exam>, after: u64)
    requires
        subject_drawn(before, subject, picked, exams, after),
    ensures
        forall|k: int| 0 <= k < picked.len() ==> 0 <= #[trigger] picked[k] < 6,
    decreases picked.len(),
{
    if picked.len() > 0 {
        let mid = choose|mid: u64|
            subject_drawn(before, subject, picked.drop_last(), exams.drop_last(), mid)
                && #[trigger] exam_drawn(
                mid,
                subject,
                picked.drop_last(),
                picked.last(),
                exams.last(),
                after,
            );
        lemma_subject_drawn_days(before, subject, picked.drop_last(), exams.drop_last(), mid);
        assert forall|k: int| 0 <= k < picked.len() implies 0 <= #[trigger] picked[k] < 6 by {
            if k < picked.len() - 1 {
                assert(picked[k] == picked.drop_last()[k]);
            }
        }
    }
}

proof fn lemma_rejections_agree(
    st1: Seq<u64>,
    v1: Seq<u64>,
    st2: Seq<u64>,
    v2: Seq<u64>,
    used: Seq<int>,
    before: u64,
    l1: u64,
    l2: u64,
    k: int,
)
    requires
        rejected_days(st1, v1, used, before, l1),
        rejected_days(st2, v2, used, before, l2),
        0 <= k <= v1.len(),
        k <= v2.len(),
    ensures
        st1[k] == st2[k],
    decreases k,
{
    if k > 0 {
        lemma_rejections_agree(st1, v1, st2, v2, used, before, l1, l2, k - 1);
        assert(bounded_draw(st1[k - 1], 6, v1[k - 1], st1[k]));
        assert(bounded_draw(st2[k - 1], 6, v2[k - 1], st2[k]));
        lemma_bounded_draw_deterministic(st1[k - 1], 6, v1[k - 1], st1[k], v2[k - 1], st2[k]);
    }
}

proof fn lemma_day_drawn_unique(before: u64, used: Seq<int>, d1: int, a1: u64, d2: int, a2: u64)
    requires
        day_drawn(before, used, d1, a1),
        day_drawn(before, used, d2, a2),
    ensures
        d1 == d2,
        a1 == a2,
{
    let (st1, v1, l1) = choose|states: Seq<u64>, values: Seq<u64>, last: u64|
        #[trigger] rejected_days(states, values, used, before, last) && bounded_draw(
            last,
            6,
            d1 as u64,
            a1,
        ) && 0 <= d1 < 6 && !used.contains(d1);
    let (st2, v2, l2) = choose|states: Seq<u64>, values: Seq<u64>, last: u64|
        #[trigger] rejected_days(states, values, used, before, last) && bounded_draw(
            last,
            6,
            d2 as u64,
            a2,
        ) && 0 <= d2 < 6 && !used.contains(d2);
    let n1 = v1.len() as int;
    let n2 = v2.len() as int;
    if n1 < n2 {
        lemma_rejections_agree(st1, v1, st2, v2, used, before, l1, l2, n1);
        assert(bounded_draw(st2[n1], 6, v2[n1], st2[n1 + 1]) && used.contains(v2[n1] as int));
        lemma_bounded_draw_deterministic(l1, 6, d1 as u64, a1, v2[n1], st2[n1 + 1]);
        assert(false);
    } else if n2 < n1 {
        lemma_rejections_agree(st1, v1, st2, v2, used, before, l1, l2, n2);
        assert(bounded_draw(st1[n2], 6, v1[n2], st1[n2 + 1]) && used.contains(v1[n2] as int));
        lemma_bounded_draw_deterministic(l2, 6, d2 as u64, a2, v1[n2], st1[n2 + 1]);
        assert(false);
    } else {
        lemma_rejections_agree(st1, v1, st2, v2, used, before, l1, l2, n1);
        lemma_bounded_draw_deterministic(l1, 6, d1 as u64, a1, d2 as u64, a2);
    }
}

proof fn lemma_exam_drawn_unique(
    before: u64,
    subject: Subject,
    used: Seq<int>,
    d1: int,
    e1: Exam,
    a1: u64,
    d2: int,
    e2: Exam,
    a2: u64,
)
    requires
        exam_drawn(before, subject, used, d1, e1, a1),
        exam_drawn(before, subject, used, d2, e2, a2),
    ensures
        d1 == d2,
        e1 == e2,
        a1 == a2,
{
    let min = spec_exam_min_duration(subject) as int;
    let max = spec_exam_max_duration(subject) as int;
    let (p1, q1, r1, start1, extra1, place1) = choose|
        s1: u64,
        s2: u64,
        s3: u64,
        start: u64,
        extra: u64,
        place: u64,
    |
        #![trigger day_drawn(before, used, d1, s1), bounded_draw(s1, (WORKDAY_ENDS - max - WORKDAY_BEGINS + 1) as u64, start, s2), bounded_draw(s2, (max - min + 1) as u64, extra, s3), bounded_draw(s3, 3, place, a1)]
        {
            &&& day_drawn(before, used, d1, s1)
            &&& bounded_draw(s1, (WORKDAY_ENDS - max - WORKDAY_BEGINS + 1) as u64, start, s2)
            &&& bounded_draw(s2, (max - min + 1) as u64, extra, s3)
            &&& bounded_draw(s3, 3, place, a1)
            &&& place < 3
            &&& e1 == (Exam {
                subject,
                from: Time((WORKDAY_BEGINS + start) as u8),
                to: Time((WORKDAY_BEGINS + start + min + extra) as u8),
                location: spec_exam_places(subject)[place as int],
            })
        };
    let (p2, q2, r2, start2, extra2, place2) = choose|
        s1: u64,
        s2: u64,
        s3: u64,
        start: u64,
        extra: u64,
        place: u64,
    |
        #![trigger day_drawn(before, used, d2, s1), bounded_draw(s1, (WORKDAY_ENDS - max - WORKDAY_BEGINS + 1) as u64, start, s2), bounded_draw(s2, (max - min + 1) as u64, extra, s3), bounded_draw(s3, 3, place, a2)]
        {
            &&& day_drawn(before, used, d2, s1)
            &&& bounded_draw(s1, (WORKDAY_ENDS - max - WORKDAY_BEGINS + 1) as u64, start, s2)
            &&& bounded_draw(s2, (max - min + 1) as u64, extra, s3)
            &&& bounded_draw(s3, 3, place, a2)
            &&& place < 3
            &&& e2 == (Exam {
                subject,
                from: Time((WORKDAY_BEGINS + start) as u8),
                to: Time((WORKDAY_BEGINS + start + min + extra) as u8),
                location: spec_exam_places(subject)[place as int],
            })
        };
    lemma_day_drawn_unique(before, used, d1, p1, d2, p2);
    lemma_bounded_draw_deterministic(
        p1,
        (WORKDAY_ENDS - max - WORKDAY_BEGINS + 1) as u64,
        start1,
        q1,
        start2,
        q2,
    );
    lemma_bounded_draw_deterministic(q1, (max - min + 1) as u64, extra1, r1, extra2, r2);
    lemma_bounded_draw_deterministic(r1, 3, place1, a1, place2, a2);
}

proof fn lemma_subject_drawn_unique(
    before: u64,
    subject: Subject,
    p1: Seq<int>,
    e1: Seq<Exam>,
    a1: u64,
    p2: Seq<int>,
    e2: Seq<Exam>,
    a2: u64,
)
    requires
        subject_drawn(before, subject, p1, e1, a1),
        subject_drawn(before, subject, p2, e2, a2),
        p1.len() == p2.len(),
    ensures
        p1 == p2,
        e1 == e2,
        a1 == a2,
    decreases p1.len(),
{
    if p1.len() == 0 {
        assert(p1 =~= p2);
        assert(e1 =~= e2);
    } else {
        let m1 = choose|mid: u64|
            subject_drawn(before, subject, p1.drop_last(), e1.drop_last(), mid)
                && #[trigger] exam_drawn(mid, subject, p1.drop_last(), p1.last(), e1.last(), a1);
        let m2 = choose|mid: u64|
            subject_drawn(before, subject, p2.drop_last(), e2.drop_last(), mid)
                && #[trigger] exam_drawn(mid, subject, p2.drop_last(), p2.last(), e2.last(), a2);
        lemma_subject_drawn_unique(
            before,
            subject,
            p1.drop_last(),
            e1.drop_last(),
            m1,
            p2.drop_last(),
            e2.drop_last(),
            m2,
        );
        lemma_exam_drawn_unique(
            m1,
            subject,
            p1.drop_last(),
            p1.last(),
            e1.last(),
            a1,
            p2.last(),
            e2.last(),
            a2,
        );
        assert(p1 =~= p1.drop_last().push(p1.last()));
        assert(p2 =~= p2.drop_last().push(p2.last()));
        assert(e1 =~= e1.drop_last().push(e1.last()));
        assert(e2 =~= e2.drop_last().push(e2.last()));
    }
}

proof fn lemma_slot_drawn_unique(before: u64, s: int, days1: Seq<Day>, a1: u64, days2: Seq<Day>, a2: u64)
    requires
        0 <= s < 6,
        slot_drawn(before, s, days1, a1),
        slot_drawn(before, s, days2, a2),
    ensures
        a1 == a2,
        forall|d: int| 0 <= d < 6 ==> #[trigger] days1[d].exams[s] == days2[d].exams[s],
{
    let (p1, e1) = choose|picked: Seq<int>, exams: Seq<Exam>|
        #[trigger] subject_drawn(before, subject_at(s), picked, exams, a1) && slot_filled(
            days1,
            s,
            picked,
            exams,
        );
    let (p2, e2) = choose|picked: Seq<int>, exams: Seq<Exam>|
        #[trigger] subject_drawn(before, subject_at(s), picked, exams, a2) && slot_filled(
            days2,
            s,
            picked,
            exams,
        );
    lemma_subject_drawn_unique(before, subject_at(s), p1, e1, a1, p2, e2, a2);
    assert forall|d: int| 0 <= d < 6 implies #[trigger] days1[d].exams[s] == days2[d].exams[s] by {
        if p1.contains(d) {
            let k = choose|k: int| 0 <= k < p1.len() && p1[k] == d;
            assert(days1[p1[k]].exams[s] == e1[k]);
            assert(days2[p2[k]].exams[s] == e2[k]);
        }
    }
}

proof fn lemma_subjects_drawn_unique(before: u64, n: int, days1: Seq<Day>, a1: u64, days2: Seq<Day>, a2: u64)
    requires
        0 <= n <= 6,
        subjects_drawn(before, n, days1, a1),
        subjects_drawn(before, n, days2, a2),
    ensures
        a1 == a2,
        forall|d: int, s: int| 0 <= d < 6 && 0 <= s < n ==> #[trigger] days1[d].exams[s] == days2[d].exams[s],
    decreases n,
{
    if n > 0 {
        let m1 = choose|mid: u64|
            subjects_drawn(before, n - 1, days1, mid) && #[trigger] slot_drawn(mid, n - 1, days1, a1);
        let m2 = choose|mid: u64|
            subjects_drawn(before, n - 1, days2, mid) && #[trigger] slot_drawn(mid, n - 1, days2, a2);
        lemma_subjects_drawn_unique(before, n - 1, days1, m1, days2, m2);
        lemma_slot_drawn_unique(m1, n - 1, days1, a1, days2, a2);
        assert forall|d: int, s: int| 0 <= d < 6 && 0 <= s < n implies #[trigger] days1[d].exams[s]
            == days2[d].exams[s] by {
            if s == n - 1 {
                assert(days1[d].exams[n - 1] == days2[d].exams[n - 1]);
            }
        }
    }
}

/// A generator state draws exactly one timetable: two timetables drawn
/// from the same state are the same, and leave the generator in the same
/// state.
pub proof fn lemma_timetable_drawn_unique(before: u64, tt1: Timetable, a1: u64, tt2: Timetable, a2: u64)
    requires
        timetable_drawn(before, tt1, a1),
        timetable_drawn(before, tt2, a2),
    ensures
        tt1 == tt2,
        a1 == a2,
{
    lemma_subjects_drawn_unique(before, 6, tt1.days@, a1, tt2.days@, a2);
    assert forall|d: int| 0 <= d < 6 implies #[trigger] tt1.days[d] == tt2.days[d] by {
        assert(tt1.days[d].index == tt2.days[d].index);
        assert(tt1.days[d].exams =~= tt2.days[d].exams) by {
            assert forall|s: int| 0 <= s < 6 implies tt1.days[d].exams[s] == tt2.days[d].exams[s] by {
                assert(tt1.days@[d].exams[s] == tt2.days@[d].exams[s]);
            }
        }
    }
    assert(tt1.days =~= tt2.days);
}

#[derive(Clone, Copy, Debug, Eq, PartialEq)]
pub struct Timetable {
    pub days: [Day; NUM_DAYS],
}

impl Timetable {
    pub open spec fn wf(self) -> bool {
        forall|i: int| 0 <= i < 6 ==> #[trigger] self.days[i].index == i && self.days[i].wf()
    }

    /// A timetable as the exam week starts: every subject has its number of
    /// exam days, and every exam is well placed.
    pub open spec fn is_initial(self) -> bool {
        &&& self.wf()
        &&& forall|s: int| 0 <= s < 6 ==> #[trigger] initial_slot(self.days@, s)
    }

    /// Составляет случайное расписание зачётов.
    ///
    /// The timetable is the one the generator draws (see `timetable_drawn`),
    /// so a given generator state always gives the same timetable (see
    /// `lemma_timetable_drawn_unique`).
    pub fn random(rng: &mut Rng) -> (r: Timetable)
        ensures
            r.is_initial(),
            timetable_drawn(old(rng)@, r, final(rng)@),
    {
        let empty = Day {
            index: 0,
            exams: [
                Exam::no_exam(),
                Exam::no_exam(),
                Exam::no_exam(),
                Exam::no_exam(),
                Exam::no_exam(),
                Exam::no_exam(),
            ],
        };
        let mut days = [empty, empty, empty, empty, empty, empty];
        let mut i: usize = 0;
        while i < NUM_DAYS
            invariant
                i <= 6,
                forall|d: int| 0 <= d < i ==> #[trigger] days[d].index == d,
                forall|d: int, t: int|
                    0 <= d < 6 && 0 <= t < 6 ==> #[trigger] days[d].exams[t] == spec_no_exam(),
            decreases 6 - i,
        {
            let mut day = days[i];
            day.index = i as u8;
            days[i] = day;
            i = i + 1;
        }
        let subjects = Subject::all_subjects();
        let mut si: usize = 0;
        while si < SUBJECT_COUNT
            invariant
                si <= 6,
                forall|i: int| 0 <= i < 6 ==> #[trigger] subjects[i] == subject_at(i),
                forall|d: int| 0 <= d < 6 ==> #[trigger] days[d].index == d,
                forall|d: int, t: int|
                    0 <= d < 6 && si <= t < 6 ==> #[trigger] days[d].exams[t] == spec_no_exam(),
                forall|t: int| 0 <= t < si ==> #[trigger] initial_slot(days@, t),
                subjects_drawn(old(rng)@, si as int, days@, rng@),
                forall|d: int, t: int| 0 <= d < 6 && 0 <= t < 6 ==> #[trigger] days[d].exams[t].wf(),
            decreases 6 - si,
        {
            let subject = subjects[si];
            let n = subject.exam_days();
            let mut day_used = [false, false, false, false, false, false];
            let ghost mut picked: Seq<int> = Seq::empty();
            let ghost days_before = days@;
            let ghost subject_seed = rng@;
            let ghost mut drawn: Seq<Exam> = Seq::empty();
            let mut j: u16 = 0;
            while j < n
                invariant
                    si < 6,
                    subject == subject_at(si as int),
                    subject_index(subject) == si,
                    n == spec_exam_days(subject),
                    j <= n,
                    picked.len() == j,
                    picked.no_duplicates(),
                    drawn.len() == j,
                    subject_drawn(subject_seed, subject, picked, drawn, rng@),
                    subjects_drawn(old(rng)@, si as int, days_before, subject_seed),
                    forall|k: int| 0 <= k < j ==> days[#[trigger] picked[k]].exams[si as int] == drawn[k],
                    forall|k: int| 0 <= k < j ==> 0 <= #[trigger] picked[k] < 6,
                    forall|d: int|
                        0 <= d < 6 && !picked.contains(d) ==> (#[trigger] days[d].exams[si as int])
                            == spec_no_exam(),
                    forall|d: int| 0 <= d < 6 ==> (day_used[d] <==> picked.contains(d)),
                    forall|d: int|
                        0 <= d < 6 ==> (#[trigger] days[d].exams[si as int].spec_is_some()
                            <==> day_used[d]),
                    forall|d: int|
                        0 <= d < 6 && days[d].exams[si as int].spec_is_some() ==> is_initial_exam(
                            days[d].exams[si as int],
                            si as int,
                        ),
                    forall|d: int| 0 <= d < 6 ==> #[trigger] days[d].index == d,
                    forall|d: int, t: int|
                        0 <= d < 6 && 0 <= t < 6 && t != si ==> #[trigger] days[d].exams[t]
                            == days_before[d].exams[t],
                    forall|d: int, t: int| 0 <= d < 6 && 0 <= t < 6 ==> #[trigger] days[d].exams[t].wf(),
                decreases n - j,
            {
                proof {
                    let all_days = set_int_range(0, 6);
                    lemma_int_range(0, 6);
                    picked.lemma_cardinality_of_set();
                    if forall|d: int| 0 <= d < 6 ==> day_used[d] {
                        assert(all_days.subset_of(picked.to_set()));
                        lemma_len_subset(all_days, picked.to_set());
                    }
                }
                let ghost unused = choose|d: int| 0 <= d < 6 && !day_used[d];
                let ghost seed = rng@;
                let ghost hit = lemma_future_hit(seed, 6, unused as u64);
                let ghost mut done: u64 = 0;
                assert(state_after(seed, 0) == seed) by (bit_vector);
                let mut day_idx: usize = 0;
                let ghost used_before = picked;
                let ghost mut states: Seq<u64> = seq![seed];
                let ghost mut values: Seq<u64> = Seq::empty();
                loop
                    invariant_except_break
                        forall|d: int| 0 <= d < 6 ==> (day_used[d] <==> picked.contains(d)),
                        rejected_days(states, values, picked, seed, rng@),
                        0 <= unused < 6,
                        !day_used[unused],
                        done < hit,
                        rng@ == state_after(seed, done),
                        crate::random::rejection_zone(6) <= crate::random::output_at(seed, hit),
                        crate::random::output_at(seed, hit) % 6 == unused,
                    ensures
                        day_idx < 6,
                        !day_used[day_idx as int],
                        day_drawn(seed, picked, day_idx as int, rng@),
                    decreases hit - done,
                {
                    let ghost pre = rng@;
                    let day = rng.random_number_in_range(0, 6) as usize;
                    proof {
                        let steps = lemma_draw_until_hit(
                            seed,
                            done,
                            6,
                            unused as u64,
                            hit,
                            day as u64,
                            rng@,
                        );
                        done = (done + steps) as u64;
                    }
                    if !day_used[day] {
                        day_idx = day;
                        assert(rejected_days(states, values, picked, seed, pre) && bounded_draw(
                            pre,
                            6,
                            day_idx as u64,
                            rng@,
                        ));
                        break ;
                    }
                    proof {
                        let old_states = states;
                        let old_values = values;
                        states = states.push(rng@);
                        values = values.push(day as u64);
                        assert forall|k: int|
                            #![trigger values[k]]
                            0 <= k < values.len() implies bounded_draw(
                                states[k],
                                6,
                                values[k],
                                states[k + 1],
                            ) && picked.contains(values[k] as int) by {
                            if k < old_values.len() {
                                assert(old_values[k] == values[k]);
                                assert(states[k] == old_states[k]);
                                assert(states[k + 1] == old_states[k + 1]);
                            }
                        }
                    }
                }
                let ghost s1 = rng@;
                proof {
                    assert(!picked.contains(day_idx as int));
                }
                day_used[day_idx] = true;
                proof {
                    let old_picked = picked;
                    picked = picked.push(day_idx as int);
                    assert forall|d: int| 0 <= d < 6 implies (day_used[d] <==> picked.contains(d)) by {
                        if d != day_idx {
                            assert(picked.contains(d) <==> old_picked.contains(d)) by {
                                if picked.contains(d) {
                                    let k = choose|k: int| 0 <= k < picked.len() && picked[k] == d;
                                    assert(old_picked[k] == d);
                                }
                                if old_picked.contains(d) {
                                    let k = choose|k: int| 0 <= k < old_picked.len() && old_picked[k] == d;
                                    assert(picked[k] == d);
                                }
                            }
                        } else {
                            assert(picked[picked.len() - 1] == d);
                        }
                    }
                }
                let max_duration = subject.exam_max_duration();
                let exam_begins_max = (WORKDAY_ENDS as i8 - max_duration.0) as u64;
                let start_hour = rng.random_number_in_range_inclusive(WORKDAY_BEGINS as u64, exam_begins_max);
                let start = start_hour as u8;
                let ghost s2 = rng@;
                let min_duration = subject.exam_min_duration();
                let length = rng.random_number_in_range_inclusive(
                    min_duration.0 as u64,
                    max_duration.0 as u64,
                );
                let duration = length as i8;
                let ghost s3 = rng@;
                let places = subject.exam_places();
                let place_idx = rng.random_index(3);
                let place = places[place_idx];
                let exam = Exam::new(subject, Time(start), Time(start).add(Duration(duration)), place);
                let ghost old_days = days@;
                let mut day = days[day_idx];
                day.add_exam(exam);
                days[day_idx] = day;
                proof {
                    let min = spec_exam_min_duration(subject) as int;
                    let max = spec_exam_max_duration(subject) as int;
                    assert(day_drawn(seed, used_before, day_idx as int, s1));
                    assert(bounded_draw(s1, (WORKDAY_ENDS - max - WORKDAY_BEGINS + 1) as u64, (start_hour - 9) as u64, s2));
                    assert(bounded_draw(s2, (max - min + 1) as u64, (length - min) as u64, s3));
                    assert(bounded_draw(s3, 3, place_idx as u64, rng@));
                    assert(exam_drawn(seed, subject, used_before, day_idx as int, exam, rng@));
                    let old_drawn = drawn;
                    drawn = drawn.push(exam);
                    assert(picked.drop_last() =~= used_before);
                    assert(drawn.drop_last() =~= old_drawn);
                    assert(picked.last() == day_idx as int);
                    assert(drawn.last() == exam);
                    assert(subject_drawn(subject_seed, subject, picked.drop_last(), drawn.drop_last(), seed));
                    assert(exam_drawn(seed, subject, picked.drop_last(), picked.last(), drawn.last(), rng@));
                    assert(subject_drawn(subject_seed, subject, picked, drawn, rng@));
                    assert forall|k: int| 0 <= k < picked.len() implies days[#[trigger] picked[k]].exams[si as int] == drawn[k] by {
                        if k < picked.len() - 1 {
                            assert(picked[k] == used_before[k]);
                            assert(picked[k] != day_idx);
                        }
                    }
                }
                j = j + 1;
            }
            proof {
                lemma_subjects_drawn_frame(old(rng)@, si as int, days_before, days@, subject_seed);
                assert(slot_filled(days@, si as int, picked, drawn));
                assert(slot_drawn(subject_seed, si as int, days@, rng@));
                assert(subjects_drawn(old(rng)@, si + 1 - 1, days@, subject_seed));
                assert(subjects_drawn(old(rng)@, si + 1, days@, rng@));
                assert forall|t: int| 0 <= t <= si implies #[trigger] initial_slot(days@, t) by {
                    if t == si {
                        assert(forall|d: int|
                            0 <= d < 6 ==> (#[trigger] days@[d].exams[t].spec_is_some()
                                <==> picked.contains(d)));
                    } else {
                        assert(initial_slot(days_before, t));
                        let ds = choose|ds: Seq<int>|
                            {
                                &&& ds.len() == spec_exam_days(subject_at(t))
                                &&& ds.no_duplicates()
                                &&& forall|k: int| 0 <= k < ds.len() ==> 0 <= #[trigger] ds[k] < 6
                                &&& forall|d: int|
                                    0 <= d < 6 ==> (#[trigger] days_before[d].exams[t].spec_is_some()
                                        <==> ds.contains(d))
                            };
                        assert(forall|d: int| 0 <= d < 6 ==> #[trigger] days@[d].exams[t] == days_before[d].exams[t]);
                        assert(forall|d: int|
                            0 <= d < 6 ==> (#[trigger] days@[d].exams[t].spec_is_some()
                                <==> ds.contains(d)));
                    }
                }
            }
            si = si + 1;
        }
        Timetable { days }
    }

    /// A new random timetable, drawn as `random` draws one, for the days
    /// after `day_index`; that day and the ones before it stay as they were.
    pub fn randomize_from_day(&mut self, day_index: u8, rng: &mut Rng)
        requires
            day_index < 6,
        ensures
            forall|i: int| 0 <= i <= day_index ==> #[trigger] final(self).days[i] == old(self).days[i],
            exists|fresh: Timetable|
                fresh.is_initial() && timetable_drawn(old(rng)@, fresh, final(rng)@) && forall|i: int|
                    day_index < i < 6 ==> #[trigger] final(self).days[i] == fresh.days[i],
    {
        let old_timetable = *self;
        let fresh = Timetable::random(rng);
        *self = fresh;
        let mut i: u8 = 0;
        while i <= day_index
            invariant
                i <= day_index + 1,
                day_index < 6,
                forall|j: int| 0 <= j < i ==> #[trigger] self.days[j] == old_timetable.days[j],
                forall|j: int| i <= j < 6 ==> #[trigger] self.days[j] == fresh.days[j],
            decreases day_index + 1 - i,
        {
            let day = self.day_mut(i);
            *day = *old_timetable.day(i);
            i = i + 1;
        }
        assert(forall|j: int| day_index < j < 6 ==> #[trigger] self.days[j] == fresh.days[j]);
    }

    /// A timetable with the given days.
    pub fn new(days: [Day; NUM_DAYS]) -> (r: Timetable)
        ensures
            r.days == days,
    {
        Timetable { days }
    }

    pub fn day(&self, index: u8) -> (r: &Day)
        requires
            index < 6,
        ensures
            *r == self.days[index as int],
    {
        &self.days[index as usize]
    }

    pub fn day_mut(&mut self, index: u8) -> (r: &mut Day)
        requires
            index < 6,
        ensures
            *r == old(self).days[index as int],
            final(self).days@ == old(self).days@.update(index as int, *final(r)),
    {
        &mut self.days[index as usize]
    }

    pub fn days(&self) -> (r: &[Day])
        ensures
            r@ == self.days@,
    {
        self.days.as_slice()
    }
}

} // verus!
