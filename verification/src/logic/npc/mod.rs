//! The classmates and where they spend their time.

pub mod andrew;
pub mod diamond;
pub mod djug;
pub mod grisha;
pub mod kolya;
pub mod kuzmenko;
pub mod misha;
pub mod nil;
pub mod pasha;
pub mod rai;
pub mod sasha;
pub mod serj;

use crate::logic::characteristics::HealthLevel;
use crate::logic::game_state::Location;
use crate::logic::subjects::{subject_at, Subject};
use crate::logic::timetable::{Day, Time};
use crate::random::{
    bounded_draw, lemma_draw_until_hit, lemma_future_hit, output_at, rejection_zone, state_after,
    Rng,
};
use vstd::prelude::*;

verus! {

pub const CLASSMATE_COUNT: usize = 12;

#[derive(Debug, Copy, Clone, Eq, PartialEq, Structural)]
pub enum Classmate {
    Kolya,
    Pasha,
    Diamond,
    RAI,
    Misha,
    Serj,
    Sasha,
    NiL,
    Kuzmenko,
    DJuG,
    Andrew,
    Grisha,
}

pub open spec fn classmate_index(classmate: Classmate) -> int {
    match classmate {
        Classmate::Kolya => 0,
        Classmate::Pasha => 1,
        Classmate::Diamond => 2,
        Classmate::RAI => 3,
        Classmate::Misha => 4,
        Classmate::Serj => 5,
        Classmate::Sasha => 6,
        Classmate::NiL => 7,
        Classmate::Kuzmenko => 8,
        Classmate::DJuG => 9,
        Classmate::Andrew => 10,
        Classmate::Grisha => 11,
    }
}

pub open spec fn classmate_at(index: int) -> Classmate {
    if index == 0 {
        Classmate::Kolya
    } else if index == 1 {
        Classmate::Pasha
    } else if index == 2 {
        Classmate::Diamond
    } else if index == 3 {
        Classmate::RAI
    } else if index == 4 {
        Classmate::Misha
    } else if index == 5 {
        Classmate::Serj
    } else if index == 6 {
        Classmate::Sasha
    } else if index == 7 {
        Classmate::NiL
    } else if index == 8 {
        Classmate::Kuzmenko
    } else if index == 9 {
        Classmate::DJuG
    } else if index == 10 {
        Classmate::Andrew
    } else {
        Classmate::Grisha
    }
}

pub open spec fn spec_classmate_health_penalty(classmate: Classmate) -> HealthLevel {
    match classmate {
        Classmate::RAI | Classmate::NiL => 8,
        _ => 0,
    }
}

pub open spec fn spec_annoyance(classmate: Classmate) -> i16 {
    match classmate {
        Classmate::RAI => 4,
        Classmate::Misha => 2,
        Classmate::NiL => 6,
        _ => 0,
    }
}

impl Classmate {
    /// All classmates, in their canonical order.
    pub fn all() -> (r: [Classmate; CLASSMATE_COUNT])
        ensures
            forall|i: int| 0 <= i < 12 ==> #[trigger] r[i] == classmate_at(i),
    {
        [
            Classmate::Kolya,
            Classmate::Pasha,
            Classmate::Diamond,
            Classmate::RAI,
            Classmate::Misha,
            Classmate::Serj,
            Classmate::Sasha,
            Classmate::NiL,
            Classmate::Kuzmenko,
            Classmate::DJuG,
            Classmate::Andrew,
            Classmate::Grisha,
        ]
    }

    /// The position of this classmate in the list of all classmates.
    pub fn index(self) -> (r: usize)
        ensures
            r == classmate_index(self),
            classmate_at(r as int) == self,
    {
        match self {
            Classmate::Kolya => 0,
            Classmate::Pasha => 1,
            Classmate::Diamond => 2,
            Classmate::RAI => 3,
            Classmate::Misha => 4,
            Classmate::Serj => 5,
            Classmate::Sasha => 6,
            Classmate::NiL => 7,
            Classmate::Kuzmenko => 8,
            Classmate::DJuG => 9,
            Classmate::Andrew => 10,
            Classmate::Grisha => 11,
        }
    }

    /// How much health it costs to ignore this classmate during an exam.
    pub fn health_penalty(self) -> (r: HealthLevel)
        ensures
            r == spec_classmate_health_penalty(self),
    {
        match self {
            Classmate::Kolya | Classmate::Pasha | Classmate::Diamond | Classmate::Kuzmenko
            | Classmate::DJuG | Classmate::Andrew | Classmate::Grisha | Classmate::Misha
            | Classmate::Serj | Classmate::Sasha => 0,
            Classmate::RAI | Classmate::NiL => 8,
        }
    }

    /// «Вероятность» того, что человек будет приставать во время сдачи зачёта.
    pub fn annoyance(self) -> (r: i16)
        ensures
            r == spec_annoyance(self),
    {
        match self {
            Classmate::Kolya | Classmate::Pasha | Classmate::Diamond | Classmate::Serj
            | Classmate::Sasha | Classmate::Kuzmenko | Classmate::DJuG | Classmate::Andrew
            | Classmate::Grisha => 0,
            Classmate::RAI => 4,
            Classmate::Misha => 2,
            Classmate::NiL => 6,
        }
    }
}

#[derive(Debug, Copy, Clone, Eq, PartialEq, Structural)]
pub enum ClassmateLocation {
    Nowhere,
    Exam(Subject),
    Location(Location),
}

#[derive(Debug, Copy, Clone, Eq, PartialEq, Structural)]
pub struct ClassmateInfo {
    pub classmate: Classmate,
    pub current_location: ClassmateLocation,
}

/// Where a classmate who keeps to `location` is at `time`: there during the
/// day, nowhere otherwise.
pub open spec fn typically_in(location: Location, time: Time) -> ClassmateLocation {
    if 9 <= time.0 <= 19 {
        ClassmateLocation::Location(location)
    } else {
        ClassmateLocation::Nowhere
    }
}

/// Some subject of `subjects` has an exam at `here` today.
pub open spec fn any_exam_here(subjects: Seq<Subject>, here: Location, today: Day) -> bool {
    exists|i: int| 0 <= i < subjects.len() && here.spec_is_exam_here_on_day(subjects[i], &today)
}

/// `location` is one of today's exams at `here` in a subject of `subjects`.
pub open spec fn at_one_of_exams(
    location: ClassmateLocation,
    subjects: Seq<Subject>,
    here: Location,
    today: Day,
) -> bool {
    exists|i: int|
        0 <= i < subjects.len() && here.spec_is_exam_here_on_day(subjects[i], &today) && location
            == ClassmateLocation::Exam(subjects[i])
}

/// A classmate who stubbornly shows up at one of the exams: when there is one
/// here today he is at one of them, otherwise he stays where he was.
pub open spec fn goes_to_some_exam(
    before: ClassmateLocation,
    after: ClassmateLocation,
    subjects: Seq<Subject>,
    here: Location,
    today: Day,
) -> bool {
    if any_exam_here(subjects, here, today) {
        at_one_of_exams(after, subjects, here, today)
    } else {
        after == before
    }
}

/// A classmate who may show up at one of the exams here today, or stay where
/// he was.
pub open spec fn may_go_to_an_exam(
    before: ClassmateLocation,
    after: ClassmateLocation,
    subjects: Seq<Subject>,
    here: Location,
    today: Day,
) -> bool {
    after == before || at_one_of_exams(after, subjects, here, today)
}

/// One subject of a pass over today's exams: when `subject` has an exam at
/// `here` today, a draw below ten from `before` (leaving `after`) above 5
/// sends the classmate there (`present`); otherwise he stays at `loc`.
pub open spec fn exam_step(
    before: u64,
    subject: Subject,
    here: Location,
    today: Day,
    loc: ClassmateLocation,
    was: bool,
    end: ClassmateLocation,
    present: bool,
    after: u64,
) -> bool {
    if here.spec_is_exam_here_on_day(subject, &today) {
        exists|v: u64|
            #[trigger] bounded_draw(before, 10, v, after) && v < 10 && (v > 5 ==> end
                == ClassmateLocation::Exam(subject) && present) && (v <= 5 ==> end == loc
                && present == was)
    } else {
        end == loc && present == was && after == before
    }
}

/// One pass over `subjects` in order (see `exam_step`): the classmate ends at
/// `end`, the last exam whose draw sent him there, or where he was, `start`;
/// `present` says whether any did.
pub open spec fn exam_pass(
    before: u64,
    subjects: Seq<Subject>,
    here: Location,
    today: Day,
    start: ClassmateLocation,
    end: ClassmateLocation,
    present: bool,
    after: u64,
) -> bool
    decreases subjects.len(),
{
    if subjects.len() == 0 {
        end == start && !present && after == before
    } else {
        exists|mid: u64, loc: ClassmateLocation, was: bool|
            exam_pass(before, subjects.drop_last(), here, today, start, loc, was, mid)
                && #[trigger] exam_step(mid, subjects.last(), here, today, loc, was, end, present, after)
    }
}

/// Passes over `subjects` (see `exam_pass`) repeated, `n` more at most,
/// until one sends the classmate to an exam, or at once when there is no
/// exam here today.
pub open spec fn passes_until_present(
    before: u64,
    subjects: Seq<Subject>,
    here: Location,
    today: Day,
    start: ClassmateLocation,
    end: ClassmateLocation,
    after: u64,
    n: nat,
) -> bool
    decreases n,
{
    exists|mid: u64, loc: ClassmateLocation, present: bool|
        #[trigger] exam_pass(before, subjects, here, today, start, loc, present, mid) && if present
            || !any_exam_here(subjects, here, today) {
            end == loc && after == mid
        } else {
            n > 0 && passes_until_present(mid, subjects, here, today, start, end, after, (n - 1) as nat)
        }
}

/// The first `n` classmates moved from `before` to `after`, one after the
/// other in their canonical order, the generator passing through `states`.
pub open spec fn moves_chained(
    states: Seq<u64>,
    before: Classmates,
    after: Classmates,
    here: Location,
    today: Day,
    time: Time,
    n: int,
) -> bool {
    &&& states.len() == n + 1
    &&& forall|i: int|
        0 <= i < n ==> classmate_moves(
            classmate_at(i),
            before.0[i].current_location,
            #[trigger] after.0[i].current_location,
            here,
            today,
            time,
            states[i],
            states[i + 1],
        )
}

/// All classmates moved from `before` to `after`, drawing from the generator
/// in their canonical order, from the state `before_rng` to `after_rng`.
pub open spec fn classmates_drawn(
    before: Classmates,
    after: Classmates,
    here: Location,
    today: Day,
    time: Time,
    before_rng: u64,
    after_rng: u64,
) -> bool {
    exists|states: Seq<u64>|
        #[trigger] moves_chained(states, before, after, here, today, time, 12) && states[0]
            == before_rng && states[12] == after_rng
}

/// A one-in-`n` chance: a draw below `n` took the generator from `before` to
/// `after`, and `outcome` holds exactly when it came out zero.
pub open spec fn dice_rolled(before: u64, after: u64, n: u64, outcome: bool) -> bool {
    exists|v: u64| #[trigger] bounded_draw(before, n, v, after) && v < n && (outcome <==> v == 0)
}

pub open spec fn math_subject_list() -> Seq<Subject> {
    seq![Subject::AlgebraAndNumberTheory, Subject::Calculus, Subject::GeometryAndTopology]
}

pub open spec fn reversed_subject_list() -> Seq<Subject> {
    seq![
        Subject::PhysicalEducation,
        Subject::English,
        Subject::ComputerScience,
        Subject::GeometryAndTopology,
        Subject::Calculus,
        Subject::AlgebraAndNumberTheory,
    ]
}

pub open spec fn misha_subject_list() -> Seq<Subject> {
    seq![
        Subject::English,
        Subject::GeometryAndTopology,
        Subject::Calculus,
        Subject::AlgebraAndNumberTheory,
    ]
}

/// Where `classmate` may be after an hour passes, when the player is at
/// `here`, starting from `before`; `before_rng`/`after_rng` are the
/// generator's states, and which exam a classmate attends follows from its
/// draws (see `exam_pass` and `passes_until_present`).
pub open spec fn classmate_moves(
    classmate: Classmate,
    before: ClassmateLocation,
    after: ClassmateLocation,
    here: Location,
    today: Day,
    time: Time,
    before_rng: u64,
    after_rng: u64,
) -> bool {
    match classmate {
        Classmate::Kolya => after == typically_in(Location::Mausoleum, time) && after_rng
            == before_rng,
        Classmate::Pasha => goes_to_some_exam(
            typically_in(Location::PUNK, time),
            after,
            math_subject_list(),
            here,
            today,
        ) && exists|n: nat|
            #[trigger] passes_until_present(
                before_rng,
                math_subject_list(),
                here,
                today,
                typically_in(Location::PUNK, time),
                after,
                after_rng,
                n,
            ),
        Classmate::Diamond => may_go_to_an_exam(
            typically_in(Location::ComputerClass, time),
            after,
            reversed_subject_list(),
            here,
            today,
        ) && exists|present: bool|
            #[trigger] exam_pass(
                before_rng,
                reversed_subject_list(),
                here,
                today,
                typically_in(Location::ComputerClass, time),
                after,
                present,
                after_rng,
            ),
        Classmate::RAI => after_rng == before_rng && after == (if here.spec_is_exam_here_now(
            Subject::AlgebraAndNumberTheory,
            &today,
            time,
        ) {
            ClassmateLocation::Exam(Subject::AlgebraAndNumberTheory)
        } else if here.spec_is_exam_here_now(Subject::Calculus, &today, time) {
            ClassmateLocation::Exam(Subject::Calculus)
        } else {
            typically_in(Location::ComputerClass, time)
        }),
        Classmate::Misha => goes_to_some_exam(
            typically_in(Location::PUNK, time),
            after,
            misha_subject_list(),
            here,
            today,
        ) && exists|n: nat|
            #[trigger] passes_until_present(
                before_rng,
                misha_subject_list(),
                here,
                today,
                typically_in(Location::PUNK, time),
                after,
                after_rng,
                n,
            ),
        Classmate::Serj => goes_to_some_exam(
            typically_in(Location::PUNK, time),
            after,
            reversed_subject_list(),
            here,
            today,
        ) && exists|n: nat|
            #[trigger] passes_until_present(
                before_rng,
                reversed_subject_list(),
                here,
                today,
                typically_in(Location::PUNK, time),
                after,
                after_rng,
                n,
            ),
        Classmate::Sasha => if 9 <= time.0 <= 19 {
            dice_rolled(
                before_rng,
                after_rng,
                4,
                after == ClassmateLocation::Location(Location::PUNK),
            ) && (after == ClassmateLocation::Location(Location::PUNK) || after
                == ClassmateLocation::Nowhere)
        } else {
            after == ClassmateLocation::Nowhere && after_rng == before_rng
        },
        Classmate::NiL => goes_to_some_exam(before, after, math_subject_list(), here, today) && exists|n: nat|
            #[trigger] passes_until_present(
                before_rng,
                math_subject_list(),
                here,
                today,
                before,
                after,
                after_rng,
                n,
            ),
        Classmate::Kuzmenko => if 9 <= time.0 <= 19 {
            dice_rolled(
                before_rng,
                after_rng,
                4,
                after == ClassmateLocation::Location(Location::ComputerClass),
            ) && (after == ClassmateLocation::Location(Location::ComputerClass) || after
                == ClassmateLocation::Nowhere)
        } else {
            after == ClassmateLocation::Nowhere && after_rng == before_rng
        },
        Classmate::DJuG => after_rng == before_rng && after == (if Location::PDMI.spec_is_exam_here_on_day(
            Subject::GeometryAndTopology,
            &today,
        ) {
            ClassmateLocation::Exam(Subject::GeometryAndTopology)
        } else {
            ClassmateLocation::Nowhere
        }),
        Classmate::Andrew => may_go_to_an_exam(
            ClassmateLocation::Exam(Subject::Calculus),
            after,
            math_subject_list(),
            here,
            today,
        ) && exists|present: bool|
            #[trigger] exam_pass(
                before_rng,
                math_subject_list(),
                here,
                today,
                ClassmateLocation::Exam(Subject::Calculus),
                after,
                present,
                after_rng,
            ),
        Classmate::Grisha => dice_rolled(
            before_rng,
            after_rng,
            3,
            after == ClassmateLocation::Location(Location::Mausoleum),
        ) && (after == ClassmateLocation::Location(Location::Mausoleum) || after
            == ClassmateLocation::Nowhere),
    }
}

/// Draws, for each subject with an exam at `current_location` today, whether
/// the classmate attends it. Returns whether any such exam exists, whether the
/// classmate attends one, and how many raw draws (counted from `seed`) have
/// been made when he attends none.
fn maybe_on_exam_inner(
    rng: &mut Rng,
    current_location: Location,
    today: &Day,
    classmate: &mut ClassmateInfo,
    possible_subjects: &[Subject],
    Ghost(seed): Ghost<u64>,
    Ghost(hit): Ghost<u64>,
    Ghost(done): Ghost<u64>,
) -> (r: (bool, bool, Ghost<u64>))
    requires
        old(rng)@ == state_after(seed, done),
        done < hit,
        rejection_zone(10) <= output_at(seed, hit),
        output_at(seed, hit) % 10 == 9,
    ensures
        r.0 == any_exam_here(possible_subjects@, current_location, *today),
        final(classmate).classmate == old(classmate).classmate,
        r.1 ==> at_one_of_exams(
            final(classmate).current_location,
            possible_subjects@,
            current_location,
            *today,
        ),
        !r.1 ==> *final(classmate) == *old(classmate),
        !r.1 ==> final(rng)@ == state_after(seed, r.2@) && r.2@ < hit && (r.0 ==> done < r.2@)
            && (!r.0 ==> r.2@ == done),
        exam_pass(
            old(rng)@,
            possible_subjects@,
            current_location,
            *today,
            old(classmate).current_location,
            final(classmate).current_location,
            r.1,
            final(rng)@,
        ),
{
    let mut at_least_one_exam_is_today = false;
    let mut is_present_at_some_exam = false;
    let ghost mut cur: u64 = done;
    let mut i: usize = 0;
    while i < possible_subjects.len()
        invariant
            i <= possible_subjects@.len(),
            done < hit,
            rejection_zone(10) <= output_at(seed, hit),
            output_at(seed, hit) % 10 == 9,
            at_least_one_exam_is_today == exists|j: int|
                0 <= j < i && current_location.spec_is_exam_here_on_day(
                    possible_subjects@[j],
                    today,
                ),
            classmate.classmate == old(classmate).classmate,
            is_present_at_some_exam ==> at_one_of_exams(
                classmate.current_location,
                possible_subjects@,
                current_location,
                *today,
            ),
            !is_present_at_some_exam ==> *classmate == *old(classmate),
            !is_present_at_some_exam ==> rng@ == state_after(seed, cur) && cur < hit && (
            at_least_one_exam_is_today ==> done < cur) && (!at_least_one_exam_is_today ==> cur
                == done),
            exam_pass(
                old(rng)@,
                possible_subjects@.take(i as int),
                current_location,
                *today,
                old(classmate).current_location,
                classmate.current_location,
                is_present_at_some_exam,
                rng@,
            ),
        decreases possible_subjects@.len() - i,
    {
        let subject = possible_subjects[i];
        let ghost prev = rng@;
        let ghost prev_loc = classmate.current_location;
        let ghost prev_present = is_present_at_some_exam;
        if current_location.is_exam_here_on_day(subject, today) {
            at_least_one_exam_is_today = true;
            let ghost before = rng@;
            let v = rng.random(10);
            proof {
                if !is_present_at_some_exam {
                    let steps = lemma_draw_until_hit(
                        seed,
                        cur,
                        10,
                        9,
                        hit,
                        v as u64,
                        rng@,
                    );
                    cur = (cur + steps) as u64;
                }
            }
            if v > 5 {
                is_present_at_some_exam = true;
                classmate.current_location = ClassmateLocation::Exam(subject);
                assert(at_one_of_exams(
                    classmate.current_location,
                    possible_subjects@,
                    current_location,
                    *today,
                ));
            }
            assert(bounded_draw(prev, 10, v as u64, rng@));
        }
        proof {
            assert(exam_step(
                prev,
                subject,
                current_location,
                *today,
                prev_loc,
                prev_present,
                classmate.current_location,
                is_present_at_some_exam,
                rng@,
            ));
            let taken = possible_subjects@.take(i + 1);
            assert(taken.drop_last() =~= possible_subjects@.take(i as int));
            assert(taken.last() == subject);
            assert(exam_pass(
                old(rng)@,
                taken,
                current_location,
                *today,
                old(classmate).current_location,
                classmate.current_location,
                is_present_at_some_exam,
                rng@,
            ));
        }
        i = i + 1;
    }
    assert(possible_subjects@.take(possible_subjects@.len() as int) =~= possible_subjects@);
    (at_least_one_exam_is_today, is_present_at_some_exam, Ghost(cur))
}

/// Keeps drawing until the classmate attends one of the exams here today, if
/// there is any.
fn maybe_on_exam(
    rng: &mut Rng,
    current_location: Location,
    today: &Day,
    classmate: &mut ClassmateInfo,
    possible_subjects: &[Subject],
)
    ensures
        final(classmate).classmate == old(classmate).classmate,
        goes_to_some_exam(
            old(classmate).current_location,
            final(classmate).current_location,
            possible_subjects@,
            current_location,
            *today,
        ),
        exists|n: nat|
            #[trigger] passes_until_present(
                old(rng)@,
                possible_subjects@,
                current_location,
                *today,
                old(classmate).current_location,
                final(classmate).current_location,
                final(rng)@,
                n,
            ),
{
    let ghost seed = rng@;
    let ghost hit = lemma_future_hit(seed, 10, 9);
    let ghost mut done: u64 = 0;
    let ghost mut k: nat = 0;
    let ghost subjects = possible_subjects@;
    let ghost start = old(classmate).current_location;
    assert(state_after(seed, 0) == seed) by (bit_vector);
    loop
        invariant_except_break
            rng@ == state_after(seed, done),
            done < hit,
            rejection_zone(10) <= output_at(seed, hit),
            output_at(seed, hit) % 10 == 9,
            *classmate == *old(classmate),
            seed == old(rng)@,
            subjects == possible_subjects@,
            start == old(classmate).current_location,
            forall|end: ClassmateLocation, aft: u64, m: nat|
                #[trigger] passes_until_present(rng@, subjects, current_location, *today, start, end, aft, m)
                    ==> passes_until_present(seed, subjects, current_location, *today, start, end, aft, m + k),
        ensures
            final(classmate).classmate == old(classmate).classmate,
            goes_to_some_exam(
                old(classmate).current_location,
                final(classmate).current_location,
                possible_subjects@,
                current_location,
                *today,
            ),
            exists|n: nat|
                #[trigger] passes_until_present(
                    seed,
                    subjects,
                    current_location,
                    *today,
                    start,
                    final(classmate).current_location,
                    final(rng)@,
                    n,
                ),
        decreases hit - done,
    {
        let ghost pass_start = rng@;
        let (at_least_one_exam_is_today, is_present_at_some_exam, Ghost(next)) =
            maybe_on_exam_inner(
            rng,
            current_location,
            today,
            classmate,
            possible_subjects,
            Ghost(seed),
            Ghost(hit),
            Ghost(done),
        );
        if is_present_at_some_exam || !at_least_one_exam_is_today {
            proof {
                assert(passes_until_present(
                    pass_start,
                    subjects,
                    current_location,
                    *today,
                    start,
                    classmate.current_location,
                    rng@,
                    0,
                ));
                assert(passes_until_present(
                    seed,
                    subjects,
                    current_location,
                    *today,
                    start,
                    classmate.current_location,
                    rng@,
                    k,
                ));
            }
            break ;
        }
        proof {
            done = next;
            assert forall|end: ClassmateLocation, aft: u64, m: nat|
                #[trigger] passes_until_present(rng@, subjects, current_location, *today, start, end, aft, m)
                    implies passes_until_present(
                    seed,
                    subjects,
                    current_location,
                    *today,
                    start,
                    end,
                    aft,
                    m + (k + 1),
                ) by {
                assert(exam_pass(pass_start, subjects, current_location, *today, start, start, false, rng@));
                assert(((m + 1) - 1) as nat == m);
                assert(passes_until_present(
                    pass_start,
                    subjects,
                    current_location,
                    *today,
                    start,
                    end,
                    aft,
                    m + 1,
                ));
                assert(m + 1 + k == m + (k + 1));
            }
            k = k + 1;
        }
    }
}

impl ClassmateInfo {
    pub fn classmate(&self) -> (r: Classmate)
        ensures
            r == self.classmate,
    {
        self.classmate
    }

    pub fn current_location(&self) -> (r: ClassmateLocation)
        ensures
            r == self.current_location,
    {
        self.current_location
    }

    /// Перемещает одногруппника в соответствии с его распорядком дня.
    /// `current_location` — где сейчас находится игрок.
    pub fn update(&mut self, rng: &mut Rng, current_location: Location, today: &Day, time: Time)
        ensures
            final(self).classmate == old(self).classmate,
            classmate_moves(
                old(self).classmate,
                old(self).current_location,
                final(self).current_location,
                current_location,
                *today,
                time,
                old(rng)@,
                final(rng)@,
            ),
    {
        let typical = |location: Location| -> (r: ClassmateLocation)
            ensures
                r == typically_in(location, time),
            {
                if time.is_between_9_and_19() {
                    ClassmateLocation::Location(location)
                } else {
                    ClassmateLocation::Nowhere
                }
            };
        let math = Subject::math_subjects();
        let all = Subject::all_subjects();
        let reversed = [all[5], all[4], all[3], all[2], all[1], all[0]];
        proof {
            assert(math@ =~= math_subject_list());
            assert(reversed@ =~= reversed_subject_list());
        }
        match self.classmate {
            Classmate::Kolya => {
                self.current_location = typical(Location::Mausoleum);
            },
            Classmate::Pasha => {
                self.current_location = typical(Location::PUNK);
                maybe_on_exam(rng, current_location, today, self, math.as_slice());
            },
            Classmate::Diamond => {
                self.current_location = typical(Location::ComputerClass);
                let ghost seed = rng@;
                let ghost hit = lemma_future_hit(seed, 10, 9);
                assert(state_after(seed, 0) == seed) by (bit_vector);
                let _ = maybe_on_exam_inner(
                    rng,
                    current_location,
                    today,
                    self,
                    reversed.as_slice(),
                    Ghost(seed),
                    Ghost(hit),
                    Ghost(0),
                );
            },
            Classmate::RAI => {
                self.current_location = typical(Location::ComputerClass);
                if current_location.is_exam_here_now(Subject::AlgebraAndNumberTheory, today, time) {
                    self.current_location = ClassmateLocation::Exam(
                        Subject::AlgebraAndNumberTheory,
                    );
                } else if current_location.is_exam_here_now(Subject::Calculus, today, time) {
                    self.current_location = ClassmateLocation::Exam(Subject::Calculus);
                }
            },
            Classmate::Misha => {
                self.current_location = typical(Location::PUNK);
                let misha = [
                    Subject::English,
                    Subject::GeometryAndTopology,
                    Subject::Calculus,
                    Subject::AlgebraAndNumberTheory,
                ];
                assert(misha@ =~= misha_subject_list());
                maybe_on_exam(rng, current_location, today, self, misha.as_slice());
            },
            Classmate::Serj => {
                self.current_location = typical(Location::PUNK);
                maybe_on_exam(rng, current_location, today, self, reversed.as_slice());
            },
            Classmate::Sasha => {
                self.current_location = if time.is_between_9_and_19() && rng.roll_dice(4) {
                    ClassmateLocation::Location(Location::PUNK)
                } else {
                    ClassmateLocation::Nowhere
                };
            },
            Classmate::NiL => {
                maybe_on_exam(rng, current_location, today, self, math.as_slice());
            },
            Classmate::Kuzmenko => {
                self.current_location = if time.is_between_9_and_19() && rng.roll_dice(4) {
                    ClassmateLocation::Location(Location::ComputerClass)
                } else {
                    ClassmateLocation::Nowhere
                };
            },
            Classmate::DJuG => {
                self.current_location = if Location::PDMI.is_exam_here_on_day(
                    Subject::GeometryAndTopology,
                    today,
                ) {
                    ClassmateLocation::Exam(Subject::GeometryAndTopology)
                } else {
                    ClassmateLocation::Nowhere
                };
            },
            Classmate::Andrew => {
                self.current_location = ClassmateLocation::Exam(Subject::Calculus);
                let ghost seed = rng@;
                let ghost hit = lemma_future_hit(seed, 10, 9);
                assert(state_after(seed, 0) == seed) by (bit_vector);
                let _ = maybe_on_exam_inner(
                    rng,
                    current_location,
                    today,
                    self,
                    math.as_slice(),
                    Ghost(seed),
                    Ghost(hit),
                    Ghost(0),
                );
            },
            Classmate::Grisha => {
                self.current_location = if rng.roll_dice(3) {
                    ClassmateLocation::Location(Location::Mausoleum)
                } else {
                    ClassmateLocation::Nowhere
                };
            },
        }
    }

    /// Присутствует ли одногруппник на зачёте по `subject`. Зачёт по информатике
    /// проходит прямо в компьютерном классе, так что все присутствующие там
    /// присутствуют и на нём.
    pub open spec fn spec_is_at_exam(&self, subject: Subject) -> bool {
        match self.current_location {
            ClassmateLocation::Exam(s) => s == subject,
            ClassmateLocation::Location(Location::ComputerClass) => subject
                == Subject::ComputerScience,
            _ => false,
        }
    }

    #[verifier::when_used_as_spec(spec_is_at_exam)]
    pub fn is_at_exam(&self, subject: Subject) -> (r: bool)
        ensures
            r == self.spec_is_at_exam(subject),
    {
        match self.current_location {
            ClassmateLocation::Exam(s) => s == subject,
            ClassmateLocation::Location(Location::ComputerClass) => {
                subject == Subject::ComputerScience
            },
            _ => false,
        }
    }
}

#[derive(Debug, Clone, Copy)]
pub struct Classmates(pub [ClassmateInfo; CLASSMATE_COUNT]);

impl Classmates {
    /// Each entry belongs to the classmate of its position.
    pub open spec fn wf(self) -> bool {
        forall|i: int| 0 <= i < 12 ==> (#[trigger] self.0[i]).classmate == classmate_at(i)
    }

    pub fn new() -> (r: Classmates)
        ensures
            r.wf(),
            forall|i: int| 0 <= i < 12 ==> (#[trigger] r.0[i]).current_location
                == ClassmateLocation::Nowhere,
    {
        let all = Classmate::all();
        let nowhere = ClassmateInfo {
            classmate: Classmate::Kolya,
            current_location: ClassmateLocation::Nowhere,
        };
        let mut infos = [
            nowhere,
            nowhere,
            nowhere,
            nowhere,
            nowhere,
            nowhere,
            nowhere,
            nowhere,
            nowhere,
            nowhere,
            nowhere,
            nowhere,
        ];
        let mut i: usize = 0;
        while i < CLASSMATE_COUNT
            invariant
                i <= 12,
                forall|j: int| 0 <= j < 12 ==> #[trigger] all[j] == classmate_at(j),
                forall|j: int| 0 <= j < i ==> (#[trigger] infos[j]).classmate == classmate_at(j),
                forall|j: int| 0 <= j < 12 ==> (#[trigger] infos[j]).current_location
                    == ClassmateLocation::Nowhere,
            decreases 12 - i,
        {
            infos[i] = ClassmateInfo {
                classmate: all[i],
                current_location: ClassmateLocation::Nowhere,
            };
            i = i + 1;
        }
        Classmates(infos)
    }

    /// Every classmate follows his routine for the passing hour, in their
    /// canonical order, while the hero is at `here`.
    pub fn update_all(&mut self, rng: &mut Rng, here: Location, today: &Day, time: Time)
        requires
            old(self).wf(),
        ensures
            final(self).wf(),
            forall|i: int|
                0 <= i < 12 ==> exists|a: u64, b: u64|
                    classmate_moves(
                        classmate_at(i),
                        old(self).0[i].current_location,
                        #[trigger] final(self).0[i].current_location,
                        here,
                        *today,
                        time,
                        a,
                        b,
                    ),
            classmates_drawn(*old(self), *final(self), here, *today, time, old(rng)@, final(rng)@),
    {
        let mut i: usize = 0;
        let ghost mut states: Seq<u64> = seq![rng@];
        while i < CLASSMATE_COUNT
            invariant
                i <= 12,
                self.wf(),
                forall|j: int| i <= j < 12 ==> #[trigger] self.0[j] == old(self).0[j],
                forall|j: int|
                    0 <= j < i ==> exists|a: u64, b: u64|
                        classmate_moves(
                            classmate_at(j),
                            old(self).0[j].current_location,
                            #[trigger] self.0[j].current_location,
                            here,
                            *today,
                            time,
                            a,
                            b,
                        ),
                moves_chained(states, *old(self), *self, here, *today, time, i as int),
                states[0] == old(rng)@,
                states[i as int] == rng@,
            decreases 12 - i,
        {
            let ghost before = rng@;
            let mut info = self.0[i];
            info.update(rng, here, today, time);
            assert(classmate_moves(
                classmate_at(i as int),
                old(self).0[i as int].current_location,
                info.current_location,
                here,
                *today,
                time,
                before,
                rng@,
            ));
            self.0[i] = info;
            proof {
                let prev = states;
                states = states.push(rng@);
                assert forall|j: int| 0 <= j < i + 1 implies classmate_moves(
                    classmate_at(j),
                    old(self).0[j].current_location,
                    #[trigger] self.0[j].current_location,
                    here,
                    *today,
                    time,
                    states[j],
                    states[j + 1],
                ) by {
                    if j < i {
                        assert(states[j] == prev[j]);
                        assert(states[j + 1] == prev[j + 1]);
                    }
                }
            }
            i = i + 1;
        }
        assert(moves_chained(states, *old(self), *self, here, *today, time, 12));
    }

    /// The record of `classmate`.
    pub fn get(&self, classmate: Classmate) -> (r: &ClassmateInfo)
        ensures
            *r == self.0[classmate_index(classmate)],
    {
        &self.0[classmate.index()]
    }

    /// The classmates who are at `location` (not at an exam there).
    pub fn filter_by_location(&self, location: Location) -> (r: Vec<ClassmateInfo>)
        ensures
            r@ == self.0@.filter(
                |c: ClassmateInfo| c.current_location == ClassmateLocation::Location(location),
            ),
    {
        let mut r: Vec<ClassmateInfo> = Vec::new();
        let mut i: usize = 0;
        while i < CLASSMATE_COUNT
            invariant
                i <= 12,
                r@ == self.0@.take(i as int).filter(
                    |c: ClassmateInfo| c.current_location == ClassmateLocation::Location(location),
                ),
            decreases 12 - i,
        {
            proof {
                reveal_with_fuel(Seq::filter, 1);
                assert(self.0@.take(i + 1).drop_last() =~= self.0@.take(i as int));
            }
            let info = self.0[i];
            if info.current_location == ClassmateLocation::Location(location) {
                r.push(info);
            }
            i = i + 1;
        }
        assert(self.0@.take(12) =~= self.0@);
        r
    }

    /// The classmates who are at the exam in `subject`.
    pub fn filter_by_exam(&self, subject: Subject) -> (r: Vec<ClassmateInfo>)
        ensures
            r@ == self.0@.filter(|c: ClassmateInfo| c.spec_is_at_exam(subject)),
    {
        let mut r: Vec<ClassmateInfo> = Vec::new();
        let mut i: usize = 0;
        while i < CLASSMATE_COUNT
            invariant
                i <= 12,
                r@ == self.0@.take(i as int).filter(|c: ClassmateInfo| c.spec_is_at_exam(subject)),
            decreases 12 - i,
        {
            proof {
                reveal_with_fuel(Seq::filter, 1);
                assert(self.0@.take(i + 1).drop_last() =~= self.0@.take(i as int));
            }
            let info = self.0[i];
            if info.is_at_exam(subject) {
                r.push(info);
            }
            i = i + 1;
        }
        assert(self.0@.take(12) =~= self.0@);
        r
    }
}

/// Where each classmate can be met outside an exam, after any hour of his
/// routine: Kolya and Grisha only in the mausoleum; Pasha, Misha, Serj and
/// Sasha only in PUNK; Diamond, RAI and Kuzmenko only in the computer
/// class; all of these (but Grisha) only when the hour starts between 9:00
/// and 19:00. Andrew and DJuG are never anywhere but at an exam.
pub proof fn lemma_classmate_haunts(
    classmate: Classmate,
    before: ClassmateLocation,
    after: ClassmateLocation,
    here: Location,
    today: Day,
    time: Time,
    before_rng: u64,
    after_rng: u64,
)
    requires
        classmate_moves(classmate, before, after, here, today, time, before_rng, after_rng),
    ensures
        after matches ClassmateLocation::Location(place) ==> {
            &&& classmate == Classmate::Kolya ==> place == Location::Mausoleum
            &&& classmate == Classmate::Grisha ==> place == Location::Mausoleum
            &&& classmate == Classmate::Pasha ==> place == Location::PUNK
            &&& classmate == Classmate::Misha ==> place == Location::PUNK
            &&& classmate == Classmate::Serj ==> place == Location::PUNK
            &&& classmate == Classmate::Sasha ==> place == Location::PUNK
            &&& classmate == Classmate::Diamond ==> place == Location::ComputerClass
            &&& classmate == Classmate::RAI ==> place == Location::ComputerClass
            &&& classmate == Classmate::Kuzmenko ==> place == Location::ComputerClass
            &&& classmate != Classmate::Andrew
            &&& classmate != Classmate::DJuG
            &&& classmate != Classmate::Grisha && classmate != Classmate::NiL ==> 9 <= time.0 <= 19
        },
{
}

/// Kolya always sits in the mausoleum: after any hour of the classmates'
/// routines he is there when the hour starts between 9:00 and 19:00, and
/// nowhere otherwise, whatever happened before and wherever the hero is;
/// his routine draws nothing.
pub proof fn lemma_kolya_sits_in_the_mausoleum(
    before: ClassmateLocation,
    after: ClassmateLocation,
    here: Location,
    today: Day,
    time: Time,
    before_rng: u64,
    after_rng: u64,
)
    requires
        classmate_moves(Classmate::Kolya, before, after, here, today, time, before_rng, after_rng),
    ensures
        9 <= time.0 <= 19 ==> after == ClassmateLocation::Location(Location::Mausoleum),
        !(9 <= time.0 <= 19) ==> after == ClassmateLocation::Nowhere,
        after_rng == before_rng,
{
}

/// The same for all the classmates together: after an hour of the
/// routines (see `classmates_moved`), Kolya is in the mausoleum from 9:00
/// to 19:00 and nowhere otherwise.
pub proof fn lemma_kolya_found_in_the_mausoleum(
    before: Classmates,
    after: Classmates,
    here: Location,
    today: Day,
    time: Time,
)
    requires
        crate::logic::misc::classmates_moved(before, after, here, today, time),
    ensures
        after.0[classmate_index(Classmate::Kolya)].current_location == (if 9 <= time.0 <= 19 {
            ClassmateLocation::Location(Location::Mausoleum)
        } else {
            ClassmateLocation::Nowhere
        }),
{
    reveal(crate::logic::misc::classmates_moved);
    let i = classmate_index(Classmate::Kolya);
    assert(classmate_at(i) == Classmate::Kolya);
    let after_location = after.0[i].current_location;
    assert(exists|a: u64, b: u64|
        classmate_moves(
            classmate_at(i),
            before.0[i].current_location,
            #[trigger] after.0[i].current_location,
            here,
            today,
            time,
            a,
            b,
        ));
    let (a, b) = choose|a: u64, b: u64|
        classmate_moves(
            classmate_at(i),
            before.0[i].current_location,
            #[trigger] after.0[i].current_location,
            here,
            today,
            time,
            a,
            b,
        );
    lemma_kolya_sits_in_the_mausoleum(before.0[i].current_location, after_location, here, today, time, a, b);
}

/// DJuG is always at the geometry exam in PDMI and nowhere else: after any
/// hour of the classmates' routines he is at that exam exactly when it is
/// held in PDMI that day, and nowhere otherwise.
pub proof fn lemma_djug_only_at_geometry_in_pdmi(
    before: Classmates,
    after: Classmates,
    here: Location,
    today: Day,
    time: Time,
)
    requires
        crate::logic::misc::classmates_moved(before, after, here, today, time),
    ensures
        after.0[classmate_index(Classmate::DJuG)].current_location == (if Location::PDMI.spec_is_exam_here_on_day(
            Subject::GeometryAndTopology,
            &today,
        ) {
            ClassmateLocation::Exam(Subject::GeometryAndTopology)
        } else {
            ClassmateLocation::Nowhere
        }),
{
    reveal(crate::logic::misc::classmates_moved);
    let i = classmate_index(Classmate::DJuG);
    assert(classmate_at(i) == Classmate::DJuG);
    let after_location = after.0[i].current_location;
    assert(exists|a: u64, b: u64|
        classmate_moves(
            classmate_at(i),
            before.0[i].current_location,
            #[trigger] after.0[i].current_location,
            here,
            today,
            time,
            a,
            b,
        ));
}

} // verus!
