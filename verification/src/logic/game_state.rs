//! The complete state of a game in progress.

use crate::logic::npc::Classmates;
use crate::logic::player::Player;
use crate::logic::subjects::{spec_is_math, Subject};
use crate::logic::timetable::{exam_is_now, Day, Duration, Time, Timetable};
use vstd::prelude::*;

verus! {

#[derive(Clone, Copy, Debug)]
pub struct GameState {
    pub player: Player,
    pub timetable: Timetable,
    pub classmates: Classmates,
    /// Packed into three bits.
    pub current_day_index: u8,
    /// Packed into five bits.
    pub current_time: Time,
    /// Packed into two bits.
    pub additional_computer_science_exams: u8,
    pub sasha_has_algebra_lecture_notes: bool,
    pub sasha_has_calculus_lecture_notes: bool,
    pub sasha_has_geometry_lecture_notes: bool,
    pub location: Location,
    pub terkom_has_places: bool,
    /// Packed into five bits.
    pub recursion: u8,
}

pub open spec fn bit(b: bool) -> u32 {
    if b {
        1
    } else {
        0
    }
}

impl GameState {
    /// Every packed field fits its bits, and the parts are well formed.
    pub open spec fn wf(self) -> bool {
        &&& self.player.wf()
        &&& self.timetable.wf()
        &&& self.classmates.wf()
        &&& self.current_day_index < 8
        &&& self.current_time.0 < 32
        &&& self.additional_computer_science_exams < 4
        &&& self.recursion < 32
    }

    /// The hero's numbers are far from the limits of their 16-bit storage, so
    /// that no single turn can overflow them. The widest step a turn takes
    /// is study at the best hours, which adds the hero's whole brain (or
    /// stamina) and more to a knowledge, and computes two thirds of it by
    /// doubling first; with every number within 10000 of zero, the sum of
    /// two of them plus the largest bonus of any rule (under 100) and any
    /// doubled number stay below 32767. Play starts with numbers below 100
    /// and moves them by at most a few tens per turn.
    pub open spec fn in_range(self) -> bool {
        let p = self.player;
        &&& -10000 <= p.health <= 10000
        &&& -10000 <= p.brain <= 10000
        &&& -10000 <= p.stamina <= 10000
        &&& -10000 <= p.charisma <= 10000
        &&& -10000 <= p.money.0 <= 10000
        &&& -10000 <= p.garlic <= 10000
        &&& forall|i: int| 0 <= i < 6 ==> -10000 <= #[trigger] p.subjects[i].knowledge <= 10000
    }

    /// The packed 32-bit representation of the scalar part of the state.
    pub open spec fn spec_bits(self) -> u32 {
        (self.current_day_index + self.current_time.0 * 8 + self.additional_computer_science_exams
            * 256 + bit(self.sasha_has_algebra_lecture_notes) * 1024 + bit(
            self.sasha_has_calculus_lecture_notes,
        ) * 2048 + bit(self.sasha_has_geometry_lecture_notes) * 4096 + location_bits(
            self.location,
        ) * 8192 + bit(self.terkom_has_places) * 65536 + self.recursion * 131072) as u32
    }

    pub open spec fn spec_sasha_has_lecture_notes(self, subject: Subject) -> bool {
        match subject {
            Subject::AlgebraAndNumberTheory => self.sasha_has_algebra_lecture_notes,
            Subject::Calculus => self.sasha_has_calculus_lecture_notes,
            _ => self.sasha_has_geometry_lecture_notes,
        }
    }

    /// The state at the start of the game: the first day, eight in the
    /// morning, no classmate anywhere yet, Sasha has all lecture notes and
    /// TERKOM has free places.
    pub fn new(player: Player, timetable: Timetable, location: Location) -> (r: GameState)
        ensures
            r.player == player,
            r.timetable == timetable,
            r.classmates.wf(),
            forall|i: int|
                0 <= i < 12 ==> (#[trigger] r.classmates.0[i]).current_location
                    == crate::logic::npc::ClassmateLocation::Nowhere,
            r.current_day_index == 0,
            r.current_time.0 == 8,
            r.additional_computer_science_exams == 0,
            r.sasha_has_algebra_lecture_notes,
            r.sasha_has_calculus_lecture_notes,
            r.sasha_has_geometry_lecture_notes,
            r.location == location,
            r.terkom_has_places,
            r.recursion == 0,
            player.wf() && timetable.wf() ==> r.wf(),
    {
        GameState {
            player,
            timetable,
            classmates: Classmates::new(),
            current_day_index: 0,
            current_time: Time(8),
            additional_computer_science_exams: 0,
            sasha_has_algebra_lecture_notes: true,
            sasha_has_calculus_lecture_notes: true,
            sasha_has_geometry_lecture_notes: true,
            location,
            terkom_has_places: true,
            recursion: 0,
        }
    }

    /// Whether the hero's numbers are far from the limits of their storage.
    pub fn is_in_range(&self) -> (r: bool)
        ensures
            r == self.in_range(),
    {
        let p = &self.player;
        let mut ok = -10000 <= p.health && p.health <= 10000 && -10000 <= p.brain && p.brain
            <= 10000 && -10000 <= p.stamina && p.stamina <= 10000 && -10000 <= p.charisma
            && p.charisma <= 10000 && -10000 <= p.money.0 && p.money.0 <= 10000 && -10000
            <= p.garlic && p.garlic <= 10000;
        let mut i: usize = 0;
        while i < 6
            invariant
                i <= 6,
                ok == (-10000 <= p.health <= 10000 && -10000 <= p.brain <= 10000 && -10000
                    <= p.stamina <= 10000 && -10000 <= p.charisma <= 10000 && -10000 <= p.money.0
                    <= 10000 && -10000 <= p.garlic <= 10000 && forall|j: int|
                    0 <= j < i ==> -10000 <= #[trigger] p.subjects[j].knowledge <= 10000),
            decreases 6 - i,
        {
            let k = p.subjects[i].knowledge;
            ok = ok && -10000 <= k && k <= 10000;
            i = i + 1;
        }
        ok
    }

    /// The packed representation of the scalar part of the state.
    pub fn bits(&self) -> (r: u32)
        requires
            self.wf(),
        ensures
            r == self.spec_bits(),
    {
        let b = |v: bool| -> (r: u32)
            ensures
                r == bit(v),
            {
                if v {
                    1u32
                } else {
                    0u32
                }
            };
        self.current_day_index as u32 + self.current_time.0 as u32 * 8
            + self.additional_computer_science_exams as u32 * 256 + b(
            self.sasha_has_algebra_lecture_notes,
        ) * 1024 + b(self.sasha_has_calculus_lecture_notes) * 2048 + b(
            self.sasha_has_geometry_lecture_notes,
        ) * 4096 + self.location.into_bits() as u32 * 8192 + b(self.terkom_has_places) * 65536
            + self.recursion as u32 * 131072
    }

    pub fn current_day_index(&self) -> (r: u8)
        ensures
            r == self.current_day_index,
    {
        self.current_day_index
    }

    pub fn current_day(&self) -> (r: &Day)
        requires
            self.current_day_index < 6,
        ensures
            *r == self.timetable.days[self.current_day_index as int],
    {
        self.timetable.day(self.current_day_index)
    }

    pub fn current_day_mut(&mut self) -> (r: &mut Day)
        requires
            old(self).current_day_index < 6,
        ensures
            *r == old(self).timetable.days[old(self).current_day_index as int],
            final(self).timetable.days@ == old(self).timetable.days@.update(
                old(self).current_day_index as int,
                *final(r),
            ),
            *final(self) == (GameState { timetable: final(self).timetable, ..*old(self) }),
    {
        self.timetable.day_mut(self.current_day_index)
    }

    pub fn next_day(&mut self)
        requires
            old(self).current_day_index < 7,
        ensures
            *final(self) == (GameState {
                current_day_index: (old(self).current_day_index + 1) as u8,
                ..*old(self)
            }),
    {
        self.current_day_index = self.current_day_index + 1;
    }

    pub fn current_time(&self) -> (r: Time)
        ensures
            r == self.current_time,
    {
        self.current_time
    }

    pub fn midnight(&mut self)
        ensures
            *final(self) == (GameState { current_time: Time(0), ..*old(self) }),
    {
        self.current_time = Time(0);
    }

    pub fn set_current_time(&mut self, time: Time)
        requires
            time.0 < 32,
        ensures
            *final(self) == (GameState { current_time: time, ..*old(self) }),
    {
        self.current_time = time;
    }

    pub fn adjust_time(&mut self, duration: Duration)
        requires
            duration.0 != i8::MIN,
            0 <= old(self).current_time.0 + duration.0 < 32,
        ensures
            *final(self) == (GameState {
                current_time: Time((old(self).current_time.0 + duration.0) as u8),
                ..*old(self)
            }),
    {
        self.current_time = self.current_time.add(duration);
    }

    pub fn player(&self) -> (r: &Player)
        ensures
            *r == self.player,
    {
        &self.player
    }

    pub fn timetable(&self) -> (r: &Timetable)
        ensures
            *r == self.timetable,
    {
        &self.timetable
    }

    pub fn location(&self) -> (r: Location)
        ensures
            r == self.location,
    {
        self.location
    }

    pub fn set_location(&mut self, location: Location)
        ensures
            *final(self) == (GameState { location, ..*old(self) }),
    {
        self.location = location;
    }

    pub fn classmates(&self) -> (r: &Classmates)
        ensures
            *r == self.classmates,
    {
        &self.classmates
    }

    pub fn additional_computer_science_exams(&self) -> (r: u8)
        ensures
            r == self.additional_computer_science_exams,
    {
        self.additional_computer_science_exams
    }

    pub fn add_additional_computer_science_exam(&mut self)
        requires
            old(self).additional_computer_science_exams < 3,
        ensures
            *final(self) == (GameState {
                additional_computer_science_exams: (old(self).additional_computer_science_exams
                    + 1) as u8,
                ..*old(self)
            }),
    {
        self.additional_computer_science_exams = self.additional_computer_science_exams + 1;
    }

    /// Whether Sasha still has the lecture notes in a mathematical subject.
    pub fn sasha_has_lecture_notes(&self, subject: Subject) -> (r: bool)
        requires
            spec_is_math(subject),
        ensures
            r == self.spec_sasha_has_lecture_notes(subject),
    {
        match subject {
            Subject::AlgebraAndNumberTheory => self.sasha_has_algebra_lecture_notes,
            Subject::Calculus => self.sasha_has_calculus_lecture_notes,
            _ => self.sasha_has_geometry_lecture_notes,
        }
    }

    pub fn set_sasha_has_lecture_notes(&mut self, subject: Subject, value: bool)
        requires
            spec_is_math(subject),
        ensures
            final(self).spec_sasha_has_lecture_notes(subject) == value,
            forall|other: Subject|
                spec_is_math(other) && other != subject ==> final(self).spec_sasha_has_lecture_notes(other)
                    == old(self).spec_sasha_has_lecture_notes(other),
            *final(self) == (GameState {
                sasha_has_algebra_lecture_notes: final(self).sasha_has_algebra_lecture_notes,
                sasha_has_calculus_lecture_notes: final(self).sasha_has_calculus_lecture_notes,
                sasha_has_geometry_lecture_notes: final(self).sasha_has_geometry_lecture_notes,
                ..*old(self)
            }),
    {
        match subject {
            Subject::AlgebraAndNumberTheory => self.sasha_has_algebra_lecture_notes = value,
            Subject::Calculus => self.sasha_has_calculus_lecture_notes = value,
            _ => self.sasha_has_geometry_lecture_notes = value,
        }
    }

    pub fn terkom_has_places(&self) -> (r: bool)
        ensures
            r == self.terkom_has_places,
    {
        self.terkom_has_places
    }

    pub fn set_terkom_has_places(&mut self, value: bool)
        ensures
            *final(self) == (GameState { terkom_has_places: value, ..*old(self) }),
    {
        self.terkom_has_places = value;
    }

    pub fn recursion(&self) -> (r: u8)
        ensures
            r == self.recursion,
    {
        self.recursion
    }

    pub fn add_recursion_level(&mut self)
        requires
            old(self).recursion < 31,
        ensures
            *final(self) == (GameState {
                recursion: (old(self).recursion + 1) as u8,
                ..*old(self)
            }),
    {
        self.recursion = self.recursion + 1;
    }
}

#[derive(Clone, Copy, Eq, PartialEq, Debug, Structural)]
pub enum Location {
    PUNK,
    PDMI,
    ComputerClass,
    Dorm,
    Mausoleum,
}

pub open spec fn location_bits(location: Location) -> u8 {
    match location {
        Location::PUNK => 1,
        Location::PDMI => 2,
        Location::ComputerClass => 3,
        Location::Dorm => 4,
        Location::Mausoleum => 5,
    }
}

impl Location {
    pub fn from_bits(bits: u8) -> (r: Location)
        requires
            1 <= bits <= 5,
        ensures
            location_bits(r) == bits,
    {
        match bits {
            1 => Location::PUNK,
            2 => Location::PDMI,
            3 => Location::ComputerClass,
            4 => Location::Dorm,
            _ => Location::Mausoleum,
        }
    }

    pub fn into_bits(self) -> (r: u8)
        ensures
            r == location_bits(self),
    {
        match self {
            Location::PUNK => 1,
            Location::PDMI => 2,
            Location::ComputerClass => 3,
            Location::Dorm => 4,
            Location::Mausoleum => 5,
        }
    }

    /// Whether `today` has an exam in `subject` held here.
    pub open spec fn spec_is_exam_here_on_day(self, subject: Subject, today: &Day) -> bool {
        match today.spec_exam(subject) {
            Some(exam) => exam.location == self,
            None => false,
        }
    }

    /// Whether an exam in `subject` is held here at `time` today.
    pub open spec fn spec_is_exam_here_now(self, subject: Subject, today: &Day, time: Time) -> bool {
        match today.spec_exam(subject) {
            Some(exam) => exam_is_now(exam, self, time),
            None => false,
        }
    }

    #[verifier::when_used_as_spec(spec_is_exam_here_on_day)]
    pub fn is_exam_here_on_day(self, subject: Subject, today: &Day) -> (r: bool)
        ensures
            r == self.spec_is_exam_here_on_day(subject, today),
    {
        match today.exam(subject) {
            Some(exam) => exam.location() == self,
            None => false,
        }
    }

    #[verifier::when_used_as_spec(spec_is_exam_here_now)]
    pub fn is_exam_here_now(self, subject: Subject, today: &Day, time: Time) -> (r: bool)
        ensures
            r == self.spec_is_exam_here_now(subject, today, time),
    {
        match today.exam(subject) {
            Some(exam) => exam.location() == self && time.0 >= exam.from().0 && time.0
                < exam.to().0,
            None => false,
        }
    }
}

/// Packing a location into its bits and unpacking them gives it back, and
/// only valid bits come out of packing.
pub proof fn lemma_location_bits_roundtrip(location: Location, other: Location)
    ensures
        1 <= location_bits(location) <= 5,
        location_bits(location) == location_bits(other) ==> location == other,
{
}

/// The packed bits of a state whose fields fit them determine its scalar
/// part: two states with the same bits agree on the day, the hour, the
/// additional exams, Sasha's lecture notes, the location, TERKOM's places
/// and the recursion.
pub proof fn lemma_bits_determine_scalars(a: GameState, b: GameState)
    requires
        a.current_day_index < 8 && a.current_time.0 < 32 && a.additional_computer_science_exams < 4
            && a.recursion < 32,
        b.current_day_index < 8 && b.current_time.0 < 32 && b.additional_computer_science_exams < 4
            && b.recursion < 32,
        a.spec_bits() == b.spec_bits(),
    ensures
        a.current_day_index == b.current_day_index,
        a.current_time == b.current_time,
        a.additional_computer_science_exams == b.additional_computer_science_exams,
        a.sasha_has_algebra_lecture_notes == b.sasha_has_algebra_lecture_notes,
        a.sasha_has_calculus_lecture_notes == b.sasha_has_calculus_lecture_notes,
        a.sasha_has_geometry_lecture_notes == b.sasha_has_geometry_lecture_notes,
        a.location == b.location,
        a.terkom_has_places == b.terkom_has_places,
        a.recursion == b.recursion,
{
    let pa = a.current_day_index + a.current_time.0 * 8 + a.additional_computer_science_exams * 256
        + bit(a.sasha_has_algebra_lecture_notes) * 1024 + bit(a.sasha_has_calculus_lecture_notes)
        * 2048 + bit(a.sasha_has_geometry_lecture_notes) * 4096 + location_bits(a.location) * 8192
        + bit(a.terkom_has_places) * 65536 + a.recursion * 131072;
    let pb = b.current_day_index + b.current_time.0 * 8 + b.additional_computer_science_exams * 256
        + bit(b.sasha_has_algebra_lecture_notes) * 1024 + bit(b.sasha_has_calculus_lecture_notes)
        * 2048 + bit(b.sasha_has_geometry_lecture_notes) * 4096 + location_bits(b.location) * 8192
        + bit(b.terkom_has_places) * 65536 + b.recursion * 131072;
    assert(0 <= pa < 0x1_0000_0000);
    assert(0 <= pb < 0x1_0000_0000);
    assert(pa == pb);
    assert(a.current_day_index == b.current_day_index);
    assert(a.current_time.0 == b.current_time.0);
    assert(location_bits(a.location) == location_bits(b.location));
}

} // verus!
