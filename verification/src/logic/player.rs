//! The hero.

use crate::logic::cause_of_death::CauseOfDeath;
use crate::logic::characteristics::{BrainLevel, CharismaLevel, HealthLevel, Money, StaminaLevel};
use crate::logic::subject_status::SubjectStatus;
use crate::logic::subjects::{subject_at, subject_index, Subject, SUBJECT_COUNT};
use vstd::prelude::*;

verus! {

#[derive(Debug, Clone, Copy)]
pub struct Player {
    /// One status per subject, indexed by `subject_index`.
    pub subjects: [SubjectStatus; SUBJECT_COUNT],
    /// Получил ли персонаж дискету с новой версией MMHEROES от Diamond
    pub has_mmheroes_floppy: bool,
    pub has_internet: bool,
    /// Пригласил ли сосед на вечеринку сегодня
    pub is_invited: bool,
    pub inception: bool,
    pub is_employed_at_terkom: bool,
    pub got_stipend: bool,
    pub has_roundtrip_train_ticket: bool,
    pub knows_djug: bool,
    /// Последний зачёт, который пытался сдать игрок. Он может присниться.
    pub last_exam: Option<Subject>,
    pub god_mode: bool,
    /// Запах чеснока изо рта
    pub garlic: i16,
    pub health: HealthLevel,
    pub money: Money,
    pub brain: BrainLevel,
    pub stamina: StaminaLevel,
    pub charisma: CharismaLevel,
    pub cause_of_death: Option<CauseOfDeath>,
}

impl Player {
    pub open spec fn wf(self) -> bool {
        forall|i: int|
            0 <= i < 6 ==> (#[trigger] self.subjects[i]).subject == subject_at(i)
                && self.subjects[i].wf()
    }

    pub open spec fn status(self, subject: Subject) -> SubjectStatus {
        self.subjects[subject_index(subject)]
    }

    /// A fresh hero. Every subject starts with some knowledge, less than the
    /// hero's brain.
    pub fn new(
        god_mode: bool,
        health: HealthLevel,
        brain: BrainLevel,
        stamina: StaminaLevel,
        charisma: CharismaLevel,
        knowledge: [BrainLevel; SUBJECT_COUNT],
    ) -> (r: Player)
        requires
            forall|i: int| 0 <= i < 6 ==> #[trigger] knowledge[i] < brain,
        ensures
            r.wf(),
            forall|i: int|
                0 <= i < 6 ==> (#[trigger] r.subjects[i]) == (SubjectStatus {
                    subject: subject_at(i),
                    knowledge: knowledge[i],
                    passed_exam_day_index: None,
                    problems_done: 0,
                    has_lecture_notes: false,
                }),
            r.god_mode == god_mode,
            r.health == health,
            r.brain == brain,
            r.stamina == stamina,
            r.charisma == charisma,
            r.money.0 == 0,
            r.garlic == 0,
            r.cause_of_death is None,
            r.last_exam is None,
            !r.has_mmheroes_floppy && !r.has_internet && !r.is_invited && !r.inception
                && !r.is_employed_at_terkom && !r.got_stipend && !r.has_roundtrip_train_ticket
                && !r.knows_djug,
    {
        let all = Subject::all_subjects();
        Player {
            subjects: [
                SubjectStatus::new(all[0], knowledge[0]),
                SubjectStatus::new(all[1], knowledge[1]),
                SubjectStatus::new(all[2], knowledge[2]),
                SubjectStatus::new(all[3], knowledge[3]),
                SubjectStatus::new(all[4], knowledge[4]),
                SubjectStatus::new(all[5], knowledge[5]),
            ],
            has_mmheroes_floppy: false,
            has_internet: false,
            is_invited: false,
            inception: false,
            is_employed_at_terkom: false,
            got_stipend: false,
            has_roundtrip_train_ticket: false,
            knows_djug: false,
            last_exam: None,
            god_mode,
            garlic: 0,
            health,
            money: Money(0),
            brain,
            stamina,
            charisma,
            cause_of_death: None,
        }
    }

    pub fn status_for_subject(&self, subject: Subject) -> (r: &SubjectStatus)
        ensures
            *r == self.status(subject),
    {
        &self.subjects[subject.index()]
    }

    pub fn status_for_subject_mut(&mut self, subject: Subject) -> (r: &mut SubjectStatus)
        ensures
            *r == old(self).status(subject),
            final(self).subjects@ == old(self).subjects@.update(subject_index(subject), *final(r)),
            *final(self) == (Player { subjects: final(self).subjects, ..*old(self) }),
    {
        &mut self.subjects[subject.index()]
    }

    /// The number of exams not passed yet.
    pub fn exams_left(&self) -> (r: usize)
        ensures
            r == self.subjects@.filter(|s: SubjectStatus| !s.spec_passed()).len(),
    {
        let mut count: usize = 0;
        let mut i: usize = 0;
        while i < SUBJECT_COUNT
            invariant
                i <= 6,
                count == self.subjects@.take(i as int).filter(
                    |s: SubjectStatus| !s.spec_passed(),
                ).len(),
            decreases 6 - i,
        {
            proof {
                reveal_with_fuel(Seq::filter, 1);
                assert(self.subjects@.take(i + 1).drop_last() =~= self.subjects@.take(i as int));
                self.subjects@.take(i as int).lemma_filter_len(|s: SubjectStatus| !s.spec_passed());
            }
            if !self.subjects[i].passed() {
                count = count + 1;
            }
            i = i + 1;
        }
        assert(self.subjects@.take(6) =~= self.subjects@);
        count
    }

    pub fn is_god_mode(&self) -> (r: bool)
        ensures
            r == self.god_mode,
    {
        self.god_mode
    }

    pub fn has_mmheroes_floppy(&self) -> (r: bool)
        ensures
            r == self.has_mmheroes_floppy,
    {
        self.has_mmheroes_floppy
    }

    pub fn set_has_mmheroes_floppy(&mut self)
        ensures
            *final(self) == (Player { has_mmheroes_floppy: true, ..*old(self) }),
    {
        self.has_mmheroes_floppy = true;
    }

    pub fn has_internet(&self) -> (r: bool)
        ensures
            r == self.has_internet,
    {
        self.has_internet
    }

    pub fn set_has_internet(&mut self)
        ensures
            *final(self) == (Player { has_internet: true, ..*old(self) }),
    {
        self.has_internet = true;
    }

    pub fn is_employed_at_terkom(&self) -> (r: bool)
        ensures
            r == self.is_employed_at_terkom,
    {
        self.is_employed_at_terkom
    }

    pub fn set_employed_at_terkom(&mut self)
        ensures
            *final(self) == (Player { is_employed_at_terkom: true, ..*old(self) }),
    {
        self.is_employed_at_terkom = true;
    }

    pub fn health(&self) -> (r: HealthLevel)
        ensures
            r == self.health,
    {
        self.health
    }

    pub fn money(&self) -> (r: Money)
        ensures
            r == self.money,
    {
        self.money
    }

    pub fn got_stipend(&self) -> (r: bool)
        ensures
            r == self.got_stipend,
    {
        self.got_stipend
    }

    pub fn set_got_stipend(&mut self)
        ensures
            *final(self) == (Player { got_stipend: true, ..*old(self) }),
    {
        self.got_stipend = true;
    }

    pub fn has_roundtrip_train_ticket(&self) -> (r: bool)
        ensures
            r == self.has_roundtrip_train_ticket,
    {
        self.has_roundtrip_train_ticket
    }

    pub fn set_has_roundtrip_train_ticket(&mut self, value: bool)
        ensures
            *final(self) == (Player { has_roundtrip_train_ticket: value, ..*old(self) }),
    {
        self.has_roundtrip_train_ticket = value;
    }

    pub fn last_exam(&self) -> (r: Option<Subject>)
        ensures
            r == self.last_exam,
    {
        self.last_exam
    }

    pub fn set_last_exam(&mut self, subject: Subject)
        ensures
            *final(self) == (Player { last_exam: Some(subject), ..*old(self) }),
    {
        self.last_exam = Some(subject);
    }

    pub fn knows_djug(&self) -> (r: bool)
        ensures
            r == self.knows_djug,
    {
        self.knows_djug
    }

    pub fn set_knows_djug(&mut self, value: bool)
        ensures
            *final(self) == (Player { knows_djug: value, ..*old(self) }),
    {
        self.knows_djug = value;
    }

    pub fn is_invited_to_party(&self) -> (r: bool)
        ensures
            r == self.is_invited,
    {
        self.is_invited
    }

    pub fn set_invited_to_party(&mut self, value: bool)
        ensures
            *final(self) == (Player { is_invited: value, ..*old(self) }),
    {
        self.is_invited = value;
    }

    pub fn brain(&self) -> (r: BrainLevel)
        ensures
            r == self.brain,
    {
        self.brain
    }

    pub fn stamina(&self) -> (r: StaminaLevel)
        ensures
            r == self.stamina,
    {
        self.stamina
    }

    pub fn charisma(&self) -> (r: CharismaLevel)
        ensures
            r == self.charisma,
    {
        self.charisma
    }

    pub fn cause_of_death(&self) -> (r: Option<CauseOfDeath>)
        ensures
            r == self.cause_of_death,
    {
        self.cause_of_death
    }
}

} // verus!
