//! The hero's characteristics and how they are described to the player.

use crate::logic::subjects::{Subject, spec_assessment_bounds};
use vstd::prelude::*;

verus! {

pub type HealthLevel = i16;

pub type BrainLevel = i16;

pub type StaminaLevel = i16;

pub type CharismaLevel = i16;

#[derive(Clone, Copy, Eq, PartialEq, Ord, PartialOrd, Debug, Structural)]
pub struct Money(pub i16);

pub const LOCATION_CHANGE_LARGE_HEALTH_PENALTY: HealthLevel = 3;

pub const LOCATION_CHANGE_SMALL_HEALTH_PENALTY: HealthLevel = 2;

/// The first entry of `scale` whose bound exceeds `value`, or `default`.
pub open spec fn assessed<T>(scale: Seq<(i16, T)>, value: i16, default: T) -> T
    decreases scale.len(),
{
    if scale.len() == 0 {
        default
    } else if value < scale[0].0 {
        scale[0].1
    } else {
        assessed(scale.subrange(1, scale.len() as int), value, default)
    }
}

/// Looks a value up on a scale of `(exclusive upper bound, assessment)` pairs
/// sorted by bound; values beyond the last bound get `default`.
pub fn assess<T: Copy>(scale: &[(i16, T)], value: i16, default: T) -> (r: T)
    ensures
        r == assessed(scale@, value, default),
{
    let mut i: usize = 0;
    assert(scale@.subrange(0, scale@.len() as int) =~= scale@);
    while i < scale.len()
        invariant
            i <= scale@.len(),
            assessed(scale@, value, default) == assessed(
                scale@.subrange(i as int, scale@.len() as int),
                value,
                default,
            ),
        decreases scale@.len() - i,
    {
        let ghost rest = scale@.subrange(i as int, scale@.len() as int);
        assert(rest[0] == scale@[i as int]);
        assert(rest.subrange(1, rest.len() as int) =~= scale@.subrange(
            i + 1,
            scale@.len() as int,
        ));
        if value < scale[i].0 {
            return scale[i].1;
        }
        i = i + 1;
    }
    assert(scale@.subrange(i as int, scale@.len() as int).len() == 0);
    default
}

#[derive(Debug, Copy, Clone, Ord, PartialOrd, Eq, PartialEq, Structural)]
pub enum HealthAssessment {
    /// "живой труп"
    LivingDead,
    /// "пора помирать ..."
    TimeToDie,
    /// "плохое"
    Bad,
    /// "так себе"
    SoSo,
    /// "среднее"
    Average,
    /// "хорошее"
    Good,
    /// "отличное"
    Great,
}

pub open spec fn health_assessment(level: HealthLevel) -> HealthAssessment {
    if level < 1 {
        HealthAssessment::LivingDead
    } else if level < 9 {
        HealthAssessment::TimeToDie
    } else if level < 17 {
        HealthAssessment::Bad
    } else if level < 25 {
        HealthAssessment::SoSo
    } else if level < 33 {
        HealthAssessment::Average
    } else if level < 41 {
        HealthAssessment::Good
    } else {
        HealthAssessment::Great
    }
}

impl HealthAssessment {
    pub fn from_health_level(level: HealthLevel) -> (r: HealthAssessment)
        ensures
            r == health_assessment(level),
    {
        let scale = [
            (1, HealthAssessment::LivingDead),
            (9, HealthAssessment::TimeToDie),
            (17, HealthAssessment::Bad),
            (25, HealthAssessment::SoSo),
            (33, HealthAssessment::Average),
            (41, HealthAssessment::Good),
        ];
        let r = assess(scale.as_slice(), level, HealthAssessment::Great);
        proof {
            reveal_with_fuel(assessed, 7);
            assert(scale@ =~= seq![
                (1i16, HealthAssessment::LivingDead),
                (9i16, HealthAssessment::TimeToDie),
                (17i16, HealthAssessment::Bad),
                (25i16, HealthAssessment::SoSo),
                (33i16, HealthAssessment::Average),
                (41i16, HealthAssessment::Good),
            ]);
        }
        r
    }
}

impl Money {
    /// The sum of two amounts.
    pub fn plus(self, other: Money) -> (r: Money)
        requires
            i16::MIN <= self.0 + other.0 <= i16::MAX,
        ensures
            r.0 == self.0 + other.0,
    {
        Money(self.0 + other.0)
    }

    /// The first amount less the second.
    pub fn minus(self, other: Money) -> (r: Money)
        requires
            i16::MIN <= self.0 - other.0 <= i16::MAX,
        ensures
            r.0 == self.0 - other.0,
    {
        Money(self.0 - other.0)
    }

    /// The amount `value`, if it fits.
    pub fn from_u64(value: u64) -> (r: Option<Money>)
        ensures
            r == (if value <= i16::MAX as u64 {
                Some(Money(value as i16))
            } else {
                None
            }),
    {
        if value <= i16::MAX as u64 {
            Some(Money(value as i16))
        } else {
            None
        }
    }

    /// The amount as an unsigned number, if it is not negative.
    pub fn to_u64(self) -> (r: Option<u64>)
        ensures
            r == (if self.0 >= 0 {
                Some(self.0 as u64)
            } else {
                None
            }),
    {
        if self.0 >= 0 {
            Some(self.0 as u64)
        } else {
            None
        }
    }

    pub fn zero() -> (r: Money)
        ensures
            r.0 == 0,
    {
        Money(0)
    }

    /// Стоимость настойки овса для Коли
    pub fn oat_tincture_cost() -> (r: Money)
        ensures
            r.0 == 15,
    {
        Money(15)
    }

    /// Размер стипендии
    pub fn stipend() -> (r: Money)
        ensures
            r.0 == 50,
    {
        Money(50)
    }

    /// Стоимость стакана колы в мавзолее
    pub fn cola_cost() -> (r: Money)
        ensures
            r.0 == 4,
    {
        Money(4)
    }

    /// Стоимость супа в мавзолее
    pub fn soup_cost() -> (r: Money)
        ensures
            r.0 == 6,
    {
        Money(6)
    }

    /// Стоимость пива в мавзолее
    pub fn beer_cost() -> (r: Money)
        ensures
            r.0 == 8,
    {
        Money(8)
    }

    /// Стоимость чая/кофе в буфете ПУНКа/ПОМИ
    pub fn drink_cost() -> (r: Money)
        ensures
            r.0 == 2,
    {
        Money(2)
    }

    /// Стоимость выпечки в буфете ПУНКа/ПОМИ
    pub fn pastry_cost() -> (r: Money)
        ensures
            r.0 == 4,
    {
        Money(4)
    }

    /// Стоимость чая/кофе с выпечкой в буфете ПУНКа/ПОМИ
    pub fn drink_with_pastry_cost() -> (r: Money)
        ensures
            r.0 == 6,
    {
        Money(6)
    }

    /// Стоимость билета на электричку в ПОМИ и обратно
    pub fn roundtrip_train_ticket_cost() -> (r: Money)
        ensures
            r.0 == 10,
    {
        Money(10)
    }

    /// Стоимость билета на электричку из ПОМИ в ПУНК
    pub fn one_way_train_ticket_cost() -> (r: Money)
        ensures
            r.0 == 5,
    {
        Money(5)
    }
}

#[derive(Debug, Copy, Clone, Ord, PartialOrd, Eq, PartialEq, Structural)]
pub enum KnowledgeAssessment {
    Bad,
    Satisfactory,
    Good,
    VeryGood,
    Excellent,
}

pub open spec fn absolute_knowledge_assessment(knowledge: BrainLevel) -> KnowledgeAssessment {
    if knowledge < 6 {
        KnowledgeAssessment::Bad
    } else if knowledge < 13 {
        KnowledgeAssessment::Satisfactory
    } else if knowledge < 21 {
        KnowledgeAssessment::Good
    } else if knowledge < 31 {
        KnowledgeAssessment::VeryGood
    } else {
        KnowledgeAssessment::Excellent
    }
}

/// The grade that the professor of `subject` gives `knowledge`.
pub open spec fn relative_knowledge_assessment(
    knowledge: BrainLevel,
    subject: Subject,
) -> KnowledgeAssessment {
    let (bad, satisfactory, good) = spec_assessment_bounds(subject);
    if knowledge < bad {
        KnowledgeAssessment::Bad
    } else if knowledge < satisfactory {
        KnowledgeAssessment::Satisfactory
    } else if knowledge < good {
        KnowledgeAssessment::Good
    } else {
        KnowledgeAssessment::Excellent
    }
}

impl KnowledgeAssessment {
    pub fn absolute(knowledge: BrainLevel) -> (r: KnowledgeAssessment)
        ensures
            r == absolute_knowledge_assessment(knowledge),
    {
        let scale = [
            (6, KnowledgeAssessment::Bad),
            (13, KnowledgeAssessment::Satisfactory),
            (21, KnowledgeAssessment::Good),
            (31, KnowledgeAssessment::VeryGood),
        ];
        let r = assess(scale.as_slice(), knowledge, KnowledgeAssessment::Excellent);
        proof {
            reveal_with_fuel(assessed, 5);
            assert(scale@ =~= seq![
                (6i16, KnowledgeAssessment::Bad),
                (13i16, KnowledgeAssessment::Satisfactory),
                (21i16, KnowledgeAssessment::Good),
                (31i16, KnowledgeAssessment::VeryGood),
            ]);
        }
        r
    }

    pub fn relative(knowledge: BrainLevel, subject: Subject) -> (r: KnowledgeAssessment)
        ensures
            r == relative_knowledge_assessment(knowledge, subject),
    {
        let scale = subject.assessment_bounds();
        let r = assess(scale.as_slice(), knowledge, KnowledgeAssessment::Excellent);
        proof {
            reveal_with_fuel(assessed, 4);
            assert(scale@ =~= seq![scale[0], scale[1], scale[2]]);
        }
        r
    }
}

#[derive(Debug, Copy, Clone, Ord, PartialOrd, Eq, PartialEq, Structural)]
pub enum BrainAssessment {
    /// "Клиническая смерть мозга"
    ClinicalBrainDeath,
    /// "Голова просто никакая"
    BrainIsAlmostNonFunctioning,
    /// "Думать практически невозможно"
    ThinkingIsAlmostImpossible,
    /// "Думать трудно"
    ThinkingIsDifficult,
    /// "Голова почти в норме"
    BrainIsAlmostOK,
    /// "Голова в норме"
    BrainIsOK,
    /// "Голова свежая"
    BrainIsFresh,
    /// "Легкость в мыслях необыкновенная"
    ExtraordinaryEaseOfThought,
    /// "Обратитесь к разработчику ;)"
    ContactTheDeveloper,
}

pub open spec fn brain_assessment(level: BrainLevel) -> BrainAssessment {
    if level < 0 {
        BrainAssessment::ClinicalBrainDeath
    } else if level < 1 {
        BrainAssessment::BrainIsAlmostNonFunctioning
    } else if level < 2 {
        BrainAssessment::ThinkingIsAlmostImpossible
    } else if level < 3 {
        BrainAssessment::ThinkingIsDifficult
    } else if level < 4 {
        BrainAssessment::BrainIsAlmostOK
    } else if level < 5 {
        BrainAssessment::BrainIsOK
    } else if level < 6 {
        BrainAssessment::BrainIsFresh
    } else if level < 101 {
        BrainAssessment::ExtraordinaryEaseOfThought
    } else {
        BrainAssessment::ContactTheDeveloper
    }
}

impl BrainAssessment {
    /// Brain levels of 101 and above are not expected ("Чересчур умный").
    pub fn from_brain_level(brain_level: BrainLevel) -> (r: BrainAssessment)
        requires
            brain_level < 101,
        ensures
            r == brain_assessment(brain_level),
            r != BrainAssessment::ContactTheDeveloper,
    {
        let scale = [
            (0, BrainAssessment::ClinicalBrainDeath),
            (1, BrainAssessment::BrainIsAlmostNonFunctioning),
            (2, BrainAssessment::ThinkingIsAlmostImpossible),
            (3, BrainAssessment::ThinkingIsDifficult),
            (4, BrainAssessment::BrainIsAlmostOK),
            (5, BrainAssessment::BrainIsOK),
            (6, BrainAssessment::BrainIsFresh),
            (101, BrainAssessment::ExtraordinaryEaseOfThought),
        ];
        let r = assess(scale.as_slice(), brain_level, BrainAssessment::ContactTheDeveloper);
        proof {
            reveal_with_fuel(assessed, 9);
            assert(scale@ =~= seq![
                (0i16, BrainAssessment::ClinicalBrainDeath),
                (1i16, BrainAssessment::BrainIsAlmostNonFunctioning),
                (2i16, BrainAssessment::ThinkingIsAlmostImpossible),
                (3i16, BrainAssessment::ThinkingIsDifficult),
                (4i16, BrainAssessment::BrainIsAlmostOK),
                (5i16, BrainAssessment::BrainIsOK),
                (6i16, BrainAssessment::BrainIsFresh),
                (101i16, BrainAssessment::ExtraordinaryEaseOfThought),
            ]);
        }
        r
    }
}

#[derive(Debug, Copy, Clone, Ord, PartialOrd, Eq, PartialEq, Structural)]
pub enum StaminaAssessment {
    /// "Мама, роди меня обратно!"
    MamaTakeMeBack,
    /// "Окончательно заучился"
    CompletelyOverstudied,
    /// "Я так больше немогууу!"
    ICantTakeIt,
    /// "Скорее бы все это кончилось..."
    IWishItAllEndedSoon,
    /// "Еще немного и пора отдыхать"
    ALittleMoreAndThenRest,
    /// "Немного устал"
    ABitTired,
    /// "Готов к труду и обороне"
    ReadyForEverything,
    /// "Нас ждут великие дела"
    GreatThingsAwaitUs,
}

pub open spec fn stamina_assessment(level: StaminaLevel) -> StaminaAssessment {
    if level < 0 {
        StaminaAssessment::MamaTakeMeBack
    } else if level < 1 {
        StaminaAssessment::CompletelyOverstudied
    } else if level < 2 {
        StaminaAssessment::ICantTakeIt
    } else if level < 3 {
        StaminaAssessment::IWishItAllEndedSoon
    } else if level < 4 {
        StaminaAssessment::ALittleMoreAndThenRest
    } else if level < 5 {
        StaminaAssessment::ABitTired
    } else if level < 6 {
        StaminaAssessment::ReadyForEverything
    } else {
        StaminaAssessment::GreatThingsAwaitUs
    }
}

impl StaminaAssessment {
    pub fn from_stamina_level(stamina_level: StaminaLevel) -> (r: StaminaAssessment)
        ensures
            r == stamina_assessment(stamina_level),
    {
        let scale = [
            (0, StaminaAssessment::MamaTakeMeBack),
            (1, StaminaAssessment::CompletelyOverstudied),
            (2, StaminaAssessment::ICantTakeIt),
            (3, StaminaAssessment::IWishItAllEndedSoon),
            (4, StaminaAssessment::ALittleMoreAndThenRest),
            (5, StaminaAssessment::ABitTired),
            (6, StaminaAssessment::ReadyForEverything),
        ];
        let r = assess(scale.as_slice(), stamina_level, StaminaAssessment::GreatThingsAwaitUs);
        proof {
            reveal_with_fuel(assessed, 8);
            assert(scale@ =~= seq![
                (0i16, StaminaAssessment::MamaTakeMeBack),
                (1i16, StaminaAssessment::CompletelyOverstudied),
                (2i16, StaminaAssessment::ICantTakeIt),
                (3i16, StaminaAssessment::IWishItAllEndedSoon),
                (4i16, StaminaAssessment::ALittleMoreAndThenRest),
                (5i16, StaminaAssessment::ABitTired),
                (6i16, StaminaAssessment::ReadyForEverything),
            ]);
        }
        r
    }
}

#[derive(Debug, Copy, Clone, Ord, PartialOrd, Eq, PartialEq, Structural)]
pub enum CharismaAssessment {
    /// "Очень замкнутый товарищ"
    VeryIntroverted,
    /// "Предпочитаешь одиночество"
    PreferSolitariness,
    /// "Тебе трудно общаться с людьми"
    VeryHardToTalkToPeople,
    /// "Тебе непросто общаться с людьми"
    NotEasyToTalkToPeople,
    /// "Ты нормально относишься к окружающим"
    Normal,
    /// "У тебя много друзей"
    ManyFriends,
    /// "У тебя очень много друзей"
    TonsOfFriends,
}

pub open spec fn charisma_assessment(level: CharismaLevel) -> CharismaAssessment {
    if level < 1 {
        CharismaAssessment::VeryIntroverted
    } else if level < 2 {
        CharismaAssessment::PreferSolitariness
    } else if level < 3 {
        CharismaAssessment::VeryHardToTalkToPeople
    } else if level < 4 {
        CharismaAssessment::NotEasyToTalkToPeople
    } else if level < 5 {
        CharismaAssessment::Normal
    } else if level < 6 {
        CharismaAssessment::ManyFriends
    } else {
        CharismaAssessment::TonsOfFriends
    }
}

impl CharismaAssessment {
    pub fn from_charisma_level(charisma_level: CharismaLevel) -> (r: CharismaAssessment)
        ensures
            r == charisma_assessment(charisma_level),
    {
        let scale = [
            (1, CharismaAssessment::VeryIntroverted),
            (2, CharismaAssessment::PreferSolitariness),
            (3, CharismaAssessment::VeryHardToTalkToPeople),
            (4, CharismaAssessment::NotEasyToTalkToPeople),
            (5, CharismaAssessment::Normal),
            (6, CharismaAssessment::ManyFriends),
        ];
        let r = assess(scale.as_slice(), charisma_level, CharismaAssessment::TonsOfFriends);
        proof {
            reveal_with_fuel(assessed, 7);
            assert(scale@ =~= seq![
                (1i16, CharismaAssessment::VeryIntroverted),
                (2i16, CharismaAssessment::PreferSolitariness),
                (3i16, CharismaAssessment::VeryHardToTalkToPeople),
                (4i16, CharismaAssessment::NotEasyToTalkToPeople),
                (5i16, CharismaAssessment::Normal),
                (6i16, CharismaAssessment::ManyFriends),
            ]);
        }
        r
    }
}

/// The place of a health assessment, from the worst (0) to the best.
pub open spec fn health_rank(a: HealthAssessment) -> int {
    match a {
        HealthAssessment::LivingDead => 0,
        HealthAssessment::TimeToDie => 1,
        HealthAssessment::Bad => 2,
        HealthAssessment::SoSo => 3,
        HealthAssessment::Average => 4,
        HealthAssessment::Good => 5,
        HealthAssessment::Great => 6,
    }
}

/// The place of a brain assessment, from the worst (0) to the best.
pub open spec fn brain_rank(a: BrainAssessment) -> int {
    match a {
        BrainAssessment::ClinicalBrainDeath => 0,
        BrainAssessment::BrainIsAlmostNonFunctioning => 1,
        BrainAssessment::ThinkingIsAlmostImpossible => 2,
        BrainAssessment::ThinkingIsDifficult => 3,
        BrainAssessment::BrainIsAlmostOK => 4,
        BrainAssessment::BrainIsOK => 5,
        BrainAssessment::BrainIsFresh => 6,
        BrainAssessment::ExtraordinaryEaseOfThought => 7,
        BrainAssessment::ContactTheDeveloper => 8,
    }
}

/// The place of a stamina assessment, from the worst (0) to the best.
pub open spec fn stamina_rank(a: StaminaAssessment) -> int {
    match a {
        StaminaAssessment::MamaTakeMeBack => 0,
        StaminaAssessment::CompletelyOverstudied => 1,
        StaminaAssessment::ICantTakeIt => 2,
        StaminaAssessment::IWishItAllEndedSoon => 3,
        StaminaAssessment::ALittleMoreAndThenRest => 4,
        StaminaAssessment::ABitTired => 5,
        StaminaAssessment::ReadyForEverything => 6,
        StaminaAssessment::GreatThingsAwaitUs => 7,
    }
}

/// The place of a charisma assessment, from the worst (0) to the best.
pub open spec fn charisma_rank(a: CharismaAssessment) -> int {
    match a {
        CharismaAssessment::VeryIntroverted => 0,
        CharismaAssessment::PreferSolitariness => 1,
        CharismaAssessment::VeryHardToTalkToPeople => 2,
        CharismaAssessment::NotEasyToTalkToPeople => 3,
        CharismaAssessment::Normal => 4,
        CharismaAssessment::ManyFriends => 5,
        CharismaAssessment::TonsOfFriends => 6,
    }
}

/// More of a characteristic never earns a worse assessment of it.
pub proof fn lemma_assessments_monotone(a: i16, b: i16)
    requires
        a <= b,
    ensures
        health_rank(health_assessment(a)) <= health_rank(health_assessment(b)),
        brain_rank(brain_assessment(a)) <= brain_rank(brain_assessment(b)),
        stamina_rank(stamina_assessment(a)) <= stamina_rank(stamina_assessment(b)),
        charisma_rank(charisma_assessment(a)) <= charisma_rank(charisma_assessment(b)),
{
}

} // verus!
