//! Сдача зачётов.

use crate::logic::actions::Action;
use crate::logic::cause_of_death::CauseOfDeath;
use crate::logic::characteristics::Money;
use crate::logic::game_screen::GameScreen;
use crate::logic::game_state::{GameState, Location};
use crate::logic::misc::{
    can_pass_an_hour, decrease_health, health_decreased, hour_pass, passed_an_hour,
};
use crate::logic::npc::{
    classmate_at, classmate_index, dice_rolled, spec_annoyance, spec_classmate_health_penalty, Classmate,
    ClassmateInfo,
};
use crate::logic::subjects::subject_index;
use crate::logic::player::Player;
use crate::logic::scene_router::train::{
    inspectors, ride_train, rode_train, ticket_cost, BaltiyskiyRailwayStationScene, TrainScene,
};
use crate::logic::timetable::{exam_is_now, Exam, Time};
use crate::logic::subjects::{
    spec_health_penalty, spec_mental_load, spec_single_problem_mental_factor, Subject,
};
use crate::random::{bounded_draw, Rng};
use vstd::prelude::*;

verus! {

#[derive(Debug, Copy, Clone, Eq, PartialEq, Structural)]
pub enum ExamIntro {
    /// Болшая, рассчитанная на поток аудитория кажется забитой народом.
    /// Здесь присутствуют не только твои одногруппники,
    /// но и какие-то не очень знакомые тебе люди
    /// (кажется, прикладники со второго курса).
    /// За столом около доски сидит М. А. Всемирнов
    /// и принимает зачет у студентов.
    /// Ты решаешь не терять времени даром и присоединиться к остальным.
    AlgebraPunkBigCrowdedRoom,

    /// Ты заходишь в небольшую аудиторию, забитую народом.
    /// Около доски сидит весьма своеобразный преподаватель.
    /// Сие своебразие проявляется, в первую очередь, значком
    /// с надписью: "НЕ СТРЕЛЯЕЙТЕ В ПРЕПОДА - ОБУЧАЕТ КАК УМЕЕТ".
    /// "А вы к кому? Максим Александрович в аудитории напротив!"
    /// Похоже, ты не туда попал. Ты извиняешься и идешь к Всемирнову.
    AlgebraPunkWrongRoom,

    /// Маленький кабинет в ПОМИ заполнен людьми.
    /// И, как ни странно, почти все они хотят одного и того же.
    /// Похоже, ты тоже хочешь именно этого -
    /// РАЗДЕЛАТЬСЯ НАКОНЕЦ С ЗАЧЕТОМ ПО АЛГЕБРЕ!
    AlgebraPdmi,

    /// В обычной "групповой" аудитории сидят около 15 человек.
    /// В центре их внимания находится Е.С. Дубцов,
    /// принимающий зачет по матанализу.
    /// Ты получаешь задание и садишься за свободную парту.
    Calculus,

    /// Небольшая, полупустая аудитория.
    /// И доска, и стены, и, похоже, даже пол
    /// исписаны различными геометрическими утверждениями.
    /// В центре всего этого хаоса находится
    /// (или, скорее, постоянно перемещается)
    /// Подкорытов-младший.
    /// Ты радуешься, что смог застать его на факультете!
    GeometryPunk,

    /// В небольшом ПОМИшном кабинете собралось человек 10 студентов.
    /// Кроме них, в комнате ты видишь Подкорытова-младшего,
    /// а также - полного седоволосого лысеющего господина,
    /// издающего характерные пыхтящие звуки.
    /// Ты надеешься, что все это скоро кончится...
    GeometryPdmi,

    /// Климов А.А. сидит и тоскует по халявному Inet'у.
    ComputerScience,

    /// На третьем этаже учебного корпуса Мат-Меха
    /// в одной из аудиторий, закрепленных за кафедрой иностранных языков,
    /// расположилась Н.П. Влащенко.
    /// Стены кабинета выглядят как-то странно.
    /// Рядом с небольшой доской висит изображение Эйфелевой башни,
    /// чуть дальше - странное изображение,
    /// обладающее непостижимым метафизическим смыслом.
    /// Похоже, сейчас ты будешь сдавать зачет по английскому.
    English,

    /// Альбинский проводит лекцию о пользе бега для <…>
    /// Похоже, он, как всегда, немного увлекся.
    /// Немного в нашем случае - 1 час.
    /// Альбинский просит тебя замерить пульс.
    /// Назвав первое пришедшее в замученную математикой голову число,
    /// ты отправляешься мотать круги в парке,
    /// в котором, вообще-то, "запрещены спортивные мероприятия".
    PhysicalEducation(Option<BenefitsOfRunning>),
}

#[derive(Debug, Clone, Copy, Eq, PartialEq, Structural)]
pub enum BenefitsOfRunning {
    /// …для народного хозяйства.
    NationalEconomy,

    /// …для личной жизни.
    PersonalLife,

    /// …для научной работы.
    ScientificResearch,

    /// …для коммунистического строительства.
    BuildingCommunism,

    /// …для учебы и досуга.
    StudyAndEntertainment,

    /// …для спасения от контроллеров.
    EscapingFromInspectors,
}

pub const BENEFITS_OF_RUNNING_COUNT: usize = 6;

impl BenefitsOfRunning {
    pub open spec fn spec_variant_index(self) -> int {
        match self {
            BenefitsOfRunning::NationalEconomy => 0,
            BenefitsOfRunning::PersonalLife => 1,
            BenefitsOfRunning::ScientificResearch => 2,
            BenefitsOfRunning::BuildingCommunism => 3,
            BenefitsOfRunning::StudyAndEntertainment => 4,
            BenefitsOfRunning::EscapingFromInspectors => 5,
        }
    }

    /// The variant at `index` in declaration order.
    pub fn variant(index: usize) -> (r: BenefitsOfRunning)
        requires
            index < BENEFITS_OF_RUNNING_COUNT,
        ensures
            r.spec_variant_index() == index,
    {
        match index {
            0 => BenefitsOfRunning::NationalEconomy,
            1 => BenefitsOfRunning::PersonalLife,
            2 => BenefitsOfRunning::ScientificResearch,
            3 => BenefitsOfRunning::BuildingCommunism,
            4 => BenefitsOfRunning::StudyAndEntertainment,
            _ => BenefitsOfRunning::EscapingFromInspectors,
        }
    }
}

#[derive(Debug, Clone, Copy)]
pub enum ExamScene {
    /// Экран выбора действий во время зачёта
    Router(GameState, Subject),

    /// Попытка сдать зачёт
    ExamSuffering {
        solved_problems: u8,
        too_smart: bool,
    },

    /// Во время сдачи зачёта пристаёт NPC
    ClassmateWantsSomething(GameState, Subject, Classmate),

    /// Выбрали игнорировать NPC.
    IgnoredClassmate { feeling_bad: bool },

    /// Преподаватель уходит.
    ProfessorLeaves(GameState, Subject),

    /// Предложение пойти за преподавателем сдавать зачёт в электричке.
    PromptExamInTrain(GameState, Subject),

    /// Преподаватель согласился принимать зачёт в электричке
    Train(GameState, TrainScene),

    /// Воспроизводим баг оригинальной реализации
    CaughtByInspectorsEmptyScreenBug,

    /// Мучаемся, сдавая зачёт в электричке
    SufferInTrain {
        state: GameState,
        solved_problems: u8,
    },

    /// Преподаватель задерживается ещё на час
    ProfessorLingers(GameState, Subject),

    /// "Всемирнов медленно рисует минус ...
    /// И так же медленно пририсовывает к нему вертикальную палочку!
    /// Уф! Ну и шуточки у него!
    /// Хорошо хоть, зачет поставил..."
    AlgebraExamPassed(GameState),

    /// "Закройте глаза ..."
    EnglishExamPassed(GameState, EnglishExamFeeling),

    /// "Твоя зачетка пополнилась еще одной записью."
    ExamPassed(GameState, Subject),
}

#[derive(Debug, Clone, Copy, Eq, PartialEq, Structural)]
pub enum EnglishExamFeeling {
    /// "Тебе сильно поплохело.
    /// Фея была явно не в настроении."
    ReallyBad,

    /// "Ты почувствовал себя где-то в другом месте."
    SomeplaceElse,

    /// "Ты чувствуешь, что подзабыл алгебру..."
    ForgotAlgebra,

    /// "Ты чувствуешь, что анализ придется учить заново."
    ForgotCalculus,

    /// "В голову постоянно лезут мысли о всяких феях..."
    ThoughtsAboutFairies,

    /// "Ты чувствуешь, что все вокруг жаждут твоей смерти."
    EveryoneWantsYouDead,

    /// "Куда-то подевалась твоя уверенность в себе."
    StaminaGone,

    /// "Голова стала работать заметно лучше."
    BrainGotBetter,

    /// "Ты проникся любовью к окружающему миру.",
    LoveForTheWorld,

    /// "Ты готов к любым испытаниям."
    ReadyForEverything,

    /// "Пока твои глаза были закрыты, кто-то утащил твои деньги!!!"
    /// или
    /// "Ты нашел в своем кармане какие-то деньги!"
    Money,

    /// "Ты чувствуешь, что от тебя сильно несет чесноком.
    /// Не знаю, выветрится ли такой сильный запах..."
    SmellOfGarlic,

    /// "Странное чувство быстро прошло."
    QuicklyFadedAway,
}

pub const ENGLISH_EXAM_FEELING_COUNT: usize = 13;

impl EnglishExamFeeling {
    pub open spec fn spec_variant_index(self) -> int {
        match self {
            EnglishExamFeeling::ReallyBad => 0,
            EnglishExamFeeling::SomeplaceElse => 1,
            EnglishExamFeeling::ForgotAlgebra => 2,
            EnglishExamFeeling::ForgotCalculus => 3,
            EnglishExamFeeling::ThoughtsAboutFairies => 4,
            EnglishExamFeeling::EveryoneWantsYouDead => 5,
            EnglishExamFeeling::StaminaGone => 6,
            EnglishExamFeeling::BrainGotBetter => 7,
            EnglishExamFeeling::LoveForTheWorld => 8,
            EnglishExamFeeling::ReadyForEverything => 9,
            EnglishExamFeeling::Money => 10,
            EnglishExamFeeling::SmellOfGarlic => 11,
            EnglishExamFeeling::QuicklyFadedAway => 12,
        }
    }

    /// The variant at `index` in declaration order.
    pub fn variant(index: usize) -> (r: EnglishExamFeeling)
        requires
            index < ENGLISH_EXAM_FEELING_COUNT,
        ensures
            r.spec_variant_index() == index,
    {
        match index {
            0 => EnglishExamFeeling::ReallyBad,
            1 => EnglishExamFeeling::SomeplaceElse,
            2 => EnglishExamFeeling::ForgotAlgebra,
            3 => EnglishExamFeeling::ForgotCalculus,
            4 => EnglishExamFeeling::ThoughtsAboutFairies,
            5 => EnglishExamFeeling::EveryoneWantsYouDead,
            6 => EnglishExamFeeling::StaminaGone,
            7 => EnglishExamFeeling::BrainGotBetter,
            8 => EnglishExamFeeling::LoveForTheWorld,
            9 => EnglishExamFeeling::ReadyForEverything,
            10 => EnglishExamFeeling::Money,
            11 => EnglishExamFeeling::SmellOfGarlic,
            _ => EnglishExamFeeling::QuicklyFadedAway,
        }
    }
}

/// `k` is √`capacity` / `factor` rounded to the nearest integer, halves up:
/// `k - 1/2 <= √capacity / factor < k + 1/2`, squared and cleared of
/// fractions.
pub open spec fn is_rounded_root_ratio(capacity: int, factor: int, k: int) -> bool {
    &&& k >= 0
    &&& (k == 0 || factor * factor * (2 * k - 1) * (2 * k - 1) <= 4 * capacity)
    &&& 4 * capacity < factor * factor * (2 * k + 1) * (2 * k + 1)
}

/// The root is rounded to the nearest, halves up: a capacity of
/// `f²·(k² + k)`, just short of `(k + ½)·f` squared, earns `k` problems,
/// and one of `f²·(k² + k + 1)`, past it, earns `k + 1`.
pub proof fn lemma_rounding_to_nearest(factor: int, k: int)
    requires
        factor > 0,
        k >= 0,
    ensures
        is_rounded_root_ratio(factor * factor * (k * k + k), factor, k),
        is_rounded_root_ratio(factor * factor * (k * k + k + 1), factor, k + 1),
{
    let ff = factor * factor;
    assert(factor * factor > 0) by (nonlinear_arith)
        requires
            factor > 0,
    ;
    assert(ff * (2 * k - 1) * (2 * k - 1) == ff * (4 * k * k - 4 * k + 1)) by (nonlinear_arith);
    assert(ff * (2 * k + 1) * (2 * k + 1) == ff * (4 * k * k + 4 * k + 1)) by (nonlinear_arith);
    assert(ff * (2 * (k + 1) + 1) * (2 * (k + 1) + 1) == ff * (4 * k * k + 12 * k + 9))
        by (nonlinear_arith);
    assert(ff * (2 * (k + 1) - 1) * (2 * (k + 1) - 1) == ff * (4 * k * k + 4 * k + 1))
        by (nonlinear_arith);
    assert(4 * (ff * (k * k + k)) == ff * (4 * k * k + 4 * k)) by (nonlinear_arith);
    assert(4 * (ff * (k * k + k + 1)) == ff * (4 * k * k + 4 * k + 4)) by (nonlinear_arith);
    if k >= 1 {
        assert(ff * (4 * k * k - 4 * k + 1) <= ff * (4 * k * k + 4 * k)) by (nonlinear_arith)
            requires
                ff > 0,
                k >= 1,
        ;
    }
    assert(ff * (4 * k * k + 4 * k) < ff * (4 * k * k + 4 * k + 1)) by (nonlinear_arith)
        requires
            ff > 0,
    ;
    assert(ff * (4 * k * k + 4 * k + 1) <= ff * (4 * k * k + 4 * k + 4)) by (nonlinear_arith)
        requires
            ff > 0,
    ;
    assert(ff * (4 * k * k + 4 * k + 4) < ff * (4 * k * k + 12 * k + 9)) by (nonlinear_arith)
        requires
            ff > 0,
            k >= 0,
    ;
}

/// The rounded ratio is unique, so it is a function of the capacity and the
/// factor.
pub proof fn lemma_rounded_root_ratio_unique(capacity: int, factor: int, k1: int, k2: int)
    requires
        factor > 0,
        is_rounded_root_ratio(capacity, factor, k1),
        is_rounded_root_ratio(capacity, factor, k2),
    ensures
        k1 == k2,
{
    if k1 < k2 {
        lemma_square_grows(factor, 2 * k1 + 1, 2 * k2 - 1);
    } else if k2 < k1 {
        lemma_square_grows(factor, 2 * k2 + 1, 2 * k1 - 1);
    }
}

/// More capacity never earns fewer accepted problems.
pub proof fn lemma_rounded_root_ratio_monotone(c1: int, c2: int, factor: int, k1: int, k2: int)
    requires
        factor > 0,
        c1 <= c2,
        is_rounded_root_ratio(c1, factor, k1),
        is_rounded_root_ratio(c2, factor, k2),
    ensures
        k1 <= k2,
{
    if k2 < k1 {
        lemma_square_grows(factor, 2 * k2 + 1, 2 * k1 - 1);
    }
}

proof fn lemma_square_grows(f: int, a: int, b: int)
    requires
        f > 0,
        0 <= a <= b,
    ensures
        f * f * a * a <= f * f * b * b,
{
    assert(a * a <= b * b) by (nonlinear_arith)
        requires
            0 <= a <= b,
    ;
    assert(f * f * (a * a) <= f * f * (b * b)) by (nonlinear_arith)
        requires
            a * a <= b * b,
    ;
    assert(f * f * a * a == f * f * (a * a)) by (nonlinear_arith);
    assert(f * f * b * b == f * f * (b * b)) by (nonlinear_arith);
}

/// The number of problems that a mental `capacity` earns when one problem
/// costs `factor`: √capacity / factor rounded to the nearest integer, or
/// nothing for a capacity that is not positive.
pub fn problems_accepted(capacity: i32, factor: i16) -> (r: u8)
    requires
        capacity <= i16::MAX,
        1 <= factor <= 3,
    ensures
        capacity <= 0 ==> r == 0,
        capacity > 0 ==> is_rounded_root_ratio(capacity as int, factor as int, r as int),
{
    if capacity <= 0 {
        return 0;
    }
    let f = factor as i64;
    let c4 = 4 * capacity as i64;
    let mut k: i64 = 0;
    loop
        invariant
            0 <= k <= 182,
            1 <= f <= 3,
            0 < c4 <= 4 * 32767,
            c4 == 4 * capacity,
            k == 0 || f * f * (2 * k - 1) * (2 * k - 1) <= c4,
        ensures
            0 <= k <= 182,
            k == 0 || f * f * (2 * k - 1) * (2 * k - 1) <= c4,
            c4 < f * f * (2 * k + 1) * (2 * k + 1),
        decreases 182 - k,
    {
        let odd = 2 * k + 1;
        proof {
            assert(f * f <= 9) by (nonlinear_arith)
                requires
                    1 <= f <= 3,
            ;
            assert(odd * odd <= 365 * 365) by (nonlinear_arith)
                requires
                    0 <= odd <= 365,
            ;
            assert(f * f * (odd * odd) <= 9 * 365 * 365) by (nonlinear_arith)
                requires
                    1 <= f <= 3,
                    0 <= odd <= 365,
            ;
            assert(f * f * (odd * odd) == f * f * odd * odd) by (nonlinear_arith);
        }
        if f * f * (odd * odd) > c4 {
            break;
        }
        proof {
            assert(odd * odd <= f * f * (odd * odd)) by (nonlinear_arith)
                requires
                    1 <= f,
            ;
            assert(odd <= 362) by (nonlinear_arith)
                requires
                    odd * odd <= 4 * 32767,
                    0 <= odd,
            ;
        }
        k = k + 1;
    }
    k as u8
}

/// The mental capacity that a hero brings to an exam: his knowledge of the
/// subject plus the roll `brain_roll` against his brain, less the subject's
/// load, cut to three quarters (rounded toward zero) in a train, less the
/// roll `health_roll` against how poorly he feels.
pub open spec fn mental_capacity(
    knowledge: int,
    brain_roll: int,
    mental_load: int,
    in_train: bool,
    health_roll: int,
) -> int {
    let c = knowledge + brain_roll - mental_load;
    let c = if in_train {
        if c >= 0 {
            c * 3 / 4
        } else {
            -((-c) * 3 / 4)
        }
    } else {
        c
    };
    c - health_roll
}

/// Knowledge counts one for one: off a train the mental capacity is the
/// knowledge plus the brain roll, less the subject's load and the health
/// roll, so each point of knowledge adds exactly one; in a train the sum
/// before the health roll is cut to three quarters, rounded toward zero.
pub proof fn lemma_mental_capacity_counts_knowledge(
    knowledge: int,
    brain_roll: int,
    mental_load: int,
    health_roll: int,
)
    ensures
        mental_capacity(knowledge, brain_roll, mental_load, false, health_roll) == knowledge
            + brain_roll - mental_load - health_roll,
        mental_capacity(knowledge + 1, brain_roll, mental_load, false, health_roll) == mental_capacity(
            knowledge,
            brain_roll,
            mental_load,
            false,
            health_roll,
        ) + 1,
        ({
            let sum = knowledge + brain_roll - mental_load;
            let cut = mental_capacity(knowledge, brain_roll, mental_load, true, health_roll)
                + health_roll;
            &&& sum >= 0 ==> 0 <= cut && 4 * cut <= 3 * sum < 4 * cut + 4
            &&& sum < 0 ==> cut <= 0 && 4 * (-cut) <= 3 * (-sum) < 4 * (-cut) + 4
        }),
{
    let sum = knowledge + brain_roll - mental_load;
    if sum >= 0 {
        assert(0 <= sum * 3 / 4 && 4 * (sum * 3 / 4) <= 3 * sum < 4 * (sum * 3 / 4) + 4)
            by (nonlinear_arith)
            requires
                sum >= 0,
        ;
    } else {
        let neg = -sum;
        assert(0 <= neg * 3 / 4 && 4 * (neg * 3 / 4) <= 3 * neg < 4 * (neg * 3 / 4) + 4)
            by (nonlinear_arith)
            requires
                neg > 0,
        ;
    }
}

proof fn lemma_train_cut_monotone(x: int, y: int)
    requires
        x <= y,
    ensures
        (if x >= 0 {
            x * 3 / 4
        } else {
            -((-x) * 3 / 4)
        }) <= (if y >= 0 {
            y * 3 / 4
        } else {
            -((-y) * 3 / 4)
        }),
{
    if x >= 0 {
        assert(x * 3 / 4 <= y * 3 / 4) by (nonlinear_arith)
            requires
                0 <= x <= y,
        ;
    } else if y >= 0 {
        assert((-x) * 3 / 4 >= 0) by (nonlinear_arith)
            requires
                x < 0,
        ;
        assert(y * 3 / 4 >= 0) by (nonlinear_arith)
            requires
                y >= 0,
        ;
    } else {
        assert((-y) * 3 / 4 <= (-x) * 3 / 4) by (nonlinear_arith)
            requires
                0 < -y <= -x,
        ;
    }
}

/// What a try at an exam rests on: the brain roll is below the hero's brain
/// (none for a hero without brain), the health roll is below 5 less his
/// health and only a hero with less than 5 health draws one; the problems
/// accepted are never negative nor more than remain; and off a train a hero
/// whose knowledge plus brain roll, less the load and the health roll,
/// comes to nothing gets none.
pub proof fn lemma_try_rests_on_rolls(
    state: GameState,
    subject: Subject,
    in_train: bool,
    brain_roll: int,
    health_roll: int,
    r: int,
)
    requires
        accepted_on_try(state, subject, in_train, brain_roll, health_roll, r),
    ensures
        state.player.brain > 0 ==> 0 <= brain_roll < state.player.brain,
        state.player.brain <= 0 ==> brain_roll == 0,
        state.player.health >= 5 ==> health_roll == 0,
        state.player.health < 5 ==> 0 <= health_roll < 5 - state.player.health,
        0 <= r <= state.player.status(subject).spec_problems_remaining(),
        !in_train && state.player.status(subject).knowledge + brain_roll - spec_mental_load(subject)
            - health_roll <= 0 ==> r == 0,
{
    reveal(accepted_on_try);
    lemma_mental_capacity_counts_knowledge(
        state.player.status(subject).knowledge as int,
        brain_roll,
        spec_mental_load(subject) as int,
        health_roll,
    );
}

/// More knowledge never earns fewer problems: two heroes who differ in
/// their knowledge of the subject, with the same rolls, the same brain and
/// health and as many problems left, get at least as many accepted the one
/// who knows more.
pub proof fn lemma_accepted_monotone_in_knowledge(
    s1: GameState,
    s2: GameState,
    subject: Subject,
    in_train: bool,
    brain_roll: int,
    health_roll: int,
    r1: int,
    r2: int,
)
    requires
        accepted_on_try(s1, subject, in_train, brain_roll, health_roll, r1),
        accepted_on_try(s2, subject, in_train, brain_roll, health_roll, r2),
        s1.player.status(subject).knowledge <= s2.player.status(subject).knowledge,
        s1.player.brain == s2.player.brain,
        s1.player.health == s2.player.health,
        s1.player.status(subject).spec_problems_remaining() == s2.player.status(
            subject,
        ).spec_problems_remaining(),
    ensures
        r1 <= r2,
{
    reveal(accepted_on_try);
    let load = spec_mental_load(subject) as int;
    let k1 = s1.player.status(subject).knowledge as int;
    let k2 = s2.player.status(subject).knowledge as int;
    let c1 = mental_capacity(k1, brain_roll, load, in_train, health_roll);
    let c2 = mental_capacity(k2, brain_roll, load, in_train, health_roll);
    lemma_train_cut_monotone(k1 + brain_roll - load, k2 + brain_roll - load);
    assert(c1 <= c2);
    let f = spec_single_problem_mental_factor(subject) as int;
    assert(f > 0);
    if c1 > 0 {
        let a = choose|k: int| #[trigger] is_rounded_root_ratio(c1, f, k) && r1 == (if (s1.player.status(subject).spec_problems_remaining() as int) < k {
            s1.player.status(subject).spec_problems_remaining() as int
        } else {
            k
        });
        let b = choose|k: int| #[trigger] is_rounded_root_ratio(c2, f, k) && r2 == (if (s2.player.status(subject).spec_problems_remaining() as int) < k {
            s2.player.status(subject).spec_problems_remaining() as int
        } else {
            k
        });
        lemma_rounded_root_ratio_monotone(c1, c2, f, a, b);
    } else if c2 > 0 {
        let b = choose|k: int| #[trigger] is_rounded_root_ratio(c2, f, k) && r2 == (if (s2.player.status(subject).spec_problems_remaining() as int) < k {
            s2.player.status(subject).spec_problems_remaining() as int
        } else {
            k
        });
    }
}

/// `roll` is a possible outcome of `Rng::random(bound)`.
pub open spec fn possible_roll(bound: int, roll: int) -> bool {
    if bound <= 0 {
        roll == 0
    } else {
        0 <= roll < bound
    }
}

/// `r` problems are accepted from a mental capacity `capacity` when one
/// problem costs `factor` and `remaining` are left to solve.
pub open spec fn accepted_from(capacity: int, factor: int, remaining: int, r: int) -> bool {
    if capacity <= 0 {
        r == 0
    } else {
        exists|k: int|
            #[trigger] is_rounded_root_ratio(capacity, factor, k) && r == (if remaining < k {
                remaining
            } else {
                k
            })
    }
}

/// No try earns more problems than remain to be solved, nor a negative
/// number of them.
pub proof fn lemma_accepted_within_remaining(capacity: int, factor: int, remaining: int, r: int)
    requires
        accepted_from(capacity, factor, remaining, r),
        remaining >= 0,
    ensures
        0 <= r <= remaining,
{
}

/// One try at the exam in `subject` gave `r` accepted problems, with the
/// rolls `brain_roll` against the hero's brain and `health_roll` against
/// how poorly he feels.
#[verifier::opaque]
pub open spec fn accepted_on_try(
    state: GameState,
    subject: Subject,
    in_train: bool,
    brain_roll: int,
    health_roll: int,
    r: int,
) -> bool {
    let weakness = if state.player.health < 5 {
        5 - state.player.health
    } else {
        0
    };
    &&& possible_roll(state.player.brain as int, brain_roll)
    &&& possible_roll(weakness, health_roll)
    &&& accepted_from(
        mental_capacity(
            state.player.status(subject).knowledge as int,
            brain_roll,
            spec_mental_load(subject) as int,
            in_train,
            health_roll,
        ),
        spec_single_problem_mental_factor(subject) as int,
        state.player.status(subject).spec_problems_remaining() as int,
        r,
    )
}

/// The draws of one try at an exam, from the generator state `before` to
/// `after`: a roll against the hero's brain, then one against how poorly he
/// feels (5 less his health, when that is positive).
pub open spec fn try_draws(before: u64, state: GameState, brain_roll: int, health_roll: int, after: u64) -> bool {
    let weakness = if state.player.health < 5 {
        5 - state.player.health
    } else {
        0
    };
    exists|mid: u64|
        #[trigger] roll_against(before, state.player.brain as int, brain_roll, mid) && roll_against(
            mid,
            weakness,
            health_roll,
            after,
        )
}

/// How many problems the professor accepts on one try: the rounded ratio
/// for the hero's mental capacity, but never more than remain to be solved.
pub fn number_of_problems_accepted(
    rng: &mut Rng,
    state: &GameState,
    subject: Subject,
    in_train: bool,
) -> (r: u8)
    requires
        state.in_range(),
    ensures
        exists|brain_roll: int, health_roll: int|
            #[trigger] accepted_on_try(*state, subject, in_train, brain_roll, health_roll, r as int)
                && try_draws(old(rng)@, *state, brain_roll, health_roll, final(rng)@),
        r <= state.player.status(subject).spec_problems_remaining(),
{
    let status = state.player.status_for_subject(subject);
    let brain_roll = rng.random(state.player.brain);
    let ghost mid = rng@;
    let mut capacity: i32 = status.knowledge as i32 + brain_roll as i32 - subject.mental_load() as i32;
    if in_train {
        capacity = if capacity >= 0 {
            capacity * 3 / 4
        } else {
            -((-capacity) * 3 / 4)
        };
    }
    let weakness: i16 = if state.player.health < 5 {
        5 - state.player.health
    } else {
        0
    };
    let health_roll = rng.random(weakness);
    capacity = capacity - health_roll as i32;
    let accepted = problems_accepted(capacity, subject.single_problem_mental_factor());
    let remaining = status.problems_remaining();
    let r = if remaining < accepted {
        remaining
    } else {
        accepted
    };
    proof {
        reveal(accepted_on_try);
    }
    assert(accepted_on_try(*state, subject, in_train, brain_roll as int, health_roll as int, r as int));
    assert(roll_against(old(rng)@, state.player.brain as int, brain_roll as int, mid));
    assert(try_draws(old(rng)@, *state, brain_roll as int, health_roll as int, rng@));
    r
}

/// The actions offered by "go to a professor": one exam for each exam held
/// here now, in the order of the subjects, then "don't go".
pub open spec fn professor_actions_for(state: GameState) -> Seq<Action> {
    state.timetable.days[state.current_day_index as int].exams@.filter(
        |e: Exam| e.spec_is_some() && exam_is_now(e, state.location, state.current_time),
    ).map_values(|e: Exam| Action::Exam(e.subject)).push(Action::DontGoToProfessor)
}

pub fn professor_actions(state: &GameState) -> (r: Vec<Action>)
    requires
        state.current_day_index < 6,
    ensures
        r@ == professor_actions_for(*state),
{
    let exams = state.current_day().current_exams(state.location(), state.current_time());
    let mut r: Vec<Action> = Vec::new();
    let mut i: usize = 0;
    while i < exams.len()
        invariant
            i <= exams@.len(),
            r@ == exams@.take(i as int).map_values(|e: Exam| Action::Exam(e.subject)),
        decreases exams@.len() - i,
    {
        proof {
            assert(exams@.take(i + 1) =~= exams@.take(i as int).push(exams@[i as int]));
        }
        r.push(Action::Exam(exams[i].subject));
        i = i + 1;
    }
    assert(exams@.take(exams@.len() as int) =~= exams@);
    r.push(Action::DontGoToProfessor);
    r
}

/// The exam in `subject` is held today; the hero is at one of its places.
pub open spec fn at_exam(state: GameState, subject: Subject) -> bool {
    &&& state.current_day_index < 6
    &&& state.timetable.days[state.current_day_index as int].spec_exam(subject) is Some
    &&& state.timetable.days[state.current_day_index as int].exams[crate::logic::subjects::subject_index(subject)].to.0 < 30
    &&& (subject == Subject::AlgebraAndNumberTheory || subject == Subject::GeometryAndTopology
        ==> state.location == Location::PUNK || state.location == Location::PDMI)
}

/// Whether the hero is at today's exam in `subject` (see `at_exam`).
pub fn hero_at_exam(state: &GameState, subject: Subject) -> (r: bool)
    ensures
        r == at_exam(*state, subject),
{
    if state.current_day_index >= 6 {
        return false;
    }
    let day = state.timetable.day(state.current_day_index);
    match day.exam(subject) {
        None => false,
        Some(_) => {
            let exam = day.exams[subject.index()];
            exam.to.0 < 30 && (!(subject == Subject::AlgebraAndNumberTheory || subject
                == Subject::GeometryAndTopology) || state.location == Location::PUNK
                || state.location == Location::PDMI)
        },
    }
}

/// `after` is `before` with today's exam in `subject` an hour longer.
pub open spec fn exam_prolonged(before: GameState, after: GameState, subject: Subject) -> bool {
    let d = before.current_day_index as int;
    let i = crate::logic::subjects::subject_index(subject);
    let exam = before.timetable.days[d].exams[i];
    &&& after == (GameState { timetable: after.timetable, ..before })
    &&& after.timetable.days@ == before.timetable.days@.update(d, after.timetable.days[d])
    &&& after.timetable.days[d].index == before.timetable.days[d].index
    &&& after.timetable.days[d].exams@ == before.timetable.days[d].exams@.update(
        i,
        Exam { to: Time((exam.to.0 + 1) as u8), ..exam },
    )
}

/// Today's exam in `subject` lasts an hour longer.
fn prolong_exam(state: &mut GameState, subject: Subject)
    requires
        at_exam(*old(state), subject),
    ensures
        exam_prolonged(*old(state), *final(state), subject),
{
    let day = state.current_day_mut();
    day.exam_one_hour_more(subject);
}

/// The intro that may open the exam in `subject` at `location`.
pub open spec fn intro_fits(intro: ExamIntro, subject: Subject, location: Location) -> bool {
    match subject {
        Subject::AlgebraAndNumberTheory => if location == Location::PUNK {
            intro == ExamIntro::AlgebraPunkBigCrowdedRoom || intro == ExamIntro::AlgebraPunkWrongRoom
        } else {
            intro == ExamIntro::AlgebraPdmi
        },
        Subject::Calculus => intro == ExamIntro::Calculus,
        Subject::GeometryAndTopology => if location == Location::PUNK {
            intro == ExamIntro::GeometryPunk
        } else {
            intro == ExamIntro::GeometryPdmi
        },
        Subject::ComputerScience => intro == ExamIntro::ComputerScience,
        Subject::English => intro == ExamIntro::English,
        Subject::PhysicalEducation => intro is PhysicalEducation,
    }
}

/// The intro of the exam in `subject` was shown as `screens`, taking the
/// hero from `before` to `after`. At the geometry exam in PUNK he cheers up
/// (+5 health); at the physical education exam the professor may lecture on
/// the benefits of running for an hour, which the exam then lasts longer.
#[verifier::opaque]
pub open spec fn exam_introduced(
    before: GameState,
    after: GameState,
    subject: Subject,
    screens: Seq<GameScreen>,
) -> bool {
    &&& screens.len() >= 1
    &&& screens[0] is ExamIntro
    &&& intro_fits(screens[0]->ExamIntro_0, subject, before.location)
    &&& subject != Subject::PhysicalEducation ==> screens.len() == 1
    &&& subject == Subject::GeometryAndTopology && before.location == Location::PUNK ==> after
        == (GameState {
        player: Player { health: (before.player.health + 5) as i16, ..before.player },
        ..before
    })
    &&& subject != Subject::PhysicalEducation && !(subject == Subject::GeometryAndTopology
        && before.location == Location::PUNK) ==> after == before
    &&& subject == Subject::PhysicalEducation && screens[0] == GameScreen::ExamIntro(
        ExamIntro::PhysicalEducation(None),
    ) ==> screens.len() == 1 && after == before
    &&& subject == Subject::PhysicalEducation && screens[0] != GameScreen::ExamIntro(
        ExamIntro::PhysicalEducation(None),
    ) ==> exists|lingered: GameState|
        exam_prolonged(before, lingered, subject) && #[trigger] passed_an_hour(
            lingered,
            after,
            Some(subject),
            screens.drop_first(),
        )
}

pub fn exam_intro(rng: &mut Rng, state: &mut GameState, subject: Subject) -> (r: Vec<GameScreen>)
    requires
        at_exam(*old(state), subject),
        can_pass_an_hour(*old(state)),
    ensures
        exam_introduced(*old(state), *final(state), subject, r@),
        r@.len() >= 1,
        subject == Subject::AlgebraAndNumberTheory && old(state).location == Location::PUNK
            ==> exists|hit: bool|
            #[trigger] dice_rolled(old(rng)@, final(rng)@, 3, hit) && (hit <==> r@[0]
                == GameScreen::ExamIntro(ExamIntro::AlgebraPunkWrongRoom)),
        subject == Subject::PhysicalEducation ==> exists|hit: bool, s1: u64|
            #[trigger] dice_rolled(old(rng)@, s1, 3, hit) && (hit <==> r@[0] != GameScreen::ExamIntro(
                ExamIntro::PhysicalEducation(None),
            )) && (!hit ==> final(rng)@ == s1),
        subject != Subject::PhysicalEducation && !(subject == Subject::AlgebraAndNumberTheory
            && old(state).location == Location::PUNK) ==> final(rng)@ == old(rng)@,
{
    let mut screens: Vec<GameScreen> = Vec::new();
    match subject {
        Subject::AlgebraAndNumberTheory => {
            let intro = if state.location() == Location::PUNK {
                let hit = rng.roll_dice(3);
                assert(dice_rolled(old(rng)@, rng@, 3, hit));
                if hit {
                    ExamIntro::AlgebraPunkWrongRoom
                } else {
                    ExamIntro::AlgebraPunkBigCrowdedRoom
                }
            } else {
                ExamIntro::AlgebraPdmi
            };
            screens.push(GameScreen::ExamIntro(intro));
        },
        Subject::Calculus => {
            screens.push(GameScreen::ExamIntro(ExamIntro::Calculus));
        },
        Subject::GeometryAndTopology => {
            if state.location() == Location::PUNK {
                screens.push(GameScreen::ExamIntro(ExamIntro::GeometryPunk));
                state.player.health = state.player.health + 5;
            } else {
                screens.push(GameScreen::ExamIntro(ExamIntro::GeometryPdmi));
            }
        },
        Subject::ComputerScience => {
            screens.push(GameScreen::ExamIntro(ExamIntro::ComputerScience));
        },
        Subject::English => {
            screens.push(GameScreen::ExamIntro(ExamIntro::English));
        },
        Subject::PhysicalEducation => {
            let hit = rng.roll_dice(3);
            let ghost s1 = rng@;
            assert(dice_rolled(old(rng)@, s1, 3, hit));
            if hit {
                let topic = BenefitsOfRunning::variant(rng.random_index(BENEFITS_OF_RUNNING_COUNT));
                screens.push(GameScreen::ExamIntro(ExamIntro::PhysicalEducation(Some(topic))));
                prolong_exam(state, subject);
                let ghost lingered = *state;
                let mut more = hour_pass(rng, state, Some(subject));
                let ghost tail = more@;
                screens.append(&mut more);
                assert(screens@.drop_first() =~= tail);
                assert(passed_an_hour(lingered, *state, Some(subject), screens@.drop_first()));
            } else {
                screens.push(GameScreen::ExamIntro(ExamIntro::PhysicalEducation(None)));
            }
        },
    }
    proof {
        reveal(exam_introduced);
    }
    screens
}

/// The hero enters the exam in `subject`: when the next coin comes up one,
/// an intro is shown first; the exam becomes the last one he tried.
pub fn enter_exam(rng: &mut Rng, state: &mut GameState, subject: Subject) -> (r: Vec<GameScreen>)
    requires
        at_exam(*old(state), subject),
        can_pass_an_hour(*old(state)),
        old(state).player.health > 0,
        old(state).player.cause_of_death is None,
    ensures
        final(state).player.last_exam == Some(subject),
        r@.len() == 0 ==> *final(state) == (GameState {
            player: Player { last_exam: Some(subject), ..old(state).player },
            ..*old(state)
        }),
        r@.len() > 0 ==> exists|introduced: GameState|
            #[trigger] exam_introduced(*old(state), introduced, subject, r@) && *final(state) == (
            GameState {
                player: Player { last_exam: Some(subject), ..introduced.player },
                ..introduced
            }),
        exists|shown: bool, s1: u64|
            #[trigger] dice_rolled(old(rng)@, s1, 2, shown) && (shown <==> r@.len() > 0) && (!shown
                ==> final(rng)@ == s1),
{
    let shown = rng.roll_dice(2);
    assert(dice_rolled(old(rng)@, rng@, 2, shown));
    if shown {
        let screens = exam_intro(rng, state, subject);
        let ghost introduced = *state;
        state.player.set_last_exam(subject);
        assert(exam_introduced(*old(state), introduced, subject, screens@));
        screens
    } else {
        state.player.set_last_exam(subject);
        Vec::new()
    }
}

/// What comes of a step of an exam.
#[derive(Debug, Clone, Copy, Eq, PartialEq, Structural)]
pub enum ExamResult {
    /// The hero stays at the exam.
    Continue,
    /// The exam is over for the hero.
    Exit,
    /// Vsemirnov leaves for the train; the hero is asked whether to follow
    /// him and go on with the exam there.
    OfferExamInTrain,
}

/// The actions at the exam in `subject`: trying once more (unless passed),
/// talking to each classmate at this exam, in their canonical order, and
/// leaving.
pub open spec fn exam_actions_for(state: GameState, subject: Subject) -> Seq<Action> {
    let suffer: Seq<Action> = if state.player.status(subject).spec_passed() {
        seq![]
    } else {
        seq![Action::SufferMore]
    };
    suffer + state.classmates.0@.filter(|c: ClassmateInfo| c.spec_is_at_exam(subject)).map_values(
        |c: ClassmateInfo| Action::InteractWithClassmate(c.classmate),
    ).push(Action::ExitExam)
}

pub fn exam_actions(state: &GameState, subject: Subject) -> (r: Vec<Action>)
    ensures
        r@ == exam_actions_for(*state, subject),
{
    let mut r: Vec<Action> = Vec::new();
    if !state.player.status_for_subject(subject).passed() {
        r.push(Action::SufferMore);
    }
    let ghost start = r@;
    let present = state.classmates.filter_by_exam(subject);
    let mut i: usize = 0;
    while i < present.len()
        invariant
            i <= present@.len(),
            r@ == start + present@.take(i as int).map_values(
                |c: ClassmateInfo| Action::InteractWithClassmate(c.classmate),
            ),
        decreases present@.len() - i,
    {
        proof {
            assert(present@.take(i + 1) =~= present@.take(i as int).push(present@[i as int]));
        }
        r.push(Action::InteractWithClassmate(present[i].classmate));
        i = i + 1;
        proof {
            assert(r@ =~= start + present@.take(i as int).map_values(
                |c: ClassmateInfo| Action::InteractWithClassmate(c.classmate),
            ));
        }
    }
    assert(present@.take(present@.len() as int) =~= present@);
    r.push(Action::ExitExam);
    assert(r@ =~= exam_actions_for(*state, subject));
    r
}

/// Whether the time of today's exam in `subject` is up.
pub fn is_exam_time_up(state: &GameState, subject: Subject) -> (r: bool)
    requires
        at_exam(*state, subject),
    ensures
        r == (state.current_time.0 >= state.timetable.days[state.current_day_index as int].exams[subject_index(subject)].to.0),
{
    match state.current_day().exam(subject) {
        Some(exam) => state.current_time().0 >= exam.to.0,
        None => false,
    }
}

/// Whether the professor of `subject` lingers for another hour: his load and
/// the late hour weigh against the hero's charisma and a roll in `20..40`.
pub open spec fn professor_lingers(subject: Subject, time: Time, charisma: int, roll: int) -> bool {
    spec_mental_load(subject) * 2 + time.0 * 6 < charisma * 3 + roll
}

/// The time of the exam in `subject` is up. Vsemirnov (algebra) never
/// lingers: in PUNK, to a hero who has not solved everything he offers to go
/// on in the train; otherwise he leaves. Other professors may linger for
/// another hour (the exam lasts longer), except that a hero without health
/// stays on and nothing happens.
pub fn exam_ends(rng: &mut Rng, state: &mut GameState, subject: Subject) -> (r: (
    Vec<GameScreen>,
    ExamResult,
))
    requires
        at_exam(*old(state), subject),
        -10000 <= old(state).player.charisma <= 10000,
    ensures
        subject == Subject::AlgebraAndNumberTheory ==> *final(state) == *old(state) && if old(state).location == Location::PUNK && !old(state).player.status(
            subject,
        ).spec_solved_all_problems() {
            r.0@.len() == 0 && r.1 == ExamResult::OfferExamInTrain
        } else {
            r.0@ == seq![GameScreen::Exam(ExamScene::ProfessorLeaves(*old(state), subject))]
                && r.1 == ExamResult::Exit
        },
        subject != Subject::AlgebraAndNumberTheory && old(state).player.health <= 0 ==> *final(state) == *old(state) && r.0@.len() == 0 && r.1 == ExamResult::Continue,
        subject != Subject::AlgebraAndNumberTheory && old(state).player.health > 0 ==> {
            ||| {
                &&& r.0@ == seq![GameScreen::Exam(ExamScene::ProfessorLingers(*old(state), subject))]
                &&& r.1 == ExamResult::Continue
                &&& exam_prolonged(*old(state), *final(state), subject)
                &&& exists|roll: int|
                    20 <= roll < 40 && #[trigger] professor_lingers(
                        subject,
                        old(state).current_time,
                        old(state).player.charisma as int,
                        roll,
                    )
            }
            ||| {
                &&& r.0@ == seq![GameScreen::Exam(ExamScene::ProfessorLeaves(*old(state), subject))]
                &&& r.1 == ExamResult::Exit
                &&& *final(state) == *old(state)
                &&& exists|roll: int|
                    20 <= roll < 40 && !#[trigger] professor_lingers(
                        subject,
                        old(state).current_time,
                        old(state).player.charisma as int,
                        roll,
                    )
            }
        },
        subject == Subject::AlgebraAndNumberTheory || old(state).player.health <= 0 ==> final(rng)@
            == old(rng)@,
        subject != Subject::AlgebraAndNumberTheory && old(state).player.health > 0 ==> exists|
            roll: u64,
        |
            #[trigger] bounded_draw(old(rng)@, 20, roll, final(rng)@) && (r.1 == ExamResult::Continue
                <==> professor_lingers(
                subject,
                old(state).current_time,
                old(state).player.charisma as int,
                roll + 20,
            )),
{
    let mut screens: Vec<GameScreen> = Vec::new();
    if subject == Subject::AlgebraAndNumberTheory {
        if state.location() == Location::PUNK && !state.player.status_for_subject(
            subject,
        ).solved_all_problems() {
            return (screens, ExamResult::OfferExamInTrain);
        }
    } else {
        if state.player.health <= 0 {
            return (screens, ExamResult::Continue);
        }
        let roll = rng.random_in_range(20, 40);
        assert(bounded_draw(old(rng)@, 20, (roll - 20) as u64, rng@));
        if subject.mental_load() as i32 * 2 + state.current_time().0 as i32 * 6
            < state.player.charisma as i32 * 3 + roll as i32 {
            screens.push(GameScreen::Exam(ExamScene::ProfessorLingers(*state, subject)));
            assert(professor_lingers(subject, state.current_time, state.player.charisma as int, roll as int));
            prolong_exam(state, subject);
            return (screens, ExamResult::Continue);
        }
        assert(!professor_lingers(subject, state.current_time, state.player.charisma as int, roll as int));
    }
    screens.push(GameScreen::Exam(ExamScene::ProfessorLeaves(*state, subject)));
    (screens, ExamResult::Exit)
}

/// Half of `value`, rounded toward zero.
pub open spec fn halved(value: int) -> int {
    if value >= 0 {
        value / 2
    } else {
        -((-value) / 2)
    }
}

/// `after` is `before` with the knowledge of `subject` halved.
pub open spec fn forgot_half(before: GameState, after: GameState, subject: Subject) -> bool {
    let i = subject_index(subject);
    let status = before.player.subjects[i];
    after == (GameState {
        player: Player {
            subjects: after.player.subjects,
            ..before.player
        },
        ..before
    }) && after.player.subjects@ == before.player.subjects@.update(
        i,
        crate::logic::subject_status::SubjectStatus {
            knowledge: halved(status.knowledge as int) as i16,
            ..status
        },
    )
}

/// `after` is `before` with only the hero's numbers `brain`, `stamina`,
/// `charisma`, `garlic` and `money` possibly changed.
pub open spec fn only_numbers_changed(before: GameState, after: GameState) -> bool {
    after == (GameState {
        player: Player {
            brain: after.player.brain,
            stamina: after.player.stamina,
            charisma: after.player.charisma,
            garlic: after.player.garlic,
            money: after.player.money,
            ..before.player
        },
        ..before
    })
}

/// What a feeling after the English exam does to the hero.
#[verifier::opaque]
pub open spec fn feeling_felt(before: GameState, after: GameState, feeling: EnglishExamFeeling) -> bool {
    let p0 = before.player;
    let p1 = after.player;
    match feeling {
        EnglishExamFeeling::ReallyBad => after == health_decreased(
            before,
            30,
            CauseOfDeath::FairyWasNotInTheMood,
        ),
        EnglishExamFeeling::SomeplaceElse => after == (GameState {
            location: Location::PDMI,
            ..before
        }),
        EnglishExamFeeling::ForgotAlgebra => forgot_half(
            before,
            after,
            Subject::AlgebraAndNumberTheory,
        ),
        EnglishExamFeeling::ForgotCalculus => forgot_half(before, after, Subject::Calculus),
        EnglishExamFeeling::QuicklyFadedAway => after == before,
        _ => only_numbers_changed(before, after) && match feeling {
            EnglishExamFeeling::ThoughtsAboutFairies => 1 <= p0.brain - p1.brain < 3
                && p1.stamina == p0.stamina && p1.charisma == p0.charisma && p1.garlic == p0.garlic
                && p1.money == p0.money,
            EnglishExamFeeling::EveryoneWantsYouDead => 1 <= p0.charisma - p1.charisma < 3
                && p1.brain == p0.brain && p1.stamina == p0.stamina && p1.garlic == p0.garlic
                && p1.money == p0.money,
            EnglishExamFeeling::StaminaGone => 1 <= p0.stamina - p1.stamina < 3 && p1.brain
                == p0.brain && p1.charisma == p0.charisma && p1.garlic == p0.garlic && p1.money
                == p0.money,
            EnglishExamFeeling::BrainGotBetter => 1 <= p1.brain - p0.brain < 4 && p1.stamina
                == p0.stamina && p1.charisma == p0.charisma && p1.garlic == p0.garlic && p1.money
                == p0.money,
            EnglishExamFeeling::LoveForTheWorld => 1 <= p1.charisma - p0.charisma < 4
                && p1.brain == p0.brain && p1.stamina == p0.stamina && p1.garlic == p0.garlic
                && p1.money == p0.money,
            EnglishExamFeeling::ReadyForEverything => 1 <= p1.stamina - p0.stamina < 4
                && p1.brain == p0.brain && p1.charisma == p0.charisma && p1.garlic == p0.garlic
                && p1.money == p0.money,
            EnglishExamFeeling::Money => p1.money == (if p0.money.0 > 0 {
                Money(0)
            } else {
                Money(20)
            }) && p1.brain == p0.brain && p1.stamina == p0.stamina && p1.charisma == p0.charisma
                && p1.garlic == p0.garlic,
            _ => 1 <= p1.garlic < 5 && possible_roll(p1.garlic / 2, p0.charisma - p1.charisma)
                && p1.brain == p0.brain && p1.stamina == p0.stamina && p1.money == p0.money,
        },
    }
}

/// The draws behind a feeling after the English exam, from the generator
/// state `before` to `after`, as they show in the hero (`p0` before, `p1`
/// after): a loss of 1 or 2 is one more than a draw below 2, a gain of 1 to 3
/// one more than a draw below 3; the garlic is one more than a draw below 4,
/// and costs a roll below half of it in charisma. Other feelings draw
/// nothing.
pub open spec fn feeling_drawn(
    before: u64,
    p0: Player,
    p1: Player,
    feeling: EnglishExamFeeling,
    after: u64,
) -> bool {
    match feeling {
        EnglishExamFeeling::ThoughtsAboutFairies => bounded_draw(
            before,
            2,
            (p0.brain - p1.brain - 1) as u64,
            after,
        ),
        EnglishExamFeeling::EveryoneWantsYouDead => bounded_draw(
            before,
            2,
            (p0.charisma - p1.charisma - 1) as u64,
            after,
        ),
        EnglishExamFeeling::StaminaGone => bounded_draw(
            before,
            2,
            (p0.stamina - p1.stamina - 1) as u64,
            after,
        ),
        EnglishExamFeeling::BrainGotBetter => bounded_draw(
            before,
            3,
            (p1.brain - p0.brain - 1) as u64,
            after,
        ),
        EnglishExamFeeling::LoveForTheWorld => bounded_draw(
            before,
            3,
            (p1.charisma - p0.charisma - 1) as u64,
            after,
        ),
        EnglishExamFeeling::ReadyForEverything => bounded_draw(
            before,
            3,
            (p1.stamina - p0.stamina - 1) as u64,
            after,
        ),
        EnglishExamFeeling::SmellOfGarlic => exists|mid: u64|
            #[trigger] bounded_draw(before, 4, (p1.garlic - 1) as u64, mid) && roll_against(
                mid,
                p1.garlic / 2,
                p0.charisma - p1.charisma,
                after,
            ),
        _ => after == before,
    }
}

/// The feelings that change only the hero's numbers.
fn feel_in_numbers(rng: &mut Rng, player: &mut Player, feeling: EnglishExamFeeling)
    requires
        -10000 <= old(player).brain <= 10000,
        -10000 <= old(player).stamina <= 10000,
        -10000 <= old(player).charisma <= 10000,
    ensures
        *final(player) == (Player {
            brain: final(player).brain,
            stamina: final(player).stamina,
            charisma: final(player).charisma,
            garlic: final(player).garlic,
            money: final(player).money,
            ..*old(player)
        }),
        ({
            let p0 = *old(player);
            let p1 = *final(player);
            match feeling {
                EnglishExamFeeling::ThoughtsAboutFairies => 1 <= p0.brain - p1.brain < 3
                    && p1.stamina == p0.stamina && p1.charisma == p0.charisma && p1.garlic
                    == p0.garlic && p1.money == p0.money,
                EnglishExamFeeling::EveryoneWantsYouDead => 1 <= p0.charisma - p1.charisma < 3
                    && p1.brain == p0.brain && p1.stamina == p0.stamina && p1.garlic == p0.garlic
                    && p1.money == p0.money,
                EnglishExamFeeling::StaminaGone => 1 <= p0.stamina - p1.stamina < 3 && p1.brain
                    == p0.brain && p1.charisma == p0.charisma && p1.garlic == p0.garlic
                    && p1.money == p0.money,
                EnglishExamFeeling::BrainGotBetter => 1 <= p1.brain - p0.brain < 4 && p1.stamina
                    == p0.stamina && p1.charisma == p0.charisma && p1.garlic == p0.garlic
                    && p1.money == p0.money,
                EnglishExamFeeling::LoveForTheWorld => 1 <= p1.charisma - p0.charisma < 4
                    && p1.brain == p0.brain && p1.stamina == p0.stamina && p1.garlic == p0.garlic
                    && p1.money == p0.money,
                EnglishExamFeeling::ReadyForEverything => 1 <= p1.stamina - p0.stamina < 4
                    && p1.brain == p0.brain && p1.charisma == p0.charisma && p1.garlic
                    == p0.garlic && p1.money == p0.money,
                EnglishExamFeeling::Money => p1.money == (if p0.money.0 > 0 {
                    Money(0)
                } else {
                    Money(20)
                }) && p1.brain == p0.brain && p1.stamina == p0.stamina && p1.charisma
                    == p0.charisma && p1.garlic == p0.garlic,
                EnglishExamFeeling::SmellOfGarlic => 1 <= p1.garlic < 5 && possible_roll(
                    p1.garlic / 2,
                    p0.charisma - p1.charisma,
                ) && p1.brain == p0.brain && p1.stamina == p0.stamina && p1.money == p0.money,
                _ => p1 == p0,
            }
        }),
        feeling_drawn(old(rng)@, *old(player), *final(player), feeling, final(rng)@),
{
    match feeling {
        EnglishExamFeeling::ThoughtsAboutFairies => {
            player.brain = player.brain - rng.random_in_range(1, 3);
        },
        EnglishExamFeeling::EveryoneWantsYouDead => {
            player.charisma = player.charisma - rng.random_in_range(1, 3);
        },
        EnglishExamFeeling::StaminaGone => {
            player.stamina = player.stamina - rng.random_in_range(1, 3);
        },
        EnglishExamFeeling::BrainGotBetter => {
            player.brain = player.brain + rng.random_in_range(1, 4);
        },
        EnglishExamFeeling::LoveForTheWorld => {
            player.charisma = player.charisma + rng.random_in_range(1, 4);
        },
        EnglishExamFeeling::ReadyForEverything => {
            player.stamina = player.stamina + rng.random_in_range(1, 4);
        },
        EnglishExamFeeling::Money => {
            if player.money.0 > 0 {
                player.money = Money(0);
            } else {
                player.money = Money(20);
            }
        },
        EnglishExamFeeling::SmellOfGarlic => {
            let garlic = rng.random_in_range(1, 5);
            let ghost mid = rng@;
            player.garlic = garlic;
            let loss = rng.random(garlic / 2);
            player.charisma = player.charisma - loss;
            assert(bounded_draw(old(rng)@, 4, (garlic - 1) as u64, mid));
            assert(roll_against(mid, (garlic / 2) as int, loss as int, rng@));
        },
        _ => {},
    }
}

fn forget_half(state: &mut GameState, subject: Subject)
    requires
        old(state).in_range(),
    ensures
        forgot_half(*old(state), *final(state), subject),
{
    let status = state.player.status_for_subject_mut(subject);
    let k = status.knowledge;
    status.knowledge = if k >= 0 {
        k / 2
    } else {
        -((-k) / 2)
    };
}

fn feel(rng: &mut Rng, state: &mut GameState, feeling: EnglishExamFeeling)
    requires
        old(state).in_range(),
    ensures
        feeling_felt(*old(state), *final(state), feeling),
        feeling_drawn(old(rng)@, old(state).player, final(state).player, feeling, final(rng)@),
        forall|i: int|
            0 <= i < 6 ==> (#[trigger] final(state).player.subjects[i]).passed_exam_day_index
                == old(state).player.subjects[i].passed_exam_day_index
                && final(state).player.subjects[i].problems_done
                == old(state).player.subjects[i].problems_done,
        final(state).current_day_index == old(state).current_day_index,
        final(state).current_time == old(state).current_time,
        final(state).timetable == old(state).timetable,
{
    proof {
        reveal(feeling_felt);
    }
    match feeling {
        EnglishExamFeeling::ReallyBad => {
            decrease_health(state, 30, CauseOfDeath::FairyWasNotInTheMood);
        },
        EnglishExamFeeling::SomeplaceElse => {
            state.set_location(Location::PDMI);
        },
        EnglishExamFeeling::ForgotAlgebra => {
            forget_half(state, Subject::AlgebraAndNumberTheory);
        },
        EnglishExamFeeling::ForgotCalculus => {
            forget_half(state, Subject::Calculus);
        },
        EnglishExamFeeling::QuicklyFadedAway => {},
        _ => {
            feel_in_numbers(rng, &mut state.player, feeling);
        },
    }
}

/// The exam in `subject` has just been passed. Vsemirnov's joke costs the
/// next roll below 6 in health; the English fairy leaves a feeling, picked
/// by the next draw below 15 (the last two draws give the smell of garlic),
/// and what it does in numbers is drawn next (see `feeling_drawn`); other professors just sign
/// the record book. Only the feeling of being someplace else (PDMI) ends the
/// exam for the hero.
pub fn exam_passed(rng: &mut Rng, state: &mut GameState, subject: Subject) -> (r: (
    Vec<GameScreen>,
    ExamResult,
))
    requires
        old(state).in_range(),
    ensures
        r.0@.len() == 1,
        forall|i: int|
            0 <= i < 6 ==> (#[trigger] final(state).player.subjects[i]).passed_exam_day_index
                == old(state).player.subjects[i].passed_exam_day_index
                && final(state).player.subjects[i].problems_done
                == old(state).player.subjects[i].problems_done,
        final(state).current_day_index == old(state).current_day_index,
        final(state).current_time == old(state).current_time,
        final(state).timetable == old(state).timetable,
        subject == Subject::AlgebraAndNumberTheory ==> {
            &&& r.0@[0] == GameScreen::Exam(ExamScene::AlgebraExamPassed(*old(state)))
            &&& r.1 == ExamResult::Continue
            &&& exists|roll: i16|
                0 <= roll < 6 && bounded_draw(old(rng)@, 6, roll as u64, final(rng)@)
                    && *final(state) == #[trigger] health_decreased(
                    *old(state),
                    roll,
                    CauseOfDeath::DestroyedByVsemirnov,
                )
        },
        subject == Subject::English ==> exists|feeling: EnglishExamFeeling|
            {
                &&& r.0@[0] == GameScreen::Exam(ExamScene::EnglishExamPassed(*old(state), feeling))
                &&& #[trigger] feeling_felt(*old(state), *final(state), feeling)
                &&& exists|index: u64, drawn: u64|
                    #[trigger] bounded_draw(old(rng)@, 15, index, drawn) && index < 15 && (index < 13
                        ==> feeling.spec_variant_index() == index) && (index >= 13 ==> feeling
                        == EnglishExamFeeling::SmellOfGarlic) && feeling_drawn(
                        drawn,
                        old(state).player,
                        final(state).player,
                        feeling,
                        final(rng)@,
                    )
                &&& r.1 == (if feeling == EnglishExamFeeling::SomeplaceElse {
                    ExamResult::Exit
                } else {
                    ExamResult::Continue
                })
            },
        subject != Subject::AlgebraAndNumberTheory && subject != Subject::English ==> {
            &&& r.0@[0] == GameScreen::Exam(ExamScene::ExamPassed(*old(state), subject))
            &&& r.1 == ExamResult::Continue
            &&& *final(state) == *old(state)
        },
{
    let mut screens: Vec<GameScreen> = Vec::new();
    match subject {
        Subject::AlgebraAndNumberTheory => {
            screens.push(GameScreen::Exam(ExamScene::AlgebraExamPassed(*state)));
            let roll = rng.random(6);
            let ghost before = *state;
            decrease_health(state, roll, CauseOfDeath::DestroyedByVsemirnov);
            assert(*state == health_decreased(before, roll, CauseOfDeath::DestroyedByVsemirnov));
            (screens, ExamResult::Continue)
        },
        Subject::English => {
            let index = rng.random_index(ENGLISH_EXAM_FEELING_COUNT + 2);
            let ghost drawn = rng@;
            assert(bounded_draw(old(rng)@, 15, index as u64, drawn));
            let feeling = if index < ENGLISH_EXAM_FEELING_COUNT {
                EnglishExamFeeling::variant(index)
            } else {
                EnglishExamFeeling::SmellOfGarlic
            };
            screens.push(GameScreen::Exam(ExamScene::EnglishExamPassed(*state, feeling)));
            let ghost before = *state;
            feel(rng, state, feeling);
            assert(feeling_felt(before, *state, feeling));
            assert(feeling_drawn(drawn, before.player, state.player, feeling, rng@));
            let result = if feeling == EnglishExamFeeling::SomeplaceElse {
                ExamResult::Exit
            } else {
                ExamResult::Continue
            };
            (screens, result)
        },
        _ => {
            screens.push(GameScreen::Exam(ExamScene::ExamPassed(*state, subject)));
            (screens, ExamResult::Continue)
        },
    }
}

/// The first thing at every step of an exam: a hero who has just solved all
/// the problems passes it today (see `exam_passed`).
pub fn pass_exam_if_solved(rng: &mut Rng, state: &mut GameState, subject: Subject) -> (r: (
    Vec<GameScreen>,
    ExamResult,
))
    requires
        old(state).in_range(),
        old(state).current_day_index < 7,
    ensures
        ({
            let status = old(state).player.status(subject);
            if status.spec_solved_all_problems() && !status.spec_passed() {
                final(state).player.status(subject).passed_exam_day_index == Some(
                    old(state).current_day_index,
                ) && r.0@.len() == 1
            } else {
                *final(state) == *old(state) && r.0@.len() == 0 && r.1 == ExamResult::Continue
            }
        }),
{
    let day_index = state.current_day_index();
    let status = state.player.status_for_subject(subject);
    if status.solved_all_problems() && !status.passed() {
        state.player.status_for_subject_mut(subject).set_passed_exam_day_index(day_index);
        exam_passed(rng, state, subject)
    } else {
        (Vec::new(), ExamResult::Continue)
    }
}

/// The stamina that helps against the professor: two thirds of it in a
/// train (rounded toward zero).
pub open spec fn effective_stamina(stamina: int, in_train: bool) -> int {
    if in_train {
        if stamina >= 0 {
            stamina * 2 / 3
        } else {
            -((-stamina) * 2 / 3)
        }
    } else {
        stamina
    }
}

/// The health an exam in `subject` takes, given the roll against the
/// hero's stamina.
pub open spec fn torture_penalty(subject: Subject, roll: int) -> int {
    if spec_health_penalty(subject) - roll > 0 {
        spec_health_penalty(subject) - roll
    } else {
        0
    }
}

/// The part of a try at the exam before the hour passes, from `before` to
/// `after`, shown as `screen`: `accepted` problems are accepted (none from a
/// hero who knows geometry too well for his charisma), the hero forgets
/// some of the subject (never below zero) and the professor tortures him.
#[verifier::opaque]
pub open spec fn tried_exam(
    before: GameState,
    after: GameState,
    subject: Subject,
    in_train: bool,
    accepted: int,
    screen: GameScreen,
) -> bool {
    let i = subject_index(subject);
    let s0 = before.player.subjects[i];
    let s1 = after.player.subjects[i];
    let too_smart = subject == Subject::GeometryAndTopology && before.player.charisma * 2 + 26
        < s1.knowledge;
    let solved = if too_smart {
        0
    } else {
        accepted
    };
    &&& 0 <= s1.knowledge <= s0.knowledge
    &&& s0.knowledge - s1.knowledge < spec_mental_load(subject)
    &&& after.player.subjects@ == before.player.subjects@.update(
        i,
        crate::logic::subject_status::SubjectStatus {
            knowledge: s1.knowledge,
            problems_done: (s0.problems_done + solved) as u8,
            ..s0
        },
    )
    &&& !in_train ==> screen == GameScreen::Exam(
        ExamScene::ExamSuffering { solved_problems: solved as u8, too_smart },
    )
    &&& in_train ==> (screen matches GameScreen::Exam(
        ExamScene::SufferInTrain { state: shown, solved_problems },
    ) && solved_problems == solved && shown == (GameState {
        player: Player { subjects: shown.player.subjects, ..before.player },
        ..before
    }) && shown.player.subjects@ == before.player.subjects@.update(
        i,
        crate::logic::subject_status::SubjectStatus { knowledge: s1.knowledge, ..s0 },
    ))
    &&& after == (GameState {
        player: Player {
            subjects: after.player.subjects,
            health: after.player.health,
            cause_of_death: after.player.cause_of_death,
            ..before.player
        },
        ..before
    })
    &&& exists|roll: int|
        #[trigger] possible_roll(effective_stamina(before.player.stamina as int, in_train), roll)
            && after.player.health == before.player.health - torture_penalty(subject, roll)
            && after.player.cause_of_death == (if after.player.health <= 0 {
            Some(CauseOfDeath::TorturedByProfessor(subject))
        } else {
            before.player.cause_of_death
        })
}

/// A roll below `upper_bound` from the generator state `before` gave `roll`
/// and left `after`; a bound that is not positive gives zero and draws
/// nothing.
pub open spec fn roll_against(before: u64, upper_bound: int, roll: int, after: u64) -> bool {
    if upper_bound > 0 {
        0 <= roll && bounded_draw(before, upper_bound as u64, roll as u64, after)
    } else {
        roll == 0 && after == before
    }
}

/// How much is forgotten of `knowledge` for a `penalty`: nothing for a
/// negative one, never more than there is.
pub open spec fn forgotten(penalty: int, knowledge: int) -> int {
    if penalty < 0 {
        0
    } else if penalty > knowledge {
        knowledge
    } else {
        penalty
    }
}

/// The hero forgets some of `subject`: the next roll against its load less
/// the following roll against his stamina, but never below zero.
fn forget_some(rng: &mut Rng, state: &mut GameState, subject: Subject)
    requires
        old(state).player.status(subject).knowledge >= 0,
        -10000 <= old(state).player.stamina <= 10000,
    ensures
        ({
            let i = subject_index(subject);
            let s0 = old(state).player.subjects[i];
            let k = final(state).player.subjects[i].knowledge;
            &&& 0 <= k <= s0.knowledge
            &&& s0.knowledge - k < spec_mental_load(subject)
            &&& (exists|load_roll: u64, stamina_roll: int, mid: u64|
                #[trigger] bounded_draw(old(rng)@, spec_mental_load(subject) as u64, load_roll, mid)
                    && #[trigger] roll_against(mid, old(state).player.stamina as int, stamina_roll, final(rng)@)
                    && k == s0.knowledge - forgotten(load_roll - stamina_roll, s0.knowledge as int))
            &&& final(state).player.subjects@ == old(state).player.subjects@.update(
                i,
                crate::logic::subject_status::SubjectStatus { knowledge: k, ..s0 },
            )
            &&& *final(state) == (GameState {
                player: Player { subjects: final(state).player.subjects, ..old(state).player },
                ..*old(state)
            })
        }),
{
    let load_roll = rng.random(subject.mental_load());
    let ghost mid = rng@;
    let stamina_roll = rng.random(state.player.stamina);
    let penalty = load_roll - stamina_roll;
    let status = state.player.status_for_subject_mut(subject);
    let knowledge = status.knowledge;
    let lost = if penalty < 0 {
        0
    } else if penalty > knowledge {
        knowledge
    } else {
        penalty
    };
    status.knowledge = knowledge - lost;
    assert(bounded_draw(old(rng)@, spec_mental_load(subject) as u64, load_roll as u64, mid));
    assert(roll_against(mid, old(state).player.stamina as int, stamina_roll as int, rng@));
}

/// The professor tortures the hero: the subject's health penalty less a
/// roll against his (effective) stamina, if that is positive.
fn torture(rng: &mut Rng, state: &mut GameState, subject: Subject, in_train: bool)
    requires
        -10000 <= old(state).player.stamina <= 10000,
        -10000 <= old(state).player.health <= 10000,
    ensures
        *final(state) == (GameState {
            player: Player {
                health: final(state).player.health,
                cause_of_death: final(state).player.cause_of_death,
                ..old(state).player
            },
            ..*old(state)
        }),
        exists|roll: int|
            #[trigger] possible_roll(effective_stamina(old(state).player.stamina as int, in_train), roll)
                && final(state).player.health == old(state).player.health - torture_penalty(
                subject,
                roll,
            ) && final(state).player.cause_of_death == (if final(state).player.health <= 0 {
                Some(CauseOfDeath::TorturedByProfessor(subject))
            } else {
                old(state).player.cause_of_death
            }) && roll_against(
                old(rng)@,
                effective_stamina(old(state).player.stamina as int, in_train),
                roll,
                final(rng)@,
            ),
{
    let stamina = state.player.stamina;
    let stamina = if in_train {
        if stamina >= 0 {
            stamina * 2 / 3
        } else {
            -((-stamina) * 2 / 3)
        }
    } else {
        stamina
    };
    let roll = rng.random(stamina);
    let hp = subject.health_penalty() - roll;
    let health_penalty = if hp > 0 {
        hp
    } else {
        0
    };
    decrease_health(state, health_penalty, CauseOfDeath::TorturedByProfessor(subject));
    assert(possible_roll(effective_stamina(old(state).player.stamina as int, in_train), roll as int));
}

/// The try itself, before the hour passes: see `tried_exam`.
fn try_exam(rng: &mut Rng, state: &mut GameState, in_train: bool, subject: Subject) -> (r: (
    GameScreen,
    u8,
))
    requires
        old(state).in_range(),
        old(state).player.status(subject).knowledge >= 0,
        old(state).player.status(subject).problems_done < 100,
    ensures
        exists|b: int, h: int| #[trigger] accepted_on_try(*old(state), subject, in_train, b, h, r.1 as int),
        exists|b: int, h: int, drawn: u64|
            #[trigger] try_draws(old(rng)@, *old(state), b, h, drawn) && accepted_on_try(
                *old(state),
                subject,
                in_train,
                b,
                h,
                r.1 as int,
            ),
        tried_exam(*old(state), *final(state), subject, in_train, r.1 as int, r.0),
        final(state).current_day_index == old(state).current_day_index,
        final(state).current_time == old(state).current_time,
        final(state).location == old(state).location,
        final(state).classmates == old(state).classmates,
        final(state).player.charisma == old(state).player.charisma,
        old(state).player.health - 20 <= final(state).player.health <= old(state).player.health,
{
    let ghost before = *state;
    let charisma = state.player.charisma;
    let accepted = number_of_problems_accepted(rng, state, subject, in_train);
    let ghost drawn = rng@;
    let ghost (brain_roll, health_roll): (int, int) = choose|b: int, h: int|
        #[trigger] accepted_on_try(before, subject, in_train, b, h, accepted as int) && try_draws(
            old(rng)@,
            before,
            b,
            h,
            drawn,
        );
    forget_some(rng, state, subject);
    let knowledge = state.player.status_for_subject(subject).knowledge;
    let too_smart = subject == Subject::GeometryAndTopology && charisma as i32 * 2 + 26
        < knowledge as i32;
    let solved = if too_smart {
        0
    } else {
        accepted
    };
    let screen = if in_train {
        GameScreen::Exam(ExamScene::SufferInTrain { state: *state, solved_problems: solved })
    } else {
        GameScreen::Exam(ExamScene::ExamSuffering { solved_problems: solved, too_smart })
    };
    state.player.status_for_subject_mut(subject).more_problems_solved(solved);
    let ghost scored = *state;
    torture(rng, state, subject, in_train);
    proof {
        reveal(tried_exam);
        let i = subject_index(subject);
        let s0 = before.player.subjects[i];
        assert(scored.player.subjects@ == before.player.subjects@.update(
            i,
            crate::logic::subject_status::SubjectStatus {
                knowledge: knowledge,
                problems_done: (s0.problems_done + solved) as u8,
                ..s0
            },
        ));
        assert(tried_exam(before, *state, subject, in_train, accepted as int, screen));
    }
    let r = (screen, accepted);
    assert(accepted_on_try(*old(state), subject, in_train, brain_roll, health_roll, r.1 as int));
    r
}

/// One try at the exam in `subject` (in a train, when the hero followed
/// the professor there). Shows how many problems were accepted (for the
/// first draws, see `try_draws` and `accepted_on_try`), then an hour
/// passes, except for a hero who died in the train.
pub fn suffer_exam(rng: &mut Rng, state: &mut GameState, in_train: bool, subject: Subject) -> (r:
    Vec<GameScreen>)
    requires
        old(state).in_range(),
        can_pass_an_hour(*old(state)),
        old(state).player.status(subject).knowledge >= 0,
        old(state).player.status(subject).problems_done < 100,
    ensures
        r@.len() >= 1,
        exists|tried: GameState, accepted: int|
            {
                &&& (exists|b: int, h: int| #[trigger] accepted_on_try(*old(state), subject, in_train, b, h, accepted))
                &&& (exists|b: int, h: int, drawn: u64|
                    #[trigger] try_draws(old(rng)@, *old(state), b, h, drawn) && accepted_on_try(
                        *old(state),
                        subject,
                        in_train,
                        b,
                        h,
                        accepted,
                    ))
                &&& #[trigger] tried_exam(*old(state), tried, subject, in_train, accepted, r@[0])
                &&& if in_train && tried.player.health <= 0 {
                    r@.len() == 1 && *final(state) == tried
                } else {
                    passed_an_hour(tried, *final(state), Some(subject), r@.drop_first())
                }
            },
{
    let (screen, accepted) = try_exam(rng, state, in_train, subject);
    let ghost tried = *state;
    let mut screens: Vec<GameScreen> = Vec::new();
    screens.push(screen);
    if !in_train || state.player.health > 0 {
        let mut more = hour_pass(rng, state, Some(subject));
        let ghost tail = more@;
        screens.append(&mut more);
        assert(screens@.drop_first() =~= tail);
    }
    assert(tried_exam(*old(state), tried, subject, in_train, accepted as int, screens@[0]));
    screens
}

/// Whether `classmate` may pester the hero at the exam in `subject`: RAI
/// leaves him alone at the computer science exam.
pub fn wants_something(classmate: Classmate, subject: Subject) -> (r: bool)
    ensures
        r == !(classmate == Classmate::RAI && subject == Subject::ComputerScience),
{
    !(classmate == Classmate::RAI && subject == Subject::ComputerScience)
}

/// The hero ignores `classmate`, who pestered him at an exam: RAI and NiL
/// make him feel bad, which costs health.
pub fn ignore_classmate(state: &mut GameState, classmate: Classmate) -> (r: Vec<GameScreen>)
    requires
        -10000 <= old(state).player.health <= 10000,
    ensures
        r@ == seq![
            GameScreen::Exam(
                ExamScene::IgnoredClassmate {
                    feeling_bad: spec_classmate_health_penalty(classmate) > 0,
                },
            ),
        ],
        *final(state) == (if spec_classmate_health_penalty(classmate) > 0 {
            health_decreased(
                *old(state),
                spec_classmate_health_penalty(classmate),
                CauseOfDeath::BetterNotIgnoreClassmate(classmate),
            )
        } else {
            *old(state)
        }),
{
    let penalty = classmate.health_penalty();
    let feeling_bad = penalty > 0;
    let mut screens: Vec<GameScreen> = Vec::new();
    screens.push(GameScreen::Exam(ExamScene::IgnoredClassmate { feeling_bad }));
    if feeling_bad {
        decrease_health(state, penalty, CauseOfDeath::BetterNotIgnoreClassmate(classmate));
    }
    screens
}

/// Who has already pestered the hero during the current step of an exam,
/// and where the current pass over the classmates stands.
#[derive(Debug, Clone, Copy)]
pub struct NpcApproachRound {
    /// Who has pestered the hero already; nobody does it twice.
    pub approached: [bool; 12],
    /// How many had pestered him when the current pass began.
    pub times_approached: i16,
    /// The classmate to consider next in the current pass; 12 between
    /// passes.
    pub next: usize,
    /// Whether a pass has begun yet.
    pub started: bool,
    /// The hero's garlic breath when the step began: it keeps people away.
    pub garlic: i16,
}

/// What comes next while classmates may pester the hero at an exam.
#[derive(Debug, Clone, Copy, Eq, PartialEq, Structural)]
pub enum NpcApproachStep {
    /// This classmate wants something from the hero.
    Approach(Classmate),
    /// Nobody came during this pass; another may follow.
    Lull,
    /// Nobody else will come during this step of the exam.
    Done,
}

/// The number of `true` among the first `n` flags.
pub open spec fn count_flags(flags: Seq<bool>, n: int) -> int
    decreases n,
{
    if n <= 0 {
        0
    } else {
        count_flags(flags, n - 1) + if flags[n - 1] {
            1int
        } else {
            0
        }
    }
}

proof fn lemma_count_flags_bounds(flags: Seq<bool>, n: int)
    requires
        0 <= n,
    ensures
        0 <= count_flags(flags, n) <= n,
    decreases n,
{
    if n > 0 {
        lemma_count_flags_bounds(flags, n - 1);
    }
}

impl NpcApproachRound {
    pub open spec fn wf(self) -> bool {
        &&& self.next <= 12
        &&& 0 <= self.times_approached <= 12
        &&& -10000 <= self.garlic <= 10000
    }

    /// Nobody has pestered the hero yet.
    pub fn new(state: &GameState) -> (r: NpcApproachRound)
        requires
            -10000 <= state.player.garlic <= 10000,
        ensures
            r.wf(),
            forall|i: int| 0 <= i < 12 ==> !#[trigger] r.approached[i],
            r.next == 12,
            !r.started,
            r.garlic == state.player.garlic,
    {
        NpcApproachRound {
            approached: [false; 12],
            times_approached: 0,
            next: 12,
            started: false,
            garlic: state.player.garlic,
        }
    }

    /// How many have pestered the hero.
    pub fn count(&self) -> (r: i16)
        ensures
            r == count_flags(self.approached@, 12),
    {
        let mut n: i16 = 0;
        let mut i: usize = 0;
        while i < 12
            invariant
                i <= 12,
                n == count_flags(self.approached@, i as int),
                0 <= n <= i,
            decreases 12 - i,
        {
            proof {
                lemma_count_flags_bounds(self.approached@, i as int);
            }
            if self.approached[i] {
                n = n + 1;
            }
            i = i + 1;
        }
        n
    }
}

/// Whether `classmate`, with `times` people having pestered the hero, is in
/// the mood to pester him too: his annoyance, less half of `times` and the
/// garlic, beats a roll below ten.
pub open spec fn in_the_mood(classmate: Classmate, times: int, garlic: int, roll: int) -> bool {
    spec_annoyance(classmate) - times / 2 - garlic > roll
}

/// Where a pass over the classmates picks up: at the start of a new pass, or
/// where the last step stopped.
pub open spec fn pass_start(round: NpcApproachRound) -> int {
    if round.next == 12 {
        0
    } else {
        round.next as int
    }
}

/// During a pass in which `times` people had come, the classmate at `index`
/// let the hero be: he had come already, is not at this exam, the hero's
/// charisma is too low for more visitors, or a roll below ten kept him away.
pub open spec fn passed_over(
    state: GameState,
    subject: Subject,
    approached: Seq<bool>,
    index: int,
    times: int,
    garlic: int,
) -> bool {
    ||| approached[index]
    ||| !state.classmates.0[index].spec_is_at_exam(subject)
    ||| state.player.charisma / 2 <= times
    ||| exists|roll: int| 0 <= roll < 10 && !#[trigger] in_the_mood(classmate_at(index), times, garlic, roll)
}

/// The draws of a pass over the classmates from position `j` on, from the
/// generator state `before` to `after`, during which `times` people had
/// come: each classmate who has not come yet gets a roll below ten; the
/// first one in the mood for it (see `in_the_mood`), at this exam and
/// welcome for the hero's charisma is the one who comes (`result`), and the
/// pass stops there; `None` when nobody comes.
pub open spec fn approach_scan(
    before: u64,
    state: GameState,
    subject: Subject,
    approached: Seq<bool>,
    times: int,
    garlic: int,
    j: int,
    result: Option<int>,
    after: u64,
) -> bool
    decreases 12 - j,
{
    if j >= 12 {
        result is None && after == before
    } else if approached[j] {
        approach_scan(before, state, subject, approached, times, garlic, j + 1, result, after)
    } else {
        exists|v: u64, s1: u64|
            #[trigger] bounded_draw(before, 10, v, s1) && v < 10 && if in_the_mood(
                classmate_at(j),
                times,
                garlic,
                v as int,
            ) && state.classmates.0[j].spec_is_at_exam(subject) && state.player.charisma / 2 > times {
                result == Some(j) && after == s1
            } else {
                approach_scan(s1, state, subject, approached, times, garlic, j + 1, result, after)
            }
    }
}

/// How a step of the pestering begins, from the generator state `before` to
/// `begun`: a pass that goes on draws nothing; a new pass after an earlier
/// one needs a coin that comes up other than one.
pub open spec fn pass_begun(before: u64, round: NpcApproachRound, begun: u64) -> bool {
    if round.next == 12 && round.started {
        dice_rolled(before, begun, 2, false)
    } else {
        begun == before
    }
}

/// One step of the classmates' pestering at the exam in `subject`. Passes go
/// over the classmates in their canonical order; each one who has not
/// pestered the hero yet, is in the mood (a roll for each) and is at this
/// exam, pesters him, as long as half the hero's charisma exceeds the
/// number that had come when the pass began. A pass begins only while no
/// more than three have come and half the hero's charisma exceeds their
/// number; after a pass, a coin decides whether another begins.
pub fn npc_approach_step(
    rng: &mut Rng,
    state: &GameState,
    subject: Subject,
    round: &mut NpcApproachRound,
) -> (r: NpcApproachStep)
    requires
        old(round).wf(),
    ensures
        final(round).wf(),
        final(round).garlic == old(round).garlic,
        final(round).started,
        r matches NpcApproachStep::Approach(c) ==> {
            &&& !old(round).approached[classmate_index(c)]
            &&& final(round).approached@ == old(round).approached@.update(classmate_index(c), true)
            &&& state.classmates.0[classmate_index(c)].spec_is_at_exam(subject)
            &&& state.player.charisma / 2 > final(round).times_approached
            &&& exists|roll: int| 0 <= roll < 10 && #[trigger] in_the_mood(c, final(round).times_approached as int, old(round).garlic as int, roll)
        },
        r matches NpcApproachStep::Approach(c) ==> {
            &&& pass_start(*old(round)) <= classmate_index(c)
            &&& final(round).next == classmate_index(c) + 1
            &&& forall|j: int|
                pass_start(*old(round)) <= j < classmate_index(c) ==> #[trigger] passed_over(
                    *state,
                    subject,
                    old(round).approached@,
                    j,
                    final(round).times_approached as int,
                    old(round).garlic as int,
                )
        },
        !(r is Approach) ==> final(round).approached == old(round).approached,
        r is Lull ==> final(round).next == 12 && forall|j: int|
            pass_start(*old(round)) <= j < 12 ==> #[trigger] passed_over(
                *state,
                subject,
                old(round).approached@,
                j,
                final(round).times_approached as int,
                old(round).garlic as int,
            ),
        r is Done ==> old(round).next == 12 && (old(round).started || state.player.charisma / 2
            <= count_flags(old(round).approached@, 12) || count_flags(old(round).approached@, 12)
            > 3),
        r is Done && !old(round).started ==> final(rng)@ == old(rng)@,
        r is Done && old(round).started ==> exists|hit: bool|
            #[trigger] dice_rolled(old(rng)@, final(rng)@, 2, hit) && (hit || state.player.charisma
                / 2 <= count_flags(old(round).approached@, 12) || count_flags(
                old(round).approached@,
                12,
            ) > 3),
        !(r is Done) ==> exists|begun: u64|
            #[trigger] pass_begun(old(rng)@, *old(round), begun) && approach_scan(
                begun,
                *state,
                subject,
                old(round).approached@,
                final(round).times_approached as int,
                old(round).garlic as int,
                pass_start(*old(round)),
                match r {
                    NpcApproachStep::Approach(c) => Some(classmate_index(c)),
                    _ => None,
                },
                final(rng)@,
            ),
{
    if round.next == 12 {
        if round.started {
            let hit = rng.roll_dice(2);
            assert(dice_rolled(old(rng)@, rng@, 2, hit));
            if hit {
                return NpcApproachStep::Done;
            }
        }
        round.started = true;
        let times = round.count();
        proof {
            lemma_count_flags_bounds(round.approached@, 12);
        }
        if state.player.charisma / 2 <= times || times > 3 {
            return NpcApproachStep::Done;
        }
        round.times_approached = times;
        round.next = 0;
    }
    round.started = true;
    let times = round.times_approached;
    let ghost start = pass_start(*old(round));
    let ghost begun = rng@;
    assert(pass_begun(old(rng)@, *old(round), begun));
    while round.next < 12
        invariant
            round.wf(),
            round.started,
            round.garlic == old(round).garlic,
            round.approached == old(round).approached,
            round.times_approached == times,
            start == pass_start(*old(round)),
            pass_begun(old(rng)@, *old(round), begun),
            start <= round.next,
            forall|j: int|
                start <= j < round.next ==> #[trigger] passed_over(
                    *state,
                    subject,
                    old(round).approached@,
                    j,
                    times as int,
                    old(round).garlic as int,
                ),
            forall|res: Option<int>, aft: u64|
                #[trigger] approach_scan(
                    rng@,
                    *state,
                    subject,
                    old(round).approached@,
                    times as int,
                    old(round).garlic as int,
                    round.next as int,
                    res,
                    aft,
                ) ==> approach_scan(
                    begun,
                    *state,
                    subject,
                    old(round).approached@,
                    times as int,
                    old(round).garlic as int,
                    start,
                    res,
                    aft,
                ),
        decreases 12 - round.next,
    {
        let ghost prev = rng@;
        let i = round.next;
        round.next = i + 1;
        let classmate = Classmate::all()[i];
        let ghost garlic = old(round).garlic as int;
        if round.approached[i] {
            assert(passed_over(*state, subject, old(round).approached@, i as int, times as int, garlic));
            assert forall|res: Option<int>, aft: u64|
                #[trigger] approach_scan(
                    rng@,
                    *state,
                    subject,
                    old(round).approached@,
                    times as int,
                    garlic,
                    i + 1,
                    res,
                    aft,
                ) implies approach_scan(
                    begun,
                    *state,
                    subject,
                    old(round).approached@,
                    times as int,
                    garlic,
                    start,
                    res,
                    aft,
                ) by {
                assert(approach_scan(
                    prev,
                    *state,
                    subject,
                    old(round).approached@,
                    times as int,
                    garlic,
                    i as int,
                    res,
                    aft,
                ));
            }
            continue;
        }
        let roll = rng.random(10);
        assert(bounded_draw(prev, 10, roll as u64, rng@));
        assert(classmate == classmate_at(i as int));
        if classmate.annoyance() - times / 2 - round.garlic <= roll {
            assert(!in_the_mood(classmate, times as int, garlic, roll as int));
            assert(passed_over(*state, subject, old(round).approached@, i as int, times as int, garlic));
            assert forall|res: Option<int>, aft: u64|
                #[trigger] approach_scan(
                    rng@,
                    *state,
                    subject,
                    old(round).approached@,
                    times as int,
                    garlic,
                    i + 1,
                    res,
                    aft,
                ) implies approach_scan(
                    begun,
                    *state,
                    subject,
                    old(round).approached@,
                    times as int,
                    garlic,
                    start,
                    res,
                    aft,
                ) by {
                assert(approach_scan(
                    prev,
                    *state,
                    subject,
                    old(round).approached@,
                    times as int,
                    garlic,
                    i as int,
                    res,
                    aft,
                ));
            }
            continue;
        }
        assert(classmate_index(classmate_at(i as int)) == i);
        if !state.classmates.get(classmate).is_at_exam(subject) {
            assert(passed_over(*state, subject, old(round).approached@, i as int, times as int, garlic));
            assert forall|res: Option<int>, aft: u64|
                #[trigger] approach_scan(
                    rng@,
                    *state,
                    subject,
                    old(round).approached@,
                    times as int,
                    garlic,
                    i + 1,
                    res,
                    aft,
                ) implies approach_scan(
                    begun,
                    *state,
                    subject,
                    old(round).approached@,
                    times as int,
                    garlic,
                    start,
                    res,
                    aft,
                ) by {
                assert(approach_scan(
                    prev,
                    *state,
                    subject,
                    old(round).approached@,
                    times as int,
                    garlic,
                    i as int,
                    res,
                    aft,
                ));
            }
            continue;
        }
        if state.player.charisma / 2 > times {
            round.approached[i] = true;
            assert(in_the_mood(classmate, times as int, round.garlic as int, roll as int));
            assert(approach_scan(
                prev,
                *state,
                subject,
                old(round).approached@,
                times as int,
                garlic,
                i as int,
                Some(i as int),
                rng@,
            ));
            assert(approach_scan(
                begun,
                *state,
                subject,
                old(round).approached@,
                times as int,
                garlic,
                start,
                Some(classmate_index(classmate)),
                rng@,
            ));
            assert(pass_begun(old(rng)@, *old(round), begun));
            return NpcApproachStep::Approach(classmate);
        }
        assert(passed_over(*state, subject, old(round).approached@, i as int, times as int, garlic));
            assert forall|res: Option<int>, aft: u64|
                #[trigger] approach_scan(
                    rng@,
                    *state,
                    subject,
                    old(round).approached@,
                    times as int,
                    garlic,
                    i + 1,
                    res,
                    aft,
                ) implies approach_scan(
                    begun,
                    *state,
                    subject,
                    old(round).approached@,
                    times as int,
                    garlic,
                    start,
                    res,
                    aft,
                ) by {
                assert(approach_scan(
                    prev,
                    *state,
                    subject,
                    old(round).approached@,
                    times as int,
                    garlic,
                    i as int,
                    res,
                    aft,
                ));
            }
    }
    assert(approach_scan(
        rng@,
        *state,
        subject,
        old(round).approached@,
        times as int,
        old(round).garlic as int,
        12,
        None,
        rng@,
    ));
    NpcApproachStep::Lull
}

/// Following Vsemirnov into the train: the ride costs no health of itself,
/// and its screens are shown as part of the exam; being caught by the
/// inspectors leaves an extra empty screen.
pub fn ride_to_exam_in_train(rng: &mut Rng, state: &mut GameState, buy_ticket: bool) -> (r: Vec<
    GameScreen,
>)
    requires
        -10000 <= old(state).player.health <= 10000,
        -10000 <= old(state).player.money.0 <= 10000,
    ensures
        final(state).location == old(state).location,
        final(state).current_time == old(state).current_time,
        final(state).current_day_index == old(state).current_day_index,
        final(state).classmates == old(state).classmates,
        final(state).timetable == old(state).timetable,
        final(state).player.subjects == old(state).player.subjects,
        final(state).player.charisma == old(state).player.charisma,
        final(state).player.stamina == old(state).player.stamina,
        final(state).player.brain == old(state).player.brain,
        old(state).player.health - 10 <= final(state).player.health <= old(state).player.health,
        exists|caught: bool, scene: Option<(GameState, TrainScene)>|
            #[trigger] rode_train(*old(state), *final(state), 0, false, buy_ticket, caught, scene)
                && r@ == (match scene {
                Some((shown, scene)) => seq![GameScreen::Exam(ExamScene::Train(shown, scene))],
                None => seq![],
            }) + (if caught {
                seq![GameScreen::Exam(ExamScene::CaughtByInspectorsEmptyScreenBug)]
            } else {
                seq![]
            }) && inspected(old(rng)@, old(state).player, buy_ticket, caught, final(rng)@),
{
    let (caught, scene) = ride_train(rng, state, 0, false, buy_ticket);
    assert(inspected(old(rng)@, old(state).player, buy_ticket, caught, rng@));
    let mut screens: Vec<GameScreen> = Vec::new();
    match scene {
        Some((shown, scene)) => {
            screens.push(GameScreen::Exam(ExamScene::Train(shown, scene)));
        },
        None => {},
    }
    if caught {
        screens.push(GameScreen::Exam(ExamScene::CaughtByInspectorsEmptyScreenBug));
    }
    assert(screens@ =~= (match scene {
        Some((shown, scene)) => seq![GameScreen::Exam(ExamScene::Train(shown, scene))],
        None => seq![],
    }) + (if caught {
        seq![GameScreen::Exam(ExamScene::CaughtByInspectorsEmptyScreenBug)]
    } else {
        seq![]
    }));
    screens
}

/// The inspectors on a train to PDMI, from the generator state `before` to
/// `after`: a hero who has a ticket or buys one draws nothing; one who rides
/// without is `caught` when his charisma is below the next roll under ten.
pub open spec fn inspected(before: u64, player: Player, buy_ticket: bool, caught: bool, after: u64) -> bool {
    let rides_free = !player.has_roundtrip_train_ticket && (player.money.0 < ticket_cost(false)
        || !buy_ticket);
    &&& !rides_free ==> after == before
    &&& rides_free ==> exists|roll: u64|
        #[trigger] bounded_draw(before, 10, roll, after) && roll < 10 && (caught <==> player.charisma
            < roll)
}

/// From the Baltiyskiy railway station back to PUNK after an exam in the
/// train: no ticket is offered; a hero without one may be caught by the
/// inspectors (see `inspected`), which costs 10 health and an hour; the ride
/// itself takes an hour.
pub fn baltiyskiy_to_punk(rng: &mut Rng, state: &mut GameState) -> (r: Vec<GameScreen>)
    requires
        can_pass_an_hour(*old(state)),
        old(state).location != Location::Dorm,
        old(state).location != Location::ComputerClass,
        -10000 <= old(state).player.health <= 10000,
        old(state).current_time.0 < 22,
    ensures
        final(state).player.has_roundtrip_train_ticket == old(state).player.has_roundtrip_train_ticket,
        old(state).player.has_roundtrip_train_ticket ==> passed_an_hour(
            crate::logic::misc::relocated(*old(state), Location::PUNK),
            *final(state),
            None,
            r@,
        ),
        !old(state).player.has_roundtrip_train_ticket ==> exists|caught: bool, rolled: u64|
            #[trigger] inspected(old(rng)@, old(state).player, false, caught, rolled) && (caught ==> (
            r@.len() >= 1 && r@[0] == GameScreen::BaltiyskiyRailwayStation(
                BaltiyskiyRailwayStationScene::CaughtByInspectors,
            ) && exists|mid: GameState, k: int|
                1 <= k <= r@.len() && #[trigger] passed_an_hour(
                    health_decreased(*old(state), 10, CauseOfDeath::CorpseFoundInTheTrain),
                    mid,
                    None,
                    r@.subrange(1, k),
                ) && passed_an_hour(
                    crate::logic::misc::relocated(mid, Location::PUNK),
                    *final(state),
                    None,
                    r@.subrange(k, r@.len() as int),
                ))) && (!caught ==> passed_an_hour(
                crate::logic::misc::relocated(*old(state), Location::PUNK),
                *final(state),
                None,
                r@,
            )),
{
    let mut screens: Vec<GameScreen> = Vec::new();
    let mut caught_by_inspectors = false;
    if !state.player.has_roundtrip_train_ticket() {
        caught_by_inspectors = inspectors(rng, state);
    }
    let ghost rolled = rng@;
    assert(!old(state).player.has_roundtrip_train_ticket ==> inspected(
        old(rng)@,
        old(state).player,
        false,
        caught_by_inspectors,
        rolled,
    ));
    if caught_by_inspectors {
        screens.push(
            GameScreen::BaltiyskiyRailwayStation(BaltiyskiyRailwayStationScene::CaughtByInspectors),
        );
        decrease_health(state, 10, CauseOfDeath::CorpseFoundInTheTrain);
        let ghost caught = *state;
        let mut more = hour_pass(rng, state, None);
        let ghost first = more@;
        screens.append(&mut more);
        let ghost mid = *state;
        let ghost k = screens@.len() as int;
        state.set_location(Location::PUNK);
        let ghost arrived = *state;
        let mut more = hour_pass(rng, state, None);
        let ghost second = more@;
        screens.append(&mut more);
        assert(screens@.subrange(1, k) =~= first);
        assert(screens@.subrange(k, screens@.len() as int) =~= second);
        assert(arrived == crate::logic::misc::relocated(mid, Location::PUNK));
        assert(caught == health_decreased(*old(state), 10, CauseOfDeath::CorpseFoundInTheTrain));
        assert(passed_an_hour(caught, mid, None, screens@.subrange(1, k)));
    } else {
        state.set_location(Location::PUNK);
        let ghost arrived = *state;
        assert(arrived == crate::logic::misc::relocated(*old(state), Location::PUNK));
        screens = hour_pass(rng, state, None);
    }
    screens
}

} // verus!
