//! Миша: клоподавка и теннис.

use crate::logic::game_state::GameState;
use crate::logic::cause_of_death::CauseOfDeath;
use crate::logic::game_screen::GameScreen;
use crate::logic::game_state::Location;
use crate::logic::misc::{can_pass_an_hour, decrease_health, hour_pass, passed_an_hour};
use crate::logic::player::Player;
use crate::logic::subjects::Subject;
use crate::random::{bounded_draw, Rng};
use vstd::prelude::*;

verus! {

#[derive(Debug, Clone, Copy)]
pub enum MishaInteraction {
    /// "Слушай, хватит мучаться! Прервись! Давай в клоподавку сыграем!"
    PromptBugSquasher(GameState),

    /// "Ты сыграл с Мишей партию в клоподавку."
    PlayedBugSquasherWithMisha,

    /// "Зря, очень зря!" (когда отказался играть в клоподавку)
    TooBad,

    /// "Слушай, а ведь в ТЕРКОМе есть столик для тенниса. Сыграем?"
    PromptTennis(GameState),

    /// "Ты сыграл с Мишей в теннис."
    PlayedTennisWithMisha,

    /// "Ничего, я на тебя не в обиде." (когда отказался играть в теннис)
    NoWorries,

    RandomReply(GameState, MishaReply),
}

#[derive(Debug, Copy, Clone, Eq, PartialEq, Structural)]
pub enum MishaReply {
    /// "Эх, жаль, негде сыграть в клоподавку!"
    TooBadNowhereToPlayBugSquasher,

    /// "Всегда следи за здоровьем!"
    AlwaysPayAttentionToHealth,

    /// "Мозги влияют на подготовку и сдачу зачетов."
    BrainLevelAffectsExamSuccess,

    /// "Чем больше выносливость, тем меньше здоровья ты тратишь."
    TheMoreStaminaTheLessHealthYouSpend,

    /// "Чем больше твоя харизма, тем лучше у тебя отношения с людьми."
    TheMoreCharismaTheBetterRelationshipsWithPeople,

    /// "Важность конкретного качества сильно зависит от стиля игры."
    ImportanceOfCharacteristicAffectsGameStyle,

    /// "Харизма помогает получить что угодно от кого угодно."
    CharismaHelpsGetAnything,

    /// "Чем больше харизма, тем чаще к тебе пристают."
    TheMoreCharismaTheMoreYouAreApproached,

    /// "Чем меньше выносливость, тем больнее учиться."
    TheLessStaminaTheMorePainfulStudyingIs,

    /// "Чем больше мозги, тем легче готовиться."
    TheMoreBrainTheMoreEasyToPrepare,

    /// "Сидение в Inet\'e иногда развивает мозги."
    InternetSometimesImprovesBrain,

    /// "Если тебе надоело умирать - попробуй другую стратегию."
    IfTiredOfDyingTryAnotherStrategy,

    /// "Хочешь халявы - набирай харизму."
    WantFreebieGetCharisma,

    /// "Хочешь добиться всего сам - развивай мозги."
    WantAchieveEverythingYourselfImproveBrain,

    /// "В "Мавзолее" важно знать меру..."
    InMausoleumKnowingWhenToStopIsImportant,

    /// "От раздвоения личности спасают харизма и выносливость."
    CharismaAndStaminaSaveFromPersonalityDisorder,

    /// "От любого общения с NiL ты тупеешь!"
    YouGetStupidFromInteractingWithNil,

    /// "Гриша может помочь с трудоустройством."
    GrishaCanHelpWithEmployment,

    /// "Перемещения студентов предсказуемы."
    NpcMovementsArePredictable,
}

pub const MISHA_REPLY_COUNT: usize = 19;

impl MishaReply {
    pub open spec fn spec_variant_index(self) -> int {
        match self {
            MishaReply::TooBadNowhereToPlayBugSquasher => 0,
            MishaReply::AlwaysPayAttentionToHealth => 1,
            MishaReply::BrainLevelAffectsExamSuccess => 2,
            MishaReply::TheMoreStaminaTheLessHealthYouSpend => 3,
            MishaReply::TheMoreCharismaTheBetterRelationshipsWithPeople => 4,
            MishaReply::ImportanceOfCharacteristicAffectsGameStyle => 5,
            MishaReply::CharismaHelpsGetAnything => 6,
            MishaReply::TheMoreCharismaTheMoreYouAreApproached => 7,
            MishaReply::TheLessStaminaTheMorePainfulStudyingIs => 8,
            MishaReply::TheMoreBrainTheMoreEasyToPrepare => 9,
            MishaReply::InternetSometimesImprovesBrain => 10,
            MishaReply::IfTiredOfDyingTryAnotherStrategy => 11,
            MishaReply::WantFreebieGetCharisma => 12,
            MishaReply::WantAchieveEverythingYourselfImproveBrain => 13,
            MishaReply::InMausoleumKnowingWhenToStopIsImportant => 14,
            MishaReply::CharismaAndStaminaSaveFromPersonalityDisorder => 15,
            MishaReply::YouGetStupidFromInteractingWithNil => 16,
            MishaReply::GrishaCanHelpWithEmployment => 17,
            MishaReply::NpcMovementsArePredictable => 18,
        }
    }

    /// The variant at `index` in declaration order.
    pub fn variant(index: usize) -> (r: MishaReply)
        requires
            index < MISHA_REPLY_COUNT,
        ensures
            r.spec_variant_index() == index,
    {
        match index {
            0 => MishaReply::TooBadNowhereToPlayBugSquasher,
            1 => MishaReply::AlwaysPayAttentionToHealth,
            2 => MishaReply::BrainLevelAffectsExamSuccess,
            3 => MishaReply::TheMoreStaminaTheLessHealthYouSpend,
            4 => MishaReply::TheMoreCharismaTheBetterRelationshipsWithPeople,
            5 => MishaReply::ImportanceOfCharacteristicAffectsGameStyle,
            6 => MishaReply::CharismaHelpsGetAnything,
            7 => MishaReply::TheMoreCharismaTheMoreYouAreApproached,
            8 => MishaReply::TheLessStaminaTheMorePainfulStudyingIs,
            9 => MishaReply::TheMoreBrainTheMoreEasyToPrepare,
            10 => MishaReply::InternetSometimesImprovesBrain,
            11 => MishaReply::IfTiredOfDyingTryAnotherStrategy,
            12 => MishaReply::WantFreebieGetCharisma,
            13 => MishaReply::WantAchieveEverythingYourselfImproveBrain,
            14 => MishaReply::InMausoleumKnowingWhenToStopIsImportant,
            15 => MishaReply::CharismaAndStaminaSaveFromPersonalityDisorder,
            16 => MishaReply::YouGetStupidFromInteractingWithNil,
            17 => MishaReply::GrishaCanHelpWithEmployment,
            _ => MishaReply::NpcMovementsArePredictable,
        }
    }
}

/// What Misha wants.
#[derive(Debug, Clone, Copy, Eq, PartialEq, Structural)]
pub enum MishaOffer {
    /// A game of bug squasher (at an exam other than computer science).
    BugSquasher,
    /// A game of tennis (in PUNK, for a hero employed at TERKOM whose
    /// charisma beats a roll below 8).
    Tennis,
    /// Nothing: he says one of his phrases.
    Chat(MishaReply),
}

/// What Misha wants from the hero (see `MishaOffer`).
pub fn meet_misha(rng: &mut Rng, state: &GameState, exam_in_progress: Option<Subject>) -> (r: MishaOffer)
    ensures
        (exam_in_progress matches Some(s) && s != Subject::ComputerScience) <==> r
            == MishaOffer::BugSquasher,
        r == MishaOffer::Tennis ==> state.location == Location::PUNK && exam_in_progress is None
            && state.player.is_employed_at_terkom && state.player.charisma > 0,
        r == MishaOffer::BugSquasher ==> final(rng)@ == old(rng)@,
        state.location == Location::PUNK && exam_in_progress is None
            && state.player.is_employed_at_terkom ==> exists|v: u64, drawn: u64|
            #[trigger] bounded_draw(old(rng)@, 8, v, drawn) && v < 8 && (r == MishaOffer::Tennis
                <==> state.player.charisma > v) && (r == MishaOffer::Tennis ==> final(rng)@ == drawn),
{
    match exam_in_progress {
        Some(subject) => {
            if subject != Subject::ComputerScience {
                return MishaOffer::BugSquasher;
            }
        },
        None => {},
    }
    if state.location() == Location::PUNK && exam_in_progress.is_none()
        && state.player.is_employed_at_terkom() {
        let roll = rng.random(8);
        assert(bounded_draw(old(rng)@, 8, roll as u64, rng@));
        let ghost drawn = rng@;
        if state.player.charisma > roll {
            return MishaOffer::Tennis;
        }
        let reply = MishaReply::variant(rng.random_index(MISHA_REPLY_COUNT));
        assert(bounded_draw(old(rng)@, 8, roll as u64, drawn));
        return MishaOffer::Chat(reply);
    }
    MishaOffer::Chat(MishaReply::variant(rng.random_index(MISHA_REPLY_COUNT)))
}

/// A game of bug squasher with Misha: playing adds a point of charisma and
/// takes an hour; refusing costs up to a point of charisma.
pub fn play_bug_squasher(
    rng: &mut Rng,
    state: &mut GameState,
    play: bool,
    exam_in_progress: Option<Subject>,
) -> (r: Vec<GameScreen>)
    requires
        can_pass_an_hour(*old(state)),
        old(state).player.charisma < 10000,
        old(state).player.charisma > -10000,
    ensures
        r@.len() >= 1,
        play ==> r@[0] == GameScreen::MishaInteraction(MishaInteraction::PlayedBugSquasherWithMisha)
            && exists|played: GameState|
            #[trigger] passed_an_hour(played, *final(state), exam_in_progress, r@.drop_first())
                && played.player.charisma == old(state).player.charisma + 1
                && played.player.health == old(state).player.health
                && played.location == old(state).location
                && played.current_time == old(state).current_time,
        !play ==> r@ == seq![GameScreen::MishaInteraction(MishaInteraction::TooBad)] && *final(state)
            == (GameState {
            player: Player { charisma: final(state).player.charisma, ..old(state).player },
            ..*old(state)
        }) && old(state).player.charisma - 1 <= final(state).player.charisma
            <= old(state).player.charisma && bounded_draw(
            old(rng)@,
            2,
            (old(state).player.charisma - final(state).player.charisma) as u64,
            final(rng)@,
        ),
{
    let mut screens: Vec<GameScreen> = Vec::new();
    if play {
        screens.push(GameScreen::MishaInteraction(MishaInteraction::PlayedBugSquasherWithMisha));
        state.player.charisma = state.player.charisma + 1;
        let ghost played = *state;
        let mut more = hour_pass(rng, state, exam_in_progress);
        let ghost tail = more@;
        screens.append(&mut more);
        assert(screens@.drop_first() =~= tail);
        assert(passed_an_hour(played, *state, exam_in_progress, screens@.drop_first()));
    } else {
        screens.push(GameScreen::MishaInteraction(MishaInteraction::TooBad));
        let lost = rng.random(2);
        state.player.charisma = state.player.charisma - lost;
    }
    screens
}

/// A game of tennis with Misha: playing adds a point of charisma, exhausts a
/// hero whose (new) charisma is below a roll under 10 (3 to 5 health) and
/// takes an hour; refusing changes nothing.
pub fn play_tennis(
    rng: &mut Rng,
    state: &mut GameState,
    play: bool,
    exam_in_progress: Option<Subject>,
) -> (r: Vec<GameScreen>)
    requires
        can_pass_an_hour(*old(state)),
        old(state).player.charisma < 10000,
        -10000 <= old(state).player.health <= 10000,
    ensures
        r@.len() >= 1,
        play ==> r@[0] == GameScreen::MishaInteraction(MishaInteraction::PlayedTennisWithMisha)
            && exists|played: GameState|
            #[trigger] passed_an_hour(played, *final(state), exam_in_progress, r@.drop_first())
                && played.player.charisma == old(state).player.charisma + 1
                && old(state).player.health - 5 <= played.player.health <= old(state).player.health
                && played.location == old(state).location
                && played.current_time == old(state).current_time && exists|v: u64, drawn: u64|
                #[trigger] bounded_draw(old(rng)@, 10, v, drawn) && v < 10 && (played.player.health
                    != old(state).player.health <==> old(state).player.charisma + 1 < v),
        !play ==> r@ == seq![GameScreen::MishaInteraction(MishaInteraction::NoWorries)]
            && *final(state) == *old(state),
{
    let mut screens: Vec<GameScreen> = Vec::new();
    if play {
        screens.push(GameScreen::MishaInteraction(MishaInteraction::PlayedTennisWithMisha));
        state.player.charisma = state.player.charisma + 1;
        let roll = rng.random(10);
        let ghost drawn = rng@;
        assert(bounded_draw(old(rng)@, 10, roll as u64, drawn));
        if state.player.charisma < roll {
            let exhaustion = rng.random_in_range(3, 6);
            decrease_health(state, exhaustion, CauseOfDeath::ExhaustedByMisha);
        }
        let ghost played = *state;
        let mut more = hour_pass(rng, state, exam_in_progress);
        let ghost tail = more@;
        screens.append(&mut more);
        assert(screens@.drop_first() =~= tail);
        assert(passed_an_hour(played, *state, exam_in_progress, screens@.drop_first()));
    } else {
        screens.push(GameScreen::MishaInteraction(MishaInteraction::NoWorries));
    }
    screens
}

} // verus!
