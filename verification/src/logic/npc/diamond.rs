//! Diamond: автор игры.

use crate::logic::characteristics::Money;
use crate::logic::game_screen::GameScreen;
use crate::logic::game_state::{GameState, Location};
use crate::logic::npc::{classmate_index, dice_rolled, Classmate, ClassmateLocation};
use crate::logic::player::Player;
use crate::logic::subjects::Subject;
use crate::random::{bounded_draw, Rng};
use vstd::prelude::*;

verus! {

#[derive(Debug, Copy, Clone, Eq, PartialEq, Structural)]
pub enum DiamondInteraction {
    /// "Хочешь по-тестить новую версию Heroes of MAT-MEX?"
    WannaTestNewMMHEROES,

    /// "Ну и ладушки! Вот тебе дискетка..."
    HereIsTheFloppy,

    /// "Извини, что побеспокоил."
    SorryForBothering,

    Reply(DiamondReply),
}

#[derive(Debug, Copy, Clone, Eq, PartialEq, Structural)]
pub enum DiamondReply {
    /// "Коля поможет с алгеброй."
    KolyaWillHelpWithAlgebra,

    /// "Миша расскажет всем, какой ты хороший."
    MishaWillTellEveryoneHowGoodYouAre,

    /// "Паша - твой староста."
    PashaIsYourHeadman,

    /// "С DJuGом лучше не сталкиваться."
    BetterAvoidDJuG,

    /// "RAI не отстанет, лучше решить ему чего-нибудь."
    RAIWontLeaveYouAlone,

    /// "Коля все время сидит в мавзолее и оттягивается."
    KolyaIsAlwaysInMausoleum,

    /// "Следи за своим здоровьем!!!"
    WatchYourHealth,

    /// "Если встретишь Сашу - ОБЯЗАТЕЛЬНО заговори с ним."
    IfYouMeetSashaTalkToHim,

    /// "Если плохо думается, попробуй поговорить с RAI."
    IfTroubleThinkingTalkWithRAI,

    /// "Идя к Коле, будь уверен, что можешь пить с ним."
    BeSureYouCanDrinkBeforeGoingToKolya,

    /// "Получая зачет по английскому, будь готов к неожиданностям."
    ExpectSurprisesOnEnglishExam,

    /// "Иногда разговоры с Сержем приносят ощутимую пользу."
    TalksWithSerj,

    /// "Эндрю может помочь, но не всегда..."
    AndrewCanHelpButNotAlways,

    /// "Кузьменко иногда знает о Климове больше, чем сам Климов."
    KuzmenkoKnowsAboutKlimov,

    /// "Не спеши слать гневные письма о багах:
    /// загляни на mmheroes.chat.ru,
    /// может быть, все уже в порядке!"
    DontRushWritingBugReports,

    /// "Серж тоже иногда забегает в мавзолей."
    SerjSometimesAppearsInMausoleum,

    /// "Не переучи топологию, а то Подкорытов-младший не поймет."
    DontOverstudyTopology,

    /// "Можешь устроиться в ТЕРКОМ по знакомству."
    YouCanGetAJobInTERKOM,

    /// "Гриша работает ( ;*) ) в ТЕРКОМе."
    GrishaWorksAtTERKOM,

    /// "В ТЕРКОМЕ можно заработать какие-то деньги."
    YouCanEarnMoneyAtTERKOM,

    /// "Гриша иногда бывает в Мавзолее."
    GrishaSometimesAppearsInMausoleum,

    /// "Не нравится расписание? Подумай о чем-нибудь парадоксальном."
    DontLikeTimetable,

    /// "NiL дает деньги за помощь, но..."
    NiLPaysForHelpBut,

    /// "Честно, не знаю, когда будет готов порт под Linux..."
    DontKnowWhenLinuxPortWillBeReady,

    /// "Срочно! Нужны новые фишки для "Зачетной недели" !"
    NeedNewFeaturesForMMHEROES,

    /// "Пожелания, идеи, bug report'ы шлите на mmheroes@chat.ru !"
    SendIdeasAndBugReports,

    /// "Встретишь Костю Буленкова - передай ему большой привет!"
    SendGreetingsToKostyaBulenkov,

    /// "Большое спасибо Ване Павлику за mmheroes.chat.ru !"
    ThanksVanyaPavlik,
}

pub const DIAMOND_REPLY_COUNT: usize = 28;

impl DiamondReply {
    pub open spec fn spec_variant_index(self) -> int {
        match self {
            DiamondReply::KolyaWillHelpWithAlgebra => 0,
            DiamondReply::MishaWillTellEveryoneHowGoodYouAre => 1,
            DiamondReply::PashaIsYourHeadman => 2,
            DiamondReply::BetterAvoidDJuG => 3,
            DiamondReply::RAIWontLeaveYouAlone => 4,
            DiamondReply::KolyaIsAlwaysInMausoleum => 5,
            DiamondReply::WatchYourHealth => 6,
            DiamondReply::IfYouMeetSashaTalkToHim => 7,
            DiamondReply::IfTroubleThinkingTalkWithRAI => 8,
            DiamondReply::BeSureYouCanDrinkBeforeGoingToKolya => 9,
            DiamondReply::ExpectSurprisesOnEnglishExam => 10,
            DiamondReply::TalksWithSerj => 11,
            DiamondReply::AndrewCanHelpButNotAlways => 12,
            DiamondReply::KuzmenkoKnowsAboutKlimov => 13,
            DiamondReply::DontRushWritingBugReports => 14,
            DiamondReply::SerjSometimesAppearsInMausoleum => 15,
            DiamondReply::DontOverstudyTopology => 16,
            DiamondReply::YouCanGetAJobInTERKOM => 17,
            DiamondReply::GrishaWorksAtTERKOM => 18,
            DiamondReply::YouCanEarnMoneyAtTERKOM => 19,
            DiamondReply::GrishaSometimesAppearsInMausoleum => 20,
            DiamondReply::DontLikeTimetable => 21,
            DiamondReply::NiLPaysForHelpBut => 22,
            DiamondReply::DontKnowWhenLinuxPortWillBeReady => 23,
            DiamondReply::NeedNewFeaturesForMMHEROES => 24,
            DiamondReply::SendIdeasAndBugReports => 25,
            DiamondReply::SendGreetingsToKostyaBulenkov => 26,
            DiamondReply::ThanksVanyaPavlik => 27,
        }
    }

    /// The variant at `index` in declaration order.
    pub fn variant(index: usize) -> (r: DiamondReply)
        requires
            index < DIAMOND_REPLY_COUNT,
        ensures
            r.spec_variant_index() == index,
    {
        match index {
            0 => DiamondReply::KolyaWillHelpWithAlgebra,
            1 => DiamondReply::MishaWillTellEveryoneHowGoodYouAre,
            2 => DiamondReply::PashaIsYourHeadman,
            3 => DiamondReply::BetterAvoidDJuG,
            4 => DiamondReply::RAIWontLeaveYouAlone,
            5 => DiamondReply::KolyaIsAlwaysInMausoleum,
            6 => DiamondReply::WatchYourHealth,
            7 => DiamondReply::IfYouMeetSashaTalkToHim,
            8 => DiamondReply::IfTroubleThinkingTalkWithRAI,
            9 => DiamondReply::BeSureYouCanDrinkBeforeGoingToKolya,
            10 => DiamondReply::ExpectSurprisesOnEnglishExam,
            11 => DiamondReply::TalksWithSerj,
            12 => DiamondReply::AndrewCanHelpButNotAlways,
            13 => DiamondReply::KuzmenkoKnowsAboutKlimov,
            14 => DiamondReply::DontRushWritingBugReports,
            15 => DiamondReply::SerjSometimesAppearsInMausoleum,
            16 => DiamondReply::DontOverstudyTopology,
            17 => DiamondReply::YouCanGetAJobInTERKOM,
            18 => DiamondReply::GrishaWorksAtTERKOM,
            19 => DiamondReply::YouCanEarnMoneyAtTERKOM,
            20 => DiamondReply::GrishaSometimesAppearsInMausoleum,
            21 => DiamondReply::DontLikeTimetable,
            22 => DiamondReply::NiLPaysForHelpBut,
            23 => DiamondReply::DontKnowWhenLinuxPortWillBeReady,
            24 => DiamondReply::NeedNewFeaturesForMMHEROES,
            25 => DiamondReply::SendIdeasAndBugReports,
            26 => DiamondReply::SendGreetingsToKostyaBulenkov,
            _ => DiamondReply::ThanksVanyaPavlik,
        }
    }
}

/// A die of eight, rolled from the generator state `before`, decided
/// whether Diamond offers his new MMHEROES (`offered`).
pub open spec fn offer_rolled(before: u64, offered: bool) -> bool {
    exists|after: u64| #[trigger] dice_rolled(before, after, 8, offered)
}

/// The first part of a talk with Diamond. In the computer class, one time
/// in eight, he offers a hero without it his new MMHEROES (`true`: the
/// prompt is to be shown, then `answer_diamond`). Otherwise he says one of
/// his phrases and, outside an exam, leaves half of the times.
pub fn meet_diamond(rng: &mut Rng, state: &mut GameState, exam_in_progress: Option<Subject>) -> (r: (
    Option<GameScreen>,
    bool,
))
    requires
        old(state).classmates.wf(),
    ensures
        r.1 ==> r.0 is None && *final(state) == *old(state) && !old(state).player.has_mmheroes_floppy
            && old(state).location == Location::ComputerClass,
        !r.1 ==> (r.0 matches Some(GameScreen::DiamondInteraction(shown, DiamondInteraction::Reply(_), leaves))
            && shown == *old(state) && (leaves ==> exam_in_progress is None) && *final(state) == (if leaves {
            GameState {
                classmates: final(state).classmates,
                ..*old(state)
            }
        } else {
            *old(state)
        }) && (leaves ==> final(state).classmates.0@ == old(state).classmates.0@.update(
            classmate_index(Classmate::Diamond),
            crate::logic::npc::ClassmateInfo {
                current_location: ClassmateLocation::Nowhere,
                ..old(state).classmates.0[classmate_index(Classmate::Diamond)]
            },
        ))),
        !old(state).player.has_mmheroes_floppy && old(state).location == Location::ComputerClass
            ==> offer_rolled(old(rng)@, r.1),
        old(state).player.has_mmheroes_floppy || old(state).location != Location::ComputerClass
            ==> !r.1,
        !r.1 && exam_in_progress is None ==> exists|s1: u64, idx: u64, s2: u64|
            #![trigger bounded_draw(s1, 28, idx, s2)]
            bounded_draw(s1, 28, idx, s2) && idx < 28 && (r.0 matches Some(
                GameScreen::DiamondInteraction(_, DiamondInteraction::Reply(reply), leaves),
            ) ==> reply.spec_variant_index() == idx && dice_rolled(s2, final(rng)@, 2, leaves)) && (
            old(state).player.has_mmheroes_floppy || old(state).location != Location::ComputerClass
                ==> s1 == old(rng)@) && (!old(state).player.has_mmheroes_floppy && old(state).location
                == Location::ComputerClass ==> dice_rolled(old(rng)@, s1, 8, false)),
{
    let eligible = !state.player.has_mmheroes_floppy() && state.location() == Location::ComputerClass;
    let mut offers = false;
    if eligible {
        offers = rng.roll_dice(8);
        assert(dice_rolled(old(rng)@, rng@, 8, offers));
    }
    if offers {
        assert(offer_rolled(old(rng)@, true));
        return (None, true);
    }
    let ghost s1 = rng@;
    assert(eligible ==> dice_rolled(old(rng)@, s1, 8, false));
    let idx = rng.random_index(DIAMOND_REPLY_COUNT);
    let ghost s2 = rng@;
    assert(bounded_draw(s1, 28, idx as u64, s2));
    let reply = DiamondReply::variant(idx);
    let mut leaves = false;
    if exam_in_progress.is_none() {
        leaves = rng.roll_dice(2);
        assert(dice_rolled(s2, rng@, 2, leaves));
    }
    let screen = GameScreen::DiamondInteraction(*state, DiamondInteraction::Reply(reply), leaves);
    if leaves {
        let i = Classmate::Diamond.index();
        let mut info = state.classmates.0[i];
        info.current_location = ClassmateLocation::Nowhere;
        state.classmates.0[i] = info;
    }
    assert(eligible == (!old(state).player.has_mmheroes_floppy && old(state).location
        == Location::ComputerClass));
    assert(eligible ==> dice_rolled(old(rng)@, s1, 8, false));
    assert(eligible ==> offer_rolled(old(rng)@, false));
    (Some(screen), false)
}

/// The hero's answer to Diamond's offer: accepting it gives him the floppy
/// with the new MMHEROES.
pub fn answer_diamond(state: &mut GameState, accept: bool) -> (r: GameScreen)
    ensures
        accept ==> r == GameScreen::DiamondInteraction(
            *old(state),
            DiamondInteraction::HereIsTheFloppy,
            false,
        ) && *final(state) == (GameState {
            player: Player { has_mmheroes_floppy: true, ..old(state).player },
            ..*old(state)
        }),
        !accept ==> r == GameScreen::DiamondInteraction(
            *old(state),
            DiamondInteraction::SorryForBothering,
            false,
        ) && *final(state) == *old(state),
{
    if accept {
        let screen = GameScreen::DiamondInteraction(*state, DiamondInteraction::HereIsTheFloppy, false);
        state.player.set_has_mmheroes_floppy();
        screen
    } else {
        GameScreen::DiamondInteraction(*state, DiamondInteraction::SorryForBothering, false)
    }
}

} // verus!
