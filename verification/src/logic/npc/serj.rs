//! Серж: кефир и советы.

use crate::logic::characteristics::Money;
use crate::logic::game_screen::GameScreen;
use crate::logic::game_state::{GameState, Location};
use crate::logic::player::Player;
use crate::logic::subject_status::SubjectStatus;
use crate::logic::npc::{classmate_index, Classmate, ClassmateInfo, ClassmateLocation};
use crate::logic::subjects::{subject_index, Subject};
use crate::logic::scene_router::exams::roll_against;
use crate::random::{bounded_draw, Rng};
use vstd::prelude::*;

verus! {

#[derive(Debug, Copy, Clone, Eq, PartialEq, Structural)]
pub enum SerjInteraction {
    /// "На, глотни кефирчику."
    HaveSomeKefir,

    /// "Я знаю, где срезать в парке на физ-ре!"
    IKnowWhereToCutInThePark,

    RandomReply(SerjReply),
}

#[derive(Debug, Copy, Clone, Eq, PartialEq, Structural)]
pub enum SerjReply {
    /// "Помнится, когда-то была еще графическая версия mmHeroes..."
    GuiMmheroes,

    /// "Я был бета-тестером первой версии mmHeroes (тогда еще CRWMM19)!"
    IWasABetaTester,

    /// "Как здорово, что Diamond написал новую версию!"
    HowGreatThatDiamondWroteANewVersion,

    /// "Ты уже получил деньги у Паши?"
    HaveYouAlreadyGotStipendFromPasha,

    /// "Попробуй для начала легкие зачеты."
    TryEasyExamsFirst,

    /// "Ты еще не получил зачет по английскому?"
    HaventYouPassedEnglishExam,

    /// "Хочешь отдыхать, где угодно? Заимей деньги!"
    WantToRestAnywhereGetMoney,

    /// "Не в деньгах счастье. Но они действуют успокаивающе."
    MoneyCantBuyHappiness,

    /// "На Всемирнове всегда толпа народу."
    AlwaysCrowdedOnVsemirnov,

    /// "Влащенко - дама весьма оригинальная."
    VlaschenkoIsOriginalLady,

    /// "Интересно, когда будет готова следующая версия?"
    WhenWillNewVersionBeReady,

    /// "Здоровье в кафе повышается в зависимости от наличия денег."
    HealthInCafe,

    /// "Если бы я знал адрес хорошего proxy..."'
    IfOnlyIKnewProxyAddress,

    /// "STAR временно накрылся. Хорошо бы узнать адрес другого proxy..."
    StarIsKaput,

    /// "Я подозреваю, что Гриша знает адресок теркомовского proxy."
    GrishaKnowsProxyAddress,

    /// "А Diamond все свободное время дописывает свою игрушку!"
    DiamondSpendsAllHisFreeTimeOnTheGame,

    /// "В следующем семестре информатику будет вести Терехов-младший."
    NextTermTerekhovJrWillTeachCS,

    /// "Diamond хочет переписать это все на Java."
    DiamondWantsToRewriteItInJava,

    /// "Миша проконсультирует тебя о стратегии."
    MishaWillTellYouTheStrategy,

    /// "Поговори с Diamond'ом, он много ценного скажет."
    TalkWithDiamondHeKnowsALot,

    /// "Борись до конца!"
    FightUntilTheEnd,

    /// "У Дубцова иногда бывает халява."
    SometimesThereIsFreebieWithDubtsov,
}

pub const SERJ_REPLY_COUNT: usize = 22;

impl SerjReply {
    pub open spec fn spec_variant_index(self) -> int {
        match self {
            SerjReply::GuiMmheroes => 0,
            SerjReply::IWasABetaTester => 1,
            SerjReply::HowGreatThatDiamondWroteANewVersion => 2,
            SerjReply::HaveYouAlreadyGotStipendFromPasha => 3,
            SerjReply::TryEasyExamsFirst => 4,
            SerjReply::HaventYouPassedEnglishExam => 5,
            SerjReply::WantToRestAnywhereGetMoney => 6,
            SerjReply::MoneyCantBuyHappiness => 7,
            SerjReply::AlwaysCrowdedOnVsemirnov => 8,
            SerjReply::VlaschenkoIsOriginalLady => 9,
            SerjReply::WhenWillNewVersionBeReady => 10,
            SerjReply::HealthInCafe => 11,
            SerjReply::IfOnlyIKnewProxyAddress => 12,
            SerjReply::StarIsKaput => 13,
            SerjReply::GrishaKnowsProxyAddress => 14,
            SerjReply::DiamondSpendsAllHisFreeTimeOnTheGame => 15,
            SerjReply::NextTermTerekhovJrWillTeachCS => 16,
            SerjReply::DiamondWantsToRewriteItInJava => 17,
            SerjReply::MishaWillTellYouTheStrategy => 18,
            SerjReply::TalkWithDiamondHeKnowsALot => 19,
            SerjReply::FightUntilTheEnd => 20,
            SerjReply::SometimesThereIsFreebieWithDubtsov => 21,
        }
    }

    /// The variant at `index` in declaration order.
    pub fn variant(index: usize) -> (r: SerjReply)
        requires
            index < SERJ_REPLY_COUNT,
        ensures
            r.spec_variant_index() == index,
    {
        match index {
            0 => SerjReply::GuiMmheroes,
            1 => SerjReply::IWasABetaTester,
            2 => SerjReply::HowGreatThatDiamondWroteANewVersion,
            3 => SerjReply::HaveYouAlreadyGotStipendFromPasha,
            4 => SerjReply::TryEasyExamsFirst,
            5 => SerjReply::HaventYouPassedEnglishExam,
            6 => SerjReply::WantToRestAnywhereGetMoney,
            7 => SerjReply::MoneyCantBuyHappiness,
            8 => SerjReply::AlwaysCrowdedOnVsemirnov,
            9 => SerjReply::VlaschenkoIsOriginalLady,
            10 => SerjReply::WhenWillNewVersionBeReady,
            11 => SerjReply::HealthInCafe,
            12 => SerjReply::IfOnlyIKnewProxyAddress,
            13 => SerjReply::StarIsKaput,
            14 => SerjReply::GrishaKnowsProxyAddress,
            15 => SerjReply::DiamondSpendsAllHisFreeTimeOnTheGame,
            16 => SerjReply::NextTermTerekhovJrWillTeachCS,
            17 => SerjReply::DiamondWantsToRewriteItInJava,
            18 => SerjReply::MishaWillTellYouTheStrategy,
            19 => SerjReply::TalkWithDiamondHeKnowsALot,
            20 => SerjReply::FightUntilTheEnd,
            _ => SerjReply::SometimesThereIsFreebieWithDubtsov,
        }
    }
}

/// What kefir does to knowledge: at an exam, knowledge of its subject above 3
/// drops by a roll below 3; otherwise nothing changes.
pub open spec fn kefir_knowledge(before: Player, after: Player, exam: Option<Subject>) -> bool {
    match exam {
        Some(subject) if before.status(subject).knowledge > 3 => {
            let k = before.status(subject);
            let now = after.status(subject).knowledge;
            &&& k.knowledge - 2 <= now <= k.knowledge
            &&& after.subjects@ == before.subjects@.update(
                subject_index(subject),
                SubjectStatus { knowledge: now, ..k },
            )
        },
        _ => after.subjects@ == before.subjects@,
    }
}

/// The draw behind kefir's effect on knowledge, from the generator state
/// `before` to `after`: at an exam, with knowledge of its subject above 3,
/// the drop is a draw below 3; otherwise nothing is drawn.
pub open spec fn kefir_knowledge_drawn(before: u64, p0: Player, p1: Player, exam: Option<Subject>, after: u64) -> bool {
    match exam {
        Some(subject) if p0.status(subject).knowledge > 3 => bounded_draw(
            before,
            3,
            (p0.status(subject).knowledge - p1.status(subject).knowledge) as u64,
            after,
        ),
        _ => after == before,
    }
}

fn drink_kefir_at_exam(rng: &mut Rng, player: &mut Player, exam: Option<Subject>)
    ensures
        kefir_knowledge(*old(player), *final(player), exam),
        kefir_knowledge_drawn(old(rng)@, *old(player), *final(player), exam, final(rng)@),
        *final(player) == (Player { subjects: final(player).subjects, ..*old(player) }),
{
    match exam {
        Some(subject) => {
            let status = player.status_for_subject_mut(subject);
            if status.knowledge > 3 {
                let drop = rng.random(3);
                status.knowledge = status.knowledge - drop;
                assert(bounded_draw(old(rng)@, 3, drop as u64, rng@));
            }
        },
        None => {},
    }
    assert(old(player).subjects@.update(
        subject_index(exam.unwrap_or(Subject::AlgebraAndNumberTheory)),
        old(player).status(exam.unwrap_or(Subject::AlgebraAndNumberTheory)),
    ) =~= old(player).subjects@);
}

/// Serj's choice, drawn from the generator state `before` (leaving
/// `after`): kefir when a roll against the hero's charisma beats one from 2
/// to 4 and the charisma, doubled, plus 20 exceeds his health; if not, the
/// park shortcut is on his mind (`park`) when another roll against charisma
/// beats one from 2 to 7.
pub open spec fn serj_offers(before: u64, player: Player, kefir: bool, park: bool, after: u64) -> bool {
    exists|a: int, b: u64, s1: u64, s2: u64|
        #![trigger roll_against(before, player.charisma as int, a, s1), bounded_draw(s1, 3, b, s2)]
        {
            &&& roll_against(before, player.charisma as int, a, s1)
            &&& bounded_draw(s1, 3, b, s2)
            &&& (kefir <==> a > b + 2 && player.charisma * 2 + 20 > player.health)
            &&& kefir ==> !park && after == s2
            &&& !kefir ==> park_considered(s2, player, park, after)
        }
}

/// The second of Serj's choices (see `serj_offers`).
pub open spec fn park_considered(before: u64, player: Player, park: bool, after: u64) -> bool {
    exists|a: int, b: u64, s1: u64|
        #![trigger roll_against(before, player.charisma as int, a, s1), bounded_draw(s1, 6, b, after)]
        roll_against(before, player.charisma as int, a, s1) && bounded_draw(s1, 6, b, after) && (park
            <==> a > b + 2)
}

fn serj_decides(rng: &mut Rng, player: &Player) -> (r: (bool, bool))
    requires
        -10000 <= player.charisma <= 10000,
        -10000 <= player.health <= 10000,
    ensures
        serj_offers(old(rng)@, *player, r.0, r.1, final(rng)@),
{
    let charisma = player.charisma;
    let a = rng.random(charisma);
    let ghost s1 = rng@;
    let b = rng.random_in_range(2, 5);
    let ghost s2 = rng@;
    assert(roll_against(old(rng)@, charisma as int, a as int, s1));
    assert(bounded_draw(s1, 3, (b - 2) as u64, s2));
    let kefir = a > b && charisma as i32 * 2 + 20 > player.health as i32;
    if kefir {
        return (true, false);
    }
    let a2 = rng.random(charisma);
    let ghost s3 = rng@;
    let b2 = rng.random_in_range(2, 8);
    assert(roll_against(s2, charisma as int, a2 as int, s3));
    assert(bounded_draw(s3, 6, (b2 - 2) as u64, rng@));
    assert(park_considered(s2, *player, a2 > b2, rng@));
    (false, a2 > b2)
}

/// What Serj says, `r`, follows his choice (see `serj_offers`), made after
/// the roll that decides whether he leaves.
pub open spec fn serj_chose(before: u64, player: Player, r: Option<GameScreen>) -> bool {
    exists|roll: u64, drawn: u64, kefir: bool, park: bool, decided: u64|
        #![trigger bounded_draw(before, 9, roll, drawn), serj_offers(drawn, player, kefir, park, decided)]
        {
            &&& bounded_draw(before, 9, roll, drawn)
            &&& serj_offers(drawn, player, kefir, park, decided)
            &&& (kefir <==> (r matches Some(
                GameScreen::SerjInteraction(_, SerjInteraction::HaveSomeKefir, _),
            )))
            &&& !kefir ==> ((r matches Some(
                GameScreen::SerjInteraction(_, SerjInteraction::IKnowWhereToCutInThePark, _),
            )) <==> park && player.status(Subject::PhysicalEducation).knowledge < 10)
            &&& !kefir ==> (r is None <==> park && player.status(Subject::PhysicalEducation).knowledge
                >= 10)
        }
}

/// The draws of a talk with Serj that ends in kefir, from the generator
/// state `before` to `after` (hero `p0` before, `p1` after): the roll that
/// decides whether he leaves, his choice (see `serj_offers`), the roll
/// against charisma that the hero's health gains on top of his charisma,
/// and the drop in knowledge (see `kefir_knowledge_drawn`).
pub open spec fn serj_kefir_drawn(before: u64, p0: Player, p1: Player, exam: Option<Subject>, after: u64) -> bool {
    exists|roll: u64, drawn: u64, decided: u64, mid: u64|
        #![trigger bounded_draw(before, 9, roll, drawn), serj_offers(drawn, p0, true, false, decided), kefir_knowledge_drawn(mid, p0, p1, exam, after)]
        {
            &&& bounded_draw(before, 9, roll, drawn)
            &&& serj_offers(drawn, p0, true, false, decided)
            &&& roll_against(decided, p0.charisma as int, p1.health - p0.health - p0.charisma, mid)
            &&& kefir_knowledge_drawn(mid, p0, p1, exam, after)
        }
}

/// Where Serj goes when he leaves: out of the mausoleum, nowhere; from
/// anywhere else, to the mausoleum.
pub open spec fn serj_leaves_for(location: ClassmateLocation) -> ClassmateLocation {
    if location == ClassmateLocation::Location(Location::Mausoleum) {
        ClassmateLocation::Nowhere
    } else {
        ClassmateLocation::Location(Location::Mausoleum)
    }
}

/// A talk with Serj. He leaves afterwards when the hero's charisma is below
/// a roll under 9. He offers kefir when a roll against charisma beats one in
/// `2..5` and the hero's charisma, doubled, plus 20 exceeds his health:
/// health grows by the charisma and a roll against it, and at an exam the
/// knowledge of the subject above 3 drops by a roll below 3. Else, when a
/// roll against charisma beats one in `2..8`, a hero who knows physical
/// education below 10 learns where to cut in the park (+30 to it), and
/// one who knows more hears nothing. Else he says one of his phrases.
#[verifier::rlimit(50)]
pub fn interact_with_serj(rng: &mut Rng, state: &mut GameState, exam_in_progress: Option<Subject>) -> (r:
    Option<GameScreen>)
    requires
        old(state).in_range(),
        old(state).classmates.0[classmate_index(Classmate::Serj)].current_location
            != ClassmateLocation::Nowhere,
        old(state).classmates.wf(),
    ensures
        final(state).location == old(state).location,
        final(state).current_time == old(state).current_time,
        final(state).current_day_index == old(state).current_day_index,
        final(state).timetable == old(state).timetable,
        final(state).player.money == old(state).player.money,
        final(state).player.charisma == old(state).player.charisma,
        final(state).classmates.wf(),
        ({
            let serj = classmate_index(Classmate::Serj);
            let was = old(state).classmates.0[serj].current_location;
            let now = final(state).classmates.0[serj].current_location;
            &&& final(state).classmates.0@ == old(state).classmates.0@.update(
                serj,
                ClassmateInfo { current_location: now, ..old(state).classmates.0[serj] },
            )
            &&& now == was || now == serj_leaves_for(was)
            &&& exists|roll: u64, drawn: u64|
                #[trigger] bounded_draw(old(rng)@, 9, roll, drawn) && roll < 9 && (now != was
                    <==> old(state).player.charisma < roll)
        }),
        r is None || (r matches Some(GameScreen::SerjInteraction(..))),
        r is None ==> final(state).player == old(state).player && old(state).player.status(
            Subject::PhysicalEducation,
        ).knowledge >= 10,
        r matches Some(GameScreen::SerjInteraction(seen, _, leaves)) ==> seen == *old(state) && leaves
            == (final(state).classmates.0[classmate_index(Classmate::Serj)].current_location
            != old(state).classmates.0[classmate_index(Classmate::Serj)].current_location),
        r matches Some(GameScreen::SerjInteraction(_, SerjInteraction::HaveSomeKefir, _)) ==> {
            let c = old(state).player.charisma;
            let gain = final(state).player.health - old(state).player.health - c;
            &&& c * 2 + 20 > old(state).player.health
            &&& final(state).player == (Player {
                health: final(state).player.health,
                subjects: final(state).player.subjects,
                ..old(state).player
            })
            &&& 0 <= gain && (gain == 0 || gain < c)
            &&& kefir_knowledge(old(state).player, final(state).player, exam_in_progress)
            &&& serj_kefir_drawn(
                old(rng)@,
                old(state).player,
                final(state).player,
                exam_in_progress,
                final(rng)@,
            )
        },
        r matches Some(GameScreen::SerjInteraction(_, SerjInteraction::IKnowWhereToCutInThePark, _))
            ==> {
            let pe = old(state).player.status(Subject::PhysicalEducation);
            &&& pe.knowledge < 10
            &&& final(state).player == (Player {
                subjects: final(state).player.subjects,
                ..old(state).player
            })
            &&& final(state).player.subjects@ == old(state).player.subjects@.update(
                subject_index(Subject::PhysicalEducation),
                SubjectStatus { knowledge: (pe.knowledge + 30) as i16, ..pe },
            )
        },
        (r matches Some(GameScreen::SerjInteraction(_, SerjInteraction::RandomReply(_), _)))
            ==> final(state).player == old(state).player,
        serj_chose(old(rng)@, old(state).player, r),
{
    let leave_roll = rng.random(9);
    let ghost drawn = rng@;
    let serj_leaves = state.player.charisma < leave_roll;
    let charisma = state.player.charisma;
    let mut screen: Option<GameScreen> = None;
    let (kefir, park) = serj_decides(rng, &state.player);
    let ghost decided = rng@;
    if kefir {
        screen = Some(GameScreen::SerjInteraction(*state, SerjInteraction::HaveSomeKefir, serj_leaves));
        state.player.health = state.player.health + charisma;
        let ghost before_roll = rng@;
        let extra = rng.random(charisma);
        let ghost mid = rng@;
        state.player.health = state.player.health + extra;
        let ghost healed = state.player;
        drink_kefir_at_exam(rng, &mut state.player, exam_in_progress);
        assert(roll_against(before_roll, charisma as int, extra as int, mid));
        assert(healed.subjects == old(state).player.subjects);
        assert(kefir_knowledge_drawn(mid, old(state).player, state.player, exam_in_progress, rng@)) by {
            if let Some(subject) = exam_in_progress {
                assert(healed.status(subject) == old(state).player.status(subject));
            }
        }
        assert(serj_offers(drawn, old(state).player, true, false, decided));
        assert(bounded_draw(old(rng)@, 9, leave_roll as u64, drawn));
        assert(serj_kefir_drawn(
            old(rng)@,
            old(state).player,
            state.player,
            exam_in_progress,
            rng@,
        ));
    } else if park {
        if state.player.status_for_subject(Subject::PhysicalEducation).knowledge < 10 {
            screen = Some(
                GameScreen::SerjInteraction(
                    *state,
                    SerjInteraction::IKnowWhereToCutInThePark,
                    serj_leaves,
                ),
            );
            let status = state.player.status_for_subject_mut(Subject::PhysicalEducation);
            status.knowledge = status.knowledge + 30;
        }
    } else {
        let reply = SerjReply::variant(rng.random_index(SERJ_REPLY_COUNT));
        screen = Some(GameScreen::SerjInteraction(*state, SerjInteraction::RandomReply(reply), serj_leaves));
    }
    if serj_leaves {
        let i = Classmate::Serj.index();
        let mut info = state.classmates.0[i];
        info.current_location = if info.current_location == ClassmateLocation::Location(
            Location::Mausoleum,
        ) {
            ClassmateLocation::Nowhere
        } else {
            ClassmateLocation::Location(Location::Mausoleum)
        };
        state.classmates.0[i] = info;
    }
    assert(bounded_draw(old(rng)@, 9, leave_roll as u64, drawn));
    assert(serj_offers(drawn, old(state).player, kefir, park, decided));
    assert(serj_chose(old(rng)@, old(state).player, screen));
    screen
}

} // verus!
