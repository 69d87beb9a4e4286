//! Эндрю: может помочь на зачёте.

use crate::logic::characteristics::Money;
use crate::logic::game_state::GameState;
use crate::logic::subjects::Subject;
use crate::logic::cause_of_death::CauseOfDeath;
use crate::logic::game_screen::GameScreen;
use crate::logic::misc::{
    can_pass_an_hour, decrease_health, health_decreased, hour_pass, passed_an_hour,
};
use crate::logic::npc::dice_rolled;
use crate::logic::scene_router::exams::{accepted_on_try, number_of_problems_accepted, try_draws};
use crate::logic::subjects::subject_at;
use crate::random::{bounded_draw, Rng};
use vstd::prelude::*;

verus! {

#[derive(Debug, Clone, Copy)]
pub enum AndrewInteraction {
    /// "Обратиться к Эндрю за помощью?"
    PromptHelpFromAndrew(GameState),

    RandomReply(AndrewReply),

    /// "Я подозреваю, что <препод> ничего тебе не засчитает." или
    /// "Я подозреваю, что <препод> зачтет тебе за 1 заход _x_ заданий."
    ScorePrediction {
        subject: Subject,
        prediction: u8,
    },

    /// "Эндрю решил тебе _x_ заданий" или "У Эндрю ничего не вышло"
    AndrewSolvedProblems {
        solved_by_andrew: u8,
        no_problems_remaining: bool,
    },

    /// "Эндрю тебя игнорирует!"
    AndrewIgnoresYou,
}

#[derive(Debug, Clone, Copy, Eq, PartialEq, Structural)]
pub enum AndrewReply {
    /// "Скажи Diamond'у, что маловато описалова!"
    TellDiamondTooLittleDescriptions,

    /// "А еще Diamond думал переписать это на JavaScript."
    DiamondThoughtAboutRewritingThisInJavaScript,

    /// "А я знаю выигрышную стратегию! Если только не замочат..."
    IKnowTheWinningStrategy,

    /// "Вообще-то, все это происходит в мае 1998 г."
    ThisIsHappeningInMay1998,

    /// "Я видел надпись на парте: ЗАКОН ВСЕМИРНОВА ТЯГОТЕНИЯ"
    ISawASignOnATable,

    /// "Загляни на mmheroes.chat.ru!"
    VisitMmheroesWebsite,

    /// "Только не предлагай Diamond'у переписать все на Прологе!"
    DontSuggestRewritingThisInProlog,

    /// "Ну когда же будет порт под Linux?"
    WhenWillLinuxPortBeReady,

    /// "VMWARE - SUXX... Но под ним идут Heroes of Mat & Mech!"
    VmwareSuxx,

    /// "Похоже, что моя стратегия обламывается..."
    SeemsLikeMyStrategyIsNotWorkingOut,

    /// "Ух ты! Гамма 3.14 - в этом что-то есть."
    Gamma314ThereIsSomethingInIt,

    /// "Может быть, Diamond'а просто заклинило на многоточиях?"
    MaybeDiamondIsCrazyAboutEllipsis,

    /// "Говорят, можно зарабатывать деньги, почти ничего не делая."
    YouCanEarnMoneyByDoingNothing,

    /// "Вот, иногда мне приходится тяжко - когда пристают всякие..."
    SometimesItsHardForMe,

    /// "Хорошо ли, что многие реплики персонажей посвящены самой игре?"
    IsItGoodThatManyRepliesAreAboutTheGame,

    /// "Помогите мне! Хочу в Inet!"
    HelpMeIWantInternet,

    /// "А что? А ничего."
    WhatNothing,

    /// "Если оно цвета бордо - значит, оно тебе снится."
    IfItsBurgundyYouAreDreaming,

    /// "Всех с ДНЕМ МАТ-МЕХА!"
    HappyMathMechDay,

    /// "Придумай свою фразу для персонажа!"
    ThinkOfAPhraseForACharacter,

    /// "120К исходников - вот что такое mmHeroes!"
    MmheroesIs120kOfSources,

    /// "120К весьма кривых исходников - вот что такое mmHeroes!"
    MmheroesIs120kOfSloppySources,
}

pub const ANDREW_REPLY_COUNT: usize = 22;

impl AndrewReply {
    pub open spec fn spec_variant_index(self) -> int {
        match self {
            AndrewReply::TellDiamondTooLittleDescriptions => 0,
            AndrewReply::DiamondThoughtAboutRewritingThisInJavaScript => 1,
            AndrewReply::IKnowTheWinningStrategy => 2,
            AndrewReply::ThisIsHappeningInMay1998 => 3,
            AndrewReply::ISawASignOnATable => 4,
            AndrewReply::VisitMmheroesWebsite => 5,
            AndrewReply::DontSuggestRewritingThisInProlog => 6,
            AndrewReply::WhenWillLinuxPortBeReady => 7,
            AndrewReply::VmwareSuxx => 8,
            AndrewReply::SeemsLikeMyStrategyIsNotWorkingOut => 9,
            AndrewReply::Gamma314ThereIsSomethingInIt => 10,
            AndrewReply::MaybeDiamondIsCrazyAboutEllipsis => 11,
            AndrewReply::YouCanEarnMoneyByDoingNothing => 12,
            AndrewReply::SometimesItsHardForMe => 13,
            AndrewReply::IsItGoodThatManyRepliesAreAboutTheGame => 14,
            AndrewReply::HelpMeIWantInternet => 15,
            AndrewReply::WhatNothing => 16,
            AndrewReply::IfItsBurgundyYouAreDreaming => 17,
            AndrewReply::HappyMathMechDay => 18,
            AndrewReply::ThinkOfAPhraseForACharacter => 19,
            AndrewReply::MmheroesIs120kOfSources => 20,
            AndrewReply::MmheroesIs120kOfSloppySources => 21,
        }
    }

    /// The variant at `index` in declaration order.
    pub fn variant(index: usize) -> (r: AndrewReply)
        requires
            index < ANDREW_REPLY_COUNT,
        ensures
            r.spec_variant_index() == index,
    {
        match index {
            0 => AndrewReply::TellDiamondTooLittleDescriptions,
            1 => AndrewReply::DiamondThoughtAboutRewritingThisInJavaScript,
            2 => AndrewReply::IKnowTheWinningStrategy,
            3 => AndrewReply::ThisIsHappeningInMay1998,
            4 => AndrewReply::ISawASignOnATable,
            5 => AndrewReply::VisitMmheroesWebsite,
            6 => AndrewReply::DontSuggestRewritingThisInProlog,
            7 => AndrewReply::WhenWillLinuxPortBeReady,
            8 => AndrewReply::VmwareSuxx,
            9 => AndrewReply::SeemsLikeMyStrategyIsNotWorkingOut,
            10 => AndrewReply::Gamma314ThereIsSomethingInIt,
            11 => AndrewReply::MaybeDiamondIsCrazyAboutEllipsis,
            12 => AndrewReply::YouCanEarnMoneyByDoingNothing,
            13 => AndrewReply::SometimesItsHardForMe,
            14 => AndrewReply::IsItGoodThatManyRepliesAreAboutTheGame,
            15 => AndrewReply::HelpMeIWantInternet,
            16 => AndrewReply::WhatNothing,
            17 => AndrewReply::IfItsBurgundyYouAreDreaming,
            18 => AndrewReply::HappyMathMechDay,
            19 => AndrewReply::ThinkOfAPhraseForACharacter,
            20 => AndrewReply::MmheroesIs120kOfSources,
            _ => AndrewReply::MmheroesIs120kOfSloppySources,
        }
    }
}

/// The whole part of the square root of `value`.
pub fn floor_sqrt(value: i16) -> (r: u8)
    requires
        0 <= value,
    ensures
        r * r <= value < (r + 1) * (r + 1),
{
    let mut k: u8 = 0;
    loop
        invariant
            k * k <= value,
            k <= 182,
            0 <= value <= i16::MAX,
        ensures
            k * k <= value < (k + 1) * (k + 1),
        decreases 182 - k,
    {
        let next = k as i32 + 1;
        proof {
            assert(next * next <= 183 * 183) by (nonlinear_arith)
                requires
                    1 <= next <= 183,
            ;
        }
        if next * next > value as i32 {
            break;
        }
        proof {
            assert(next <= 181) by (nonlinear_arith)
                requires
                    next * next <= 32767,
                    1 <= next,
            ;
        }
        k = k + 1;
    }
    k
}

/// Andrew's help, asked for at the exam in `subject`. A hero whose charisma
/// beats a roll below 14 gets the whole square root of a roll below the
/// problems remaining solved (none if that is more than 2), loses up to a
/// point of stamina, and an hour passes. Andrew ignores another, who loses 2
/// to 6 health (Andrew can defend himself).
pub fn ask_andrew_for_help(rng: &mut Rng, state: &mut GameState, subject: Subject) -> (r: Vec<
    GameScreen,
>)
    requires
        can_pass_an_hour(*old(state)),
        old(state).in_range(),
        old(state).player.status(subject).problems_done < 100,
    ensures
        r@.len() >= 1,
        r@[0] == GameScreen::AndrewInteraction(AndrewInteraction::AndrewIgnoresYou) ==> r@.len() == 1
            && exists|hurt: i16|
            2 <= hurt < 7 && *final(state) == #[trigger] health_decreased(
                *old(state),
                hurt,
                CauseOfDeath::AndrewCanDefendHimself,
            ),
        r@[0] != GameScreen::AndrewInteraction(AndrewInteraction::AndrewIgnoresYou) ==> (r@[0] matches GameScreen::AndrewInteraction(
            AndrewInteraction::AndrewSolvedProblems { solved_by_andrew, no_problems_remaining },
        ) && solved_by_andrew <= 2 && solved_by_andrew <= old(state).player.status(subject).spec_problems_remaining()
            && exists|helped: GameState|
            #[trigger] passed_an_hour(helped, *final(state), Some(subject), r@.drop_first())
                && helped.player.status(subject).problems_done == old(state).player.status(
                subject,
            ).problems_done + solved_by_andrew && old(state).player.stamina - 1
                <= helped.player.stamina <= old(state).player.stamina && helped.player.health
                == old(state).player.health && helped.location == old(state).location
                && helped.current_time == old(state).current_time),
        exists|v: u64, drawn: u64|
            #[trigger] bounded_draw(old(rng)@, 14, v, drawn) && v < 14 && (r@[0]
                != GameScreen::AndrewInteraction(AndrewInteraction::AndrewIgnoresYou) <==> old(
                state,
            ).player.charisma > v),
{
    let mut screens: Vec<GameScreen> = Vec::new();
    let decision = rng.random(14);
    assert(bounded_draw(old(rng)@, 14, decision as u64, rng@));
    if state.player.charisma > decision {
        let remaining = state.player.status_for_subject(subject).problems_remaining();
        let roll = rng.random(remaining as i16);
        assert(remaining == 0 || roll < remaining);
        assert(remaining == 0 ==> roll == 0);
        let mut solved = floor_sqrt(roll);
        assert(solved * solved <= roll);
        assert(solved == 0 || solved * solved < remaining) by (nonlinear_arith)
            requires
                solved * solved <= roll,
                remaining == 0 || roll < remaining,
                remaining == 0 ==> roll == 0,
        ;
        if solved > 2 {
            solved = 0;
        }
        assert(solved == 0 || solved * solved < remaining);
        proof {
            assert(solved <= remaining) by (nonlinear_arith)
                requires
                    solved * solved < remaining || solved == 0,
                    solved <= 2,
            ;
        }
        state.player.status_for_subject_mut(subject).more_problems_solved(solved);
        let no_problems_remaining = state.player.status_for_subject(subject).solved_all_problems();
        screens.push(
            GameScreen::AndrewInteraction(
                AndrewInteraction::AndrewSolvedProblems { solved_by_andrew: solved, no_problems_remaining },
            ),
        );
        state.player.stamina = state.player.stamina - rng.random(2);
        let ghost helped = *state;
        let mut more = hour_pass(rng, state, Some(subject));
        let ghost hour = more@;
        screens.append(&mut more);
        assert(screens@.drop_first() =~= hour);
        assert(passed_an_hour(helped, *state, Some(subject), screens@.drop_first()));
    } else {
        screens.push(GameScreen::AndrewInteraction(AndrewInteraction::AndrewIgnoresYou));
        let hurt = rng.random_in_range(2, 7);
        decrease_health(state, hurt, CauseOfDeath::AndrewCanDefendHimself);
    }
    screens
}

/// The hero declines Andrew's help: one time in three Andrew predicts how
/// many problems of the exam in `subject` would be accepted now, naming a
/// random subject instead; otherwise he says one of his phrases.
pub fn decline_andrews_help(rng: &mut Rng, state: &GameState, subject: Subject) -> (r: GameScreen)
    requires
        state.in_range(),
    ensures
        r matches GameScreen::AndrewInteraction(AndrewInteraction::ScorePrediction { prediction, .. })
            ==> prediction <= state.player.status(subject).spec_problems_remaining() && exists|
            brain_roll: int,
            health_roll: int,
        |
            #[trigger] accepted_on_try(
                *state,
                subject,
                false,
                brain_roll,
                health_roll,
                prediction as int,
            ),
        r is AndrewInteraction,
        exists|shown: bool, s1: u64|
            #[trigger] dice_rolled(old(rng)@, s1, 3, shown) && (shown <==> (r matches GameScreen::AndrewInteraction(AndrewInteraction::ScorePrediction { .. }))),
        r matches GameScreen::AndrewInteraction(AndrewInteraction::ScorePrediction { prediction, .. })
            ==> exists|s1: u64, idx: u64, s2: u64, b: int, h: int|
            #![trigger bounded_draw(s1, 6, idx, s2), try_draws(s2, *state, b, h, final(rng)@)]
            dice_rolled(old(rng)@, s1, 3, true) && bounded_draw(s1, 6, idx, s2) && try_draws(
                s2,
                *state,
                b,
                h,
                final(rng)@,
            ) && accepted_on_try(*state, subject, false, b, h, prediction as int),
{
    let shows = rng.roll_dice(3);
    let ghost s1 = rng@;
    assert(dice_rolled(old(rng)@, s1, 3, shows));
    if shows {
        let idx = rng.random_index(6);
        let ghost s2 = rng@;
        let shown_subject = Subject::all_subjects()[idx];
        let prediction = number_of_problems_accepted(rng, state, subject, false);
        assert(bounded_draw(s1, 6, idx as u64, s2));
        GameScreen::AndrewInteraction(
            AndrewInteraction::ScorePrediction { subject: shown_subject, prediction },
        )
    } else {
        let reply = AndrewReply::variant(rng.random_index(ANDREW_REPLY_COUNT));
        GameScreen::AndrewInteraction(AndrewInteraction::RandomReply(reply))
    }
}

} // verus!
