//! What the player sees.

use crate::logic::game_state::GameState;
use crate::logic::npc::andrew::AndrewInteraction;
use crate::logic::npc::diamond::DiamondInteraction;
use crate::logic::npc::grisha::GrishaInteraction;
use crate::logic::npc::kolya::KolyaInteraction;
use crate::logic::npc::kuzmenko::KuzmenkoInteraction;
use crate::logic::npc::misha::MishaInteraction;
use crate::logic::npc::nil::NilInteraction;
use crate::logic::npc::pasha::PashaInteraction;
use crate::logic::npc::rai::RaiInteraction;
use crate::logic::npc::sasha::SashaInteraction;
use crate::logic::npc::serj::SerjInteraction;
use crate::logic::scene_router::computer_class::PlayMmheroesScene;
use crate::logic::scene_router::dorm::NeighborInvitation;
use crate::logic::scene_router::exams::{ExamIntro, ExamScene};
use crate::logic::scene_router::terkom::Terkom;
use crate::logic::scene_router::train::{BaltiyskiyRailwayStationScene, TrainScene};
use crate::logic::sleep::DreamScreen;
use vstd::prelude::*;

verus! {

#[derive(Debug, Clone, Copy)]
pub enum GameScreen {
    /// Самый первый экран, который видит пользователь.
    Intro,

    /// Экран, который видит пользователь, если запускает игру с каким-то аргументом.
    /// Предлагает выбрать стиль игры.
    InitialParameters,

    /// Экран с предысторией ("ты просыпаешься от звонка будильника...")
    Ding,

    /// Экран с расписанием.
    Timetable(GameState),

    /// Главный экран.
    SceneRouter(GameState),

    /// Выбор предмета для подготовки к зачёту.
    Study(GameState),

    /// "Воспользуюсь конспектом" или "Буду учиться как умею"
    PromptUseLectureNotes(GameState),

    /// Экран с рекордами — баобаб в ПУНКе или доска объявлений в ПОМИ.
    HighScores(GameState),

    /// Отдых в мавзолее.
    RestInMausoleum(GameState),

    /// Кафе в ПУНКе или ПОМИ
    Cafe(GameState),

    /// В зависимости от локации, экран с сообщением о том, что пора домой.
    Midnight(GameState),

    /// Электричка из ПУНКа в ПОМИ
    TrainToPDMI(GameState, TrainScene),

    /// Электричка из ПОМИ в ПУНК
    TrainFromPDMI(GameState, TrainScene),

    /// Взаимодействие с Колей.
    KolyaInteraction(GameState, KolyaInteraction),

    /// Взаимодействие с Пашей.
    PashaInteraction(GameState, PashaInteraction),

    /// Взаимодействие с Гришей.
    GrishaInteraction(GameState, GrishaInteraction),

    /// Взаимодействие с Сашей.
    SashaInteraction(GameState, SashaInteraction),

    /// Взаимодействие с Кузьменко.
    KuzmenkoInteraction(GameState, KuzmenkoInteraction),

    /// Взаимодействие с Diamond.
    /// Третий аргумент означает, уходит ли Diamond после взаимодействия.
    DiamondInteraction(GameState, DiamondInteraction, bool),

    /// Взаимодействие с Сержем.
    /// Третий аргумент означает, уходит ли Серж после взаимодействия.
    SerjInteraction(GameState, SerjInteraction, bool),

    /// Взаимодействие с Мишей
    MishaInteraction(MishaInteraction),

    /// Взаимодействие с Эндрю
    AndrewInteraction(AndrewInteraction),

    /// Взаимодействие с DJuG
    DjugInteraction(GameState),

    /// Взаимодействие с RAI
    RaiInteraction(RaiInteraction),

    /// Взаимодействие с NiL
    NilInteraction(NilInteraction),

    /// Работа в ТЕРКОМе
    Terkom(GameState, Terkom),

    /// Экран "Идти к преподу"
    GoToProfessor(GameState),

    /// Опциональный экран с прелюдией к сдаче зачёта
    ExamIntro(ExamIntro),

    /// Экран сдачи зачёта.
    Exam(ExamScene),

    /// После сдачи зачёта в электричке оказался на Балтийском вокзале,
    /// дальше можно либо поехать в ПОМИ, либо обратно в ПУНК.
    BaltiyskiyRailwayStation(BaltiyskiyRailwayStationScene),

    /// Экран "Тебя чего-то не тянет поспать"
    DontWantToSleep,

    /// Экран "Тебя неумолимо клонит ко сну ..."
    CantStayAwake(GameState),

    /// Экран, на котором сосед приглашает куда-то
    NeighborInvites(NeighborInvitation),

    /// Разные сновидения
    Dreaming(DreamScreen),

    /// Посидеть в интернете. Если `found_program` `true`, это означает, что
    /// герой нашёл в интернете решение задачи по информатике.
    SurfInternet { found_program: bool },

    /// Попытка поиграть в игру внутри игры.
    PlayMmheroes(PlayMmheroesScene),

    /// Экран "Класс закрывается. Пошли домой!"
    ComputerClassClosing(GameState),

    /// Экран "ты серьёзно хочешь закончить игру?"
    IAmDone(GameState),

    /// Финальный экран с описанием причины смерти/отчисления, либо поздравлением.
    GameEnd(GameState),

    /// Пользователю предлагается либо повторить игру, либо выйти.
    WannaTryAgain,

    /// Экран, который отображается пользователю, если он решил выйти из игры.
    Disclaimer,

    /// Экран помощи с описанием цели игры.
    WhatToDo(GameState),

    /// Экран помощи с описанием главного экрана.
    AboutScreen(GameState),

    /// Экран помощи с описанием локаций.
    WhereToGoAndWhy(GameState),

    /// Экран помощи с описанием преподавателей.
    AboutProfessors(GameState),

    /// Экран помощи с описанием NPC-шек.
    AboutCharacters(GameState),

    /// Экран помощи с информацией о программе.
    AboutThisProgram(GameState),

    /// Терминальное состояние. Ему тоже соответствует никакой экран.
    /// Игра завершена безвозвратно.
    Terminal,
}

impl GameScreen {
    /// The game state shown on this screen, if it shows one.
    pub open spec fn shown_state(self) -> Option<GameState> {
        match self {
            GameScreen::Timetable(state)
            | GameScreen::SceneRouter(state)
            | GameScreen::Midnight(state)
            | GameScreen::Study(state)
            | GameScreen::PromptUseLectureNotes(state)
            | GameScreen::HighScores(state)
            | GameScreen::IAmDone(state)
            | GameScreen::GameEnd(state)
            | GameScreen::WhatToDo(state)
            | GameScreen::AboutScreen(state)
            | GameScreen::WhereToGoAndWhy(state)
            | GameScreen::AboutProfessors(state)
            | GameScreen::AboutCharacters(state)
            | GameScreen::AboutThisProgram(state)
            | GameScreen::KolyaInteraction(state, _)
            | GameScreen::PashaInteraction(state, _)
            | GameScreen::GrishaInteraction(state, _)
            | GameScreen::SashaInteraction(state, _)
            | GameScreen::KuzmenkoInteraction(state, _)
            | GameScreen::DiamondInteraction(state, _, _)
            | GameScreen::SerjInteraction(state, _, _)
            | GameScreen::RaiInteraction(RaiInteraction::Ignores(state))
            | GameScreen::RaiInteraction(RaiInteraction::PromptWillYouHelpMe(state))
            | GameScreen::NilInteraction(NilInteraction::WillYouHelpMe(state))
            | GameScreen::MishaInteraction(MishaInteraction::PromptBugSquasher(state))
            | GameScreen::MishaInteraction(MishaInteraction::PromptTennis(state))
            | GameScreen::MishaInteraction(MishaInteraction::RandomReply(state, _))
            | GameScreen::AndrewInteraction(AndrewInteraction::PromptHelpFromAndrew(state))
            | GameScreen::DjugInteraction(state)
            | GameScreen::Terkom(state, _)
            | GameScreen::GoToProfessor(state)
            | GameScreen::Exam(ExamScene::Router(state, _))
            | GameScreen::Exam(ExamScene::ClassmateWantsSomething(state, _, _))
            | GameScreen::Exam(ExamScene::ProfessorLeaves(state, _))
            | GameScreen::Exam(ExamScene::ProfessorLingers(state, _))
            | GameScreen::Exam(ExamScene::PromptExamInTrain(state, _))
            | GameScreen::Exam(ExamScene::Train(state, _))
            | GameScreen::Exam(ExamScene::SufferInTrain { state, .. })
            | GameScreen::Exam(ExamScene::AlgebraExamPassed(state))
            | GameScreen::Exam(ExamScene::EnglishExamPassed(state, _))
            | GameScreen::Exam(ExamScene::ExamPassed(state, _))
            | GameScreen::BaltiyskiyRailwayStation(BaltiyskiyRailwayStationScene::Prompt(state))
            | GameScreen::RestInMausoleum(state)
            | GameScreen::Cafe(state)
            | GameScreen::ComputerClassClosing(state)
            | GameScreen::CantStayAwake(state)
            | GameScreen::NeighborInvites(NeighborInvitation::InvitePrompt(state))
            | GameScreen::TrainToPDMI(state, _)
            | GameScreen::TrainFromPDMI(state, _) => Some(state),
            GameScreen::Intro
            | GameScreen::InitialParameters
            | GameScreen::Ding
            | GameScreen::DontWantToSleep
            | GameScreen::NeighborInvites(NeighborInvitation::LetsGo)
            | GameScreen::NeighborInvites(NeighborInvitation::TooBad)
            | GameScreen::Dreaming(_)
            | GameScreen::SurfInternet { .. }
            | GameScreen::PlayMmheroes(_)
            | GameScreen::ExamIntro(_)
            | GameScreen::Exam(ExamScene::ExamSuffering { .. })
            | GameScreen::Exam(ExamScene::IgnoredClassmate { .. })
            | GameScreen::Exam(ExamScene::CaughtByInspectorsEmptyScreenBug)
            | GameScreen::BaltiyskiyRailwayStation(
                BaltiyskiyRailwayStationScene::CaughtByInspectors,
            )
            | GameScreen::RaiInteraction(RaiInteraction::TakeIt)
            | GameScreen::RaiInteraction(RaiInteraction::YouHelped)
            | GameScreen::RaiInteraction(RaiInteraction::Fail)
            | GameScreen::NilInteraction(NilInteraction::RefusedToHelp)
            | GameScreen::NilInteraction(NilInteraction::ThanksHereIsYourMoney(_))
            | GameScreen::NilInteraction(NilInteraction::DidntWorkOut)
            | GameScreen::MishaInteraction(MishaInteraction::NoWorries)
            | GameScreen::MishaInteraction(MishaInteraction::TooBad)
            | GameScreen::MishaInteraction(MishaInteraction::PlayedBugSquasherWithMisha)
            | GameScreen::MishaInteraction(MishaInteraction::PlayedTennisWithMisha)
            | GameScreen::AndrewInteraction(AndrewInteraction::ScorePrediction { .. })
            | GameScreen::AndrewInteraction(AndrewInteraction::RandomReply(_))
            | GameScreen::AndrewInteraction(AndrewInteraction::AndrewIgnoresYou)
            | GameScreen::AndrewInteraction(AndrewInteraction::AndrewSolvedProblems {
                ..
            })
            | GameScreen::WannaTryAgain
            | GameScreen::Disclaimer
            | GameScreen::Terminal => None,
        }
    }

    /// Возвращает текущее состояние игры, если оно доступно.
    /// Оно может быть недоступно, например, если игра ещё не началась
    /// или уже закончилась.
    pub fn state(&self) -> (r: Option<&GameState>)
        ensures
            match r {
                Some(state) => self.shown_state() == Some(*state),
                None => self.shown_state() is None,
            },
    {
        match self {
            GameScreen::Timetable(state)
            | GameScreen::SceneRouter(state)
            | GameScreen::Midnight(state)
            | GameScreen::Study(state)
            | GameScreen::PromptUseLectureNotes(state)
            | GameScreen::HighScores(state)
            | GameScreen::IAmDone(state)
            | GameScreen::GameEnd(state)
            | GameScreen::WhatToDo(state)
            | GameScreen::AboutScreen(state)
            | GameScreen::WhereToGoAndWhy(state)
            | GameScreen::AboutProfessors(state)
            | GameScreen::AboutCharacters(state)
            | GameScreen::AboutThisProgram(state)
            | GameScreen::KolyaInteraction(state, _)
            | GameScreen::PashaInteraction(state, _)
            | GameScreen::GrishaInteraction(state, _)
            | GameScreen::SashaInteraction(state, _)
            | GameScreen::KuzmenkoInteraction(state, _)
            | GameScreen::DiamondInteraction(state, _, _)
            | GameScreen::SerjInteraction(state, _, _)
            | GameScreen::RaiInteraction(RaiInteraction::Ignores(state))
            | GameScreen::RaiInteraction(RaiInteraction::PromptWillYouHelpMe(state))
            | GameScreen::NilInteraction(NilInteraction::WillYouHelpMe(state))
            | GameScreen::MishaInteraction(MishaInteraction::PromptBugSquasher(state))
            | GameScreen::MishaInteraction(MishaInteraction::PromptTennis(state))
            | GameScreen::MishaInteraction(MishaInteraction::RandomReply(state, _))
            | GameScreen::AndrewInteraction(AndrewInteraction::PromptHelpFromAndrew(state))
            | GameScreen::DjugInteraction(state)
            | GameScreen::Terkom(state, _)
            | GameScreen::GoToProfessor(state)
            | GameScreen::Exam(ExamScene::Router(state, _))
            | GameScreen::Exam(ExamScene::ClassmateWantsSomething(state, _, _))
            | GameScreen::Exam(ExamScene::ProfessorLeaves(state, _))
            | GameScreen::Exam(ExamScene::ProfessorLingers(state, _))
            | GameScreen::Exam(ExamScene::PromptExamInTrain(state, _))
            | GameScreen::Exam(ExamScene::Train(state, _))
            | GameScreen::Exam(ExamScene::SufferInTrain { state, .. })
            | GameScreen::Exam(ExamScene::AlgebraExamPassed(state))
            | GameScreen::Exam(ExamScene::EnglishExamPassed(state, _))
            | GameScreen::Exam(ExamScene::ExamPassed(state, _))
            | GameScreen::BaltiyskiyRailwayStation(BaltiyskiyRailwayStationScene::Prompt(state))
            | GameScreen::RestInMausoleum(state)
            | GameScreen::Cafe(state)
            | GameScreen::ComputerClassClosing(state)
            | GameScreen::CantStayAwake(state)
            | GameScreen::NeighborInvites(NeighborInvitation::InvitePrompt(state))
            | GameScreen::TrainToPDMI(state, _)
            | GameScreen::TrainFromPDMI(state, _) => Some(state),
            GameScreen::Intro
            | GameScreen::InitialParameters
            | GameScreen::Ding
            | GameScreen::DontWantToSleep
            | GameScreen::NeighborInvites(NeighborInvitation::LetsGo)
            | GameScreen::NeighborInvites(NeighborInvitation::TooBad)
            | GameScreen::Dreaming(_)
            | GameScreen::SurfInternet { .. }
            | GameScreen::PlayMmheroes(_)
            | GameScreen::ExamIntro(_)
            | GameScreen::Exam(ExamScene::ExamSuffering { .. })
            | GameScreen::Exam(ExamScene::IgnoredClassmate { .. })
            | GameScreen::Exam(ExamScene::CaughtByInspectorsEmptyScreenBug)
            | GameScreen::BaltiyskiyRailwayStation(
                BaltiyskiyRailwayStationScene::CaughtByInspectors,
            )
            | GameScreen::RaiInteraction(RaiInteraction::TakeIt)
            | GameScreen::RaiInteraction(RaiInteraction::YouHelped)
            | GameScreen::RaiInteraction(RaiInteraction::Fail)
            | GameScreen::NilInteraction(NilInteraction::RefusedToHelp)
            | GameScreen::NilInteraction(NilInteraction::ThanksHereIsYourMoney(_))
            | GameScreen::NilInteraction(NilInteraction::DidntWorkOut)
            | GameScreen::MishaInteraction(MishaInteraction::NoWorries)
            | GameScreen::MishaInteraction(MishaInteraction::TooBad)
            | GameScreen::MishaInteraction(MishaInteraction::PlayedBugSquasherWithMisha)
            | GameScreen::MishaInteraction(MishaInteraction::PlayedTennisWithMisha)
            | GameScreen::AndrewInteraction(AndrewInteraction::ScorePrediction { .. })
            | GameScreen::AndrewInteraction(AndrewInteraction::RandomReply(_))
            | GameScreen::AndrewInteraction(AndrewInteraction::AndrewIgnoresYou)
            | GameScreen::AndrewInteraction(AndrewInteraction::AndrewSolvedProblems {
                ..
            })
            | GameScreen::WannaTryAgain
            | GameScreen::Disclaimer
            | GameScreen::Terminal => None,
        }
    }
}

} // verus!
