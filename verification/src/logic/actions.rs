//! What the player can choose on each screen.

use crate::logic::npc::Classmate;
use crate::logic::subjects::Subject;
use vstd::prelude::*;

verus! {

#[derive(Debug, Copy, Clone, Eq, PartialEq, Structural)]
pub enum PlayStyle {
    RandomStudent,
    CleverStudent,
    ImpudentStudent,
    SociableStudent,
    GodMode,
}

#[derive(Debug, Copy, Clone, Eq, PartialEq, Structural)]
pub enum HelpAction {
    WhatToDoAtAll,
    AboutScreen,
    WhereToGoAndWhy,
    AboutProfessors,
    AboutCharacters,
    AboutThisProgram,
    ThanksButNothing,
}

#[derive(Debug, Copy, Clone, Eq, PartialEq, Structural)]
pub enum TerkomEmploymentAction {
    Accept,
    Decline,
}

#[derive(Debug, Copy, Clone, Eq, PartialEq, Structural)]
pub enum UseLectureNotesAction {
    Yes,
    No,
}

#[derive(Debug, Copy, Clone, Eq, PartialEq, Structural)]
pub enum YesOrNoAction {
    Yes,
    No,
}

#[derive(Debug, Copy, Clone, Eq, PartialEq, Structural)]
pub enum GameEndAction {
    NoIAmNotDone,
    IAmCertainlyDone,
}

#[derive(Debug, Copy, Clone, Eq, PartialEq, Structural)]
pub enum TryAgainAction {
    WantToTryAgain,
    DontWantToTryAgain,
}

#[derive(Debug, Copy, Clone, Eq, PartialEq, Structural)]
pub enum MmheroesFloppyAction {
    WantToTestNewMMHEROES,
    DontWantToTestNewMMHEROES,
}

#[derive(Debug, Copy, Clone, Eq, PartialEq, Structural)]
pub enum NpcApproachAction {
    Ignore,
    TalkToClassmate(Classmate),
}

#[derive(Debug, Copy, Clone, Eq, PartialEq, Structural)]
pub enum ContinueSufferingWithExamInTrainAction {
    WantToSufferMore,
    NoThanks,
}

#[derive(Debug, Copy, Clone, Eq, PartialEq, Structural)]
pub enum BaltiyskiyRailwayStationAction {
    GoToPUNK,
    GoToPDMI,
}

#[derive(Debug, Copy, Clone, Eq, PartialEq, Structural)]
pub enum RaiAction {
    YesOfCourse,
    NoSorry,
}

#[derive(Debug, Copy, Clone, Eq, PartialEq, Structural)]
pub enum NilAction {
    YesOfCourse,
    MaybeNextTime,
}

#[derive(Debug, Copy, Clone, Eq, PartialEq, Structural)]
pub enum BugSquasherAction {
    LetsGo,
    NoIWontPlay,
}

#[derive(Debug, Copy, Clone, Eq, PartialEq, Structural)]
pub enum TennisAction {
    Sure,
    SorryMaybeLater,
}

#[derive(Debug, Copy, Clone, Eq, PartialEq, Structural)]
pub enum HelpFromAndrewAction {
    YesAmIWorseThanEveryoneElse,
    IWillDoItMyself,
}

#[derive(Debug, Copy, Clone, Eq, PartialEq, Structural)]
pub enum InvitationFromNeighborAction {
    Accept,
    Deny,
}

#[derive(Debug, Copy, Clone, Eq, PartialEq, Structural)]
pub enum Action {
    AnyKey,
    YesOrNo(YesOrNoAction),
    InteractWithClassmate(Classmate),
    Exam(Subject),
    DontGoToProfessor,
    SelectPlayStyle(PlayStyle),
    Study,
    DoStudy {
        subject: Subject,
        lecture_notes_available: bool,
    },
    DontStudy,
    UseLectureNotes(UseLectureNotesAction),
    RequestLectureNotesFromSasha(Subject),
    DontNeedAnythingFromSasha,
    ViewTimetable,
    Rest,
    GoToBed,
    InvitationFromNeighbor(InvitationFromNeighborAction),
    GoFromPunkToDorm,
    GoFromDormToPunk,
    GoFromMausoleumToDorm,
    GoFromMausoleumToPunk,
    RestByOurselvesInMausoleum,
    NoRestIsNoGood,
    TerkomEmployment(TerkomEmploymentAction),
    GoToComputerClass,
    LeaveComputerClass,
    GoToPDMI,
    GoToPUNKFromPDMI,
    TrainToPDMIGatecrash,
    TrainToPDMIBuyTicket,
    TrainFromPDMIGatecrash,
    TrainFromPDMIBuyTicket,
    GoToMausoleum,
    GoToCafePUNK,
    SurfInternet,
    PlayMMHEROES,
    EarnAtTerkom,
    SurfInternetAtTerkom,
    ExitTerkom,
    GoToProfessor,
    SufferMore,
    NpcApproach(NpcApproachAction),
    ExitExam,
    ContinueSufferingWithExamInTrain(ContinueSufferingWithExamInTrainAction),
    BaltiyskiyRailwayStation(BaltiyskiyRailwayStationAction),
    Rai(RaiAction),
    Nil(NilAction),
    BugSquasher(BugSquasherAction),
    Tennis(TennisAction),
    HelpFromAndrew(HelpFromAndrewAction),
    GoToWork,
    LookAtBaobab,
    LookAtBulletinBoard,
    OrderCola,
    OrderSoup,
    OrderBeer,
    OrderTea,
    OrderCake,
    OrderTeaWithCake,
    OrderCoffee,
    OrderPastry,
    OrderCoffeeWithPastry,
    RestInCafePUNK,
    RestInCafePDMI,
    ShouldntHaveComeToCafePUNK,
    LeaveCafePDMI,
    GoToCafePDMI,
    MmheroesFloppy(MmheroesFloppyAction),
    IAmDone,
    GameEnd(GameEndAction),
    WhatToDo,
    Help(HelpAction),
    TryAgain(TryAgainAction),
}

} // verus!
