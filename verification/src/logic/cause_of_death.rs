//! The ways in which the game can end badly.

use crate::logic::npc::Classmate;
use crate::logic::subjects::Subject;
use vstd::prelude::*;

verus! {

#[derive(Debug, Copy, Clone, Eq, PartialEq, Structural)]
pub enum CauseOfDeath {
    /// Умер по пути на факультет.
    OnTheWayToPUNK,
    /// Умер по пути в мавзолей.
    OnTheWayToMausoleum,
    /// Умер по пути домой. Бывает.
    OnTheWayToDorm,
    /// Упал с лестницы у главного входа.
    FellFromStairs,
    /// Сгорел на работе.
    Burnout,
    /// Заучился.
    Overstudied,
    /// Зубрежка до добра не доводит!
    StudiedTooWell,
    /// Не смог расстаться с компьютером.
    CouldntLeaveTheComputer,
    /// В электричке нашли бездыханное тело.
    CorpseFoundInTheTrain,
    /// Контролеры жизни лишили.
    KilledByInspectors,
    /// Заснул в электричке и не проснулся.
    FellAsleepInTheTrain,
    /// Раздвоение ложной личности.
    SplitPersonality,
    /// Пивной алкоголизм, батенька...
    BeerAlcoholism,
    /// Спился.
    DrankTooMuch,
    /// Губит людей не пиво, а избыток пива.
    DrankTooMuchBeer,
    /// Альтруизм не довел до добра.
    Altruism,
    /// Превратился в овощ.
    TurnedToVegetable,
    /// <препод> замучил.
    TorturedByProfessor(Subject),
    /// Бурно прогрессирующая паранойя
    Paranoia,
    /// Время вышло.
    TimeOut,
    /// Вышел сам.
    Suicide,
    /// Раздавлен безжалостной ошибкой в программе.
    SoftwareBug,
    /// Всемирнов принял зачет... но не до конца.
    DestroyedByVsemirnov,
    /// Фея была не в настроении.
    FairyWasNotInTheMood,
    /// Эндрю умеет постоять за себя.
    AndrewCanDefendHimself,
    /// Загонял Миша.
    ExhaustedByMisha,
    /// Не надо разговаривать с DJuG-ом.
    DontTalkToDjug,
    /// DJuG смертельно опасен.
    DjugIsDeadly,
    /// RAI не любит отказов.
    KilledByRai,
    /// Не стоило игнорировать одногруппника.
    BetterNotIgnoreClassmate(Classmate),
}

} // verus!
