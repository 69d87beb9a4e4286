//! Кузьменко: может добавить зачёт по информатике.


use crate::logic::game_screen::GameScreen;
use crate::logic::game_state::{GameState, Location};
use crate::logic::subjects::{subject_index, Subject};
use crate::logic::timetable::{spec_no_exam, Day, Exam, Time};
use crate::random::{bounded_draw, Rng};
use vstd::prelude::*;

verus! {

#[derive(Debug, Copy, Clone, Eq, PartialEq, Structural)]
pub enum KuzmenkoInteraction {
    /// "Вы знаете, Климова можно найти в компьютерном классе 24-го мая с 10 по 11ч.."
    AdditionalComputerScienceExam {
        day_index: u8,
    },

    RandomReply(KuzmenkoReply),
}

#[derive(Debug, Copy, Clone, Eq, PartialEq, Structural)]
pub enum KuzmenkoReply {
    /// "... отформатировать дискету так, чтобы 1ый сектор был 5ым ..."
    FormatFloppy,

    /// "А Вы нигде не видели литературы по фильтрам в Windows?"
    FiltersInWindows,

    /// "... написать визуализацию байта на ассемблере за 11 байт ..."
    ByteVisualization,

    /// "У вас Олег Плисс ведет какие-нибудь занятия?"
    OlegPliss,

    /// "Bill Gates = must die = кабысдох (рус.)."
    BillGatesMustDie,

    /// "Вы читали журнал "Монитор"? Хотя вряд ли..."
    MonitorJournal,

    /// "Я слышал, что mmHeroes написана на BP 7.0."
    MmheroesBP7,

    /// "Записывайтесь на мой семинар по языку Си!"
    CSeminar,

    /// "На третьем курсе я буду вести у вас спецвычпрактикум."
    ThirdYear,

    /// "Интересно, когда они снова наладят STAR?"
    STAR,

    /// "Получите себе ящик rambler'e или на mail.ru !"
    GetYourselvesAnEmail,

    /// "А разве Терехов-старший ничего не рассказывает про IBM PC?"
    TerekhovSenior,
}

pub const KUZMENKO_REPLY_COUNT: usize = 12;

impl KuzmenkoReply {
    pub open spec fn spec_variant_index(self) -> int {
        match self {
            KuzmenkoReply::FormatFloppy => 0,
            KuzmenkoReply::FiltersInWindows => 1,
            KuzmenkoReply::ByteVisualization => 2,
            KuzmenkoReply::OlegPliss => 3,
            KuzmenkoReply::BillGatesMustDie => 4,
            KuzmenkoReply::MonitorJournal => 5,
            KuzmenkoReply::MmheroesBP7 => 6,
            KuzmenkoReply::CSeminar => 7,
            KuzmenkoReply::ThirdYear => 8,
            KuzmenkoReply::STAR => 9,
            KuzmenkoReply::GetYourselvesAnEmail => 10,
            KuzmenkoReply::TerekhovSenior => 11,
        }
    }

    /// The variant at `index` in declaration order.
    pub fn variant(index: usize) -> (r: KuzmenkoReply)
        requires
            index < KUZMENKO_REPLY_COUNT,
        ensures
            r.spec_variant_index() == index,
    {
        match index {
            0 => KuzmenkoReply::FormatFloppy,
            1 => KuzmenkoReply::FiltersInWindows,
            2 => KuzmenkoReply::ByteVisualization,
            3 => KuzmenkoReply::OlegPliss,
            4 => KuzmenkoReply::BillGatesMustDie,
            5 => KuzmenkoReply::MonitorJournal,
            6 => KuzmenkoReply::MmheroesBP7,
            7 => KuzmenkoReply::CSeminar,
            8 => KuzmenkoReply::ThirdYear,
            9 => KuzmenkoReply::STAR,
            10 => KuzmenkoReply::GetYourselvesAnEmail,
            _ => KuzmenkoReply::TerekhovSenior,
        }
    }
}

/// `exam` is an additional computer science exam as Kuzmenko arranges it:
/// in the computer class, starting between 10:00 and 14:00, for an hour or
/// two.
pub open spec fn is_additional_exam(exam: Exam) -> bool {
    &&& exam.subject == Subject::ComputerScience
    &&& exam.location == Location::ComputerClass
    &&& 10 <= exam.from.0 < 15
    &&& 1 <= exam.to.0 - exam.from.0 < 3
}

/// The additional exam that the draws from `before` arrange: the start hour
/// (a draw from 10 to 14), then its length (a draw of one or two hours);
/// the generator is left in `after`.
pub open spec fn exam_arranged(before: u64, exam: Exam, after: u64) -> bool {
    exists|start: u64, extra: u64, mid: u64|
        #![trigger bounded_draw(before, 5, start, mid), bounded_draw(mid, 2, extra, after)]
        bounded_draw(before, 5, start, mid) && bounded_draw(mid, 2, extra, after) && exam == (Exam {
            subject: Subject::ComputerScience,
            from: Time((10 + start) as u8),
            to: Time((10 + start + 1 + extra) as u8),
            location: Location::ComputerClass,
        })
}

/// Kuzmenko looks at the days from `day` back to `tomorrow`, drawing from
/// the generator state `before` one roll below 18 per day: on the first day
/// without a computer science exam where the hero's `charisma` beats the
/// roll, he arranges `exam` (see `exam_arranged`) and `result` is that day;
/// if there is none, `result` is `None`. The generator ends in `after`.
pub open spec fn kuzmenko_scan(
    before: u64,
    days: Seq<Day>,
    charisma: i16,
    day: int,
    tomorrow: int,
    result: Option<u8>,
    exam: Exam,
    after: u64,
) -> bool
    decreases day - tomorrow,
{
    if day < tomorrow {
        result is None && after == before
    } else {
        exists|v: u64, s1: u64|
            #[trigger] bounded_draw(before, 18, v, s1) && v < 18 && if charisma > v && days[day].spec_exam(
                Subject::ComputerScience,
            ) is None {
                result == Some(day as u8) && exam_arranged(s1, exam, after)
            } else if day == tomorrow {
                result is None && after == s1
            } else {
                kuzmenko_scan(s1, days, charisma, day - 1, tomorrow, result, exam, after)
            }
    }
}

/// Kuzmenko may arrange an additional computer science exam: going back
/// from Saturday to tomorrow, on the first day without one where the hero's
/// charisma beats a roll below 18 (one roll per day looked at). Returns the
/// day, if one was found; none is looked for after Friday.
pub fn additional_exam_day_index(rng: &mut Rng, state: &mut GameState) -> (r: Option<u8>)
    requires
        old(state).current_day_index < 6,
        old(state).timetable.wf(),
    ensures
        r is None ==> *final(state) == *old(state),
        r matches Some(i) ==> {
            let cs = subject_index(Subject::ComputerScience);
            &&& old(state).current_day_index < i <= 5
            &&& old(state).timetable.days[i as int].spec_exam(Subject::ComputerScience) is None
            &&& *final(state) == (GameState { timetable: final(state).timetable, ..*old(state) })
            &&& final(state).timetable.days@ == old(state).timetable.days@.update(
                i as int,
                final(state).timetable.days[i as int],
            )
            &&& final(state).timetable.days[i as int].index == old(state).timetable.days[i as int].index
            &&& final(state).timetable.days[i as int].exams@ == old(state).timetable.days[i as int].exams@.update(
                cs,
                final(state).timetable.days[i as int].exams[cs],
            )
            &&& is_additional_exam(final(state).timetable.days[i as int].exams[cs])
            &&& old(state).player.charisma > 0
            &&& forall|j: int|
                i < j <= 5 ==> old(state).player.charisma < 18 || (
                #[trigger] old(state).timetable.days[j]).spec_exam(Subject::ComputerScience) is Some
        },
        r is None ==> forall|j: int|
            old(state).current_day_index < j <= 5 ==> old(state).player.charisma < 18 || (
            #[trigger] old(state).timetable.days[j]).spec_exam(Subject::ComputerScience) is Some,
        kuzmenko_scan(
            old(rng)@,
            old(state).timetable.days@,
            old(state).player.charisma,
            5,
            old(state).current_day_index + 1,
            r,
            match r {
                Some(i) => final(state).timetable.days[i as int].exams[subject_index(
                    Subject::ComputerScience,
                )],
                None => spec_no_exam(),
            },
            final(rng)@,
        ),
{
    let tomorrow = state.current_day_index() + 1;
    let saturday: u8 = 5;
    if tomorrow > saturday {
        return None;
    }
    let mut i: u8 = saturday;
    loop
        invariant
            tomorrow <= i,
            i <= saturday,
            saturday == 5,
            *state == *old(state),
            tomorrow == old(state).current_day_index + 1,
            tomorrow <= saturday,
            forall|j: int|
                i < j <= 5 ==> old(state).player.charisma < 18 || (
                #[trigger] old(state).timetable.days[j]).spec_exam(Subject::ComputerScience) is Some,
            forall|res: Option<u8>, ex: Exam, aft: u64|
                #[trigger] kuzmenko_scan(
                    rng@,
                    old(state).timetable.days@,
                    old(state).player.charisma,
                    i as int,
                    tomorrow as int,
                    res,
                    ex,
                    aft,
                ) ==> kuzmenko_scan(
                    old(rng)@,
                    old(state).timetable.days@,
                    old(state).player.charisma,
                    5,
                    tomorrow as int,
                    res,
                    ex,
                    aft,
                ),
        decreases i + 1 - tomorrow,
    {
        let ghost prev = rng@;
        let roll = rng.random(18);
        let ghost s1 = rng@;
        assert(bounded_draw(prev, 18, roll as u64, s1));
        let has_enough_charisma = state.player.charisma > roll;
        let can_add_exam = state.timetable.day(i).exam(Subject::ComputerScience).is_none();
        if has_enough_charisma && can_add_exam {
            let from = rng.random_in_range(10, 15);
            let ghost s2 = rng@;
            let duration = rng.random_in_range(1, 3);
            assert(bounded_draw(s1, 5, (from - 10) as u64, s2));
            assert(bounded_draw(s2, 2, (duration - 1) as u64, rng@));
            let exam = Exam::new(
                Subject::ComputerScience,
                Time(from as u8),
                Time((from + duration) as u8),
                Location::ComputerClass,
            );
            assert(exam_arranged(s1, exam, rng@));
            let day = state.timetable.day_mut(i);
            day.add_exam(exam);
            proof {
                assert(state.timetable.days[i as int].exams[subject_index(Subject::ComputerScience)]
                    == exam);
                assert(kuzmenko_scan(
                    prev,
                    old(state).timetable.days@,
                    old(state).player.charisma,
                    i as int,
                    tomorrow as int,
                    Some(i),
                    exam,
                    rng@,
                ));
            }
            return Some(i);
        }
        if i == tomorrow {
            assert(kuzmenko_scan(
                prev,
                old(state).timetable.days@,
                old(state).player.charisma,
                i as int,
                tomorrow as int,
                None,
                spec_no_exam(),
                rng@,
            ));
            return None;
        }
        proof {
            assert forall|res: Option<u8>, ex: Exam, aft: u64|
                #[trigger] kuzmenko_scan(
                    s1,
                    old(state).timetable.days@,
                    old(state).player.charisma,
                    i - 1,
                    tomorrow as int,
                    res,
                    ex,
                    aft,
                ) implies kuzmenko_scan(
                    old(rng)@,
                    old(state).timetable.days@,
                    old(state).player.charisma,
                    5,
                    tomorrow as int,
                    res,
                    ex,
                    aft,
                ) by {
                assert(kuzmenko_scan(
                    prev,
                    old(state).timetable.days@,
                    old(state).player.charisma,
                    i as int,
                    tomorrow as int,
                    res,
                    ex,
                    aft,
                ));
            }
        }
        i = i - 1;
    }
}

/// What Kuzmenko says, `r`, after the days were looked at (see
/// `kuzmenko_scan`: the day found, `found`, and the generator state
/// `scanned` left): the exam he arranged, while fewer than two were told of
/// (`told` before); else a phrase picked by the next draw below 12, leaving
/// `after`.
pub open spec fn kuzmenko_replied(scanned: u64, found: Option<u8>, told: u8, r: GameScreen, after: u64) -> bool {
    match r {
        GameScreen::KuzmenkoInteraction(
            _,
            KuzmenkoInteraction::AdditionalComputerScienceExam { day_index },
        ) => found == Some(day_index) && told < 2 && after == scanned,
        GameScreen::KuzmenkoInteraction(_, KuzmenkoInteraction::RandomReply(reply)) => !(found is Some
            && told < 2) && bounded_draw(
            scanned,
            KUZMENKO_REPLY_COUNT as u64,
            reply.spec_variant_index() as u64,
            after,
        ),
        _ => false,
    }
}

/// Kuzmenko tells a hero for whom he arranged an additional computer
/// science exam where and when it is (only the first two times: later
/// exams are arranged all the same, but he just chats); otherwise he
/// chats.
pub fn interact_with_kuzmenko(rng: &mut Rng, state: &mut GameState) -> (r: GameScreen)
    requires
        old(state).current_day_index < 6,
        old(state).timetable.wf(),
    ensures
        r matches GameScreen::KuzmenkoInteraction(shown, interaction) && shown == *final(state) && (
        interaction is AdditionalComputerScienceExam ==> final(state).additional_computer_science_exams
            == old(state).additional_computer_science_exams + 1 && old(state).additional_computer_science_exams < 2),
        r matches GameScreen::KuzmenkoInteraction(_, KuzmenkoInteraction::RandomReply(_)) ==> final(state).additional_computer_science_exams
            == old(state).additional_computer_science_exams,
        r matches GameScreen::KuzmenkoInteraction(
            _,
            KuzmenkoInteraction::AdditionalComputerScienceExam { day_index },
        ) ==> old(state).current_day_index < day_index <= 5 && is_additional_exam(
            final(state).timetable.days[day_index as int].exams[subject_index(Subject::ComputerScience)],
        ) && old(state).timetable.days[day_index as int].spec_exam(Subject::ComputerScience) is None,
        final(state).player == old(state).player,
        final(state).location == old(state).location,
        final(state).current_time == old(state).current_time,
        exists|found: Option<u8>, exam: Exam, scanned: u64|
            #[trigger] kuzmenko_scan(
                old(rng)@,
                old(state).timetable.days@,
                old(state).player.charisma,
                5,
                old(state).current_day_index + 1,
                found,
                exam,
                scanned,
            ) && kuzmenko_replied(
                scanned,
                found,
                old(state).additional_computer_science_exams,
                r,
                final(rng)@,
            ),
{
    let found = additional_exam_day_index(rng, state);
    let ghost scanned = rng@;
    match found {
        Some(day_index) => {
            if state.additional_computer_science_exams() < 2 {
                state.add_additional_computer_science_exam();
                return GameScreen::KuzmenkoInteraction(
                    *state,
                    KuzmenkoInteraction::AdditionalComputerScienceExam { day_index },
                );
            }
        },
        None => {},
    }
    let index = rng.random_index(KUZMENKO_REPLY_COUNT);
    let reply = KuzmenkoReply::variant(index);
    assert(bounded_draw(scanned, KUZMENKO_REPLY_COUNT as u64, reply.spec_variant_index() as u64, rng@));
    GameScreen::KuzmenkoInteraction(*state, KuzmenkoInteraction::RandomReply(reply))
}

} // verus!
