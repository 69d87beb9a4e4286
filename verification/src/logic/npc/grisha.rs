//! Гриша: устраивает в ТЕРКОМ и знает прокси.


use crate::logic::cause_of_death::CauseOfDeath;
use crate::logic::game_screen::GameScreen;
use crate::logic::game_state::GameState;
use crate::logic::misc::{
    brain_decreased, can_pass_an_hour, decrease_brain, hour_pass, passed_an_hour,
};
use crate::logic::player::Player;
use crate::logic::npc::dice_rolled;
use crate::random::{bounded_draw, Rng};
use vstd::prelude::*;

verus! {

#[derive(Debug, Copy, Clone, Eq, PartialEq, Structural)]
pub enum GrishaInteraction {
    /// "А ты не хочешь устроиться в ТЕРКОМ? Может, кое-чего подзаработаешь..."
    /// (да или нет)
    PromptEmploymentAtTerkom,

    /// "Поздравляю, теперь ты можешь идти в "контору"!"
    CongratulationsYouAreNowEmployed,

    /// "Как хочешь. Только смотри, не заучись там ..."
    AsYouWantButDontOverstudy,

    /// "Кстати, я тут знаю один качественно работающий прокси-сервер..."
    ProxyAddress,

    RandomReply {
        reply: GrishaReply,
        drink_beer: bool,
        hour_pass: bool,
    },
}

#[derive(Debug, Copy, Clone, Eq, PartialEq, Structural)]
pub enum GrishaReply {
    /// "Хочу халявы!"
    WantFreebie,

    /// "Прийди же, о халява!"
    FreebieComeToMe,

    /// "Халява есть - ее не может не быть."
    FreebieExists,

    /// "Давай организуем клуб любетелей халявы!"
    LetsOrganizeFreebieLoversClub,

    /// "Чтобы получить диплом, учиться совершенно необязательно!"
    NoNeedToStudyToGetDiploma,

    /// "Ну вот, ты готовился... Помогло это тебе?"
    YouStudiedDidItHelp,

    /// "На третьем курсе на лекции уже никто не ходит. Почти никто."
    ThirdYearStudentsDontAttendLectures,

    /// "Вот, бери пример с Коли."
    TakeExampleFromKolya,

    /// "Ненавижу Льва Толстого! Вчера "Войну и мир" <йк> ксерил..."
    HateLevTolstoy,

    /// "А в ПОМИ лучше вообще не ездить!"
    DontGoToPDMI,

    /// "Имена главных халявчиков и алкоголиков висят на баобабе."
    NamesOfFreebieLovers,

    /// "Правильно, лучше посидим здесь и оттянемся!"
    SitHereAndChill,

    /// "Конспектировать ничего не надо. В мире есть ксероксы!"
    NoNeedToTakeLectureNotes,

    /// "А с четвертого курса вылететь уже почти невозможно."
    CantBeExpelledInFourthYear,

    /// "Вот у механиков - у них халява!"
    MechanicsHaveFreebie,
}

pub const GRISHA_REPLY_COUNT: usize = 15;

impl GrishaReply {
    pub open spec fn spec_variant_index(self) -> int {
        match self {
            GrishaReply::WantFreebie => 0,
            GrishaReply::FreebieComeToMe => 1,
            GrishaReply::FreebieExists => 2,
            GrishaReply::LetsOrganizeFreebieLoversClub => 3,
            GrishaReply::NoNeedToStudyToGetDiploma => 4,
            GrishaReply::YouStudiedDidItHelp => 5,
            GrishaReply::ThirdYearStudentsDontAttendLectures => 6,
            GrishaReply::TakeExampleFromKolya => 7,
            GrishaReply::HateLevTolstoy => 8,
            GrishaReply::DontGoToPDMI => 9,
            GrishaReply::NamesOfFreebieLovers => 10,
            GrishaReply::SitHereAndChill => 11,
            GrishaReply::NoNeedToTakeLectureNotes => 12,
            GrishaReply::CantBeExpelledInFourthYear => 13,
            GrishaReply::MechanicsHaveFreebie => 14,
        }
    }

    /// The variant at `index` in declaration order.
    pub fn variant(index: usize) -> (r: GrishaReply)
        requires
            index < GRISHA_REPLY_COUNT,
        ensures
            r.spec_variant_index() == index,
    {
        match index {
            0 => GrishaReply::WantFreebie,
            1 => GrishaReply::FreebieComeToMe,
            2 => GrishaReply::FreebieExists,
            3 => GrishaReply::LetsOrganizeFreebieLoversClub,
            4 => GrishaReply::NoNeedToStudyToGetDiploma,
            5 => GrishaReply::YouStudiedDidItHelp,
            6 => GrishaReply::ThirdYearStudentsDontAttendLectures,
            7 => GrishaReply::TakeExampleFromKolya,
            8 => GrishaReply::HateLevTolstoy,
            9 => GrishaReply::DontGoToPDMI,
            10 => GrishaReply::NamesOfFreebieLovers,
            11 => GrishaReply::SitHereAndChill,
            12 => GrishaReply::NoNeedToTakeLectureNotes,
            13 => GrishaReply::CantBeExpelledInFourthYear,
            _ => GrishaReply::MechanicsHaveFreebie,
        }
    }
}

/// The state after the chat with Grisha, before any hour passes: with beer,
/// the hero loses up to a point of brain (dying of it at none left) and wins
/// up to a point of charisma; without, nothing changes.
pub open spec fn chatted_with_grisha(before: GameState, after: GameState, drink_beer: bool) -> bool {
    let lost = before.player.brain - after.player.brain;
    let won = after.player.charisma - before.player.charisma;
    if drink_beer {
        &&& 0 <= lost <= 1
        &&& 0 <= won <= 1
        &&& after == (GameState {
            player: Player {
                charisma: after.player.charisma,
                ..brain_decreased(before, lost as i16, CauseOfDeath::DrankTooMuchBeer).player
            },
            ..before
        })
    } else {
        after == before
    }
}

/// The draws of beer with Grisha, from the generator state `before_rng` to
/// `after_rng` (the hero `before` and `after`): with beer, a draw below 2 of
/// brain lost, then one of charisma won; without, none.
pub open spec fn beer_drawn(before_rng: u64, before: Player, after: Player, drink_beer: bool, after_rng: u64) -> bool {
    &&& drink_beer ==> exists|mid: u64|
        #[trigger] bounded_draw(before_rng, 2, (before.brain - after.brain) as u64, mid)
            && bounded_draw(mid, 2, (after.charisma - before.charisma) as u64, after_rng)
    &&& !drink_beer ==> after_rng == before_rng
}

fn drink_with_grisha(rng: &mut Rng, state: &mut GameState, drink_beer: bool)
    requires
        old(state).in_range(),
    ensures
        chatted_with_grisha(*old(state), *final(state), drink_beer),
        beer_drawn(old(rng)@, old(state).player, final(state).player, drink_beer, final(rng)@),
{
    if drink_beer {
        let lost = rng.random(2);
        let ghost mid = rng@;
        decrease_brain(state, lost, CauseOfDeath::DrankTooMuchBeer);
        let won = rng.random(2);
        state.player.charisma = state.player.charisma + won;
        assert(bounded_draw(old(rng)@, 2, lost as u64, mid));
    }
}

/// The draws of a chat with Grisha once he made no offer, from the
/// generator state `before_rng` to `after_rng` (the hero `before` and
/// `chatted`, before any hour passes): beer unless a draw below 3 comes out
/// 0, an hour passes when a die of 3 comes up, his `reply` is picked by a
/// draw below 15, then the beer's draws (see `beer_drawn`).
pub open spec fn grisha_chat_drawn(
    before_rng: u64,
    before: Player,
    chatted: Player,
    reply: GrishaReply,
    drink_beer: bool,
    hour_pass: bool,
    after_rng: u64,
) -> bool {
    exists|b: u64, s1: u64, s2: u64, s3: u64|
        #![trigger bounded_draw(before_rng, 3, b, s1), dice_rolled(s1, s2, 3, hour_pass), beer_drawn(s3, before, chatted, drink_beer, after_rng)]
        bounded_draw(before_rng, 3, b, s1) && b < 3 && (drink_beer <==> b > 0)
            && dice_rolled(s1, s2, 3, hour_pass) && bounded_draw(
            s2,
            GRISHA_REPLY_COUNT as u64,
            reply.spec_variant_index() as u64,
            s3,
        ) && beer_drawn(s3, before, chatted, drink_beer, after_rng)
}

/// A chat with Grisha shown as `screens`, from `before` (generator state
/// `before_rng`) to `after` (generator state `after_rng`), through his
/// choice (generator state `decided`) and the hero as he `chatted`
/// (generator state `chatted_rng`): when he made no offer (see
/// `grisha_offers`), the chat's draws (see `grisha_chat_drawn`) lead to the
/// hero as he chatted; then an hour passes, or the chat ends there.
pub open spec fn grisha_chat_went(
    before_rng: u64,
    before: GameState,
    after: GameState,
    screens: Seq<GameScreen>,
    after_rng: u64,
    decided: u64,
    chatted: GameState,
    chatted_rng: u64,
) -> bool {
    match screens[0] {
        GameScreen::GrishaInteraction(
            _,
            GrishaInteraction::RandomReply { reply, drink_beer, hour_pass },
        ) => {
            &&& grisha_offers(before_rng, before.player, false, false, decided)
            &&& grisha_chat_drawn(
                decided,
                before.player,
                chatted.player,
                reply,
                drink_beer,
                hour_pass,
                chatted_rng,
            )
            &&& chatted_with_grisha(before, chatted, drink_beer)
            &&& hour_pass ==> passed_an_hour(chatted, after, None, screens.drop_first())
            &&& !hour_pass ==> after == chatted && after_rng == chatted_rng
        },
        _ => true,
    }
}

/// A chat with Grisha shown as `screens` went as `grisha_chat_went` says,
/// through some choice of his and some chat.
pub open spec fn grisha_chat_tied(
    before_rng: u64,
    before: GameState,
    after: GameState,
    screens: Seq<GameScreen>,
    after_rng: u64,
) -> bool {
    exists|decided: u64, chatted: GameState, chatted_rng: u64|
        #[trigger] grisha_chat_went(
            before_rng,
            before,
            after,
            screens,
            after_rng,
            decided,
            chatted,
            chatted_rng,
        )
}

/// After the chat with Grisha, with or without beer, an hour passes or not;
/// the screens of that hour follow the first one.
pub open spec fn grisha_chat_outcome(
    before: GameState,
    after: GameState,
    screens: Seq<GameScreen>,
    drink_beer: bool,
    hour_pass: bool,
) -> bool {
    exists|chatted: GameState|
        {
            &&& #[trigger] chatted_with_grisha(before, chatted, drink_beer)
            &&& hour_pass ==> passed_an_hour(chatted, after, None, screens.drop_first())
            &&& !hour_pass ==> after == chatted && screens.len() == 1
        }
}

/// Grisha chatted: the first screen shows his reply to the hero as he was,
/// whether they drink beer and whether an hour passes.
pub open spec fn chatted_then(before: GameState, after: GameState, screens: Seq<GameScreen>) -> bool {
    screens.len() >= 1 && (screens[0] matches GameScreen::GrishaInteraction(
        shown,
        GrishaInteraction::RandomReply { reply, drink_beer, hour_pass },
    ) && shown == before && grisha_chat_outcome(before, after, screens, drink_beer, hour_pass))
}

/// For a hero who does not have what one of Grisha's offers gives yet
/// (`has_it` false), a roll below 20 from the generator state `before`
/// (leaving `after`) that his `charisma` beats (`hit`); for one who has it,
/// no roll and no offer.
pub open spec fn charisma_beats(before: u64, has_it: bool, charisma: i16, hit: bool, after: u64) -> bool {
    if !has_it {
        exists|v: u64| #[trigger] bounded_draw(before, 20, v, after) && v < 20 && (hit <==> charisma > v)
    } else {
        !hit && after == before
    }
}

/// Grisha's two offers, from the generator state `before`: the job at
/// TERKOM (`job`), and, if not that, the proxy address (`proxy`); `after`
/// is the state once the offers are decided.
pub open spec fn grisha_offers(before: u64, player: Player, job: bool, proxy: bool, after: u64) -> bool {
    exists|mid: u64|
        #[trigger] charisma_beats(before, player.is_employed_at_terkom, player.charisma, job, mid)
            && if job {
            !proxy && after == mid
        } else {
            charisma_beats(mid, player.has_internet, player.charisma, proxy, after)
        }
}

/// Grisha's offers to the hero in `before` were decided from the generator
/// state `before_rng` (see `grisha_offers`): `job` is the job offer, and the
/// first of `screens` is the proxy address exactly when that was offered;
/// after an offer no more is drawn, so the generator ends in `after_rng`.
pub open spec fn offers_decided(
    before_rng: u64,
    before: GameState,
    screens: Seq<GameScreen>,
    job: bool,
    after_rng: u64,
) -> bool {
    exists|proxy: bool, decided: u64|
        #[trigger] grisha_offers(before_rng, before.player, job, proxy, decided) && (proxy <==> (!job
            && screens[0] == GameScreen::GrishaInteraction(before, GrishaInteraction::ProxyAddress)))
            && (job || proxy ==> after_rng == decided)
}

fn grisha_decides(rng: &mut Rng, player: &Player) -> (r: (bool, bool))
    ensures
        grisha_offers(old(rng)@, *player, r.0, r.1, final(rng)@),
{
    let mut job = false;
    if !player.is_employed_at_terkom() {
        let v = rng.random(20);
        assert(bounded_draw(old(rng)@, 20, v as u64, rng@));
        job = player.charisma > v;
    }
    let ghost s1 = rng@;
    assert(charisma_beats(old(rng)@, player.is_employed_at_terkom, player.charisma, job, s1));
    if job {
        return (true, false);
    }
    let mut proxy = false;
    if !player.has_internet() {
        let v = rng.random(20);
        assert(bounded_draw(s1, 20, v as u64, rng@));
        proxy = player.charisma > v;
    }
    assert(charisma_beats(s1, player.has_internet, player.charisma, proxy, rng@));
    (false, proxy)
}

/// The first part of a talk with Grisha in the mausoleum. To a hero not
/// employed at TERKOM whose charisma beats a roll below 20, he offers a job
/// there (`true`: the prompt is to be shown, then `answer_grisha`). Else, to
/// a hero without Internet access whose charisma beats another such roll, he
/// gives a proxy address. Else he chats: two times in three the hero drinks
/// beer with him (up to a point of brain lost, up to a point of charisma
/// won), one time in three an hour passes.
pub fn meet_grisha(rng: &mut Rng, state: &mut GameState) -> (r: (Vec<GameScreen>, bool))
    requires
        can_pass_an_hour(*old(state)),
        old(state).in_range(),
    ensures
        r.1 ==> r.0@.len() == 0 && *final(state) == *old(state)
            && !old(state).player.is_employed_at_terkom && old(state).player.charisma > 0,
        !old(state).player.is_employed_at_terkom && old(state).player.charisma >= 20 ==> r.1,
        !r.1 ==> r.0@.len() >= 1,
        old(state).player.is_employed_at_terkom && !old(state).player.has_internet
            && old(state).player.charisma >= 20 ==> !r.1 && r.0@[0] == GameScreen::GrishaInteraction(
            *old(state),
            GrishaInteraction::ProxyAddress,
        ),
        !r.1 && r.0@[0] == GameScreen::GrishaInteraction(*old(state), GrishaInteraction::ProxyAddress)
            ==> r.0@.len() == 1 && !old(state).player.has_internet && old(state).player.charisma > 0
            && *final(state) == (GameState {
            player: Player { has_internet: true, ..old(state).player },
            ..*old(state)
        }),
        !r.1 && r.0@[0] != GameScreen::GrishaInteraction(*old(state), GrishaInteraction::ProxyAddress)
            ==> chatted_then(*old(state), *final(state), r.0@),
        offers_decided(old(rng)@, *old(state), r.0@, r.1, final(rng)@),
        !r.1 ==> grisha_chat_tied(old(rng)@, *old(state), *final(state), r.0@, final(rng)@),
{
    let mut screens: Vec<GameScreen> = Vec::new();
    let (job, proxy) = grisha_decides(rng, &state.player);
    if job {
        assert(offers_decided(old(rng)@, *old(state), screens@, true, rng@));
        return (screens, true);
    }
    let ghost s2 = rng@;
    if proxy {
        screens.push(GameScreen::GrishaInteraction(*state, GrishaInteraction::ProxyAddress));
        state.player.set_has_internet();
        assert(screens@[0] == GameScreen::GrishaInteraction(*old(state), GrishaInteraction::ProxyAddress));
        assert(offers_decided(old(rng)@, *old(state), screens@, false, rng@));
        assert(grisha_chat_went(old(rng)@, *old(state), *state, screens@, rng@, s2, *state, s2));
        return (screens, false);
    }
    assert(grisha_offers(old(rng)@, old(state).player, false, false, s2));
    let b = rng.random(3);
    let ghost t1 = rng@;
    let drink_beer = b > 0;
    let hour_pass_now = rng.roll_dice(3);
    let ghost t2 = rng@;
    let index = rng.random_index(GRISHA_REPLY_COUNT);
    let ghost t3 = rng@;
    let reply = GrishaReply::variant(index);
    assert(bounded_draw(s2, 3, b as u64, t1));
    assert(dice_rolled(t1, t2, 3, hour_pass_now));
    assert(bounded_draw(t2, GRISHA_REPLY_COUNT as u64, reply.spec_variant_index() as u64, t3));
    screens.push(
        GameScreen::GrishaInteraction(
            *state,
            GrishaInteraction::RandomReply { reply, drink_beer, hour_pass: hour_pass_now },
        ),
    );
    let ghost first = screens@[0];
    drink_with_grisha(rng, state, drink_beer);
    let ghost chatted = *state;
    let ghost chatted_rng = rng@;
    assert(grisha_chat_drawn(s2, old(state).player, chatted.player, reply, drink_beer, hour_pass_now, chatted_rng));
    if hour_pass_now {
        let mut more = hour_pass(rng, state, None);
        let ghost tail = more@;
        screens.append(&mut more);
        assert(screens@.drop_first() =~= tail);
    }
    assert(screens@[0] == first);
    assert(chatted_with_grisha(*old(state), chatted, drink_beer) && (hour_pass_now
        ==> passed_an_hour(chatted, *state, None, screens@.drop_first())) && (!hour_pass_now
        ==> *state == chatted && screens@.len() == 1));
    assert(grisha_chat_outcome(*old(state), *state, screens@, drink_beer, hour_pass_now));
    assert(screens@[0] != GameScreen::GrishaInteraction(*old(state), GrishaInteraction::ProxyAddress));
    assert(offers_decided(old(rng)@, *old(state), screens@, false, rng@));
    assert(screens@[0] == GameScreen::GrishaInteraction(
        *old(state),
        GrishaInteraction::RandomReply { reply, drink_beer, hour_pass: hour_pass_now },
    ));
    assert(hour_pass_now ==> passed_an_hour(chatted, *state, None, screens@.drop_first()));
    assert(!hour_pass_now ==> *state == chatted && rng@ == chatted_rng);
    assert(grisha_chat_went(old(rng)@, *old(state), *state, screens@, rng@, s2, chatted, chatted_rng));
    assert(grisha_chat_tied(old(rng)@, *old(state), *state, screens@, rng@));
    (screens, false)
}

/// The hero's answer to Grisha's job offer: accepting it makes him employed
/// at TERKOM.
pub fn answer_grisha(state: &mut GameState, accept: bool) -> (r: GameScreen)
    ensures
        accept ==> r == GameScreen::GrishaInteraction(
            *old(state),
            GrishaInteraction::CongratulationsYouAreNowEmployed,
        ) && *final(state) == (GameState {
            player: Player { is_employed_at_terkom: true, ..old(state).player },
            ..*old(state)
        }),
        !accept ==> r == GameScreen::GrishaInteraction(
            *old(state),
            GrishaInteraction::AsYouWantButDontOverstudy,
        ) && *final(state) == *old(state),
{
    if accept {
        let screen = GameScreen::GrishaInteraction(
            *state,
            GrishaInteraction::CongratulationsYouAreNowEmployed,
        );
        state.player.set_employed_at_terkom();
        screen
    } else {
        GameScreen::GrishaInteraction(*state, GrishaInteraction::AsYouWantButDontOverstudy)
    }
}

} // verus!
