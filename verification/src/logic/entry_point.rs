//! Начало игры: выбор стиля и создание персонажа.

use crate::logic::actions::{Action, PlayStyle};
use crate::logic::game_screen::GameScreen;
use crate::logic::player::Player;
use crate::logic::subject_status::SubjectStatus;
use crate::random::{bounded_draw, Rng};
use vstd::prelude::*;

verus! {

/// The game mode selector.
#[derive(Clone, Copy, Eq, PartialEq, Debug, Structural)]
pub enum GameMode {
    /// Normal game mode, the character has average characteristics.
    /// This is the default.
    Normal,
    /// The player will be prompted to select initial character characteristics:
    /// - Random student, same as `Normal` mode.
    /// - Clever student: better brain, but worse stamina and charisma
    /// - Impudent student: better stamina, but worse brain and charisma
    /// - Sociable student: better charisma, but worse brain and stamina.
    SelectInitialParameters,
    /// Same as `SelectInitialParameters`, but another option is available —
    /// God mode. It enables maximum abilities.
    God,
}

/// What the player sees and may do now.
pub struct ObservableGameState {
    pub mode: GameMode,
    pub screen: GameScreen,
    pub available_actions: Vec<Action>,
}

impl ObservableGameState {
    /// The very first screen, with nothing to do yet.
    pub fn new(mode: GameMode) -> (r: ObservableGameState)
        ensures
            r.mode == mode,
            r.screen is Intro,
            r.available_actions@.len() == 0,
    {
        ObservableGameState { mode, screen: GameScreen::Intro, available_actions: Vec::new() }
    }

    /// Back to the very first screen, keeping the mode.
    pub fn reset(&mut self)
        ensures
            final(self).mode == old(self).mode,
            final(self).screen is Intro,
            final(self).available_actions@.len() == 0,
    {
        self.screen = GameScreen::Intro;
        self.available_actions = Vec::new();
    }

    pub fn mode(&self) -> (r: GameMode)
        ensures
            r == self.mode,
    {
        self.mode
    }

    pub fn screen(&self) -> (r: &GameScreen)
        ensures
            *r == self.screen,
    {
        &self.screen
    }

    pub fn available_actions(&self) -> (r: &[Action])
        ensures
            r@ == self.available_actions@,
    {
        self.available_actions.as_slice()
    }
}

/// The play styles offered in a mode: none in the normal mode (the hero is
/// a random student), four in the mode with a choice, and god mode too in
/// the god mode.
pub open spec fn play_styles_for(mode: GameMode) -> Seq<Action> {
    let four = seq![
        Action::SelectPlayStyle(PlayStyle::RandomStudent),
        Action::SelectPlayStyle(PlayStyle::CleverStudent),
        Action::SelectPlayStyle(PlayStyle::ImpudentStudent),
        Action::SelectPlayStyle(PlayStyle::SociableStudent),
    ];
    match mode {
        GameMode::Normal => seq![],
        GameMode::SelectInitialParameters => four,
        GameMode::God => four.push(Action::SelectPlayStyle(PlayStyle::GodMode)),
    }
}

/// Whether the player chooses a play style in this mode.
pub fn should_select_game_style(mode: GameMode) -> (r: bool)
    ensures
        r == (mode != GameMode::Normal),
{
    match mode {
        GameMode::SelectInitialParameters | GameMode::God => true,
        GameMode::Normal => false,
    }
}

/// The play styles offered in `mode` (see `play_styles_for`).
pub fn play_style_actions(mode: GameMode) -> (r: Vec<Action>)
    ensures
        r@ == play_styles_for(mode),
{
    let mut r: Vec<Action> = Vec::new();
    if mode == GameMode::Normal {
        return r;
    }
    r.push(Action::SelectPlayStyle(PlayStyle::RandomStudent));
    r.push(Action::SelectPlayStyle(PlayStyle::CleverStudent));
    r.push(Action::SelectPlayStyle(PlayStyle::ImpudentStudent));
    r.push(Action::SelectPlayStyle(PlayStyle::SociableStudent));
    if mode == GameMode::God {
        r.push(Action::SelectPlayStyle(PlayStyle::GodMode));
    }
    assert(r@ =~= play_styles_for(mode));
    r
}

/// The ranges of brain, stamina and charisma (each `lo..hi`) of a hero of
/// the given play style; the god has 30 of each.
pub open spec fn characteristics_range(style: PlayStyle) -> ((int, int), (int, int), (int, int)) {
    match style {
        PlayStyle::RandomStudent => ((4, 7), (4, 7), (4, 7)),
        PlayStyle::CleverStudent => ((5, 10), (2, 5), (2, 5)),
        PlayStyle::ImpudentStudent => ((2, 5), (5, 10), (2, 5)),
        PlayStyle::SociableStudent => ((2, 5), (2, 5), (5, 10)),
        PlayStyle::GodMode => ((30, 31), (30, 31), (30, 31)),
    }
}

/// Each kind of student has his strength: the clever one a brain of 5 to 9,
/// the impudent one a stamina of 5 to 9, the sociable one a charisma of 5
/// to 9, each with 2 to 4 of the other two; a random student has 4 to 6 of
/// each, and the god 30 of each.
pub proof fn lemma_play_style_strengths(style: PlayStyle)
    ensures
        ({
            let (b, s, c) = characteristics_range(style);
            &&& style == PlayStyle::RandomStudent ==> b == (4int, 7int) && s == (4int, 7int) && c == (4int, 7int)
            &&& style == PlayStyle::CleverStudent ==> b == (5int, 10int) && s == (2int, 5int) && c == (2int, 5int)
            &&& style == PlayStyle::ImpudentStudent ==> b == (2int, 5int) && s == (5int, 10int) && c == (2int, 5int)
            &&& style == PlayStyle::SociableStudent ==> b == (2int, 5int) && s == (2int, 5int) && c == (5int, 10int)
            &&& style == PlayStyle::GodMode ==> b == (30int, 31int) && s == (30int, 31int) && c == (30int, 31int)
        }),
{
}

/// The knowledge of the first `n` subjects, `knowledge`, each drawn below
/// `brain` in turn, from the generator state `before` to `after`.
pub open spec fn knowledge_drawn(before: u64, brain: int, knowledge: Seq<i16>, n: int, after: u64) -> bool
    decreases n,
{
    if n <= 0 {
        after == before
    } else {
        exists|mid: u64|
            knowledge_drawn(before, brain, knowledge, n - 1, mid) && #[trigger] bounded_draw(
                mid,
                brain as u64,
                knowledge[n - 1] as u64,
                after,
            )
    }
}

proof fn lemma_knowledge_drawn_prefix(
    before: u64,
    brain: int,
    knowledge: Seq<i16>,
    other: Seq<i16>,
    n: int,
    after: u64,
)
    requires
        knowledge_drawn(before, brain, knowledge, n, after),
        forall|j: int| 0 <= j < n ==> knowledge[j] == other[j],
    ensures
        knowledge_drawn(before, brain, other, n, after),
    decreases n,
{
    if n > 0 {
        let mid = choose|mid: u64|
            knowledge_drawn(before, brain, knowledge, n - 1, mid) && #[trigger] bounded_draw(
                mid,
                brain as u64,
                knowledge[n - 1] as u64,
                after,
            );
        lemma_knowledge_drawn_prefix(before, brain, knowledge, other, n - 1, mid);
        assert(knowledge[n - 1] == other[n - 1]);
    }
}

/// The brain, stamina and charisma of a new hero of the given play style,
/// each drawn in the style's range in that order, from the generator state
/// `before` to `after`; the god draws nothing.
pub open spec fn traits_drawn(before: u64, style: PlayStyle, brain: int, stamina: int, charisma: int, after: u64) -> bool {
    let (b, s, c) = characteristics_range(style);
    if style == PlayStyle::GodMode {
        after == before
    } else {
        traits_drawn_in(before, b.0, b.1, s.0, s.1, c.0, c.1, brain, stamina, charisma, after)
    }
}

/// Brain, stamina and charisma drawn in the ranges `b0..b1`, `s0..s1` and
/// `c0..c1`, in that order, from the generator state `before` to `after`.
pub open spec fn traits_drawn_in(
    before: u64,
    b0: int,
    b1: int,
    s0: int,
    s1: int,
    c0: int,
    c1: int,
    brain: int,
    stamina: int,
    charisma: int,
    after: u64,
) -> bool {
    exists|m1: u64, m2: u64|
        #[trigger] bounded_draw(before, (b1 - b0) as u64, (brain - b0) as u64, m1)
            && #[trigger] bounded_draw(m1, (s1 - s0) as u64, (stamina - s0) as u64, m2)
            && bounded_draw(m2, (c1 - c0) as u64, (charisma - c0) as u64, after)
}

/// The draws of a new hero `p` of the given play style, from the generator
/// state `before` to `after`: his traits (see `traits_drawn`), then his
/// health above 40, below twice his stamina, then the knowledge of each
/// subject in turn, below his brain.
pub open spec fn player_drawn(before: u64, style: PlayStyle, p: Player, after: u64) -> bool {
    exists|s3: u64, s4: u64|
        #![trigger traits_drawn(before, style, p.brain as int, p.stamina as int, p.charisma as int, s3), bounded_draw(s3, (2 * p.stamina) as u64, (p.health - 40) as u64, s4)]
        traits_drawn(before, style, p.brain as int, p.stamina as int, p.charisma as int, s3)
            && bounded_draw(s3, (2 * p.stamina) as u64, (p.health - 40) as u64, s4)
            && knowledge_drawn(
            s4,
            p.brain as int,
            p.subjects@.map_values(|st: SubjectStatus| st.knowledge),
            6,
            after,
        )
}

/// A new hero of the given play style: brain, stamina and charisma rolled
/// in the style's ranges, 40 health plus a roll below twice the stamina,
/// and for each subject a knowledge rolled below the brain.
pub fn initialize_player(rng: &mut Rng, style: PlayStyle) -> (r: Player)
    ensures
        r.wf(),
        r.god_mode == (style == PlayStyle::GodMode),
        ({
            let (b, s, c) = characteristics_range(style);
            &&& b.0 <= r.brain < b.1
            &&& s.0 <= r.stamina < s.1
            &&& c.0 <= r.charisma < c.1
        }),
        style == PlayStyle::RandomStudent ==> 4 <= r.brain < 7 && 4 <= r.stamina < 7 && 4
            <= r.charisma < 7,
        style == PlayStyle::CleverStudent ==> 5 <= r.brain < 10 && 2 <= r.stamina < 5 && 2
            <= r.charisma < 5,
        style == PlayStyle::ImpudentStudent ==> 2 <= r.brain < 5 && 5 <= r.stamina < 10 && 2
            <= r.charisma < 5,
        style == PlayStyle::SociableStudent ==> 2 <= r.brain < 5 && 2 <= r.stamina < 5 && 5
            <= r.charisma < 10,
        style == PlayStyle::GodMode ==> r.brain == 30 && r.stamina == 30 && r.charisma == 30,
        40 <= r.health < 40 + 2 * r.stamina,
        forall|i: int| 0 <= i < 6 ==> 0 <= (#[trigger] r.subjects[i]).knowledge < r.brain,
        forall|i: int|
            0 <= i < 6 ==> (#[trigger] r.subjects[i]).problems_done == 0
                && r.subjects[i].passed_exam_day_index is None && !r.subjects[i].has_lecture_notes,
        r.money.0 == 0,
        r.cause_of_death is None,
        player_drawn(old(rng)@, style, r, final(rng)@),
{
    let (god_mode, brain, stamina, charisma) = match style {
        PlayStyle::RandomStudent => {
            let t = draw_traits(rng, 4, 7, 4, 7, 4, 7);
            assert(traits_drawn(old(rng)@, style, t.1 as int, t.2 as int, t.3 as int, rng@));
            t
        },
        PlayStyle::CleverStudent => {
            let t = draw_traits(rng, 5, 10, 2, 5, 2, 5);
            assert(traits_drawn(old(rng)@, style, t.1 as int, t.2 as int, t.3 as int, rng@));
            t
        },
        PlayStyle::ImpudentStudent => {
            let t = draw_traits(rng, 2, 5, 5, 10, 2, 5);
            assert(traits_drawn(old(rng)@, style, t.1 as int, t.2 as int, t.3 as int, rng@));
            t
        },
        PlayStyle::SociableStudent => {
            let t = draw_traits(rng, 2, 5, 2, 5, 5, 10);
            assert(traits_drawn(old(rng)@, style, t.1 as int, t.2 as int, t.3 as int, rng@));
            t
        },
        PlayStyle::GodMode => (true, 30i16, 30i16, 30i16),
    };
    let ghost s3 = rng@;
    assert(traits_drawn(old(rng)@, style, brain as int, stamina as int, charisma as int, s3));
    let health_roll = rng.random(stamina * 2);
    let health = health_roll + 40;
    let ghost s4 = rng@;
    assert(bounded_draw(s3, (2 * stamina) as u64, (health - 40) as u64, s4));
    let mut knowledge: [i16; 6] = [0, 0, 0, 0, 0, 0];
    let mut i: usize = 0;
    while i < 6
        invariant
            i <= 6,
            2 <= brain <= 30,
            forall|j: int| 0 <= j < 6 ==> 0 <= #[trigger] knowledge[j] < brain,
            knowledge_drawn(s4, brain as int, knowledge@, i as int, rng@),
        decreases 6 - i,
    {
        let ghost prior = knowledge@;
        let ghost mid = rng@;
        knowledge[i] = rng.random(brain);
        proof {
            lemma_knowledge_drawn_prefix(s4, brain as int, prior, knowledge@, i as int, mid);
            assert(bounded_draw(mid, (brain as int) as u64, knowledge@[i as int] as u64, rng@));
            assert(knowledge@[i as int] == knowledge@[(i + 1) - 1]);
            assert(knowledge_drawn(s4, brain as int, knowledge@, (i + 1) - 1, mid));
            assert(knowledge_drawn(s4, brain as int, knowledge@, i + 1, rng@));
        }
        i = i + 1;
    }
    let r = Player::new(god_mode, health, brain, stamina, charisma, knowledge);
    proof {
        assert(r.subjects@.map_values(|st: SubjectStatus| st.knowledge) =~= knowledge@);
        assert(player_drawn(old(rng)@, style, r, rng@));
    }
    r
}

/// Draws a hero's brain, stamina and charisma in the given ranges, in that
/// order.
fn draw_traits(rng: &mut Rng, b0: i16, b1: i16, s0: i16, s1: i16, c0: i16, c1: i16) -> (r: (
    bool,
    i16,
    i16,
    i16,
))
    requires
        0 <= b0 < b1 <= 10,
        0 <= s0 < s1 <= 10,
        0 <= c0 < c1 <= 10,
    ensures
        !r.0,
        b0 <= r.1 < b1,
        s0 <= r.2 < s1,
        c0 <= r.3 < c1,
        traits_drawn_in(
            old(rng)@,
            b0 as int,
            b1 as int,
            s0 as int,
            s1 as int,
            c0 as int,
            c1 as int,
            r.1 as int,
            r.2 as int,
            r.3 as int,
            final(rng)@,
        ),
{
    let brain = rng.random_in_range(b0, b1);
    let ghost m1 = rng@;
    let stamina = rng.random_in_range(s0, s1);
    let ghost m2 = rng@;
    let charisma = rng.random_in_range(c0, c1);
    assert(bounded_draw(old(rng)@, (b1 - b0) as u64, (brain - b0) as u64, m1));
    assert(bounded_draw(m1, (s1 - s0) as u64, (stamina - s0) as u64, m2));
    assert(bounded_draw(m2, (c1 - c0) as u64, (charisma - c0) as u64, rng@));
    assert(traits_drawn_in(
        old(rng)@,
        b0 as int,
        b1 as int,
        s0 as int,
        s1 as int,
        c0 as int,
        c1 as int,
        brain as int,
        stamina as int,
        charisma as int,
        rng@,
    ));
    (false, brain, stamina, charisma)
}

} // verus!
