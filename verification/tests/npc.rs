use mmheroes_core::logic::cause_of_death::CauseOfDeath;
use mmheroes_core::logic::characteristics::Money;
use mmheroes_core::logic::game_screen::GameScreen;
use mmheroes_core::logic::game_state::{GameState, Location};
use mmheroes_core::logic::npc::djug::interact_with_djug;
use mmheroes_core::logic::npc::grisha::{answer_grisha, meet_grisha, GrishaInteraction};
use mmheroes_core::logic::npc::nil::{answer_nil, NilInteraction};
use mmheroes_core::logic::npc::serj::{interact_with_serj, SerjInteraction};
use mmheroes_core::logic::npc::ClassmateLocation;
use mmheroes_core::logic::npc::kolya::{answer_oat_tincture, meet_kolya, KolyaInteraction};
use mmheroes_core::logic::npc::pasha::{interact_with_pasha, PashaInteraction};
use mmheroes_core::logic::npc::rai::rai_asks_for_help;
use mmheroes_core::logic::npc::andrew::floor_sqrt;
use mmheroes_core::logic::player::Player;
use mmheroes_core::logic::subjects::Subject;
use mmheroes_core::logic::timetable::{Time, Timetable};
use mmheroes_core::random::Rng;

fn state_in(location: Location) -> GameState {
    let mut rng = Rng::new(21);
    let player = Player::new(false, 40, 5, 5, 5, [0, 1, 2, 3, 4, 6]);
    let mut state = GameState::new(player, Timetable::random(&mut rng), location);
    state.set_current_time(Time(12));
    state
}

#[test]
fn pasha_pays_the_stipend_once() {
    let mut rng = Rng::new(1);
    let mut state = state_in(Location::PUNK);
    let screens = interact_with_pasha(&mut rng, &mut state);
    assert!(matches!(screens[0], GameScreen::PashaInteraction(_, PashaInteraction::Stipend)));
    assert_eq!(state.player.money, Money(50));
    assert!(state.player.got_stipend());
    let screens = interact_with_pasha(&mut rng, &mut state);
    assert!(matches!(screens[0], GameScreen::PashaInteraction(_, PashaInteraction::Inspiration)));
    assert_eq!(state.player.money, Money(50));
    assert_eq!(state.player.stamina, 6);
}

#[test]
fn kolya_without_money_means_brake_fluid() {
    let mut rng = Rng::new(1);
    let mut state = state_in(Location::Mausoleum);
    state.player.charisma = 0;
    let (screens, prompt) = meet_kolya(&mut rng, &mut state);
    assert!(!prompt);
    assert!(matches!(
        screens[0],
        GameScreen::KolyaInteraction(_, KolyaInteraction::BrakeFluidNoMoney)
    ));
    assert_eq!(state.player.brain, 4);
}

#[test]
fn refusing_oat_tincture() {
    let mut rng = Rng::new(1);
    let mut state = state_in(Location::Mausoleum);
    state.player.money = Money(20);
    let screens = answer_oat_tincture(&mut rng, &mut state, false);
    assert_eq!(screens.len(), 1);
    assert_eq!(state.player.brain, 4);
    assert_eq!(state.player.money, Money(20));
}

#[test]
fn ordering_oat_tincture_costs_fifteen() {
    let mut rng = Rng::new(1);
    let mut state = state_in(Location::Mausoleum);
    state.player.money = Money(20);
    answer_oat_tincture(&mut rng, &mut state, true);
    assert_eq!(state.player.money, Money(5));
}

#[test]
fn djug_hurts() {
    let mut rng = Rng::new(1);
    let mut state = state_in(Location::PDMI);
    state.player.health = 15;
    let screen = interact_with_djug(&mut rng, &mut state);
    assert!(matches!(screen, GameScreen::DjugInteraction(_)));
    assert_eq!(state.player.health, 0);
    assert_eq!(state.player.cause_of_death, Some(CauseOfDeath::DontTalkToDjug));
    let knowledge = state.player.status_for_subject(Subject::GeometryAndTopology).knowledge();
    assert_eq!(knowledge, 2);
}

#[test]
fn grisha_hires() {
    let mut state = state_in(Location::Mausoleum);
    answer_grisha(&mut state, true);
    assert!(state.player.is_employed_at_terkom());
    let mut other = state_in(Location::Mausoleum);
    answer_grisha(&mut other, false);
    assert!(!other.player.is_employed_at_terkom());
}

#[test]
fn rai_asks_only_at_math_exams() {
    assert!(rai_asks_for_help(Some(Subject::Calculus)));
    assert!(!rai_asks_for_help(Some(Subject::English)));
    assert!(!rai_asks_for_help(None));
}

#[test]
fn square_roots_are_rounded_down() {
    assert_eq!(floor_sqrt(0), 0);
    assert_eq!(floor_sqrt(3), 1);
    assert_eq!(floor_sqrt(4), 2);
    assert_eq!(floor_sqrt(8), 2);
    assert_eq!(floor_sqrt(9), 3);
    assert_eq!(floor_sqrt(32767), 181);
}

#[test]
fn nil_pays_as_much_as_the_hero_knows() {
    let mut rng = Rng::new(3);
    let mut state = state_in(Location::PUNK);
    state.player.money = Money(7);
    state.player.subjects[0].knowledge = 30;
    let screens = answer_nil(&mut rng, &mut state, Subject::AlgebraAndNumberTheory, true);
    assert!(matches!(
        screens[0],
        GameScreen::NilInteraction(NilInteraction::ThanksHereIsYourMoney(Money(30)))
    ));
    assert_eq!(state.player.money, Money(37));
    let knowledge = state.player.subjects[0].knowledge;
    assert!(30 - 3 - 16 <= knowledge && knowledge <= 30 - 3);
}

#[test]
fn nil_without_knowledge_does_not_pay() {
    let mut rng = Rng::new(3);
    let mut state = state_in(Location::PUNK);
    state.player.money = Money(7);
    state.player.subjects[0].knowledge = 10;
    let screens = answer_nil(&mut rng, &mut state, Subject::AlgebraAndNumberTheory, true);
    assert!(matches!(screens[0], GameScreen::NilInteraction(NilInteraction::DidntWorkOut)));
    assert_eq!(state.player.money, Money(7));
    assert_eq!(state.player.subjects[0].knowledge, 10);
}

#[test]
fn serj_effects_follow_his_words() {
    for seed in 0..200u64 {
        let mut rng = Rng::new(seed);
        let mut state = state_in(Location::PUNK);
        state.player.charisma = 12;
        state.player.health = 10;
        state.player.subjects[5].knowledge = 2;
        state.classmates.0[5].current_location = ClassmateLocation::Location(Location::PUNK);
        let before = state;
        match interact_with_serj(&mut rng, &mut state, None) {
            Some(GameScreen::SerjInteraction(_, SerjInteraction::HaveSomeKefir, _)) => {
                assert!(state.player.health >= before.player.health + 12);
                assert!(state.player.health < before.player.health + 24);
                for i in 0..6 {
                    assert_eq!(state.player.subjects[i].knowledge, before.player.subjects[i].knowledge);
                }
            }
            Some(GameScreen::SerjInteraction(_, SerjInteraction::IKnowWhereToCutInThePark, _)) => {
                assert_eq!(state.player.subjects[5].knowledge, 32);
                assert_eq!(state.player.health, before.player.health);
            }
            Some(GameScreen::SerjInteraction(_, SerjInteraction::RandomReply(_), _)) => {
                assert_eq!(state.player.health, before.player.health);
                assert_eq!(state.player.subjects[5].knowledge, 2);
                assert_eq!(state.player.money, before.player.money);
            }
            _ => panic!("Serj always says something to a hero who knows little sport"),
        }
    }
}

#[test]
fn grisha_chat_costs_at_most_a_point_of_brain() {
    for seed in 0..100u64 {
        let mut rng = Rng::new(seed);
        let mut state = state_in(Location::Mausoleum);
        state.player.charisma = -5;
        let before = state;
        let (screens, prompt) = meet_grisha(&mut rng, &mut state);
        assert!(!prompt);
        match screens[0] {
            GameScreen::GrishaInteraction(_, GrishaInteraction::RandomReply { drink_beer, hour_pass, .. }) => {
                assert!(before.player.brain - 1 <= state.player.brain);
                assert!(state.player.brain <= before.player.brain);
                if !drink_beer && !hour_pass {
                    assert_eq!(state.player.brain, before.player.brain);
                    assert_eq!(state.player.charisma, before.player.charisma);
                    assert_eq!(state.current_time(), before.current_time());
                }
            }
            _ => panic!("a hero without charisma only chats with Grisha"),
        }
    }
}

#[test]
fn kolya_helps_a_charming_hero_for_free() {
    for seed in 0..50u64 {
        let mut rng = Rng::new(seed);
        let mut state = state_in(Location::Mausoleum);
        state.player.charisma = 10;
        state.player.money = Money(100);
        let (screens, prompt) = meet_kolya(&mut rng, &mut state);
        assert!(!prompt);
        assert!(matches!(
            screens[0],
            GameScreen::KolyaInteraction(_, KolyaInteraction::SolvedAlgebraProblemsForFree)
        ));
        assert_eq!(state.player.subjects[0].problems_done(), 2);
    }
}
