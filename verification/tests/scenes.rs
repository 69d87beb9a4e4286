use mmheroes_core::logic::actions::{Action, HelpAction, PlayStyle};
use mmheroes_core::logic::cause_of_death::CauseOfDeath;
use mmheroes_core::logic::characteristics::Money;
use mmheroes_core::logic::entry_point::{
    initialize_player, play_style_actions, should_select_game_style, GameMode,
};
use mmheroes_core::logic::game_screen::GameScreen;
use mmheroes_core::logic::game_state::{GameState, Location};
use mmheroes_core::logic::misc::{decrease_health, hour_pass};
use mmheroes_core::logic::player::Player;
use mmheroes_core::logic::scene_router::cafe::{cafe_actions, punk_cafe_menu, visit_cafe};
use mmheroes_core::logic::scene_router::dorm::{go_to_bed, help_screen, subjects_to_study};
use mmheroes_core::logic::scene_router::terkom::{earned_money, hiccup, terkom_actions};
use mmheroes_core::logic::scene_router::train::{ride_train, ticket_prompt_needed, TrainScene};
use mmheroes_core::logic::scene_router::{route, walk};
use mmheroes_core::logic::sleep::sleep;
use mmheroes_core::logic::timetable::{Time, Timetable};
use mmheroes_core::random::Rng;

fn state_at(location: Location, time: u8) -> GameState {
    let mut rng = Rng::new(11);
    let player = Player::new(false, 40, 5, 5, 5, [0, 1, 2, 3, 4, 0]);
    let mut state = GameState::new(player, Timetable::random(&mut rng), location);
    state.set_current_time(Time(time));
    state
}

#[test]
fn hiccup_grows_towards_the_evening() {
    let expected = [(9, 5), (10, 4), (13, 4), (14, 3), (16, 2), (17, 2), (18, 1), (22, 1)];
    for (hour, h) in expected {
        assert_eq!(hiccup(&state_at(Location::PUNK, hour)), h);
    }
}

#[test]
fn terkom_pays_one_to_four() {
    let mut rng = Rng::new(5);
    let mut player = Player::new(false, 40, 50, 5, 50, [0; 6]);
    for _ in 0..200 {
        let income = earned_money(&mut rng, &player);
        assert!(1 <= income.0 && income.0 <= 4);
    }
    player.brain = 0;
    player.charisma = 1;
    assert_eq!(earned_money(&mut rng, &player), Money(1));
}

#[test]
fn terkom_offers_what_the_hero_has() {
    let mut state = state_at(Location::PUNK, 10);
    assert_eq!(terkom_actions(&state), vec![Action::EarnAtTerkom, Action::ExitTerkom]);
    state.player.set_has_internet();
    assert_eq!(
        terkom_actions(&state),
        vec![Action::EarnAtTerkom, Action::SurfInternetAtTerkom, Action::ExitTerkom]
    );
}

#[test]
fn buying_a_round_trip_ticket() {
    let mut rng = Rng::new(2);
    let mut state = state_at(Location::PDMI, 10);
    state.player.money = Money(12);
    assert!(ticket_prompt_needed(&state, false));
    let (caught, scene) = ride_train(&mut rng, &mut state, 3, false, true);
    assert!(!caught);
    assert!(matches!(scene, Some((_, TrainScene::BoughtRoundTripTicket))));
    assert_eq!(state.player.money, Money(2));
    assert!(state.player.has_roundtrip_train_ticket());
    assert_eq!(state.player.health, 37);
    assert!(!ticket_prompt_needed(&state, true));
}

#[test]
fn riding_without_money() {
    let mut rng = Rng::new(2);
    let mut state = state_at(Location::PDMI, 10);
    state.player.charisma = -1;
    assert!(!ticket_prompt_needed(&state, false));
    let (caught, scene) = ride_train(&mut rng, &mut state, 0, false, true);
    assert!(caught);
    assert!(matches!(
        scene,
        Some((_, TrainScene::GatecrashBecauseNoMoney { caught_by_inspectors: true }))
    ));
    assert_eq!(state.player.health, 30);
}

#[test]
fn walking_costs() {
    let mut state = state_at(Location::PUNK, 10);
    walk(&mut state, Action::GoToMausoleum);
    assert_eq!(state.location(), Location::Mausoleum);
    assert_eq!(state.player.health, 37);
    walk(&mut state, Action::GoFromMausoleumToDorm);
    assert_eq!(state.location(), Location::Dorm);
    assert_eq!(state.player.health, 37);
    assert!(route(Location::Dorm, Action::GoToComputerClass).is_none());
}

#[test]
fn dying_on_the_way() {
    let mut state = state_at(Location::Dorm, 10);
    state.player.health = 2;
    walk(&mut state, Action::GoFromDormToPunk);
    assert_eq!(state.player.cause_of_death, Some(CauseOfDeath::OnTheWayToPUNK));
}

#[test]
fn cafe_offers_what_the_hero_can_pay_for() {
    let mut state = state_at(Location::PUNK, 12);
    let menu = punk_cafe_menu();
    assert_eq!(
        cafe_actions(&state, &menu),
        vec![Action::RestInCafePUNK, Action::ShouldntHaveComeToCafePUNK]
    );
    state.player.money = Money(4);
    assert_eq!(
        cafe_actions(&state, &menu),
        vec![
            Action::OrderTea,
            Action::OrderCake,
            Action::RestInCafePUNK,
            Action::ShouldntHaveComeToCafePUNK
        ]
    );
}

#[test]
fn cafe_order_is_paid_and_takes_an_hour() {
    let mut rng = Rng::new(9);
    let mut state = state_at(Location::PUNK, 12);
    state.player.money = Money(10);
    let menu = punk_cafe_menu();
    let screens = visit_cafe(&mut rng, &mut state, &menu, Action::OrderTeaWithCake);
    assert!(screens.is_empty());
    assert_eq!(state.player.money, Money(4));
    assert!(state.player.health >= 47);
    assert_eq!(state.current_time(), Time(13));
    let before = state;
    visit_cafe(&mut rng, &mut state, &menu, Action::ShouldntHaveComeToCafePUNK);
    assert_eq!(state.current_time(), before.current_time());
    assert_eq!(state.player.money, before.player.money);
}

#[test]
fn study_menu_lists_every_subject() {
    let state = state_at(Location::Dorm, 10);
    let actions = subjects_to_study(&state);
    assert_eq!(actions.len(), 7);
    assert_eq!(actions[6], Action::DontStudy);
}

#[test]
fn not_sleepy_in_the_afternoon() {
    let state = state_at(Location::Dorm, 15);
    assert!(matches!(go_to_bed(&state), GameScreen::DontWantToSleep));
    assert!(help_screen(&state, HelpAction::ThanksButNothing).is_none());
    assert!(matches!(
        help_screen(&state, HelpAction::AboutProfessors),
        Some(GameScreen::AboutProfessors(_))
    ));
}

#[test]
fn an_hour_passes() {
    let mut rng = Rng::new(4);
    let mut state = state_at(Location::PUNK, 10);
    let screens = hour_pass(&mut rng, &mut state, None);
    assert!(screens.is_empty());
    assert_eq!(state.current_time(), Time(11));
    assert!(state.terkom_has_places());
}

#[test]
fn midnight_sends_the_hero_home() {
    let mut rng = Rng::new(4);
    let mut state = state_at(Location::PDMI, 23);
    let screens = hour_pass(&mut rng, &mut state, None);
    assert_eq!(screens.len(), 1);
    assert!(matches!(screens[0], GameScreen::Midnight(_)));
    assert_eq!(state.location(), Location::Dorm);
    assert_eq!(state.current_time(), Time(0));
    assert_eq!(state.current_day_index(), 1);
    assert_eq!(state.player.health, 36);
}

#[test]
fn waking_up_not_before_five() {
    let mut rng = Rng::new(8);
    let mut state = state_at(Location::Dorm, 22);
    sleep(&mut rng, &mut state);
    assert!(state.current_time().0 >= 5);
    assert!(state.player.health <= 50);
    assert!(state.sasha_has_lecture_notes(mmheroes_core::logic::subjects::Subject::Calculus));
}

#[test]
fn sleeping_after_the_last_day_is_fatal() {
    let mut rng = Rng::new(8);
    let mut state = state_at(Location::Dorm, 22);
    for _ in 0..6 {
        state.next_day();
    }
    let dreams = sleep(&mut rng, &mut state);
    assert!(dreams.is_empty());
    assert_eq!(state.player.cause_of_death, Some(CauseOfDeath::TimeOut));
}

#[test]
fn losing_all_health_kills() {
    let mut state = state_at(Location::PUNK, 10);
    decrease_health(&mut state, 39, CauseOfDeath::Overstudied);
    assert_eq!(state.player.cause_of_death, None);
    decrease_health(&mut state, 1, CauseOfDeath::Overstudied);
    assert_eq!(state.player.cause_of_death, Some(CauseOfDeath::Overstudied));
}

#[test]
fn play_styles_by_mode() {
    assert!(!should_select_game_style(GameMode::Normal));
    assert!(play_style_actions(GameMode::Normal).is_empty());
    assert_eq!(play_style_actions(GameMode::SelectInitialParameters).len(), 4);
    let god = play_style_actions(GameMode::God);
    assert_eq!(god.len(), 5);
    assert_eq!(god[4], Action::SelectPlayStyle(PlayStyle::GodMode));
}

#[test]
fn new_heroes_by_style() {
    let mut rng = Rng::new(13);
    let god = initialize_player(&mut rng, PlayStyle::GodMode);
    assert!(god.is_god_mode());
    assert_eq!((god.brain, god.stamina, god.charisma), (30, 30, 30));
    assert!(40 <= god.health && god.health < 100);
    for _ in 0..50 {
        let clever = initialize_player(&mut rng, PlayStyle::CleverStudent);
        assert!(5 <= clever.brain && clever.brain < 10);
        assert!(2 <= clever.stamina && clever.stamina < 5);
        assert!(2 <= clever.charisma && clever.charisma < 5);
        for subject in clever.subjects.iter() {
            assert!(0 <= subject.knowledge && subject.knowledge < clever.brain);
        }
    }
}

#[test]
fn charming_heroes_are_never_caught() {
    for seed in 0..100u64 {
        let mut rng = Rng::new(seed);
        let mut state = state_at(Location::PUNK, 12);
        state.player.charisma = 9;
        state.player.money = Money(0);
        let (caught, _) = ride_train(&mut rng, &mut state, 3, false, false);
        assert!(!caught);
    }
}

#[test]
fn sleep_restores_health_and_takes_seven_hours_or_more() {
    for seed in 0..100u64 {
        let mut rng = Rng::new(seed);
        let mut state = state_at(Location::Dorm, 22);
        state.player.health = 20;
        state.player.stamina = 5;
        state.player.brain = 5;
        let dreams = sleep(&mut rng, &mut state);
        if dreams.len() < 2 {
            assert!(state.player.health >= 35 && state.player.health <= 50);
        }
        assert_eq!(state.current_day_index(), 1);
        assert!(state.current_time().0 >= 5);
    }
}

#[test]
fn money_arithmetic_and_conversions() {
    assert_eq!(Money(20).plus(Money(5)), Money(25));
    assert_eq!(Money(20).minus(Money(25)), Money(-5));
    assert_eq!(Money::from_u64(300), Some(Money(300)));
    assert_eq!(Money::from_u64(40000), None);
    assert_eq!(Money(7).to_u64(), Some(7));
    assert_eq!(Money(-1).to_u64(), None);
}

#[test]
fn terkom_pays_at_most_brain_and_charisma_less_one() {
    let mut rng = Rng::new(9);
    let mut player = Player::new(false, 40, 1, 5, 1, [0; 6]);
    for _ in 0..100 {
        assert_eq!(earned_money(&mut rng, &player), Money(1));
    }
    player.brain = 2;
    player.charisma = 1;
    for _ in 0..100 {
        assert!(earned_money(&mut rng, &player).0 <= 2);
    }
}
