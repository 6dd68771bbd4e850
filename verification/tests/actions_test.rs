use scrapyard_planet::data::settings::Settings;
use scrapyard_planet::economy::upgrades::UpgradeTemplate;
use scrapyard_planet::ship::interior::{Room, RoomType, ShipInterior};
use scrapyard_planet::ship::layout::Layout;
use scrapyard_planet::ship::ship::{Module, ModuleState, ModuleType};
use scrapyard_planet::simulation::events::{EventBus, GameEvent, UIEvent};
use scrapyard_planet::simulation::gameplay::ModuleRegistry;
use scrapyard_planet::state::game_state::GameState;
use scrapyard_planet::state::profile::PlayerProfile;
use scrapyard_planet::state::tutorial::{
    TutorialConfig, TutorialState, TutorialStep, TutorialStepConfig,
};

fn room(id: usize, kind: RoomType, points: usize) -> Room {
    let mut room = Room::new(id, kind, 0, 0, 100_000, 100_000);
    let mut i = 0;
    while i < points {
        room = room.with_repair_point(0, 0);
        i += 1;
    }
    room
}

fn template(id: &str, base_cost: i32, max_level: u32) -> UpgradeTemplate {
    UpgradeTemplate {
        id: id.to_string(),
        name: id.to_string(),
        description: String::new(),
        base_cost,
        cost_multiplier: 1500,
        max_level,
        category: String::new(),
    }
}

fn state() -> GameState {
    let mut interior = ShipInterior::new(1_000_000, 600_000);
    interior.rooms.push(room(12, RoomType::Module(ModuleType::Core), 2).with_module(10, 7));
    interior.rooms.push(room(5, RoomType::Module(ModuleType::Defense), 2).with_module(10, 8));
    interior.rooms.push(room(20, RoomType::Module(ModuleType::Engine), 2).with_module(10, 10));
    interior.rooms.push(room(30, RoomType::Corridor, 1));
    let mut s = GameState::new(
        interior,
        ModuleRegistry::standard(),
        Layout::new(1_280_000, 720_000),
        TutorialConfig { steps: Vec::new() },
        vec![template("hull_reinforcement", 100, 2), template("credit_bonus", 200, 3), template("credit_bonus", 1, 9)],
        Settings::new(),
    );
    s.scrap_piles.clear();
    s
}

fn steps(n: usize) -> TutorialConfig {
    let mut steps = Vec::new();
    let mut i = 0;
    while i < n {
        steps.push(TutorialStepConfig {
            id: format!("step{}", i),
            message: format!("message {}", i),
            target_room: if i == 0 { None } else { Some(10 + i) },
            show_highlight: i % 2 == 1,
        });
        i += 1;
    }
    TutorialConfig { steps }
}

#[test]
fn a_destroyed_module_is_repaired_for_its_base_cost() {
    let mut s = state();
    let mut events = EventBus::new();
    assert!(s.attempt_repair(10, 8, &mut events));
    assert_eq!(s.ship.grid[10][8].unwrap().state, ModuleState::Active);
    assert_eq!(s.resources.scrap, 20);
    assert_eq!(events.game, vec![GameEvent::ModuleRepaired { x: 10, y: 8, cost: 30 }]);
    assert!(!s.attempt_repair(10, 8, &mut events));
    assert_eq!(s.resources.scrap, 20);
    assert_eq!(events.game.len(), 1);
}

#[test]
fn a_repair_that_is_not_covered_does_nothing() {
    let mut s = state();
    let mut events = EventBus::new();
    assert!(!s.attempt_repair(10, 10, &mut events));
    assert_eq!(s.ship.grid[10][10].unwrap().state, ModuleState::Destroyed);
    assert_eq!(s.resources.scrap, 50);
    assert!(events.game.is_empty());
    s.resources.scrap = 500;
    assert!(s.attempt_repair(10, 10, &mut events));
    assert_eq!(s.resources.scrap, 0);
}

#[test]
fn nothing_is_repaired_where_nothing_is_destroyed() {
    let mut s = state();
    let mut events = EventBus::new();
    assert!(!s.attempt_repair(10, 7, &mut events));
    assert!(!s.attempt_repair(0, 0, &mut events));
    assert!(!s.attempt_repair(99, 99, &mut events));
    assert_eq!(s.resources.scrap, 50);
}

#[test]
fn an_upgrade_raises_level_and_health() {
    let mut s = state();
    let mut events = EventBus::new();
    assert!(s.attempt_upgrade(9, 7, &mut events));
    let weapon = s.ship.grid[9][7].unwrap();
    assert_eq!(weapon.level, 2);
    assert_eq!(weapon.max_health, 150_000);
    assert_eq!(weapon.health, 150_000);
    assert_eq!(s.resources.scrap, 20);
    assert_eq!(events.game, vec![GameEvent::ModuleUpgraded { x: 9, y: 7, new_level: 2 }]);
    assert!(!s.attempt_upgrade(9, 7, &mut events));
    s.resources.scrap = 40;
    assert!(s.attempt_upgrade(9, 7, &mut events));
    assert_eq!(s.resources.scrap, 0);
    assert_eq!(s.ship.grid[9][7].unwrap().max_health, 225_000);
}

#[test]
fn upgrades_stop_at_the_highest_level_and_skip_the_destroyed() {
    let mut s = state();
    let mut events = EventBus::new();
    s.resources.scrap = 1000;
    let mut t = 0;
    while t < 4 {
        assert!(s.attempt_upgrade(9, 7, &mut events));
        t += 1;
    }
    assert_eq!(s.ship.grid[9][7].unwrap().level, 5);
    assert!(!s.attempt_upgrade(9, 7, &mut events));
    assert_eq!(s.resources.scrap, 1000 - 30 - 40 - 50 - 60);
    assert!(!s.attempt_upgrade(10, 8, &mut events));
    assert!(!s.attempt_upgrade(0, 0, &mut events));
    assert!(!s.attempt_upgrade(20, 0, &mut events));
}

#[test]
fn toggling_switches_between_active_and_offline() {
    let mut s = state();
    s.toggle_module(9, 7);
    assert_eq!(s.ship.grid[9][7].unwrap().state, ModuleState::Offline);
    s.toggle_module(9, 7);
    assert_eq!(s.ship.grid[9][7].unwrap().state, ModuleState::Active);
    s.toggle_module(10, 8);
    assert_eq!(s.ship.grid[10][8].unwrap().state, ModuleState::Destroyed);
    s.toggle_module(0, 0);
    s.toggle_module(500, 500);
    assert!(s.ship.grid[0][0].is_none());
}

#[test]
fn repair_costs_by_room() {
    let s = state();
    assert_eq!(s.get_repair_cost(0, 0), Some((10, 0)));
    assert_eq!(s.get_repair_cost(1, 99), Some((10, 1)));
    assert_eq!(s.get_repair_cost(2, 0), Some((10, 2)));
    assert_eq!(s.get_repair_cost(3, 0), Some((10, 0)));
    assert_eq!(s.get_repair_cost(4, 0), None);
}

#[test]
fn interior_repairs_need_scrap_and_power() {
    let mut s = state();
    assert!(!s.attempt_interior_repair(1, 0));
    assert!(s.attempt_interior_repair(0, 0));
    assert_eq!(s.resources.scrap, 40);
    assert!(s.interior.rooms[0].repair_points[0].repaired);
    assert!(!s.attempt_interior_repair(0, 0));
    assert!(!s.attempt_interior_repair(1, 0));
    s.update_power();
    assert_eq!(s.total_power, 2);
    assert!(s.attempt_interior_repair(1, 0));
    s.update_power();
    assert_eq!(s.used_power, 1);
    assert!(!s.attempt_interior_repair(2, 0));
    assert!(s.attempt_interior_repair(1, 1));
    s.update_power();
    assert_eq!((s.total_power, s.used_power), (2, 2));
    assert!(!s.attempt_interior_repair(2, 1));
    assert!(s.attempt_interior_repair(3, 0));
    assert_eq!(s.resources.scrap, 10);
    assert!(!s.attempt_interior_repair(0, 2));
    assert!(!s.attempt_interior_repair(9, 0));
    s.resources.scrap = 9;
    assert!(!s.attempt_interior_repair(0, 1));
    s.resources.scrap = 10;
    assert!(s.attempt_interior_repair(0, 1));
    assert_eq!(s.resources.scrap, 0);
}

#[test]
fn the_repair_that_completes_a_room_activates_its_module() {
    let mut s = state();
    s.total_power = 10;
    let mut shield = s.ship.grid[10][8].unwrap();
    shield.health = 5;
    s.ship.grid[10][8] = Some(shield);
    assert!(s.attempt_interior_repair(1, 1));
    assert_eq!(s.ship.grid[10][8].unwrap().state, ModuleState::Destroyed);
    assert!(s.attempt_interior_repair(1, 0));
    assert_eq!(s.ship.grid[10][8].unwrap().state, ModuleState::Active);
    assert_eq!(s.ship.grid[10][8].unwrap().health, 100_000);
    assert_eq!(s.interior.rooms[1].repaired_count(), 2);
}

#[test]
fn upgrades_are_bought_for_credits() {
    let mut s = state();
    assert!(!s.purchase_upgrade("credit_bonus"));
    s.resources.credits = 1000;
    assert!(s.purchase_upgrade("credit_bonus"));
    assert_eq!(s.resources.credits, 800);
    assert_eq!(s.upgrades.get_level("credit_bonus"), 1);
    assert!(s.purchase_upgrade("credit_bonus"));
    assert_eq!(s.resources.credits, 500);
    assert!(s.purchase_upgrade("credit_bonus"));
    assert_eq!(s.resources.credits, 50);
    assert!(!s.purchase_upgrade("credit_bonus"));
    assert_eq!(s.upgrades.get_level("credit_bonus"), 3);
    assert!(!s.purchase_upgrade("unknown"));
    assert!(!s.purchase_upgrade(""));
    assert_eq!(s.ship_max_integrity, 1_000_000);
}

#[test]
fn hull_reinforcement_adds_integrity() {
    let mut s = state();
    s.resources.credits = 1000;
    s.ship_integrity = 400_000;
    assert!(s.purchase_upgrade("hull_reinforcement"));
    assert_eq!(s.ship_max_integrity, 1_250_000);
    assert_eq!(s.ship_integrity, 650_000);
    assert_eq!(s.resources.credits, 900);
    assert!(s.purchase_upgrade("hull_reinforcement"));
    assert_eq!(s.ship_max_integrity, 1_500_000);
    assert_eq!(s.resources.credits, 750);
    assert!(!s.purchase_upgrade("hull_reinforcement"));
}

#[test]
fn a_new_module_of_each_kind() {
    for kind in [ModuleType::Weapon, ModuleType::Defense, ModuleType::Utility, ModuleType::Engine, ModuleType::Core, ModuleType::Empty] {
        assert_eq!(Module::new(kind).module_type, kind);
    }
}

#[test]
fn the_tutorial_walks_through_its_steps() {
    let config = steps(3);
    let mut t = TutorialState::new();
    assert!(t.is_welcome());
    assert!(!t.is_complete());
    assert_eq!(t.current_step(&config).map(|s| s.id.as_str()), Some("step0"));
    assert_eq!(t.target_room(&config), None);
    t.advance(&config);
    assert!(!t.is_welcome());
    assert_eq!(t.current_step(&config).map(|s| s.id.as_str()), Some("step1"));
    assert_eq!(t.target_room(&config), Some(11));
    assert!(t.should_highlight(&config, 11));
    assert!(!t.should_highlight(&config, 12));
    t.advance(&config);
    assert_eq!(t.target_room(&config), Some(12));
    assert!(!t.should_highlight(&config, 12));
    assert!(!t.is_complete());
    t.advance(&config);
    assert!(t.is_complete());
    assert_eq!(t.current_index, 2);
    assert!(t.current_step(&config).is_none());
    assert_eq!(t.target_room(&config), None);
    assert!(!t.should_highlight(&config, 12));
    t.advance(&config);
    assert!(t.is_complete());
}

#[test]
fn a_tutorial_without_steps_completes_at_once() {
    let config = steps(0);
    let mut t = TutorialState::new();
    assert!(t.is_welcome());
    assert!(t.current_step(&config).is_none());
    t.advance(&config);
    assert!(t.is_complete());
    assert_eq!(t.current_index, 0);
    let mut far = TutorialState { current_index: usize::MAX, completed: false };
    far.advance(&steps(2));
    assert_eq!(far, TutorialState { current_index: usize::MAX, completed: true });
}

#[test]
fn the_built_in_tutorial_steps() {
    let mut step = TutorialStep::Welcome;
    let mut rooms = Vec::new();
    let mut n = 0;
    while step != TutorialStep::Complete {
        rooms.push(step.target_room());
        assert!(!step.message().is_empty());
        step = step.next();
        n += 1;
    }
    assert_eq!(n, 5);
    assert_eq!(rooms, vec![None, Some(12), Some(5), Some(1), Some(20)]);
    assert_eq!(TutorialStep::Complete.next(), TutorialStep::Complete);
    assert_eq!(TutorialStep::Complete.target_room(), None);
    assert!(TutorialStep::Welcome.message().starts_with("Welcome aboard!"));
    assert!(TutorialStep::Complete.message().ends_with("Good luck!"));
}

#[test]
fn built_in_steps_by_tutorial_state() {
    let at = |i: usize| TutorialStep::from_state(&TutorialState { current_index: i, completed: false });
    assert_eq!(at(0), TutorialStep::Welcome);
    assert_eq!(at(1), TutorialStep::RepairReactor);
    assert_eq!(at(2), TutorialStep::RepairShields);
    assert_eq!(at(3), TutorialStep::RepairWeapon);
    assert_eq!(at(4), TutorialStep::RepairEngine);
    assert_eq!(at(5), TutorialStep::Complete);
    assert_eq!(TutorialStep::from_state(&TutorialState { current_index: 1, completed: true }), TutorialStep::Complete);
}

#[test]
fn a_profile_records_victories() {
    let mut p = PlayerProfile::new();
    assert_eq!(p.best_time, None);
    p.record_victory(500, 90_000_000);
    assert_eq!((p.lifetime_credits, p.banked_credits, p.runs_completed), (500, 500, 1));
    assert_eq!(p.best_time, Some(90_000_000));
    p.record_victory(700, 120_000_000);
    assert_eq!(p.best_time, Some(90_000_000));
    p.record_victory(i32::MAX, 60_000_000);
    assert_eq!((p.lifetime_credits, p.banked_credits, p.runs_completed), (i32::MAX, i32::MAX, 3));
    assert_eq!(p.best_time, Some(60_000_000));
    let d = PlayerProfile::default();
    assert_eq!((d.lifetime_credits, d.banked_credits, d.runs_completed), (0, 0, 0));
}

#[test]
fn a_profile_spends_what_is_banked() {
    let mut p = PlayerProfile::new();
    p.record_victory(500, 1);
    assert!(!p.spend_credits(501));
    assert!(p.spend_credits(500));
    assert_eq!(p.banked_credits, 0);
    assert_eq!(p.lifetime_credits, 500);
    assert!(p.spend_credits(0));
    assert!(!p.spend_credits(1));
}

#[test]
fn default_settings_and_effective_volumes() {
    let s = Settings::default();
    assert_eq!(s, Settings::new());
    assert_eq!((s.master_volume, s.sfx_volume, s.music_volume), (1000, 800, 600));
    assert!(!s.fullscreen && !s.show_fps && s.screen_shake);
    assert_eq!(s.effective_sfx_volume(), 800);
    assert_eq!(s.effective_music_volume(), 600);
    let half = Settings { master_volume: 500, ..s };
    assert_eq!(half.effective_sfx_volume(), 400);
    assert_eq!(half.effective_music_volume(), 300);
    let mute = Settings { master_volume: 0, ..s };
    assert_eq!(mute.effective_sfx_volume(), 0);
    let loud = Settings { master_volume: u32::MAX, sfx_volume: u32::MAX, ..s };
    assert_eq!(loud.effective_sfx_volume(), u32::MAX);
}

#[test]
fn the_event_queues_keep_their_order_and_drain_empty() {
    let mut bus = EventBus::new();
    bus.push_game(GameEvent::EngineActivated);
    bus.push_ui(UIEvent::Pause);
    bus.push_game(GameEvent::CoreDestroyed);
    bus.push_ui(UIEvent::Repair(1, 2));
    assert_eq!(bus.drain_game(), vec![GameEvent::EngineActivated, GameEvent::CoreDestroyed]);
    assert!(bus.game.is_empty());
    assert_eq!(bus.ui.len(), 2);
    let ui = bus.drain_ui();
    assert!(matches!(ui[0], UIEvent::Pause));
    assert!(matches!(ui[1], UIEvent::Repair(1, 2)));
    assert!(bus.drain_ui().is_empty());
    assert!(bus.drain_game().is_empty());
}
