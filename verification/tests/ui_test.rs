use scrapyard_planet::data::settings::Settings;
use scrapyard_planet::economy::upgrades::UpgradeTemplate;
use scrapyard_planet::enemy::entities::{Enemy, EnemyType, Projectile, ScrapPile};
use scrapyard_planet::ship::interior::{Room, RoomType, ShipInterior};
use scrapyard_planet::ship::layout::Layout;
use scrapyard_planet::ship::ship::{ModuleState, ModuleType};
use scrapyard_planet::simulation::events::{EventBus, GameEvent, UIEvent};
use scrapyard_planet::simulation::gameplay::ModuleRegistry;
use scrapyard_planet::state::game_state::{EngineState, GamePhase, GameState, ViewMode};
use scrapyard_planet::state::persistence::SaveData;
use scrapyard_planet::state::tutorial::{TutorialConfig, TutorialStepConfig};
use scrapyard_planet::state::ui_events::{process_ui_event, UiRequest};
use scrapyard_planet::ui::input_manager::{
    get_menu_button_bounds, get_start_button_bounds, InputManager, InputState, Rect,
};
use scrapyard_planet::ui::pause_menu::{
    move_selection, pause_button_bounds, settings_input, step_volume, PauseMenuOption, PauseView,
    SettingsEffect,
};
use scrapyard_planet::ui::sound_manager::{
    add_trauma, decay_trauma, feedback_for, Feedback, SoundEffect,
};
use scrapyard_planet::ui::ui_input::MenuButtons;
use scrapyard_planet::units::Vec2;

const SECOND: u64 = 1_000_000;

fn step(id: &str, target_room: Option<usize>) -> TutorialStepConfig {
    TutorialStepConfig { id: id.to_string(), message: String::new(), target_room, show_highlight: true }
}

fn template(id: &str) -> UpgradeTemplate {
    UpgradeTemplate {
        id: id.to_string(),
        name: id.to_string(),
        description: String::new(),
        base_cost: 100,
        cost_multiplier: 1500,
        max_level: 3,
        category: String::new(),
    }
}

fn state() -> GameState {
    macroquad::rand::srand(3);
    let mut interior = ShipInterior::new(1_000_000, 600_000);
    interior.rooms.push(
        Room::new(12, RoomType::Module(ModuleType::Core), 0, 0, 100_000, 100_000)
            .with_module(10, 7)
            .with_repair_point(50_000, 50_000)
            .with_repair_point(80_000, 50_000),
    );
    interior.rooms.push(
        Room::new(5, RoomType::Module(ModuleType::Defense), 100_001, 0, 100_000, 100_000)
            .with_module(10, 8)
            .with_repair_point(50_000, 50_000),
    );
    let mut s = GameState::new(
        interior,
        ModuleRegistry::standard(),
        Layout::new(1_280_000, 720_000),
        TutorialConfig {
            steps: vec![step("welcome", None), step("reactor", Some(12)), step("shields", Some(5)), step("complete", None)],
        },
        vec![template("credit_bonus"), template("hull_reinforcement"), template("auto_repairs")],
        Settings::new(),
    );
    s.phase = GamePhase::Playing;
    s.scrap_piles.clear();
    s
}

fn buttons() -> MenuButtons {
    get_menu_button_bounds(&Layout::new(1_280_000, 720_000), true)
}

fn ui_len(events: &EventBus) -> usize {
    events.ui.len()
}

#[test]
fn menu_buttons_sit_below_the_middle() {
    let layout = Layout::new(1_280_000, 720_000);
    let with_save = get_menu_button_bounds(&layout, true);
    assert_eq!(with_save.continue_game, Some(Rect { x: 540_000, y: 380_000, w: 200_000, h: 50_000 }));
    assert_eq!(with_save.new_game, Rect { x: 540_000, y: 445_000, w: 200_000, h: 50_000 });
    let without = get_menu_button_bounds(&layout, false);
    assert_eq!(without.continue_game, None);
    assert_eq!(without.new_game, Rect { x: 540_000, y: 380_000, w: 200_000, h: 50_000 });
    assert_eq!(get_start_button_bounds(&layout, true), with_save.new_game);
    assert_eq!(get_start_button_bounds(&layout, false), without.new_game);
}

#[test]
fn a_rectangle_contains_its_edges() {
    let r = Rect { x: 10, y: 20, w: 30, h: 40 };
    assert!(r.contains(Vec2::new(10, 20)));
    assert!(r.contains(Vec2::new(40, 60)));
    assert!(!r.contains(Vec2::new(41, 60)));
    assert!(!r.contains(Vec2::new(10, 19)));
}

#[test]
fn an_idle_frame_asks_for_nothing() {
    let input = InputState::idle(16_667);
    assert_eq!(input.frame_time, 16_667);
    assert!(!input.left_click && !input.enter_pressed && !input.interact_down);
    assert_eq!(input.digits_pressed, [false; 9]);
    let mut s = state();
    let mut events = EventBus::new();
    let mut manager = InputManager::new();
    for phase in [GamePhase::Menu, GamePhase::Playing, GamePhase::GameOver, GamePhase::Victory, GamePhase::InterRound] {
        s.phase = phase;
        let effect = manager.update(&input, &mut s, &mut events, &buttons());
        assert_eq!(effect, SettingsEffect::none());
        assert_eq!(ui_len(&events), 0);
    }
}

#[test]
fn the_menu_starts_or_continues_a_run() {
    let manager = InputManager::new();
    let mut events = EventBus::new();
    manager.handle_menu_input(&InputState { enter_pressed: true, ..InputState::idle(0) }, &mut events, &buttons());
    manager.handle_menu_input(&InputState { space_pressed: true, ..InputState::idle(0) }, &mut events, &buttons());
    let click = |x: i32, y: i32| InputState { left_click: true, mouse_pos: Vec2::new(x, y), ..InputState::idle(0) };
    manager.handle_menu_input(&click(600_000, 400_000), &mut events, &buttons());
    manager.handle_menu_input(&click(600_000, 450_000), &mut events, &buttons());
    manager.handle_menu_input(&click(600_000, 435_000), &mut events, &buttons());
    manager.handle_menu_input(&click(0, 0), &mut events, &buttons());
    manager.handle_menu_input(
        &InputState { left_click: false, mouse_pos: Vec2::new(600_000, 400_000), ..InputState::idle(0) },
        &mut events,
        &buttons(),
    );
    let got: Vec<String> = events.drain_ui().iter().map(|e| format!("{:?}", e)).collect();
    assert_eq!(got, vec!["StartGame", "StartGame", "LoadGame(0)", "StartGame"]);
}

#[test]
fn after_a_run_enter_moves_on() {
    let manager = InputManager::new();
    let mut events = EventBus::new();
    let enter = InputState { enter_pressed: true, ..InputState::idle(0) };
    manager.handle_game_over_input(&enter, &mut events);
    manager.handle_game_over_input(&InputState::idle(0), &mut events);
    manager.handle_victory_input(&enter, &mut events);
    manager.handle_victory_input(&InputState::idle(0), &mut events);
    let got: Vec<String> = events.drain_ui().iter().map(|e| format!("{:?}", e)).collect();
    assert_eq!(got, vec!["ReturnToMenu", "PurchaseUpgrade(\"dummy\")"]);
}

#[test]
fn the_shop_takes_number_keys() {
    let manager = InputManager::new();
    let s = state();
    let mut events = EventBus::new();
    let mut digits = [false; 9];
    digits[0] = true;
    digits[2] = true;
    digits[5] = true;
    manager.handle_upgrade_input(&InputState { digits_pressed: digits, ..InputState::idle(0) }, &s, &mut events);
    manager.handle_upgrade_input(&InputState { digits_pressed: digits, escape_pressed: true, ..InputState::idle(0) }, &s, &mut events);
    manager.handle_upgrade_input(
        &InputState { digits_pressed: digits, escape_pressed: true, enter_pressed: true, ..InputState::idle(0) },
        &s,
        &mut events,
    );
    let got: Vec<String> = events.drain_ui().iter().map(|e| format!("{:?}", e)).collect();
    assert_eq!(
        got,
        vec!["PurchaseUpgrade(\"credit_bonus\")", "PurchaseUpgrade(\"auto_repairs\")", "ReturnToMenu", "NextRound"]
    );
}

#[test]
fn pause_menu_entries() {
    let all = PauseMenuOption::all();
    let labels: Vec<&str> = all.iter().map(|o| o.label()).collect();
    assert_eq!(labels, vec!["Resume", "Settings", "Save Game", "Load Game", "Return to Menu", "Exit Game"]);
    assert_eq!(all[0], PauseMenuOption::Resume);
    assert_eq!(all[5], PauseMenuOption::ExitGame);
}

#[test]
fn the_selection_wraps_around() {
    assert_eq!(move_selection(0, true, false, 6), 5);
    assert_eq!(move_selection(3, true, false, 6), 2);
    assert_eq!(move_selection(5, false, true, 6), 0);
    assert_eq!(move_selection(2, false, true, 6), 3);
    assert_eq!(move_selection(2, true, true, 6), 2);
    assert_eq!(move_selection(0, true, true, 6), 0);
    assert_eq!(move_selection(4, false, false, 6), 4);
    assert_eq!(move_selection(usize::MAX, false, true, 6), 4);
}

#[test]
fn volumes_step_between_none_and_full() {
    assert_eq!(step_volume(500, false, true), 600);
    assert_eq!(step_volume(500, true, false), 400);
    assert_eq!(step_volume(950, false, true), 1000);
    assert_eq!(step_volume(50, true, false), 0);
    assert_eq!(step_volume(500, false, false), 500);
    assert_eq!(step_volume(500, true, true), 600);
    assert_eq!(step_volume(u32::MAX, false, true), 1000);
    assert_eq!(step_volume(u32::MAX, true, false), 1000);
}

#[test]
fn pause_buttons_are_stacked() {
    let layout = Layout::new(1_280_000, 720_000);
    assert_eq!(pause_button_bounds(&layout, 0), Rect { x: 540_000, y: 270_000, w: 200_000, h: 40_000 });
    assert_eq!(pause_button_bounds(&layout, 5), Rect { x: 540_000, y: 520_000, w: 200_000, h: 40_000 });
}

#[test]
fn the_pause_menu_follows_keys_and_mouse() {
    let mut manager = InputManager::new();
    let mut s = state();
    s.paused = true;
    let mut events = EventBus::new();
    let down = InputState { down_pressed: true, ..InputState::idle(0) };
    manager.handle_gameplay_input(&down, &mut s, &mut events);
    manager.handle_gameplay_input(&down, &mut s, &mut events);
    assert_eq!(s.pause_menu_selection, 2);
    manager.handle_gameplay_input(&InputState { enter_pressed: true, ..InputState::idle(0) }, &mut s, &mut events);
    manager.handle_gameplay_input(
        &InputState { mouse_pos: Vec2::new(600_000, 430_000), ..InputState::idle(0) },
        &mut s,
        &mut events,
    );
    assert_eq!(s.pause_menu_selection, 3);
    manager.handle_gameplay_input(
        &InputState { mouse_pos: Vec2::new(600_000, 480_000), left_click: true, ..InputState::idle(0) },
        &mut s,
        &mut events,
    );
    assert_eq!(s.pause_menu_selection, 4);
    manager.handle_gameplay_input(
        &InputState { mouse_pos: Vec2::new(600_000, 315_000), left_click: true, ..InputState::idle(0) },
        &mut s,
        &mut events,
    );
    assert_eq!(s.pause_menu_selection, 4);
    manager.handle_gameplay_input(&InputState { escape_pressed: true, ..InputState::idle(0) }, &mut s, &mut events);
    manager.handle_gameplay_input(
        &InputState { up_pressed: true, space_pressed: true, ..InputState::idle(0) },
        &mut s,
        &mut events,
    );
    let got: Vec<String> = events.drain_ui().iter().map(|e| format!("{:?}", e)).collect();
    assert_eq!(got, vec!["SaveGame(0)", "ReturnToMenu", "Resume", "LoadGame(0)"]);
    assert!(s.paused);
}

#[test]
fn the_settings_panel_tunes_and_toggles() {
    let mut manager = InputManager::new();
    let mut s = state();
    s.paused = true;
    s.pause_menu_selection = 1;
    let mut events = EventBus::new();
    let enter = InputState { enter_pressed: true, ..InputState::idle(0) };
    assert_eq!(manager.handle_gameplay_input(&enter, &mut s, &mut events), SettingsEffect::none());
    assert!(s.settings_open);
    assert_eq!(s.settings_selection, 0);
    let left = InputState { left_pressed: true, ..InputState::idle(0) };
    manager.handle_gameplay_input(&left, &mut s, &mut events);
    assert_eq!(s.settings.master_volume, 900);
    let down_right = InputState { down_pressed: true, right_pressed: true, ..InputState::idle(0) };
    manager.handle_gameplay_input(&down_right, &mut s, &mut events);
    assert_eq!(s.settings.sfx_volume, 900);
    manager.handle_gameplay_input(&down_right, &mut s, &mut events);
    assert_eq!(s.settings.music_volume, 700);
    let down_enter = InputState { down_pressed: true, enter_pressed: true, ..InputState::idle(0) };
    let effect = manager.handle_gameplay_input(&down_enter, &mut s, &mut events);
    assert_eq!(effect, SettingsEffect { apply_fullscreen: Some(true), save: false });
    assert!(s.settings.fullscreen);
    let effect = manager.handle_gameplay_input(&down_enter, &mut s, &mut events);
    assert_eq!(effect, SettingsEffect::none());
    assert!(!s.settings.screen_shake);
    let effect = manager.handle_gameplay_input(&down_enter, &mut s, &mut events);
    assert_eq!(effect, SettingsEffect { apply_fullscreen: None, save: true });
    assert!(!s.settings_open);
    assert_eq!(ui_len(&events), 0);
    assert_eq!(s.settings, Settings { master_volume: 900, sfx_volume: 900, music_volume: 700, fullscreen: true, show_fps: false, screen_shake: false });
}

#[test]
fn escape_closes_the_settings_panel() {
    let view = PauseView { selection: 1, settings_open: true, settings_selection: 4 };
    let input = InputState { escape_pressed: true, ..InputState::idle(0) };
    let (after, settings, effect) = settings_input(view, Settings::new(), &input);
    assert_eq!(after, PauseView { selection: 1, settings_open: false, settings_selection: 4 });
    assert_eq!(settings, Settings::new());
    assert_eq!(effect, SettingsEffect { apply_fullscreen: None, save: true });
}

#[test]
fn tab_switches_views_and_escape_pauses() {
    let mut manager = InputManager::new();
    let mut s = state();
    let mut events = EventBus::new();
    assert_eq!(s.view_mode, ViewMode::Interior);
    manager.handle_gameplay_input(&InputState { tab_pressed: true, ..InputState::idle(0) }, &mut s, &mut events);
    assert_eq!(s.view_mode, ViewMode::Exterior);
    manager.handle_gameplay_input(
        &InputState { tab_pressed: true, pause_pressed: true, ..InputState::idle(0) },
        &mut s,
        &mut events,
    );
    assert_eq!(s.view_mode, ViewMode::Interior);
    manager.handle_gameplay_input(&InputState { escape_pressed: true, ..InputState::idle(0) }, &mut s, &mut events);
    let got: Vec<String> = events.drain_ui().iter().map(|e| format!("{:?}", e)).collect();
    assert_eq!(got, vec!["Pause", "Pause"]);
}

#[test]
fn scrap_is_gathered_by_holding_still() {
    let mut manager = InputManager::new();
    let mut s = state();
    s.scrap_piles.push(ScrapPile::new(Vec2::new(90_000, 50_000), 20));
    s.scrap_piles.push(ScrapPile::new(Vec2::new(60_000, 50_000), 30));
    s.scrap_piles.push(ScrapPile::new(Vec2::new(40_000, 50_000), 40));
    s.scrap_piles[2].active = false;
    s.upgrades.set_level("scrap_efficiency", 2);
    let mut events = EventBus::new();
    let hold = InputState { interact_down: true, ..InputState::idle(SECOND) };
    assert_eq!(manager.find_nearest_scrap_pile(&s), Some(1));
    manager.handle_gameplay_input(&hold, &mut s, &mut events);
    assert_eq!(s.gathering_target, Some(1));
    assert_eq!(s.gathering_timer, SECOND);
    assert_eq!(s.resources.scrap, 50);
    manager.handle_gameplay_input(&hold, &mut s, &mut events);
    assert_eq!(s.gathering_target, None);
    assert_eq!(s.gathering_timer, 0);
    assert_eq!(s.resources.scrap, 50 + 42);
    assert!(!s.scrap_piles[1].active);
    assert!(s.scrap_piles[0].active);
    let got: Vec<String> = events.drain_ui().iter().map(|e| format!("{:?}", e)).collect();
    assert_eq!(got, vec!["Toggle(0, 0)"]);
    assert_eq!(manager.find_nearest_scrap_pile(&s), None);
    s.player.position = Vec2::new(50_001, 50_000);
    assert_eq!(manager.find_nearest_scrap_pile(&s), Some(0));
}

#[test]
fn letting_go_or_moving_starts_the_gathering_over() {
    let manager = InputManager::new();
    let mut s = state();
    s.scrap_piles.push(ScrapPile::new(Vec2::new(60_000, 50_000), 30));
    let mut events = EventBus::new();
    manager.handle_scrap_gathering(&mut s, &mut events, true, SECOND);
    assert_eq!(s.gathering_timer, SECOND);
    manager.handle_scrap_gathering(&mut s, &mut events, false, SECOND);
    assert_eq!((s.gathering_target, s.gathering_timer), (None, 0));
    manager.handle_scrap_gathering(&mut s, &mut events, true, SECOND);
    s.player.velocity = Vec2::new(100, 0);
    manager.handle_scrap_gathering(&mut s, &mut events, true, SECOND);
    assert_eq!((s.gathering_target, s.gathering_timer), (None, 0));
    s.player.velocity = Vec2::new(70, 70);
    manager.handle_scrap_gathering(&mut s, &mut events, true, SECOND);
    assert_eq!((s.gathering_target, s.gathering_timer), (Some(0), SECOND));
    assert_eq!(ui_len(&events), 0);
}

#[test]
fn a_target_that_is_gone_gathers_nothing() {
    let manager = InputManager::new();
    let mut s = state();
    s.gathering_target = Some(7);
    let mut events = EventBus::new();
    manager.handle_scrap_gathering(&mut s, &mut events, true, 10 * SECOND);
    assert_eq!((s.gathering_target, s.gathering_timer), (Some(7), 0));
    assert_eq!(s.resources.scrap, 50);
}

#[test]
fn interactions_walk_the_tutorial_and_repair() {
    let manager = InputManager::new();
    let mut s = state();
    assert!(!manager.handle_interact(&mut s));
    assert_eq!(s.tutorial_state.current_index, 1);
    assert_eq!(s.resources.scrap, 50);
    assert_eq!(s.player.position, Vec2::new(50_000, 50_000));
    assert!(manager.handle_interact(&mut s));
    assert!(s.interior.rooms[0].repair_points[0].repaired);
    assert_eq!(s.resources.scrap, 40);
    assert_eq!(s.tutorial_state.current_index, 2);
    assert!(!manager.handle_interact(&mut s));
    s.player.position = Vec2::new(80_000, 50_000);
    assert!(manager.handle_interact(&mut s));
    assert_eq!(s.tutorial_state.current_index, 2);
    s.player.position = Vec2::new(20_000, 20_000);
    assert!(!manager.handle_interact(&mut s));
    s.player.position = Vec2::new(500_000, 500_000);
    assert!(!manager.handle_interact(&mut s));
    s.update_power();
    s.player.position = Vec2::new(150_001, 50_000);
    assert!(manager.handle_interact(&mut s));
    assert_eq!(s.tutorial_state.current_index, 3);
    assert_eq!(s.ship.grid[10][8].unwrap().state, ModuleState::Active);
    assert!(!manager.handle_interact(&mut s));
    assert!(s.tutorial_state.completed);
}

#[test]
fn interface_events_change_the_run() {
    let mut s = state();
    let mut events = EventBus::new();
    assert_eq!(process_ui_event(&mut s, UIEvent::Pause, &mut events), UiRequest::Nothing);
    assert!(s.paused);
    s.pause_menu_selection = 3;
    process_ui_event(&mut s, UIEvent::Pause, &mut events);
    assert_eq!(s.pause_menu_selection, 0);
    process_ui_event(&mut s, UIEvent::Resume, &mut events);
    assert!(!s.paused);
    s.paused = true;
    assert_eq!(process_ui_event(&mut s, UIEvent::SaveGame(2), &mut events), UiRequest::SaveGame(2));
    assert!(!s.paused);
    assert_eq!(process_ui_event(&mut s, UIEvent::LoadGame(1), &mut events), UiRequest::LoadGame(1));
    assert_eq!(process_ui_event(&mut s, UIEvent::StartGame, &mut events), UiRequest::StartRun);
    assert_eq!(process_ui_event(&mut s, UIEvent::NextRound, &mut events), UiRequest::StartRun);
    assert_eq!(process_ui_event(&mut s, UIEvent::ExitGame, &mut events), UiRequest::Exit);
    assert_eq!(s.phase, GamePhase::Playing);
    s.paused = true;
    process_ui_event(&mut s, UIEvent::ReturnToMenu, &mut events);
    assert_eq!(s.phase, GamePhase::Menu);
    assert!(!s.paused);
}

#[test]
fn interface_events_reach_the_modules() {
    let mut s = state();
    let mut events = EventBus::new();
    process_ui_event(&mut s, UIEvent::Repair(10, 8), &mut events);
    assert_eq!(s.ship.grid[10][8].unwrap().state, ModuleState::Active);
    process_ui_event(&mut s, UIEvent::Toggle(10, 8), &mut events);
    assert_eq!(s.ship.grid[10][8].unwrap().state, ModuleState::Offline);
    s.resources.scrap = 100;
    process_ui_event(&mut s, UIEvent::Upgrade(9, 7), &mut events);
    assert_eq!(s.ship.grid[9][7].unwrap().level, 2);
    assert_eq!(
        events.game,
        vec![
            GameEvent::ModuleRepaired { x: 10, y: 8, cost: 30 },
            GameEvent::ModuleUpgraded { x: 9, y: 7, new_level: 2 },
        ]
    );
}

#[test]
fn a_purchase_on_the_victory_screen_leaves_for_the_shop() {
    let mut s = state();
    let mut events = EventBus::new();
    s.resources.credits = 1000;
    s.phase = GamePhase::Victory;
    process_ui_event(&mut s, UIEvent::PurchaseUpgrade("credit_bonus".to_string()), &mut events);
    assert_eq!(s.phase, GamePhase::InterRound);
    assert_eq!(s.upgrades.get_level("credit_bonus"), 0);
    assert_eq!(s.resources.credits, 1000);
    process_ui_event(&mut s, UIEvent::PurchaseUpgrade("credit_bonus".to_string()), &mut events);
    assert_eq!(s.upgrades.get_level("credit_bonus"), 1);
    assert_eq!(s.resources.credits, 900);
    process_ui_event(&mut s, UIEvent::PurchaseUpgrade("dummy".to_string()), &mut events);
    assert_eq!(s.resources.credits, 900);
}

#[test]
fn a_run_is_saved_and_taken_up_again() {
    let mut s = state();
    let mut events = EventBus::new();
    s.enemies.push(Enemy::new(7, EnemyType::Nanoguard, Vec2::new(1, 2)));
    s.enemies.push(Enemy::new(3, EnemyType::Boss, Vec2::new(3, 4)));
    s.enemies[0].attacking = true;
    s.enemies[1].health = 5;
    s.projectiles.push(Projectile::new(Vec2::new(5, 6), Vec2::new(50, 6), 400, 9));
    s.scrap_piles.push(ScrapPile::new(Vec2::new(7, 8), 22));
    s.upgrades.set_level("credit_bonus", 2);
    s.interior.rooms[0].repair_points[1].repaired = true;
    s.resources.credits = 77;
    s.engine_state = EngineState::Charging;
    s.escape_timer = 12 * SECOND;
    s.frame_count = 99;
    s.time_survived = 5 * SECOND;
    s.player.position = Vec2::new(11, 12);
    s.view_mode = ViewMode::Exterior;
    s.tutorial_state.current_index = 2;
    s.toggle_module(9, 7);
    let data: SaveData = s.to_save_data();
    assert_eq!(data.enemies.len(), 2);
    assert_eq!(data.enemies[0].pos, (1, 2));
    assert_eq!(data.room_repair_states, vec![vec![false, true], vec![false]]);
    assert_eq!(data.player_pos, (11, 12));

    let mut fresh = state();
    fresh.interior.rooms.push(Room::new(9, RoomType::Storage, 0, 0, 1, 1).with_repair_point(0, 0));
    fresh.interior.rooms[2].repair_points[0].repaired = true;
    fresh.engine_stress = 5;
    fresh.restore(data);
    assert_eq!(fresh.enemies.len(), 2);
    assert_eq!(fresh.enemies[0], Enemy { attacking: false, ..s.enemies[0] });
    assert_eq!(fresh.enemies[1], s.enemies[1]);
    assert_eq!(fresh.projectiles, s.projectiles);
    assert_eq!(fresh.scrap_piles, s.scrap_piles);
    assert_eq!(fresh.upgrades.get_level("credit_bonus"), 2);
    assert_eq!(fresh.resources.credits, 77);
    assert_eq!(fresh.engine_state, EngineState::Charging);
    assert_eq!(fresh.escape_timer, 12 * SECOND);
    assert_eq!(fresh.frame_count, 99);
    assert_eq!(fresh.time_survived, 5 * SECOND);
    assert_eq!(fresh.player.position, Vec2::new(11, 12));
    assert_eq!(fresh.view_mode, ViewMode::Exterior);
    assert_eq!(fresh.tutorial_state.current_index, 2);
    assert_eq!(fresh.phase, GamePhase::Playing);
    assert_eq!(fresh.ship.grid[9][7].unwrap().state, ModuleState::Offline);
    assert_eq!(fresh.wave_state.next_enemy_id, 8);
    assert!(fresh.interior.rooms[0].repair_points[1].repaired);
    assert!(!fresh.interior.rooms[0].repair_points[0].repaired);
    assert!(fresh.interior.rooms[2].repair_points[0].repaired);
    assert_eq!(fresh.engine_stress, 5);
    fresh.update(16_667, &mut events);
    assert!(fresh.enemies.iter().all(|e| e.id != 8 || e.enemy_type != EnemyType::Boss));
}

#[test]
fn feedback_by_game_event() {
    assert_eq!(
        feedback_for(&GameEvent::EnemyKilled { x: 0, y: 0, scrap_dropped: 3 }),
        Feedback { trauma: 100, sound: Some(SoundEffect::EnemyKilled) }
    );
    assert_eq!(
        feedback_for(&GameEvent::ModuleDamaged { x: 0, y: 0, damage: 2_500 }),
        Feedback { trauma: 50, sound: Some(SoundEffect::ModuleDamaged) }
    );
    assert_eq!(feedback_for(&GameEvent::ModuleDamaged { x: 0, y: 0, damage: i64::MAX }).trauma, 1000);
    assert_eq!(feedback_for(&GameEvent::ModuleDamaged { x: 0, y: 0, damage: -5 }).trauma, 0);
    assert_eq!(
        feedback_for(&GameEvent::ModuleDestroyed { x: 0, y: 0 }),
        Feedback { trauma: 400, sound: Some(SoundEffect::ModuleDestroyed) }
    );
    assert_eq!(
        feedback_for(&GameEvent::ModuleRepaired { x: 0, y: 0, cost: 1 }),
        Feedback { trauma: 0, sound: Some(SoundEffect::Repair) }
    );
    assert_eq!(feedback_for(&GameEvent::CoreDestroyed), Feedback { trauma: 1000, sound: Some(SoundEffect::GameOver) });
    assert_eq!(feedback_for(&GameEvent::EngineActivated), Feedback { trauma: 300, sound: Some(SoundEffect::EngineCharge) });
    assert_eq!(feedback_for(&GameEvent::EscapeSuccess), Feedback { trauma: 0, sound: Some(SoundEffect::Victory) });
    assert_eq!(feedback_for(&GameEvent::WeaponFired { x: 0, y: 0 }), Feedback { trauma: 0, sound: None });
    assert_eq!(
        feedback_for(&GameEvent::ModuleUpgraded { x: 0, y: 0, new_level: 2 }),
        Feedback { trauma: 0, sound: None }
    );
}

#[test]
fn trauma_is_added_and_decays() {
    assert_eq!(add_trauma(0, 300), 300);
    assert_eq!(add_trauma(900, 300), 1000);
    assert_eq!(add_trauma(u32::MAX, u32::MAX), 1000);
    assert_eq!(decay_trauma(1000, 100_000), 850);
    assert_eq!(decay_trauma(1000, 16_667), 975);
    assert_eq!(decay_trauma(100, SECOND), 0);
    assert_eq!(decay_trauma(0, SECOND), 0);
    assert_eq!(decay_trauma(1000, 0), 1000);
    assert_eq!(decay_trauma(1000, u64::MAX), 0);
}

#[test]
fn sound_effects_and_their_files() {
    let all = SoundEffect::all();
    assert_eq!(all.len(), 10);
    assert_eq!(all[0].path(), "assets/sounds/repair.wav");
    assert_eq!(SoundEffect::TurretFire.path(), "assets/sounds/laser.wav");
    assert_eq!(SoundEffect::GameOver.path(), "assets/sounds/gameover.wav");
    let mut paths: Vec<&str> = all.iter().map(|e| e.path()).collect();
    paths.sort();
    paths.dedup();
    assert_eq!(paths.len(), 10);
}
