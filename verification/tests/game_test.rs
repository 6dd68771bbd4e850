use scrapyard_planet::data::settings::Settings;
use scrapyard_planet::enemy::ai::update_enemies;
use scrapyard_planet::enemy::combat::update_combat;
use scrapyard_planet::enemy::entities::{Enemy, EnemyType, Projectile};
use scrapyard_planet::ship::interior::{Room, RoomType, ShipInterior};
use scrapyard_planet::ship::layout::Layout;
use scrapyard_planet::ship::ship::{ModuleState, ModuleType};
use scrapyard_planet::simulation::events::{EventBus, GameEvent};
use scrapyard_planet::simulation::gameplay::ModuleRegistry;
use scrapyard_planet::state::game_state::{
    scrap_pile_at, EngineState, GamePhase, GameState, ViewMode,
};
use scrapyard_planet::state::game_update::{engine_room_state, escape_credits, mend_all};
use scrapyard_planet::state::tutorial::{TutorialConfig, TutorialState};
use scrapyard_planet::units::Vec2;

const SECOND: u64 = 1_000_000;
const FRAME: u64 = 16_667;

fn room(id: usize, kind: RoomType, x: i32, points: usize, repaired: usize) -> Room {
    let mut room = Room::new(id, kind, x, 0, 100_000, 100_000);
    let mut i = 0;
    while i < points {
        room = room.with_repair_point(20_000 + 20_000 * i as i32, 50_000);
        i += 1;
    }
    let mut i = 0;
    while i < repaired {
        room.repair_points[i].repaired = true;
        i += 1;
    }
    room
}

fn interior(reactor: usize, weapon: usize, shield: usize, engine: usize) -> ShipInterior {
    let mut interior = ShipInterior::new(1_000_000, 600_000);
    interior.rooms.push(room(12, RoomType::Module(ModuleType::Core), 0, 5, reactor).with_module(10, 7));
    interior.rooms.push(room(1, RoomType::Module(ModuleType::Weapon), 100_000, 4, weapon).with_module(9, 7));
    interior.rooms.push(room(5, RoomType::Module(ModuleType::Defense), 200_000, 4, shield).with_module(10, 8));
    interior.rooms.push(room(20, RoomType::Module(ModuleType::Engine), 300_000, 4, engine).with_module(10, 10));
    interior.rooms.push(room(30, RoomType::Corridor, 400_000, 0, 0));
    interior
}

fn playing(interior: ShipInterior) -> GameState {
    macroquad::rand::srand(1);
    let mut state = GameState::new(
        interior,
        ModuleRegistry::standard(),
        Layout::new(1_280_000, 720_000),
        TutorialConfig { steps: Vec::new() },
        Vec::new(),
        Settings::new(),
    );
    state.phase = GamePhase::Playing;
    state
}

fn killed(events: &[GameEvent]) -> Vec<GameEvent> {
    events.iter().copied().filter(|e| matches!(e, GameEvent::EnemyKilled { .. })).collect()
}

fn fired(events: &[GameEvent]) -> usize {
    events.iter().filter(|e| matches!(e, GameEvent::WeaponFired { .. })).count()
}

#[test]
fn a_new_state_waits_at_the_menu() {
    let state = playing(interior(0, 0, 0, 0));
    assert_eq!(state.view_mode, ViewMode::Interior);
    assert_eq!(state.resources.scrap, 50);
    assert_eq!(state.ship_integrity, 1_000_000);
    assert_eq!(state.ship_max_integrity, 1_000_000);
    assert_eq!(state.engine_state, EngineState::Idle);
    assert_eq!(state.escape_timer, 60 * SECOND);
    assert_eq!(state.nanite_alert, 10_000_000);
    assert_eq!(state.engine_stress, 0);
    assert_eq!(state.required_power, 100);
    assert_eq!(state.player.position, Vec2::new(50_000, 50_000));
    assert_eq!(state.tutorial_state, TutorialState::new());
    assert!(state.enemies.is_empty());
    assert!(state.projectiles.is_empty());
    assert_eq!(state.ship.find_core(), Some((10, 7)));
    let fresh = GameState::new(
        interior(0, 0, 0, 0),
        ModuleRegistry::new(),
        Layout::new(1, 1),
        TutorialConfig { steps: Vec::new() },
        Vec::new(),
        Settings::new(),
    );
    assert_eq!(fresh.phase, GamePhase::Menu);
}

#[test]
fn scrap_piles_spawn_inside_the_rooms() {
    let state = playing(interior(0, 0, 0, 0));
    assert!(state.scrap_piles.len() <= 12);
    for pile in state.scrap_piles.iter() {
        assert!(pile.active);
        assert!(15 <= pile.amount && pile.amount <= 40);
        assert!(state.interior.rooms.iter().any(|r| {
            r.x + 20_000 <= pile.position.x
                && pile.position.x < r.x + 80_000
                && r.y + 20_000 <= pile.position.y
                && pile.position.y < r.y + 80_000
        }));
    }
}

#[test]
fn scrap_piles_spawn_eight_to_twelve_times() {
    let mut seed = 0;
    while seed < 50 {
        macroquad::rand::srand(seed);
        let mut inside = ShipInterior::new(1_000_000, 600_000);
        inside.rooms.push(Room::new(1, RoomType::Storage, 0, 0, 100_000, 100_000));
        let mut state = playing(inside);
        state.scrap_piles.clear();
        state.spawn_scrap_piles();
        assert!(8 <= state.scrap_piles.len() && state.scrap_piles.len() <= 12);
        seed += 1;
    }
}

#[test]
fn a_scattering_keeps_the_piles_that_lay_there() {
    let mut seed = 0;
    while seed < 20 {
        let mut state = playing(interior(0, 0, 0, 0));
        macroquad::rand::srand(seed);
        let before = state.scrap_piles.clone();
        state.spawn_scrap_piles();
        let added = state.scrap_piles.len() - before.len();
        assert!(8 <= added && added <= 12);
        assert_eq!(&state.scrap_piles[..before.len()], &before[..]);
        for pile in state.scrap_piles[before.len()..].iter() {
            assert!(pile.active);
            assert!(15 <= pile.amount && pile.amount <= 40);
            assert!(state.interior.rooms.iter().any(|r| {
                r.x + 20_000 <= pile.position.x
                    && pile.position.x < r.x + 80_000
                    && r.y + 20_000 <= pile.position.y
                    && pile.position.y < r.y + 80_000
            }));
        }
        seed += 1;
    }
}

#[test]
fn a_draw_on_an_empty_room_leaves_no_pile() {
    let mut fewer = false;
    let mut seed = 0;
    while seed < 20 {
        let mut inside = ShipInterior::new(1_000_000, 600_000);
        inside.rooms.push(Room::new(1, RoomType::Storage, 0, 0, 100_000, 100_000));
        inside.rooms.push(Room::new(2, RoomType::Empty, 200_000, 0, 100_000, 100_000));
        let mut state = playing(inside);
        state.scrap_piles.clear();
        macroquad::rand::srand(seed);
        state.spawn_scrap_piles();
        assert!(state.scrap_piles.len() <= 12);
        if state.scrap_piles.len() < 8 {
            fewer = true;
        }
        for pile in state.scrap_piles.iter() {
            assert!(20_000 <= pile.position.x && pile.position.x < 80_000);
            assert!(20_000 <= pile.position.y && pile.position.y < 80_000);
        }
        seed += 1;
    }
    assert!(fewer);
}

#[test]
fn no_scrap_spawns_in_empty_rooms_or_without_rooms() {
    let mut inside = ShipInterior::new(1_000_000, 600_000);
    inside.rooms.push(Room::new(1, RoomType::Empty, 0, 0, 100_000, 100_000));
    let state = playing(inside);
    assert!(state.scrap_piles.is_empty());
    let state = playing(ShipInterior::new(1_000_000, 600_000));
    assert!(state.scrap_piles.is_empty());
}

#[test]
fn a_scrap_pile_sits_at_its_offset_from_the_padded_corner() {
    let r = Room::new(1, RoomType::Storage, 100_000, 200_000, 100_000, 100_000);
    let pile = scrap_pile_at(&r, 5, 7, 33);
    assert_eq!(pile.position, Vec2::new(120_005, 220_007));
    assert_eq!(pile.amount, 33);
    assert!(pile.active);
}

#[test]
fn a_new_run_resets_the_run_and_keeps_the_upgrades() {
    let mut state = playing(interior(5, 4, 0, 4));
    let mut events = EventBus::new();
    state.upgrades.set_level("credit_bonus", 2);
    state.enemies.push(Enemy::new(0, EnemyType::Nanodrone, Vec2::new(0, 0)));
    let mut t = 0;
    while t < 100 {
        state.update(FRAME, &mut events);
        t += 1;
    }
    assert!(state.frame_count > 0);
    state.start_new_game(interior(0, 0, 0, 0));
    assert_eq!(state.phase, GamePhase::Playing);
    assert_eq!(state.frame_count, 0);
    assert_eq!(state.time_survived, 0);
    assert_eq!(state.total_power, 0);
    assert_eq!(state.resources.scrap, 50);
    assert_eq!(state.resources.credits, 0);
    assert_eq!(state.engine_state, EngineState::Idle);
    assert_eq!(state.escape_timer, 60 * SECOND);
    assert_eq!(state.wave_state.next_enemy_id, 0);
    assert!(state.enemies.is_empty());
    assert!(state.projectiles.is_empty());
    assert!(state.scrap_piles.len() <= 12);
    assert_eq!(state.upgrades.get_level("credit_bonus"), 2);
    assert_eq!(state.interior.rooms[0].repaired_count(), 0);
}

#[test]
fn a_run_that_is_not_played_stands_still() {
    let mut state = playing(interior(5, 4, 0, 4));
    let mut events = EventBus::new();
    state.enemies.push(Enemy::new(0, EnemyType::Nanodrone, Vec2::new(0, 0)));
    for phase in [GamePhase::Menu, GamePhase::GameOver, GamePhase::Victory, GamePhase::InterRound] {
        state.phase = phase;
        state.update(SECOND, &mut events);
        assert_eq!(state.phase, phase);
        assert_eq!(state.frame_count, 0);
        assert_eq!(state.total_power, 0);
        assert_eq!(state.enemies[0].position, Vec2::new(0, 0));
    }
    state.phase = GamePhase::Playing;
    state.paused = true;
    state.update(SECOND, &mut events);
    assert_eq!(state.frame_count, 0);
    assert!(events.game.is_empty());
    state.paused = false;
    state.update(SECOND, &mut events);
    assert_eq!(state.frame_count, 1);
    assert_eq!(state.time_survived, SECOND);
    assert_eq!(state.total_power, 10);
}

#[test]
fn the_ledger_is_recomputed_each_tick() {
    let mut state = playing(interior(5, 4, 2, 1));
    state.update_power();
    assert_eq!((state.total_power, state.used_power), (10, 4 + 2 + 2));
    state.update_power();
    assert_eq!((state.total_power, state.used_power), (10, 8));
    state.total_power = 77;
    state.used_power = -3;
    state.update_power();
    assert_eq!((state.total_power, state.used_power), (10, 8));
    state.interior.rooms[0].repair_points[0].repaired = false;
    state.update_power();
    assert_eq!((state.total_power, state.used_power), (8, 8));
}

#[test]
fn without_power_no_drones_spawn_in_a_hundred_seconds() {
    let mut state = playing(interior(0, 4, 0, 0));
    let mut events = EventBus::new();
    let mut t = 0;
    while t < 6000 {
        state.update(FRAME, &mut events);
        t += 1;
    }
    assert_eq!(state.total_power, 0);
    assert!(state.enemies.is_empty());
    assert!(state.time_survived >= 100 * SECOND);
    assert_eq!(state.phase, GamePhase::Playing);
}

#[test]
fn a_drone_in_reach_dies_by_the_first_shot_that_connects() {
    let mut state = playing(interior(5, 4, 0, 0));
    let mut events = EventBus::new();
    state.enemies.push(Enemy::new(0, EnemyType::Nanodrone, Vec2::new(320_000, 360_000)));
    state.wave_state.next_enemy_id = 1;
    let mut ticks = 0;
    while !state.enemies.is_empty() {
        assert!(ticks < 200);
        state.update(FRAME, &mut events);
        ticks += 1;
    }
    assert_eq!(state.total_power, 10);
    assert_eq!(state.resources.scrap, 53);
    assert_eq!(state.resources.credits, 1);
    assert_eq!(fired(&events.game), 1);
    let kills = killed(&events.game);
    assert_eq!(kills.len(), 1);
    match kills[0] {
        GameEvent::EnemyKilled { x, y, scrap_dropped } => {
            assert_eq!(scrap_dropped, 3);
            assert_eq!(y, 360_000);
            assert!(320_000 < x && x < 620_000);
        }
        _ => unreachable!(),
    }
    assert!(state.projectiles.is_empty());
    assert_eq!(state.ship_integrity, 1_000_000);
}

#[test]
fn without_engine_repairs_the_engine_idles_forever() {
    let mut state = playing(interior(0, 0, 0, 0));
    let mut events = EventBus::new();
    let mut t = 0;
    while t < 5000 {
        state.update(SECOND, &mut events);
        assert_eq!(state.engine_state, EngineState::Idle);
        t += 1;
    }
    assert_eq!(state.escape_timer, 60 * SECOND);
    assert_eq!(state.phase, GamePhase::Playing);
    assert_eq!(state.engine_stress, 0);
}

#[test]
fn charging_calls_one_boss_and_suspends_the_waves() {
    let mut state = playing(interior(5, 0, 0, 4));
    let mut events = EventBus::new();
    let mut t = 0;
    while t < 30 {
        state.update(SECOND, &mut events);
        assert_eq!(state.engine_state, EngineState::Charging);
        assert_eq!(state.enemies.len(), 1);
        assert_eq!(state.enemies[0].enemy_type, EnemyType::Boss);
        t += 1;
    }
    assert_eq!(state.wave_state.spawn_timer, 0);
    assert_eq!(events.game.iter().filter(|e| **e == GameEvent::EngineActivated).count(), 1);
    assert_eq!(state.escape_timer, 30 * SECOND);
}

#[test]
fn an_escape_wins_the_run_and_pays_credits() {
    let mut state = playing(interior(0, 0, 0, 4));
    state.upgrades.set_level("credit_bonus", 2);
    state.escape_timer = 3 * SECOND;
    let mut events = EventBus::new();
    state.update(SECOND, &mut events);
    state.update(SECOND, &mut events);
    assert_eq!(state.phase, GamePhase::Playing);
    state.update(SECOND, &mut events);
    assert_eq!(state.phase, GamePhase::Victory);
    assert_eq!(state.engine_state, EngineState::Escaped);
    assert_eq!(state.resources.credits, 750);
    assert_eq!(events.game.iter().filter(|e| **e == GameEvent::EscapeSuccess).count(), 1);
    let frames = state.frame_count;
    state.update(SECOND, &mut events);
    assert_eq!(state.frame_count, frames);
}

#[test]
fn escape_credits_by_level() {
    assert_eq!(escape_credits(0), 500);
    assert_eq!(escape_credits(1), 625);
    assert_eq!(escape_credits(4), 1000);
    assert_eq!(escape_credits(u32::MAX), i32::MAX);
}

#[test]
fn the_last_engine_room_with_points_counts() {
    let inside = interior(0, 0, 0, 3);
    assert_eq!(engine_room_state(&inside.rooms), (3, 4));
    let mut two = interior(0, 0, 0, 3);
    two.rooms.push(room(21, RoomType::Module(ModuleType::Engine), 500_000, 2, 1));
    two.rooms.push(room(22, RoomType::Module(ModuleType::Engine), 600_000, 0, 0));
    assert_eq!(engine_room_state(&two.rooms), (1, 2));
    assert_eq!(engine_room_state(&Vec::new()), (0, 0));
}

#[test]
fn the_cascade_damages_the_hull_and_ends_the_run_at_zero() {
    let mut state = playing(interior(0, 0, 0, 0));
    state.engine_stress = 1_000_000_000;
    state.ship_integrity = 12_000;
    let mut events = EventBus::new();
    state.update(SECOND, &mut events);
    assert_eq!(state.ship_integrity, 7_000);
    assert_eq!(state.enemies.len(), 1);
    assert_eq!(state.enemies[0].enemy_type, EnemyType::Boss);
    assert_eq!(state.nanite_alert, 10_100_000 + 8_000_000);
    state.update(SECOND, &mut events);
    assert_eq!(state.ship_integrity, 2_000);
    assert_eq!(state.phase, GamePhase::Playing);
    assert_eq!(state.enemies.len(), 1);
    state.update(SECOND, &mut events);
    assert_eq!(state.ship_integrity, 0);
    assert_eq!(state.phase, GamePhase::GameOver);
    assert_eq!(events.game.last(), Some(&GameEvent::CoreDestroyed));
    assert_eq!(events.game.iter().filter(|e| **e == GameEvent::CoreDestroyed).count(), 1);
}

#[test]
fn check_game_over_leaves_a_sound_hull_alone() {
    let mut state = playing(interior(0, 0, 0, 0));
    let mut events = EventBus::new();
    state.ship_integrity = 1;
    state.check_game_over(&mut events);
    assert_eq!(state.phase, GamePhase::Playing);
    state.ship_integrity = -500;
    state.check_game_over(&mut events);
    assert_eq!(state.phase, GamePhase::GameOver);
    assert_eq!(state.ship_integrity, 0);
    assert_eq!(events.game, vec![GameEvent::CoreDestroyed]);
}

#[test]
fn repair_robots_mend_every_two_seconds() {
    let mut state = playing(interior(0, 0, 0, 0));
    state.upgrades.set_level("auto_repairs", 3);
    let mut weapon = state.ship.grid[9][7].unwrap();
    weapon.health = 90_000;
    state.ship.grid[9][7] = Some(weapon);
    let mut shield = state.ship.grid[10][8].unwrap();
    shield.health = 10_000;
    state.ship.grid[10][8] = Some(shield);
    state.update_auto_repair(SECOND);
    assert_eq!(state.ship.grid[9][7].unwrap().health, 90_000);
    assert_eq!(state.repair_timer, SECOND);
    state.update_auto_repair(SECOND);
    assert_eq!(state.ship.grid[9][7].unwrap().health, 96_000);
    assert_eq!(state.ship.grid[10][8].unwrap().health, 10_000);
    assert_eq!(state.ship.grid[10][8].unwrap().state, ModuleState::Destroyed);
    assert_eq!(state.repair_timer, 0);
    state.update_auto_repair(5 * SECOND);
    assert_eq!(state.ship.grid[9][7].unwrap().health, 100_000);
    state.update_auto_repair(5 * SECOND);
    assert_eq!(state.ship.grid[9][7].unwrap().health, 100_000);
}

#[test]
fn mend_all_stops_at_full_health() {
    let mut state = playing(interior(0, 0, 0, 0));
    let mut core = state.ship.grid[10][7].unwrap();
    core.health = 999_999;
    state.ship.grid[10][7] = Some(core);
    mend_all(&mut state.ship, i64::MAX);
    assert_eq!(state.ship.grid[10][7].unwrap().health, 1_000_000);
    mend_all(&mut state.ship, 0);
    assert_eq!(state.ship.grid[10][7].unwrap().health, 1_000_000);
}

#[test]
fn combat_runs_fire_flight_and_attacks() {
    let mut state = playing(interior(5, 4, 4, 0));
    let mut events = EventBus::new();
    state.enemies.push(Enemy::new(0, EnemyType::Nanoguard, Vec2::new(625_000, 360_000)));
    state.projectiles.push(Projectile {
        position: Vec2::new(0, 0),
        velocity: Vec2::new(-400_000, 0),
        damage: 1,
        active: true,
    });
    update_combat(&mut state, 10_000, &mut events);
    assert_eq!(
        events.game,
        vec![
            GameEvent::WeaponFired { x: 620_000, y: 360_000 },
            GameEvent::ModuleDamaged { x: 9, y: 7, damage: 75 },
        ]
    );
    assert_eq!(state.ship_integrity, 1_000_000 - 75);
    assert_eq!(state.enemies[0].health, 25_000);
    assert!(state.enemies[0].attacking);
    assert_eq!(state.projectiles.len(), 1);
    assert_eq!(state.projectiles[0].position, Vec2::new(-4_000, 0));
    assert_eq!(state.ship.grid[9][7].unwrap().cooldown, 1_250_000);
}

#[test]
fn the_enemies_of_a_run_move_toward_their_targets() {
    let mut state = playing(interior(5, 4, 4, 0));
    state.enemies.push(Enemy::new(0, EnemyType::Nanodrone, Vec2::new(160_000, 360_000)));
    state.enemies.push(Enemy::new(1, EnemyType::Boss, Vec2::new(640_000, -100_000)));
    update_enemies(&mut state, SECOND);
    assert_eq!(state.enemies[0].position, Vec2::new(260_000, 360_000));
    assert_eq!(state.enemies[0].target_module, Some((10, 7)));
    assert_eq!(state.enemies[1].position, Vec2::new(640_000, -80_000));
    assert_eq!(state.frame_count, 0);
}

#[test]
fn ids_stay_distinct_through_a_long_run() {
    let mut state = playing(interior(5, 4, 4, 0));
    state.interior.rooms.push(room(13, RoomType::Module(ModuleType::Core), 700_000, 20, 20));
    let mut events = EventBus::new();
    let mut seen: Vec<u64> = Vec::new();
    let mut t = 0;
    while t < 3000 && state.phase == GamePhase::Playing {
        state.update(50_000, &mut events);
        for e in state.enemies.iter() {
            assert!(e.id < state.wave_state.next_enemy_id);
            if !seen.contains(&e.id) {
                seen.push(e.id);
            }
        }
        let mut ids: Vec<u64> = state.enemies.iter().map(|e| e.id).collect();
        ids.sort();
        ids.dedup();
        assert_eq!(ids.len(), state.enemies.len());
        assert!(state.enemies.iter().filter(|e| e.enemy_type == EnemyType::Boss).count() <= 1);
        assert!(state.enemies.iter().all(|e| e.health > 0));
        assert!(state.projectiles.iter().all(|p| p.active));
        assert!(state.ship_integrity >= 0);
        events.drain_game();
        t += 1;
    }
    assert_eq!(state.total_power, 50);
    assert!(seen.len() >= 30);
    assert_eq!(state.phase, GamePhase::GameOver);
}
