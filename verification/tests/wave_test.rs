use scrapyard_planet::economy::upgrades::GameUpgrades;
use scrapyard_planet::enemy::ai::{
    any_boss, find_priority_target, move_enemies, random_spawn_position, spawn_boss, spawn_drone,
    spawn_enemy,
    spawn_guard, spawn_position, update_wave_logic,
};
use scrapyard_planet::enemy::entities::{Enemy, EnemyType};
use scrapyard_planet::enemy::wave::{
    drone_spawn_interval, guard_spawn_interval, WavePlan, WaveState,
};
use scrapyard_planet::ship::layout::Layout;
use scrapyard_planet::ship::ship::{Module, ModuleState, ModuleType, Ship};
use scrapyard_planet::simulation::events::{EventBus, GameEvent};
use scrapyard_planet::state::game_state::EngineState;
use scrapyard_planet::units::Vec2;

const SECOND: u64 = 1_000_000;

fn nothing() -> WavePlan {
    WavePlan { boss: false, drone: false, guard: false }
}

fn on_the_perimeter(p: Vec2) -> bool {
    (p.y == -50_000 && 0 <= p.x && p.x < 1_280_000)
        || (p.x == 1_330_000 && 0 <= p.y && p.y < 720_000)
        || (p.y == 770_000 && 0 <= p.x && p.x < 1_280_000)
        || (p.x == -50_000 && 0 <= p.y && p.y < 720_000)
}

#[test]
fn a_new_wave_state_is_at_zero() {
    let w = WaveState::new();
    assert_eq!(w, WaveState { spawn_timer: 0, guard_timer: 0, next_enemy_id: 0 });
}

#[test]
fn wave_timers_advance_and_reset() {
    let mut w = WaveState::new();
    w.update(SECOND);
    w.update(500_000);
    assert_eq!(w.spawn_timer, 1_500_000);
    assert_eq!(w.guard_timer, 1_500_000);
    w.reset_spawn_timer();
    assert_eq!(w.spawn_timer, 0);
    assert_eq!(w.guard_timer, 1_500_000);
    w.reset_guard_timer();
    assert_eq!(w.guard_timer, 0);
}

#[test]
fn wave_timers_stop_at_the_largest_time() {
    let mut w = WaveState { spawn_timer: u64::MAX - 1, guard_timer: 5, next_enemy_id: 9 };
    w.update(10);
    assert_eq!(w, WaveState { spawn_timer: u64::MAX, guard_timer: 15, next_enemy_id: 9 });
}

#[test]
fn drone_intervals_by_power_tier() {
    assert_eq!(drone_spawn_interval(5, 0), 8 * SECOND);
    assert_eq!(drone_spawn_interval(10, 0), 8 * SECOND);
    assert_eq!(drone_spawn_interval(11, 0), 4 * SECOND);
    assert_eq!(drone_spawn_interval(20, 0), 4 * SECOND);
    assert_eq!(drone_spawn_interval(21, 0), 2 * SECOND);
    assert_eq!(drone_spawn_interval(39, 0), 2 * SECOND);
    assert_eq!(drone_spawn_interval(40, 0), SECOND);
    assert_eq!(drone_spawn_interval(i32::MAX, 0), SECOND);
}

#[test]
fn guard_intervals_by_power_tier() {
    assert_eq!(guard_spawn_interval(5, 0), None);
    assert_eq!(guard_spawn_interval(20, 0), None);
    assert_eq!(guard_spawn_interval(21, 0), Some(15 * SECOND));
    assert_eq!(guard_spawn_interval(39, 3), Some(6 * SECOND));
    assert_eq!(guard_spawn_interval(40, 0), Some(5 * SECOND));
}

#[test]
fn difficulty_shortens_the_intervals() {
    assert_eq!(drone_spawn_interval(10, 1), 5_333_333);
    assert_eq!(drone_spawn_interval(10, 2), 4 * SECOND);
    assert_eq!(drone_spawn_interval(10, 4), 2_666_666);
    assert_eq!(guard_spawn_interval(40, 2), Some(2_500_000));
    assert_eq!(drone_spawn_interval(40, u32::MAX), 0);
}

#[test]
fn nothing_spawns_below_the_grace_power() {
    let mut w = WaveState::new();
    let mut t = 0;
    while t < 100 {
        assert_eq!(w.plan(4, false, false, 0, SECOND), nothing());
        t += 1;
    }
    assert_eq!(w.spawn_timer, 100 * SECOND);
    assert_eq!(w.guard_timer, 100 * SECOND);
}

#[test]
fn no_drones_without_power_after_a_hundred_seconds() {
    let mut w = WaveState::new();
    let mut enemies: Vec<Enemy> = Vec::new();
    let mut events = EventBus::new();
    let upgrades = GameUpgrades::new();
    let mut t = 0;
    while t < 6000 {
        update_wave_logic(0, &EngineState::Idle, &mut enemies, &upgrades, &mut w, 16_667, &mut events);
        t += 1;
    }
    assert!(enemies.is_empty());
    assert!(events.game.is_empty());
}

#[test]
fn a_drone_spawns_when_its_timer_reaches_the_interval() {
    let mut w = WaveState::new();
    let mut t = 0;
    while t < 7 {
        assert_eq!(w.plan(10, false, false, 0, SECOND), nothing());
        t += 1;
    }
    assert_eq!(w.plan(10, false, false, 0, SECOND), WavePlan { boss: false, drone: true, guard: false });
    assert_eq!(w.spawn_timer, 0);
    assert_eq!(w.guard_timer, 8 * SECOND);
}

#[test]
fn drones_spawned_match_elapsed_time_over_interval() {
    let mut w = WaveState::new();
    let mut drones = 0;
    let mut guards = 0;
    let mut t = 0;
    while t < 100 {
        let plan = w.plan(10, false, false, 0, SECOND);
        if plan.drone {
            drones += 1;
        }
        if plan.guard {
            guards += 1;
        }
        t += 1;
    }
    assert_eq!(drones, 100 / 8);
    assert_eq!(guards, 0);
}

#[test]
fn drones_spawned_with_uneven_frames() {
    let mut w = WaveState::new();
    let mut drones: u64 = 0;
    let mut elapsed: u64 = 0;
    let frames = [16_667u64, 33_333, 8_000, 16_667, 50_000];
    let mut t = 0;
    while elapsed < 60 * SECOND {
        let dt = frames[t % frames.len()];
        if w.plan(45, false, false, 0, dt).drone {
            drones += 1;
        }
        elapsed += dt;
        t += 1;
    }
    let interval = SECOND;
    assert!(drones * interval <= elapsed);
    assert!(elapsed <= drones * (interval + 50_000) + interval);
    assert!(drones == 57 || drones == 58 || drones == 59 || drones == 60);
}

#[test]
fn one_long_frame_spawns_one_drone() {
    let mut w = WaveState::new();
    assert_eq!(
        w.plan(10, false, false, 0, 100 * SECOND),
        WavePlan { boss: false, drone: true, guard: false }
    );
    assert_eq!(w.plan(10, false, false, 0, 0), nothing());
}

#[test]
fn guards_spawn_from_the_third_tier() {
    let mut w = WaveState::new();
    let mut drones = 0;
    let mut guards = 0;
    let mut t = 0;
    while t < 60 {
        let plan = w.plan(25, false, false, 0, SECOND);
        if plan.drone {
            drones += 1;
        }
        if plan.guard {
            guards += 1;
        }
        t += 1;
    }
    assert_eq!(drones, 30);
    assert_eq!(guards, 4);
}

#[test]
fn drone_and_guard_timers_reset_independently() {
    let mut w = WaveState { spawn_timer: 0, guard_timer: 14 * SECOND, next_enemy_id: 0 };
    assert_eq!(w.plan(25, false, false, 0, SECOND), WavePlan { boss: false, drone: false, guard: true });
    assert_eq!(w.spawn_timer, SECOND);
    assert_eq!(w.guard_timer, 0);
    assert_eq!(w.plan(25, false, false, 0, SECOND), WavePlan { boss: false, drone: true, guard: false });
    assert_eq!(w.spawn_timer, 0);
    assert_eq!(w.guard_timer, SECOND);
}

#[test]
fn charging_suspends_the_waves() {
    let mut w = WaveState { spawn_timer: 100 * SECOND, guard_timer: 100 * SECOND, next_enemy_id: 3 };
    let before = w;
    assert_eq!(w.plan(50, true, false, 0, SECOND), WavePlan { boss: true, drone: false, guard: false });
    assert_eq!(w, before);
    assert_eq!(w.plan(50, true, true, 0, SECOND), nothing());
    assert_eq!(w, before);
}

#[test]
fn a_second_boss_is_not_spawned() {
    let mut w = WaveState::new();
    let mut enemies: Vec<Enemy> = Vec::new();
    let mut events = EventBus::new();
    let upgrades = GameUpgrades::new();
    let mut t = 0;
    while t < 50 {
        update_wave_logic(50, &EngineState::Charging, &mut enemies, &upgrades, &mut w, SECOND, &mut events);
        t += 1;
    }
    assert_eq!(enemies.len(), 1);
    assert_eq!(enemies[0].enemy_type, EnemyType::Boss);
    assert_eq!(enemies[0].position, Vec2::new(640_000, -100_000));
    assert_eq!(enemies[0].health, 1_000_000);
    assert_eq!(events.game, vec![GameEvent::EngineActivated]);
    assert_eq!(w.spawn_timer, 0);
}

#[test]
fn the_targeting_upgrade_speeds_up_the_waves() {
    let mut w = WaveState::new();
    let mut enemies: Vec<Enemy> = Vec::new();
    let mut events = EventBus::new();
    let mut upgrades = GameUpgrades::new();
    upgrades.set_level("targeting_tier", 2);
    let mut t = 0;
    while t < 8 {
        update_wave_logic(10, &EngineState::Idle, &mut enemies, &upgrades, &mut w, SECOND, &mut events);
        t += 1;
    }
    assert_eq!(enemies.len(), 2);
    assert!(enemies.iter().all(|e| e.enemy_type == EnemyType::Nanodrone));
}

#[test]
fn spawned_enemies_get_rising_ids_and_start_outside() {
    let mut w = WaveState::new();
    let mut enemies: Vec<Enemy> = Vec::new();
    let mut events = EventBus::new();
    let upgrades = GameUpgrades::new();
    let mut t = 0;
    while t < 120 {
        update_wave_logic(45, &EngineState::Idle, &mut enemies, &upgrades, &mut w, SECOND, &mut events);
        t += 1;
    }
    assert_eq!(enemies.len(), 120 + 24);
    let mut i = 0;
    while i < enemies.len() {
        assert_eq!(enemies[i].id, i as u64);
        assert!(on_the_perimeter(enemies[i].position));
        i += 1;
    }
    assert_eq!(w.next_enemy_id, 144);
    assert!(events.game.is_empty());
}

#[test]
fn random_spawn_positions_lie_just_outside_the_playfield() {
    macroquad::rand::srand(7);
    let mut sides = [false; 4];
    let mut i = 0;
    while i < 2000 {
        let p = random_spawn_position();
        assert!(on_the_perimeter(p));
        if p.y == -50_000 {
            sides[0] = true;
        } else if p.x == 1_330_000 {
            sides[1] = true;
        } else if p.y == 770_000 {
            sides[2] = true;
        } else {
            sides[3] = true;
        }
        i += 1;
    }
    assert_eq!(sides, [true, true, true, true]);
}

#[test]
fn spawn_positions_by_side() {
    assert_eq!(spawn_position(0, 5), Vec2::new(5, -50_000));
    assert_eq!(spawn_position(1, 5), Vec2::new(1_330_000, 5));
    assert_eq!(spawn_position(2, 5), Vec2::new(5, 770_000));
    assert_eq!(spawn_position(3, 5), Vec2::new(-50_000, 5));
    assert_eq!(spawn_position(-1, 5), Vec2::new(-50_000, 5));
}

#[test]
fn spawn_functions_push_one_enemy_each() {
    let mut w = WaveState::new();
    let mut enemies: Vec<Enemy> = Vec::new();
    let mut events = EventBus::new();
    let at = spawn_drone(&mut enemies, &mut w);
    assert_eq!(enemies[0], Enemy::new(0, EnemyType::Nanodrone, at));
    let at = spawn_guard(&mut enemies, &mut w);
    assert_eq!(enemies[1], Enemy::new(1, EnemyType::Nanoguard, at));
    assert!(spawn_boss(&mut enemies, &mut w, &mut events));
    assert_eq!(enemies[2], Enemy::new(2, EnemyType::Boss, Vec2::new(640_000, -100_000)));
    assert!(spawn_enemy(&mut enemies, &mut w, EnemyType::Leech, Vec2::new(1, 2)));
    assert_eq!(enemies[3], Enemy::new(3, EnemyType::Leech, Vec2::new(1, 2)));
    assert_eq!(w.next_enemy_id, 4);
    assert_eq!(events.game, vec![GameEvent::EngineActivated]);
    assert!(any_boss(&enemies));
}

#[test]
fn nothing_spawns_once_the_ids_have_run_out() {
    let mut w = WaveState { spawn_timer: 0, guard_timer: 0, next_enemy_id: u64::MAX };
    let mut enemies: Vec<Enemy> = Vec::new();
    let mut events = EventBus::new();
    assert!(!spawn_enemy(&mut enemies, &mut w, EnemyType::Nanodrone, Vec2::new(0, 0)));
    assert!(!spawn_boss(&mut enemies, &mut w, &mut events));
    assert!(enemies.is_empty());
    assert!(events.game.is_empty());
    assert_eq!(w.next_enemy_id, u64::MAX);
}

#[test]
fn base_statistics_by_archetype() {
    assert_eq!(EnemyType::Nanodrone.stats(), (10_000, 100, 5_000));
    assert_eq!(EnemyType::Nanoguard.stats(), (50_000, 40, 15_000));
    assert_eq!(EnemyType::Leech.stats(), (30_000, 60, 2_000));
    assert_eq!(EnemyType::SiegeConstruct.stats(), (200_000, 15, 30_000));
    assert_eq!(EnemyType::Boss.stats(), (1_000_000, 20, 50_000));
    assert_eq!(EnemyType::Nanodrone.projectile_hit_radius(), 10_000);
    assert_eq!(EnemyType::Leech.projectile_hit_radius(), 10_000);
    assert_eq!(EnemyType::Nanoguard.projectile_hit_radius(), 15_000);
    assert_eq!(EnemyType::SiegeConstruct.projectile_hit_radius(), 15_000);
    assert_eq!(EnemyType::Boss.projectile_hit_radius(), 40_000);
    assert_eq!(EnemyType::Nanodrone.scrap_loot(), 3);
    assert_eq!(EnemyType::Nanoguard.scrap_loot(), 10);
    assert_eq!(EnemyType::Leech.scrap_loot(), 5);
    assert_eq!(EnemyType::SiegeConstruct.scrap_loot(), 25);
    assert_eq!(EnemyType::Boss.scrap_loot(), 100);
}

#[test]
fn a_new_enemy_has_its_archetypes_statistics() {
    let e = Enemy::new(42, EnemyType::Nanoguard, Vec2::new(1, 2));
    assert_eq!(e.id, 42);
    assert_eq!(e.position, Vec2::new(1, 2));
    assert_eq!(e.health, 50_000);
    assert_eq!(e.max_health, 50_000);
    assert_eq!(e.speed, 40);
    assert_eq!(e.damage, 15_000);
    assert_eq!(e.target_module, None);
    assert_eq!(e.attached_to, None);
    assert_eq!(e.ability_timer, 0);
    assert!(!e.attacking);
    assert!(e.is_alive());
}

#[test]
fn drones_head_for_the_core() {
    let ship = Ship::new(20, 15);
    let layout = Layout::new(1_280_000, 720_000);
    let mut enemies = vec![Enemy::new(0, EnemyType::Nanodrone, Vec2::new(160_000, 360_000))];
    move_enemies(&mut enemies, &ship, &layout, SECOND);
    assert_eq!(enemies[0].position, Vec2::new(260_000, 360_000));
    assert_eq!(enemies[0].target_module, Some((10, 7)));
    move_enemies(&mut enemies, &ship, &layout, 16_667);
    assert_eq!(enemies[0].position, Vec2::new(261_666, 360_000));
}

#[test]
fn guards_head_for_the_first_active_weapon_or_shield() {
    let mut ship = Ship::new(20, 15);
    let layout = Layout::new(1_280_000, 720_000);
    assert_eq!(find_priority_target(&ship), Some((9, 7)));
    let mut enemies = vec![Enemy::new(0, EnemyType::Nanoguard, Vec2::new(620_000, 0))];
    move_enemies(&mut enemies, &ship, &layout, SECOND);
    assert_eq!(enemies[0].position, Vec2::new(620_000, 40_000));
    assert_eq!(enemies[0].target_module, Some((9, 7)));

    let mut shield = Module::new(ModuleType::Defense);
    shield.state = ModuleState::Active;
    ship.grid[2][3] = Some(shield);
    assert_eq!(find_priority_target(&ship), Some((2, 3)));
}

#[test]
fn guards_fall_back_to_the_core() {
    let mut ship = Ship::new(20, 15);
    ship.grid[9][7] = None;
    ship.grid[11][7] = None;
    let layout = Layout::new(1_280_000, 720_000);
    assert_eq!(find_priority_target(&ship), None);
    let mut enemies = vec![Enemy::new(0, EnemyType::Nanoguard, Vec2::new(660_000, 0))];
    move_enemies(&mut enemies, &ship, &layout, SECOND);
    assert_eq!(enemies[0].position, Vec2::new(660_000, 40_000));
    assert_eq!(enemies[0].target_module, Some((10, 7)));
}

#[test]
fn offline_and_destroyed_modules_are_no_priority() {
    let mut ship = Ship::new(20, 15);
    let mut weapon = ship.grid[9][7].unwrap();
    weapon.state = ModuleState::Offline;
    ship.grid[9][7] = Some(weapon);
    assert_eq!(find_priority_target(&ship), Some((11, 7)));
}

#[test]
fn bosses_head_for_the_middle_of_the_playfield() {
    let ship = Ship::new(20, 15);
    let layout = Layout::new(1_280_000, 720_000);
    let mut enemies = vec![Enemy::new(0, EnemyType::Boss, Vec2::new(640_000, -100_000))];
    move_enemies(&mut enemies, &ship, &layout, SECOND);
    assert_eq!(enemies[0].position, Vec2::new(640_000, -80_000));
    assert_eq!(enemies[0].target_module, Some((10, 7)));
}

#[test]
fn leeches_and_siege_constructs_rush_the_core() {
    let ship = Ship::new(20, 15);
    let layout = Layout::new(1_280_000, 720_000);
    let mut enemies = vec![
        Enemy::new(0, EnemyType::Leech, Vec2::new(660_000, 0)),
        Enemy::new(1, EnemyType::SiegeConstruct, Vec2::new(0, 360_000)),
    ];
    move_enemies(&mut enemies, &ship, &layout, SECOND);
    assert_eq!(enemies[0].position, Vec2::new(660_000, 60_000));
    assert_eq!(enemies[1].position, Vec2::new(15_000, 360_000));
}

#[test]
fn an_enemy_on_its_target_does_not_move() {
    let ship = Ship::new(20, 15);
    let layout = Layout::new(1_280_000, 720_000);
    let mut enemies = vec![Enemy::new(0, EnemyType::Nanodrone, Vec2::new(660_000, 360_000))];
    move_enemies(&mut enemies, &ship, &layout, SECOND);
    assert_eq!(enemies[0].position, Vec2::new(660_000, 360_000));
}

#[test]
fn without_a_core_enemies_head_for_the_middle_of_the_screen() {
    let mut ship = Ship::new(20, 15);
    ship.grid[10][7] = None;
    let layout = Layout::new(1_000_000, 500_000);
    let mut enemies = vec![Enemy::new(0, EnemyType::Nanodrone, Vec2::new(0, 250_000))];
    move_enemies(&mut enemies, &ship, &layout, SECOND);
    assert_eq!(enemies[0].position, Vec2::new(100_000, 250_000));
    assert_eq!(enemies[0].target_module, None);
}
