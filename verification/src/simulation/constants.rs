//! The numbers of the game, in the fixed units of [`crate::units`].

use vstd::prelude::*;

verus! {

// Module grid, in cells, and playfield, in thousandths of a pixel
pub const GRID_WIDTH: usize = 20;

pub const GRID_HEIGHT: usize = 15;

pub const CELL_SIZE: i32 = 40_000;

/// Width of the whole grid on screen: `GRID_WIDTH` cells.
pub const GRID_SPAN_X: i32 = 800_000;

/// Height of the whole grid on screen: `GRID_HEIGHT` cells.
pub const GRID_SPAN_Y: i32 = 600_000;

pub const SCREEN_WIDTH: i32 = 1_280_000;

pub const SCREEN_HEIGHT: i32 = 720_000;

// Scrap piles: how many, how much scrap, how far from a room's walls
pub const MIN_SCRAP_PILES: usize = 8;

pub const MAX_SCRAP_PILES: usize = 12;

pub const SCRAP_PILE_MIN_AMOUNT: i32 = 15;

pub const SCRAP_PILE_MAX_AMOUNT: i32 = 40;

pub const SCRAP_SPAWN_PADDING: i32 = 20_000;

// Spawning
/// Distance outside the playfield edge at which drones and guards appear.
pub const SPAWN_MARGIN: i32 = 50_000;

/// Distance above the playfield at which a boss appears.
pub const BOSS_SPAWN_MARGIN: i32 = 100_000;

// Combat: ranges and radii in thousandths of a pixel
pub const ENEMY_ATTACK_RANGE: i32 = 30_000;

pub const ENEMY_HIT_RADIUS_NANODRONE: i32 = 10_000;

pub const ENEMY_HIT_RADIUS_NANOGUARD: i32 = 15_000;

pub const ENEMY_HIT_RADIUS_BOSS: i32 = 40_000;

/// Speed of every projectile, in pixels per second.
pub const PROJECTILE_SPEED: u32 = 400;

/// Margin around the playfield past which a projectile is dropped.
pub const PROJECTILE_BOUNDS_MARGIN: i32 = 100_000;

/// Edge of a collision bucket; no hit radius is larger.
pub const BUCKET_SIZE: i32 = 100_000;

/// Fire rate, in millionths of a shot per second, at or below which a
/// weapon falls back to `FALLBACK_COOLDOWN`.
pub const MIN_FIRE_RATE: u64 = 1000;

/// Microseconds between two shots of a weapon that fires a millionth of a
/// shot per second.
pub const SHOT_TIME_AT_UNIT_RATE: u64 = 1_000_000_000_000;

/// Cooldown of a weapon whose fire rate is next to nothing.
pub const FALLBACK_COOLDOWN: u64 = 10_000_000;

/// Bonus to fire rate and damage for each module level above the first, in
/// thousandths.
pub const LEVEL_BONUS: u64 = 100;

/// Share of incoming damage that one fully repaired shield room takes off,
/// in millionths.
pub const SHIELD_REDUCTION_PER_ROOM: u64 = 500_000;

/// Most that all shields together take off incoming damage, in millionths.
pub const SHIELD_REDUCTION_CAP: u64 = 800_000;

// Enemy statistics: health in thousandths of a hit point, speed in pixels
// per second, damage in thousandths of a hit point per second
pub const ENEMY_DRONE_HP: i64 = 10_000;

pub const ENEMY_DRONE_SPEED: u32 = 100;

pub const ENEMY_DRONE_DAMAGE: i64 = 5_000;

pub const ENEMY_GUARD_HP: i64 = 50_000;

pub const ENEMY_GUARD_SPEED: u32 = 40;

pub const ENEMY_GUARD_DAMAGE: i64 = 15_000;

pub const ENEMY_LEECH_HP: i64 = 30_000;

pub const ENEMY_LEECH_SPEED: u32 = 60;

pub const ENEMY_LEECH_DAMAGE: i64 = 2_000;

pub const ENEMY_LEECH_POWER_DRAIN: i32 = 1;

pub const ENEMY_SIEGE_HP: i64 = 200_000;

pub const ENEMY_SIEGE_SPEED: u32 = 15;

pub const ENEMY_SIEGE_DAMAGE: i64 = 30_000;

pub const ENEMY_BOSS_HP: i64 = 1_000_000;

pub const ENEMY_BOSS_SPEED: u32 = 20;

pub const ENEMY_BOSS_DAMAGE: i64 = 50_000;

pub const BOSS_ABILITY_COOLDOWN: u64 = 8_000_000;

pub const BOSS_SPLIT_COUNT: usize = 3;

// Loot, in scrap
pub const LOOT_DRONE: i32 = 3;

pub const LOOT_GUARD: i32 = 10;

pub const LOOT_LEECH: i32 = 5;

pub const LOOT_SIEGE: i32 = 25;

pub const LOOT_BOSS: i32 = 100;

// Wave tiers by total power, and spawn intervals in microseconds
pub const WAVE_GRACE_POWER: i32 = 5;

pub const WAVE_T1_POWER: i32 = 11;

pub const WAVE_T2_POWER: i32 = 21;

pub const WAVE_T3_POWER: i32 = 40;

pub const SPAWN_INTERVAL_DRONE_T0: u64 = 8_000_000;

pub const SPAWN_INTERVAL_DRONE_T1: u64 = 4_000_000;

pub const SPAWN_INTERVAL_DRONE_T2: u64 = 2_000_000;

pub const SPAWN_INTERVAL_DRONE_T3: u64 = 1_000_000;

pub const SPAWN_INTERVAL_GUARD_T2: u64 = 15_000_000;

pub const SPAWN_INTERVAL_GUARD_T3: u64 = 5_000_000;

// Power generated or consumed per repaired point
pub const POWER_PER_CORE_POINT: i32 = 2;

pub const POWER_COST_WEAPON: i32 = 1;

pub const POWER_COST_DEFENSE: i32 = 1;

pub const POWER_COST_UTILITY: i32 = 1;

pub const POWER_COST_ENGINE: i32 = 2;

pub const POWER_COST_COCKPIT: i32 = 1;

pub const POWER_COST_MEDBAY: i32 = 1;

// Economy
pub const BASE_ESCAPE_CREDITS: i32 = 500;

/// Credit bonus per upgrade level, in thousandths.
pub const CREDIT_BONUS_PER_LEVEL: u64 = 250;

/// Scrap bonus per upgrade level, in thousandths.
pub const SCRAP_EFFICIENCY_BONUS: u64 = 200;

pub const REPAIR_SCRAP_COST: i32 = 10;

pub const MODULE_MAX_LEVEL: u8 = 5;

/// Factor on a module's maximum health at each upgrade, in thousandths.
pub const MODULE_UPGRADE_HP_MULTIPLIER: u64 = 1500;

pub const HULL_UPGRADE_BONUS: i64 = 250_000;

pub const SHIP_BASE_INTEGRITY: i64 = 1_000_000;

// Interaction: reach in thousandths of a pixel, time in microseconds
pub const INTERACTION_RANGE: i32 = 40_000;

pub const GATHERING_TIME: u64 = 2_000_000;

// Repair robots: health mended per level and visit, time between visits
pub const NANO_REPAIR_RATE_PER_LEVEL: i64 = 2_000;

pub const NANO_REPAIR_INTERVAL: u64 = 2_000_000;

// Engine: charging time in microseconds
pub const ENGINE_CHARGE_BASE_TIME: u64 = 60_000_000;

/// Least repaired fraction of the engine room that sustains charging, in
/// thousandths.
pub const ENGINE_MIN_REPAIR: u64 = 250;

/// Microseconds put back on the escape timer per microsecond of cascade.
pub const CHARGE_REVERSAL_FACTOR: u64 = 5;

// Engine stress, in millionths, and nanite alert, in millionths
pub const STRESS_THRESHOLD_STRAINED: u64 = 11_000_000;

pub const STRESS_THRESHOLD_UNSTABLE: u64 = 31_000_000;

pub const STRESS_THRESHOLD_CRITICAL: u64 = 61_000_000;

/// Stress lost per microsecond of idling.
pub const STRESS_DECAY_IDLE: u64 = 2;

pub const NANITE_ALERT_BASE: u64 = 10_000_000;

/// Microseconds it takes the alert to grow by one millionth.
pub const NANITE_ALERT_GROWTH_PERIOD: u64 = 10;

pub const NANITE_ALERT_BOSS_SPIKE: u64 = 8_000_000;

pub const CASCADE_DAMAGE_PER_SEC: i64 = 5_000;

} // verus!
