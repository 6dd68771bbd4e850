//! Plain data of the playfield: enemies, projectiles and scrap piles.

use vstd::prelude::*;
use crate::simulation::constants::{
    BUCKET_SIZE, ENEMY_BOSS_DAMAGE, ENEMY_BOSS_HP, ENEMY_BOSS_SPEED, ENEMY_DRONE_DAMAGE, ENEMY_DRONE_HP, ENEMY_DRONE_SPEED, ENEMY_GUARD_DAMAGE, ENEMY_GUARD_HP, ENEMY_GUARD_SPEED, ENEMY_HIT_RADIUS_BOSS, ENEMY_HIT_RADIUS_NANODRONE, ENEMY_HIT_RADIUS_NANOGUARD, ENEMY_LEECH_DAMAGE, ENEMY_LEECH_HP, ENEMY_LEECH_SPEED, ENEMY_SIEGE_DAMAGE, ENEMY_SIEGE_HP, ENEMY_SIEGE_SPEED, LOOT_BOSS, LOOT_DRONE, LOOT_GUARD, LOOT_LEECH, LOOT_SIEGE,
};
use crate::units::{Vec2, MILLI};

verus! {

/// The archetypes of enemies. Each has its base statistics, its hit radius
/// and its loot.
#[derive(Debug, Clone, Copy, PartialEq, Eq, Structural)]
pub enum EnemyType {
    Nanodrone,
    Nanoguard,
    Leech,
    /// Slow, with much health; attacks the hull directly.
    SiegeConstruct,
    Boss,
}

impl EnemyType {
    /// Health an enemy of this archetype starts with.
    pub open spec fn base_health(self) -> i64 {
        match self {
            EnemyType::Nanodrone => ENEMY_DRONE_HP,
            EnemyType::Nanoguard => ENEMY_GUARD_HP,
            EnemyType::Leech => ENEMY_LEECH_HP,
            EnemyType::SiegeConstruct => ENEMY_SIEGE_HP,
            EnemyType::Boss => ENEMY_BOSS_HP,
        }
    }

    /// Speed of this archetype, in pixels per second.
    pub open spec fn base_speed(self) -> u32 {
        match self {
            EnemyType::Nanodrone => ENEMY_DRONE_SPEED,
            EnemyType::Nanoguard => ENEMY_GUARD_SPEED,
            EnemyType::Leech => ENEMY_LEECH_SPEED,
            EnemyType::SiegeConstruct => ENEMY_SIEGE_SPEED,
            EnemyType::Boss => ENEMY_BOSS_SPEED,
        }
    }

    /// Damage per second this archetype deals while attacking.
    pub open spec fn base_damage(self) -> i64 {
        match self {
            EnemyType::Nanodrone => ENEMY_DRONE_DAMAGE,
            EnemyType::Nanoguard => ENEMY_GUARD_DAMAGE,
            EnemyType::Leech => ENEMY_LEECH_DAMAGE,
            EnemyType::SiegeConstruct => ENEMY_SIEGE_DAMAGE,
            EnemyType::Boss => ENEMY_BOSS_DAMAGE,
        }
    }

    /// Distance within which a projectile hits this archetype.
    pub open spec fn hit_radius(self) -> i32 {
        match self {
            EnemyType::Boss => ENEMY_HIT_RADIUS_BOSS,
            EnemyType::Nanoguard | EnemyType::SiegeConstruct => ENEMY_HIT_RADIUS_NANOGUARD,
            EnemyType::Nanodrone | EnemyType::Leech => ENEMY_HIT_RADIUS_NANODRONE,
        }
    }

    /// Scrap granted for killing this archetype.
    pub open spec fn loot(self) -> i32 {
        match self {
            EnemyType::Nanodrone => LOOT_DRONE,
            EnemyType::Nanoguard => LOOT_GUARD,
            EnemyType::Leech => LOOT_LEECH,
            EnemyType::SiegeConstruct => LOOT_SIEGE,
            EnemyType::Boss => LOOT_BOSS,
        }
    }

    /// Health, speed and damage per second of this archetype.
    pub fn stats(self) -> (s: (i64, u32, i64))
        ensures
            s.0 == self.base_health(),
            s.1 == self.base_speed(),
            s.2 == self.base_damage(),
    {
        match self {
            EnemyType::Nanodrone => (ENEMY_DRONE_HP, ENEMY_DRONE_SPEED, ENEMY_DRONE_DAMAGE),
            EnemyType::Nanoguard => (ENEMY_GUARD_HP, ENEMY_GUARD_SPEED, ENEMY_GUARD_DAMAGE),
            EnemyType::Leech => (ENEMY_LEECH_HP, ENEMY_LEECH_SPEED, ENEMY_LEECH_DAMAGE),
            EnemyType::SiegeConstruct => (ENEMY_SIEGE_HP, ENEMY_SIEGE_SPEED, ENEMY_SIEGE_DAMAGE),
            EnemyType::Boss => (ENEMY_BOSS_HP, ENEMY_BOSS_SPEED, ENEMY_BOSS_DAMAGE),
        }
    }

    /// Distance within which a projectile hits this archetype.
    pub fn projectile_hit_radius(self) -> (r: i32)
        ensures
            r == self.hit_radius(),
            0 < r <= BUCKET_SIZE,
    {
        match self {
            EnemyType::Boss => ENEMY_HIT_RADIUS_BOSS,
            EnemyType::Nanoguard | EnemyType::SiegeConstruct => ENEMY_HIT_RADIUS_NANOGUARD,
            EnemyType::Nanodrone | EnemyType::Leech => ENEMY_HIT_RADIUS_NANODRONE,
        }
    }

    /// Scrap granted for killing this archetype.
    pub fn scrap_loot(self) -> (r: i32)
        ensures
            r == self.loot(),
            0 < r <= LOOT_BOSS,
    {
        match self {
            EnemyType::Nanodrone => LOOT_DRONE,
            EnemyType::Nanoguard => LOOT_GUARD,
            EnemyType::Leech => LOOT_LEECH,
            EnemyType::SiegeConstruct => LOOT_SIEGE,
            EnemyType::Boss => LOOT_BOSS,
        }
    }
}

/// An enemy on the playfield.
#[derive(Debug, Clone, Copy, PartialEq, Eq)]
pub struct Enemy {
    pub id: u64,
    pub enemy_type: EnemyType,
    pub position: Vec2,
    pub health: i64,
    pub max_health: i64,
    /// Pixels per second.
    pub speed: u32,
    /// Damage per second while attacking.
    pub damage: i64,
    /// Grid cell this enemy is heading for.
    pub target_module: Option<(usize, usize)>,
    /// Grid cell a leech has attached itself to.
    pub attached_to: Option<(usize, usize)>,
    /// Time until a boss may use its ability again.
    pub ability_timer: u64,
    /// Whether the enemy was dealing damage on the last tick.
    pub attacking: bool,
}

impl Enemy {
    /// A fresh enemy of the given archetype, with that archetype's base
    /// statistics and full health.
    pub open spec fn spawned(id: u64, enemy_type: EnemyType, position: Vec2) -> Enemy {
        Enemy {
            id,
            enemy_type,
            position,
            health: enemy_type.base_health(),
            max_health: enemy_type.base_health(),
            speed: enemy_type.base_speed(),
            damage: enemy_type.base_damage(),
            target_module: None,
            attached_to: None,
            ability_timer: 0,
            attacking: false,
        }
    }

    /// A fresh enemy of the given archetype.
    pub fn new(id: u64, enemy_type: EnemyType, position: Vec2) -> (e: Self)
        ensures
            e == Enemy::spawned(id, enemy_type, position),
    {
        let (hp, speed, damage) = enemy_type.stats();
        Enemy {
            id,
            enemy_type,
            position,
            health: hp,
            max_health: hp,
            speed,
            damage,
            target_module: None,
            attached_to: None,
            ability_timer: 0,
            attacking: false,
        }
    }

    /// Whether the enemy still has health.
    pub open spec fn alive(self) -> bool {
        self.health > 0
    }

    /// Whether the enemy still has health.
    pub fn is_alive(&self) -> (b: bool)
        ensures
            b == self.alive(),
    {
        self.health > 0
    }
}

/// A shot in flight. It hits one enemy at most.
#[derive(Debug, Clone, Copy, PartialEq, Eq)]
pub struct Projectile {
    pub position: Vec2,
    /// Thousandths of a pixel per second.
    pub velocity: Vec2,
    pub damage: i64,
    pub active: bool,
}

impl Projectile {
    /// A projectile at `position` that flies at `speed` pixels per second
    /// toward where `target` is now.
    pub open spec fn fired(position: Vec2, target: Vec2, speed: u32, damage: i64) -> Projectile {
        Projectile {
            position,
            velocity: position.aimed(target, (speed * MILLI) as nat),
            damage,
            active: true,
        }
    }

    /// A projectile that flies toward where `target` is now.
    pub fn new(position: Vec2, target: Vec2, speed: u32, damage: i64) -> (p: Self)
        ensures
            p == Projectile::fired(position, target, speed, damage),
    {
        Projectile {
            position,
            velocity: position.aim(target, speed as u64 * MILLI),
            damage,
            active: true,
        }
    }
}

/// A pile of scrap in the interior, for the player to gather.
#[derive(Debug, Clone, Copy, PartialEq, Eq)]
pub struct ScrapPile {
    pub position: Vec2,
    pub amount: i32,
    pub active: bool,
}

impl ScrapPile {
    /// An active pile.
    pub fn new(position: Vec2, amount: i32) -> (p: Self)
        ensures
            p.position == position,
            p.amount == amount,
            p.active,
    {
        ScrapPile { position, amount, active: true }
    }
}

} // verus!
