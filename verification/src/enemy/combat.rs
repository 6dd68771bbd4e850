//! Combat: weapons fire, projectiles fly and hit, enemies attack the ship.

use vstd::prelude::*;
use crate::economy::resources::Resources;
use crate::enemy::entities::{Enemy, Projectile};
use crate::enemy::spatial::{
    bucket_list, buckets_cover, build_buckets, find_hit, hit_index, key_of, lemma_hit_exists,
    listed,
};
use crate::ship::interior::{Room, RoomType};
use crate::ship::layout::Layout;
use crate::ship::ship::{cell_in, with_cell, Module, ModuleType, Ship};
use crate::simulation::constants::{
    ENEMY_ATTACK_RANGE, FALLBACK_COOLDOWN, GRID_HEIGHT, GRID_WIDTH, LEVEL_BONUS, MIN_FIRE_RATE,
    PROJECTILE_BOUNDS_MARGIN, PROJECTILE_SPEED, SHIELD_REDUCTION_CAP, SHIELD_REDUCTION_PER_ROOM,
    SHOT_TIME_AT_UNIT_RATE,
};
use crate::simulation::events::{EventBus, GameEvent};
use crate::simulation::gameplay::ModuleStats;
use crate::state::engine::minus;
use crate::state::game_state::GameState;
use crate::state::game_update::{attack_phase, combat_phase, fire_phase, projectile_phase};
use crate::units::{
    clamp_i32, clamp_i64, clamp_to_i64, div_toward_zero, divide_toward_zero, Vec2,
    MICROS_PER_SECOND, MILLI,
};

verus! {

/// Whether enemy `i` is alive and strictly closer to `pos` than `range`.
pub open spec fn in_reach(enemies: Seq<Enemy>, pos: Vec2, range: int, i: int) -> bool {
    &&& 0 <= i < enemies.len()
    &&& enemies[i].alive()
    &&& pos.within(enemies[i].position, range)
}

/// Whether enemy `i` is the nearest to `pos` among the living enemies
/// within `range`, and the first of those that are equally near.
pub open spec fn is_nearest(enemies: Seq<Enemy>, pos: Vec2, range: int, i: int) -> bool {
    &&& in_reach(enemies, pos, range, i)
    &&& forall|j: int| #[trigger]
        in_reach(enemies, pos, range, j) ==> {
            ||| pos.dist_sq(enemies[i].position) < pos.dist_sq(enemies[j].position)
            ||| (pos.dist_sq(enemies[i].position) == pos.dist_sq(enemies[j].position) && i <= j)
        }
}

/// The nearest living enemy within `range` of `pos`; `None` if no living
/// enemy is that close.
pub open spec fn nearest_index(enemies: Seq<Enemy>, pos: Vec2, range: int) -> Option<int> {
    if exists|i: int| is_nearest(enemies, pos, range, i) {
        Some(choose|i: int| is_nearest(enemies, pos, range, i))
    } else {
        None
    }
}

/// Two nearest enemies are one.
pub proof fn lemma_nearest_unique(enemies: Seq<Enemy>, pos: Vec2, range: int, i: int, j: int)
    requires
        is_nearest(enemies, pos, range, i),
        is_nearest(enemies, pos, range, j),
    ensures
        i == j,
{
    assert(in_reach(enemies, pos, range, i));
    assert(in_reach(enemies, pos, range, j));
}

/// The nearest living enemy within `range` of `pos`.
pub fn nearest_enemy_index(enemies: &Vec<Enemy>, pos: Vec2, range: u32) -> (found: Option<usize>)
    ensures
        match found {
            Some(i) => nearest_index(enemies@, pos, range as int) == Some(i as int),
            None => nearest_index(enemies@, pos, range as int).is_none(),
        },
        match found {
            Some(i) => is_nearest(enemies@, pos, range as int, i as int),
            None => forall|j: int| !#[trigger] in_reach(enemies@, pos, range as int, j),
        },
{
    let r: u128 = range as u128;
    assert(r * r <= 0x1_0000_0000 * 0x1_0000_0000) by (nonlinear_arith)
        requires
            r <= 0x1_0000_0000,
    ;
    let mut best: Option<usize> = None;
    let mut best_sq: u128 = r * r;
    let mut k: usize = 0;
    while k < enemies.len()
        invariant
            k <= enemies@.len(),
            r == range,
            best_sq <= r * r,
            match best {
                Some(i) => {
                    &&& i < k
                    &&& in_reach(enemies@, pos, range as int, i as int)
                    &&& best_sq == pos.dist_sq(enemies@[i as int].position)
                },
                None => best_sq == r * r,
            },
            forall|j: int|
                0 <= j < k && #[trigger] in_reach(enemies@, pos, range as int, j) ==> {
                    &&& best.is_some()
                    &&& (best_sq < pos.dist_sq(enemies@[j].position) || (best_sq == pos.dist_sq(
                        enemies@[j].position,
                    ) && best.unwrap() <= j))
                },
        decreases enemies@.len() - k,
    {
        let enemy = &enemies[k];
        if enemy.health > 0 {
            let d = pos.distance_squared(enemy.position);
            if d < best_sq {
                assert(r > 0) by (nonlinear_arith)
                    requires
                        r >= 0,
                        d < r * r,
                        d >= 0,
                ;
                best_sq = d;
                best = Some(k);
            }
        }
        k += 1;
    }
    proof {
        match best {
            Some(i) => {
                assert(is_nearest(enemies@, pos, range as int, i as int));
                let c = choose|c: int| is_nearest(enemies@, pos, range as int, c);
                lemma_nearest_unique(enemies@, pos, range as int, i as int, c);
            },
            None => {
                assert forall|c: int| !is_nearest(enemies@, pos, range as int, c) by {
                    if is_nearest(enemies@, pos, range as int, c) {
                        assert(in_reach(enemies@, pos, range as int, c));
                    }
                }
            },
        }
    }
    best
}

/// Where the nearest living enemy within `range` of `pos` stands.
pub fn find_nearest_enemy(enemies: &Vec<Enemy>, pos: Vec2, range: u32) -> (found: Option<Vec2>)
    ensures
        found == match nearest_index(enemies@, pos, range as int) {
            Some(i) => Some(enemies@[i].position),
            None => None,
        },
{
    match nearest_enemy_index(enemies, pos, range) {
        Some(i) => Some(enemies[i].position),
        None => None,
    }
}

/// What a weapon does at its room's state of repair and its module's
/// level.
#[derive(Debug, Clone, Copy, PartialEq, Eq, Structural)]
pub struct WeaponEffect {
    /// Shots per second, in millionths.
    pub fire_rate: u64,
    /// Damage of one shot.
    pub damage: i64,
    /// Reach, in thousandths of a pixel.
    pub range: u32,
}

/// Factor on fire rate and damage at a module level, in thousandths: one
/// whole, and `LEVEL_BONUS` more for each level above the first.
pub open spec fn level_factor(level: u8) -> nat {
    if level > 1 {
        (MILLI + LEVEL_BONUS * (level - 1)) as nat
    } else {
        MILLI as nat
    }
}

/// What a weapon with the base statistics `stats` does in a room with
/// `repaired` of `total` points repaired, at module level `level`: fire
/// rate and damage in proportion to the repaired fraction and raised by the
/// level, reach from half its base in an unrepaired room to all of it in a
/// fully repaired one.
pub open spec fn weapon_effect(stats: ModuleStats, repaired: nat, total: nat, level: u8) -> WeaponEffect {
    WeaponEffect {
        fire_rate: (stats.fire_rate * repaired * level_factor(level) / (total as int)) as u64,
        damage: (stats.damage * repaired * level_factor(level) / ((total * MILLI) as int)) as i64,
        range: (stats.range * (total + repaired) / ((2 * total) as int)) as u32,
    }
}

/// Time a weapon waits after a shot at the given fire rate, in millionths
/// of a shot per second: the time of one shot, or `FALLBACK_COOLDOWN` for a
/// rate of `MIN_FIRE_RATE` or less.
pub open spec fn cooldown_for(fire_rate: u64) -> u64 {
    if fire_rate > MIN_FIRE_RATE {
        (SHOT_TIME_AT_UNIT_RATE as int / (fire_rate as int)) as u64
    } else {
        FALLBACK_COOLDOWN
    }
}

/// Factor on fire rate and damage at a module level.
pub fn module_level_factor(level: u8) -> (f: u64)
    ensures
        f == level_factor(level),
        1000 <= f <= 26_400,
{
    if level > 1 {
        MILLI + LEVEL_BONUS * ((level - 1) as u64)
    } else {
        MILLI
    }
}

/// What a weapon does at its room's state of repair and its module's
/// level.
pub fn effective_weapon(stats: &ModuleStats, repaired: usize, total: usize, level: u8) -> (e:
    WeaponEffect)
    requires
        0 < total,
        repaired <= total,
    ensures
        e == weapon_effect(*stats, repaired as nat, total as nat, level),
{
    let factor = module_level_factor(level) as u128;
    let rep = repaired as u128;
    let tot = total as u128;
    let rate = stats.fire_rate as u128;
    let dmg = stats.damage as u128;
    let range = stats.range as u128;
    assert(rate * rep <= 0x1_0000_0000 * 0x1_0000_0000_0000_0000 && dmg * rep <= 0x1_0000_0000
        * 0x1_0000_0000_0000_0000) by (nonlinear_arith)
        requires
            rate <= 0x1_0000_0000,
            dmg <= 0x1_0000_0000,
            rep <= 0x1_0000_0000_0000_0000,
    ;
    assert(rate * rep * factor <= 0x1_0000_0000 * 0x1_0000_0000_0000_0000 * 26_400 && dmg * rep
        * factor <= 0x1_0000_0000 * 0x1_0000_0000_0000_0000 * 26_400) by (nonlinear_arith)
        requires
            rate * rep <= 0x1_0000_0000 * 0x1_0000_0000_0000_0000,
            dmg * rep <= 0x1_0000_0000 * 0x1_0000_0000_0000_0000,
            factor <= 26_400,
    ;
    assert(rate * rep * factor / (tot as int) <= rate * factor) by (nonlinear_arith)
        requires
            0 <= rep <= tot,
            tot > 0,
            rate >= 0,
            factor >= 0,
    ;
    assert(rate * factor <= 0x1_0000_0000 * 26_400 && dmg * factor <= 0x1_0000_0000 * 26_400)
        by (nonlinear_arith)
        requires
            rate <= 0x1_0000_0000,
            dmg <= 0x1_0000_0000,
            factor <= 26_400,
    ;
    assert(tot * 1000 <= 0x1_0000_0000_0000_0000 * 1000 && tot * 1000 > 0) by (nonlinear_arith)
        requires
            0 < tot <= 0x1_0000_0000_0000_0000,
    ;
    assert(dmg * rep * factor / ((tot * 1000) as int) <= dmg * factor) by (nonlinear_arith)
        requires
            0 <= rep <= tot,
            tot > 0,
            dmg >= 0,
            factor >= 0,
    ;
    assert(range * (tot + rep) <= 0x1_0000_0000 * 0x2_0000_0000_0000_0000) by (nonlinear_arith)
        requires
            range <= 0x1_0000_0000,
            tot + rep <= 0x2_0000_0000_0000_0000,
    ;
    assert(range * (tot + rep) / ((2 * tot) as int) <= range) by (nonlinear_arith)
        requires
            0 <= rep <= tot,
            tot > 0,
            range >= 0,
    ;
    WeaponEffect {
        fire_rate: (rate * rep * factor / tot) as u64,
        damage: (dmg * rep * factor / (tot * 1000)) as i64,
        range: (range * (tot + rep) / (2 * tot)) as u32,
    }
}

/// Time a weapon waits after a shot at the given fire rate.
pub fn weapon_cooldown(fire_rate: u64) -> (c: u64)
    ensures
        c == cooldown_for(fire_rate),
{
    if fire_rate > MIN_FIRE_RATE {
        SHOT_TIME_AT_UNIT_RATE / fire_rate
    } else {
        FALLBACK_COOLDOWN
    }
}

/// What the fire phase changes: the module grid, whose weapons cool down,
/// the projectiles in flight and the game events.
#[verifier::ext_equal]
pub struct FireModel {
    pub cells: Seq<Seq<Option<Module>>>,
    pub projectiles: Seq<Projectile>,
    pub events: Seq<GameEvent>,
}

/// The grid slot of the module a room operates as a weapon: that of a
/// weapon room with at least one repaired point.
pub open spec fn operated_slot(room: Room) -> Option<(usize, usize)> {
    if room.room_type == RoomType::Module(ModuleType::Weapon) && room.repaired() > 0 {
        room.module_index
    } else {
        None
    }
}

/// The fire phase for one room.
///
/// A room that operates a module of the grid cools it down by `dt`. With
/// the cooldown at zero the weapon looks for the nearest living enemy
/// within its effective reach of its place on screen. If there is one, it
/// fires a projectile at where that enemy stands now, reports
/// `WeaponFired`, and waits for the time its effective fire rate sets;
/// if there is none, it stays ready.
pub open spec fn fire_room(
    m: FireModel,
    room: Room,
    enemies: Seq<Enemy>,
    layout: Layout,
    stats: ModuleStats,
    dt: u64,
) -> FireModel {
    match operated_slot(room) {
        None => m,
        Some((gx, gy)) => match cell_in(m.cells, gx as int, gy as int) {
            None => m,
            Some(module) => {
                let cooled = minus(module.cooldown as nat, dt as nat) as u64;
                let tower = layout.cell_center(gx as int, gy as int);
                let effect = weapon_effect(stats, room.repaired(), room.total(), module.level);
                let target = nearest_index(enemies, tower, effect.range as int);
                if cooled == 0 && target.is_some() {
                    FireModel {
                        cells: with_cell(
                            m.cells,
                            gx as int,
                            gy as int,
                            Module { cooldown: cooldown_for(effect.fire_rate), ..module },
                        ),
                        projectiles: m.projectiles.push(
                            Projectile::fired(
                                tower,
                                enemies[target.unwrap()].position,
                                PROJECTILE_SPEED,
                                effect.damage,
                            ),
                        ),
                        events: m.events.push(GameEvent::WeaponFired { x: tower.x, y: tower.y }),
                    }
                } else {
                    FireModel {
                        cells: with_cell(
                            m.cells,
                            gx as int,
                            gy as int,
                            Module { cooldown: cooled, ..module },
                        ),
                        ..m
                    }
                }
            },
        },
    }
}

/// The fire phase for `rooms`, one after the other.
pub open spec fn fire_rooms(
    m: FireModel,
    rooms: Seq<Room>,
    enemies: Seq<Enemy>,
    layout: Layout,
    stats: ModuleStats,
    dt: u64,
) -> FireModel
    decreases rooms.len(),
{
    if rooms.len() == 0 {
        m
    } else {
        fire_room(
            fire_rooms(m, rooms.drop_last(), enemies, layout, stats, dt),
            rooms.last(),
            enemies,
            layout,
            stats,
            dt,
        )
    }
}

/// The fire phase: every operated weapon cools down, and those that are
/// ready and have an enemy in reach fire. `stats` are the base statistics
/// of a weapon.
pub fn fire_towers(
    rooms: &Vec<Room>,
    ship: &mut Ship,
    enemies: &Vec<Enemy>,
    projectiles: &mut Vec<Projectile>,
    layout: &Layout,
    stats: &ModuleStats,
    dt: u64,
    events: &mut EventBus,
)
    ensures
        (FireModel {
            cells: final(ship).cells(),
            projectiles: final(projectiles)@,
            events: final(events).game@,
        }) == fire_rooms(
            FireModel {
                cells: old(ship).cells(),
                projectiles: old(projectiles)@,
                events: old(events).game@,
            },
            rooms@,
            enemies@,
            *layout,
            *stats,
            dt,
        ),
        final(events).ui@ == old(events).ui@,
{
    let ghost start = FireModel {
        cells: ship.cells(),
        projectiles: projectiles@,
        events: events.game@,
    };
    let mut i: usize = 0;
    while i < rooms.len()
        invariant
            i <= rooms@.len(),
            events.ui@ == old(events).ui@,
            (FireModel { cells: ship.cells(), projectiles: projectiles@, events: events.game@ })
                == fire_rooms(start, rooms@.take(i as int), enemies@, *layout, *stats, dt),
        decreases rooms@.len() - i,
    {
        let room = &rooms[i];
        let ghost before = FireModel {
            cells: ship.cells(),
            projectiles: projectiles@,
            events: events.game@,
        };
        proof {
            assert(rooms@.take(i + 1).drop_last() =~= rooms@.take(i as int));
            assert(rooms@.take(i + 1).last() == rooms@[i as int]);
        }
        if room.room_type == RoomType::Module(ModuleType::Weapon) {
            let repaired = room.repaired_count();
            if repaired > 0 {
                if let Some((gx, gy)) = room.module_index {
                    if gx < ship.grid.len() && gy < ship.grid[gx].len() {
                        if let Some(module) = ship.grid[gx][gy] {
                            let mut m = module;
                            m.cooldown = m.cooldown.saturating_sub(dt);
                            if m.cooldown == 0 {
                                let tower = layout.grid_to_screen_center(gx, gy);
                                let effect = effective_weapon(
                                    stats,
                                    repaired,
                                    room.repair_points.len(),
                                    m.level,
                                );
                                if let Some(target) = find_nearest_enemy(
                                    enemies,
                                    tower,
                                    effect.range,
                                ) {
                                    projectiles.push(
                                        Projectile::new(
                                            tower,
                                            target,
                                            PROJECTILE_SPEED,
                                            effect.damage,
                                        ),
                                    );
                                    events.push_game(
                                        GameEvent::WeaponFired { x: tower.x, y: tower.y },
                                    );
                                    m.cooldown = weapon_cooldown(effect.fire_rate);
                                }
                            }
                            ship.grid[gx][gy] = Some(m);
                            proof {
                                assert(ship.cells() =~= with_cell(
                                    before.cells,
                                    gx as int,
                                    gy as int,
                                    m,
                                ));
                            }
                        }
                    }
                }
            }
        }
        proof {
            let after = FireModel {
                cells: ship.cells(),
                projectiles: projectiles@,
                events: events.game@,
            };
            assert(after =~= fire_room(before, rooms@[i as int], enemies@, *layout, *stats, dt));
        }
        i += 1;
    }
    proof {
        assert(rooms@.take(i as int) =~= rooms@);
    }
}

/// Whether `p` has left the screen and the margin around it.
pub open spec fn out_of_bounds(p: Vec2, layout: Layout) -> bool {
    ||| p.x < -PROJECTILE_BOUNDS_MARGIN
    ||| p.x > layout.screen_width + PROJECTILE_BOUNDS_MARGIN
    ||| p.y < -PROJECTILE_BOUNDS_MARGIN
    ||| p.y > layout.screen_height + PROJECTILE_BOUNDS_MARGIN
}

/// A projectile after `dt` microseconds of flight: moved by its velocity,
/// and no longer active once it has left the screen and its margin.
pub open spec fn flown(p: Projectile, layout: Layout, dt: u64) -> Projectile {
    let position = p.position.advanced(p.velocity, dt as nat);
    Projectile { position, active: p.active && !out_of_bounds(position, layout), ..p }
}

/// Moves every projectile for `dt` microseconds and drops those that leave
/// the screen.
pub fn move_projectiles(projectiles: &mut Vec<Projectile>, layout: &Layout, dt: u64)
    ensures
        final(projectiles)@.len() == old(projectiles)@.len(),
        forall|i: int|
            0 <= i < old(projectiles)@.len() ==> #[trigger] final(projectiles)@[i] == flown(
                old(projectiles)@[i],
                *layout,
                dt,
            ),
{
    let mut i: usize = 0;
    while i < projectiles.len()
        invariant
            i <= projectiles@.len(),
            projectiles@.len() == old(projectiles)@.len(),
            forall|j: int|
                0 <= j < i ==> #[trigger] projectiles@[j] == flown(old(projectiles)@[j], *layout, dt),
            forall|j: int|
                i <= j < projectiles@.len() ==> #[trigger] projectiles@[j] == old(projectiles)@[j],
        decreases projectiles@.len() - i,
    {
        let p = projectiles[i];
        let position = p.position.advance(p.velocity, dt);
        let margin = PROJECTILE_BOUNDS_MARGIN as i64;
        let out = (position.x as i64) < -margin || position.x as i64 > layout.screen_width as i64
            + margin || (position.y as i64) < -margin || position.y as i64
            > layout.screen_height as i64 + margin;
        projectiles[i].position = position;
        if out {
            projectiles[i].active = false;
        }
        i += 1;
    }
}

/// What collisions change: the enemies, whose health falls, the resources,
/// which loot raises, and the game events.
#[verifier::ext_equal]
pub struct HitModel {
    pub enemies: Seq<Enemy>,
    pub resources: Resources,
    pub events: Seq<GameEvent>,
}

/// An enemy after a hit of the given damage.
pub open spec fn damaged(enemy: Enemy, damage: i64) -> Enemy {
    Enemy { health: clamp_i64(enemy.health - damage) as i64, ..enemy }
}

/// The resources after the loot of a kill: the scrap, and half as many
/// credits.
pub open spec fn loot_granted(resources: Resources, scrap: i32) -> Resources {
    Resources {
        scrap: resources.scrap_after_add(scrap) as i32,
        credits: clamp_i32(resources.credits + scrap / 2) as i32,
        ..resources
    }
}

/// What one projectile does to the enemies, the resources and the events.
///
/// An active projectile that hits an enemy takes its damage off that
/// enemy's health. If that kills the enemy, the archetype's loot is granted
/// and `EnemyKilled` reported, once: a dead enemy is hit no more.
pub open spec fn collide(m: HitModel, p: Projectile) -> HitModel {
    if !p.active {
        m
    } else {
        match hit_index(m.enemies, p.position) {
            None => m,
            Some(i) => {
                let hurt = damaged(m.enemies[i], p.damage);
                if hurt.alive() {
                    HitModel { enemies: m.enemies.update(i, hurt), ..m }
                } else {
                    HitModel {
                        enemies: m.enemies.update(i, hurt),
                        resources: loot_granted(m.resources, hurt.enemy_type.loot()),
                        events: m.events.push(
                            GameEvent::EnemyKilled {
                                x: hurt.position.x,
                                y: hurt.position.y,
                                scrap_dropped: hurt.enemy_type.loot(),
                            },
                        ),
                    }
                }
            },
        }
    }
}

/// A projectile after its collision test: spent if it was active and hit an
/// enemy, otherwise as it was.
pub open spec fn spent(m: HitModel, p: Projectile) -> Projectile {
    if p.active && hit_index(m.enemies, p.position).is_some() {
        Projectile { active: false, ..p }
    } else {
        p
    }
}

/// What the projectiles do, one after the other.
pub open spec fn collide_all(m: HitModel, projectiles: Seq<Projectile>) -> HitModel
    decreases projectiles.len(),
{
    if projectiles.len() == 0 {
        m
    } else {
        collide(collide_all(m, projectiles.drop_last()), projectiles.last())
    }
}

/// The projectiles after their collision tests, each against the enemies
/// as those before it left them.
pub open spec fn spent_all(m: HitModel, projectiles: Seq<Projectile>) -> Seq<Projectile> {
    Seq::new(
        projectiles.len(),
        |i: int| spent(collide_all(m, projectiles.take(i)), projectiles[i]),
    )
}

/// A hit on a living enemy leaves the buckets in order: they file by
/// position, and the dead need not be filed.
proof fn lemma_cover_after_hit(
    map: Map<u64, Vec<usize>>,
    enemies: Seq<Enemy>,
    i: int,
    hurt: Enemy,
)
    requires
        buckets_cover(map, enemies),
        0 <= i < enemies.len(),
        enemies[i].alive(),
        hurt.position == enemies[i].position,
    ensures
        buckets_cover(map, enemies.update(i, hurt)),
{
    let after = enemies.update(i, hurt);
    assert forall|k: u64, t: int| 0 <= t < bucket_list(map, k).len() implies {
        let j = #[trigger] bucket_list(map, k)[t];
        j < after.len() && key_of(after[j as int].position) == k
    } by {
        let j = bucket_list(map, k)[t];
        assert(key_of(enemies[j as int].position) == k);
    }
    assert forall|j: int| 0 <= j < after.len() && (#[trigger] after[j]).alive() implies listed(
        map,
        key_of(after[j].position) as u64,
        j,
    ) by {
        assert(enemies[j].alive());
    }
}

/// Tests every active projectile against the enemies, in order, through
/// the spatial hash: a hit spends the projectile and hurts the enemy, a
/// kill grants loot and is reported.
pub fn resolve_collisions(
    projectiles: &mut Vec<Projectile>,
    enemies: &mut Vec<Enemy>,
    resources: &mut Resources,
    events: &mut EventBus,
)
    ensures
        (HitModel {
            enemies: final(enemies)@,
            resources: *final(resources),
            events: final(events).game@,
        }) == collide_all(
            HitModel {
                enemies: old(enemies)@,
                resources: *old(resources),
                events: old(events).game@,
            },
            old(projectiles)@,
        ),
        final(projectiles)@ == spent_all(
            HitModel {
                enemies: old(enemies)@,
                resources: *old(resources),
                events: old(events).game@,
            },
            old(projectiles)@,
        ),
        final(events).ui@ == old(events).ui@,
{
    let ghost start = HitModel {
        enemies: enemies@,
        resources: *resources,
        events: events.game@,
    };
    let ghost shots = projectiles@;
    let buckets = build_buckets(enemies);
    let mut k: usize = 0;
    while k < projectiles.len()
        invariant
            k <= projectiles@.len(),
            projectiles@.len() == shots.len(),
            events.ui@ == old(events).ui@,
            buckets_cover(buckets@, enemies@),
            (HitModel { enemies: enemies@, resources: *resources, events: events.game@ })
                == collide_all(start, shots.take(k as int)),
            forall|j: int|
                0 <= j < k ==> #[trigger] projectiles@[j] == spent(
                    collide_all(start, shots.take(j)),
                    shots[j],
                ),
            forall|j: int| k <= j < projectiles@.len() ==> #[trigger] projectiles@[j] == shots[j],
        decreases projectiles@.len() - k,
    {
        let ghost before = HitModel {
            enemies: enemies@,
            resources: *resources,
            events: events.game@,
        };
        proof {
            assert(shots.take(k + 1).drop_last() =~= shots.take(k as int));
            assert(shots.take(k + 1).last() == shots[k as int]);
        }
        let p = projectiles[k];
        if p.active {
            if let Some(i) = find_hit(&buckets, enemies, p.position) {
                proof {
                    lemma_hit_exists(enemies@, p.position);
                    lemma_cover_after_hit(
                        buckets@,
                        enemies@,
                        i as int,
                        damaged(enemies@[i as int], p.damage),
                    );
                }
                let health = clamp_to_i64(enemies[i].health as i128 - p.damage as i128);
                enemies[i].health = health;
                projectiles[k].active = false;
                if health <= 0 {
                    let enemy = enemies[i];
                    let scrap = enemy.enemy_type.scrap_loot();
                    resources.add_scrap(scrap);
                    resources.add_credits(scrap / 2);
                    events.push_game(
                        GameEvent::EnemyKilled {
                            x: enemy.position.x,
                            y: enemy.position.y,
                            scrap_dropped: scrap,
                        },
                    );
                }
                proof {
                    assert(enemies@ =~= before.enemies.update(
                        i as int,
                        damaged(before.enemies[i as int], p.damage),
                    ));
                }
            }
        }
        proof {
            let after = HitModel {
                enemies: enemies@,
                resources: *resources,
                events: events.game@,
            };
            assert(after =~= collide(before, shots[k as int]));
        }
        k += 1;
    }
    proof {
        assert(shots.take(k as int) =~= shots);
        assert(projectiles@ =~= spent_all(start, shots));
    }
}

/// The test by which a projectile is kept.
pub open spec fn is_active() -> spec_fn(Projectile) -> bool {
    |p: Projectile| p.active
}

/// The test by which an enemy is kept.
pub open spec fn is_living() -> spec_fn(Enemy) -> bool {
    |e: Enemy| e.alive()
}

/// Removes the projectiles that are no longer active.
pub fn retain_active(projectiles: &mut Vec<Projectile>)
    ensures
        final(projectiles)@ == old(projectiles)@.filter(is_active()),
{
    let mut kept: Vec<Projectile> = Vec::new();
    let mut i: usize = 0;
    proof {
        reveal(Seq::filter);
        assert(projectiles@.take(0) =~= Seq::<Projectile>::empty());
    }
    while i < projectiles.len()
        invariant
            i <= projectiles@.len(),
            kept@ == projectiles@.take(i as int).filter(is_active()),
        decreases projectiles@.len() - i,
    {
        proof {
            reveal(Seq::filter);
            assert(projectiles@.take(i + 1).drop_last() =~= projectiles@.take(i as int));
        }
        if projectiles[i].active {
            kept.push(projectiles[i]);
        }
        i += 1;
    }
    proof {
        assert(projectiles@.take(i as int) =~= projectiles@);
    }
    *projectiles = kept;
}

/// Removes the enemies that have no health left.
pub fn retain_alive(enemies: &mut Vec<Enemy>)
    ensures
        final(enemies)@ == old(enemies)@.filter(is_living()),
{
    let mut kept: Vec<Enemy> = Vec::new();
    let mut i: usize = 0;
    proof {
        reveal(Seq::filter);
        assert(enemies@.take(0) =~= Seq::<Enemy>::empty());
    }
    while i < enemies.len()
        invariant
            i <= enemies@.len(),
            kept@ == enemies@.take(i as int).filter(is_living()),
        decreases enemies@.len() - i,
    {
        proof {
            reveal(Seq::filter);
            assert(enemies@.take(i + 1).drop_last() =~= enemies@.take(i as int));
        }
        if enemies[i].health > 0 {
            kept.push(enemies[i]);
        }
        i += 1;
    }
    proof {
        assert(enemies@.take(i as int) =~= enemies@);
    }
    *enemies = kept;
}

/// The projectile phase: flight, collisions, and the removal of spent
/// projectiles and dead enemies.
pub fn update_projectiles(
    projectiles: &mut Vec<Projectile>,
    enemies: &mut Vec<Enemy>,
    resources: &mut Resources,
    layout: &Layout,
    dt: u64,
    events: &mut EventBus,
)
    ensures
        ({
            let start = HitModel {
                enemies: old(enemies)@,
                resources: *old(resources),
                events: old(events).game@,
            };
            let moved = Seq::new(
                old(projectiles)@.len(),
                |i: int| flown(old(projectiles)@[i], *layout, dt),
            );
            let hit = collide_all(start, moved);
            &&& final(projectiles)@ == spent_all(start, moved).filter(is_active())
            &&& final(enemies)@ == hit.enemies.filter(is_living())
            &&& *final(resources) == hit.resources
            &&& final(events).game@ == hit.events
        }),
        final(events).ui@ == old(events).ui@,
{
    move_projectiles(projectiles, layout, dt);
    proof {
        assert(projectiles@ =~= Seq::new(
            old(projectiles)@.len(),
            |i: int| flown(old(projectiles)@[i], *layout, dt),
        ));
    }
    resolve_collisions(projectiles, enemies, resources, events);
    retain_active(projectiles);
    retain_alive(enemies);
}

/// Share of incoming damage that a room takes off, in millionths: for a
/// shield room, `SHIELD_REDUCTION_PER_ROOM` times its repaired fraction.
pub open spec fn room_shield(room: Room) -> nat {
    if room.room_type == RoomType::Module(ModuleType::Defense) && room.total() > 0 {
        (room.repaired() * SHIELD_REDUCTION_PER_ROOM / (room.total() as int)) as nat
    } else {
        0
    }
}

/// Share of incoming damage that `rooms` take off together, uncapped.
pub open spec fn shields_sum(rooms: Seq<Room>) -> nat
    decreases rooms.len(),
{
    if rooms.len() == 0 {
        0
    } else {
        shields_sum(rooms.drop_last()) + room_shield(rooms.last())
    }
}

/// Share of incoming damage that the shields take off, in millionths: the
/// sum over the shield rooms, capped at `SHIELD_REDUCTION_CAP`.
pub open spec fn shield_reduction(rooms: Seq<Room>) -> nat {
    if shields_sum(rooms) > SHIELD_REDUCTION_CAP {
        SHIELD_REDUCTION_CAP as nat
    } else {
        shields_sum(rooms)
    }
}

/// Share of incoming damage that the shields take off, in millionths.
pub fn compute_shield_reduction(rooms: &Vec<Room>) -> (reduction: u64)
    ensures
        reduction == shield_reduction(rooms@),
        reduction <= SHIELD_REDUCTION_CAP,
{
    let mut reduction: u64 = 0;
    let mut i: usize = 0;
    while i < rooms.len()
        invariant
            i <= rooms@.len(),
            reduction == shield_reduction(rooms@.take(i as int)),
            reduction <= SHIELD_REDUCTION_CAP,
        decreases rooms@.len() - i,
    {
        proof {
            assert(rooms@.take(i + 1).drop_last() =~= rooms@.take(i as int));
        }
        let room = &rooms[i];
        if room.room_type == RoomType::Module(ModuleType::Defense) && room.repair_points.len() > 0 {
            let repaired = room.repaired_count() as u128;
            let total = room.repair_points.len() as u128;
            assert(repaired * SHIELD_REDUCTION_PER_ROOM <= total * SHIELD_REDUCTION_PER_ROOM && total
                * SHIELD_REDUCTION_PER_ROOM <= 0x1_0000_0000_0000_0000 * 500_000) by (nonlinear_arith)
                requires
                    0 <= repaired <= total <= 0x1_0000_0000_0000_0000,
                    SHIELD_REDUCTION_PER_ROOM == 500_000,
            ;
            assert(repaired * SHIELD_REDUCTION_PER_ROOM / (total as int) <= 500_000)
                by (nonlinear_arith)
                requires
                    0 <= repaired <= total,
                    total > 0,
                    SHIELD_REDUCTION_PER_ROOM == 500_000,
            ;
            let share: u64 = (repaired * (SHIELD_REDUCTION_PER_ROOM as u128) / total) as u64;
            reduction = if reduction + share > SHIELD_REDUCTION_CAP {
                SHIELD_REDUCTION_CAP
            } else {
                reduction + share
            };
        }
        i += 1;
    }
    proof {
        assert(rooms@.take(i as int) =~= rooms@);
    }
    reduction
}

/// Damage an enemy deals to the hull in `dt` microseconds: its damage per
/// second over that time, less the share the shields take off. Each
/// division rounds toward zero.
pub open spec fn attack_damage(damage: i64, dt: u64, reduction: nat) -> int {
    div_toward_zero(
        clamp_i64(div_toward_zero(damage * dt, MICROS_PER_SECOND as int)) * (MICROS_PER_SECOND
            - reduction),
        MICROS_PER_SECOND as int,
    )
}

/// Damage an enemy deals to the hull in `dt` microseconds.
pub fn compute_attack_damage(damage: i64, dt: u64, reduction: u64) -> (dealt: i64)
    requires
        reduction <= SHIELD_REDUCTION_CAP,
    ensures
        dealt == attack_damage(damage, dt, reduction as nat),
{
    assert(-0x8000_0000_0000_0000 * 0xffff_ffff_ffff_ffff <= damage * dt <= 0x8000_0000_0000_0000
        * 0xffff_ffff_ffff_ffff) by (nonlinear_arith)
        requires
            -0x8000_0000_0000_0000 <= damage <= 0x8000_0000_0000_0000,
            0 <= dt <= 0xffff_ffff_ffff_ffff,
    ;
    let raw: i64 = clamp_to_i64(
        divide_toward_zero((damage as i128) * (dt as i128), MICROS_PER_SECOND),
    );
    let keep: i128 = (MICROS_PER_SECOND - reduction) as i128;
    assert(-0x8000_0000_0000_0000 * 1_000_000 <= raw * keep <= 0x8000_0000_0000_0000 * 1_000_000)
        by (nonlinear_arith)
        requires
            -0x8000_0000_0000_0000 <= raw <= 0x8000_0000_0000_0000,
            0 <= keep <= 1_000_000,
    ;
    let dealt: i128 = divide_toward_zero((raw as i128) * keep, MICROS_PER_SECOND);
    assert(-0x8000_0000_0000_0000 <= dealt <= 0x8000_0000_0000_0000 - 1) by (nonlinear_arith)
        requires
            dealt == div_toward_zero(raw * keep, 1_000_000),
            -0x8000_0000_0000_0000 <= raw <= 0x8000_0000_0000_0000 - 1,
            0 <= keep <= 1_000_000,
    ;
    dealt as i64
}

/// Whether an enemy at `pos` can attack the slot `(x, y)`: whether the slot
/// is on the grid, holds a module or a building place, and its middle on
/// screen lies strictly within `ENEMY_ATTACK_RANGE` of the enemy.
pub open spec fn attackable(
    cells: Seq<Seq<Option<Module>>>,
    layout: Layout,
    pos: Vec2,
    x: int,
    y: int,
) -> bool {
    &&& 0 <= x < GRID_WIDTH
    &&& 0 <= y < GRID_HEIGHT
    &&& cell_in(cells, x, y).is_some()
    &&& pos.within(layout.cell_center(x, y), ENEMY_ATTACK_RANGE as int)
}

/// The first slot an enemy at `pos` can attack among the slots around
/// `(gx, gy)` from the `k`-th on, the block of three by three read column
/// by column.
pub open spec fn attack_from(
    cells: Seq<Seq<Option<Module>>>,
    layout: Layout,
    pos: Vec2,
    gx: int,
    gy: int,
    k: int,
) -> Option<(usize, usize)>
    decreases 9 - k,
{
    if k < 0 || k >= 9 {
        None
    } else if attackable(cells, layout, pos, gx + k / 3 - 1, gy + k % 3 - 1) {
        Some(((gx + k / 3 - 1) as usize, (gy + k % 3 - 1) as usize))
    } else {
        attack_from(cells, layout, pos, gx, gy, k + 1)
    }
}

/// The slot an enemy at `pos` attacks: the first it can attack in the block
/// of three by three slots around the one it stands on. An enemy off the
/// grid attacks nothing.
pub open spec fn attack_target(cells: Seq<Seq<Option<Module>>>, layout: Layout, pos: Vec2) -> Option<
    (usize, usize),
> {
    match layout.cell_of(pos) {
        Some((gx, gy)) => attack_from(cells, layout, pos, gx as int, gy as int, 0),
        None => None,
    }
}

/// The slot an enemy at `pos` attacks.
pub fn find_attack_target(ship: &Ship, layout: &Layout, pos: Vec2) -> (found: Option<(usize, usize)>)
    ensures
        found == attack_target(ship.cells(), *layout, pos),
{
    let (gx, gy) = match layout.screen_to_grid(pos) {
        Some(cell) => cell,
        None => {
            return None;
        },
    };
    let mut k: i64 = 0;
    while k < 9
        invariant
            0 <= k <= 9,
            gx < GRID_WIDTH,
            gy < GRID_HEIGHT,
            attack_target(ship.cells(), *layout, pos) == attack_from(
                ship.cells(),
                *layout,
                pos,
                gx as int,
                gy as int,
                k as int,
            ),
        decreases 9 - k,
    {
        let x: i64 = gx as i64 + k / 3 - 1;
        let y: i64 = gy as i64 + k % 3 - 1;
        if 0 <= x && x < GRID_WIDTH as i64 && 0 <= y && y < GRID_HEIGHT as i64 {
            if ship.module_at(x as usize, y as usize).is_some() {
                let center = layout.grid_to_screen_center(x as usize, y as usize);
                if pos.is_within(center, ENEMY_ATTACK_RANGE as i64) {
                    return Some((x as usize, y as usize));
                }
            }
        }
        k += 1;
    }
    None
}

/// What the enemies' attacks change beside the enemies themselves: the
/// ship's integrity and the game events.
#[verifier::ext_equal]
pub struct AttackModel {
    pub integrity: i64,
    pub events: Seq<GameEvent>,
}

/// An enemy after the attack phase: attacking if it is alive and has a
/// slot to attack, not attacking if it is alive and has none, untouched if
/// it is dead.
pub open spec fn after_attack(enemy: Enemy, cells: Seq<Seq<Option<Module>>>, layout: Layout) -> Enemy {
    if enemy.alive() {
        Enemy { attacking: attack_target(cells, layout, enemy.position).is_some(), ..enemy }
    } else {
        enemy
    }
}

/// What one enemy's attack does to integrity and events.
///
/// A living enemy with a slot to attack takes its damage, less the shields'
/// share, off the ship's integrity. `ModuleDamaged` is reported when the
/// enemy begins to attack, not while it goes on.
pub open spec fn attack(
    m: AttackModel,
    enemy: Enemy,
    cells: Seq<Seq<Option<Module>>>,
    layout: Layout,
    reduction: nat,
    dt: u64,
) -> AttackModel {
    if !enemy.alive() {
        m
    } else {
        match attack_target(cells, layout, enemy.position) {
            None => m,
            Some((x, y)) => {
                let dealt = attack_damage(enemy.damage, dt, reduction) as i64;
                AttackModel {
                    integrity: clamp_i64(m.integrity - dealt) as i64,
                    events: if enemy.attacking {
                        m.events
                    } else {
                        m.events.push(GameEvent::ModuleDamaged { x, y, damage: dealt })
                    },
                }
            },
        }
    }
}

/// What the attacks of `enemies` do, one after the other.
pub open spec fn attack_all(
    m: AttackModel,
    enemies: Seq<Enemy>,
    cells: Seq<Seq<Option<Module>>>,
    layout: Layout,
    reduction: nat,
    dt: u64,
) -> AttackModel
    decreases enemies.len(),
{
    if enemies.len() == 0 {
        m
    } else {
        attack(
            attack_all(m, enemies.drop_last(), cells, layout, reduction, dt),
            enemies.last(),
            cells,
            layout,
            reduction,
            dt,
        )
    }
}

/// The attack phase: every living enemy next to a module damages the
/// ship, softened by the shields.
pub fn enemy_attacks(
    enemies: &mut Vec<Enemy>,
    rooms: &Vec<Room>,
    ship: &Ship,
    layout: &Layout,
    integrity: &mut i64,
    dt: u64,
    events: &mut EventBus,
)
    ensures
        (AttackModel { integrity: *final(integrity), events: final(events).game@ }) == attack_all(
            AttackModel { integrity: *old(integrity), events: old(events).game@ },
            old(enemies)@,
            ship.cells(),
            *layout,
            shield_reduction(rooms@),
            dt,
        ),
        final(enemies)@.len() == old(enemies)@.len(),
        forall|i: int|
            0 <= i < old(enemies)@.len() ==> #[trigger] final(enemies)@[i] == after_attack(
                old(enemies)@[i],
                ship.cells(),
                *layout,
            ),
        final(events).ui@ == old(events).ui@,
{
    let reduction = compute_shield_reduction(rooms);
    let ghost start = AttackModel { integrity: *integrity, events: events.game@ };
    let mut i: usize = 0;
    while i < enemies.len()
        invariant
            i <= enemies@.len(),
            enemies@.len() == old(enemies)@.len(),
            reduction == shield_reduction(rooms@),
            reduction <= SHIELD_REDUCTION_CAP,
            events.ui@ == old(events).ui@,
            (AttackModel { integrity: *integrity, events: events.game@ }) == attack_all(
                start,
                old(enemies)@.take(i as int),
                ship.cells(),
                *layout,
                reduction as nat,
                dt,
            ),
            forall|j: int|
                0 <= j < i ==> #[trigger] enemies@[j] == after_attack(
                    old(enemies)@[j],
                    ship.cells(),
                    *layout,
                ),
            forall|j: int| i <= j < enemies@.len() ==> #[trigger] enemies@[j] == old(enemies)@[j],
        decreases enemies@.len() - i,
    {
        let ghost before = AttackModel { integrity: *integrity, events: events.game@ };
        proof {
            assert(old(enemies)@.take(i + 1).drop_last() =~= old(enemies)@.take(i as int));
            assert(old(enemies)@.take(i + 1).last() == old(enemies)@[i as int]);
        }
        let enemy = enemies[i];
        if enemy.health > 0 {
            match find_attack_target(ship, layout, enemy.position) {
                Some((x, y)) => {
                    let dealt = compute_attack_damage(enemy.damage, dt, reduction);
                    *integrity = clamp_to_i64(*integrity as i128 - dealt as i128);
                    if !enemy.attacking {
                        enemies[i].attacking = true;
                        events.push_game(GameEvent::ModuleDamaged { x, y, damage: dealt });
                    }
                },
                None => {
                    enemies[i].attacking = false;
                },
            }
        }
        proof {
            let after = AttackModel { integrity: *integrity, events: events.game@ };
            assert(after =~= attack(
                before,
                old(enemies)@[i as int],
                ship.cells(),
                *layout,
                reduction as nat,
                dt,
            ));
        }
        i += 1;
    }
    proof {
        assert(old(enemies)@.take(i as int) =~= old(enemies)@);
    }
}

/// The combat of one tick: the weapons fire, the projectiles fly and hit,
/// the enemies attack.
pub fn update_combat(state: &mut GameState, dt: u64, events: &mut EventBus)
    ensures
        final(state).sim(final(events).game@) == combat_phase(
            old(state).sim(old(events).game@),
            old(state).world(),
            dt,
        ),
        final(state).same_setting(*old(state)),
        final(events).ui@ == old(events).ui@,
{
    let ghost w = state.world();
    let ghost s0 = state.sim(events.game@);
    fire_towers(
        &state.interior.rooms,
        &mut state.ship,
        &state.enemies,
        &mut state.projectiles,
        &state.layout,
        state.module_registry.get(ModuleType::Weapon),
        dt,
        events,
    );
    let ghost s1 = state.sim(events.game@);
    assert(s1 =~= fire_phase(s0, w, dt));

    update_projectiles(
        &mut state.projectiles,
        &mut state.enemies,
        &mut state.resources,
        &state.layout,
        dt,
        events,
    );
    let ghost s2 = state.sim(events.game@);
    assert(s2 =~= projectile_phase(s1, w, dt));

    enemy_attacks(
        &mut state.enemies,
        &state.interior.rooms,
        &state.ship,
        &state.layout,
        &mut state.ship_integrity,
        dt,
        events,
    );
    assert(state.sim(events.game@) =~= attack_phase(s2, w, dt));
}

/// A dead enemy is hit no more.
pub proof fn lemma_dead_never_hit(enemies: Seq<Enemy>, p: Vec2, i: int)
    requires
        0 <= i < enemies.len(),
        !enemies[i].alive(),
    ensures
        hit_index(enemies, p) != Some(i),
{
    lemma_hit_exists(enemies, p);
}

/// A hit and its loot. An active projectile that hits a living enemy kills
/// it exactly when its damage is at least the enemy's health. The enemy is
/// then no longer among the living, which the cleanup keeps; the
/// archetype's loot is granted and the kill reported, once, for no
/// projectile hits the enemy again. A hit that does not kill grants and
/// reports nothing.
pub proof fn lemma_lethal_hit(m: HitModel, p: Projectile, i: int)
    requires
        p.active,
        hit_index(m.enemies, p.position) == Some(i),
    ensures
        ({
            let after = collide(m, p);
            let killed = p.damage >= m.enemies[i].health;
            let loot = m.enemies[i].enemy_type.loot();
            &&& m.enemies[i].alive()
            &&& after.enemies == m.enemies.update(i, damaged(m.enemies[i], p.damage))
            &&& is_living()(after.enemies[i]) == !killed
            &&& after.resources == if killed {
                loot_granted(m.resources, loot)
            } else {
                m.resources
            }
            &&& after.events == if killed {
                m.events.push(
                    GameEvent::EnemyKilled {
                        x: m.enemies[i].position.x,
                        y: m.enemies[i].position.y,
                        scrap_dropped: loot,
                    },
                )
            } else {
                m.events
            }
            &&& killed ==> forall|q: Vec2| hit_index(after.enemies, q) != Some(i)
        }),
{
    lemma_hit_exists(m.enemies, p.position);
    let after = collide(m, p);
    if p.damage >= m.enemies[i].health {
        assert forall|q: Vec2| hit_index(after.enemies, q) != Some(i) by {
            lemma_dead_never_hit(after.enemies, q, i);
        }
    }
}

/// Collisions change the health of enemies and nothing else of them, and
/// neither add nor remove one.
pub proof fn lemma_collisions_keep_enemies(m: HitModel, projectiles: Seq<Projectile>)
    ensures
        collide_all(m, projectiles).enemies.len() == m.enemies.len(),
        forall|i: int|
            0 <= i < m.enemies.len() ==> (#[trigger] collide_all(m, projectiles).enemies[i]) == (Enemy {
                health: collide_all(m, projectiles).enemies[i].health,
                ..m.enemies[i]
            }),
    decreases projectiles.len(),
{
    if projectiles.len() > 0 {
        let before = collide_all(m, projectiles.drop_last());
        lemma_collisions_keep_enemies(m, projectiles.drop_last());
        lemma_hit_exists(before.enemies, projectiles.last().position);
        let after = collide(before, projectiles.last());
        assert(after == collide_all(m, projectiles));
        assert forall|i: int| 0 <= i < m.enemies.len() implies (#[trigger] after.enemies[i]) == (Enemy {
            health: after.enemies[i].health,
            ..m.enemies[i]
        }) by {
            assert(before.enemies[i] == (Enemy { health: before.enemies[i].health, ..m.enemies[i] }));
        }
    }
}

} // verus!
