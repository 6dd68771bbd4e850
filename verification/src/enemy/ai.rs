//! Spawning and movement: the wave director's hand on the enemy list, and
//! each archetype's way to its target.

use vstd::prelude::*;
use crate::economy::upgrades::GameUpgrades;
use crate::enemy::entities::{Enemy, EnemyType};
use crate::enemy::wave::{wave_step, WavePlan, WaveState};
use crate::ship::layout::Layout;
use crate::ship::ship::{
    cell_in, first_core_in, scan_before, Module, ModuleState, ModuleType, Ship,
};
use crate::simulation::constants::{
    BOSS_SPAWN_MARGIN, GRID_HEIGHT, GRID_WIDTH, SCREEN_HEIGHT, SCREEN_WIDTH, SPAWN_MARGIN,
};
use crate::simulation::events::{EventBus, GameEvent};
use crate::state::game_state::{EngineState, GameState};
use crate::state::game_update::movement_phase;
use crate::units::Vec2;

verus! {

/// Id of the upgrade that shortens the spawn intervals.
pub open spec fn targeting_tier_id() -> Seq<char> {
    "targeting_tier"@
}

/// Whether a boss is among `enemies`.
pub open spec fn has_boss(enemies: Seq<Enemy>) -> bool {
    exists|i: int| 0 <= i < enemies.len() && (#[trigger] enemies[i]).enemy_type == EnemyType::Boss
}

/// Number of bosses among `enemies`.
pub open spec fn boss_count(enemies: Seq<Enemy>) -> nat
    decreases enemies.len(),
{
    if enemies.len() == 0 {
        0
    } else {
        boss_count(enemies.drop_last()) + if enemies.last().enemy_type == EnemyType::Boss {
            1nat
        } else {
            0nat
        }
    }
}

/// A list has a boss exactly when its boss count is not zero.
pub proof fn lemma_boss_count_zero(enemies: Seq<Enemy>)
    ensures
        has_boss(enemies) <==> boss_count(enemies) > 0,
    decreases enemies.len(),
{
    if enemies.len() > 0 {
        let init = enemies.drop_last();
        lemma_boss_count_zero(init);
        if has_boss(enemies) {
            let i = choose|i: int|
                0 <= i < enemies.len() && (#[trigger] enemies[i]).enemy_type == EnemyType::Boss;
            if i < init.len() {
                assert(init[i].enemy_type == EnemyType::Boss);
            }
        }
        if boss_count(enemies) > 0 {
            if enemies.last().enemy_type == EnemyType::Boss {
                assert(enemies[enemies.len() - 1].enemy_type == EnemyType::Boss);
            } else {
                let i = choose|i: int|
                    0 <= i < init.len() && (#[trigger] init[i]).enemy_type == EnemyType::Boss;
                assert(enemies[i].enemy_type == EnemyType::Boss);
            }
        }
    }
}

/// Appending an enemy raises the boss count by one if it is a boss, and
/// leaves it otherwise.
pub proof fn lemma_boss_count_push(enemies: Seq<Enemy>, enemy: Enemy)
    ensures
        boss_count(enemies.push(enemy)) == boss_count(enemies) + if enemy.enemy_type
            == EnemyType::Boss {
            1nat
        } else {
            0nat
        },
{
    assert(enemies.push(enemy).drop_last() =~= enemies);
}

/// Whether every enemy's id is below `next` and no two share one.
pub open spec fn well_numbered(enemies: Seq<Enemy>, next: u64) -> bool {
    &&& forall|i: int| 0 <= i < enemies.len() ==> (#[trigger] enemies[i]).id < next
    &&& forall|i: int, j: int|
        0 <= i < j < enemies.len() ==> (#[trigger] enemies[i]).id != (#[trigger] enemies[j]).id
}

/// Whether a boss is among the enemies.
pub fn any_boss(enemies: &Vec<Enemy>) -> (b: bool)
    ensures
        b == has_boss(enemies@),
{
    let mut i: usize = 0;
    while i < enemies.len()
        invariant
            i <= enemies@.len(),
            forall|j: int| 0 <= j < i ==> (#[trigger] enemies@[j]).enemy_type != EnemyType::Boss,
        decreases enemies@.len() - i,
    {
        if enemies[i].enemy_type == EnemyType::Boss {
            return true;
        }
        i += 1;
    }
    false
}

/// The point `along` the given side, just outside the playfield: side 0 is
/// the top, 1 the right, 2 the bottom, any other the left.
pub open spec fn spawn_point(side: i32, along: i32) -> Vec2 {
    if side == 0 {
        Vec2 { x: along, y: (-SPAWN_MARGIN) as i32 }
    } else if side == 1 {
        Vec2 { x: (SCREEN_WIDTH + SPAWN_MARGIN) as i32, y: along }
    } else if side == 2 {
        Vec2 { x: along, y: (SCREEN_HEIGHT + SPAWN_MARGIN) as i32 }
    } else {
        Vec2 { x: (-SPAWN_MARGIN) as i32, y: along }
    }
}

/// Whether `p` lies just outside one of the four edges of the playfield,
/// at the spawn margin and within the edge's extent.
pub open spec fn is_spawn_point(p: Vec2) -> bool {
    ||| (p.y == -SPAWN_MARGIN && 0 <= p.x < SCREEN_WIDTH)
    ||| (p.x == SCREEN_WIDTH + SPAWN_MARGIN && 0 <= p.y < SCREEN_HEIGHT)
    ||| (p.y == SCREEN_HEIGHT + SPAWN_MARGIN && 0 <= p.x < SCREEN_WIDTH)
    ||| (p.x == -SPAWN_MARGIN && 0 <= p.y < SCREEN_HEIGHT)
}

/// Where a boss appears: above the middle of the top edge.
pub open spec fn boss_spawn_point() -> Vec2 {
    Vec2 { x: (SCREEN_WIDTH / 2) as i32, y: (-BOSS_SPAWN_MARGIN) as i32 }
}

/// The point `along` the given side, just outside the playfield.
pub fn spawn_position(side: i32, along: i32) -> (p: Vec2)
    ensures
        p == spawn_point(side, along),
{
    if side == 0 {
        Vec2 { x: along, y: -SPAWN_MARGIN }
    } else if side == 1 {
        Vec2 { x: SCREEN_WIDTH + SPAWN_MARGIN, y: along }
    } else if side == 2 {
        Vec2 { x: along, y: SCREEN_HEIGHT + SPAWN_MARGIN }
    } else {
        Vec2 { x: -SPAWN_MARGIN, y: along }
    }
}

/// Draws from the shared pseudo-random source by `macroquad::rand::gen_range`
/// with the bounds `0` and `bound`. For a positive `bound` the draw is
/// claimed to be at least `0` and below `bound`; nothing is claimed of how
/// the draws are distributed.
#[verifier::external_body]
pub(crate) fn random_below(bound: i32) -> (r: i32)
    requires
        bound > 0,
    ensures
        0 <= r < bound,
{
    macroquad::rand::gen_range(0, bound)
}

/// A random point just outside a random edge of the playfield: one draw
/// for the side, one for the place along it.
pub fn random_spawn_position() -> (p: Vec2)
    ensures
        is_spawn_point(p),
{
    let side = random_below(4);
    let along = if side == 0 || side == 2 {
        random_below(SCREEN_WIDTH)
    } else {
        random_below(SCREEN_HEIGHT)
    };
    spawn_position(side, along)
}

/// The enemy list and the director's state after an enemy of the given
/// archetype spawns at `position` with the next id. When the ids have run
/// out, nothing spawns.
pub open spec fn spawned_into(
    enemies: Seq<Enemy>,
    wave: WaveState,
    enemy_type: EnemyType,
    position: Vec2,
) -> (Seq<Enemy>, WaveState) {
    if wave.next_enemy_id < u64::MAX {
        (
            enemies.push(Enemy::spawned(wave.next_enemy_id, enemy_type, position)),
            WaveState { next_enemy_id: (wave.next_enemy_id + 1) as u64, ..wave },
        )
    } else {
        (enemies, wave)
    }
}

/// Spawning keeps the ids below the next id and distinct.
pub proof fn lemma_spawn_keeps_numbering(
    enemies: Seq<Enemy>,
    wave: WaveState,
    enemy_type: EnemyType,
    position: Vec2,
)
    requires
        well_numbered(enemies, wave.next_enemy_id),
    ensures
        ({
            let (after, next) = spawned_into(enemies, wave, enemy_type, position);
            well_numbered(after, next.next_enemy_id)
        }),
{
}

/// Spawns an enemy of the given archetype at `position` with the next id,
/// and says whether it did: it does not once the ids have run out.
pub fn spawn_enemy(
    enemies: &mut Vec<Enemy>,
    wave: &mut WaveState,
    enemy_type: EnemyType,
    position: Vec2,
) -> (spawned: bool)
    ensures
        spawned == (old(wave).next_enemy_id < u64::MAX),
        (final(enemies)@, *final(wave)) == spawned_into(
            old(enemies)@,
            *old(wave),
            enemy_type,
            position,
        ),
{
    if wave.next_enemy_id == u64::MAX {
        return false;
    }
    enemies.push(Enemy::new(wave.next_enemy_id, enemy_type, position));
    wave.next_enemy_id = wave.next_enemy_id + 1;
    true
}

/// Spawns a drone at a random point outside the playfield.
pub fn spawn_drone(enemies: &mut Vec<Enemy>, wave: &mut WaveState) -> (at: Vec2)
    ensures
        is_spawn_point(at),
        (final(enemies)@, *final(wave)) == spawned_into(
            old(enemies)@,
            *old(wave),
            EnemyType::Nanodrone,
            at,
        ),
{
    let pos = random_spawn_position();
    spawn_enemy(enemies, wave, EnemyType::Nanodrone, pos);
    pos
}

/// Spawns a guard at a random point outside the playfield.
pub fn spawn_guard(enemies: &mut Vec<Enemy>, wave: &mut WaveState) -> (at: Vec2)
    ensures
        is_spawn_point(at),
        (final(enemies)@, *final(wave)) == spawned_into(
            old(enemies)@,
            *old(wave),
            EnemyType::Nanoguard,
            at,
        ),
{
    let pos = random_spawn_position();
    spawn_enemy(enemies, wave, EnemyType::Nanoguard, pos);
    pos
}

/// Spawns a boss above the playfield and announces it.
pub fn spawn_boss(enemies: &mut Vec<Enemy>, wave: &mut WaveState, events: &mut EventBus) -> (spawned:
    bool)
    ensures
        spawned == (old(wave).next_enemy_id < u64::MAX),
        (final(enemies)@, *final(wave)) == spawned_into(
            old(enemies)@,
            *old(wave),
            EnemyType::Boss,
            boss_spawn_point(),
        ),
        final(events).game@ == if spawned {
            old(events).game@.push(GameEvent::EngineActivated)
        } else {
            old(events).game@
        },
        final(events).ui@ == old(events).ui@,
{
    let pos = Vec2 { x: SCREEN_WIDTH / 2, y: -BOSS_SPAWN_MARGIN };
    let spawned = spawn_enemy(enemies, wave, EnemyType::Boss, pos);
    if spawned {
        events.push_game(GameEvent::EngineActivated);
    }
    spawned
}

/// The enemy list and the director's state after the spawns of `plan`, in
/// the order boss, drone, guard, with the drone at `drone_at` and the guard
/// at `guard_at`.
pub open spec fn wave_outcome(
    enemies: Seq<Enemy>,
    wave: WaveState,
    plan: WavePlan,
    drone_at: Vec2,
    guard_at: Vec2,
) -> (Seq<Enemy>, WaveState) {
    let (e1, w1) = if plan.boss {
        spawned_into(enemies, wave, EnemyType::Boss, boss_spawn_point())
    } else {
        (enemies, wave)
    };
    let (e2, w2) = if plan.drone {
        spawned_into(e1, w1, EnemyType::Nanodrone, drone_at)
    } else {
        (e1, w1)
    };
    if plan.guard {
        spawned_into(e2, w2, EnemyType::Nanoguard, guard_at)
    } else {
        (e2, w2)
    }
}

/// The director's step for the state of a run: [`wave_step`] with the
/// engine charging or not, a boss among the enemies or not, and the level
/// held of the targeting upgrade.
pub open spec fn planned_wave(
    wave: WaveState,
    total_power: i32,
    engine_state: EngineState,
    enemies: Seq<Enemy>,
    upgrades: GameUpgrades,
    dt: u64,
) -> (WaveState, WavePlan) {
    wave_step(
        wave,
        total_power,
        engine_state == EngineState::Charging,
        has_boss(enemies),
        upgrades.level(targeting_tier_id()),
        dt,
    )
}

/// One tick of the wave director: advances its timers, decides by
/// [`wave_step`] what spawns, and spawns it, drones and guards at random
/// points just outside the playfield. A boss is announced with
/// `EngineActivated`.
pub fn update_wave_logic(
    total_power: i32,
    engine_state: &EngineState,
    enemies: &mut Vec<Enemy>,
    upgrades: &GameUpgrades,
    wave_state: &mut WaveState,
    dt: u64,
    events: &mut EventBus,
) -> (plan: WavePlan)
    ensures
        plan == planned_wave(*old(wave_state), total_power, *engine_state, old(enemies)@, *upgrades, dt).1,
        ({
            let step = planned_wave(
                *old(wave_state),
                total_power,
                *engine_state,
                old(enemies)@,
                *upgrades,
                dt,
            );
            exists|drone_at: Vec2, guard_at: Vec2|
                {
                    &&& is_spawn_point(drone_at)
                    &&& is_spawn_point(guard_at)
                    &&& final(enemies)@ == (#[trigger] wave_outcome(
                        old(enemies)@,
                        step.0,
                        step.1,
                        drone_at,
                        guard_at,
                    )).0
                    &&& *final(wave_state) == wave_outcome(
                        old(enemies)@,
                        step.0,
                        step.1,
                        drone_at,
                        guard_at,
                    ).1
                }
        }),
        final(events).game@ == ({
            let (stepped, planned) = planned_wave(
                *old(wave_state),
                total_power,
                *engine_state,
                old(enemies)@,
                *upgrades,
                dt,
            );
            if planned.boss && stepped.next_enemy_id < u64::MAX {
                old(events).game@.push(GameEvent::EngineActivated)
            } else {
                old(events).game@
            }
        }),
        final(events).ui@ == old(events).ui@,
{
    let charging = *engine_state == EngineState::Charging;
    let boss_there = any_boss(enemies);
    let tier = upgrades.get_level("targeting_tier");
    let plan = wave_state.plan(total_power, charging, boss_there, tier, dt);
    let ghost stepped = *wave_state;

    let ghost mut drone_at = spawn_point(0, 0);
    let ghost mut guard_at = spawn_point(0, 0);
    if plan.boss {
        spawn_boss(enemies, wave_state, events);
    }
    if plan.drone {
        let at = spawn_drone(enemies, wave_state);
        proof {
            drone_at = at;
        }
    }
    if plan.guard {
        let at = spawn_guard(enemies, wave_state);
        proof {
            guard_at = at;
        }
    }
    proof {
        let step = planned_wave(
            *old(wave_state),
            total_power,
            *engine_state,
            old(enemies)@,
            *upgrades,
            dt,
        );
        assert(step.0 == stepped && step.1 == plan);
        let outcome = wave_outcome(old(enemies)@, step.0, step.1, drone_at, guard_at);
        assert(enemies@ =~= outcome.0);
        assert(*wave_state == outcome.1);
        assert(is_spawn_point(drone_at) && is_spawn_point(guard_at));
    }
    plan
}

/// One tick of the wave director never raises the number of bosses above
/// one: a boss spawns only where there is none.
pub proof fn lemma_wave_keeps_one_boss(
    enemies: Seq<Enemy>,
    wave: WaveState,
    power: i32,
    charging: bool,
    tier: u32,
    dt: u64,
    drone_at: Vec2,
    guard_at: Vec2,
)
    requires
        boss_count(enemies) <= 1,
    ensures
        ({
            let (stepped, plan) = wave_step(wave, power, charging, has_boss(enemies), tier, dt);
            boss_count(wave_outcome(enemies, stepped, plan, drone_at, guard_at).0) <= 1
        }),
{
    lemma_boss_count_zero(enemies);
    let (stepped, plan) = wave_step(wave, power, charging, has_boss(enemies), tier, dt);
    let (e1, w1) = if plan.boss {
        spawned_into(enemies, stepped, EnemyType::Boss, boss_spawn_point())
    } else {
        (enemies, stepped)
    };
    if plan.boss && stepped.next_enemy_id < u64::MAX {
        lemma_boss_count_push(
            enemies,
            Enemy::spawned(stepped.next_enemy_id, EnemyType::Boss, boss_spawn_point()),
        );
    }
    assert(boss_count(e1) <= 1);
    let (e2, w2) = if plan.drone {
        spawned_into(e1, w1, EnemyType::Nanodrone, drone_at)
    } else {
        (e1, w1)
    };
    if plan.drone && w1.next_enemy_id < u64::MAX {
        lemma_boss_count_push(e1, Enemy::spawned(w1.next_enemy_id, EnemyType::Nanodrone, drone_at));
    }
    assert(boss_count(e2) <= 1);
    if plan.guard && w2.next_enemy_id < u64::MAX {
        lemma_boss_count_push(e2, Enemy::spawned(w2.next_enemy_id, EnemyType::Nanoguard, guard_at));
    }
}

/// Whether the slot `(x, y)` of `cells` holds an active weapon or shield
/// module.
pub open spec fn priority_at(cells: Seq<Seq<Option<Module>>>, x: int, y: int) -> bool {
    match cell_in(cells, x, y) {
        Some(m) => m.state == ModuleState::Active && (m.module_type == ModuleType::Weapon
            || m.module_type == ModuleType::Defense),
        None => false,
    }
}

/// Whether `(x, y)` is the first slot of the grid, reading column by
/// column, that holds an active weapon or shield module.
pub open spec fn is_first_priority(cells: Seq<Seq<Option<Module>>>, x: int, y: int) -> bool {
    &&& 0 <= x < GRID_WIDTH
    &&& 0 <= y < GRID_HEIGHT
    &&& priority_at(cells, x, y)
    &&& forall|i: int, j: int|
        0 <= i < GRID_WIDTH && 0 <= j < GRID_HEIGHT && scan_before(i, j, x, y)
            ==> !#[trigger] priority_at(cells, i, j)
}

/// The first slot of the grid, reading column by column, that holds an
/// active weapon or shield module; `None` if no slot does.
pub open spec fn priority_target(cells: Seq<Seq<Option<Module>>>) -> Option<(usize, usize)> {
    if exists|x: int, y: int| is_first_priority(cells, x, y) {
        let (x, y) = choose|x: int, y: int| is_first_priority(cells, x, y);
        Some((x as usize, y as usize))
    } else {
        None
    }
}

/// The module a guard goes for: the first active weapon or shield module
/// of the grid.
pub fn find_priority_target(ship: &Ship) -> (found: Option<(usize, usize)>)
    ensures
        found == priority_target(ship.cells()),
        match found {
            Some((x, y)) => is_first_priority(ship.cells(), x as int, y as int),
            None => forall|i: int, j: int|
                0 <= i < GRID_WIDTH && 0 <= j < GRID_HEIGHT ==> !#[trigger] priority_at(
                    ship.cells(),
                    i,
                    j,
                ),
        },
{
    let ghost cells = ship.cells();
    let mut x: usize = 0;
    while x < GRID_WIDTH
        invariant
            x <= GRID_WIDTH,
            cells == ship.cells(),
            forall|i: int, j: int|
                0 <= i < x && 0 <= j < GRID_HEIGHT ==> !#[trigger] priority_at(cells, i, j),
        decreases GRID_WIDTH - x,
    {
        let mut y: usize = 0;
        while y < GRID_HEIGHT
            invariant
                x < GRID_WIDTH,
                y <= GRID_HEIGHT,
                cells == ship.cells(),
                forall|i: int, j: int|
                    0 <= i < GRID_WIDTH && 0 <= j < GRID_HEIGHT && scan_before(
                        i,
                        j,
                        x as int,
                        y as int,
                    ) ==> !#[trigger] priority_at(cells, i, j),
            decreases GRID_HEIGHT - y,
        {
            if let Some(module) = ship.module_at(x, y) {
                if module.state == ModuleState::Active && (module.module_type == ModuleType::Weapon
                    || module.module_type == ModuleType::Defense) {
                    proof {
                        assert(is_first_priority(cells, x as int, y as int));
                        let (cx, cy) = choose|cx: int, cy: int| is_first_priority(cells, cx, cy);
                        assert(!scan_before(cx, cy, x as int, y as int));
                        assert(!scan_before(x as int, y as int, cx, cy));
                    }
                    return Some((x, y));
                }
            }
            y += 1;
        }
        x += 1;
    }
    None
}

/// Where the core stands on screen: the middle of the core's cell, or the
/// middle of the screen for a ship without a core.
pub open spec fn core_position(cells: Seq<Seq<Option<Module>>>, layout: Layout) -> Vec2 {
    match first_core_in(cells) {
        Some((x, y)) => layout.cell_center(x as int, y as int),
        None => layout.middle(),
    }
}

/// The middle of the playfield, for which a boss heads.
pub open spec fn playfield_center() -> Vec2 {
    Vec2 { x: (SCREEN_WIDTH / 2) as i32, y: (SCREEN_HEIGHT / 2) as i32 }
}

/// The point an enemy of the given archetype moves toward: a guard toward
/// the first active weapon or shield module if there is one, a boss toward
/// the middle of the playfield, every other toward the core.
pub open spec fn destination(
    enemy_type: EnemyType,
    cells: Seq<Seq<Option<Module>>>,
    layout: Layout,
) -> Vec2 {
    match enemy_type {
        EnemyType::Nanoguard => match priority_target(cells) {
            Some((x, y)) => layout.cell_center(x as int, y as int),
            None => core_position(cells, layout),
        },
        EnemyType::Boss => playfield_center(),
        _ => core_position(cells, layout),
    }
}

/// The grid slot an enemy of the given archetype is after: for a guard the
/// first active weapon or shield module if there is one, else and for every
/// other archetype the core.
pub open spec fn targeted_module(enemy_type: EnemyType, cells: Seq<Seq<Option<Module>>>) -> Option<
    (usize, usize),
> {
    match enemy_type {
        EnemyType::Nanoguard => match priority_target(cells) {
            Some(slot) => Some(slot),
            None => first_core_in(cells),
        },
        _ => first_core_in(cells),
    }
}

/// Distance, in thousandths of a pixel, covered in `dt` microseconds at
/// `speed` pixels per second.
pub open spec fn travel(speed: u32, dt: u64) -> nat {
    (speed * dt / 1000) as nat
}

/// An enemy after `dt` microseconds of movement: moved straight toward its
/// archetype's destination by the distance its speed covers, with that
/// destination's slot as its target. Nothing else of it changes.
pub open spec fn moved(
    enemy: Enemy,
    cells: Seq<Seq<Option<Module>>>,
    layout: Layout,
    dt: u64,
) -> Enemy {
    Enemy {
        position: enemy.position.stepped_toward(
            destination(enemy.enemy_type, cells, layout),
            travel(enemy.speed, dt),
        ),
        target_module: targeted_module(enemy.enemy_type, cells),
        ..enemy
    }
}

/// Moves every enemy of `enemies` for `dt` microseconds toward its target.
pub fn move_enemies(enemies: &mut Vec<Enemy>, ship: &Ship, layout: &Layout, dt: u64)
    ensures
        final(enemies)@.len() == old(enemies)@.len(),
        forall|i: int|
            0 <= i < old(enemies)@.len() ==> #[trigger] final(enemies)@[i] == moved(
                old(enemies)@[i],
                ship.cells(),
                *layout,
                dt,
            ),
{
    let core = ship.find_core();
    let core_pos = match core {
        Some((x, y)) => layout.grid_to_screen_center(x, y),
        None => layout.screen_center(),
    };
    let priority = find_priority_target(ship);
    let center = Vec2 { x: SCREEN_WIDTH / 2, y: SCREEN_HEIGHT / 2 };
    let mut i: usize = 0;
    while i < enemies.len()
        invariant
            i <= enemies@.len(),
            enemies@.len() == old(enemies)@.len(),
            core == first_core_in(ship.cells()),
            core_pos == core_position(ship.cells(), *layout),
            priority == priority_target(ship.cells()),
            center == playfield_center(),
            forall|j: int|
                0 <= j < i ==> #[trigger] enemies@[j] == moved(
                    old(enemies)@[j],
                    ship.cells(),
                    *layout,
                    dt,
                ),
            forall|j: int| i <= j < enemies@.len() ==> #[trigger] enemies@[j] == old(enemies)@[j],
        decreases enemies@.len() - i,
    {
        let enemy = enemies[i];
        let (target, slot) = match enemy.enemy_type {
            EnemyType::Nanoguard => match priority {
                Some((x, y)) => (layout.grid_to_screen_center(x, y), priority),
                None => (core_pos, core),
            },
            EnemyType::Boss => (center, core),
            _ => (core_pos, core),
        };
        assert(enemy.speed * dt <= 0x1_0000_0000 * 0x1_0000_0000_0000_0000) by (nonlinear_arith)
            requires
                0 <= enemy.speed <= 0x1_0000_0000,
                0 <= dt <= 0x1_0000_0000_0000_0000,
        ;
        let step: u128 = (enemy.speed as u128) * (dt as u128) / 1000;
        enemies[i].position = enemy.position.step_toward(target, step);
        enemies[i].target_module = slot;
        i += 1;
    }
}

/// The movement of one tick: every enemy of the run moves toward its
/// target.
pub fn update_enemies(state: &mut GameState, dt: u64)
    ensures
        forall|events: Seq<GameEvent>|
            #![trigger old(state).sim(events)]
            final(state).sim(events) == movement_phase(
                old(state).sim(events),
                old(state).world(),
                dt,
            ),
        *final(state) == (GameState { enemies: final(state).enemies, ..*old(state) }),
{
    move_enemies(&mut state.enemies, &state.ship, &state.layout, dt);
    proof {
        assert forall|events: Seq<GameEvent>| #![trigger old(state).sim(events)] state.sim(events)
            == movement_phase(old(state).sim(events), old(state).world(), dt) by {
            assert(state.sim(events) =~= movement_phase(
                old(state).sim(events),
                old(state).world(),
                dt,
            ));
        }
    }
}

} // verus!
