//! The tick: what one frame of `dt` microseconds does to a run.
//!
//! The phases run in a fixed order: power, engine, wave director, enemy
//! movement, combat (fire, projectiles, attacks), clocks, repair robots,
//! and the state of the hull. Each is a function from the simulated part
//! of the state to its next value, and the tick is their composition.

use vstd::prelude::*;
use crate::economy::resources::Resources;
use crate::enemy::ai::{
    any_boss, boss_spawn_point, has_boss, is_spawn_point, moved, spawn_boss, spawned_into,
    update_enemies, update_wave_logic, wave_outcome,
};
use crate::enemy::combat::{
    after_attack, attack_all, collide_all, fire_rooms, flown, is_active, is_living,
    shield_reduction, spent_all, update_combat, AttackModel, FireModel, HitModel,
};
use crate::enemy::entities::{Enemy, EnemyType, Projectile};
use crate::enemy::wave::{wave_step, WaveState};
use crate::ship::interior::{cap_i32, consumed, generated, Room, RoomType};
use crate::ship::layout::Layout;
use crate::ship::ship::{Module, ModuleState, ModuleType, Ship};
use crate::simulation::constants::{
    BASE_ESCAPE_CREDITS, CREDIT_BONUS_PER_LEVEL, NANO_REPAIR_INTERVAL, NANO_REPAIR_RATE_PER_LEVEL,
};
use crate::simulation::events::{EventBus, GameEvent};
use crate::simulation::gameplay::ModuleStats;
use crate::state::engine::{engine_step, EngineStatus};
use crate::state::game_state::{EngineState, GamePhase, GameState};
use crate::units::{
    clamp_i32, clamp_i64, clamp_to_i32, clamp_to_i64, clamp_u64, Vec2, MILLI,
};

verus! {

/// The part of a run that a tick changes, with the game events it has
/// reported.
#[verifier::ext_equal]
pub struct Sim {
    pub cells: Seq<Seq<Option<Module>>>,
    pub resources: Resources,
    pub phase: GamePhase,
    pub total_power: i32,
    pub used_power: i32,
    pub ship_integrity: i64,
    pub engine: EngineStatus,
    pub enemies: Seq<Enemy>,
    pub projectiles: Seq<Projectile>,
    pub wave: WaveState,
    pub frame_count: u64,
    pub time_survived: u64,
    pub repair_timer: u64,
    pub events: Seq<GameEvent>,
}

/// The part of a run that a tick reads and leaves alone.
pub struct World {
    pub rooms: Seq<Room>,
    pub layout: Layout,
    /// Base statistics of a weapon.
    pub weapon: ModuleStats,
    /// Level of the upgrade that shortens the spawn intervals.
    pub targeting_tier: u32,
    /// Level of the upgrade that raises the credits of an escape.
    pub credit_bonus: u32,
    /// Level of the upgrade that sends out repair robots.
    pub auto_repairs: u32,
}

/// Id of the upgrade that raises the credits of an escape.
pub open spec fn credit_bonus_id() -> Seq<char> {
    "credit_bonus"@
}

/// Id of the upgrade that sends out repair robots.
pub open spec fn auto_repairs_id() -> Seq<char> {
    "auto_repairs"@
}

/// The power phase: both sides of the ledger, recomputed from the rooms.
pub open spec fn power_phase(s: Sim, w: World) -> Sim {
    Sim {
        total_power: cap_i32(generated(w.rooms)) as i32,
        used_power: cap_i32(consumed(w.rooms)) as i32,
        ..s
    }
}

/// Repaired points and points of the engine room: of the last engine room
/// that has repair points, or none of none if there is no such room.
pub open spec fn engine_room(rooms: Seq<Room>) -> (nat, nat)
    decreases rooms.len(),
{
    if rooms.len() == 0 {
        (0, 0)
    } else if rooms.last().room_type == RoomType::Module(ModuleType::Engine) && rooms.last().total()
        > 0 {
        (rooms.last().repaired(), rooms.last().total())
    } else {
        engine_room(rooms.drop_last())
    }
}

/// Credits of an escape at the given level of the credit upgrade: the base,
/// and `CREDIT_BONUS_PER_LEVEL` of it more for each level.
pub open spec fn victory_credits(level: u32) -> i32 {
    clamp_i32(BASE_ESCAPE_CREDITS * (MILLI + CREDIT_BONUS_PER_LEVEL * level) / (MILLI as int)) as i32
}

/// The engine phase: one step of the engine's state machine, and what
/// follows from it. An escape wins the run, pays its credits and is
/// reported; a cascade damages the hull and, where no boss is there, calls
/// one.
pub open spec fn engine_phase(s: Sim, w: World, dt: u64) -> Sim {
    let (repaired, total) = engine_room(w.rooms);
    let tick = engine_step(s.engine, repaired, total, dt, has_boss(s.enemies));
    let escaped = if tick.escaped {
        Sim {
            engine: tick.status,
            phase: GamePhase::Victory,
            resources: Resources {
                credits: clamp_i32(s.resources.credits + victory_credits(w.credit_bonus)) as i32,
                ..s.resources
            },
            events: s.events.push(GameEvent::EscapeSuccess),
            ..s
        }
    } else {
        Sim { engine: tick.status, ..s }
    };
    let damaged = Sim {
        ship_integrity: clamp_i64(escaped.ship_integrity - tick.hull_damage) as i64,
        ..escaped
    };
    if tick.boss {
        let (enemies, wave) = spawned_into(
            damaged.enemies,
            damaged.wave,
            EnemyType::Boss,
            boss_spawn_point(),
        );
        Sim {
            enemies,
            wave,
            events: if damaged.wave.next_enemy_id < u64::MAX {
                damaged.events.push(GameEvent::EngineActivated)
            } else {
                damaged.events
            },
            ..damaged
        }
    } else {
        damaged
    }
}

/// The wave phase: the director's step for the power and engine state of
/// this tick, with the drone and the guard spawning at `spawns`.
pub open spec fn wave_phase(s: Sim, w: World, dt: u64, spawns: SpawnPoints) -> Sim {
    let (stepped, plan) = wave_step(
        s.wave,
        s.total_power,
        s.engine.state == EngineState::Charging,
        has_boss(s.enemies),
        w.targeting_tier,
        dt,
    );
    let (enemies, wave) = wave_outcome(s.enemies, stepped, plan, spawns.drone, spawns.guard);
    Sim {
        enemies,
        wave,
        events: if plan.boss && stepped.next_enemy_id < u64::MAX {
            s.events.push(GameEvent::EngineActivated)
        } else {
            s.events
        },
        ..s
    }
}

/// Where the drone and the guard of a tick spawn, if they do.
pub struct SpawnPoints {
    pub drone: Vec2,
    pub guard: Vec2,
}

/// The movement phase: every enemy moves toward its target.
pub open spec fn movement_phase(s: Sim, w: World, dt: u64) -> Sim {
    Sim {
        enemies: Seq::new(s.enemies.len(), |i: int| moved(s.enemies[i], s.cells, w.layout, dt)),
        ..s
    }
}

/// The fire phase: the weapons cool down and fire.
pub open spec fn fire_phase(s: Sim, w: World, dt: u64) -> Sim {
    let fired = fire_rooms(
        FireModel { cells: s.cells, projectiles: s.projectiles, events: s.events },
        w.rooms,
        s.enemies,
        w.layout,
        w.weapon,
        dt,
    );
    Sim { cells: fired.cells, projectiles: fired.projectiles, events: fired.events, ..s }
}

/// The projectile phase: the projectiles fly, hit, and are removed with
/// the enemies they killed.
pub open spec fn projectile_phase(s: Sim, w: World, dt: u64) -> Sim {
    let start = HitModel { enemies: s.enemies, resources: s.resources, events: s.events };
    let flying = Seq::new(s.projectiles.len(), |i: int| flown(s.projectiles[i], w.layout, dt));
    let hit = collide_all(start, flying);
    Sim {
        projectiles: spent_all(start, flying).filter(is_active()),
        enemies: hit.enemies.filter(is_living()),
        resources: hit.resources,
        events: hit.events,
        ..s
    }
}

/// The attack phase: the enemies at the ship damage its hull.
pub open spec fn attack_phase(s: Sim, w: World, dt: u64) -> Sim {
    let attacked = attack_all(
        AttackModel { integrity: s.ship_integrity, events: s.events },
        s.enemies,
        s.cells,
        w.layout,
        shield_reduction(w.rooms),
        dt,
    );
    Sim {
        ship_integrity: attacked.integrity,
        events: attacked.events,
        enemies: Seq::new(s.enemies.len(), |i: int| after_attack(s.enemies[i], s.cells, w.layout)),
        ..s
    }
}

/// The combat phases in their order: fire, projectiles, attacks.
pub open spec fn combat_phase(s: Sim, w: World, dt: u64) -> Sim {
    attack_phase(projectile_phase(fire_phase(s, w, dt), w, dt), w, dt)
}

/// The clocks: one frame more, `dt` microseconds more survived; each stops
/// at the largest `u64`.
pub open spec fn clock_phase(s: Sim, dt: u64) -> Sim {
    Sim {
        frame_count: clamp_u64(s.frame_count + 1) as u64,
        time_survived: clamp_u64(s.time_survived + dt) as u64,
        ..s
    }
}

/// A slot after the repair robots' visit: a module that is not destroyed
/// and not at full health gains `amount`, up to its full health.
pub open spec fn mended(cell: Option<Module>, amount: i64) -> Option<Module> {
    match cell {
        Some(m) => if m.state != ModuleState::Destroyed && m.health < m.max_health {
            Some(
                Module {
                    health: if m.health + amount < m.max_health {
                        (m.health + amount) as i64
                    } else {
                        m.max_health
                    },
                    ..m
                },
            )
        } else {
            cell
        },
        None => None,
    }
}

/// What the repair robots mend on one visit at the given upgrade level.
pub open spec fn repair_amount(level: u32) -> i64 {
    (level * NANO_REPAIR_RATE_PER_LEVEL) as i64
}

/// The repair phase: the robots' timer runs, and each time it reaches
/// `NANO_REPAIR_INTERVAL` they visit every slot and the timer starts over.
pub open spec fn repair_phase(s: Sim, w: World, dt: u64) -> Sim {
    let timer = clamp_u64(s.repair_timer + dt) as u64;
    if timer >= NANO_REPAIR_INTERVAL {
        Sim {
            repair_timer: 0,
            cells: Seq::new(
                s.cells.len(),
                |x: int|
                    Seq::new(
                        s.cells[x].len(),
                        |y: int| mended(s.cells[x][y], repair_amount(w.auto_repairs)),
                    ),
            ),
            ..s
        }
    } else {
        Sim { repair_timer: timer, ..s }
    }
}

/// The hull: with no integrity left the run is lost, which is reported,
/// and integrity stands at zero.
pub open spec fn hull_phase(s: Sim) -> Sim {
    if s.ship_integrity <= 0 {
        Sim {
            ship_integrity: 0,
            phase: GamePhase::GameOver,
            events: s.events.push(GameEvent::CoreDestroyed),
            ..s
        }
    } else {
        s
    }
}

/// One tick of a run that is being played.
pub open spec fn tick(s: Sim, w: World, dt: u64, spawns: SpawnPoints) -> Sim {
    hull_phase(
        repair_phase(
            clock_phase(
                combat_phase(
                    movement_phase(
                        wave_phase(engine_phase(power_phase(s, w), w, dt), w, dt, spawns),
                        w,
                        dt,
                    ),
                    w,
                    dt,
                ),
                dt,
            ),
            w,
            dt,
        ),
    )
}

impl GameState {
    /// The simulated part of the state, with the game events `events`.
    pub open spec fn sim(self, events: Seq<GameEvent>) -> Sim {
        Sim {
            cells: self.ship.cells(),
            resources: self.resources,
            phase: self.phase,
            total_power: self.total_power,
            used_power: self.used_power,
            ship_integrity: self.ship_integrity,
            engine: EngineStatus {
                state: self.engine_state,
                stress: self.engine_stress,
                escape_timer: self.escape_timer,
                nanite_alert: self.nanite_alert,
            },
            enemies: self.enemies@,
            projectiles: self.projectiles@,
            wave: self.wave_state,
            frame_count: self.frame_count,
            time_survived: self.time_survived,
            repair_timer: self.repair_timer,
            events,
        }
    }

    /// What a tick reads of the state.
    pub open spec fn world(self) -> World {
        World {
            rooms: self.interior.rooms@,
            layout: self.layout,
            weapon: self.module_registry.stats_of(ModuleType::Weapon),
            targeting_tier: self.upgrades.level(crate::enemy::ai::targeting_tier_id()),
            credit_bonus: self.upgrades.level(credit_bonus_id()),
            auto_repairs: self.upgrades.level(auto_repairs_id()),
        }
    }

    /// Whether `self` differs from `before` in nothing but the simulated
    /// part.
    pub open spec fn same_setting(self, before: GameState) -> bool {
        self == (GameState {
            ship: self.ship,
            resources: self.resources,
            phase: self.phase,
            total_power: self.total_power,
            used_power: self.used_power,
            ship_integrity: self.ship_integrity,
            engine_state: self.engine_state,
            engine_stress: self.engine_stress,
            escape_timer: self.escape_timer,
            nanite_alert: self.nanite_alert,
            enemies: self.enemies,
            projectiles: self.projectiles,
            wave_state: self.wave_state,
            frame_count: self.frame_count,
            time_survived: self.time_survived,
            repair_timer: self.repair_timer,
            ..before
        })
    }

    /// Recomputes the power ledger from the rooms.
    pub fn update_power(&mut self)
        ensures
            final(self).total_power == cap_i32(generated(old(self).interior.rooms@)),
            final(self).used_power == cap_i32(consumed(old(self).interior.rooms@)),
            *final(self) == (GameState {
                total_power: final(self).total_power,
                used_power: final(self).used_power,
                ..*old(self)
            }),
    {
        let ledger = self.interior.power();
        self.total_power = ledger.total_power;
        self.used_power = ledger.used_power;
    }

    /// One tick of the engine: its state machine steps, an escape wins the
    /// run, a cascade damages the hull and calls a boss.
    pub fn update_engine(&mut self, dt: u64, events: &mut EventBus)
        ensures
            final(self).sim(final(events).game@) == engine_phase(
                old(self).sim(old(events).game@),
                old(self).world(),
                dt,
            ),
            final(self).same_setting(*old(self)),
            final(self).ship == old(self).ship,
            final(events).ui@ == old(events).ui@,
    {
        let (repaired, total) = engine_room_state(&self.interior.rooms);
        let boss_there = any_boss(&self.enemies);
        let mut status = EngineStatus {
            state: self.engine_state,
            stress: self.engine_stress,
            escape_timer: self.escape_timer,
            nanite_alert: self.nanite_alert,
        };
        let t = status.tick(repaired, total, dt, boss_there);
        self.engine_state = status.state;
        self.engine_stress = status.stress;
        self.escape_timer = status.escape_timer;
        self.nanite_alert = status.nanite_alert;
        if t.escaped {
            self.phase = GamePhase::Victory;
            let level = self.upgrades.get_level("credit_bonus");
            self.resources.add_credits(escape_credits(level));
            events.push_game(GameEvent::EscapeSuccess);
        }
        self.ship_integrity = clamp_to_i64(self.ship_integrity as i128 - t.hull_damage as i128);
        if t.boss {
            spawn_boss(&mut self.enemies, &mut self.wave_state, events);
        }
        proof {
            assert(self.sim(events.game@) =~= engine_phase(
                old(self).sim(old(events).game@),
                old(self).world(),
                dt,
            ));
        }
    }

    /// The repair robots: their timer runs, and when it has reached its
    /// interval they mend every module that is neither destroyed nor whole.
    pub fn update_auto_repair(&mut self, dt: u64)
        ensures
            forall|e: Seq<GameEvent>|
                #![trigger old(self).sim(e)]
                final(self).sim(e) == repair_phase(old(self).sim(e), old(self).world(), dt),
            final(self).same_setting(*old(self)),
    {
        let level = self.upgrades.get_level("auto_repairs");
        self.repair_timer = self.repair_timer.saturating_add(dt);
        if self.repair_timer >= NANO_REPAIR_INTERVAL {
            self.repair_timer = 0;
            mend_all(&mut self.ship, (level as i64) * NANO_REPAIR_RATE_PER_LEVEL);
        }
        proof {
            assert forall|e: Seq<GameEvent>| #![trigger old(self).sim(e)] self.sim(e) == repair_phase(
                old(self).sim(e),
                old(self).world(),
                dt,
            ) by {
                assert(self.sim(e) =~= repair_phase(old(self).sim(e), old(self).world(), dt));
            }
        }
    }

    /// Ends the run when no integrity is left.
    pub fn check_game_over(&mut self, events: &mut EventBus)
        ensures
            final(self).sim(final(events).game@) == hull_phase(old(self).sim(old(events).game@)),
            final(self).same_setting(*old(self)),
            final(self).ship == old(self).ship,
            final(events).ui@ == old(events).ui@,
    {
        if self.ship_integrity <= 0 {
            self.ship_integrity = 0;
            self.phase = GamePhase::GameOver;
            events.push_game(GameEvent::CoreDestroyed);
        }
        proof {
            assert(self.sim(events.game@) =~= hull_phase(old(self).sim(old(events).game@)));
        }
    }

    /// Advances the run by one frame of `dt` microseconds.
    ///
    /// A run that is not being played, or is paused, stays as it is.
    /// Otherwise the phases of [`tick`] run in their order. The points at
    /// which a drone and a guard spawn are drawn at random from just
    /// outside the playfield.
    pub fn update(&mut self, dt: u64, events: &mut EventBus)
        ensures
            final(self).same_setting(*old(self)),
            final(events).ui@ == old(events).ui@,
            old(self).phase == GamePhase::Playing && !old(self).paused ==> exists|
                spawns: SpawnPoints,
            |
                {
                    &&& is_spawn_point(spawns.drone)
                    &&& is_spawn_point(spawns.guard)
                    &&& final(self).sim(final(events).game@) == #[trigger] tick(
                        old(self).sim(old(events).game@),
                        old(self).world(),
                        dt,
                        spawns,
                    )
                },
            !(old(self).phase == GamePhase::Playing && !old(self).paused) ==> *final(self) == *old(
                self,
            ) && final(events).game@ == old(events).game@,
    {
        match self.phase {
            GamePhase::Playing => {},
            _ => {
                return ;
            },
        }
        if self.paused {
            return ;
        }
        let ghost w = self.world();
        let ghost s0 = self.sim(events.game@);

        self.update_power();
        let ghost s1 = self.sim(events.game@);
        assert(s1 =~= power_phase(s0, w));

        self.update_engine(dt, events);
        let ghost s2 = self.sim(events.game@);
        assert(self.world() == w);

        let ghost before_wave = self.enemies@;
        let ghost wave_before = self.wave_state;
        update_wave_logic(
            self.total_power,
            &self.engine_state,
            &mut self.enemies,
            &self.upgrades,
            &mut self.wave_state,
            dt,
            events,
        );
        let ghost spawns = {
            let step = crate::enemy::ai::planned_wave(
                wave_before,
                self.total_power,
                self.engine_state,
                before_wave,
                self.upgrades,
                dt,
            );
            let (drone, guard) = choose|drone: Vec2, guard: Vec2|
                {
                    &&& is_spawn_point(drone)
                    &&& is_spawn_point(guard)
                    &&& self.enemies@ == (#[trigger] wave_outcome(
                        before_wave,
                        step.0,
                        step.1,
                        drone,
                        guard,
                    )).0
                    &&& self.wave_state == wave_outcome(before_wave, step.0, step.1, drone, guard).1
                };
            SpawnPoints { drone, guard }
        };
        let ghost s3 = self.sim(events.game@);
        assert(s3 =~= wave_phase(s2, w, dt, spawns));

        update_enemies(self, dt);
        let ghost s4 = self.sim(events.game@);
        assert(s4 == movement_phase(s3, w, dt));
        assert(self.world() == w);

        update_combat(self, dt, events);
        let ghost s7 = self.sim(events.game@);
        assert(self.world() == w);

        if self.frame_count < u64::MAX {
            self.frame_count += 1;
        }
        self.time_survived = self.time_survived.saturating_add(dt);
        let ghost s8 = self.sim(events.game@);
        assert(s8 =~= clock_phase(s7, dt));

        self.update_auto_repair(dt);
        let ghost s9 = self.sim(events.game@);
        assert(s9 == repair_phase(s8, w, dt));

        self.check_game_over(events);
        assert(self.sim(events.game@) == tick(s0, w, dt, spawns));
    }
}

/// Credits of an escape at the given level of the credit upgrade.
pub fn escape_credits(level: u32) -> (credits: i32)
    ensures
        credits == victory_credits(level),
{
    assert(0 <= CREDIT_BONUS_PER_LEVEL * level <= 250 * 0xffff_ffff) by (nonlinear_arith)
        requires
            CREDIT_BONUS_PER_LEVEL == 250,
            0 <= level <= 0xffff_ffff,
    ;
    let factor: i128 = (MILLI + CREDIT_BONUS_PER_LEVEL * (level as u64)) as i128;
    assert(0 <= BASE_ESCAPE_CREDITS * factor <= 500 * (1000 + 250 * 0xffff_ffff)) by (nonlinear_arith)
        requires
            BASE_ESCAPE_CREDITS == 500,
            0 <= factor <= 1000 + 250 * 0xffff_ffff,
    ;
    clamp_to_i32((BASE_ESCAPE_CREDITS as i128) * factor / (MILLI as i128))
}

/// Repaired points and points of the engine room.
pub fn engine_room_state(rooms: &Vec<Room>) -> (state: (usize, usize))
    ensures
        (state.0 as nat, state.1 as nat) == engine_room(rooms@),
        state.0 <= state.1,
{
    let mut repaired: usize = 0;
    let mut total: usize = 0;
    let mut i: usize = 0;
    while i < rooms.len()
        invariant
            i <= rooms@.len(),
            (repaired as nat, total as nat) == engine_room(rooms@.take(i as int)),
            repaired <= total,
        decreases rooms@.len() - i,
    {
        proof {
            assert(rooms@.take(i + 1).drop_last() =~= rooms@.take(i as int));
        }
        let room = &rooms[i];
        if room.room_type == RoomType::Module(ModuleType::Engine) && room.repair_points.len() > 0 {
            repaired = room.repaired_count();
            total = room.repair_points.len();
        }
        i += 1;
    }
    proof {
        assert(rooms@.take(i as int) =~= rooms@);
    }
    (repaired, total)
}

/// One visit of the repair robots to every slot.
pub fn mend_all(ship: &mut Ship, amount: i64)
    requires
        0 <= amount,
    ensures
        final(ship).cells() == Seq::new(
            old(ship).cells().len(),
            |x: int|
                Seq::new(old(ship).cells()[x].len(), |y: int| mended(old(ship).cells()[x][y], amount)),
        ),
{
    let ghost start = ship.cells();
    let mut x: usize = 0;
    while x < ship.grid.len()
        invariant
            x <= ship.grid@.len(),
            0 <= amount,
            ship.grid@.len() == start.len(),
            forall|i: int| 0 <= i < start.len() ==> (#[trigger] ship.grid@[i])@.len() == start[i].len(),
            forall|i: int, j: int|
                0 <= i < x && 0 <= j < start[i].len() ==> #[trigger] ship.grid@[i]@[j] == mended(
                    start[i][j],
                    amount,
                ),
            forall|i: int, j: int|
                x <= i < start.len() && 0 <= j < start[i].len() ==> #[trigger] ship.grid@[i]@[j]
                    == start[i][j],
        decreases ship.grid@.len() - x,
    {
        let mut y: usize = 0;
        while y < ship.grid[x].len()
            invariant
                x < ship.grid@.len(),
                y <= ship.grid@[x as int]@.len(),
                0 <= amount,
                ship.grid@.len() == start.len(),
                forall|i: int|
                    0 <= i < start.len() ==> (#[trigger] ship.grid@[i])@.len() == start[i].len(),
                forall|i: int, j: int|
                    0 <= i < x && 0 <= j < start[i].len() ==> #[trigger] ship.grid@[i]@[j]
                        == mended(start[i][j], amount),
                forall|j: int|
                    0 <= j < y ==> #[trigger] ship.grid@[x as int]@[j] == mended(
                        start[x as int][j],
                        amount,
                    ),
                forall|j: int|
                    y <= j < start[x as int].len() ==> #[trigger] ship.grid@[x as int]@[j]
                        == start[x as int][j],
                forall|i: int, j: int|
                    x < i < start.len() && 0 <= j < start[i].len() ==> #[trigger] ship.grid@[i]@[j]
                        == start[i][j],
            decreases ship.grid@[x as int]@.len() - y,
        {
            if let Some(module) = ship.grid[x][y] {
                if module.state != ModuleState::Destroyed && module.health < module.max_health {
                    let mut m = module;
                    let raised: i128 = m.health as i128 + amount as i128;
                    m.health = if raised < m.max_health as i128 {
                        raised as i64
                    } else {
                        m.max_health
                    };
                    ship.grid[x][y] = Some(m);
                }
            }
            y += 1;
        }
        x += 1;
    }
    proof {
        let want = Seq::new(
            start.len(),
            |x: int| Seq::new(start[x].len(), |y: int| mended(start[x][y], amount)),
        );
        assert(ship.cells().len() == want.len());
        assert forall|i: int| 0 <= i < want.len() implies #[trigger] ship.cells()[i] == want[i] by {
            assert(ship.cells()[i] =~= want[i]);
        }
        assert(ship.cells() =~= want);
    }
}

} // verus!
