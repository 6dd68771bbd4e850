//! What holds of a run from tick to tick: at most one boss is alive, no two
//! enemies share an id, no enemy is left without health, and the hull's
//! integrity is not left below zero.

use vstd::prelude::*;
use crate::enemy::ai::{
    boss_count, boss_spawn_point, has_boss, lemma_boss_count_push, lemma_boss_count_zero,
    lemma_spawn_keeps_numbering, lemma_wave_keeps_one_boss, spawned_into, well_numbered,
};
use crate::enemy::combat::{collide_all, flown, is_living, lemma_collisions_keep_enemies, HitModel};
use crate::enemy::entities::{Enemy, EnemyType};
use crate::enemy::wave::wave_step;
use crate::state::engine::engine_step;
use crate::state::game_state::EngineState;
use crate::state::game_update::{
    attack_phase, clock_phase, engine_phase, engine_room, fire_phase, hull_phase, movement_phase,
    power_phase, projectile_phase, repair_phase, tick, wave_phase, Sim, SpawnPoints, World,
};

verus! {

/// Two lists of enemies of the same archetypes, place by place, have as
/// many bosses.
pub proof fn lemma_boss_count_by_type(a: Seq<Enemy>, b: Seq<Enemy>)
    requires
        a.len() == b.len(),
        forall|i: int| 0 <= i < a.len() ==> (#[trigger] a[i]).enemy_type == b[i].enemy_type,
    ensures
        boss_count(a) == boss_count(b),
    decreases a.len(),
{
    if a.len() > 0 {
        assert forall|i: int| 0 <= i < a.drop_last().len() implies (#[trigger] a.drop_last()[i]).enemy_type
            == b.drop_last()[i].enemy_type by {
            assert(a[i].enemy_type == b[i].enemy_type);
        }
        lemma_boss_count_by_type(a.drop_last(), b.drop_last());
        assert(a.last().enemy_type == b.last().enemy_type);
    }
}

/// Removing the dead adds no boss.
pub proof fn lemma_boss_count_living(enemies: Seq<Enemy>)
    ensures
        boss_count(enemies.filter(is_living())) <= boss_count(enemies),
    decreases enemies.len(),
{
    reveal(Seq::filter);
    if enemies.len() > 0 {
        lemma_boss_count_living(enemies.drop_last());
        if is_living()(enemies.last()) {
            lemma_boss_count_push(enemies.drop_last().filter(is_living()), enemies.last());
        }
    }
}

/// Whether `enemy` is one of `enemies`.
pub open spec fn was_there(enemies: Seq<Enemy>, enemy: Enemy) -> bool {
    exists|j: int| 0 <= j < enemies.len() && #[trigger] enemies[j] == enemy
}

/// Removing the dead keeps the ids below the next id and distinct, and
/// every enemy that stays was there before.
pub proof fn lemma_numbering_living(enemies: Seq<Enemy>, next: u64)
    requires
        well_numbered(enemies, next),
    ensures
        well_numbered(enemies.filter(is_living()), next),
        forall|k: int|
            0 <= k < enemies.filter(is_living()).len() ==> was_there(
                enemies,
                #[trigger] enemies.filter(is_living())[k],
            ),
    decreases enemies.len(),
{
    reveal(Seq::filter);
    let kept = enemies.filter(is_living());
    if enemies.len() > 0 {
        let init = enemies.drop_last();
        let kept_init = init.filter(is_living());
        assert(well_numbered(init, next)) by {
            assert forall|i: int| 0 <= i < init.len() implies (#[trigger] init[i]).id < next by {
                assert(enemies[i].id < next);
            }
            assert forall|i: int, j: int| 0 <= i < j < init.len() implies (#[trigger] init[i]).id != (
            #[trigger] init[j]).id by {
                assert(enemies[i].id != enemies[j].id);
            }
        }
        lemma_numbering_living(init, next);
        assert forall|k: int| 0 <= k < kept.len() implies was_there(enemies, #[trigger] kept[k]) by {
            if k < kept_init.len() {
                assert(was_there(init, kept_init[k]));
                let j = choose|j: int| 0 <= j < init.len() && #[trigger] init[j] == kept_init[k];
                assert(enemies[j] == kept[k]);
            } else {
                assert(enemies[enemies.len() - 1] == kept[k]);
            }
        }
        assert forall|i: int| 0 <= i < kept.len() implies (#[trigger] kept[i]).id < next by {
            assert(was_there(enemies, kept[i]));
            let j = choose|j: int| 0 <= j < enemies.len() && #[trigger] enemies[j] == kept[i];
            assert(enemies[j].id < next);
        }
        assert forall|i: int, k: int| 0 <= i < k < kept.len() implies (#[trigger] kept[i]).id != (
        #[trigger] kept[k]).id by {
            if k < kept_init.len() {
                assert(kept_init[i].id != kept_init[k].id);
            } else {
                assert(was_there(init, kept_init[i]));
                let j = choose|j: int| 0 <= j < init.len() && #[trigger] init[j] == kept_init[i];
                assert(enemies[j].id != enemies[enemies.len() - 1].id);
            }
        }
    }
}

/// Two lists of enemies with the same ids, place by place, are numbered
/// alike.
pub proof fn lemma_numbering_by_id(a: Seq<Enemy>, b: Seq<Enemy>, next: u64)
    requires
        a.len() == b.len(),
        forall|i: int| 0 <= i < a.len() ==> (#[trigger] a[i]).id == b[i].id,
        well_numbered(a, next),
    ensures
        well_numbered(b, next),
{
    assert forall|i: int| 0 <= i < b.len() implies (#[trigger] b[i]).id < next by {
        assert(a[i].id < next);
    }
    assert forall|i: int, j: int| 0 <= i < j < b.len() implies (#[trigger] b[i]).id != (
    #[trigger] b[j]).id by {
        assert(a[i].id != a[j].id);
    }
}

/// At most one boss. If a run has at most one boss before a tick, it has at
/// most one after it: the engine's cascade and the wave director call a
/// boss only where none is there, and no other phase adds an enemy.
pub proof fn lemma_tick_keeps_one_boss(s: Sim, w: World, dt: u64, spawns: SpawnPoints)
    requires
        boss_count(s.enemies) <= 1,
    ensures
        boss_count(tick(s, w, dt, spawns).enemies) <= 1,
{
    let s1 = power_phase(s, w);
    let s2 = engine_phase(s1, w, dt);
    lemma_boss_count_zero(s1.enemies);
    let (repaired, total) = engine_room(w.rooms);
    let step = engine_step(s1.engine, repaired, total, dt, has_boss(s1.enemies));
    if step.boss && s1.wave.next_enemy_id < u64::MAX {
        lemma_boss_count_push(
            s1.enemies,
            Enemy::spawned(s1.wave.next_enemy_id, EnemyType::Boss, boss_spawn_point()),
        );
    }
    assert(boss_count(s2.enemies) <= 1);
    let s3 = wave_phase(s2, w, dt, spawns);
    lemma_wave_keeps_one_boss(
        s2.enemies,
        s2.wave,
        s2.total_power,
        s2.engine.state == EngineState::Charging,
        w.targeting_tier,
        dt,
        spawns.drone,
        spawns.guard,
    );
    assert(boss_count(s3.enemies) <= 1);
    let s4 = movement_phase(s3, w, dt);
    lemma_boss_count_by_type(s3.enemies, s4.enemies);
    let s5 = fire_phase(s4, w, dt);
    let s6 = projectile_phase(s5, w, dt);
    let start = HitModel { enemies: s5.enemies, resources: s5.resources, events: s5.events };
    let flying = Seq::new(s5.projectiles.len(), |i: int| flown(s5.projectiles[i], w.layout, dt));
    lemma_collisions_keep_enemies(start, flying);
    lemma_boss_count_by_type(s5.enemies, collide_all(start, flying).enemies);
    lemma_boss_count_living(collide_all(start, flying).enemies);
    assert(boss_count(s6.enemies) <= 1);
    let s7 = attack_phase(s6, w, dt);
    lemma_boss_count_by_type(s6.enemies, s7.enemies);
    let s8 = clock_phase(s7, dt);
    let s9 = repair_phase(s8, w, dt);
    assert(tick(s, w, dt, spawns) == hull_phase(s9));
}

/// Distinct ids. If before a tick every enemy's id is below the next id
/// and no two enemies share one, the same holds after it, and the next id
/// has not fallen.
pub proof fn lemma_tick_keeps_numbering(s: Sim, w: World, dt: u64, spawns: SpawnPoints)
    requires
        well_numbered(s.enemies, s.wave.next_enemy_id),
    ensures
        well_numbered(tick(s, w, dt, spawns).enemies, tick(s, w, dt, spawns).wave.next_enemy_id),
        tick(s, w, dt, spawns).wave.next_enemy_id >= s.wave.next_enemy_id,
{
    let s1 = power_phase(s, w);
    let s2 = engine_phase(s1, w, dt);
    lemma_spawn_keeps_numbering(s1.enemies, s1.wave, EnemyType::Boss, boss_spawn_point());
    assert(well_numbered(s2.enemies, s2.wave.next_enemy_id));
    let s3 = wave_phase(s2, w, dt, spawns);
    let (stepped, plan) = wave_step(
        s2.wave,
        s2.total_power,
        s2.engine.state == EngineState::Charging,
        has_boss(s2.enemies),
        w.targeting_tier,
        dt,
    );
    assert(stepped.next_enemy_id == s2.wave.next_enemy_id);
    lemma_spawn_keeps_numbering(s2.enemies, stepped, EnemyType::Boss, boss_spawn_point());
    let (e1, w1) = if plan.boss {
        spawned_into(s2.enemies, stepped, EnemyType::Boss, boss_spawn_point())
    } else {
        (s2.enemies, stepped)
    };
    lemma_spawn_keeps_numbering(e1, w1, EnemyType::Nanodrone, spawns.drone);
    let (e2, w2) = if plan.drone {
        spawned_into(e1, w1, EnemyType::Nanodrone, spawns.drone)
    } else {
        (e1, w1)
    };
    lemma_spawn_keeps_numbering(e2, w2, EnemyType::Nanoguard, spawns.guard);
    assert(well_numbered(s3.enemies, s3.wave.next_enemy_id));
    let next = s3.wave.next_enemy_id;
    let s4 = movement_phase(s3, w, dt);
    lemma_numbering_by_id(s3.enemies, s4.enemies, next);
    let s5 = fire_phase(s4, w, dt);
    let s6 = projectile_phase(s5, w, dt);
    let start = HitModel { enemies: s5.enemies, resources: s5.resources, events: s5.events };
    let flying = Seq::new(s5.projectiles.len(), |i: int| flown(s5.projectiles[i], w.layout, dt));
    lemma_collisions_keep_enemies(start, flying);
    lemma_numbering_by_id(s5.enemies, collide_all(start, flying).enemies, next);
    lemma_numbering_living(collide_all(start, flying).enemies, next);
    assert(well_numbered(s6.enemies, next));
    let s7 = attack_phase(s6, w, dt);
    lemma_numbering_by_id(s6.enemies, s7.enemies, next);
    let s8 = clock_phase(s7, dt);
    let s9 = repair_phase(s8, w, dt);
    assert(tick(s, w, dt, spawns) == hull_phase(s9));
}

/// No enemy is left without health: those a tick kills it removes.
pub proof fn lemma_tick_leaves_the_living(s: Sim, w: World, dt: u64, spawns: SpawnPoints)
    ensures
        forall|i: int|
            0 <= i < tick(s, w, dt, spawns).enemies.len() ==> (#[trigger] tick(
                s,
                w,
                dt,
                spawns,
            ).enemies[i]).alive(),
{
    let s5 = fire_phase(
        movement_phase(wave_phase(engine_phase(power_phase(s, w), w, dt), w, dt, spawns), w, dt),
        w,
        dt,
    );
    let s6 = projectile_phase(s5, w, dt);
    let start = HitModel { enemies: s5.enemies, resources: s5.resources, events: s5.events };
    let flying = Seq::new(s5.projectiles.len(), |i: int| flown(s5.projectiles[i], w.layout, dt));
    let hit = collide_all(start, flying).enemies;
    assert forall|i: int| 0 <= i < s6.enemies.len() implies (#[trigger] s6.enemies[i]).alive() by {
        hit.lemma_filter_pred(is_living(), i);
    }
    let s7 = attack_phase(s6, w, dt);
    assert forall|i: int| 0 <= i < s7.enemies.len() implies (#[trigger] s7.enemies[i]).alive() by {
        assert(s6.enemies[i].alive());
    }
    let s9 = repair_phase(clock_phase(s7, dt), w, dt);
    assert(tick(s, w, dt, spawns) == hull_phase(s9));
}

/// Integrity is never left below zero: a tick that takes it there ends the
/// run and sets it to zero.
pub proof fn lemma_tick_keeps_integrity(s: Sim, w: World, dt: u64, spawns: SpawnPoints)
    ensures
        tick(s, w, dt, spawns).ship_integrity >= 0,
{
}

/// What one tick of a run is given: what it reads of the state, its
/// length, and where its drone and its guard spawn.
pub struct TickInput {
    pub world: World,
    pub dt: u64,
    pub spawns: SpawnPoints,
}

/// A run after the ticks `inputs`. Between ticks the player may change what
/// a tick reads, so each tick has its own.
pub open spec fn run(s: Sim, inputs: Seq<TickInput>) -> Sim
    decreases inputs.len(),
{
    if inputs.len() == 0 {
        s
    } else {
        tick(run(s, inputs.drop_last()), inputs.last().world, inputs.last().dt, inputs.last().spawns)
    }
}

/// Through a whole run: if a run starts with at most one boss and with
/// distinct ids below the next id, then after any number of ticks it has at
/// most one boss, its ids are distinct and below the next id, and, once a
/// tick has run, every enemy has health and the hull's integrity is not
/// below zero.
pub proof fn lemma_run_keeps_order(s: Sim, inputs: Seq<TickInput>)
    requires
        boss_count(s.enemies) <= 1,
        well_numbered(s.enemies, s.wave.next_enemy_id),
    ensures
        boss_count(run(s, inputs).enemies) <= 1,
        well_numbered(run(s, inputs).enemies, run(s, inputs).wave.next_enemy_id),
        run(s, inputs).wave.next_enemy_id >= s.wave.next_enemy_id,
        inputs.len() > 0 ==> run(s, inputs).ship_integrity >= 0,
        inputs.len() > 0 ==> forall|i: int|
            0 <= i < run(s, inputs).enemies.len() ==> (#[trigger] run(s, inputs).enemies[i]).alive(),
    decreases inputs.len(),
{
    if inputs.len() > 0 {
        let before = run(s, inputs.drop_last());
        let last = inputs.last();
        lemma_run_keeps_order(s, inputs.drop_last());
        lemma_tick_keeps_one_boss(before, last.world, last.dt, last.spawns);
        lemma_tick_keeps_numbering(before, last.world, last.dt, last.spawns);
        lemma_tick_leaves_the_living(before, last.world, last.dt, last.spawns);
        lemma_tick_keeps_integrity(before, last.world, last.dt, last.spawns);
    }
}

} // verus!
