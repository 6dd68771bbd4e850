//! The wave director's state and its decision, tick by tick, of what
//! spawns.

use vstd::prelude::*;
use crate::simulation::constants::{
    SPAWN_INTERVAL_DRONE_T0, SPAWN_INTERVAL_DRONE_T1, SPAWN_INTERVAL_DRONE_T2,
    SPAWN_INTERVAL_DRONE_T3, SPAWN_INTERVAL_GUARD_T2, SPAWN_INTERVAL_GUARD_T3, WAVE_GRACE_POWER,
    WAVE_T1_POWER, WAVE_T2_POWER, WAVE_T3_POWER,
};
use crate::units::clamp_u64;

verus! {

/// Spawn timers and the id the next enemy gets.
#[derive(Debug, Clone, Copy, PartialEq, Eq, Structural)]
pub struct WaveState {
    /// Time since the last drone spawned.
    pub spawn_timer: u64,
    /// Time since the last guard spawned.
    pub guard_timer: u64,
    /// Id of the next enemy; larger than every id handed out so far.
    pub next_enemy_id: u64,
}

/// What the director decided to spawn on one tick.
#[derive(Debug, Clone, Copy, PartialEq, Eq, Structural)]
pub struct WavePlan {
    pub boss: bool,
    pub drone: bool,
    pub guard: bool,
}

/// `base` shortened by the difficulty multiplier `1 + tier / 2`.
pub open spec fn scaled_interval(base: nat, tier: nat) -> nat {
    base * 2 / (2 + tier)
}

/// Time between two drones at the given power and targeting tier.
pub open spec fn drone_interval(power: int, tier: nat) -> nat {
    if power >= WAVE_T3_POWER {
        scaled_interval(SPAWN_INTERVAL_DRONE_T3 as nat, tier)
    } else if power >= WAVE_T2_POWER {
        scaled_interval(SPAWN_INTERVAL_DRONE_T2 as nat, tier)
    } else if power >= WAVE_T1_POWER {
        scaled_interval(SPAWN_INTERVAL_DRONE_T1 as nat, tier)
    } else {
        scaled_interval(SPAWN_INTERVAL_DRONE_T0 as nat, tier)
    }
}

/// Time between two guards at the given power and targeting tier; `None`
/// below the power at which guards begin to spawn.
pub open spec fn guard_interval(power: int, tier: nat) -> Option<nat> {
    if power >= WAVE_T3_POWER {
        Some(scaled_interval(SPAWN_INTERVAL_GUARD_T3 as nat, tier))
    } else if power >= WAVE_T2_POWER {
        Some(scaled_interval(SPAWN_INTERVAL_GUARD_T2 as nat, tier))
    } else {
        None
    }
}

/// The director's state after one tick, and what it spawns on it.
///
/// While the engine charges, the timers stand still and the one thing that
/// spawns is a boss, if none is there. Otherwise both timers advance by
/// `dt`; below the grace power nothing spawns; from there on a drone spawns
/// when its timer has reached its interval, a guard when its timer has
/// reached its interval, and each spawn resets its own timer alone.
pub open spec fn wave_step(
    wave: WaveState,
    power: i32,
    charging: bool,
    has_boss: bool,
    tier: u32,
    dt: u64,
) -> (WaveState, WavePlan) {
    if charging {
        (wave, WavePlan { boss: !has_boss, drone: false, guard: false })
    } else {
        let advanced = wave.advanced(dt);
        if power < WAVE_GRACE_POWER {
            (advanced, WavePlan { boss: false, drone: false, guard: false })
        } else {
            let drone = advanced.spawn_timer >= drone_interval(power as int, tier as nat);
            let guard = match guard_interval(power as int, tier as nat) {
                Some(interval) => advanced.guard_timer >= interval,
                None => false,
            };
            (
                WaveState {
                    spawn_timer: if drone {
                        0
                    } else {
                        advanced.spawn_timer
                    },
                    guard_timer: if guard {
                        0
                    } else {
                        advanced.guard_timer
                    },
                    next_enemy_id: advanced.next_enemy_id,
                },
                WavePlan { boss: false, drone, guard },
            )
        }
    }
}

/// `base` shortened by the difficulty multiplier of `tier`.
fn scale_interval(base: u64, tier: u32) -> (r: u64)
    requires
        base <= 0x1_0000_0000,
    ensures
        r == scaled_interval(base as nat, tier as nat),
{
    base * 2 / (2 + tier as u64)
}

/// Time between two drones at the given power and targeting tier.
pub fn drone_spawn_interval(power: i32, tier: u32) -> (r: u64)
    ensures
        r == drone_interval(power as int, tier as nat),
{
    if power >= WAVE_T3_POWER {
        scale_interval(SPAWN_INTERVAL_DRONE_T3, tier)
    } else if power >= WAVE_T2_POWER {
        scale_interval(SPAWN_INTERVAL_DRONE_T2, tier)
    } else if power >= WAVE_T1_POWER {
        scale_interval(SPAWN_INTERVAL_DRONE_T1, tier)
    } else {
        scale_interval(SPAWN_INTERVAL_DRONE_T0, tier)
    }
}

/// Time between two guards at the given power and targeting tier.
pub fn guard_spawn_interval(power: i32, tier: u32) -> (r: Option<u64>)
    ensures
        r matches Some(v) ==> guard_interval(power as int, tier as nat) == Some(v as nat),
        r.is_none() ==> guard_interval(power as int, tier as nat).is_none(),
{
    if power >= WAVE_T3_POWER {
        Some(scale_interval(SPAWN_INTERVAL_GUARD_T3, tier))
    } else if power >= WAVE_T2_POWER {
        Some(scale_interval(SPAWN_INTERVAL_GUARD_T2, tier))
    } else {
        None
    }
}

impl WaveState {
    /// The director at the start of a run.
    pub fn new() -> (w: Self)
        ensures
            w == (WaveState { spawn_timer: 0, guard_timer: 0, next_enemy_id: 0 }),
    {
        WaveState { spawn_timer: 0, guard_timer: 0, next_enemy_id: 0 }
    }

    /// The state after `dt` more microseconds: both timers `dt` later, or
    /// at the largest `u64` if that is sooner.
    pub open spec fn advanced(self, dt: u64) -> WaveState {
        WaveState {
            spawn_timer: clamp_u64(self.spawn_timer + dt) as u64,
            guard_timer: clamp_u64(self.guard_timer + dt) as u64,
            next_enemy_id: self.next_enemy_id,
        }
    }

    /// Advances both timers by `dt`.
    pub fn update(&mut self, dt: u64)
        ensures
            *final(self) == old(self).advanced(dt),
    {
        self.spawn_timer = self.spawn_timer.saturating_add(dt);
        self.guard_timer = self.guard_timer.saturating_add(dt);
    }

    /// Starts the drone timer over.
    pub fn reset_spawn_timer(&mut self)
        ensures
            *final(self) == (WaveState { spawn_timer: 0, ..*old(self) }),
    {
        self.spawn_timer = 0;
    }

    /// Starts the guard timer over.
    pub fn reset_guard_timer(&mut self)
        ensures
            *final(self) == (WaveState { guard_timer: 0, ..*old(self) }),
    {
        self.guard_timer = 0;
    }

    /// Advances the director by one tick and says what spawns on it.
    pub fn plan(&mut self, power: i32, charging: bool, has_boss: bool, tier: u32, dt: u64) -> (plan:
        WavePlan)
        ensures
            (*final(self), plan) == wave_step(*old(self), power, charging, has_boss, tier, dt),
    {
        if charging {
            return WavePlan { boss: !has_boss, drone: false, guard: false };
        }
        self.update(dt);
        if power < WAVE_GRACE_POWER {
            return WavePlan { boss: false, drone: false, guard: false };
        }
        let drone = self.spawn_timer >= drone_spawn_interval(power, tier);
        let guard = match guard_spawn_interval(power, tier) {
            Some(interval) => self.guard_timer >= interval,
            None => false,
        };
        if drone {
            self.reset_spawn_timer();
        }
        if guard {
            self.reset_guard_timer();
        }
        WavePlan { boss: false, drone, guard }
    }
}

/// Number of drones that spawn over the ticks `dts`, at constant power and
/// with the engine not charging.
pub open spec fn drones_spawned(wave: WaveState, power: i32, tier: u32, dts: Seq<u64>) -> nat
    decreases dts.len(),
{
    if dts.len() == 0 {
        0
    } else {
        let (next, plan) = wave_step(wave, power, false, false, tier, dts[0]);
        drones_spawned(next, power, tier, dts.drop_first()) + if plan.drone {
            1nat
        } else {
            0nat
        }
    }
}

/// Number of guards that spawn over the ticks `dts`, at constant power and
/// with the engine not charging.
pub open spec fn guards_spawned(wave: WaveState, power: i32, tier: u32, dts: Seq<u64>) -> nat
    decreases dts.len(),
{
    if dts.len() == 0 {
        0
    } else {
        let (next, plan) = wave_step(wave, power, false, false, tier, dts[0]);
        guards_spawned(next, power, tier, dts.drop_first()) + if plan.guard {
            1nat
        } else {
            0nat
        }
    }
}

/// Sum of the ticks `dts`.
pub open spec fn elapsed(dts: Seq<u64>) -> nat
    decreases dts.len(),
{
    if dts.len() == 0 {
        0
    } else {
        dts[0] as nat + elapsed(dts.drop_first())
    }
}

/// Drone count against elapsed time. At constant power at or above the
/// grace power, starting with a drone timer no later than one interval
/// `I`, over ticks of at most `max_dt` each that sum to `T` without
/// carrying the timer past `u64`, the number `n` of drones spawned
/// satisfies `n * I <= timer + T <= n * (I + max_dt) + I`. With ticks that
/// are short against the interval this puts `n` within one of `T / I`.
pub proof fn lemma_drone_count(wave: WaveState, power: i32, tier: u32, dts: Seq<u64>, max_dt: nat)
    requires
        power >= WAVE_GRACE_POWER,
        wave.spawn_timer <= drone_interval(power as int, tier as nat),
        wave.spawn_timer + elapsed(dts) <= u64::MAX,
        forall|i: int| 0 <= i < dts.len() ==> #[trigger] dts[i] <= max_dt,
    ensures
        ({
            let n = drones_spawned(wave, power, tier, dts);
            let interval = drone_interval(power as int, tier as nat);
            &&& n * interval <= wave.spawn_timer + elapsed(dts)
            &&& wave.spawn_timer + elapsed(dts) <= n * (interval + max_dt) + interval
        }),
    decreases dts.len(),
{
    let interval = drone_interval(power as int, tier as nat);
    if dts.len() == 0 {
        assert(0 * interval == 0 && 0 * (interval + max_dt) == 0) by (nonlinear_arith);
    } else {
        let (next, plan) = wave_step(wave, power, false, false, tier, dts[0]);
        let rest = dts.drop_first();
        assert forall|i: int| 0 <= i < rest.len() implies #[trigger] rest[i] <= max_dt by {
            assert(dts[i + 1] <= max_dt);
        }
        assert(dts[0] <= max_dt);
        lemma_drone_count(next, power, tier, rest, max_dt);
        let m = drones_spawned(next, power, tier, rest);
        if plan.drone {
            assert((m + 1) * interval == m * interval + interval && (m + 1) * (interval + max_dt)
                == m * (interval + max_dt) + interval + max_dt) by (nonlinear_arith);
        }
    }
}

/// Below the power at which guards begin to spawn, none ever does.
pub proof fn lemma_no_guards_below_tier(wave: WaveState, power: i32, tier: u32, dts: Seq<u64>)
    requires
        power < WAVE_T2_POWER,
    ensures
        guards_spawned(wave, power, tier, dts) == 0,
    decreases dts.len(),
{
    if dts.len() > 0 {
        lemma_no_guards_below_tier(
            wave_step(wave, power, false, false, tier, dts[0]).0,
            power,
            tier,
            dts.drop_first(),
        );
    }
}

/// Below the grace power nothing spawns, however much time passes.
pub proof fn lemma_nothing_below_grace(wave: WaveState, power: i32, tier: u32, dts: Seq<u64>)
    requires
        power < WAVE_GRACE_POWER,
    ensures
        drones_spawned(wave, power, tier, dts) == 0,
        guards_spawned(wave, power, tier, dts) == 0,
    decreases dts.len(),
{
    if dts.len() > 0 {
        lemma_nothing_below_grace(
            wave_step(wave, power, false, false, tier, dts[0]).0,
            power,
            tier,
            dts.drop_first(),
        );
    }
}

/// While the engine charges, no drone and no guard spawns, the timers stand
/// still, and a boss spawns exactly when none is there.
pub proof fn lemma_charging_suspends_waves(
    wave: WaveState,
    power: i32,
    has_boss: bool,
    tier: u32,
    dt: u64,
)
    ensures
        ({
            let (next, plan) = wave_step(wave, power, true, has_boss, tier, dt);
            &&& next == wave
            &&& !plan.drone
            &&& !plan.guard
            &&& plan.boss == !has_boss
        }),
{
}

} // verus!
