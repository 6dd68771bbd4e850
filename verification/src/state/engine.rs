//! The engine's state machine: charging toward the escape, stress that
//! builds while it charges, and the cascade that overload sets off.

use vstd::prelude::*;
use crate::simulation::constants::{
    CASCADE_DAMAGE_PER_SEC, CHARGE_REVERSAL_FACTOR, ENGINE_MIN_REPAIR, NANITE_ALERT_BASE,
    NANITE_ALERT_BOSS_SPIKE, NANITE_ALERT_GROWTH_PERIOD, STRESS_DECAY_IDLE,
    STRESS_THRESHOLD_CRITICAL, STRESS_THRESHOLD_UNSTABLE,
};
use crate::state::game_state::EngineState;
use crate::units::{clamp_to_u64, clamp_u64, lemma_product_fits, MICROS_PER_SECOND, MILLI};

verus! {

/// What the engine's state machine keeps from tick to tick.
#[derive(Debug, Clone, Copy, PartialEq, Eq, Structural)]
pub struct EngineStatus {
    pub state: EngineState,
    /// Stress, in millionths.
    pub stress: u64,
    /// Charging time left until the escape.
    pub escape_timer: u64,
    /// Nanite alert, in millionths.
    pub nanite_alert: u64,
}

/// What one tick of the engine did, beside changing its status.
#[derive(Debug, Clone, Copy, PartialEq, Eq, Structural)]
pub struct EngineTick {
    pub status: EngineStatus,
    /// The escape timer ran out on this tick.
    pub escaped: bool,
    /// Stress stood at or above the critical threshold after this tick's
    /// accumulation.
    pub cascade: bool,
    /// The cascade calls a boss.
    pub boss: bool,
    /// Hull damage of the cascade.
    pub hull_damage: i64,
}

/// Whether an engine room with `repaired` of `total` points repaired can
/// sustain charging: whether the repaired fraction is at least
/// `ENGINE_MIN_REPAIR`. A room without points cannot.
pub open spec fn sustains_charging(repaired: nat, total: nat) -> bool {
    total > 0 && repaired * MILLI >= ENGINE_MIN_REPAIR * total
}

/// The state after the tick's transition.
///
/// With too little repaired the engine idles, whatever it did. Otherwise an
/// idle engine starts charging if stress is at or below the unstable
/// threshold, a charging engine shuts down if stress is at or above the
/// critical threshold, and an escaped engine stays escaped.
pub open spec fn transition(state: EngineState, stress: u64, repaired: nat, total: nat) -> EngineState {
    if sustains_charging(repaired, total) {
        match state {
            EngineState::Idle => if stress <= STRESS_THRESHOLD_UNSTABLE {
                EngineState::Charging
            } else {
                EngineState::Idle
            },
            EngineState::Charging => if stress >= STRESS_THRESHOLD_CRITICAL {
                EngineState::Idle
            } else {
                EngineState::Charging
            },
            EngineState::Escaped => EngineState::Escaped,
        }
    } else {
        EngineState::Idle
    }
}

/// The alert after `dt` microseconds of its steady growth.
pub open spec fn alert_grown(alert: u64, dt: u64) -> u64 {
    clamp_u64(alert + dt / NANITE_ALERT_GROWTH_PERIOD) as u64
}

/// Stress gained in `dt` microseconds of charging at the given alert: `dt`
/// times the alert's ratio to its base.
pub open spec fn stress_gain(alert: u64, dt: u64) -> nat {
    (dt * alert / (NANITE_ALERT_BASE as int)) as nat
}

/// Stress after `dt` microseconds in the given state: decaying toward zero
/// while idle, growing while charging, unchanged once escaped.
pub open spec fn stress_after(state: EngineState, stress: u64, alert: u64, dt: u64) -> u64 {
    match state {
        EngineState::Idle => if stress > STRESS_DECAY_IDLE * dt {
            (stress - STRESS_DECAY_IDLE * dt) as u64
        } else {
            0
        },
        EngineState::Charging => clamp_u64(stress + stress_gain(alert, dt)) as u64,
        EngineState::Escaped => stress,
    }
}

/// Escape progress of `dt` microseconds of charging: `dt` times the
/// repaired fraction of the engine room.
pub open spec fn escape_progress(dt: u64, repaired: nat, total: nat) -> nat {
    if total == 0 {
        0
    } else {
        (dt * repaired / (total as int)) as nat
    }
}

/// `a - b`, or zero if `b` is larger.
pub open spec fn minus(a: nat, b: nat) -> nat {
    if a > b {
        (a - b) as nat
    } else {
        0
    }
}

/// One tick of the engine.
///
/// In order: the transition; the alert's growth; stress decay or gain for
/// the state after the transition, and while charging the escape timer's
/// countdown, which ends the run when it reaches zero; then, with stress at
/// or above the critical threshold, the cascade: hull damage, a boss (with
/// an alert spike) if none is there, and, if the engine is still charging,
/// time put back on the escape timer.
pub open spec fn engine_step(
    status: EngineStatus,
    repaired: nat,
    total: nat,
    dt: u64,
    has_boss: bool,
) -> EngineTick {
    let state1 = transition(status.state, status.stress, repaired, total);
    let alert1 = alert_grown(status.nanite_alert, dt);
    let stress1 = stress_after(state1, status.stress, alert1, dt);
    let charging = state1 == EngineState::Charging;
    let timer1 = if charging {
        minus(status.escape_timer as nat, escape_progress(dt, repaired, total)) as u64
    } else {
        status.escape_timer
    };
    let escaped = charging && timer1 == 0;
    let state2 = if escaped {
        EngineState::Escaped
    } else {
        state1
    };
    let cascade = stress1 >= STRESS_THRESHOLD_CRITICAL;
    let boss = cascade && !has_boss;
    EngineTick {
        status: EngineStatus {
            state: state2,
            stress: stress1,
            escape_timer: if cascade && state2 == EngineState::Charging {
                clamp_u64(timer1 + CHARGE_REVERSAL_FACTOR * dt) as u64
            } else {
                timer1
            },
            nanite_alert: if boss {
                clamp_u64(alert1 + NANITE_ALERT_BOSS_SPIKE) as u64
            } else {
                alert1
            },
        },
        escaped,
        cascade,
        boss,
        hull_damage: if cascade {
            (CASCADE_DAMAGE_PER_SEC * dt / (MICROS_PER_SECOND as int)) as i64
        } else {
            0
        },
    }
}

/// Whether the engine room can sustain charging.
pub fn can_sustain_charging(repaired: usize, total: usize) -> (b: bool)
    ensures
        b == sustains_charging(repaired as nat, total as nat),
{
    assert(repaired * MILLI <= usize::MAX * MILLI && ENGINE_MIN_REPAIR * total <= ENGINE_MIN_REPAIR
        * usize::MAX) by (nonlinear_arith)
        requires
            0 <= repaired <= usize::MAX,
            0 <= total <= usize::MAX,
            MILLI == 1000,
            ENGINE_MIN_REPAIR == 250,
    ;
    total > 0 && (repaired as u128) * (MILLI as u128) >= (ENGINE_MIN_REPAIR as u128) * (
    total as u128)
}

impl EngineStatus {
    /// The engine at the start of a run: idle, without stress, the escape
    /// timer at `escape_timer`, the alert at its base.
    pub fn new(escape_timer: u64) -> (s: Self)
        ensures
            s == (EngineStatus {
                state: EngineState::Idle,
                stress: 0,
                escape_timer,
                nanite_alert: NANITE_ALERT_BASE,
            }),
    {
        EngineStatus {
            state: EngineState::Idle,
            stress: 0,
            escape_timer,
            nanite_alert: NANITE_ALERT_BASE,
        }
    }

    /// Advances the engine by one tick of `dt` microseconds, with
    /// `repaired` of the engine room's `total` points repaired, and says
    /// what the tick did.
    pub fn tick(&mut self, repaired: usize, total: usize, dt: u64, has_boss: bool) -> (t:
        EngineTick)
        ensures
            t == engine_step(*old(self), repaired as nat, total as nat, dt, has_boss),
            *final(self) == t.status,
    {
        let sufficient = can_sustain_charging(repaired, total);
        if sufficient {
            match self.state {
                EngineState::Idle => {
                    if self.stress <= STRESS_THRESHOLD_UNSTABLE {
                        self.state = EngineState::Charging;
                    }
                },
                EngineState::Charging => {
                    if self.stress >= STRESS_THRESHOLD_CRITICAL {
                        self.state = EngineState::Idle;
                    }
                },
                EngineState::Escaped => {},
            }
        } else {
            self.state = EngineState::Idle;
        }
        self.nanite_alert = self.nanite_alert.saturating_add(dt / NANITE_ALERT_GROWTH_PERIOD);

        let mut escaped = false;
        match self.state {
            EngineState::Idle => {
                let decay: u128 = (STRESS_DECAY_IDLE as u128) * (dt as u128);
                if self.stress as u128 > decay {
                    self.stress = (self.stress as u128 - decay) as u64;
                } else {
                    self.stress = 0;
                }
            },
            EngineState::Charging => {
                proof {
                    lemma_product_fits(dt, self.nanite_alert);
                    lemma_product_fits(dt, repaired as u64);
                }
                let gain: u128 = (dt as u128) * (self.nanite_alert as u128) / (
                NANITE_ALERT_BASE as u128);
                self.stress = clamp_to_u64(self.stress as u128 + gain);
                let progress: u128 = (dt as u128) * (repaired as u128) / (total as u128);
                if self.escape_timer as u128 > progress {
                    self.escape_timer = (self.escape_timer as u128 - progress) as u64;
                } else {
                    self.escape_timer = 0;
                    self.state = EngineState::Escaped;
                    escaped = true;
                }
            },
            EngineState::Escaped => {},
        }

        let cascade = self.stress >= STRESS_THRESHOLD_CRITICAL;
        let boss = cascade && !has_boss;
        let mut hull_damage: i64 = 0;
        if cascade {
            assert(CASCADE_DAMAGE_PER_SEC * dt / (MICROS_PER_SECOND as int) <= dt) by (nonlinear_arith)
                requires
                    CASCADE_DAMAGE_PER_SEC == 5000,
                    MICROS_PER_SECOND == 1_000_000,
                    dt >= 0,
            ;
            hull_damage = ((CASCADE_DAMAGE_PER_SEC as u128) * (dt as u128) / (
            MICROS_PER_SECOND as u128)) as i64;
            if boss {
                self.nanite_alert = self.nanite_alert.saturating_add(NANITE_ALERT_BOSS_SPIKE);
            }
            if self.state == EngineState::Charging {
                self.escape_timer = clamp_to_u64(
                    self.escape_timer as u128 + (CHARGE_REVERSAL_FACTOR as u128) * (dt as u128),
                );
            }
        }
        EngineTick { status: *self, escaped, cascade, boss, hull_damage }
    }
}

/// What the engine is given on one tick.
pub struct EngineInput {
    pub repaired: nat,
    pub total: nat,
    pub dt: u64,
    pub has_boss: bool,
}

/// The engine's status after the ticks `inputs`.
pub open spec fn engine_run(status: EngineStatus, inputs: Seq<EngineInput>) -> EngineStatus
    decreases inputs.len(),
{
    if inputs.len() == 0 {
        status
    } else {
        let last = inputs.last();
        engine_step(
            engine_run(status, inputs.drop_last()),
            last.repaired,
            last.total,
            last.dt,
            last.has_boss,
        ).status
    }
}

/// Microseconds of the ticks `inputs` taken together.
pub open spec fn run_time(inputs: Seq<EngineInput>) -> nat
    decreases inputs.len(),
{
    if inputs.len() == 0 {
        0
    } else {
        run_time(inputs.drop_last()) + inputs.last().dt as nat
    }
}

/// Whether the engine charges on a tick that starts in `status`: whether
/// its state after the tick's transition is `Charging`.
pub open spec fn charges(status: EngineStatus, repaired: nat, total: nat) -> bool {
    transition(status.state, status.stress, repaired, total) == EngineState::Charging
}

/// Emergency shutdown: a tick that starts with the engine charging at or
/// above the critical stress leaves it idle.
pub proof fn lemma_overload_forces_idle(
    status: EngineStatus,
    repaired: nat,
    total: nat,
    dt: u64,
    has_boss: bool,
)
    requires
        status.state == EngineState::Charging,
        status.stress >= STRESS_THRESHOLD_CRITICAL,
    ensures
        engine_step(status, repaired, total, dt, has_boss).status.state == EngineState::Idle,
{
}

/// Hysteresis, one tick: an idle engine above the unstable stress stays
/// idle.
pub proof fn lemma_no_restart_above_unstable(
    status: EngineStatus,
    repaired: nat,
    total: nat,
    dt: u64,
    has_boss: bool,
)
    requires
        status.state == EngineState::Idle,
        status.stress > STRESS_THRESHOLD_UNSTABLE,
    ensures
        engine_step(status, repaired, total, dt, has_boss).status.state == EngineState::Idle,
{
}

/// Hysteresis, any number of ticks: an idle engine stays idle for as long
/// as every tick starts above the unstable stress.
pub proof fn lemma_hysteresis(status: EngineStatus, inputs: Seq<EngineInput>)
    requires
        status.state == EngineState::Idle,
        forall|k: int|
            0 <= k < inputs.len() ==> (#[trigger] engine_run(status, inputs.take(k))).stress
                > STRESS_THRESHOLD_UNSTABLE,
    ensures
        engine_run(status, inputs).state == EngineState::Idle,
    decreases inputs.len(),
{
    if inputs.len() > 0 {
        let init = inputs.drop_last();
        assert forall|k: int| 0 <= k < init.len() implies (#[trigger] engine_run(
            status,
            init.take(k),
        )).stress > STRESS_THRESHOLD_UNSTABLE by {
            assert(init.take(k) =~= inputs.take(k));
        }
        lemma_hysteresis(status, init);
        assert(inputs.take(inputs.len() - 1) =~= init);
        assert(engine_run(status, inputs.take(inputs.len() - 1)).stress > STRESS_THRESHOLD_UNSTABLE);
    }
}

/// The escape timer is touched only by a tick on which the engine charges.
pub proof fn lemma_timer_still_unless_charging(
    status: EngineStatus,
    repaired: nat,
    total: nat,
    dt: u64,
    has_boss: bool,
)
    requires
        !charges(status, repaired, total),
    ensures
        engine_step(status, repaired, total, dt, has_boss).status.escape_timer
            == status.escape_timer,
{
}

/// A tick on which the engine charges without cascade takes `dt` times the
/// repaired fraction off the escape timer, and ends the run exactly when
/// that uses the timer up.
pub proof fn lemma_countdown(
    status: EngineStatus,
    repaired: nat,
    total: nat,
    dt: u64,
    has_boss: bool,
)
    requires
        charges(status, repaired, total),
        !engine_step(status, repaired, total, dt, has_boss).cascade,
    ensures
        ({
            let tick = engine_step(status, repaired, total, dt, has_boss);
            &&& tick.status.escape_timer == minus(
                status.escape_timer as nat,
                escape_progress(dt, repaired, total),
            )
            &&& (tick.status.state == EngineState::Escaped) == (escape_progress(dt, repaired, total)
                >= status.escape_timer)
        }),
{
}

/// With the engine room fully repaired, escape progress is the time
/// charged.
pub proof fn lemma_full_repair_progress(dt: u64, total: nat)
    requires
        total > 0,
    ensures
        escape_progress(dt, total, total) == dt,
{
    assert(dt * total / (total as int) == dt) by (nonlinear_arith)
        requires
            total > 0,
    ;
}

/// Escape at full repair: over ticks on each of which a fully repaired
/// engine charges without cascade, the escape timer falls by the time
/// charged, and the engine has escaped exactly when the time charged has
/// reached the timer's start.
pub proof fn lemma_full_repair_escape(status: EngineStatus, inputs: Seq<EngineInput>)
    requires
        inputs.len() > 0,
        forall|k: int|
            0 <= k < inputs.len() ==> {
                let before = #[trigger] engine_run(status, inputs.take(k));
                let input = inputs[k];
                &&& input.total > 0
                &&& input.repaired == input.total
                &&& charges(before, input.repaired, input.total)
                &&& !engine_step(before, input.repaired, input.total, input.dt, input.has_boss).cascade
            },
    ensures
        engine_run(status, inputs).escape_timer == minus(
            status.escape_timer as nat,
            run_time(inputs),
        ),
        (engine_run(status, inputs).state == EngineState::Escaped) == (run_time(inputs)
            >= status.escape_timer),
    decreases inputs.len(),
{
    let init = inputs.drop_last();
    let last = inputs.last();
    assert(inputs.take(inputs.len() - 1) =~= init);
    let before = engine_run(status, init);
    assert(before == engine_run(status, inputs.take(inputs.len() - 1)));
    lemma_full_repair_progress(last.dt, last.total);
    lemma_countdown(before, last.repaired, last.total, last.dt, last.has_boss);
    if init.len() > 0 {
        assert forall|k: int| 0 <= k < init.len() implies {
            let b = #[trigger] engine_run(status, init.take(k));
            let input = init[k];
            &&& input.total > 0
            &&& input.repaired == input.total
            &&& charges(b, input.repaired, input.total)
            &&& !engine_step(b, input.repaired, input.total, input.dt, input.has_boss).cascade
        } by {
            assert(init.take(k) =~= inputs.take(k));
            assert(init[k] == inputs[k]);
        }
        lemma_full_repair_escape(status, init);
        // the last tick charges, so the engine had not escaped before it
        assert(before.state != EngineState::Escaped);
    } else {
        assert(before == status);
    }
}

/// Without repair, no escape: over ticks on none of which the engine room
/// can sustain charging, the engine idles after every tick and the escape
/// timer stands still, however much time passes.
pub proof fn lemma_idle_without_repair(status: EngineStatus, inputs: Seq<EngineInput>)
    requires
        forall|k: int|
            0 <= k < inputs.len() ==> !sustains_charging(
                (#[trigger] inputs[k]).repaired,
                inputs[k].total,
            ),
    ensures
        inputs.len() > 0 ==> engine_run(status, inputs).state == EngineState::Idle,
        engine_run(status, inputs).escape_timer == status.escape_timer,
    decreases inputs.len(),
{
    if inputs.len() > 0 {
        let init = inputs.drop_last();
        assert forall|k: int| 0 <= k < init.len() implies !sustains_charging(
            (#[trigger] init[k]).repaired,
            init[k].total,
        ) by {
            assert(init[k] == inputs[k]);
        }
        lemma_idle_without_repair(status, init);
        assert(!sustains_charging(inputs[inputs.len() - 1].repaired, inputs[inputs.len() - 1].total));
    }
}

} // verus!
