//! Which sound and how much screen shake a game event calls for.

use vstd::prelude::*;
use crate::simulation::events::GameEvent;
use crate::units::clamp;

verus! {

/// The sound effects of the game.
#[derive(Debug, Clone, Copy, PartialEq, Eq, Structural, Hash)]
pub enum SoundEffect {
    Repair,
    EnemyKilled,
    ModuleDamaged,
    ModuleDestroyed,
    TurretFire,
    ScrapCollected,
    ButtonClick,
    EngineCharge,
    Victory,
    GameOver,
}

/// Screen shake, in thousandths of full trauma, per thousandth of a hit
/// point of damage to a module: a fiftieth of the damage in hit points.
pub const MODULE_DAMAGE_TRAUMA_DIVISOR: i64 = 50;

/// Screen shake for a destroyed module, in thousandths of full trauma.
pub const MODULE_DESTROY_TRAUMA: u32 = 400;

/// Screen shake for the end of the ship.
pub const CORE_DESTROY_TRAUMA: u32 = 1000;

/// Screen shake for the arrival of a boss.
pub const ENGINE_ACTIVATE_TRAUMA: u32 = 300;

/// Screen shake for a kill.
pub const ENEMY_KILL_TRAUMA: u32 = 100;

/// Trauma lost per second, in thousandths.
pub const TRAUMA_DECAY_RATE: u64 = 1500;

/// Full trauma, in thousandths.
pub const FULL_TRAUMA: u32 = 1000;

/// What the presentation does in answer to a game event.
#[derive(Debug, Clone, Copy, PartialEq, Eq, Structural)]
pub struct Feedback {
    /// Screen shake to add, in thousandths of full trauma.
    pub trauma: u32,
    pub sound: Option<SoundEffect>,
}

impl SoundEffect {
    /// The file a sound effect is loaded from.
    pub open spec fn file(self) -> Seq<char> {
        match self {
            SoundEffect::Repair => "assets/sounds/repair.wav"@,
            SoundEffect::EnemyKilled => "assets/sounds/enemy_killed.wav"@,
            SoundEffect::ModuleDamaged => "assets/sounds/damage.wav"@,
            SoundEffect::ModuleDestroyed => "assets/sounds/explosion.wav"@,
            SoundEffect::TurretFire => "assets/sounds/laser.wav"@,
            SoundEffect::ScrapCollected => "assets/sounds/pickup.wav"@,
            SoundEffect::ButtonClick => "assets/sounds/click.wav"@,
            SoundEffect::EngineCharge => "assets/sounds/engine.wav"@,
            SoundEffect::Victory => "assets/sounds/victory.wav"@,
            SoundEffect::GameOver => "assets/sounds/gameover.wav"@,
        }
    }

    /// The file a sound effect is loaded from.
    pub fn path(self) -> (p: &'static str)
        ensures
            p@ == self.file(),
    {
        match self {
            SoundEffect::Repair => "assets/sounds/repair.wav",
            SoundEffect::EnemyKilled => "assets/sounds/enemy_killed.wav",
            SoundEffect::ModuleDamaged => "assets/sounds/damage.wav",
            SoundEffect::ModuleDestroyed => "assets/sounds/explosion.wav",
            SoundEffect::TurretFire => "assets/sounds/laser.wav",
            SoundEffect::ScrapCollected => "assets/sounds/pickup.wav",
            SoundEffect::ButtonClick => "assets/sounds/click.wav",
            SoundEffect::EngineCharge => "assets/sounds/engine.wav",
            SoundEffect::Victory => "assets/sounds/victory.wav",
            SoundEffect::GameOver => "assets/sounds/gameover.wav",
        }
    }

    /// All sound effects, in the order in which they are loaded.
    pub fn all() -> (effects: [SoundEffect; 10])
        ensures
            effects@ == seq![
                SoundEffect::Repair,
                SoundEffect::EnemyKilled,
                SoundEffect::ModuleDamaged,
                SoundEffect::ModuleDestroyed,
                SoundEffect::TurretFire,
                SoundEffect::ScrapCollected,
                SoundEffect::ButtonClick,
                SoundEffect::EngineCharge,
                SoundEffect::Victory,
                SoundEffect::GameOver,
            ],
    {
        [
            SoundEffect::Repair,
            SoundEffect::EnemyKilled,
            SoundEffect::ModuleDamaged,
            SoundEffect::ModuleDestroyed,
            SoundEffect::TurretFire,
            SoundEffect::ScrapCollected,
            SoundEffect::ButtonClick,
            SoundEffect::EngineCharge,
            SoundEffect::Victory,
            SoundEffect::GameOver,
        ]
    }
}

/// Screen shake for a module damaged by `damage`: a fiftieth of the damage
/// in hit points as a share of full trauma, and no more than full.
pub open spec fn damage_trauma(damage: i64) -> u32 {
    clamp(damage as int / MODULE_DAMAGE_TRAUMA_DIVISOR as int, 0, FULL_TRAUMA as int) as u32
}

/// What the presentation does in answer to `event`.
pub open spec fn feedback_of(event: GameEvent) -> Feedback {
    match event {
        GameEvent::EnemyKilled { .. } => Feedback {
            trauma: ENEMY_KILL_TRAUMA,
            sound: Some(SoundEffect::EnemyKilled),
        },
        GameEvent::ModuleDamaged { x, y, damage } => Feedback {
            trauma: damage_trauma(damage),
            sound: Some(SoundEffect::ModuleDamaged),
        },
        GameEvent::ModuleDestroyed { .. } => Feedback {
            trauma: MODULE_DESTROY_TRAUMA,
            sound: Some(SoundEffect::ModuleDestroyed),
        },
        GameEvent::ModuleRepaired { .. } => Feedback { trauma: 0, sound: Some(SoundEffect::Repair) },
        GameEvent::CoreDestroyed => Feedback {
            trauma: CORE_DESTROY_TRAUMA,
            sound: Some(SoundEffect::GameOver),
        },
        GameEvent::EngineActivated => Feedback {
            trauma: ENGINE_ACTIVATE_TRAUMA,
            sound: Some(SoundEffect::EngineCharge),
        },
        GameEvent::EscapeSuccess => Feedback { trauma: 0, sound: Some(SoundEffect::Victory) },
        _ => Feedback { trauma: 0, sound: None },
    }
}

/// What the presentation does in answer to `event`.
pub fn feedback_for(event: &GameEvent) -> (f: Feedback)
    ensures
        f == feedback_of(*event),
{
    match event {
        GameEvent::EnemyKilled { .. } => Feedback {
            trauma: ENEMY_KILL_TRAUMA,
            sound: Some(SoundEffect::EnemyKilled),
        },
        GameEvent::ModuleDamaged { x, y, damage } => {
            let trauma: u32 = if *damage < 0 {
                0
            } else {
                let t = (*damage as u64) / (MODULE_DAMAGE_TRAUMA_DIVISOR as u64);
                if t > FULL_TRAUMA as u64 {
                    FULL_TRAUMA
                } else {
                    t as u32
                }
            };
            Feedback { trauma, sound: Some(SoundEffect::ModuleDamaged) }
        },
        GameEvent::ModuleDestroyed { .. } => Feedback {
            trauma: MODULE_DESTROY_TRAUMA,
            sound: Some(SoundEffect::ModuleDestroyed),
        },
        GameEvent::ModuleRepaired { .. } => Feedback { trauma: 0, sound: Some(SoundEffect::Repair) },
        GameEvent::CoreDestroyed => Feedback {
            trauma: CORE_DESTROY_TRAUMA,
            sound: Some(SoundEffect::GameOver),
        },
        GameEvent::EngineActivated => Feedback {
            trauma: ENGINE_ACTIVATE_TRAUMA,
            sound: Some(SoundEffect::EngineCharge),
        },
        GameEvent::EscapeSuccess => Feedback { trauma: 0, sound: Some(SoundEffect::Victory) },
        _ => Feedback { trauma: 0, sound: None },
    }
}

/// Trauma after `amount` more, kept between none and full.
pub open spec fn trauma_added(trauma: u32, amount: u32) -> u32 {
    clamp(trauma + amount, 0, FULL_TRAUMA as int) as u32
}

/// Trauma after `dt` microseconds of decay.
pub open spec fn trauma_decayed(trauma: u32, dt: u64) -> u32 {
    if trauma * 1_000_000 > dt * TRAUMA_DECAY_RATE {
        (trauma - dt * TRAUMA_DECAY_RATE / 1_000_000) as u32
    } else {
        0
    }
}

/// Adds screen shake.
pub fn add_trauma(trauma: u32, amount: u32) -> (t: u32)
    ensures
        t == trauma_added(trauma, amount),
{
    let sum = trauma as u64 + amount as u64;
    if sum > FULL_TRAUMA as u64 {
        FULL_TRAUMA
    } else {
        sum as u32
    }
}

/// Lets screen shake decay for `dt` microseconds.
pub fn decay_trauma(trauma: u32, dt: u64) -> (t: u32)
    ensures
        t == trauma_decayed(trauma, dt),
        t <= trauma,
{
    proof {
        crate::units::lemma_product_fits(dt, TRAUMA_DECAY_RATE);
    }
    let lost: u128 = (dt as u128) * (TRAUMA_DECAY_RATE as u128);
    if (trauma as u128) * 1_000_000 > lost {
        (trauma as u128 - lost / 1_000_000) as u32
    } else {
        0
    }
}

} // verus!
