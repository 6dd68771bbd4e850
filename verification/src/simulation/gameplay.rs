//! Base statistics of the ship's modules.

use vstd::prelude::*;
use crate::ship::ship::ModuleType;

verus! {

/// Base statistics of one kind of module.
#[derive(Debug, Clone)]
pub struct ModuleStats {
    pub name: String,
    pub base_cost: i32,
    /// Power the module generates; negative for what it consumes.
    pub power_consumption: i32,
    pub max_health: i64,
    /// Reach of a weapon, in thousandths of a pixel.
    pub range: u32,
    /// Damage of one shot, in thousandths of a hit point.
    pub damage: u32,
    /// Shots per second, in thousandths.
    pub fire_rate: u32,
}

impl ModuleStats {
    /// Statistics of a module that does not fight.
    pub fn new(name: &str, cost: i32, power: i32, hp: i64) -> (s: Self)
        ensures
            s.name@ == name@,
            s.base_cost == cost,
            s.power_consumption == power,
            s.max_health == hp,
            s.range == 0,
            s.damage == 0,
            s.fire_rate == 0,
    {
        ModuleStats {
            name: name.to_owned(),
            base_cost: cost,
            power_consumption: power,
            max_health: hp,
            range: 0,
            damage: 0,
            fire_rate: 0,
        }
    }

    /// The same statistics with those of a weapon set.
    pub fn with_combat(self, range: u32, damage: u32, rate: u32) -> (s: Self)
        ensures
            s.name@ == self.name@,
            s.base_cost == self.base_cost,
            s.power_consumption == self.power_consumption,
            s.max_health == self.max_health,
            s.range == range,
            s.damage == damage,
            s.fire_rate == rate,
    {
        let mut s = self;
        s.range = range;
        s.damage = damage;
        s.fire_rate = rate;
        s
    }
}

/// The statistics of each kind of module. A kind without an entry has the
/// statistics of the empty slot.
#[derive(Debug, Clone)]
pub struct ModuleRegistry {
    pub weapon: Option<ModuleStats>,
    pub defense: Option<ModuleStats>,
    pub utility: Option<ModuleStats>,
    pub engine: Option<ModuleStats>,
    pub core: Option<ModuleStats>,
    pub empty: ModuleStats,
}

impl ModuleRegistry {
    /// The entry of a module kind, if it has one of its own.
    pub open spec fn entry(self, module_type: ModuleType) -> Option<ModuleStats> {
        match module_type {
            ModuleType::Weapon => self.weapon,
            ModuleType::Defense => self.defense,
            ModuleType::Utility => self.utility,
            ModuleType::Engine => self.engine,
            ModuleType::Core => self.core,
            ModuleType::Empty => Some(self.empty),
        }
    }

    /// The statistics of a module kind: its own entry, or that of the empty
    /// slot.
    pub open spec fn stats_of(self, module_type: ModuleType) -> ModuleStats {
        match self.entry(module_type) {
            Some(stats) => stats,
            None => self.empty,
        }
    }

    /// A registry that knows the empty slot alone: without cost, power or
    /// health.
    pub fn new() -> (r: Self)
        ensures
            r.weapon.is_none(),
            r.defense.is_none(),
            r.utility.is_none(),
            r.engine.is_none(),
            r.core.is_none(),
            r.empty.name@ == "Empty Slot"@,
            r.empty.base_cost == 0,
            r.empty.power_consumption == 0,
            r.empty.max_health == 0,
            r.empty.range == 0,
            r.empty.damage == 0,
            r.empty.fire_rate == 0,
    {
        ModuleRegistry {
            weapon: None,
            defense: None,
            utility: None,
            engine: None,
            core: None,
            empty: ModuleStats::new("Empty Slot", 0, 0, 0),
        }
    }

    /// Sets the entry of a module kind and leaves every other as it is.
    pub fn insert(&mut self, module_type: ModuleType, stats: ModuleStats)
        ensures
            final(self).entry(module_type) == Some(stats),
            forall|other: ModuleType|
                other != module_type ==> final(self).entry(other) == old(self).entry(other),
    {
        match module_type {
            ModuleType::Weapon => {
                self.weapon = Some(stats);
            },
            ModuleType::Defense => {
                self.defense = Some(stats);
            },
            ModuleType::Utility => {
                self.utility = Some(stats);
            },
            ModuleType::Engine => {
                self.engine = Some(stats);
            },
            ModuleType::Core => {
                self.core = Some(stats);
            },
            ModuleType::Empty => {
                self.empty = stats;
            },
        }
    }

    /// Whether `stats` has the given numbers.
    pub open spec fn has_numbers(
        stats: ModuleStats,
        base_cost: int,
        power: int,
        max_health: int,
        range: int,
        damage: int,
        fire_rate: int,
    ) -> bool {
        &&& stats.base_cost == base_cost
        &&& stats.power_consumption == power
        &&& stats.max_health == max_health
        &&& stats.range == range
        &&& stats.damage == damage
        &&& stats.fire_rate == fire_rate
    }

    /// Whether this is the registry of the standard game: power core,
    /// pulse turret, shield generator, recycler, hyperdrive and the empty
    /// slot, each with its name and numbers.
    pub open spec fn is_standard(self) -> bool {
        &&& self.stats_of(ModuleType::Core).name@ == "Power Core"@
        &&& ModuleRegistry::has_numbers(self.stats_of(ModuleType::Core), 0, 10, 1_000_000, 0, 0, 0)
        &&& self.stats_of(ModuleType::Weapon).name@ == "Pulse Turret"@
        &&& ModuleRegistry::has_numbers(
            self.stats_of(ModuleType::Weapon),
            20,
            -2,
            100_000,
            300_000,
            25_000,
            800,
        )
        &&& self.stats_of(ModuleType::Defense).name@ == "Shield Gen"@
        &&& ModuleRegistry::has_numbers(self.stats_of(ModuleType::Defense), 30, -3, 150_000, 0, 0, 0)
        &&& self.stats_of(ModuleType::Utility).name@ == "Recycler"@
        &&& ModuleRegistry::has_numbers(self.stats_of(ModuleType::Utility), 25, -1, 80_000, 0, 0, 0)
        &&& self.stats_of(ModuleType::Engine).name@ == "Hyperdrive"@
        &&& ModuleRegistry::has_numbers(self.stats_of(ModuleType::Engine), 500, -50, 500_000, 0, 0, 0)
        &&& self.stats_of(ModuleType::Empty).name@ == "Empty Slot"@
        &&& ModuleRegistry::has_numbers(self.stats_of(ModuleType::Empty), 0, 0, 0, 0, 0, 0)
    }

    /// The registry of the standard game.
    pub fn standard() -> (r: Self)
        ensures
            r.is_standard(),
    {
        let mut r = ModuleRegistry::new();
        r.insert(ModuleType::Core, ModuleStats::new("Power Core", 0, 10, 1_000_000));
        r.insert(
            ModuleType::Weapon,
            ModuleStats::new("Pulse Turret", 20, -2, 100_000).with_combat(300_000, 25_000, 800),
        );
        r.insert(ModuleType::Defense, ModuleStats::new("Shield Gen", 30, -3, 150_000));
        r.insert(ModuleType::Utility, ModuleStats::new("Recycler", 25, -1, 80_000));
        r.insert(ModuleType::Engine, ModuleStats::new("Hyperdrive", 500, -50, 500_000));
        r
    }

    /// The statistics of a module kind.
    pub fn get(&self, module_type: ModuleType) -> (stats: &ModuleStats)
        ensures
            *stats == self.stats_of(module_type),
    {
        let entry = match module_type {
            ModuleType::Weapon => &self.weapon,
            ModuleType::Defense => &self.defense,
            ModuleType::Utility => &self.utility,
            ModuleType::Engine => &self.engine,
            ModuleType::Core => &self.core,
            ModuleType::Empty => {
                return &self.empty;
            },
        };
        match entry {
            Some(stats) => stats,
            None => &self.empty,
        }
    }
}

} // verus!
