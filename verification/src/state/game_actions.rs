//! What the player does to a run: repairs, upgrades and purchases.

use vstd::prelude::*;
use crate::economy::upgrades::{cost_at, UpgradeTemplate};
use crate::ship::interior::{lemma_count_repaired_update, RepairPoint, Room, RoomType};
use crate::ship::ship::{cell_in, with_cell, Module, ModuleState, ModuleType};
use crate::simulation::constants::{
    HULL_UPGRADE_BONUS, MODULE_MAX_LEVEL, MODULE_UPGRADE_HP_MULTIPLIER, REPAIR_SCRAP_COST,
};
use crate::simulation::events::{EventBus, GameEvent};
use crate::state::game_state::GameState;
use crate::units::{clamp_i32, clamp_i64, clamp_to_i64, div_toward_zero, divide_toward_zero, MILLI};

verus! {

/// Id of the upgrade that reinforces the hull.
pub open spec fn hull_reinforcement_id() -> Seq<char> {
    "hull_reinforcement"@
}

/// Scrap it costs to raise a module of the given base cost from `level`:
/// the base cost and half of it more for each level, rounded toward zero.
pub open spec fn upgrade_cost(base_cost: i32, level: u8) -> i32 {
    div_toward_zero(base_cost * (level + 2), 2) as i32
}

/// Maximum health of a module after an upgrade.
pub open spec fn upgraded_health(max_health: i64) -> i64 {
    clamp_i64(div_toward_zero(max_health * MODULE_UPGRADE_HP_MULTIPLIER, MILLI as int)) as i64
}

/// Index of the first template with the given id.
pub open spec fn is_first_template(templates: Seq<UpgradeTemplate>, id: Seq<char>, i: int) -> bool {
    &&& 0 <= i < templates.len()
    &&& templates[i].id@ == id
    &&& forall|j: int| 0 <= j < i ==> (#[trigger] templates[j]).id@ != id
}

impl GameState {
    /// Scrap it costs to repair the module in slot `(x, y)`: its kind's
    /// base cost, if a destroyed module is there.
    pub open spec fn module_repair_cost(self, x: int, y: int) -> Option<i32> {
        match self.ship.cell(x, y) {
            Some(m) => if m.state == ModuleState::Destroyed {
                Some(self.module_registry.stats_of(m.module_type).base_cost)
            } else {
                None
            },
            None => None,
        }
    }

    /// Whether `after` and `game_after` are the state and the game events
    /// after an attempt to repair the module in slot `(x, y)`, which
    /// succeeded or not as `done` says.
    ///
    /// The attempt succeeds if a destroyed module is there and the scrap
    /// covers its kind's base cost. Then the module is active, the cost is
    /// paid, and the repair is reported with `ModuleRepaired`. Else nothing
    /// changes.
    pub open spec fn repair_attempted(
        self,
        after: GameState,
        x: usize,
        y: usize,
        game_before: Seq<GameEvent>,
        game_after: Seq<GameEvent>,
        done: bool,
    ) -> bool {
        &&& done == match self.module_repair_cost(x as int, y as int) {
            Some(cost) => self.resources.scrap >= cost,
            None => false,
        }
        &&& done ==> {
            let cost = self.module_repair_cost(x as int, y as int).unwrap();
            let module = self.ship.cell(x as int, y as int).unwrap();
            &&& after.ship.cells() == with_cell(
                self.ship.cells(),
                x as int,
                y as int,
                Module { state: ModuleState::Active, ..module },
            )
            &&& after.resources.scrap == self.resources.scrap_after_deduct(cost)
            &&& game_after == game_before.push(GameEvent::ModuleRepaired { x, y, cost })
        }
        &&& !done ==> after == self && game_after == game_before
        &&& after == (GameState {
            ship: after.ship,
            resources: crate::economy::resources::Resources {
                scrap: after.resources.scrap,
                ..self.resources
            },
            ..self
        })
    }

    /// Attempts to repair the destroyed module in slot `(x, y)`, by
    /// [`GameState::repair_attempted`], and says whether it did.
    pub fn attempt_repair(&mut self, x: usize, y: usize, events: &mut EventBus) -> (done: bool)
        ensures
            old(self).repair_attempted(
                *final(self),
                x,
                y,
                old(events).game@,
                final(events).game@,
                done,
            ),
            final(events).ui@ == old(events).ui@,
    {
        let module = match self.ship.module_at(x, y) {
            Some(m) => m,
            None => {
                return false;
            },
        };
        if module.state != ModuleState::Destroyed {
            return false;
        }
        let cost = self.module_registry.get(module.module_type).base_cost;
        if !self.resources.can_afford(cost) {
            return false;
        }
        self.resources.deduct(cost);
        let ghost before = self.ship.cells();
        let mut m = module;
        m.state = ModuleState::Active;
        self.ship.grid[x][y] = Some(m);
        proof {
            assert(self.ship.cells() =~= with_cell(before, x as int, y as int, m));
        }
        events.push_game(GameEvent::ModuleRepaired { x, y, cost });
        true
    }

    /// Scrap it costs to upgrade the module in slot `(x, y)`, if a module
    /// is there that is not destroyed and below the highest level.
    pub open spec fn module_upgrade_cost(self, x: int, y: int) -> Option<i32> {
        match self.ship.cell(x, y) {
            Some(m) => if m.state != ModuleState::Destroyed && m.level < MODULE_MAX_LEVEL {
                Some(upgrade_cost(self.module_registry.stats_of(m.module_type).base_cost, m.level))
            } else {
                None
            },
            None => None,
        }
    }

    /// Whether `after` and `game_after` are the state and the game events
    /// after an attempt to upgrade the module in slot `(x, y)`, which
    /// succeeded or not as `done` says.
    ///
    /// The attempt succeeds if a module is there that is neither destroyed
    /// nor at the highest level and the scrap covers the cost. Then the
    /// module is one level up, its maximum health is raised and its health
    /// restored to that, the cost is paid, and the upgrade is reported with
    /// `ModuleUpgraded`. Else nothing changes.
    pub open spec fn upgrade_attempted(
        self,
        after: GameState,
        x: usize,
        y: usize,
        game_before: Seq<GameEvent>,
        game_after: Seq<GameEvent>,
        done: bool,
    ) -> bool {
        &&& done == match self.module_upgrade_cost(x as int, y as int) {
            Some(cost) => self.resources.scrap >= cost,
            None => false,
        }
        &&& done ==> {
            let cost = self.module_upgrade_cost(x as int, y as int).unwrap();
            let module = self.ship.cell(x as int, y as int).unwrap();
            &&& after.ship.cells() == with_cell(
                self.ship.cells(),
                x as int,
                y as int,
                Module {
                    level: (module.level + 1) as u8,
                    max_health: upgraded_health(module.max_health),
                    health: upgraded_health(module.max_health),
                    ..module
                },
            )
            &&& after.resources.scrap == self.resources.scrap_after_deduct(cost)
            &&& game_after == game_before.push(
                GameEvent::ModuleUpgraded { x, y, new_level: (module.level + 1) as u8 },
            )
        }
        &&& !done ==> after == self && game_after == game_before
        &&& after == (GameState {
            ship: after.ship,
            resources: crate::economy::resources::Resources {
                scrap: after.resources.scrap,
                ..self.resources
            },
            ..self
        })
    }

    /// Attempts to raise the module in slot `(x, y)` by one level, by
    /// [`GameState::upgrade_attempted`], and says whether it did.
    pub fn attempt_upgrade(&mut self, x: usize, y: usize, events: &mut EventBus) -> (done: bool)
        ensures
            old(self).upgrade_attempted(
                *final(self),
                x,
                y,
                old(events).game@,
                final(events).game@,
                done,
            ),
            final(events).ui@ == old(events).ui@,
    {
        let module = match self.ship.module_at(x, y) {
            Some(m) => m,
            None => {
                return false;
            },
        };
        if module.state == ModuleState::Destroyed || module.level >= MODULE_MAX_LEVEL {
            return false;
        }
        let base_cost = self.module_registry.get(module.module_type).base_cost;
        assert(-0x8000_0000 * 257 <= base_cost * (module.level + 2) <= 0x8000_0000 * 257)
            by (nonlinear_arith)
            requires
                -0x8000_0000 <= base_cost <= 0x8000_0000,
                0 <= module.level <= 255,
        ;
        let cost = divide_toward_zero((base_cost as i128) * (module.level as i128 + 2), 2) as i32;
        if !self.resources.can_afford(cost) {
            return false;
        }
        self.resources.deduct(cost);
        let ghost before = self.ship.cells();
        let mut m = module;
        m.level = m.level + 1;
        assert(-0x8000_0000_0000_0000 * 1500 <= m.max_health * MODULE_UPGRADE_HP_MULTIPLIER
            <= 0x8000_0000_0000_0000 * 1500) by (nonlinear_arith)
            requires
                -0x8000_0000_0000_0000 <= m.max_health <= 0x8000_0000_0000_0000,
                MODULE_UPGRADE_HP_MULTIPLIER == 1500,
        ;
        m.max_health = clamp_to_i64(
            divide_toward_zero(
                (m.max_health as i128) * (MODULE_UPGRADE_HP_MULTIPLIER as i128),
                MILLI,
            ),
        );
        m.health = m.max_health;
        self.ship.grid[x][y] = Some(m);
        proof {
            assert(self.ship.cells() =~= with_cell(before, x as int, y as int, m));
        }
        events.push_game(GameEvent::ModuleUpgraded { x, y, new_level: m.level });
        true
    }

    /// The module in slot `(x, y)` after a toggle: an active module goes
    /// offline, an offline one active, a destroyed one stays destroyed.
    pub open spec fn toggled(module: Module) -> Module {
        Module {
            state: match module.state {
                ModuleState::Active => ModuleState::Offline,
                ModuleState::Offline => ModuleState::Active,
                ModuleState::Destroyed => ModuleState::Destroyed,
            },
            ..module
        }
    }

    /// Whether `after` is this state with the module in slot `(x, y)`
    /// toggled, if there is one.
    pub open spec fn module_toggled(self, after: GameState, x: usize, y: usize) -> bool {
        &&& after.ship.cells() == match self.ship.cell(x as int, y as int) {
            Some(m) => with_cell(self.ship.cells(), x as int, y as int, GameState::toggled(m)),
            None => self.ship.cells(),
        }
        &&& after == (GameState { ship: after.ship, ..self })
    }

    /// Switches the module in slot `(x, y)` on or off.
    pub fn toggle_module(&mut self, x: usize, y: usize)
        ensures
            old(self).module_toggled(*final(self), x, y),
    {
        if let Some(module) = self.ship.module_at(x, y) {
            let ghost before = self.ship.cells();
            let mut m = module;
            m.state = match module.state {
                ModuleState::Active => ModuleState::Offline,
                ModuleState::Offline => ModuleState::Active,
                ModuleState::Destroyed => ModuleState::Destroyed,
            };
            self.ship.grid[x][y] = Some(m);
            proof {
                assert(self.ship.cells() =~= with_cell(before, x as int, y as int, m));
            }
        } else {
            proof {
                assert(self.ship.cells() =~= old(self).ship.cells());
            }
        }
    }

    /// What it costs to repair a point of the room `room_idx`: the scrap,
    /// and the power its kind takes per point; `None` for a room that is
    /// not there.
    pub fn get_repair_cost(&self, room_idx: usize, _point_idx: usize) -> (cost: Option<(i32, i32)>)
        ensures
            cost == if room_idx < self.interior.rooms@.len() {
                Some(
                    (
                        REPAIR_SCRAP_COST,
                        self.interior.rooms@[room_idx as int].room_type.cost_per_point() as i32,
                    ),
                )
            } else {
                None
            },
    {
        if room_idx >= self.interior.rooms.len() {
            return None;
        }
        Some((REPAIR_SCRAP_COST, self.interior.rooms[room_idx].room_type.power_cost()))
    }

    /// Whether the point `point_idx` of the room `room_idx` can be
    /// repaired now: the point is there and not yet repaired, the scrap
    /// covers the cost, and, unless the room is the reactor, the power
    /// ledger has room for the room's cost per point.
    pub open spec fn can_repair_point(self, room_idx: int, point_idx: int) -> bool {
        &&& 0 <= room_idx < self.interior.rooms@.len()
        &&& 0 <= point_idx < self.interior.rooms@[room_idx].repair_points@.len()
        &&& !self.interior.rooms@[room_idx].repair_points@[point_idx].repaired
        &&& self.resources.scrap >= REPAIR_SCRAP_COST
        &&& (self.interior.rooms@[room_idx].room_type == RoomType::Module(ModuleType::Core)
            || self.used_power + self.interior.rooms@[room_idx].room_type.cost_per_point()
            <= self.total_power)
    }

    /// The grid after the room `room` has had a point repaired: if that
    /// completed the room and the room stands for a module of the grid,
    /// the module is active and whole; else the grid is as it was.
    pub open spec fn activated(
        cells: Seq<Seq<Option<Module>>>,
        room: Room,
    ) -> Seq<Seq<Option<Module>>> {
        if room.total() > 0 && room.repaired() == room.total() {
            match room.module_index {
                Some((gx, gy)) => match cell_in(cells, gx as int, gy as int) {
                    Some(m) => with_cell(
                        cells,
                        gx as int,
                        gy as int,
                        Module { state: ModuleState::Active, health: m.max_health, ..m },
                    ),
                    None => cells,
                },
                None => cells,
            }
        } else {
            cells
        }
    }

    /// Whether `after` is this state with the point `point_idx` of the room
    /// `room_idx` repaired: the point is repaired and nothing else of the
    /// rooms has changed, the scrap is paid, and if that completed the room
    /// its module is active and whole.
    pub open spec fn interior_repaired(self, after: GameState, room_idx: int, point_idx: int) -> bool {
        let room = self.interior.rooms@[room_idx];
        let point = room.repair_points@[point_idx];
        let mended = after.interior.rooms@[room_idx];
        &&& after.interior.rooms@.len() == self.interior.rooms@.len()
        &&& forall|r: int|
            0 <= r < self.interior.rooms@.len() && r != room_idx ==> #[trigger] after.interior.rooms@[r]
                == self.interior.rooms@[r]
        &&& mended.repair_points@ == room.repair_points@.update(
            point_idx,
            RepairPoint { repaired: true, ..point },
        )
        &&& mended.repaired() == room.repaired() + 1
        &&& mended == (Room { repair_points: mended.repair_points, ..room })
        &&& after.resources.scrap == self.resources.scrap - REPAIR_SCRAP_COST
        &&& after.ship.cells() == GameState::activated(self.ship.cells(), mended)
        &&& after.interior.width == self.interior.width
        &&& after.interior.height == self.interior.height
    }

    /// Repairs the point `point_idx` of the room `room_idx` for scrap, and
    /// says whether it did. A repaired point stays repaired. The repair
    /// that completes a room activates the room's module at full health.
    pub fn attempt_interior_repair(&mut self, room_idx: usize, point_idx: usize) -> (done: bool)
        ensures
            done == old(self).can_repair_point(room_idx as int, point_idx as int),
            done ==> old(self).interior_repaired(*final(self), room_idx as int, point_idx as int),
            !done ==> *final(self) == *old(self),
            *final(self) == (GameState {
                ship: final(self).ship,
                interior: crate::ship::interior::ShipInterior {
                    rooms: final(self).interior.rooms,
                    ..old(self).interior
                },
                resources: crate::economy::resources::Resources {
                    scrap: final(self).resources.scrap,
                    ..old(self).resources
                },
                ..*old(self)
            }),
    {
        if room_idx >= self.interior.rooms.len() {
            return false;
        }
        let power_cost = self.interior.rooms[room_idx].room_type.power_cost();
        if point_idx >= self.interior.rooms[room_idx].repair_points.len()
            || self.interior.rooms[room_idx].repair_points[point_idx].repaired {
            return false;
        }
        let is_reactor = self.interior.rooms[room_idx].room_type == RoomType::Module(
            ModuleType::Core,
        );
        if self.resources.scrap < REPAIR_SCRAP_COST {
            return false;
        }
        if !is_reactor && self.used_power as i64 + power_cost as i64 > self.total_power as i64 {
            return false;
        }
        self.resources.deduct(REPAIR_SCRAP_COST);
        let ghost points = self.interior.rooms@[room_idx as int].repair_points@;
        self.interior.rooms[room_idx].repair_points[point_idx].repaired = true;
        proof {
            lemma_count_repaired_update(
                points,
                point_idx as int,
                RepairPoint { repaired: true, ..points[point_idx as int] },
            );
        }
        let ghost before = self.ship.cells();
        if self.interior.rooms[room_idx].is_fully_repaired() {
            if let Some((gx, gy)) = self.interior.rooms[room_idx].module_index {
                if let Some(module) = self.ship.module_at(gx, gy) {
                    let mut m = module;
                    m.state = ModuleState::Active;
                    m.health = m.max_health;
                    self.ship.grid[gx][gy] = Some(m);
                    proof {
                        assert(self.ship.cells() =~= with_cell(before, gx as int, gy as int, m));
                    }
                }
            }
        }
        proof {
            assert(self.ship.cells() =~= GameState::activated(
                before,
                self.interior.rooms@[room_idx as int],
            ));
        }
        true
    }

    /// Whether `after` is the state after an attempt to buy the next
    /// level of the upgrade `id`, which succeeded or not as `done` says.
    ///
    /// The attempt succeeds if the upgrade is on offer, below its highest
    /// level, and the credits cover the cost. Then the level is one up and
    /// the cost is paid, and a hull reinforcement adds `HULL_UPGRADE_BONUS`
    /// to the ship's integrity and to its maximum. Else nothing changes.
    pub open spec fn purchase_attempted(self, after: GameState, id: Seq<char>, done: bool) -> bool {
        &&& done == exists|i: int|
            {
                &&& #[trigger] is_first_template(self.upgrade_templates@, id, i)
                &&& self.upgrades.level(id) < self.upgrade_templates@[i].max_level
                &&& self.resources.credits >= cost_at(
                    self.upgrade_templates@[i].base_cost as int,
                    self.upgrade_templates@[i].cost_multiplier as nat,
                    self.upgrades.level(id) as nat,
                )
            }
        &&& done ==> {
            let i = choose|i: int| is_first_template(self.upgrade_templates@, id, i);
            let template = self.upgrade_templates@[i];
            let level = self.upgrades.level(id);
            let reinforced = id == hull_reinforcement_id();
            &&& after.upgrades.level(id) == level + 1
            &&& forall|other: Seq<char>|
                other != id ==> after.upgrades.level(other) == self.upgrades.level(other)
            &&& after.resources.credits == clamp_i32(
                self.resources.credits - cost_at(
                    template.base_cost as int,
                    template.cost_multiplier as nat,
                    level as nat,
                ),
            )
            &&& after.ship_max_integrity == if reinforced {
                clamp_i64(self.ship_max_integrity + HULL_UPGRADE_BONUS)
            } else {
                self.ship_max_integrity as int
            }
            &&& after.ship_integrity == if reinforced {
                clamp_i64(self.ship_integrity + HULL_UPGRADE_BONUS)
            } else {
                self.ship_integrity as int
            }
        }
        &&& !done ==> after == self
        &&& after == (GameState {
            upgrades: after.upgrades,
            resources: crate::economy::resources::Resources {
                credits: after.resources.credits,
                ..self.resources
            },
            ship_integrity: after.ship_integrity,
            ship_max_integrity: after.ship_max_integrity,
            ..self
        })
    }

    /// Attempts to buy the next level of the upgrade `upgrade_id`, by
    /// [`GameState::purchase_attempted`], and says whether it did.
    pub fn purchase_upgrade(&mut self, upgrade_id: &str) -> (done: bool)
        ensures
            old(self).purchase_attempted(*final(self), upgrade_id@, done),
    {
        let key: String = upgrade_id.to_owned();
        let mut i: usize = 0;
        let mut found = false;
        while i < self.upgrade_templates.len() && !found
            invariant
                i <= self.upgrade_templates@.len(),
                key@ == upgrade_id@,
                *self == *old(self),
                forall|j: int| 0 <= j < i ==> (#[trigger] self.upgrade_templates@[j]).id@ != upgrade_id@,
                found ==> i < self.upgrade_templates@.len() && self.upgrade_templates@[i as int].id@
                    == upgrade_id@,
            decreases self.upgrade_templates@.len() - i + if found {
                0int
            } else {
                1int
            },
        {
            if self.upgrade_templates[i].id == key {
                found = true;
            } else {
                i += 1;
            }
        }
        if !found {
            proof {
                assert forall|k: int| !is_first_template(
                    old(self).upgrade_templates@,
                    upgrade_id@,
                    k,
                ) by {}
            }
            return false;
        }
        proof {
            assert(is_first_template(old(self).upgrade_templates@, upgrade_id@, i as int));
            assert forall|k: int|
                is_first_template(old(self).upgrade_templates@, upgrade_id@, k) implies k == i by {}
        }
        let current = self.upgrades.get_level(upgrade_id);
        if current >= self.upgrade_templates[i].max_level {
            return false;
        }
        let cost = self.upgrades.get_cost(&self.upgrade_templates[i]);
        if !self.resources.deduct_credits(cost) {
            return false;
        }
        self.upgrades.set_level(upgrade_id, current + 1);
        if key == "hull_reinforcement".to_owned() {
            self.ship_max_integrity = clamp_to_i64(
                self.ship_max_integrity as i128 + HULL_UPGRADE_BONUS as i128,
            );
            self.ship_integrity = clamp_to_i64(
                self.ship_integrity as i128 + HULL_UPGRADE_BONUS as i128,
            );
        }
        true
    }
}

} // verus!
