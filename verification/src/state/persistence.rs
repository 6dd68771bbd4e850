//! What of a run is saved, and how a saved run is taken up again.

use vstd::prelude::*;
use crate::economy::resources::Resources;
use crate::economy::upgrades::{GameUpgrades, UpgradeLevel};
use crate::enemy::entities::{Enemy, EnemyType, Projectile, ScrapPile};
use crate::ship::interior::{RepairPoint, Room};
use crate::ship::ship::{Module, Ship};
use crate::state::game_state::{EngineState, GamePhase, GameState, ViewMode};
use crate::state::tutorial::TutorialState;
use crate::units::Vec2;

verus! {

/// A saved enemy. Whether it was attacking is not saved.
#[derive(Debug, Clone, Copy, PartialEq, Eq)]
pub struct SavedEnemy {
    pub id: u64,
    pub enemy_type: EnemyType,
    pub pos: (i32, i32),
    pub hp: i64,
    pub max_hp: i64,
    pub speed: u32,
    pub damage: i64,
    pub target: Option<(usize, usize)>,
    pub attached_to: Option<(usize, usize)>,
    pub ability_timer: u64,
}

/// A saved projectile.
#[derive(Debug, Clone, Copy, PartialEq, Eq)]
pub struct SavedProjectile {
    pub pos: (i32, i32),
    pub vel: (i32, i32),
    pub damage: i64,
    pub active: bool,
}

/// A saved scrap pile.
#[derive(Debug, Clone, Copy, PartialEq, Eq)]
pub struct SavedScrapPile {
    pub pos: (i32, i32),
    pub amount: i32,
    pub active: bool,
}

/// What of a run is saved.
#[derive(Debug)]
pub struct SaveData {
    pub ship: Ship,
    pub resources: Resources,
    pub phase: GamePhase,
    pub engine_state: EngineState,
    pub escape_timer: u64,
    pub enemies: Vec<SavedEnemy>,
    pub projectiles: Vec<SavedProjectile>,
    pub scrap_piles: Vec<SavedScrapPile>,
    pub upgrades: GameUpgrades,
    pub frame_count: u64,
    pub time_survived: u64,
    /// For each room, in order, which of its repair points are repaired.
    pub room_repair_states: Vec<Vec<bool>>,
    pub player_pos: (i32, i32),
    pub view_mode: ViewMode,
    pub tutorial_index: usize,
    pub tutorial_completed: bool,
}

/// What is saved of an enemy.
pub open spec fn saved_enemy(e: Enemy) -> SavedEnemy {
    SavedEnemy {
        id: e.id,
        enemy_type: e.enemy_type,
        pos: (e.position.x, e.position.y),
        hp: e.health,
        max_hp: e.max_health,
        speed: e.speed,
        damage: e.damage,
        target: e.target_module,
        attached_to: e.attached_to,
        ability_timer: e.ability_timer,
    }
}

/// The enemy a saved enemy is taken up as: not attacking.
pub open spec fn loaded_enemy(s: SavedEnemy) -> Enemy {
    Enemy {
        id: s.id,
        enemy_type: s.enemy_type,
        position: Vec2 { x: s.pos.0, y: s.pos.1 },
        health: s.hp,
        max_health: s.max_hp,
        speed: s.speed,
        damage: s.damage,
        target_module: s.target,
        attached_to: s.attached_to,
        ability_timer: s.ability_timer,
        attacking: false,
    }
}

/// What is saved of a projectile.
pub open spec fn saved_projectile(p: Projectile) -> SavedProjectile {
    SavedProjectile {
        pos: (p.position.x, p.position.y),
        vel: (p.velocity.x, p.velocity.y),
        damage: p.damage,
        active: p.active,
    }
}

/// The projectile a saved projectile is taken up as.
pub open spec fn loaded_projectile(s: SavedProjectile) -> Projectile {
    Projectile {
        position: Vec2 { x: s.pos.0, y: s.pos.1 },
        velocity: Vec2 { x: s.vel.0, y: s.vel.1 },
        damage: s.damage,
        active: s.active,
    }
}

/// What is saved of a scrap pile.
pub open spec fn saved_pile(p: ScrapPile) -> SavedScrapPile {
    SavedScrapPile { pos: (p.position.x, p.position.y), amount: p.amount, active: p.active }
}

/// The scrap pile a saved pile is taken up as.
pub open spec fn loaded_pile(s: SavedScrapPile) -> ScrapPile {
    ScrapPile { position: Vec2 { x: s.pos.0, y: s.pos.1 }, amount: s.amount, active: s.active }
}

/// What is saved and taken up again comes back as it was, but that an
/// enemy comes back not attacking.
pub proof fn lemma_round_trip(e: Enemy, p: Projectile, s: ScrapPile)
    ensures
        loaded_enemy(saved_enemy(e)) == (Enemy { attacking: false, ..e }),
        loaded_projectile(saved_projectile(p)) == p,
        loaded_pile(saved_pile(s)) == s,
{
}

/// The next id after those of `enemies`: one more than the largest, the
/// largest `u64` at most, and zero without enemies.
pub open spec fn next_id_after(enemies: Seq<SavedEnemy>) -> u64
    decreases enemies.len(),
{
    if enemies.len() == 0 {
        0
    } else {
        let rest = next_id_after(enemies.drop_last());
        let own = if enemies.last().id == u64::MAX {
            u64::MAX
        } else {
            (enemies.last().id + 1) as u64
        };
        if own > rest {
            own
        } else {
            rest
        }
    }
}

/// A room with the repair states `states` taken up: each repair point
/// that has a saved state is repaired or not as that says.
pub open spec fn room_loaded(room: Room, states: Seq<bool>, after: Room) -> bool {
    &&& after == (Room { repair_points: after.repair_points, ..room })
    &&& after.repair_points@.len() == room.repair_points@.len()
    &&& forall|p: int|
        0 <= p < room.repair_points@.len() ==> #[trigger] after.repair_points@[p] == if p
            < states.len() {
            RepairPoint { repaired: states[p], ..room.repair_points@[p] }
        } else {
            room.repair_points@[p]
        }
}

/// A copy of the grid.
pub fn copy_ship(ship: &Ship) -> (copy: Ship)
    ensures
        copy.cells() == ship.cells(),
{
    let mut grid: Vec<Vec<Option<Module>>> = Vec::new();
    let mut x: usize = 0;
    while x < ship.grid.len()
        invariant
            x <= ship.grid@.len(),
            grid@.len() == x,
            forall|i: int| 0 <= i < x ==> (#[trigger] grid@[i])@ == ship.grid@[i]@,
        decreases ship.grid@.len() - x,
    {
        let mut column: Vec<Option<Module>> = Vec::new();
        let mut y: usize = 0;
        while y < ship.grid[x].len()
            invariant
                x < ship.grid@.len(),
                y <= ship.grid@[x as int]@.len(),
                column@ == ship.grid@[x as int]@.take(y as int),
            decreases ship.grid@[x as int]@.len() - y,
        {
            column.push(ship.grid[x][y]);
            proof {
                assert(column@ =~= ship.grid@[x as int]@.take(y + 1));
            }
            y += 1;
        }
        proof {
            assert(column@ =~= ship.grid@[x as int]@);
        }
        grid.push(column);
        x += 1;
    }
    let copy = Ship { grid };
    proof {
        assert(copy.cells() =~= ship.cells());
    }
    copy
}

/// A copy of the upgrade levels.
pub fn copy_upgrades(upgrades: &GameUpgrades) -> (copy: GameUpgrades)
    ensures
        copy.levels@ == upgrades.levels@,
{
    let mut levels: Vec<UpgradeLevel> = Vec::new();
    let mut i: usize = 0;
    while i < upgrades.levels.len()
        invariant
            i <= upgrades.levels@.len(),
            levels@ == upgrades.levels@.take(i as int),
        decreases upgrades.levels@.len() - i,
    {
        let entry = &upgrades.levels[i];
        levels.push(UpgradeLevel { id: entry.id.clone(), level: entry.level });
        proof {
            assert(levels@ =~= upgrades.levels@.take(i + 1));
        }
        i += 1;
    }
    proof {
        assert(levels@ =~= upgrades.levels@);
    }
    GameUpgrades { levels }
}

impl GameState {
    /// Whether `data` is what is saved of this run.
    pub open spec fn saved_as(self, data: SaveData) -> bool {
        &&& data.ship.cells() == self.ship.cells()
        &&& data.resources == self.resources
        &&& data.phase == self.phase
        &&& data.engine_state == self.engine_state
        &&& data.escape_timer == self.escape_timer
        &&& data.enemies@ == Seq::new(self.enemies@.len(), |i: int| saved_enemy(self.enemies@[i]))
        &&& data.projectiles@ == Seq::new(
            self.projectiles@.len(),
            |i: int| saved_projectile(self.projectiles@[i]),
        )
        &&& data.scrap_piles@ == Seq::new(
            self.scrap_piles@.len(),
            |i: int| saved_pile(self.scrap_piles@[i]),
        )
        &&& data.upgrades.levels@ == self.upgrades.levels@
        &&& data.frame_count == self.frame_count
        &&& data.time_survived == self.time_survived
        &&& data.room_repair_states@.len() == self.interior.rooms@.len()
        &&& forall|r: int|
            0 <= r < self.interior.rooms@.len() ==> (#[trigger] data.room_repair_states@[r])@
                == Seq::new(
                self.interior.rooms@[r].repair_points@.len(),
                |p: int| self.interior.rooms@[r].repair_points@[p].repaired,
            )
        &&& data.player_pos == (self.player.position.x, self.player.position.y)
        &&& data.view_mode == self.view_mode
        &&& data.tutorial_index == self.tutorial_state.current_index
        &&& data.tutorial_completed == self.tutorial_state.completed
    }

    /// What is saved of this run.
    pub fn to_save_data(&self) -> (data: SaveData)
        ensures
            self.saved_as(data),
    {
        let mut enemies: Vec<SavedEnemy> = Vec::new();
        let mut i: usize = 0;
        while i < self.enemies.len()
            invariant
                i <= self.enemies@.len(),
                enemies@ == Seq::new(i as nat, |k: int| saved_enemy(self.enemies@[k])),
            decreases self.enemies@.len() - i,
        {
            let e = &self.enemies[i];
            enemies.push(
                SavedEnemy {
                    id: e.id,
                    enemy_type: e.enemy_type,
                    pos: (e.position.x, e.position.y),
                    hp: e.health,
                    max_hp: e.max_health,
                    speed: e.speed,
                    damage: e.damage,
                    target: e.target_module,
                    attached_to: e.attached_to,
                    ability_timer: e.ability_timer,
                },
            );
            proof {
                assert(enemies@ =~= Seq::new((i + 1) as nat, |k: int| saved_enemy(self.enemies@[k])));
            }
            i += 1;
        }
        let mut projectiles: Vec<SavedProjectile> = Vec::new();
        let mut i: usize = 0;
        while i < self.projectiles.len()
            invariant
                i <= self.projectiles@.len(),
                projectiles@ == Seq::new(i as nat, |k: int| saved_projectile(self.projectiles@[k])),
            decreases self.projectiles@.len() - i,
        {
            let p = &self.projectiles[i];
            projectiles.push(
                SavedProjectile {
                    pos: (p.position.x, p.position.y),
                    vel: (p.velocity.x, p.velocity.y),
                    damage: p.damage,
                    active: p.active,
                },
            );
            proof {
                assert(projectiles@ =~= Seq::new(
                    (i + 1) as nat,
                    |k: int| saved_projectile(self.projectiles@[k]),
                ));
            }
            i += 1;
        }
        let mut scrap_piles: Vec<SavedScrapPile> = Vec::new();
        let mut i: usize = 0;
        while i < self.scrap_piles.len()
            invariant
                i <= self.scrap_piles@.len(),
                scrap_piles@ == Seq::new(i as nat, |k: int| saved_pile(self.scrap_piles@[k])),
            decreases self.scrap_piles@.len() - i,
        {
            let p = &self.scrap_piles[i];
            scrap_piles.push(
                SavedScrapPile {
                    pos: (p.position.x, p.position.y),
                    amount: p.amount,
                    active: p.active,
                },
            );
            proof {
                assert(scrap_piles@ =~= Seq::new(
                    (i + 1) as nat,
                    |k: int| saved_pile(self.scrap_piles@[k]),
                ));
            }
            i += 1;
        }
        let mut room_repair_states: Vec<Vec<bool>> = Vec::new();
        let mut r: usize = 0;
        while r < self.interior.rooms.len()
            invariant
                r <= self.interior.rooms@.len(),
                room_repair_states@.len() == r,
                forall|k: int|
                    0 <= k < r ==> (#[trigger] room_repair_states@[k])@ == Seq::new(
                        self.interior.rooms@[k].repair_points@.len(),
                        |p: int| self.interior.rooms@[k].repair_points@[p].repaired,
                    ),
            decreases self.interior.rooms@.len() - r,
        {
            let room = &self.interior.rooms[r];
            let mut states: Vec<bool> = Vec::new();
            let mut p: usize = 0;
            while p < room.repair_points.len()
                invariant
                    p <= room.repair_points@.len(),
                    states@ == Seq::new(p as nat, |k: int| room.repair_points@[k].repaired),
                decreases room.repair_points@.len() - p,
            {
                states.push(room.repair_points[p].repaired);
                proof {
                    assert(states@ =~= Seq::new(
                        (p + 1) as nat,
                        |k: int| room.repair_points@[k].repaired,
                    ));
                }
                p += 1;
            }
            room_repair_states.push(states);
            r += 1;
        }
        SaveData {
            ship: copy_ship(&self.ship),
            resources: self.resources,
            phase: self.phase,
            engine_state: self.engine_state,
            escape_timer: self.escape_timer,
            enemies,
            projectiles,
            scrap_piles,
            upgrades: copy_upgrades(&self.upgrades),
            frame_count: self.frame_count,
            time_survived: self.time_survived,
            room_repair_states,
            player_pos: (self.player.position.x, self.player.position.y),
            view_mode: self.view_mode,
            tutorial_index: self.tutorial_state.current_index,
            tutorial_completed: self.tutorial_state.completed,
        }
    }

    /// Whether `after` is this state with the saved run `data` taken up.
    ///
    /// What was saved replaces what the state held. Enemies come back not
    /// attacking, and the next enemy id is set past theirs. The repair
    /// points of each room that was saved are repaired or not as saved;
    /// rooms and points the save does not know stay as they are.
    /// Everything else of the state stays.
    pub open spec fn loaded_from(self, data: SaveData, after: GameState) -> bool {
        &&& after.ship == data.ship
        &&& after.resources == data.resources
        &&& after.phase == data.phase
        &&& after.engine_state == data.engine_state
        &&& after.escape_timer == data.escape_timer
        &&& after.upgrades == data.upgrades
        &&& after.frame_count == data.frame_count
        &&& after.time_survived == data.time_survived
        &&& after.enemies@ == Seq::new(data.enemies@.len(), |i: int| loaded_enemy(data.enemies@[i]))
        &&& after.projectiles@ == Seq::new(
            data.projectiles@.len(),
            |i: int| loaded_projectile(data.projectiles@[i]),
        )
        &&& after.scrap_piles@ == Seq::new(
            data.scrap_piles@.len(),
            |i: int| loaded_pile(data.scrap_piles@[i]),
        )
        &&& after.wave_state == (crate::enemy::wave::WaveState {
            next_enemy_id: next_id_after(data.enemies@),
            ..self.wave_state
        })
        &&& after.player == (crate::ship::player::Player {
            position: Vec2 { x: data.player_pos.0, y: data.player_pos.1 },
            ..self.player
        })
        &&& after.view_mode == data.view_mode
        &&& after.tutorial_state == TutorialState {
            current_index: data.tutorial_index,
            completed: data.tutorial_completed,
        }
        &&& after.interior.rooms@.len() == self.interior.rooms@.len()
        &&& forall|r: int|
            0 <= r < self.interior.rooms@.len() ==> room_loaded(
                self.interior.rooms@[r],
                if r < data.room_repair_states@.len() {
                    data.room_repair_states@[r]@
                } else {
                    Seq::empty()
                },
                #[trigger] after.interior.rooms@[r],
            )
        &&& after == (GameState {
            ship: after.ship,
            resources: after.resources,
            phase: after.phase,
            engine_state: after.engine_state,
            escape_timer: after.escape_timer,
            upgrades: after.upgrades,
            frame_count: after.frame_count,
            time_survived: after.time_survived,
            enemies: after.enemies,
            projectiles: after.projectiles,
            scrap_piles: after.scrap_piles,
            wave_state: after.wave_state,
            player: after.player,
            view_mode: after.view_mode,
            tutorial_state: after.tutorial_state,
            interior: crate::ship::interior::ShipInterior {
                rooms: after.interior.rooms,
                ..self.interior
            },
            ..self
        })
    }

    /// Takes up the saved run `data`, by [`GameState::loaded_from`].
    pub fn restore(&mut self, data: SaveData)
        ensures
            old(self).loaded_from(data, *final(self)),
    {
        let mut enemies: Vec<Enemy> = Vec::new();
        let mut next_id: u64 = 0;
        let mut i: usize = 0;
        while i < data.enemies.len()
            invariant
                i <= data.enemies@.len(),
                enemies@ == Seq::new(i as nat, |k: int| loaded_enemy(data.enemies@[k])),
                next_id == next_id_after(data.enemies@.take(i as int)),
            decreases data.enemies@.len() - i,
        {
            let s = &data.enemies[i];
            enemies.push(
                Enemy {
                    id: s.id,
                    enemy_type: s.enemy_type,
                    position: Vec2 { x: s.pos.0, y: s.pos.1 },
                    health: s.hp,
                    max_health: s.max_hp,
                    speed: s.speed,
                    damage: s.damage,
                    target_module: s.target,
                    attached_to: s.attached_to,
                    ability_timer: s.ability_timer,
                    attacking: false,
                },
            );
            let own: u64 = if s.id == u64::MAX {
                u64::MAX
            } else {
                s.id + 1
            };
            if own > next_id {
                next_id = own;
            }
            proof {
                assert(enemies@ =~= Seq::new((i + 1) as nat, |k: int| loaded_enemy(data.enemies@[k])));
                assert(data.enemies@.take(i + 1).drop_last() =~= data.enemies@.take(i as int));
            }
            i += 1;
        }
        proof {
            assert(data.enemies@.take(i as int) =~= data.enemies@);
        }
        let mut projectiles: Vec<Projectile> = Vec::new();
        let mut i: usize = 0;
        while i < data.projectiles.len()
            invariant
                i <= data.projectiles@.len(),
                projectiles@ == Seq::new(i as nat, |k: int| loaded_projectile(data.projectiles@[k])),
            decreases data.projectiles@.len() - i,
        {
            let s = &data.projectiles[i];
            projectiles.push(
                Projectile {
                    position: Vec2 { x: s.pos.0, y: s.pos.1 },
                    velocity: Vec2 { x: s.vel.0, y: s.vel.1 },
                    damage: s.damage,
                    active: s.active,
                },
            );
            proof {
                assert(projectiles@ =~= Seq::new(
                    (i + 1) as nat,
                    |k: int| loaded_projectile(data.projectiles@[k]),
                ));
            }
            i += 1;
        }
        let mut scrap_piles: Vec<ScrapPile> = Vec::new();
        let mut i: usize = 0;
        while i < data.scrap_piles.len()
            invariant
                i <= data.scrap_piles@.len(),
                scrap_piles@ == Seq::new(i as nat, |k: int| loaded_pile(data.scrap_piles@[k])),
            decreases data.scrap_piles@.len() - i,
        {
            let s = &data.scrap_piles[i];
            scrap_piles.push(
                ScrapPile {
                    position: Vec2 { x: s.pos.0, y: s.pos.1 },
                    amount: s.amount,
                    active: s.active,
                },
            );
            proof {
                assert(scrap_piles@ =~= Seq::new(
                    (i + 1) as nat,
                    |k: int| loaded_pile(data.scrap_piles@[k]),
                ));
            }
            i += 1;
        }
        let mut r: usize = 0;
        while r < self.interior.rooms.len()
            invariant
                r <= self.interior.rooms@.len(),
                self.interior.rooms@.len() == old(self).interior.rooms@.len(),
                *self == (GameState {
                    interior: crate::ship::interior::ShipInterior {
                        rooms: self.interior.rooms,
                        ..old(self).interior
                    },
                    ..*old(self)
                }),
                forall|k: int|
                    0 <= k < r ==> room_loaded(
                        old(self).interior.rooms@[k],
                        if k < data.room_repair_states@.len() {
                            data.room_repair_states@[k]@
                        } else {
                            Seq::empty()
                        },
                        #[trigger] self.interior.rooms@[k],
                    ),
                forall|k: int|
                    r <= k < self.interior.rooms@.len() ==> #[trigger] self.interior.rooms@[k]
                        == old(self).interior.rooms@[k],
            decreases self.interior.rooms@.len() - r,
        {
            if r < data.room_repair_states.len() {
                let ghost room = self.interior.rooms@[r as int];
                let mut p: usize = 0;
                while p < self.interior.rooms[r].repair_points.len() && p
                    < data.room_repair_states[r].len()
                    invariant
                        r < self.interior.rooms@.len(),
                        r < data.room_repair_states@.len(),
                        room == old(self).interior.rooms@[r as int],
                        self.interior.rooms@.len() == old(self).interior.rooms@.len(),
                        *self == (GameState {
                            interior: crate::ship::interior::ShipInterior {
                                rooms: self.interior.rooms,
                                ..old(self).interior
                            },
                            ..*old(self)
                        }),
                        forall|k: int|
                            0 <= k < r ==> room_loaded(
                                old(self).interior.rooms@[k],
                                if k < data.room_repair_states@.len() {
                                    data.room_repair_states@[k]@
                                } else {
                                    Seq::empty()
                                },
                                #[trigger] self.interior.rooms@[k],
                            ),
                        forall|k: int|
                            r < k < self.interior.rooms@.len() ==> #[trigger] self.interior.rooms@[k]
                                == old(self).interior.rooms@[k],
                        p <= room.repair_points@.len(),
                        p <= data.room_repair_states@[r as int]@.len(),
                        self.interior.rooms@[r as int].repair_points@.len()
                            == room.repair_points@.len(),
                        room_loaded(
                            room,
                            data.room_repair_states@[r as int]@.take(p as int),
                            self.interior.rooms@[r as int],
                        ),
                    decreases room.repair_points@.len() - p,
                {
                    let flag = data.room_repair_states[r][p];
                    self.interior.rooms[r].repair_points[p].repaired = flag;
                    p += 1;
                }
                proof {
                    let states = data.room_repair_states@[r as int]@;
                    assert(room_loaded(room, states, self.interior.rooms@[r as int])) by {
                        assert forall|q: int| 0 <= q < room.repair_points@.len() implies (
                        #[trigger] self.interior.rooms@[r as int].repair_points@[q]) == if q
                            < states.len() {
                            RepairPoint { repaired: states[q], ..room.repair_points@[q] }
                        } else {
                            room.repair_points@[q]
                        } by {
                            if q < p {
                                assert(states.take(p as int)[q] == states[q]);
                            } else {
                                assert(p == states.len());
                            }
                        }
                    }
                }
            } else {
                proof {
                    assert(room_loaded(
                        self.interior.rooms@[r as int],
                        Seq::empty(),
                        self.interior.rooms@[r as int],
                    ));
                }
            }
            r += 1;
        }
        self.ship = data.ship;
        self.resources = data.resources;
        self.phase = data.phase;
        self.engine_state = data.engine_state;
        self.escape_timer = data.escape_timer;
        self.upgrades = data.upgrades;
        self.frame_count = data.frame_count;
        self.time_survived = data.time_survived;
        self.enemies = enemies;
        self.projectiles = projectiles;
        self.scrap_piles = scrap_piles;
        self.wave_state.next_enemy_id = next_id;
        self.player.position = Vec2 { x: data.player_pos.0, y: data.player_pos.1 };
        self.view_mode = data.view_mode;
        self.tutorial_state.current_index = data.tutorial_index;
        self.tutorial_state.completed = data.tutorial_completed;
    }
}

} // verus!
