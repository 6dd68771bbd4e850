//! The player character inside the ship.

use vstd::prelude::*;
use crate::ship::interior::{RoomType, ShipInterior};
use crate::simulation::constants::{GRID_HEIGHT, GRID_WIDTH};
use crate::units::{clamp, Vec2, MILLI};

verus! {

/// Pixels of the interior per pixel of the exterior grid.
pub const ROOM_SCALE: i32 = 10;

/// Side of a floor tile.
pub const TILE_SIZE: i32 = 10_000;

/// Walking speed, in pixels per second.
pub const PLAYER_SPEED: u32 = 300;

/// Radius of the player character.
pub const PLAYER_SIZE: i32 = 8_000;

/// Side of one grid cell in the interior: `CELL_SIZE` times `ROOM_SCALE`.
pub const INTERIOR_CELL: i32 = 400_000;

/// Where a player starts when no place is given.
pub const PLAYER_DEFAULT_X: i32 = 300_000;

/// Where a player starts when no place is given.
pub const PLAYER_DEFAULT_Y: i32 = 200_000;

/// Which ways the player is asked to move.
#[derive(Debug, Clone, Copy, PartialEq, Eq, Structural)]
pub struct MoveInput {
    pub up: bool,
    pub down: bool,
    pub left: bool,
    pub right: bool,
}

impl MoveInput {
    /// The direction asked for, each component -1000, 0 or 1000: opposite
    /// ways cancel.
    pub open spec fn direction(self) -> Vec2 {
        Vec2 {
            x: ((if self.right {
                1000int
            } else {
                0
            }) - (if self.left {
                1000int
            } else {
                0
            })) as i32,
            y: ((if self.down {
                1000int
            } else {
                0
            }) - (if self.up {
                1000int
            } else {
                0
            })) as i32,
        }
    }

    /// The direction asked for.
    pub fn to_direction(&self) -> (d: Vec2)
        ensures
            d == self.direction(),
    {
        let mut x: i32 = 0;
        let mut y: i32 = 0;
        if self.up {
            y -= 1000;
        }
        if self.down {
            y += 1000;
        }
        if self.left {
            x -= 1000;
        }
        if self.right {
            x += 1000;
        }
        Vec2 { x, y }
    }
}

/// The player character. Position is in the interior's coordinates.
#[derive(Debug, Clone, Copy, PartialEq, Eq)]
pub struct Player {
    pub position: Vec2,
    pub size: i32,
    /// Pixels per second.
    pub speed: u32,
    /// Unit vector of the way the player faces, in thousandths.
    pub facing: Vec2,
    pub velocity: Vec2,
    /// Grid slot of the module room the player stands in.
    pub nearby_module: Option<(usize, usize)>,
}

/// The origin, from which directions are taken.
pub open spec fn origin() -> Vec2 {
    Vec2 { x: 0, y: 0 }
}

impl Player {
    /// A player standing at `pos`, facing up.
    pub open spec fn standing_at(pos: Vec2) -> Player {
        Player {
            position: pos,
            size: PLAYER_SIZE,
            speed: PLAYER_SPEED,
            facing: Vec2 { x: 0, y: (-1000) as i32 },
            velocity: Vec2 { x: 0, y: 0 },
            nearby_module: None,
        }
    }

    /// A player at the default place.
    pub fn new() -> (p: Self)
        ensures
            p == Player::standing_at(Vec2 { x: PLAYER_DEFAULT_X, y: PLAYER_DEFAULT_Y }),
    {
        Player::new_at(Vec2 { x: PLAYER_DEFAULT_X, y: PLAYER_DEFAULT_Y })
    }

    /// A player standing at `pos`.
    pub fn new_at(pos: Vec2) -> (p: Self)
        ensures
            p == Player::standing_at(pos),
    {
        Player {
            position: pos,
            size: PLAYER_SIZE,
            speed: PLAYER_SPEED,
            facing: Vec2 { x: 0, y: -1000 },
            velocity: Vec2 { x: 0, y: 0 },
            nearby_module: None,
        }
    }

    /// Whether `pos` can be walked on.
    pub open spec fn walkable(interior: ShipInterior, pos: Vec2) -> bool {
        exists|i: int|
            interior.first_room_at(pos, i) && (#[trigger] interior.rooms@[i]).room_type
                != RoomType::Empty
    }

    /// Where a player at `position` ends up who tries to go to `wanted`:
    /// there if it can be walked on; else as far as each axis alone allows,
    /// first along x, then along y from where that left them.
    pub open spec fn slide(interior: ShipInterior, position: Vec2, wanted: Vec2) -> Vec2 {
        if Player::walkable(interior, wanted) {
            wanted
        } else {
            let along_x = Vec2 { x: wanted.x, y: position.y };
            let after_x = if Player::walkable(interior, along_x) {
                along_x
            } else {
                position
            };
            let along_y = Vec2 { x: after_x.x, y: wanted.y };
            if Player::walkable(interior, along_y) {
                along_y
            } else {
                after_x
            }
        }
    }

    /// The player after `dt` microseconds with the given input.
    ///
    /// Without a direction the player stands still. With one, the player
    /// faces it and walks at full speed along it, stopped by what cannot
    /// be walked on.
    pub open spec fn walked(self, dt: u64, interior: ShipInterior, input: MoveInput) -> Player {
        let dir = input.direction();
        if dir == origin() {
            Player { velocity: origin(), ..self }
        } else {
            let velocity = origin().aimed(dir, (self.speed * MILLI) as nat);
            Player {
                facing: origin().aimed(dir, MILLI as nat),
                velocity,
                position: Player::slide(
                    interior,
                    self.position,
                    self.position.advanced(velocity, dt as nat),
                ),
                ..self
            }
        }
    }

    /// Moves the player for `dt` microseconds.
    pub fn update(&mut self, dt: u64, interior: &ShipInterior, input: MoveInput)
        ensures
            *final(self) == old(self).walked(dt, *interior, input),
    {
        let dir = input.to_direction();
        let zero = Vec2 { x: 0, y: 0 };
        if dir.x == 0 && dir.y == 0 {
            self.velocity = zero;
            return ;
        }
        self.facing = zero.aim(dir, MILLI);
        self.velocity = zero.aim(dir, self.speed as u64 * MILLI);
        let wanted = self.position.advance(self.velocity, dt);
        if interior.is_walkable(wanted) {
            self.position = wanted;
        } else {
            let along_x = Vec2 { x: wanted.x, y: self.position.y };
            if interior.is_walkable(along_x) {
                self.position = along_x;
            }
            let along_y = Vec2 { x: self.position.x, y: wanted.y };
            if interior.is_walkable(along_y) {
                self.position = along_y;
            }
        }
    }

    /// The grid cell over which the player stands, brought onto the grid.
    pub open spec fn grid_cell(self) -> (usize, usize) {
        (
            clamp(self.position.x as int / INTERIOR_CELL as int, 0, GRID_WIDTH - 1) as usize,
            clamp(self.position.y as int / INTERIOR_CELL as int, 0, GRID_HEIGHT - 1) as usize,
        )
    }

    /// The grid cell over which the player stands.
    pub fn get_grid_position(&self) -> (cell: (usize, usize))
        ensures
            cell == self.grid_cell(),
    {
        let gx: usize = if self.position.x < 0 {
            0
        } else {
            let q = (self.position.x / INTERIOR_CELL) as usize;
            if q > GRID_WIDTH - 1 {
                GRID_WIDTH - 1
            } else {
                q
            }
        };
        let gy: usize = if self.position.y < 0 {
            0
        } else {
            let q = (self.position.y / INTERIOR_CELL) as usize;
            if q > GRID_HEIGHT - 1 {
                GRID_HEIGHT - 1
            } else {
                q
            }
        };
        (gx, gy)
    }

    /// Notes the module of the module room in which the player stands, or
    /// that they stand in none.
    pub fn update_nearby_module(&mut self, interior: &ShipInterior)
        ensures
            final(self).nearby_module == (if exists|i: int|
                interior.first_room_at(old(self).position, i) && (#[trigger] interior.rooms@[i]).room_type
                    is Module {
                let i = choose|i: int|
                    interior.first_room_at(old(self).position, i) && (
                    #[trigger] interior.rooms@[i]).room_type is Module;
                interior.rooms@[i].module_index
            } else {
                None
            }),
            final(self).position == old(self).position,
            final(self).size == old(self).size,
            final(self).speed == old(self).speed,
            final(self).facing == old(self).facing,
            final(self).velocity == old(self).velocity,
    {
        match interior.room_index_at(self.position) {
            Some(i) => {
                match interior.rooms[i].room_type {
                    RoomType::Module(_) => {
                        proof {
                            let k = choose|k: int|
                                interior.first_room_at(self.position, k) && (
                                #[trigger] interior.rooms@[k]).room_type is Module;
                            assert(interior.first_room_at(self.position, i as int));
                            assert(k == i);
                        }
                        self.nearby_module = interior.rooms[i].module_index;
                    },
                    _ => {
                        proof {
                            assert forall|k: int|
                                interior.first_room_at(self.position, k) implies !((
                            #[trigger] interior.rooms@[k]).room_type is Module) by {
                                assert(k == i);
                            }
                        }
                        self.nearby_module = None;
                    },
                }
            },
            None => {
                self.nearby_module = None;
            },
        }
    }
}

} // verus!
