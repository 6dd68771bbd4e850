//! Where the module grid sits on the screen.

use vstd::prelude::*;
use crate::simulation::constants::{CELL_SIZE, GRID_HEIGHT, GRID_SPAN_X, GRID_SPAN_Y, GRID_WIDTH};
use crate::units::{clamp, clamp_i32, clamp_to_i32, div_toward_zero, divide_toward_zero, Vec2};

verus! {

/// The screen on which the grid is centred, in thousandths of a pixel.
#[derive(Debug, Clone, Copy, PartialEq, Eq, Structural)]
pub struct Layout {
    pub screen_width: i32,
    pub screen_height: i32,
}

impl Layout {
    /// The layout for a screen of the given size.
    pub fn new(screen_width: i32, screen_height: i32) -> (l: Self)
        ensures
            l.screen_width == screen_width,
            l.screen_height == screen_height,
    {
        Layout { screen_width, screen_height }
    }

    /// Screen x of the grid's left edge.
    pub open spec fn origin_x(self) -> int {
        div_toward_zero(self.screen_width - GRID_SPAN_X, 2)
    }

    /// Screen y of the grid's top edge.
    pub open spec fn origin_y(self) -> int {
        div_toward_zero(self.screen_height - GRID_SPAN_Y, 2)
    }

    /// The middle of the screen.
    pub open spec fn middle(self) -> Vec2 {
        Vec2 {
            x: div_toward_zero(self.screen_width as int, 2) as i32,
            y: div_toward_zero(self.screen_height as int, 2) as i32,
        }
    }

    /// Screen position of the corner of cell `(x, y)`, each coordinate kept
    /// within `i32`.
    pub open spec fn cell_corner(self, x: int, y: int) -> Vec2 {
        Vec2 {
            x: clamp_i32(self.origin_x() + x * CELL_SIZE) as i32,
            y: clamp_i32(self.origin_y() + y * CELL_SIZE) as i32,
        }
    }

    /// Screen position of the middle of cell `(x, y)`, each coordinate kept
    /// within `i32`.
    pub open spec fn cell_center(self, x: int, y: int) -> Vec2 {
        Vec2 {
            x: clamp_i32(self.cell_corner(x, y).x + CELL_SIZE / 2) as i32,
            y: clamp_i32(self.cell_corner(x, y).y + CELL_SIZE / 2) as i32,
        }
    }

    /// The cell in which `pos` lies, if it lies on the grid. On the right
    /// and bottom edges of the grid lies no cell.
    pub open spec fn cell_of(self, pos: Vec2) -> Option<(usize, usize)> {
        let ox = self.origin_x();
        let oy = self.origin_y();
        if pos.x < ox || pos.x > ox + GRID_SPAN_X || pos.y < oy || pos.y > oy + GRID_SPAN_Y {
            None
        } else {
            let x = (pos.x - ox) / (CELL_SIZE as int);
            let y = (pos.y - oy) / (CELL_SIZE as int);
            if x < GRID_WIDTH && y < GRID_HEIGHT {
                Some((x as usize, y as usize))
            } else {
                None
            }
        }
    }

    /// The cell nearest to `pos`: the cell in which it lies, brought onto
    /// the grid.
    pub open spec fn nearest_cell(self, pos: Vec2) -> (usize, usize) {
        (
            clamp((pos.x - self.origin_x()) / (CELL_SIZE as int), 0, GRID_WIDTH - 1) as usize,
            clamp((pos.y - self.origin_y()) / (CELL_SIZE as int), 0, GRID_HEIGHT - 1) as usize,
        )
    }

    fn start_x(&self) -> (r: i64)
        ensures
            r == self.origin_x(),
            -0x8000_0000 <= r <= 0x8000_0000,
    {
        divide_toward_zero(self.screen_width as i128 - GRID_SPAN_X as i128, 2) as i64
    }

    fn start_y(&self) -> (r: i64)
        ensures
            r == self.origin_y(),
            -0x8000_0000 <= r <= 0x8000_0000,
    {
        divide_toward_zero(self.screen_height as i128 - GRID_SPAN_Y as i128, 2) as i64
    }

    /// The middle of the screen.
    pub fn screen_center(&self) -> (p: Vec2)
        ensures
            p == self.middle(),
    {
        Vec2 {
            x: divide_toward_zero(self.screen_width as i128, 2) as i32,
            y: divide_toward_zero(self.screen_height as i128, 2) as i32,
        }
    }

    /// Screen position of the top-left corner of a cell.
    pub fn grid_to_screen(&self, x: usize, y: usize) -> (p: Vec2)
        ensures
            p == self.cell_corner(x as int, y as int),
    {
        assert(0 <= x * CELL_SIZE <= usize::MAX * CELL_SIZE) by (nonlinear_arith)
            requires
                0 <= x <= usize::MAX,
                CELL_SIZE > 0,
        ;
        assert(0 <= y * CELL_SIZE <= usize::MAX * CELL_SIZE) by (nonlinear_arith)
            requires
                0 <= y <= usize::MAX,
                CELL_SIZE > 0,
        ;
        Vec2 {
            x: clamp_to_i32(self.start_x() as i128 + (x as i128) * (CELL_SIZE as i128)),
            y: clamp_to_i32(self.start_y() as i128 + (y as i128) * (CELL_SIZE as i128)),
        }
    }

    /// Screen position of the middle of a cell.
    pub fn grid_to_screen_center(&self, x: usize, y: usize) -> (p: Vec2)
        ensures
            p == self.cell_center(x as int, y as int),
    {
        let corner = self.grid_to_screen(x, y);
        Vec2 {
            x: clamp_to_i32(corner.x as i128 + (CELL_SIZE / 2) as i128),
            y: clamp_to_i32(corner.y as i128 + (CELL_SIZE / 2) as i128),
        }
    }

    /// The cell in which a screen position lies.
    pub fn screen_to_grid(&self, pos: Vec2) -> (cell: Option<(usize, usize)>)
        ensures
            cell == self.cell_of(pos),
            cell matches Some((x, y)) ==> x < GRID_WIDTH && y < GRID_HEIGHT,
    {
        let ox = self.start_x();
        let oy = self.start_y();
        let grid_w: i64 = GRID_SPAN_X as i64;
        let grid_h: i64 = GRID_SPAN_Y as i64;
        let px = pos.x as i64;
        let py = pos.y as i64;
        if px < ox || px > ox + grid_w || py < oy || py > oy + grid_h {
            return None;
        }
        let x: u64 = ((px - ox) as u64) / (CELL_SIZE as u64);
        let y: u64 = ((py - oy) as u64) / (CELL_SIZE as u64);
        if x < GRID_WIDTH as u64 && y < GRID_HEIGHT as u64 {
            Some((x as usize, y as usize))
        } else {
            None
        }
    }

    /// The cell nearest to a screen position.
    pub fn screen_to_grid_clamped(&self, pos: Vec2) -> (cell: (usize, usize))
        ensures
            cell == self.nearest_cell(pos),
            cell.0 < GRID_WIDTH,
            cell.1 < GRID_HEIGHT,
    {
        let dx: i64 = pos.x as i64 - self.start_x();
        let dy: i64 = pos.y as i64 - self.start_y();
        let x: usize = if dx < 0 {
            0
        } else {
            let q: u64 = (dx as u64) / (CELL_SIZE as u64);
            if q >= GRID_WIDTH as u64 {
                GRID_WIDTH - 1
            } else {
                q as usize
            }
        };
        let y: usize = if dy < 0 {
            0
        } else {
            let q: u64 = (dy as u64) / (CELL_SIZE as u64);
            if q >= GRID_HEIGHT as u64 {
                GRID_HEIGHT - 1
            } else {
                q as usize
            }
        };
        (x, y)
    }
}

} // verus!
