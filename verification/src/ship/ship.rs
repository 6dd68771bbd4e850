//! The exterior module grid.

use vstd::prelude::*;

verus! {

/// The kinds of modules.
#[derive(Debug, Clone, Copy, PartialEq, Eq, Structural, Hash)]
pub enum ModuleType {
    Weapon,
    Defense,
    Utility,
    Engine,
    Core,
    /// The slot exists but nothing is built in it.
    Empty,
}

/// Whether a module works.
#[derive(Debug, Clone, Copy, PartialEq, Eq, Structural)]
pub enum ModuleState {
    Destroyed,
    Offline,
    Active,
}

/// Health of a freshly built module.
pub const MODULE_BASE_HEALTH: i64 = 100_000;

/// Health of the core module of a new ship.
pub const CORE_BASE_HEALTH: i64 = 1_000_000;

/// A module in a slot of the grid.
#[derive(Debug, Clone, Copy, PartialEq, Eq)]
pub struct Module {
    pub module_type: ModuleType,
    pub state: ModuleState,
    pub level: u8,
    pub health: i64,
    pub max_health: i64,
    /// Time until a weapon may fire again.
    pub cooldown: u64,
}

impl Module {
    /// A module as it stands before its first repair: destroyed, at level 1,
    /// with base health.
    pub open spec fn fresh(module_type: ModuleType) -> Module {
        Module {
            module_type,
            state: ModuleState::Destroyed,
            level: 1,
            health: MODULE_BASE_HEALTH,
            max_health: MODULE_BASE_HEALTH,
            cooldown: 0,
        }
    }

    /// A module as it stands before its first repair.
    pub fn new(module_type: ModuleType) -> (m: Self)
        ensures
            m == Module::fresh(module_type),
    {
        Module {
            module_type,
            state: ModuleState::Destroyed,
            level: 1,
            health: MODULE_BASE_HEALTH,
            max_health: MODULE_BASE_HEALTH,
            cooldown: 0,
        }
    }
}

/// The grid of module slots, stored column by column: `grid[x][y]`.
#[derive(Debug, Clone)]
pub struct Ship {
    pub grid: Vec<Vec<Option<Module>>>,
}

/// What the slot `(x, y)` of a new ship of the given size holds: the active
/// core in the middle, an active weapon to its left and right, a destroyed
/// shield below, a destroyed engine three cells below, empty slots above and
/// at the four corners, and nothing anywhere else.
pub open spec fn starting_cell(width: int, height: int, x: int, y: int) -> Option<Module> {
    let cx = width / 2;
    let cy = height / 2;
    if x == cx && y == cy {
        Some(
            Module {
                module_type: ModuleType::Core,
                state: ModuleState::Active,
                level: 1,
                health: CORE_BASE_HEALTH,
                max_health: CORE_BASE_HEALTH,
                cooldown: 0,
            },
        )
    } else if (x == cx - 1 || x == cx + 1) && y == cy {
        Some(
            Module {
                module_type: ModuleType::Weapon,
                state: ModuleState::Active,
                level: 1,
                health: MODULE_BASE_HEALTH,
                max_health: MODULE_BASE_HEALTH,
                cooldown: 0,
            },
        )
    } else if x == cx && y == cy + 1 {
        Some(Module::fresh(ModuleType::Defense))
    } else if x == cx && y == cy + 3 {
        Some(Module::fresh(ModuleType::Engine))
    } else if (x == cx && y == cy - 1) || ((x == cx - 1 || x == cx + 1) && (y == cy - 1 || y == cy
        + 1)) {
        Some(Module::fresh(ModuleType::Empty))
    } else {
        None
    }
}

/// What the slot `(x, y)` of `cells` holds; nothing outside the grid.
pub open spec fn cell_in(cells: Seq<Seq<Option<Module>>>, x: int, y: int) -> Option<Module> {
    if 0 <= x < cells.len() && 0 <= y < cells[x].len() {
        cells[x][y]
    } else {
        None
    }
}

/// `cells` with `module` in the slot `(x, y)`, which is in the grid.
pub open spec fn with_cell(cells: Seq<Seq<Option<Module>>>, x: int, y: int, module: Module) -> Seq<
    Seq<Option<Module>>,
> {
    cells.update(x, cells[x].update(y, Some(module)))
}

/// Whether the slot `(x, y)` of `cells` holds a core module.
pub open spec fn core_in(cells: Seq<Seq<Option<Module>>>, x: int, y: int) -> bool {
    match cell_in(cells, x, y) {
        Some(m) => m.module_type == ModuleType::Core,
        None => false,
    }
}

/// Whether `(x, y)` comes before `(bx, by)` when a grid is read column by
/// column, each column from the top.
pub open spec fn scan_before(x: int, y: int, bx: int, by: int) -> bool {
    x < bx || (x == bx && y < by)
}

/// Whether `(x, y)` is the first slot of `cells`, reading column by column,
/// that holds a core module.
pub open spec fn is_first_core_in(cells: Seq<Seq<Option<Module>>>, x: int, y: int) -> bool {
    &&& core_in(cells, x, y)
    &&& forall|i: int, j: int| scan_before(i, j, x, y) ==> !#[trigger] core_in(cells, i, j)
}

/// The first slot of `cells`, reading column by column, that holds a core
/// module; `None` if no slot does.
pub open spec fn first_core_in(cells: Seq<Seq<Option<Module>>>) -> Option<(usize, usize)> {
    if exists|x: int, y: int| is_first_core_in(cells, x, y) {
        let (x, y) = choose|x: int, y: int| is_first_core_in(cells, x, y);
        Some((x as usize, y as usize))
    } else {
        None
    }
}

impl Ship {
    /// Number of columns.
    pub open spec fn width(self) -> nat {
        self.grid@.len()
    }

    /// The slots, column by column.
    pub open spec fn cells(self) -> Seq<Seq<Option<Module>>> {
        Seq::new(self.grid@.len(), |x: int| self.grid@[x]@)
    }

    /// What the slot `(x, y)` holds; nothing outside the grid.
    pub open spec fn cell(self, x: int, y: int) -> Option<Module> {
        cell_in(self.cells(), x, y)
    }

    /// Whether every column has `height` slots.
    pub open spec fn is_rect(self, width: nat, height: nat) -> bool {
        &&& self.grid@.len() == width
        &&& forall|x: int| 0 <= x < width ==> (#[trigger] self.grid@[x])@.len() == height
    }

    /// Whether the slot `(x, y)` holds a core module.
    pub open spec fn core_at(self, x: int, y: int) -> bool {
        core_in(self.cells(), x, y)
    }

    /// A grid of `width` columns of `height` empty places.
    fn blank(width: usize, height: usize) -> (grid: Vec<Vec<Option<Module>>>)
        ensures
            grid@.len() == width,
            forall|x: int| 0 <= x < width ==> (#[trigger] grid@[x])@.len() == height,
            forall|x: int, y: int|
                0 <= x < width && 0 <= y < height ==> (#[trigger] grid@[x]@[y]).is_none(),
    {
        let mut grid: Vec<Vec<Option<Module>>> = Vec::new();
        let mut x: usize = 0;
        while x < width
            invariant
                x <= width,
                grid@.len() == x,
                forall|i: int| 0 <= i < x ==> (#[trigger] grid@[i])@.len() == height,
                forall|i: int, j: int|
                    0 <= i < x && 0 <= j < height ==> (#[trigger] grid@[i]@[j]).is_none(),
            decreases width - x,
        {
            let mut column: Vec<Option<Module>> = Vec::new();
            let mut y: usize = 0;
            while y < height
                invariant
                    y <= height,
                    column@.len() == y,
                    forall|j: int| 0 <= j < y ==> (#[trigger] column@[j]).is_none(),
                decreases height - y,
            {
                column.push(None);
                y += 1;
            }
            grid.push(column);
            x += 1;
        }
        grid
    }

    /// The ship a run starts with. The grid must have room for the starting
    /// layout around its middle.
    pub fn new(width: usize, height: usize) -> (ship: Self)
        requires
            width >= 3,
            height >= 7,
        ensures
            ship.is_rect(width as nat, height as nat),
            forall|x: int, y: int|
                0 <= x < width && 0 <= y < height ==> #[trigger] ship.cell(x, y) == starting_cell(
                    width as int,
                    height as int,
                    x,
                    y,
                ),
    {
        let mut grid = Ship::blank(width, height);
        let cx: usize = width / 2;
        let cy: usize = height / 2;

        let mut core = Module::new(ModuleType::Core);
        core.state = ModuleState::Active;
        core.health = CORE_BASE_HEALTH;
        core.max_health = CORE_BASE_HEALTH;
        grid[cx][cy] = Some(core);

        let mut weapon = Module::new(ModuleType::Weapon);
        weapon.state = ModuleState::Active;
        grid[cx - 1][cy] = Some(weapon);
        grid[cx + 1][cy] = Some(weapon);

        grid[cx][cy - 1] = Some(Module::new(ModuleType::Empty));
        grid[cx][cy + 1] = Some(Module::new(ModuleType::Defense));

        grid[cx - 1][cy - 1] = Some(Module::new(ModuleType::Empty));
        grid[cx + 1][cy - 1] = Some(Module::new(ModuleType::Empty));
        grid[cx - 1][cy + 1] = Some(Module::new(ModuleType::Empty));
        grid[cx + 1][cy + 1] = Some(Module::new(ModuleType::Empty));

        grid[cx][cy + 3] = Some(Module::new(ModuleType::Engine));

        let ship = Ship { grid };
        assert forall|x: int, y: int| 0 <= x < width && 0 <= y < height implies #[trigger] ship.cell(
            x,
            y,
        ) == starting_cell(width as int, height as int, x, y) by {
            assert(ship.cells()[x] == ship.grid@[x]@);
            assert(ship.cell(x, y) == ship.grid@[x]@[y]);
        }
        ship
    }

    /// Whether `(x, y)` is a slot of the grid that holds a module or an
    /// empty building place.
    pub fn is_valid_slot(&self, x: usize, y: usize) -> (b: bool)
        ensures
            b == self.cell(x as int, y as int).is_some(),
    {
        if x >= self.grid.len() {
            return false;
        }
        if y >= self.grid[x].len() {
            return false;
        }
        self.grid[x][y].is_some()
    }

    /// The module in slot `(x, y)`, if the slot is in the grid and holds one.
    pub fn module_at(&self, x: usize, y: usize) -> (m: Option<Module>)
        ensures
            m == self.cell(x as int, y as int),
    {
        if x >= self.grid.len() {
            return None;
        }
        if y >= self.grid[x].len() {
            return None;
        }
        self.grid[x][y]
    }

    /// Whether `(x, y)` is the first slot, reading column by column, that
    /// holds a core module.
    pub open spec fn is_first_core(self, x: int, y: int) -> bool {
        is_first_core_in(self.cells(), x, y)
    }

    /// The first slot, reading column by column, that holds a core module;
    /// `None` if no slot does.
    pub open spec fn first_core(self) -> Option<(usize, usize)> {
        first_core_in(self.cells())
    }

    /// The first slot, reading column by column, that holds a core module.
    pub fn find_core(&self) -> (found: Option<(usize, usize)>)
        ensures
            found == self.first_core(),
            match found {
                Some((x, y)) => self.is_first_core(x as int, y as int),
                None => forall|i: int, j: int| !#[trigger] self.core_at(i, j),
            },
    {
        let ghost cells = self.cells();
        let mut x: usize = 0;
        while x < self.grid.len()
            invariant
                x <= self.grid@.len(),
                cells == self.cells(),
                forall|i: int, j: int| i < x ==> !#[trigger] core_in(cells, i, j),
            decreases self.grid@.len() - x,
        {
            let mut y: usize = 0;
            while y < self.grid[x].len()
                invariant
                    x < self.grid@.len(),
                    y <= self.grid@[x as int]@.len(),
                    cells == self.cells(),
                    forall|i: int, j: int|
                        scan_before(i, j, x as int, y as int) ==> !#[trigger] core_in(cells, i, j),
                decreases self.grid@[x as int]@.len() - y,
            {
                if let Some(module) = self.grid[x][y] {
                    if module.module_type == ModuleType::Core {
                        proof {
                            assert(is_first_core_in(cells, x as int, y as int));
                            let (cx, cy) = choose|cx: int, cy: int| is_first_core_in(cells, cx, cy);
                            assert(!scan_before(cx, cy, x as int, y as int));
                            assert(!scan_before(x as int, y as int, cx, cy));
                        }
                        return Some((x, y));
                    }
                }
                y += 1;
            }
            x += 1;
        }
        None
    }
}

/// The walk from `from` to `to` that a breadth-first search finds which
/// tries up, down, left and right in this order: first along the column to
/// the row of `to`, then along that row.
pub open spec fn column_then_row(from: (usize, usize), to: (usize, usize)) -> Seq<(usize, usize)> {
    let rows = if to.1 >= from.1 {
        to.1 - from.1
    } else {
        from.1 - to.1
    };
    let columns = if to.0 >= from.0 {
        to.0 - from.0
    } else {
        from.0 - to.0
    };
    Seq::new(
        (rows + columns + 1) as nat,
        |k: int|
            if k <= rows {
                (
                    from.0,
                    if to.1 >= from.1 {
                        (from.1 + k) as usize
                    } else {
                        (from.1 - k) as usize
                    },
                )
            } else {
                (
                    if to.0 >= from.0 {
                        (from.0 + (k - rows)) as usize
                    } else {
                        (from.0 - (k - rows)) as usize
                    },
                    to.1,
                )
            },
    )
}

/// Whether two cells are neighbours: one step apart along a row or a
/// column.
pub open spec fn adjacent(a: (usize, usize), b: (usize, usize)) -> bool {
    ||| (a.0 == b.0 && (a.1 + 1 == b.1 || b.1 + 1 == a.1))
    ||| (a.1 == b.1 && (a.0 + 1 == b.0 || b.0 + 1 == a.0))
}

/// The walk along the column and then the row is a shortest walk: it
/// starts at `from`, ends at `to`, goes from neighbour to neighbour, has as
/// many steps as the two cells are rows and columns apart, and stays
/// within the rectangle they span.
pub proof fn lemma_column_then_row(from: (usize, usize), to: (usize, usize))
    ensures
        ({
            let walk = column_then_row(from, to);
            let rows = if to.1 >= from.1 {
                to.1 - from.1
            } else {
                from.1 - to.1
            };
            let columns = if to.0 >= from.0 {
                to.0 - from.0
            } else {
                from.0 - to.0
            };
            &&& walk.len() == rows + columns + 1
            &&& walk[0] == from
            &&& walk.last() == to
            &&& forall|k: int| 0 <= k < walk.len() - 1 ==> adjacent(#[trigger] walk[k], walk[k + 1])
            &&& forall|k: int|
                0 <= k < walk.len() ==> {
                    &&& (from.0 <= (#[trigger] walk[k]).0 <= to.0 || to.0 <= walk[k].0 <= from.0)
                    &&& (from.1 <= walk[k].1 <= to.1 || to.1 <= walk[k].1 <= from.1)
                }
        }),
{
}

impl Ship {
    /// Number of rows of the area that can be walked: the length of the
    /// first column.
    pub open spec fn walk_height(self) -> nat {
        if self.grid@.len() > 0 {
            self.grid@[0]@.len()
        } else {
            0
        }
    }

    /// Whether a cell lies in the area that can be walked.
    pub open spec fn walkable(self, cell: (usize, usize)) -> bool {
        cell.0 < self.grid@.len() && cell.1 < self.walk_height()
    }

    /// The cell through which a walk from outside the area enters it: the
    /// neighbour of `start` in the area, of which a cell outside has at
    /// most one.
    pub open spec fn entry(self, start: (usize, usize)) -> Option<(usize, usize)> {
        if start.0 < self.grid@.len() && start.1 == self.walk_height() && start.1 >= 1 {
            Some((start.0, (start.1 - 1) as usize))
        } else if start.0 == self.grid@.len() && start.0 >= 1 && start.1 < self.walk_height() {
            Some(((start.0 - 1) as usize, start.1))
        } else {
            None
        }
    }

    /// The walk from `start` to the core.
    ///
    /// Every cell of the area can be walked, whatever it holds. A ship
    /// without core has no walk, nor has one whose core lies outside the
    /// area. From the core itself the walk is that one cell. From a cell of
    /// the area the walk runs along the column and then the row; from a
    /// cell next to the area it enters the area first; from anywhere else
    /// there is none.
    pub open spec fn path_to_core(self, start: (usize, usize)) -> Option<Seq<(usize, usize)>> {
        match self.first_core() {
            None => None,
            Some(core) => if start == core {
                Some(seq![start])
            } else if !self.walkable(core) {
                None
            } else if self.walkable(start) {
                Some(column_then_row(start, core))
            } else {
                match self.entry(start) {
                    Some(e) => Some(seq![start] + column_then_row(e, core)),
                    None => None,
                }
            },
        }
    }

    /// Appends the walk from `from` to `to` along the column and then the
    /// row.
    fn walk_column_then_row(path: &mut Vec<(usize, usize)>, from: (usize, usize), to: (usize, usize))
        ensures
            final(path)@ == old(path)@ + column_then_row(from, to),
    {
        let ghost before = path@;
        let ghost walk = column_then_row(from, to);
        let rows: usize = if to.1 >= from.1 {
            to.1 - from.1
        } else {
            from.1 - to.1
        };
        let columns: usize = if to.0 >= from.0 {
            to.0 - from.0
        } else {
            from.0 - to.0
        };
        let mut k: usize = 0;
        while k < rows
            invariant
                k <= rows,
                rows == (if to.1 >= from.1 {
                    to.1 - from.1
                } else {
                    from.1 - to.1
                }),
                walk == column_then_row(from, to),
                path@ == before + walk.take(k as int),
            decreases rows - k,
        {
            let y = if to.1 >= from.1 {
                from.1 + k
            } else {
                from.1 - k
            };
            path.push((from.0, y));
            proof {
                assert(path@ =~= before + walk.take(k + 1));
            }
            k += 1;
        }
        path.push((from.0, to.1));
        proof {
            assert(path@ =~= before + walk.take(rows + 1));
        }
        let mut c: usize = 0;
        while c < columns
            invariant
                c <= columns,
                rows == (if to.1 >= from.1 {
                    to.1 - from.1
                } else {
                    from.1 - to.1
                }),
                columns == (if to.0 >= from.0 {
                    to.0 - from.0
                } else {
                    from.0 - to.0
                }),
                walk == column_then_row(from, to),
                path@ == before + walk.take(rows + c + 1),
            decreases columns - c,
        {
            c += 1;
            let x = if to.0 >= from.0 {
                from.0 + c
            } else {
                from.0 - c
            };
            path.push((x, to.1));
            proof {
                assert(path@ =~= before + walk.take(rows + c + 1));
            }
        }
        proof {
            assert(walk.take(rows + columns + 1) =~= walk);
        }
    }

    /// The walk from `start` to the core, cell by cell, if there is one.
    pub fn calculate_path_to_core(&self, start: (usize, usize)) -> (path: Option<
        Vec<(usize, usize)>,
    >)
        ensures
            match path {
                Some(p) => self.path_to_core(start) == Some(p@),
                None => self.path_to_core(start).is_none(),
            },
    {
        let core = match self.find_core() {
            Some(c) => c,
            None => {
                return None;
            },
        };
        let mut path: Vec<(usize, usize)> = Vec::new();
        if start.0 == core.0 && start.1 == core.1 {
            path.push(start);
            proof {
                assert(path@ =~= seq![start]);
            }
            return Some(path);
        }
        let width = self.grid.len();
        let height = if width > 0 {
            self.grid[0].len()
        } else {
            0
        };
        if !(core.0 < width && core.1 < height) {
            return None;
        }
        if start.0 < width && start.1 < height {
            Ship::walk_column_then_row(&mut path, start, core);
            proof {
                assert(path@ =~= column_then_row(start, core));
            }
            return Some(path);
        }
        let entry = if start.0 < width && start.1 == height && start.1 >= 1 {
            (start.0, start.1 - 1)
        } else if start.0 == width && start.0 >= 1 && start.1 < height {
            (start.0 - 1, start.1)
        } else {
            return None;
        };
        path.push(start);
        Ship::walk_column_then_row(&mut path, entry, core);
        proof {
            assert(path@ =~= seq![start] + column_then_row(entry, core));
        }
        Some(path)
    }
}

} // verus!
