//! The interior: rooms, their repair points, and the power they generate
//! and consume.

use vstd::prelude::*;
use crate::ship::ship::ModuleType;
use crate::simulation::constants::{
    POWER_COST_COCKPIT, POWER_COST_DEFENSE, POWER_COST_ENGINE, POWER_COST_MEDBAY,
    POWER_COST_UTILITY, POWER_COST_WEAPON, POWER_PER_CORE_POINT,
};
use crate::units::{clamp_i32, clamp_to_i32, div_toward_zero, divide_toward_zero, Vec2};

verus! {

/// Side of a room of default size.
pub const ROOM_SIZE: i32 = 64_000;

/// Width of a corridor of default size.
pub const CORRIDOR_WIDTH: i32 = 32_000;

/// Side of the square on which a repair point can be worked.
pub const REPAIR_POINT_SIZE: i32 = 24_000;

/// Identifier of the room in which the player starts.
pub const START_ROOM_ID: usize = 12;

/// Where the player starts in a ship without rooms.
pub const DEFAULT_START_X: i32 = 200_000;

/// Where the player starts in a ship without rooms.
pub const DEFAULT_START_Y: i32 = 150_000;

/// A subsystem of a room that the player repairs. Its position is relative
/// to the room's corner.
#[derive(Debug, Clone, Copy, PartialEq, Eq)]
pub struct RepairPoint {
    pub id: usize,
    pub x: i32,
    pub y: i32,
    pub repaired: bool,
}

impl RepairPoint {
    /// A repair point that is not yet repaired.
    pub fn new(id: usize, x: i32, y: i32) -> (p: Self)
        ensures
            p == (RepairPoint { id, x, y, repaired: false }),
    {
        RepairPoint { id, x, y, repaired: false }
    }

    /// Whether `pos` lies in the square of side `REPAIR_POINT_SIZE` centred
    /// on this point, for a room whose corner is at `(room_x, room_y)`.
    pub open spec fn covers(self, room_x: int, room_y: int, pos: Vec2) -> bool {
        let px = room_x + self.x;
        let py = room_y + self.y;
        let half = REPAIR_POINT_SIZE / 2;
        &&& px - half <= pos.x <= px + half
        &&& py - half <= pos.y <= py + half
    }

    /// Whether `pos` lies on this repair point.
    pub fn contains(&self, room_x: i32, room_y: i32, pos: Vec2) -> (b: bool)
        ensures
            b == self.covers(room_x as int, room_y as int, pos),
    {
        let px: i64 = room_x as i64 + self.x as i64;
        let py: i64 = room_y as i64 + self.y as i64;
        let half: i64 = (REPAIR_POINT_SIZE / 2) as i64;
        pos.x as i64 >= px - half && pos.x as i64 <= px + half && pos.y as i64 >= py - half
            && pos.y as i64 <= py + half
    }
}

/// Number of repaired points among `points`.
pub open spec fn count_repaired(points: Seq<RepairPoint>) -> nat
    decreases points.len(),
{
    if points.len() == 0 {
        0
    } else {
        count_repaired(points.drop_last()) + if points.last().repaired {
            1nat
        } else {
            0nat
        }
    }
}

/// A room never has more repaired points than points.
pub proof fn lemma_count_repaired_bound(points: Seq<RepairPoint>)
    ensures
        count_repaired(points) <= points.len(),
    decreases points.len(),
{
    if points.len() > 0 {
        lemma_count_repaired_bound(points.drop_last());
    }
}

/// Every point is repaired exactly when the count equals the number of
/// points.
pub proof fn lemma_count_repaired_full(points: Seq<RepairPoint>)
    ensures
        count_repaired(points) == points.len() <==> forall|i: int|
            0 <= i < points.len() ==> (#[trigger] points[i]).repaired,
    decreases points.len(),
{
    if points.len() > 0 {
        let init = points.drop_last();
        lemma_count_repaired_full(init);
        lemma_count_repaired_bound(init);
        if count_repaired(points) == points.len() {
            assert forall|i: int| 0 <= i < points.len() implies (#[trigger] points[i]).repaired by {
                if i < init.len() {
                    assert(init[i].repaired);
                }
            }
        }
        if forall|i: int| 0 <= i < points.len() ==> (#[trigger] points[i]).repaired {
            assert forall|i: int| 0 <= i < init.len() implies (#[trigger] init[i]).repaired by {
                assert(points[i].repaired);
            }
            assert(points.last().repaired);
        }
    }
}

/// Repairing one more point raises the count by one and never lowers it.
pub proof fn lemma_count_repaired_update(points: Seq<RepairPoint>, i: int, p: RepairPoint)
    requires
        0 <= i < points.len(),
        p.repaired,
    ensures
        count_repaired(points.update(i, p)) == count_repaired(points) + if points[i].repaired {
            0nat
        } else {
            1nat
        },
    decreases points.len(),
{
    let after = points.update(i, p);
    if i == points.len() - 1 {
        assert(after.drop_last() =~= points.drop_last());
    } else {
        assert(after.drop_last() =~= points.drop_last().update(i, p));
        lemma_count_repaired_update(points.drop_last(), i, p);
    }
}

/// The kinds of rooms. A module room stands for a module of the grid.
#[derive(Debug, Clone, Copy, PartialEq, Eq, Structural)]
pub enum RoomType {
    Module(ModuleType),
    Corridor,
    Storage,
    Cockpit,
    Medbay,
    Empty,
}

impl RoomType {
    /// The room kind a layout file names by `s`; an unknown name is an
    /// empty room.
    pub open spec fn named(s: Seq<char>) -> RoomType {
        if s == "core"@ {
            RoomType::Module(ModuleType::Core)
        } else if s == "weapon"@ {
            RoomType::Module(ModuleType::Weapon)
        } else if s == "shield"@ {
            RoomType::Module(ModuleType::Defense)
        } else if s == "engine"@ {
            RoomType::Module(ModuleType::Engine)
        } else if s == "utility"@ {
            RoomType::Module(ModuleType::Utility)
        } else if s == "corridor"@ {
            RoomType::Corridor
        } else if s == "storage"@ {
            RoomType::Storage
        } else if s == "cockpit"@ {
            RoomType::Cockpit
        } else if s == "medbay"@ {
            RoomType::Medbay
        } else {
            RoomType::Empty
        }
    }

    /// The room kind a layout file names by `s`.
    pub fn from_str(s: &str) -> (t: Self)
        ensures
            t == RoomType::named(s@),
    {
        let name: String = s.to_owned();
        if name == "core".to_owned() {
            RoomType::Module(ModuleType::Core)
        } else if name == "weapon".to_owned() {
            RoomType::Module(ModuleType::Weapon)
        } else if name == "shield".to_owned() {
            RoomType::Module(ModuleType::Defense)
        } else if name == "engine".to_owned() {
            RoomType::Module(ModuleType::Engine)
        } else if name == "utility".to_owned() {
            RoomType::Module(ModuleType::Utility)
        } else if name == "corridor".to_owned() {
            RoomType::Corridor
        } else if name == "storage".to_owned() {
            RoomType::Storage
        } else if name == "cockpit".to_owned() {
            RoomType::Cockpit
        } else if name == "medbay".to_owned() {
            RoomType::Medbay
        } else {
            RoomType::Empty
        }
    }

    /// Power one repaired point of a room of this kind generates.
    pub open spec fn generation_per_point(self) -> nat {
        match self {
            RoomType::Module(ModuleType::Core) => POWER_PER_CORE_POINT as nat,
            _ => 0,
        }
    }

    /// Power one repaired point of a room of this kind consumes.
    pub open spec fn cost_per_point(self) -> nat {
        match self {
            RoomType::Module(ModuleType::Weapon) => POWER_COST_WEAPON as nat,
            RoomType::Module(ModuleType::Defense) => POWER_COST_DEFENSE as nat,
            RoomType::Module(ModuleType::Utility) => POWER_COST_UTILITY as nat,
            RoomType::Module(ModuleType::Engine) => POWER_COST_ENGINE as nat,
            RoomType::Cockpit => POWER_COST_COCKPIT as nat,
            RoomType::Medbay => POWER_COST_MEDBAY as nat,
            _ => 0,
        }
    }

    /// Power one repaired point of a room of this kind generates.
    pub fn power_generation(self) -> (p: i32)
        ensures
            p == self.generation_per_point(),
            0 <= p <= 2,
    {
        match self {
            RoomType::Module(ModuleType::Core) => POWER_PER_CORE_POINT,
            _ => 0,
        }
    }

    /// Power one repaired point of a room of this kind consumes.
    pub fn power_cost(self) -> (p: i32)
        ensures
            p == self.cost_per_point(),
            0 <= p <= 2,
    {
        match self {
            RoomType::Module(ModuleType::Weapon) => POWER_COST_WEAPON,
            RoomType::Module(ModuleType::Defense) => POWER_COST_DEFENSE,
            RoomType::Module(ModuleType::Utility) => POWER_COST_UTILITY,
            RoomType::Module(ModuleType::Engine) => POWER_COST_ENGINE,
            RoomType::Cockpit => POWER_COST_COCKPIT,
            RoomType::Medbay => POWER_COST_MEDBAY,
            _ => 0,
        }
    }
}

/// A room of the interior. Position and size are in thousandths of a pixel
/// of the interior view.
#[derive(Debug, Clone)]
pub struct Room {
    pub id: usize,
    pub room_type: RoomType,
    pub x: i32,
    pub y: i32,
    pub width: i32,
    pub height: i32,
    /// Grid slot of the module this room stands for.
    pub module_index: Option<(usize, usize)>,
    pub connections: Vec<usize>,
    pub repair_points: Vec<RepairPoint>,
}

impl Room {
    /// A room without module, connections or repair points.
    pub fn new(id: usize, room_type: RoomType, x: i32, y: i32, width: i32, height: i32) -> (r:
        Self)
        ensures
            r.id == id,
            r.room_type == room_type,
            r.x == x,
            r.y == y,
            r.width == width,
            r.height == height,
            r.module_index.is_none(),
            r.connections@.len() == 0,
            r.repair_points@.len() == 0,
    {
        Room {
            id,
            room_type,
            x,
            y,
            width,
            height,
            module_index: None,
            connections: Vec::new(),
            repair_points: Vec::new(),
        }
    }

    /// Number of repaired points.
    pub open spec fn repaired(self) -> nat {
        count_repaired(self.repair_points@)
    }

    /// Number of repair points.
    pub open spec fn total(self) -> nat {
        self.repair_points@.len()
    }

    /// Power the room generates.
    pub open spec fn generation(self) -> nat {
        self.repaired() * self.room_type.generation_per_point()
    }

    /// Power the room consumes.
    pub open spec fn consumption(self) -> nat {
        self.repaired() * self.room_type.cost_per_point()
    }

    /// Counts the repaired points.
    pub fn repaired_count(&self) -> (n: usize)
        ensures
            n == self.repaired(),
            n <= self.total(),
    {
        let mut n: usize = 0;
        let mut i: usize = 0;
        while i < self.repair_points.len()
            invariant
                i <= self.repair_points@.len(),
                n == count_repaired(self.repair_points@.take(i as int)),
                n <= i,
            decreases self.repair_points@.len() - i,
        {
            proof {
                assert(self.repair_points@.take(i + 1).drop_last() =~= self.repair_points@.take(
                    i as int,
                ));
            }
            if self.repair_points[i].repaired {
                n += 1;
            }
            i += 1;
        }
        proof {
            assert(self.repair_points@.take(i as int) =~= self.repair_points@);
        }
        n
    }

    /// Whether the room has repair points and all of them are repaired.
    pub fn is_fully_repaired(&self) -> (b: bool)
        ensures
            b == (self.total() > 0 && self.repaired() == self.total()),
            b == (self.total() > 0 && forall|i: int|
                0 <= i < self.repair_points@.len() ==> (#[trigger] self.repair_points@[i]).repaired),
    {
        proof {
            lemma_count_repaired_full(self.repair_points@);
        }
        self.repair_points.len() > 0 && self.repaired_count() == self.repair_points.len()
    }

    /// Whether `i` is the first repair point that covers `pos`.
    pub open spec fn first_point_at(self, pos: Vec2, i: int) -> bool {
        &&& 0 <= i < self.repair_points@.len()
        &&& self.repair_points@[i].covers(self.x as int, self.y as int, pos)
        &&& forall|j: int|
            0 <= j < i ==> !(#[trigger] self.repair_points@[j]).covers(
                self.x as int,
                self.y as int,
                pos,
            )
    }

    /// Index of the first repair point on which `pos` lies.
    pub fn repair_point_at(&self, pos: Vec2) -> (found: Option<usize>)
        ensures
            match found {
                Some(i) => self.first_point_at(pos, i as int),
                None => forall|j: int|
                    0 <= j < self.repair_points@.len() ==> !(#[trigger] self.repair_points@[j]).covers(
                        self.x as int,
                        self.y as int,
                        pos,
                    ),
            },
    {
        let mut i: usize = 0;
        while i < self.repair_points.len()
            invariant
                i <= self.repair_points@.len(),
                forall|j: int|
                    0 <= j < i ==> !(#[trigger] self.repair_points@[j]).covers(
                        self.x as int,
                        self.y as int,
                        pos,
                    ),
            decreases self.repair_points@.len() - i,
        {
            if self.repair_points[i].contains(self.x, self.y, pos) {
                return Some(i);
            }
            i += 1;
        }
        None
    }

    /// The same room, standing for the module in grid slot `(gx, gy)`.
    pub fn with_module(self, gx: usize, gy: usize) -> (r: Self)
        ensures
            r.module_index == Some((gx, gy)),
            r.id == self.id,
            r.room_type == self.room_type,
            r.x == self.x,
            r.y == self.y,
            r.width == self.width,
            r.height == self.height,
            r.connections@ == self.connections@,
            r.repair_points@ == self.repair_points@,
    {
        let mut r = self;
        r.module_index = Some((gx, gy));
        r
    }

    /// The same room, connected to the rooms named.
    pub fn with_connections(self, connections: Vec<usize>) -> (r: Self)
        ensures
            r.connections@ == connections@,
            r.id == self.id,
            r.room_type == self.room_type,
            r.x == self.x,
            r.y == self.y,
            r.width == self.width,
            r.height == self.height,
            r.module_index == self.module_index,
            r.repair_points@ == self.repair_points@,
    {
        let mut r = self;
        r.connections = connections;
        r
    }

    /// The same room with one more repair point, not yet repaired, at
    /// `(x, y)` from the room's corner. Its id is its index.
    pub fn with_repair_point(self, x: i32, y: i32) -> (r: Self)
        ensures
            r.repair_points@ == self.repair_points@.push(
                RepairPoint { id: self.repair_points@.len() as usize, x, y, repaired: false },
            ),
            r.id == self.id,
            r.room_type == self.room_type,
            r.x == self.x,
            r.y == self.y,
            r.width == self.width,
            r.height == self.height,
            r.module_index == self.module_index,
            r.connections@ == self.connections@,
    {
        let mut r = self;
        let id = r.repair_points.len();
        r.repair_points.push(RepairPoint::new(id, x, y));
        r
    }

    /// Whether `pos` lies in the room's rectangle, edges included.
    pub open spec fn covers(self, pos: Vec2) -> bool {
        &&& self.x <= pos.x <= self.x + self.width
        &&& self.y <= pos.y <= self.y + self.height
    }

    /// Whether `pos` lies in the room.
    pub fn contains(&self, pos: Vec2) -> (b: bool)
        ensures
            b == self.covers(pos),
    {
        pos.x >= self.x && pos.x as i64 <= self.x as i64 + self.width as i64 && pos.y >= self.y
            && pos.y as i64 <= self.y as i64 + self.height as i64
    }

    /// The middle of the room's rectangle, each coordinate kept within
    /// `i32`.
    pub open spec fn middle(self) -> Vec2 {
        Vec2 {
            x: clamp_i32(self.x + div_toward_zero(self.width as int, 2)) as i32,
            y: clamp_i32(self.y + div_toward_zero(self.height as int, 2)) as i32,
        }
    }

    /// The middle of the room.
    pub fn center(&self) -> (c: Vec2)
        ensures
            c == self.middle(),
    {
        Vec2 {
            x: clamp_to_i32(self.x as i128 + divide_toward_zero(self.width as i128, 2)),
            y: clamp_to_i32(self.y as i128 + divide_toward_zero(self.height as i128, 2)),
        }
    }

    /// The caption of a room of the given kind; rooms without one have the
    /// empty caption.
    pub open spec fn caption(room_type: RoomType) -> Seq<char> {
        match room_type {
            RoomType::Module(ModuleType::Core) => "REACTOR"@,
            RoomType::Module(ModuleType::Weapon) => "WEAPONS"@,
            RoomType::Module(ModuleType::Defense) => "SHIELDS"@,
            RoomType::Module(ModuleType::Engine) => "ENGINES"@,
            RoomType::Module(ModuleType::Utility) => "SYSTEMS"@,
            RoomType::Module(ModuleType::Empty) => ""@,
            RoomType::Corridor => ""@,
            RoomType::Storage => "STORAGE"@,
            RoomType::Cockpit => "COCKPIT"@,
            RoomType::Medbay => "MEDBAY"@,
            RoomType::Empty => ""@,
        }
    }

    /// The room's caption.
    pub fn name(&self) -> (s: &'static str)
        ensures
            s@ == Room::caption(self.room_type),
    {
        match self.room_type {
            RoomType::Module(ModuleType::Core) => "REACTOR",
            RoomType::Module(ModuleType::Weapon) => "WEAPONS",
            RoomType::Module(ModuleType::Defense) => "SHIELDS",
            RoomType::Module(ModuleType::Engine) => "ENGINES",
            RoomType::Module(ModuleType::Utility) => "SYSTEMS",
            RoomType::Module(ModuleType::Empty) => "",
            RoomType::Corridor => "",
            RoomType::Storage => "STORAGE",
            RoomType::Cockpit => "COCKPIT",
            RoomType::Medbay => "MEDBAY",
            RoomType::Empty => "",
        }
    }
}

/// Power all `rooms` generate together.
pub open spec fn generated(rooms: Seq<Room>) -> nat
    decreases rooms.len(),
{
    if rooms.len() == 0 {
        0
    } else {
        generated(rooms.drop_last()) + rooms.last().generation()
    }
}

/// Power all `rooms` consume together.
pub open spec fn consumed(rooms: Seq<Room>) -> nat
    decreases rooms.len(),
{
    if rooms.len() == 0 {
        0
    } else {
        consumed(rooms.drop_last()) + rooms.last().consumption()
    }
}

/// `v`, or the largest `i32` if `v` is larger.
pub open spec fn cap_i32(v: nat) -> int {
    if v > i32::MAX {
        i32::MAX as int
    } else {
        v as int
    }
}

/// The power ledger: what is generated and what is consumed.
#[derive(Debug, Clone, Copy, PartialEq, Eq, Structural)]
pub struct PowerLedger {
    pub total_power: i32,
    pub used_power: i32,
}

/// `acc + count * per_point`, capped at the largest `i32`.
fn add_capped(acc: i32, count: usize, per_point: i32) -> (r: i32)
    requires
        0 <= acc,
        0 <= per_point <= 2,
    ensures
        r == cap_i32((acc + count * per_point) as nat),
{
    assert(0 <= count * per_point <= 2 * usize::MAX) by (nonlinear_arith)
        requires
            0 <= count <= usize::MAX,
            0 <= per_point <= 2,
    ;
    let sum: u128 = acc as u128 + (count as u128) * (per_point as u128);
    if sum > i32::MAX as u128 {
        i32::MAX
    } else {
        sum as i32
    }
}

/// The ledger of `rooms`, recomputed from their repair points alone: each
/// repaired point of a reactor room generates power, each repaired point of
/// any other powered room consumes its kind's cost. Each side is capped at
/// the largest `i32`.
pub fn compute_power(rooms: &Vec<Room>) -> (ledger: PowerLedger)
    ensures
        ledger.total_power == cap_i32(generated(rooms@)),
        ledger.used_power == cap_i32(consumed(rooms@)),
{
    let mut total: i32 = 0;
    let mut used: i32 = 0;
    let mut i: usize = 0;
    while i < rooms.len()
        invariant
            i <= rooms@.len(),
            total == cap_i32(generated(rooms@.take(i as int))),
            used == cap_i32(consumed(rooms@.take(i as int))),
        decreases rooms@.len() - i,
    {
        proof {
            assert(rooms@.take(i + 1).drop_last() =~= rooms@.take(i as int));
        }
        let room = &rooms[i];
        let repaired = room.repaired_count();
        total = add_capped(total, repaired, room.room_type.power_generation());
        used = add_capped(used, repaired, room.room_type.power_cost());
        i += 1;
    }
    proof {
        assert(rooms@.take(i as int) =~= rooms@);
    }
    PowerLedger { total_power: total, used_power: used }
}

/// The interior layout.
#[derive(Debug, Clone)]
pub struct ShipInterior {
    pub rooms: Vec<Room>,
    pub width: i32,
    pub height: i32,
}

impl ShipInterior {
    /// An interior of the given size without rooms.
    pub fn new(width: i32, height: i32) -> (s: Self)
        ensures
            s.rooms@.len() == 0,
            s.width == width,
            s.height == height,
    {
        ShipInterior { rooms: Vec::new(), width, height }
    }

    /// Whether `i` is the first room with the given id.
    pub open spec fn first_with_id(self, id: usize, i: int) -> bool {
        &&& 0 <= i < self.rooms@.len()
        &&& self.rooms@[i].id == id
        &&& forall|j: int| 0 <= j < i ==> (#[trigger] self.rooms@[j]).id != id
    }

    /// Where the player starts: the middle of the first room whose id is
    /// `START_ROOM_ID`, else of the first room, else the default start.
    pub open spec fn start_position(self) -> Vec2 {
        if exists|i: int| self.first_with_id(START_ROOM_ID, i) {
            let i = choose|i: int| self.first_with_id(START_ROOM_ID, i);
            self.rooms@[i].middle()
        } else if self.rooms@.len() > 0 {
            self.rooms@[0].middle()
        } else {
            Vec2 { x: DEFAULT_START_X, y: DEFAULT_START_Y }
        }
    }

    /// Where the player starts.
    pub fn player_start_position(&self) -> (p: Vec2)
        ensures
            p == self.start_position(),
    {
        let mut i: usize = 0;
        while i < self.rooms.len()
            invariant
                i <= self.rooms@.len(),
                forall|j: int| 0 <= j < i ==> (#[trigger] self.rooms@[j]).id != START_ROOM_ID,
            decreases self.rooms@.len() - i,
        {
            if self.rooms[i].id == START_ROOM_ID {
                proof {
                    assert(self.first_with_id(START_ROOM_ID, i as int));
                    let k = choose|k: int| self.first_with_id(START_ROOM_ID, k);
                    assert(k == i);
                }
                return self.rooms[i].center();
            }
            i += 1;
        }
        if self.rooms.len() > 0 {
            self.rooms[0].center()
        } else {
            Vec2 { x: DEFAULT_START_X, y: DEFAULT_START_Y }
        }
    }

    /// Whether `i` is the first room that covers `pos`.
    pub open spec fn first_room_at(self, pos: Vec2, i: int) -> bool {
        &&& 0 <= i < self.rooms@.len()
        &&& self.rooms@[i].covers(pos)
        &&& forall|j: int| 0 <= j < i ==> !(#[trigger] self.rooms@[j]).covers(pos)
    }

    /// Whether no room covers `pos`.
    pub open spec fn no_room_at(self, pos: Vec2) -> bool {
        forall|j: int| 0 <= j < self.rooms@.len() ==> !(#[trigger] self.rooms@[j]).covers(pos)
    }

    /// Index of the first room in which `pos` lies.
    pub fn room_index_at(&self, pos: Vec2) -> (found: Option<usize>)
        ensures
            match found {
                Some(i) => self.first_room_at(pos, i as int),
                None => self.no_room_at(pos),
            },
    {
        let mut i: usize = 0;
        while i < self.rooms.len()
            invariant
                i <= self.rooms@.len(),
                forall|j: int| 0 <= j < i ==> !(#[trigger] self.rooms@[j]).covers(pos),
            decreases self.rooms@.len() - i,
        {
            if self.rooms[i].contains(pos) {
                return Some(i);
            }
            i += 1;
        }
        None
    }

    /// The first room in which `pos` lies.
    pub fn room_at(&self, pos: Vec2) -> (found: Option<&Room>)
        ensures
            match found {
                Some(room) => exists|i: int|
                    self.first_room_at(pos, i) && *room == #[trigger] self.rooms@[i],
                None => self.no_room_at(pos),
            },
    {
        match self.room_index_at(pos) {
            Some(i) => Some(&self.rooms[i]),
            None => None,
        }
    }

    /// Whether `pos` can be walked on: whether the first room in which it
    /// lies is not an empty room.
    pub fn is_walkable(&self, pos: Vec2) -> (b: bool)
        ensures
            b == exists|i: int|
                self.first_room_at(pos, i) && (#[trigger] self.rooms@[i]).room_type
                    != RoomType::Empty,
    {
        match self.room_index_at(pos) {
            Some(i) => {
                let walkable = self.rooms[i].room_type != RoomType::Empty;
                proof {
                    if !walkable {
                        assert forall|k: int|
                            self.first_room_at(pos, k) implies (#[trigger] self.rooms@[k]).room_type
                            == RoomType::Empty by {
                            assert(k == i);
                        }
                    }
                }
                walkable
            },
            None => false,
        }
    }

    /// The first room in which `pos` lies, if it is a module room.
    pub fn module_room_at(&self, pos: Vec2) -> (found: Option<&Room>)
        ensures
            match found {
                Some(room) => exists|i: int|
                    self.first_room_at(pos, i) && *room == #[trigger] self.rooms@[i]
                        && room.room_type is Module,
                None => forall|i: int|
                    self.first_room_at(pos, i) ==> !((#[trigger] self.rooms@[i]).room_type
                        is Module),
            },
    {
        match self.room_index_at(pos) {
            Some(i) => {
                let room = &self.rooms[i];
                match room.room_type {
                    RoomType::Module(_) => Some(room),
                    _ => {
                        proof {
                            assert forall|k: int| self.first_room_at(pos, k) implies !((
                            #[trigger] self.rooms@[k]).room_type is Module) by {
                                assert(k == i);
                            }
                        }
                        None
                    },
                }
            },
            None => None,
        }
    }

    /// The ledger of this interior's rooms.
    pub fn power(&self) -> (ledger: PowerLedger)
        ensures
            ledger.total_power == cap_i32(generated(self.rooms@)),
            ledger.used_power == cap_i32(consumed(self.rooms@)),
    {
        compute_power(&self.rooms)
    }
}

/// Recomputing the ledger of the same rooms gives the same ledger: it
/// depends on nothing but the rooms' kinds and repair points.
pub proof fn lemma_power_is_pure(a: Seq<Room>, b: Seq<Room>)
    requires
        a.len() == b.len(),
        forall|i: int|
            0 <= i < a.len() ==> (#[trigger] a[i]).room_type == b[i].room_type && a[i].repaired()
                == b[i].repaired(),
    ensures
        generated(a) == generated(b),
        consumed(a) == consumed(b),
    decreases a.len(),
{
    if a.len() > 0 {
        assert forall|i: int| 0 <= i < a.drop_last().len() implies (#[trigger] a.drop_last()[i]).room_type
            == b.drop_last()[i].room_type && a.drop_last()[i].repaired() == b.drop_last()[i].repaired() by {
            assert(a[i].room_type == b[i].room_type);
        }
        lemma_power_is_pure(a.drop_last(), b.drop_last());
        assert(a.last().room_type == b.last().room_type);
    }
}

} // verus!
