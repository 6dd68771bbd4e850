//! The state of a run.

use vstd::prelude::*;
use crate::data::settings::Settings;
use crate::economy::resources::Resources;
use crate::economy::upgrades::{GameUpgrades, UpgradeTemplate};
use crate::enemy::ai::random_below;
use crate::enemy::entities::{Enemy, Projectile, ScrapPile};
use crate::enemy::wave::WaveState;
use crate::ship::interior::{Room, RoomType, ShipInterior};
use crate::ship::layout::Layout;
use crate::ship::player::Player;
use crate::ship::ship::Ship;
use crate::simulation::constants::{
    ENGINE_CHARGE_BASE_TIME, GRID_HEIGHT, GRID_WIDTH, MAX_SCRAP_PILES, MIN_SCRAP_PILES,
    NANITE_ALERT_BASE, SCRAP_PILE_MAX_AMOUNT, SCRAP_PILE_MIN_AMOUNT, SCRAP_SPAWN_PADDING,
    SHIP_BASE_INTEGRITY,
};
use crate::simulation::gameplay::ModuleRegistry;
use crate::state::tutorial::{TutorialConfig, TutorialState};
use crate::units::{clamp_i32, clamp_to_i32, Vec2};

verus! {

/// Where the game stands.
#[derive(Debug, Clone, Copy, PartialEq, Eq, Structural)]
pub enum GamePhase {
    Menu,
    Playing,
    GameOver,
    Victory,
    InterRound,
}

/// What the engine does.
#[derive(Debug, Clone, Copy, PartialEq, Eq, Structural)]
pub enum EngineState {
    Idle,
    Charging,
    /// The ship got away: the run is won.
    Escaped,
}

/// Which side of the ship is shown.
#[derive(Debug, Clone, Copy, PartialEq, Eq, Structural)]
pub enum ViewMode {
    Exterior,
    Interior,
}

/// Power the hull display takes as full.
pub const REQUIRED_POWER: i32 = 100;

/// Everything a run consists of.
#[derive(Debug, Clone)]
pub struct GameState {
    pub ship: Ship,
    pub interior: ShipInterior,
    pub resources: Resources,
    pub phase: GamePhase,
    pub module_registry: ModuleRegistry,
    /// The screen on which the module grid sits.
    pub layout: Layout,
    pub view_mode: ViewMode,
    pub player: Player,
    pub total_power: i32,
    pub used_power: i32,
    pub required_power: i32,
    pub ship_integrity: i64,
    pub ship_max_integrity: i64,
    pub tutorial_config: TutorialConfig,
    pub tutorial_state: TutorialState,
    pub tutorial_timer: u64,
    pub paused: bool,
    pub engine_state: EngineState,
    pub escape_timer: u64,
    pub scrap_piles: Vec<ScrapPile>,
    pub gathering_target: Option<usize>,
    pub gathering_timer: u64,
    pub upgrades: GameUpgrades,
    pub upgrade_templates: Vec<UpgradeTemplate>,
    pub enemies: Vec<Enemy>,
    pub projectiles: Vec<Projectile>,
    pub frame_count: u64,
    pub time_survived: u64,
    pub wave_state: WaveState,
    pub repair_timer: u64,
    pub pause_menu_selection: usize,
    pub settings_open: bool,
    pub settings_selection: usize,
    pub settings: Settings,
    pub engine_stress: u64,
    pub nanite_alert: u64,
}

/// The place in `room` at `(fx, fy)` from its padded corner, each
/// coordinate kept within `i32`.
pub open spec fn scrap_spot(room: Room, fx: int, fy: int) -> Vec2 {
    Vec2 {
        x: clamp_i32(room.x + SCRAP_SPAWN_PADDING + fx) as i32,
        y: clamp_i32(room.y + SCRAP_SPAWN_PADDING + fy) as i32,
    }
}

/// Room left in `extent` between the paddings; at least one place.
pub open spec fn padded_extent(extent: i32) -> int {
    if extent - 2 * SCRAP_SPAWN_PADDING > 1 {
        extent - 2 * SCRAP_SPAWN_PADDING
    } else {
        1
    }
}

/// Whether `pile` is a scrap pile as one spawns in `room`: active, of an
/// amount between the least and the most, and within the room's padding.
pub open spec fn is_pile_of(pile: ScrapPile, room: Room) -> bool {
    &&& pile.active
    &&& SCRAP_PILE_MIN_AMOUNT <= pile.amount <= SCRAP_PILE_MAX_AMOUNT
    &&& exists|fx: int, fy: int|
        0 <= fx < padded_extent(room.width) && 0 <= fy < padded_extent(room.height)
            && pile.position == #[trigger] scrap_spot(room, fx, fy)
}

/// Whether `pile` is a scrap pile as one spawns in some room of `rooms`
/// that is not empty.
pub open spec fn is_spawned_pile(pile: ScrapPile, rooms: Seq<Room>) -> bool {
    exists|r: int|
        0 <= r < rooms.len() && (#[trigger] rooms[r]).room_type != RoomType::Empty && is_pile_of(
            pile,
            rooms[r],
        )
}

/// One draw of a scattering of scrap: the room it falls on, a place from
/// that room's padded corner, and an amount.
pub struct ScrapDraw {
    pub room: int,
    pub fx: int,
    pub fy: int,
    pub amount: int,
}

/// Whether `draw` can be drawn for `rooms`: it falls on one of the rooms,
/// on a place between that room's paddings, with an amount between the
/// least and the most.
pub open spec fn is_scrap_draw(draw: ScrapDraw, rooms: Seq<Room>) -> bool {
    &&& 0 <= draw.room < rooms.len()
    &&& 0 <= draw.fx < padded_extent(rooms[draw.room].width)
    &&& 0 <= draw.fy < padded_extent(rooms[draw.room].height)
    &&& SCRAP_PILE_MIN_AMOUNT <= draw.amount <= SCRAP_PILE_MAX_AMOUNT
}

/// The pile that `draw` leaves in its room.
pub open spec fn pile_of_draw(draw: ScrapDraw, rooms: Seq<Room>) -> ScrapPile {
    ScrapPile {
        position: scrap_spot(rooms[draw.room], draw.fx, draw.fy),
        amount: draw.amount as i32,
        active: true,
    }
}

/// The piles after `draws`, one after the other, on top of `piles`: a draw
/// that falls on a room that is not empty adds its pile at the end, a draw
/// that falls on an empty room adds nothing.
pub open spec fn scattered(piles: Seq<ScrapPile>, rooms: Seq<Room>, draws: Seq<ScrapDraw>) -> Seq<
    ScrapPile,
>
    decreases draws.len(),
{
    if draws.len() == 0 {
        piles
    } else {
        let earlier = scattered(piles, rooms, draws.drop_last());
        let draw = draws.last();
        if rooms[draw.room].room_type != RoomType::Empty {
            earlier.push(pile_of_draw(draw, rooms))
        } else {
            earlier
        }
    }
}

/// Whether every draw of `draws` can be drawn for `rooms`.
pub open spec fn are_scrap_draws(draws: Seq<ScrapDraw>, rooms: Seq<Room>) -> bool {
    forall|i: int| 0 <= i < draws.len() ==> is_scrap_draw(#[trigger] draws[i], rooms)
}

/// Whether `after` is what a scattering of scrap over `rooms` makes of
/// `before`: without rooms nothing; else the piles after some
/// `MIN_SCRAP_PILES` to `MAX_SCRAP_PILES` draws.
pub open spec fn is_scattering(before: Seq<ScrapPile>, after: Seq<ScrapPile>, rooms: Seq<Room>) -> bool {
    if rooms.len() == 0 {
        after == before
    } else {
        exists|draws: Seq<ScrapDraw>|
            MIN_SCRAP_PILES <= draws.len() <= MAX_SCRAP_PILES && are_scrap_draws(draws, rooms)
                && after == #[trigger] scattered(before, rooms, draws)
    }
}

/// Whether no room of `rooms` is empty.
pub open spec fn all_rooms_hold_scrap(rooms: Seq<Room>) -> bool {
    forall|r: int| 0 <= r < rooms.len() ==> (#[trigger] rooms[r]).room_type != RoomType::Empty
}

/// Draws that can be drawn keep the piles that were there and add at most
/// one pile each, every one of them as it spawns in a room that is not
/// empty; where no room is empty, each draw adds its pile.
pub proof fn lemma_scattered(piles: Seq<ScrapPile>, rooms: Seq<Room>, draws: Seq<ScrapDraw>)
    requires
        are_scrap_draws(draws, rooms),
    ensures
        piles.len() <= scattered(piles, rooms, draws).len() <= piles.len() + draws.len(),
        forall|k: int| 0 <= k < piles.len() ==> #[trigger] scattered(piles, rooms, draws)[k] == piles[k],
        forall|k: int|
            piles.len() <= k < scattered(piles, rooms, draws).len() ==> is_spawned_pile(
                #[trigger] scattered(piles, rooms, draws)[k],
                rooms,
            ),
        all_rooms_hold_scrap(rooms) ==> scattered(piles, rooms, draws).len() == piles.len()
            + draws.len(),
    decreases draws.len(),
{
    if draws.len() > 0 {
        let init = draws.drop_last();
        let draw = draws.last();
        assert forall|i: int| 0 <= i < init.len() implies is_scrap_draw(#[trigger] init[i], rooms) by {
            assert(is_scrap_draw(draws[i], rooms));
        }
        lemma_scattered(piles, rooms, init);
        assert(is_scrap_draw(draw, rooms));
        let room = rooms[draw.room];
        if room.room_type != RoomType::Empty {
            let pile = pile_of_draw(draw, rooms);
            assert(pile.position == scrap_spot(room, draw.fx, draw.fy));
            assert(is_pile_of(pile, room));
            assert(is_spawned_pile(pile, rooms));
        }
    }
}

/// A scattering of scrap keeps the piles that were there and adds at most
/// `MAX_SCRAP_PILES`, every one of them as it spawns in a room that is
/// not empty. Over rooms of which none is empty it adds at least
/// `MIN_SCRAP_PILES`.
pub proof fn lemma_scattering(before: Seq<ScrapPile>, after: Seq<ScrapPile>, rooms: Seq<Room>)
    requires
        is_scattering(before, after, rooms),
    ensures
        before.len() <= after.len() <= before.len() + MAX_SCRAP_PILES,
        forall|k: int| 0 <= k < before.len() ==> #[trigger] after[k] == before[k],
        forall|k: int| before.len() <= k < after.len() ==> is_spawned_pile(#[trigger] after[k], rooms),
        rooms.len() > 0 && all_rooms_hold_scrap(rooms) ==> before.len() + MIN_SCRAP_PILES
            <= after.len(),
{
    if rooms.len() > 0 {
        let draws = choose|draws: Seq<ScrapDraw>|
            MIN_SCRAP_PILES <= draws.len() <= MAX_SCRAP_PILES && are_scrap_draws(draws, rooms)
                && after == #[trigger] scattered(before, rooms, draws);
        lemma_scattered(before, rooms, draws);
    }
}

/// A scrap pile of `amount` in `room`, at `(fx, fy)` from its padded
/// corner.
pub fn scrap_pile_at(room: &Room, fx: i32, fy: i32, amount: i32) -> (pile: ScrapPile)
    ensures
        pile.position == scrap_spot(*room, fx as int, fy as int),
        pile.amount == amount,
        pile.active,
{
    ScrapPile::new(
        Vec2 {
            x: clamp_to_i32(room.x as i128 + SCRAP_SPAWN_PADDING as i128 + fx as i128),
            y: clamp_to_i32(room.y as i128 + SCRAP_SPAWN_PADDING as i128 + fy as i128),
        },
        amount,
    )
}

/// Room left in `extent` between the paddings.
fn padded(extent: i32) -> (r: i32)
    ensures
        r == padded_extent(extent),
        r >= 1,
{
    let inner: i64 = extent as i64 - 2 * (SCRAP_SPAWN_PADDING as i64);
    if inner > 1 {
        inner as i32
    } else {
        1
    }
}

impl GameState {
    /// Whether this is the state in which a run starts, for the given
    /// interior: a new ship, starting resources, the player at the
    /// interior's start, full integrity, an idle engine with the full
    /// escape time ahead, no enemies, no projectiles, fresh timers and
    /// counters, the tutorial at its welcome, and scrap scattered over the
    /// interior where none lay.
    pub open spec fn is_fresh(self, interior: ShipInterior) -> bool {
        &&& self.ship.is_rect(GRID_WIDTH as nat, GRID_HEIGHT as nat)
        &&& forall|x: int, y: int|
            0 <= x < GRID_WIDTH && 0 <= y < GRID_HEIGHT ==> #[trigger] self.ship.cell(x, y)
                == crate::ship::ship::starting_cell(GRID_WIDTH as int, GRID_HEIGHT as int, x, y)
        &&& self.interior == interior
        &&& self.resources == Resources {
            scrap: crate::economy::resources::STARTING_SCRAP,
            max_scrap: crate::economy::resources::STARTING_MAX_SCRAP,
            power: 0,
            credits: 0,
        }
        &&& self.view_mode == ViewMode::Interior
        &&& self.player == Player::standing_at(interior.start_position())
        &&& self.total_power == 0
        &&& self.used_power == 0
        &&& self.ship_integrity == SHIP_BASE_INTEGRITY
        &&& self.ship_max_integrity == SHIP_BASE_INTEGRITY
        &&& self.tutorial_state == TutorialState { current_index: 0, completed: false }
        &&& self.tutorial_timer == 0
        &&& !self.paused
        &&& self.engine_state == EngineState::Idle
        &&& self.escape_timer == ENGINE_CHARGE_BASE_TIME
        &&& self.gathering_target.is_none()
        &&& self.gathering_timer == 0
        &&& self.enemies@.len() == 0
        &&& self.projectiles@.len() == 0
        &&& self.frame_count == 0
        &&& self.time_survived == 0
        &&& self.wave_state == WaveState { spawn_timer: 0, guard_timer: 0, next_enemy_id: 0 }
        &&& self.repair_timer == 0
        &&& self.pause_menu_selection == 0
        &&& self.engine_stress == 0
        &&& self.nanite_alert == NANITE_ALERT_BASE
        &&& is_scattering(Seq::empty(), self.scrap_piles@, interior.rooms@)
    }

    /// The state before the first run: at the menu, with a fresh run laid
    /// out behind it and scrap piles spawned at random in the interior.
    pub fn new(
        interior: ShipInterior,
        module_registry: ModuleRegistry,
        layout: Layout,
        tutorial_config: TutorialConfig,
        upgrade_templates: Vec<UpgradeTemplate>,
        settings: Settings,
    ) -> (state: Self)
        ensures
            state.is_fresh(interior),
            state.phase == GamePhase::Menu,
            state.module_registry == module_registry,
            state.layout == layout,
            state.tutorial_config == tutorial_config,
            state.upgrade_templates == upgrade_templates,
            state.settings == settings,
            state.required_power == REQUIRED_POWER,
            state.upgrades.levels@.len() == 0,
            !state.settings_open,
            state.settings_selection == 0,
    {
        let player = Player::new_at(interior.player_start_position());
        let mut state = GameState {
            ship: Ship::new(GRID_WIDTH, GRID_HEIGHT),
            interior,
            resources: Resources::new(),
            phase: GamePhase::Menu,
            module_registry,
            layout,
            view_mode: ViewMode::Interior,
            player,
            total_power: 0,
            used_power: 0,
            required_power: REQUIRED_POWER,
            ship_integrity: SHIP_BASE_INTEGRITY,
            ship_max_integrity: SHIP_BASE_INTEGRITY,
            tutorial_config,
            tutorial_state: TutorialState::new(),
            tutorial_timer: 0,
            paused: false,
            engine_state: EngineState::Idle,
            escape_timer: ENGINE_CHARGE_BASE_TIME,
            scrap_piles: Vec::new(),
            gathering_target: None,
            gathering_timer: 0,
            upgrades: GameUpgrades::new(),
            upgrade_templates,
            enemies: Vec::new(),
            projectiles: Vec::new(),
            frame_count: 0,
            time_survived: 0,
            wave_state: WaveState::new(),
            repair_timer: 0,
            pause_menu_selection: 0,
            settings_open: false,
            settings_selection: 0,
            settings,
            engine_stress: 0,
            nanite_alert: NANITE_ALERT_BASE,
        };
        state.spawn_scrap_piles();
        state
    }

    /// Starts a run in the given interior: everything of the run is reset,
    /// the phase is `Playing`, and scrap piles spawn at random. Upgrades,
    /// settings and what else outlasts a run stay.
    pub fn start_new_game(&mut self, interior: ShipInterior)
        ensures
            final(self).is_fresh(interior),
            final(self).phase == GamePhase::Playing,
            final(self).module_registry == old(self).module_registry,
            final(self).layout == old(self).layout,
            final(self).tutorial_config == old(self).tutorial_config,
            final(self).upgrade_templates == old(self).upgrade_templates,
            final(self).upgrades == old(self).upgrades,
            final(self).settings == old(self).settings,
            final(self).settings_open == old(self).settings_open,
            final(self).settings_selection == old(self).settings_selection,
            final(self).required_power == old(self).required_power,
    {
        self.ship = Ship::new(GRID_WIDTH, GRID_HEIGHT);
        self.player = Player::new_at(interior.player_start_position());
        self.interior = interior;
        self.resources = Resources::new();
        self.enemies = Vec::new();
        self.projectiles = Vec::new();
        self.frame_count = 0;
        self.time_survived = 0;
        self.paused = false;
        self.engine_state = EngineState::Idle;
        self.escape_timer = ENGINE_CHARGE_BASE_TIME;
        self.view_mode = ViewMode::Interior;
        self.engine_stress = 0;
        self.nanite_alert = NANITE_ALERT_BASE;
        self.total_power = 0;
        self.used_power = 0;
        self.ship_integrity = SHIP_BASE_INTEGRITY;
        self.ship_max_integrity = SHIP_BASE_INTEGRITY;
        self.tutorial_state = TutorialState::new();
        self.tutorial_timer = 0;
        self.phase = GamePhase::Playing;
        self.scrap_piles = Vec::new();
        self.gathering_target = None;
        self.gathering_timer = 0;
        self.wave_state = WaveState::new();
        self.repair_timer = 0;
        self.pause_menu_selection = 0;
        self.spawn_scrap_piles();
    }

    /// Scatters scrap over the interior: draws between `MIN_SCRAP_PILES`
    /// and `MAX_SCRAP_PILES` times a room at random and, where the room is
    /// not empty, leaves a pile of a random amount at a random place
    /// between its paddings. A draw that falls on an empty room leaves
    /// nothing, and so does every draw in an interior without rooms.
    pub fn spawn_scrap_piles(&mut self)
        ensures
            is_scattering(old(self).scrap_piles@, final(self).scrap_piles@, old(self).interior.rooms@),
            *final(self) == (GameState { scrap_piles: final(self).scrap_piles, ..*old(self) }),
    {
        let count: usize = MIN_SCRAP_PILES + random_below(
            (MAX_SCRAP_PILES + 1 - MIN_SCRAP_PILES) as i32,
        ) as usize;
        let ghost before = self.scrap_piles@;
        let ghost rooms = self.interior.rooms@;
        let ghost mut draws: Seq<ScrapDraw> = Seq::empty();
        let mut n: usize = 0;
        while n < count
            invariant
                n <= count,
                MIN_SCRAP_PILES <= count <= MAX_SCRAP_PILES,
                rooms == old(self).interior.rooms@,
                before == old(self).scrap_piles@,
                rooms.len() == 0 ==> self.scrap_piles@ == before,
                rooms.len() > 0 ==> draws.len() == n && are_scrap_draws(draws, rooms)
                    && self.scrap_piles@ == scattered(before, rooms, draws),
                *self == (GameState { scrap_piles: self.scrap_piles, ..*old(self) }),
            decreases count - n,
        {
            let len = self.interior.rooms.len();
            if len > 0 {
                let bound: i32 = if len > i32::MAX as usize {
                    i32::MAX
                } else {
                    len as i32
                };
                let r = random_below(bound) as usize;
                let room = &self.interior.rooms[r];
                if room.room_type != RoomType::Empty {
                    let fx = random_below(padded(room.width));
                    let fy = random_below(padded(room.height));
                    let amount = SCRAP_PILE_MIN_AMOUNT + random_below(
                        SCRAP_PILE_MAX_AMOUNT + 1 - SCRAP_PILE_MIN_AMOUNT,
                    );
                    let pile = scrap_pile_at(room, fx, fy, amount);
                    let ghost draw = ScrapDraw {
                        room: r as int,
                        fx: fx as int,
                        fy: fy as int,
                        amount: amount as int,
                    };
                    proof {
                        assert(pile == pile_of_draw(draw, rooms));
                        assert(draws.push(draw).drop_last() =~= draws);
                        draws = draws.push(draw);
                    }
                    self.scrap_piles.push(pile);
                } else {
                    let ghost draw = ScrapDraw {
                        room: r as int,
                        fx: 0,
                        fy: 0,
                        amount: SCRAP_PILE_MIN_AMOUNT as int,
                    };
                    proof {
                        assert(draws.push(draw).drop_last() =~= draws);
                        draws = draws.push(draw);
                    }
                }
            }
            n += 1;
        }
        proof {
            if rooms.len() > 0 {
                assert(self.scrap_piles@ == scattered(before, rooms, draws));
            }
        }
    }
}

} // verus!
