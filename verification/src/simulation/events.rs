//! The frame-scoped queues through which the simulation reports what
//! happened and the interface asks for what it wants.

use vstd::prelude::*;

verus! {

/// Something that happened in the simulation. Screen coordinates are in
/// thousandths of a pixel, grid coordinates in cells.
#[derive(Debug, Clone, Copy, PartialEq, Eq, Structural)]
pub enum GameEvent {
    WeaponFired { x: i32, y: i32 },
    EnemyKilled { x: i32, y: i32, scrap_dropped: i32 },
    ModuleDamaged { x: usize, y: usize, damage: i64 },
    ModuleDestroyed { x: usize, y: usize },
    ModuleRepaired { x: usize, y: usize, cost: i32 },
    ModuleUpgraded { x: usize, y: usize, new_level: u8 },
    CoreDestroyed,
    EngineActivated,
    EscapeSuccess,
}

/// Something the player asked for.
#[derive(Debug, Clone)]
pub enum UIEvent {
    StartGame,
    ReturnToMenu,
    Pause,
    Resume,
    Repair(usize, usize),
    Upgrade(usize, usize),
    Toggle(usize, usize),
    PurchaseUpgrade(String),
    NextRound,
    SaveGame(usize),
    LoadGame(usize),
    ExitGame,
}

/// Two append-only queues, each emptied once per frame by its reader.
pub struct EventBus {
    pub game: Vec<GameEvent>,
    pub ui: Vec<UIEvent>,
}

impl EventBus {
    /// Two empty queues.
    pub fn new() -> (bus: Self)
        ensures
            bus.game@.len() == 0,
            bus.ui@.len() == 0,
    {
        EventBus { game: Vec::new(), ui: Vec::new() }
    }

    /// Appends a game event.
    pub fn push_game(&mut self, event: GameEvent)
        ensures
            final(self).game@ == old(self).game@.push(event),
            final(self).ui@ == old(self).ui@,
    {
        self.game.push(event);
    }

    /// Appends an interface event.
    pub fn push_ui(&mut self, event: UIEvent)
        ensures
            final(self).ui@ == old(self).ui@.push(event),
            final(self).game@ == old(self).game@,
    {
        self.ui.push(event);
    }

    /// Hands out the queued game events, oldest first, and empties the queue.
    pub fn drain_game(&mut self) -> (events: Vec<GameEvent>)
        ensures
            events@ == old(self).game@,
            final(self).game@.len() == 0,
            final(self).ui@ == old(self).ui@,
    {
        let mut out: Vec<GameEvent> = Vec::new();
        std::mem::swap(&mut self.game, &mut out);
        out
    }

    /// Hands out the queued interface events, oldest first, and empties the
    /// queue.
    pub fn drain_ui(&mut self) -> (events: Vec<UIEvent>)
        ensures
            events@ == old(self).ui@,
            final(self).ui@.len() == 0,
            final(self).game@ == old(self).game@,
    {
        let mut out: Vec<UIEvent> = Vec::new();
        std::mem::swap(&mut self.ui, &mut out);
        out
    }
}

} // verus!
