//! The tutorial: a list of steps from a configuration, and how far the
//! player has come.

use vstd::prelude::*;

verus! {

/// One step of the tutorial.
#[derive(Debug, Clone)]
pub struct TutorialStepConfig {
    pub id: String,
    pub message: String,
    pub target_room: Option<usize>,
    pub show_highlight: bool,
}

/// The steps of the tutorial, in order.
#[derive(Debug, Clone)]
pub struct TutorialConfig {
    pub steps: Vec<TutorialStepConfig>,
}

/// How far the player has come in the tutorial.
#[derive(Debug, Clone, Copy, PartialEq, Eq, Structural)]
pub struct TutorialState {
    pub current_index: usize,
    pub completed: bool,
}

impl TutorialState {
    /// The tutorial at its first step.
    pub fn new() -> (s: Self)
        ensures
            s == (TutorialState { current_index: 0, completed: false }),
    {
        TutorialState { current_index: 0, completed: false }
    }

    /// Index of the step the player is at; `None` once the tutorial is
    /// completed or if the configuration has no such step.
    pub open spec fn step_index(self, config: TutorialConfig) -> Option<int> {
        if !self.completed && self.current_index < config.steps@.len() {
            Some(self.current_index as int)
        } else {
            None
        }
    }

    /// The step the player is at.
    pub fn current_step<'a>(&self, config: &'a TutorialConfig) -> (step: Option<
        &'a TutorialStepConfig,
    >)
        ensures
            match step {
                Some(s) => self.step_index(*config) == Some(self.current_index as int) && *s
                    == config.steps@[self.current_index as int],
                None => self.step_index(*config).is_none(),
            },
    {
        if self.completed || self.current_index >= config.steps.len() {
            None
        } else {
            Some(&config.steps[self.current_index])
        }
    }

    /// Whether the player is at the first step, the welcome.
    pub fn is_welcome(&self) -> (b: bool)
        ensures
            b == (self.current_index == 0 && !self.completed),
    {
        self.current_index == 0 && !self.completed
    }

    /// Whether the tutorial is completed.
    pub fn is_complete(&self) -> (b: bool)
        ensures
            b == self.completed,
    {
        self.completed
    }

    /// The room the current step sends the player to.
    pub open spec fn target(self, config: TutorialConfig) -> Option<usize> {
        match self.step_index(config) {
            Some(i) => config.steps@[i].target_room,
            None => None,
        }
    }

    /// The room the current step sends the player to, if it sends them to
    /// one.
    pub fn target_room(&self, config: &TutorialConfig) -> (room: Option<usize>)
        ensures
            room == self.target(*config),
    {
        match self.current_step(config) {
            Some(step) => step.target_room,
            None => None,
        }
    }

    /// The state after the current step is done: at the next step, or
    /// completed if there is none.
    pub open spec fn advanced(self, config: TutorialConfig) -> TutorialState {
        if self.current_index + 1 < config.steps@.len() {
            TutorialState { current_index: (self.current_index + 1) as usize, ..self }
        } else {
            TutorialState { completed: true, ..self }
        }
    }

    /// Moves on to the next step, or completes the tutorial after the last.
    pub fn advance(&mut self, config: &TutorialConfig)
        ensures
            *final(self) == old(self).advanced(*config),
    {
        if self.current_index < config.steps.len() && self.current_index + 1 < config.steps.len() {
            self.current_index += 1;
        } else {
            self.completed = true;
        }
    }

    /// Whether the current step highlights the room `room_id`.
    pub fn should_highlight(&self, config: &TutorialConfig, room_id: usize) -> (b: bool)
        ensures
            b == match self.step_index(*config) {
                Some(i) => config.steps@[i].show_highlight && config.steps@[i].target_room == Some(
                    room_id,
                ),
                None => false,
            },
    {
        match self.current_step(config) {
            Some(step) => step.show_highlight && match step.target_room {
                Some(target) => target == room_id,
                None => false,
            },
            None => false,
        }
    }
}

/// The steps of the built-in tutorial.
#[derive(Debug, Clone, Copy, PartialEq, Eq, Structural)]
pub enum TutorialStep {
    Welcome,
    RepairReactor,
    RepairShields,
    RepairWeapon,
    RepairEngine,
    Complete,
}

impl TutorialStep {
    /// The built-in step at a tutorial state: by index for the first five,
    /// `Complete` past them or once the tutorial is completed.
    pub open spec fn at(state: TutorialState) -> TutorialStep {
        if state.completed {
            TutorialStep::Complete
        } else if state.current_index == 0 {
            TutorialStep::Welcome
        } else if state.current_index == 1 {
            TutorialStep::RepairReactor
        } else if state.current_index == 2 {
            TutorialStep::RepairShields
        } else if state.current_index == 3 {
            TutorialStep::RepairWeapon
        } else if state.current_index == 4 {
            TutorialStep::RepairEngine
        } else {
            TutorialStep::Complete
        }
    }

    /// The built-in step at a tutorial state.
    pub fn from_state(state: &TutorialState) -> (step: Self)
        ensures
            step == TutorialStep::at(*state),
    {
        if state.completed {
            TutorialStep::Complete
        } else {
            match state.current_index {
                0 => TutorialStep::Welcome,
                1 => TutorialStep::RepairReactor,
                2 => TutorialStep::RepairShields,
                3 => TutorialStep::RepairWeapon,
                4 => TutorialStep::RepairEngine,
                _ => TutorialStep::Complete,
            }
        }
    }

    /// Id of the room the step sends the player to.
    pub open spec fn room(self) -> Option<usize> {
        match self {
            TutorialStep::RepairReactor => Some(12usize),
            TutorialStep::RepairShields => Some(5usize),
            TutorialStep::RepairWeapon => Some(1usize),
            TutorialStep::RepairEngine => Some(20usize),
            _ => None,
        }
    }

    /// Id of the room the step sends the player to.
    pub fn target_room(&self) -> (room: Option<usize>)
        ensures
            room == self.room(),
    {
        match self {
            TutorialStep::RepairReactor => Some(12),
            TutorialStep::RepairShields => Some(5),
            TutorialStep::RepairWeapon => Some(1),
            TutorialStep::RepairEngine => Some(20),
            _ => None,
        }
    }

    /// The step that follows; `Complete` follows itself.
    pub open spec fn following(self) -> TutorialStep {
        match self {
            TutorialStep::Welcome => TutorialStep::RepairReactor,
            TutorialStep::RepairReactor => TutorialStep::RepairShields,
            TutorialStep::RepairShields => TutorialStep::RepairWeapon,
            TutorialStep::RepairWeapon => TutorialStep::RepairEngine,
            TutorialStep::RepairEngine => TutorialStep::Complete,
            TutorialStep::Complete => TutorialStep::Complete,
        }
    }

    /// The step that follows.
    pub fn next(&self) -> (step: TutorialStep)
        ensures
            step == self.following(),
    {
        match self {
            TutorialStep::Welcome => TutorialStep::RepairReactor,
            TutorialStep::RepairReactor => TutorialStep::RepairShields,
            TutorialStep::RepairShields => TutorialStep::RepairWeapon,
            TutorialStep::RepairWeapon => TutorialStep::RepairEngine,
            TutorialStep::RepairEngine => TutorialStep::Complete,
            TutorialStep::Complete => TutorialStep::Complete,
        }
    }

    /// What the step tells the player.
    pub open spec fn text(self) -> Seq<char> {
        match self {
            TutorialStep::Welcome => "Welcome aboard! Your ship is damaged.\nUse WASD to move. Press E near orange repair points."@,
            TutorialStep::RepairReactor => "First, repair the REACTOR to restore power.\nFollow the highlighted path to the central room."@,
            TutorialStep::RepairShields => "Good! Now repair the SHIELDS for defense.\nHead to the shield room above."@,
            TutorialStep::RepairWeapon => "Shields online! Repair a WEAPON to fight back.\nGo to the left weapon bay."@,
            TutorialStep::RepairEngine => "Weapons ready! Finally, repair the ENGINE.\nHead to the engine room below."@,
            TutorialStep::Complete => "All systems operational! Enemies will now attack.\nPress Tab to view exterior. Good luck!"@,
        }
    }

    /// What the step tells the player.
    pub fn message(&self) -> (s: &'static str)
        ensures
            s@ == self.text(),
    {
        match self {
            TutorialStep::Welcome => "Welcome aboard! Your ship is damaged.\nUse WASD to move. Press E near orange repair points.",
            TutorialStep::RepairReactor => "First, repair the REACTOR to restore power.\nFollow the highlighted path to the central room.",
            TutorialStep::RepairShields => "Good! Now repair the SHIELDS for defense.\nHead to the shield room above.",
            TutorialStep::RepairWeapon => "Shields online! Repair a WEAPON to fight back.\nGo to the left weapon bay.",
            TutorialStep::RepairEngine => "Weapons ready! Finally, repair the ENGINE.\nHead to the engine room below.",
            TutorialStep::Complete => "All systems operational! Enemies will now attack.\nPress Tab to view exterior. Good luck!",
        }
    }
}

} // verus!
