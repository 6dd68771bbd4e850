//! What an interface event does to a run.

use vstd::prelude::*;
use crate::simulation::events::{EventBus, GameEvent, UIEvent};
use crate::state::game_state::{GamePhase, GameState};

verus! {

/// What handling an interface event leaves for the program around the
/// library to do.
#[derive(Debug, Clone, Copy, PartialEq, Eq, Structural)]
pub enum UiRequest {
    Nothing,
    /// Start a new run: lay out the interior and call
    /// [`GameState::start_new_game`].
    StartRun,
    /// Write the run to the given slot.
    SaveGame(usize),
    /// Read the run from the given slot.
    LoadGame(usize),
    /// End the program.
    Exit,
}

/// What is left to the program after an interface event.
pub open spec fn request_of(event: UIEvent) -> UiRequest {
    match event {
        UIEvent::StartGame => UiRequest::StartRun,
        UIEvent::NextRound => UiRequest::StartRun,
        UIEvent::SaveGame(slot) => UiRequest::SaveGame(slot),
        UIEvent::LoadGame(slot) => UiRequest::LoadGame(slot),
        UIEvent::ExitGame => UiRequest::Exit,
        _ => UiRequest::Nothing,
    }
}

/// Whether `after` and `game_after` are the state and the game events
/// after the interface event `event` is handled.
///
/// Returning to the menu unpauses and shows the menu; a pause pauses with
/// the menu's first entry selected; a resume and a save unpause. Repairs,
/// upgrades and toggles go to the module in their slot. A purchase on the
/// victory screen leaves for the shop; anywhere else it buys the upgrade.
/// Every other event leaves the state alone.
pub open spec fn ui_event_handled(
    before: GameState,
    after: GameState,
    event: UIEvent,
    game_before: Seq<GameEvent>,
    game_after: Seq<GameEvent>,
) -> bool {
    match event {
        UIEvent::ReturnToMenu => after == (GameState {
            paused: false,
            phase: GamePhase::Menu,
            ..before
        }) && game_after == game_before,
        UIEvent::Pause => after == (GameState { paused: true, pause_menu_selection: 0, ..before })
            && game_after == game_before,
        UIEvent::Resume => after == (GameState { paused: false, ..before }) && game_after
            == game_before,
        UIEvent::SaveGame(_) => after == (GameState { paused: false, ..before }) && game_after
            == game_before,
        UIEvent::Repair(x, y) => exists|done: bool| #[trigger]
            before.repair_attempted(after, x, y, game_before, game_after, done),
        UIEvent::Upgrade(x, y) => exists|done: bool| #[trigger]
            before.upgrade_attempted(after, x, y, game_before, game_after, done),
        UIEvent::Toggle(x, y) => before.module_toggled(after, x, y) && game_after == game_before,
        UIEvent::PurchaseUpgrade(id) => if before.phase == GamePhase::Victory {
            after == (GameState { phase: GamePhase::InterRound, ..before }) && game_after
                == game_before
        } else {
            game_after == game_before && exists|done: bool| #[trigger]
                before.purchase_attempted(after, id@, done)
        },
        _ => after == before && game_after == game_before,
    }
}

/// Handles one interface event, by [`ui_event_handled`], and says what is
/// left for the program to do, by [`request_of`].
pub fn process_ui_event(state: &mut GameState, event: UIEvent, events: &mut EventBus) -> (request:
    UiRequest)
    ensures
        request == request_of(event),
        ui_event_handled(*old(state), *final(state), event, old(events).game@, final(events).game@),
        final(events).ui@ == old(events).ui@,
{
    match event {
        UIEvent::StartGame => UiRequest::StartRun,
        UIEvent::ReturnToMenu => {
            state.paused = false;
            state.phase = GamePhase::Menu;
            UiRequest::Nothing
        },
        UIEvent::Pause => {
            state.paused = true;
            state.pause_menu_selection = 0;
            UiRequest::Nothing
        },
        UIEvent::Resume => {
            state.paused = false;
            UiRequest::Nothing
        },
        UIEvent::Repair(x, y) => {
            let done = state.attempt_repair(x, y, events);
            proof {
                assert(old(state).repair_attempted(
                    *state,
                    x,
                    y,
                    old(events).game@,
                    events.game@,
                    done,
                ));
            }
            UiRequest::Nothing
        },
        UIEvent::Upgrade(x, y) => {
            let done = state.attempt_upgrade(x, y, events);
            proof {
                assert(old(state).upgrade_attempted(
                    *state,
                    x,
                    y,
                    old(events).game@,
                    events.game@,
                    done,
                ));
            }
            UiRequest::Nothing
        },
        UIEvent::Toggle(x, y) => {
            state.toggle_module(x, y);
            UiRequest::Nothing
        },
        UIEvent::PurchaseUpgrade(id) => {
            match state.phase {
                GamePhase::Victory => {
                    state.phase = GamePhase::InterRound;
                },
                _ => {
                    let done = state.purchase_upgrade(id.as_str());
                    proof {
                        assert(old(state).purchase_attempted(*state, id@, done));
                    }
                },
            }
            UiRequest::Nothing
        },
        UIEvent::NextRound => UiRequest::StartRun,
        UIEvent::SaveGame(slot) => {
            state.paused = false;
            UiRequest::SaveGame(slot)
        },
        UIEvent::LoadGame(slot) => UiRequest::LoadGame(slot),
        UIEvent::ExitGame => UiRequest::Exit,
    }
}

} // verus!
