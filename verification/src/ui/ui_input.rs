//! Input outside a run: at the menu, after a run, and between rounds.

use vstd::prelude::*;
use crate::economy::upgrades::UpgradeTemplate;
use crate::simulation::events::{EventBus, UIEvent};
use crate::state::game_state::GameState;
use crate::ui::input_manager::{InputManager, InputState, Rect};

verus! {

/// The buttons of the menu.
#[derive(Debug, Clone, Copy, PartialEq, Eq, Structural)]
pub struct MenuButtons {
    /// Continues the saved run, if there is one.
    pub continue_game: Option<Rect>,
    pub new_game: Rect,
}

/// The requests after the menu's input: enter or space start a run; else a
/// click on the continue button loads the first save slot, and a click on
/// the new-game button starts a run.
pub open spec fn menu_requests(ui: Seq<UIEvent>, input: InputState, buttons: MenuButtons) -> Seq<
    UIEvent,
> {
    if input.enter_pressed || input.space_pressed {
        ui.push(UIEvent::StartGame)
    } else if !input.left_click {
        ui
    } else if buttons.continue_game.is_some() && buttons.continue_game.unwrap().covers(
        input.mouse_pos,
    ) {
        ui.push(UIEvent::LoadGame(0))
    } else if buttons.new_game.covers(input.mouse_pos) {
        ui.push(UIEvent::StartGame)
    } else {
        ui
    }
}

/// The requests after the input of a lost run: enter or space return to
/// the menu.
pub open spec fn game_over_requests(ui: Seq<UIEvent>, input: InputState) -> Seq<UIEvent> {
    if input.enter_pressed || input.space_pressed {
        ui.push(UIEvent::ReturnToMenu)
    } else {
        ui
    }
}

/// Id of the purchase that leaves the victory screen for the shop.
pub open spec fn victory_purchase_id() -> Seq<char> {
    "dummy"@
}

/// Whether `after` are the requests after the input of a won run: enter
/// or space ask for the purchase that leaves for the shop.
pub open spec fn victory_requested(before: Seq<UIEvent>, after: Seq<UIEvent>, input: InputState) -> bool {
    if input.enter_pressed || input.space_pressed {
        &&& after.len() == before.len() + 1
        &&& after.drop_last() == before
        &&& purchase_of(after.last()) == Some(victory_purchase_id())
    } else {
        after == before
    }
}

/// The purchases asked for by the number keys from the `k`-th on: for each
/// key that is pressed and has an upgrade on offer at its place, that
/// upgrade's id.
pub open spec fn purchases_from(templates: Seq<UpgradeTemplate>, input: InputState, k: int) -> Seq<
    Seq<char>,
>
    decreases 9 - k,
{
    if k < 0 || k >= 9 {
        Seq::empty()
    } else if input.digits_pressed@[k] && k < templates.len() {
        seq![templates[k].id@] + purchases_from(templates, input, k + 1)
    } else {
        purchases_from(templates, input, k + 1)
    }
}

/// The id an interface event asks to purchase, if it asks for a purchase.
pub open spec fn purchase_of(event: UIEvent) -> Option<Seq<char>> {
    match event {
        UIEvent::PurchaseUpgrade(id) => Some(id@),
        _ => None,
    }
}

/// Whether `after` are the requests after the input of a frame in the
/// shop between rounds: enter starts the next round, escape returns to the
/// menu, and each number key asks for the upgrade on offer at its place.
pub open spec fn shop_requested(
    before: Seq<UIEvent>,
    after: Seq<UIEvent>,
    input: InputState,
    templates: Seq<UpgradeTemplate>,
) -> bool {
    if input.enter_pressed {
        after == before.push(UIEvent::NextRound)
    } else if input.escape_pressed {
        after == before.push(UIEvent::ReturnToMenu)
    } else {
        let asked = purchases_from(templates, input, 0);
        &&& after.len() == before.len() + asked.len()
        &&& after.take(before.len() as int) == before
        &&& forall|k: int|
            0 <= k < asked.len() ==> purchase_of(#[trigger] after[before.len() + k]) == Some(
                asked[k],
            )
    }
}

impl InputManager {
    /// Input at the menu.
    pub fn handle_menu_input(&self, input: &InputState, events: &mut EventBus, buttons: &MenuButtons)
        ensures
            final(events).ui@ == menu_requests(old(events).ui@, *input, *buttons),
            final(events).game@ == old(events).game@,
    {
        if input.enter_pressed || input.space_pressed {
            events.push_ui(UIEvent::StartGame);
            return ;
        }
        if input.left_click {
            if let Some(button) = buttons.continue_game {
                if button.contains(input.mouse_pos) {
                    events.push_ui(UIEvent::LoadGame(0));
                    return ;
                }
            }
            if buttons.new_game.contains(input.mouse_pos) {
                events.push_ui(UIEvent::StartGame);
            }
        }
    }

    /// Input after a lost run.
    pub fn handle_game_over_input(&self, input: &InputState, events: &mut EventBus)
        ensures
            final(events).ui@ == game_over_requests(old(events).ui@, *input),
            final(events).game@ == old(events).game@,
    {
        if input.enter_pressed || input.space_pressed {
            events.push_ui(UIEvent::ReturnToMenu);
        }
    }

    /// Input after a won run.
    pub fn handle_victory_input(&self, input: &InputState, events: &mut EventBus)
        ensures
            final(events).game@ == old(events).game@,
            victory_requested(old(events).ui@, final(events).ui@, *input),
    {
        if input.enter_pressed || input.space_pressed {
            events.push_ui(UIEvent::PurchaseUpgrade("dummy".to_owned()));
            proof {
                assert(events.ui@.drop_last() =~= old(events).ui@);
            }
        }
    }

    /// Input in the shop between rounds, by [`shop_requested`].
    pub fn handle_upgrade_input(&self, input: &InputState, state: &GameState, events: &mut EventBus)
        ensures
            final(events).game@ == old(events).game@,
            shop_requested(old(events).ui@, final(events).ui@, *input, state.upgrade_templates@),
    {
        if input.enter_pressed {
            events.push_ui(UIEvent::NextRound);
            return ;
        }
        if input.escape_pressed {
            events.push_ui(UIEvent::ReturnToMenu);
            return ;
        }
        let ghost before = events.ui@;
        let ghost all = purchases_from(state.upgrade_templates@, *input, 0);
        let ghost mut pushed: Seq<Seq<char>> = Seq::empty();
        let mut k: usize = 0;
        while k < 9
            invariant
                0 <= k <= 9,
                events.game@ == old(events).game@,
                before == old(events).ui@,
                all == purchases_from(state.upgrade_templates@, *input, 0),
                all =~= pushed + purchases_from(state.upgrade_templates@, *input, k as int),
                events.ui@.len() == before.len() + pushed.len(),
                events.ui@.take(before.len() as int) =~= before,
                forall|j: int|
                    0 <= j < pushed.len() ==> purchase_of(#[trigger] events.ui@[before.len() + j])
                        == Some(pushed[j]),
            decreases 9 - k,
        {
            if input.digits_pressed[k] && k < state.upgrade_templates.len() {
                let ghost ui_before = events.ui@;
                let ghost pushed_before = pushed;
                events.push_ui(UIEvent::PurchaseUpgrade(state.upgrade_templates[k].id.clone()));
                proof {
                    pushed = pushed.push(state.upgrade_templates@[k as int].id@);
                    assert(events.ui@.take(before.len() as int) =~= ui_before.take(
                        before.len() as int,
                    ));
                    assert forall|j: int| 0 <= j < pushed.len() implies purchase_of(
                        #[trigger] events.ui@[before.len() + j],
                    ) == Some(pushed[j]) by {
                        if j < pushed_before.len() {
                            assert(events.ui@[before.len() + j] == ui_before[before.len() + j]);
                        }
                    }
                }
            }
            k += 1;
        }
        proof {
            assert(all =~= pushed);
        }
    }
}

} // verus!
