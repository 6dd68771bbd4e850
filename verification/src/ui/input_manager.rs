//! The input of one frame, and its dispatch by game phase.

use vstd::prelude::*;
use crate::ship::layout::Layout;
use crate::simulation::events::EventBus;
use crate::state::game_state::{GamePhase, GameState};
use crate::ui::pause_menu::SettingsEffect;
use crate::ui::ui_input::MenuButtons;
use crate::units::Vec2;

verus! {

/// What the player did on one frame. A key or button "pressed" went down
/// on this frame; one "down" is being held.
#[derive(Debug, Clone, Copy, PartialEq, Eq)]
pub struct InputState {
    pub mouse_pos: Vec2,
    pub mouse_world_pos: Option<(usize, usize)>,
    pub left_click: bool,
    pub right_click: bool,
    pub escape_pressed: bool,
    pub enter_pressed: bool,
    pub space_pressed: bool,
    pub pause_pressed: bool,
    pub tab_pressed: bool,
    pub interact_pressed: bool,
    /// The interaction key is being held.
    pub interact_down: bool,
    pub up_pressed: bool,
    pub down_pressed: bool,
    pub left_pressed: bool,
    pub right_pressed: bool,
    /// The number keys 1 to 9.
    pub digits_pressed: [bool; 9],
    /// Length of the frame, in microseconds.
    pub frame_time: u64,
}

/// A rectangle of the screen.
#[derive(Debug, Clone, Copy, PartialEq, Eq, Structural)]
pub struct Rect {
    pub x: i32,
    pub y: i32,
    pub w: i32,
    pub h: i32,
}

impl Rect {
    /// Whether `p` lies in the rectangle, edges included.
    pub open spec fn covers(self, p: Vec2) -> bool {
        &&& self.x <= p.x <= self.x + self.w
        &&& self.y <= p.y <= self.y + self.h
    }

    /// Whether `p` lies in the rectangle.
    pub fn contains(&self, p: Vec2) -> (b: bool)
        ensures
            b == self.covers(p),
    {
        p.x >= self.x && p.x as i64 <= self.x as i64 + self.w as i64 && p.y >= self.y && p.y as i64
            <= self.y as i64 + self.h as i64
    }
}

impl InputState {
    /// A frame of the given length on which the player did nothing.
    pub fn idle(frame_time: u64) -> (input: Self)
        ensures
            input.mouse_pos == (Vec2 { x: 0, y: 0 }),
            input.mouse_world_pos.is_none(),
            !input.left_click,
            !input.right_click,
            !input.escape_pressed,
            !input.enter_pressed,
            !input.space_pressed,
            !input.pause_pressed,
            !input.tab_pressed,
            !input.interact_pressed,
            !input.interact_down,
            !input.up_pressed,
            !input.down_pressed,
            !input.left_pressed,
            !input.right_pressed,
            forall|k: int| 0 <= k < 9 ==> !#[trigger] input.digits_pressed@[k],
            input.frame_time == frame_time,
    {
        InputState {
            mouse_pos: Vec2 { x: 0, y: 0 },
            mouse_world_pos: None,
            left_click: false,
            right_click: false,
            escape_pressed: false,
            enter_pressed: false,
            space_pressed: false,
            pause_pressed: false,
            tab_pressed: false,
            interact_pressed: false,
            interact_down: false,
            up_pressed: false,
            down_pressed: false,
            left_pressed: false,
            right_pressed: false,
            digits_pressed: [false, false, false, false, false, false, false, false, false],
            frame_time,
        }
    }
}

/// Turns input into requests and changes of state.
#[derive(Debug, Clone, Copy)]
pub struct InputManager {}

impl InputManager {
    /// An input manager; it keeps nothing between frames.
    pub fn new() -> (m: Self) {
        InputManager {  }
    }

    /// Handles the input of one frame according to the game's phase: the
    /// menu's at the menu, the run's while playing, the shop's between
    /// rounds, and so on. Says what the settings panel asks of the
    /// program, if it was in use.
    pub fn update(
        &mut self,
        input: &InputState,
        state: &mut GameState,
        events: &mut EventBus,
        buttons: &MenuButtons,
    ) -> (effect: SettingsEffect)
        ensures
            final(events).game@ == old(events).game@,
            old(state).phase != GamePhase::Playing ==> *final(state) == *old(state) && effect
                == SettingsEffect::nothing(),
            match old(state).phase {
                GamePhase::Menu => final(events).ui@ == crate::ui::ui_input::menu_requests(
                    old(events).ui@,
                    *input,
                    *buttons,
                ),
                GamePhase::Playing => InputManager::gameplay_input_done(
                    *old(state),
                    *final(state),
                    old(events).ui@,
                    final(events).ui@,
                    *input,
                    effect,
                ),
                GamePhase::GameOver => final(events).ui@
                    == crate::ui::ui_input::game_over_requests(old(events).ui@, *input),
                GamePhase::Victory => crate::ui::ui_input::victory_requested(
                    old(events).ui@,
                    final(events).ui@,
                    *input,
                ),
                GamePhase::InterRound => crate::ui::ui_input::shop_requested(
                    old(events).ui@,
                    final(events).ui@,
                    *input,
                    old(state).upgrade_templates@,
                ),
            },
    {
        match state.phase {
            GamePhase::Menu => {
                self.handle_menu_input(input, events, buttons);
                SettingsEffect::none()
            },
            GamePhase::Playing => self.handle_gameplay_input(input, state, events),
            GamePhase::GameOver => {
                self.handle_game_over_input(input, events);
                SettingsEffect::none()
            },
            GamePhase::Victory => {
                self.handle_victory_input(input, events);
                SettingsEffect::none()
            },
            GamePhase::InterRound => {
                self.handle_upgrade_input(input, state, events);
                SettingsEffect::none()
            },
        }
    }
}

/// The buttons of the menu for a screen: a continue button, if there is a
/// saved run, and below it or in its place the button for a new run.
pub open spec fn menu_buttons_for(layout: Layout, has_save: bool) -> MenuButtons {
    let x = layout.middle().x - 100_000;
    let top = layout.middle().y + 20_000;
    if has_save {
        MenuButtons {
            continue_game: Some(Rect { x: x as i32, y: top as i32, w: 200_000, h: 50_000 }),
            new_game: Rect { x: x as i32, y: (top + 65_000) as i32, w: 200_000, h: 50_000 },
        }
    } else {
        MenuButtons {
            continue_game: None,
            new_game: Rect { x: x as i32, y: top as i32, w: 200_000, h: 50_000 },
        }
    }
}

/// The buttons of the menu for a screen.
pub fn get_menu_button_bounds(layout: &Layout, has_save: bool) -> (buttons: MenuButtons)
    ensures
        buttons == menu_buttons_for(*layout, has_save),
{
    let middle = layout.screen_center();
    let x: i32 = middle.x - 100_000;
    let top: i32 = middle.y + 20_000;
    if has_save {
        MenuButtons {
            continue_game: Some(Rect { x, y: top, w: 200_000, h: 50_000 }),
            new_game: Rect { x, y: top + 65_000, w: 200_000, h: 50_000 },
        }
    } else {
        MenuButtons { continue_game: None, new_game: Rect { x, y: top, w: 200_000, h: 50_000 } }
    }
}

/// The button that starts a new run.
pub fn get_start_button_bounds(layout: &Layout, has_save: bool) -> (button: Rect)
    ensures
        button == menu_buttons_for(*layout, has_save).new_game,
{
    get_menu_button_bounds(layout, has_save).new_game
}

} // verus!
