//! The pause menu and its settings panel.

use vstd::prelude::*;
use crate::data::settings::Settings;
use crate::ship::layout::Layout;
use crate::simulation::events::{EventBus, UIEvent};
use crate::state::game_state::GameState;
use crate::ui::input_manager::{InputManager, InputState, Rect};
use crate::units::{div_toward_zero, divide_toward_zero, Vec2};

verus! {

/// The entries of the pause menu, from the top.
#[derive(Debug, Clone, Copy, PartialEq, Eq, Structural)]
pub enum PauseMenuOption {
    Resume,
    Settings,
    SaveGame,
    LoadGame,
    ReturnToMenu,
    ExitGame,
}

/// Number of entries of the pause menu.
pub const PAUSE_OPTION_COUNT: usize = 6;

/// Number of entries of the settings panel: five settings and the way back.
pub const SETTING_COUNT: usize = 6;

/// Step by which a volume is turned up or down, in thousandths.
pub const VOLUME_STEP: u32 = 100;

/// Full volume, in thousandths.
pub const FULL_VOLUME: u32 = 1000;

/// What the settings panel asks of the program around the library.
#[derive(Debug, Clone, Copy, PartialEq, Eq, Structural)]
pub struct SettingsEffect {
    /// Switch to full screen or back.
    pub apply_fullscreen: Option<bool>,
    /// Write the settings to where they are kept.
    pub save: bool,
}

impl SettingsEffect {
    /// Nothing asked.
    pub open spec fn nothing() -> SettingsEffect {
        SettingsEffect { apply_fullscreen: None, save: false }
    }

    /// Nothing asked.
    pub fn none() -> (e: Self)
        ensures
            e == SettingsEffect::nothing(),
    {
        SettingsEffect { apply_fullscreen: None, save: false }
    }
}

impl PauseMenuOption {
    /// The entry at place `i`; past the last place, the last entry.
    pub open spec fn at(i: int) -> PauseMenuOption {
        if i <= 0 {
            PauseMenuOption::Resume
        } else if i == 1 {
            PauseMenuOption::Settings
        } else if i == 2 {
            PauseMenuOption::SaveGame
        } else if i == 3 {
            PauseMenuOption::LoadGame
        } else if i == 4 {
            PauseMenuOption::ReturnToMenu
        } else {
            PauseMenuOption::ExitGame
        }
    }

    /// All entries, from the top.
    pub fn all() -> (options: [PauseMenuOption; 6])
        ensures
            forall|i: int| 0 <= i < 6 ==> #[trigger] options@[i] == PauseMenuOption::at(i),
    {
        [
            PauseMenuOption::Resume,
            PauseMenuOption::Settings,
            PauseMenuOption::SaveGame,
            PauseMenuOption::LoadGame,
            PauseMenuOption::ReturnToMenu,
            PauseMenuOption::ExitGame,
        ]
    }

    /// What the entry reads.
    pub open spec fn caption(self) -> Seq<char> {
        match self {
            PauseMenuOption::Resume => "Resume"@,
            PauseMenuOption::Settings => "Settings"@,
            PauseMenuOption::SaveGame => "Save Game"@,
            PauseMenuOption::LoadGame => "Load Game"@,
            PauseMenuOption::ReturnToMenu => "Return to Menu"@,
            PauseMenuOption::ExitGame => "Exit Game"@,
        }
    }

    /// What the entry reads.
    pub fn label(&self) -> (s: &'static str)
        ensures
            s@ == self.caption(),
    {
        match self {
            PauseMenuOption::Resume => "Resume",
            PauseMenuOption::Settings => "Settings",
            PauseMenuOption::SaveGame => "Save Game",
            PauseMenuOption::LoadGame => "Load Game",
            PauseMenuOption::ReturnToMenu => "Return to Menu",
            PauseMenuOption::ExitGame => "Exit Game",
        }
    }

    /// What the entry asks for when chosen; the settings entry asks for
    /// nothing and opens its panel instead.
    pub open spec fn request(self) -> Option<UIEvent> {
        match self {
            PauseMenuOption::Resume => Some(UIEvent::Resume),
            PauseMenuOption::Settings => None,
            PauseMenuOption::SaveGame => Some(UIEvent::SaveGame(0)),
            PauseMenuOption::LoadGame => Some(UIEvent::LoadGame(0)),
            PauseMenuOption::ReturnToMenu => Some(UIEvent::ReturnToMenu),
            PauseMenuOption::ExitGame => Some(UIEvent::ExitGame),
        }
    }
}

/// What the pause menu keeps from frame to frame.
#[derive(Debug, Clone, Copy, PartialEq, Eq, Structural)]
pub struct PauseView {
    pub selection: usize,
    pub settings_open: bool,
    pub settings_selection: usize,
}

/// The button of the entry at place `i` of the pause menu on a screen.
pub open spec fn pause_button(layout: Layout, i: int) -> Rect {
    Rect {
        x: (div_toward_zero(layout.screen_width - 300_000, 2) + 50_000) as i32,
        y: (div_toward_zero(layout.screen_height - 320_000, 2) + 70_000 + i * 50_000) as i32,
        w: 200_000,
        h: 40_000,
    }
}

/// The place of the entry under the mouse, if it is over one.
pub open spec fn hovered_from(layout: Layout, mouse: Vec2, i: int) -> Option<int>
    decreases 6 - i,
{
    if i < 0 || i >= 6 {
        None
    } else if pause_button(layout, i).covers(mouse) {
        Some(i)
    } else {
        hovered_from(layout, mouse, i + 1)
    }
}

/// The pause menu after an entry is chosen, and what the choice asks for.
pub open spec fn chosen(view: PauseView, option: PauseMenuOption) -> (PauseView, Option<UIEvent>) {
    match option {
        PauseMenuOption::Settings => (
            PauseView { settings_open: true, settings_selection: 0, ..view },
            None,
        ),
        _ => (view, option.request()),
    }
}

/// The selection after the arrow keys: up moves up and from the top to the
/// bottom, then down moves down and from the bottom to the top.
pub open spec fn moved_selection(selection: usize, up: bool, down: bool, count: usize) -> usize {
    let after_up = if up {
        if selection == 0 {
            (count - 1) as usize
        } else {
            (selection - 1) as usize
        }
    } else {
        selection
    };
    if down {
        ((after_up + 1) % (count as int)) as usize
    } else {
        after_up
    }
}

/// One frame of the pause menu with its settings panel closed: what it
/// keeps, and what it asks for.
///
/// The mouse selects the entry it is over, and a click chooses it.
/// Otherwise the arrow keys move the selection, and enter or space choose
/// the selected entry.
pub open spec fn pause_menu_step(view: PauseView, input: InputState, layout: Layout) -> (
    PauseView,
    Option<UIEvent>,
) {
    let hovered = hovered_from(layout, input.mouse_pos, 0);
    let pointed = match hovered {
        Some(i) => PauseView { selection: i as usize, ..view },
        None => view,
    };
    if hovered.is_some() && input.left_click {
        chosen(pointed, PauseMenuOption::at(hovered.unwrap()))
    } else {
        let moved = PauseView {
            selection: moved_selection(
                pointed.selection,
                input.up_pressed,
                input.down_pressed,
                PAUSE_OPTION_COUNT,
            ),
            ..pointed
        };
        if (input.enter_pressed || input.space_pressed) && moved.selection < PAUSE_OPTION_COUNT {
            chosen(moved, PauseMenuOption::at(moved.selection as int))
        } else {
            (moved, None)
        }
    }
}

/// A volume after a step up or down, kept between none and full.
pub open spec fn stepped_volume(volume: u32, left: bool, right: bool) -> u32 {
    if right {
        if volume + VOLUME_STEP > FULL_VOLUME {
            FULL_VOLUME
        } else {
            (volume + VOLUME_STEP) as u32
        }
    } else if left {
        if volume > FULL_VOLUME + VOLUME_STEP {
            FULL_VOLUME
        } else if volume < VOLUME_STEP {
            0
        } else {
            (volume - VOLUME_STEP) as u32
        }
    } else {
        volume
    }
}

/// One frame of the settings panel: what the menu keeps, the settings, and
/// what the program is asked to do.
///
/// The arrow keys move the selection; left and right turn the selected
/// volume down and up; enter or space toggle full screen or screen shake,
/// or, on the last entry, save and close; escape saves and closes.
pub open spec fn settings_step(view: PauseView, settings: Settings, input: InputState) -> (
    PauseView,
    Settings,
    SettingsEffect,
) {
    let selection = moved_selection(
        view.settings_selection,
        input.up_pressed,
        input.down_pressed,
        SETTING_COUNT,
    );
    let tuned = Settings {
        master_volume: if selection == 0 {
            stepped_volume(settings.master_volume, input.left_pressed, input.right_pressed)
        } else {
            settings.master_volume
        },
        sfx_volume: if selection == 1 {
            stepped_volume(settings.sfx_volume, input.left_pressed, input.right_pressed)
        } else {
            settings.sfx_volume
        },
        music_volume: if selection == 2 {
            stepped_volume(settings.music_volume, input.left_pressed, input.right_pressed)
        } else {
            settings.music_volume
        },
        ..settings
    };
    let confirm = input.enter_pressed || input.space_pressed;
    let toggled = Settings {
        fullscreen: if confirm && selection == 3 {
            !tuned.fullscreen
        } else {
            tuned.fullscreen
        },
        screen_shake: if confirm && selection == 4 {
            !tuned.screen_shake
        } else {
            tuned.screen_shake
        },
        ..tuned
    };
    let closing = (confirm && selection == 5) || input.escape_pressed;
    (
        PauseView {
            settings_selection: selection,
            settings_open: view.settings_open && !closing,
            ..view
        },
        toggled,
        SettingsEffect {
            apply_fullscreen: if confirm && selection == 3 {
                Some(toggled.fullscreen)
            } else {
                None
            },
            save: closing,
        },
    )
}

/// The selection after the arrow keys.
pub fn move_selection(selection: usize, up: bool, down: bool, count: usize) -> (s: usize)
    requires
        count > 0,
    ensures
        s == moved_selection(selection, up, down, count),
{
    let after_up = if up {
        if selection == 0 {
            count - 1
        } else {
            selection - 1
        }
    } else {
        selection
    };
    if down {
        if after_up == usize::MAX {
            ((after_up as u128 + 1) % (count as u128)) as usize
        } else {
            (after_up + 1) % count
        }
    } else {
        after_up
    }
}

/// A volume after a step up or down.
pub fn step_volume(volume: u32, left: bool, right: bool) -> (v: u32)
    ensures
        v == stepped_volume(volume, left, right),
{
    if right {
        if volume as u64 + VOLUME_STEP as u64 > FULL_VOLUME as u64 {
            FULL_VOLUME
        } else {
            volume + VOLUME_STEP
        }
    } else if left {
        if volume as u64 > FULL_VOLUME as u64 + VOLUME_STEP as u64 {
            FULL_VOLUME
        } else if volume < VOLUME_STEP {
            0
        } else {
            volume - VOLUME_STEP
        }
    } else {
        volume
    }
}

/// The button of the entry at place `i` of the pause menu.
pub fn pause_button_bounds(layout: &Layout, i: usize) -> (button: Rect)
    requires
        i < PAUSE_OPTION_COUNT,
    ensures
        button == pause_button(*layout, i as int),
{
    let box_x: i64 = divide_toward_zero(layout.screen_width as i128 - 300_000, 2) as i64;
    let box_y: i64 = divide_toward_zero(layout.screen_height as i128 - 320_000, 2) as i64;
    Rect {
        x: (box_x + 50_000) as i32,
        y: (box_y + 70_000 + (i as i64) * 50_000) as i32,
        w: 200_000,
        h: 40_000,
    }
}

impl GameState {
    /// What the pause menu keeps.
    pub open spec fn pause_view(self) -> PauseView {
        PauseView {
            selection: self.pause_menu_selection,
            settings_open: self.settings_open,
            settings_selection: self.settings_selection,
        }
    }

    /// The state with the pause menu and the settings as given.
    pub open spec fn with_menu(self, view: PauseView, settings: Settings) -> GameState {
        GameState {
            pause_menu_selection: view.selection,
            settings_open: view.settings_open,
            settings_selection: view.settings_selection,
            settings,
            ..self
        }
    }
}

/// Whether `after`, `ui_after` and `effect` are the state, the requests and
/// what is asked of the program after the input of a frame on which the
/// game is paused. Escape resumes; with the settings panel open the input
/// goes to it by [`settings_step`]; else it goes to the menu by
/// [`pause_menu_step`].
pub open spec fn pause_input_done(
    before: GameState,
    after: GameState,
    ui_before: Seq<UIEvent>,
    ui_after: Seq<UIEvent>,
    input: InputState,
    effect: SettingsEffect,
) -> bool {
    if input.escape_pressed {
        &&& after == before
        &&& ui_after == ui_before.push(UIEvent::Resume)
        &&& effect == SettingsEffect::nothing()
    } else if before.settings_open {
        let step = settings_step(before.pause_view(), before.settings, input);
        &&& after == before.with_menu(step.0, step.1)
        &&& ui_after == ui_before
        &&& effect == step.2
    } else {
        let step = pause_menu_step(before.pause_view(), input, before.layout);
        &&& after == before.with_menu(step.0, before.settings)
        &&& ui_after == match step.1 {
            Some(event) => ui_before.push(event),
            None => ui_before,
        }
        &&& effect == SettingsEffect::nothing()
    }
}

impl InputManager {
    /// Chooses an entry of the pause menu.
    fn choose_option(&self, option: PauseMenuOption, state: &mut GameState, events: &mut EventBus)
        ensures
            *final(state) == old(state).with_menu(
                chosen(old(state).pause_view(), option).0,
                old(state).settings,
            ),
            final(events).ui@ == match chosen(old(state).pause_view(), option).1 {
                Some(event) => old(events).ui@.push(event),
                None => old(events).ui@,
            },
            final(events).game@ == old(events).game@,
    {
        match option {
            PauseMenuOption::Resume => events.push_ui(UIEvent::Resume),
            PauseMenuOption::Settings => {
                state.settings_open = true;
                state.settings_selection = 0;
            },
            PauseMenuOption::SaveGame => events.push_ui(UIEvent::SaveGame(0)),
            PauseMenuOption::LoadGame => events.push_ui(UIEvent::LoadGame(0)),
            PauseMenuOption::ReturnToMenu => events.push_ui(UIEvent::ReturnToMenu),
            PauseMenuOption::ExitGame => events.push_ui(UIEvent::ExitGame),
        }
    }

    /// Input while the game is paused, by [`pause_input_done`].
    pub fn handle_pause_menu_input(
        &mut self,
        input: &InputState,
        state: &mut GameState,
        events: &mut EventBus,
    ) -> (effect: SettingsEffect)
        ensures
            final(events).game@ == old(events).game@,
            pause_input_done(
                *old(state),
                *final(state),
                old(events).ui@,
                final(events).ui@,
                *input,
                effect,
            ),
    {
        if input.escape_pressed {
            events.push_ui(UIEvent::Resume);
            return SettingsEffect::none();
        }
        if state.settings_open {
            return self.handle_settings_input(input, state);
        }
        let options = PauseMenuOption::all();
        let mut i: usize = 0;
        while i < PAUSE_OPTION_COUNT
            invariant
                0 <= i <= PAUSE_OPTION_COUNT,
                !input.escape_pressed,
                !old(state).settings_open,
                *state == *old(state),
                events.ui@ == old(events).ui@,
                events.game@ == old(events).game@,
                forall|k: int| 0 <= k < 6 ==> #[trigger] options@[k] == PauseMenuOption::at(k),
                hovered_from(state.layout, input.mouse_pos, 0) == hovered_from(
                    state.layout,
                    input.mouse_pos,
                    i as int,
                ),
            decreases PAUSE_OPTION_COUNT - i,
        {
            if pause_button_bounds(&state.layout, i).contains(input.mouse_pos) {
                state.pause_menu_selection = i;
                if input.left_click {
                    self.choose_option(options[i], state, events);
                    return SettingsEffect::none();
                }
                state.pause_menu_selection = move_selection(
                    state.pause_menu_selection,
                    input.up_pressed,
                    input.down_pressed,
                    PAUSE_OPTION_COUNT,
                );
                if (input.enter_pressed || input.space_pressed) && state.pause_menu_selection
                    < PAUSE_OPTION_COUNT {
                    self.choose_option(options[state.pause_menu_selection], state, events);
                }
                return SettingsEffect::none();
            }
            i += 1;
        }
        state.pause_menu_selection = move_selection(
            state.pause_menu_selection,
            input.up_pressed,
            input.down_pressed,
            PAUSE_OPTION_COUNT,
        );
        if (input.enter_pressed || input.space_pressed) && state.pause_menu_selection
            < PAUSE_OPTION_COUNT {
            self.choose_option(options[state.pause_menu_selection], state, events);
        }
        SettingsEffect::none()
    }

    /// Input to the settings panel, by [`settings_step`].
    pub fn handle_settings_input(&mut self, input: &InputState, state: &mut GameState) -> (effect:
        SettingsEffect)
        ensures
            ({
                let step = settings_step(old(state).pause_view(), old(state).settings, *input);
                &&& *final(state) == old(state).with_menu(step.0, step.1)
                &&& effect == step.2
            }),
    {
        let view = PauseView {
            selection: state.pause_menu_selection,
            settings_open: state.settings_open,
            settings_selection: state.settings_selection,
        };
        let (after, settings, effect) = settings_input(view, state.settings, input);
        state.settings_selection = after.settings_selection;
        state.settings_open = after.settings_open;
        state.settings = settings;
        effect
    }
}

/// One frame of the settings panel.
pub fn settings_input(view: PauseView, settings: Settings, input: &InputState) -> (step: (
    PauseView,
    Settings,
    SettingsEffect,
))
    ensures
        step == settings_step(view, settings, *input),
{
    let selection = move_selection(
        view.settings_selection,
        input.up_pressed,
        input.down_pressed,
        SETTING_COUNT,
    );
    let mut tuned = settings;
    if selection == 0 {
        tuned.master_volume = step_volume(
            settings.master_volume,
            input.left_pressed,
            input.right_pressed,
        );
    } else if selection == 1 {
        tuned.sfx_volume = step_volume(settings.sfx_volume, input.left_pressed, input.right_pressed);
    } else if selection == 2 {
        tuned.music_volume = step_volume(
            settings.music_volume,
            input.left_pressed,
            input.right_pressed,
        );
    }
    let confirm = input.enter_pressed || input.space_pressed;
    let mut effect = SettingsEffect::none();
    if confirm && selection == 3 {
        tuned.fullscreen = !tuned.fullscreen;
        effect.apply_fullscreen = Some(tuned.fullscreen);
    }
    if confirm && selection == 4 {
        tuned.screen_shake = !tuned.screen_shake;
    }
    let closing = (confirm && selection == 5) || input.escape_pressed;
    effect.save = closing;
    (
        PauseView {
            selection: view.selection,
            settings_open: view.settings_open && !closing,
            settings_selection: selection,
        },
        tuned,
        effect,
    )
}

} // verus!
