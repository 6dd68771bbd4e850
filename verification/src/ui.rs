//! What the interface decides: how a frame's input becomes requests and
//! changes of state, and what feedback a game event calls for. Capturing
//! the input, drawing and playing sound are left to the program around the
//! library.

pub mod gameplay_input;
pub mod input_manager;
pub mod pause_menu;
pub mod sound_manager;
pub mod ui_input;
