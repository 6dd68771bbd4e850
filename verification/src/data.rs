//! Settings the player keeps.

pub mod settings;
