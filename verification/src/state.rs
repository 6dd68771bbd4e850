//! The state of a run and what changes it: the per-tick update, the
//! player's actions, the tutorial and the profile kept between runs.

pub mod engine;
pub mod game_actions;
pub mod game_state;
pub mod game_update;
pub mod invariants;
pub mod persistence;
pub mod profile;
pub mod tutorial;
pub mod ui_events;
