//! Deterministic simulation core of a ship-defence survival game.
//!
//! A reactor is repaired to generate power; power keeps weapons, shields and
//! an engine online while waves of synthetic enemies attack. The run is won
//! when the engine has charged long enough to escape, and lost when the hull
//! has no integrity left.
//!
//! Every quantity is an integer in a fixed unit (see [`units`]), so that a
//! run is a function of its frame times and random draws alone. The tick
//! ([`state::game_update`]) is stated as a composition of phases over the
//! simulated part of the state, and what holds from tick to tick is proved
//! in [`state::invariants`].
//!
//! The library neither draws nor reads input nor touches files. The program
//! around it hands over what the player did ([`ui::input_manager`]), carries
//! out what the library asks for ([`state::ui_events`]) and presents the
//! events the simulation reports ([`simulation::events`]).

pub mod data;
pub mod economy;
pub mod enemy;
pub mod ship;
pub mod simulation;
pub mod state;
pub mod ui;
pub mod units;
