//! The ship: its exterior module grid and its interior rooms.

pub mod interior;
pub mod layout;
pub mod player;
pub mod ship;
