//! What the whole simulation shares: its constants, its event queue and the
//! base statistics of the ship's modules.

pub mod constants;
pub mod events;
pub mod gameplay;
