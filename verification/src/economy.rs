//! Scrap, credits and the upgrades bought with them.

pub mod resources;
pub mod upgrades;
