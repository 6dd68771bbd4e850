//! The enemies: what they are, when they appear, how they move and how
//! they and the ship's weapons hurt each other.

pub mod ai;
pub mod combat;
pub mod entities;
pub mod spatial;
pub mod wave;
