//! Readers of the level data of a world.

pub mod abilities;
pub mod error;
