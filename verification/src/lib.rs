//! The rules of a small action game: how the timekeeper bends game time,
//! and what the player character decides each frame.
pub mod timekeeper;
pub mod player;
pub mod animation;
