//! Verified rules of a small arcade game, and a counting exercise.

pub mod collision;
pub mod counting;
pub mod laws;
pub mod logic;
pub mod state;
pub mod text;
