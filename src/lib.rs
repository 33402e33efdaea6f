//! Player positions on a bounded grid, a two-key authorization gate, and the
//! handoff of a player's write-authority between a durable store and a faster
//! auxiliary venue.

pub mod grid;
pub mod identity;
pub mod player;
pub mod account;
pub mod game;
pub mod laws;
