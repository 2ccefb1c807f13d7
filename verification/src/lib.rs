//! Finds the addresses and field offsets that a reader of the game's memory
//! needs, as a verified search that asks the game process one question at a
//! time and assembles the answers into [`cs2::Offsets`].

pub mod constants;
pub mod cs2;
