//! The game's offsets and the search that finds them.

pub mod offset_types;

pub mod offsets;
pub mod laws;

pub use offset_types::Offsets;
pub use offsets::{Progress, Query, CS2};
