//! Names and sizes that the library and its callers share.

pub mod cs2;
pub mod elf;

use vstd::prelude::*;

verus! {

/// The file in which grenade line-ups are stored.
pub const GRENADE_FILE_NAME: &'static str = "grenades.json";

} // verus!
