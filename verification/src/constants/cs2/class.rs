//! Names of the game's entity classes.

use vstd::prelude::*;

verus! {

/// Class of a player controller.
pub const PLAYER_CONTROLLER: &'static str = "CCSPlayer";

/// Class of a planted bomb.
pub const PLANTED_C4: &'static str = "CPlantedC4";

/// Class of a fire.
pub const INFERNO: &'static str = "CInferno";

/// Class of a smoke grenade in flight.
pub const SMOKE: &'static str = "CSmokeGrenadeProjectile";

/// Class of a molotov in flight.
pub const MOLOTOV: &'static str = "CMolotovProjectile";

/// Class of a flashbang in flight.
pub const FLASHBANG: &'static str = "CFlashbangProjectile";

/// Class of a high-explosive grenade in flight.
pub const HE_GRENADE: &'static str = "CHEGrenadeProjectile";

/// Class of a decoy in flight.
pub const DECOY: &'static str = "CDecoyProjectile";

/// Class of a chicken.
pub const CHICKEN: &'static str = "CChicken";

} // verus!
