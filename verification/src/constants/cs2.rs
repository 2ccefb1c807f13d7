//! Names of the game's process and libraries, and game-wide sizes.

pub mod class;

use vstd::prelude::*;

verus! {

/// Name of the game's process.
pub const PROCESS_NAME: &'static str = "csgo_linux64";

/// The client library.
pub const CLIENT_LIB: &'static str = "client_client.so";

/// The engine library.
pub const ENGINE_LIB: &'static str = "engine_client.so";

/// The tier0 library, which holds the console variables.
pub const TIER0_LIB: &'static str = "libtier0_client.so";

/// The input system library.
pub const INPUT_LIB: &'static str = "inputsystem_client.so";

/// The SDL library.
pub const SDL_LIB: &'static str = "libSDL2.so.0";

/// The schema system library.
pub const SCHEMA_LIB: &'static str = "schemasystem_client.so";

/// The physics library.
pub const PHYSICS_LIB: &'static str = "vphysics_client.so";

/// The libraries the game must have loaded before it can be read.
pub const LIBS: [&'static str; 6] = [CLIENT_LIB, ENGINE_LIB, TIER0_LIB, INPUT_LIB, SDL_LIB, SCHEMA_LIB];

/// The field of view the game starts with.
pub const DEFAULT_FOV: u32 = 90;

/// Number of bones in a player's mesh skeleton.
pub const MESH_SKELETON_BONE_COUNT: usize = 96;

} // verus!
