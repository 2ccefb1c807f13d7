//! The offsets the library finds in the game: where its libraries are loaded,
//! where its interfaces and globals live, and where the fields of its
//! entities lie. Each group is a plain struct of addresses or field offsets.

use vstd::prelude::*;

verus! {

/// Base addresses of the game's shared libraries.
#[derive(Debug, Clone, Copy, PartialEq, Eq, Structural)]
pub struct LibraryOffsets {
    pub client: usize,
    pub engine: usize,
    pub tier0: usize,
    pub input: usize,
    pub sdl: usize,
    pub schema: usize,
    pub physics: usize,
}

impl Default for LibraryOffsets {
    fn default() -> (r: Self)
        ensures
            r == (LibraryOffsets { client: 0, engine: 0, tier0: 0, input: 0, sdl: 0, schema: 0, physics: 0 }),
    {
        LibraryOffsets { client: 0, engine: 0, tier0: 0, input: 0, sdl: 0, schema: 0, physics: 0 }
    }
}

/// Addresses of the interfaces the game exports.
#[derive(Debug, Clone, Copy, PartialEq, Eq, Structural)]
pub struct InterfaceOffsets {
    pub resource: usize,
    pub entity: usize,
    pub cvar: usize,
    pub input: usize,
}

impl Default for InterfaceOffsets {
    fn default() -> (r: Self)
        ensures
            r == (InterfaceOffsets { resource: 0, entity: 0, cvar: 0, input: 0 }),
    {
        InterfaceOffsets { resource: 0, entity: 0, cvar: 0, input: 0 }
    }
}

/// Addresses of global objects, found by scanning or fixed.
#[derive(Debug, Clone, Copy, PartialEq, Eq, Structural)]
pub struct DirectOffsets {
    pub local_player: usize,
    pub entity_list: usize,
    pub view_matrix: usize,
    pub button_state: usize,
    pub sdl_window: usize,
    pub global_vars: usize,
    pub vphys_world: usize,
    pub build_date: usize,
}

impl Default for DirectOffsets {
    fn default() -> (r: Self)
        ensures
            r == (DirectOffsets { local_player: 0, entity_list: 0, view_matrix: 0, button_state: 0, sdl_window: 0, global_vars: 0, vphys_world: 0, build_date: 0 }),
    {
        DirectOffsets { local_player: 0, entity_list: 0, view_matrix: 0, button_state: 0, sdl_window: 0, global_vars: 0, vphys_world: 0, build_date: 0 }
    }
}

/// Addresses of console variables.
#[derive(Debug, Clone, Copy, PartialEq, Eq, Structural)]
pub struct ConvarOffsets {
    pub ffa: usize,
    pub sensitivity: usize,
}

impl Default for ConvarOffsets {
    fn default() -> (r: Self)
        ensures
            r == (ConvarOffsets { ffa: 0, sensitivity: 0 }),
    {
        ConvarOffsets { ffa: 0, sensitivity: 0 }
    }
}

/// Field offsets of a player controller.
#[derive(Debug, Clone, Copy, PartialEq, Eq, Structural)]
pub struct PlayerControllerOffsets {
    pub steam_id: usize,
    pub money_services: usize,
    pub money: usize,
    pub color: usize,
    pub name: usize,
    pub pawn: usize,
    pub desired_fov: usize,
    pub owner_entity: usize,
    pub rank: usize,
    pub rank_type: usize,
    pub action_tracking_services: usize,
}

impl Default for PlayerControllerOffsets {
    fn default() -> (r: Self)
        ensures
            r == (PlayerControllerOffsets { steam_id: 0, money_services: 0, money: 0, color: 0, name: 0, pawn: 0, desired_fov: 0, owner_entity: 0, rank: 0, rank_type: 0, action_tracking_services: 0 }),
    {
        PlayerControllerOffsets { steam_id: 0, money_services: 0, money: 0, color: 0, name: 0, pawn: 0, desired_fov: 0, owner_entity: 0, rank: 0, rank_type: 0, action_tracking_services: 0 }
    }
}

impl PlayerControllerOffsets {
    /// The offsets of this group in the game build this library targets.
    pub open spec fn spec_csgo() -> Self {
        PlayerControllerOffsets { steam_id: 0x1E8, money_services: 0x1F0, money: 0x1F0, color: 0x204, name: 0x210, pawn: 0x1C8, desired_fov: 0x238, owner_entity: 0xF4, rank: 0x1324, rank_type: 0x1328, action_tracking_services: 0x1288 }
    }

    /// Builds the group from the offsets of the game build this library targets.
    pub fn csgo() -> (r: Self)
        ensures
            r == Self::spec_csgo(),
    {
        PlayerControllerOffsets { steam_id: 0x1E8, money_services: 0x1F0, money: 0x1F0, color: 0x204, name: 0x210, pawn: 0x1C8, desired_fov: 0x238, owner_entity: 0xF4, rank: 0x1324, rank_type: 0x1328, action_tracking_services: 0x1288 }
    }
}

/// Field offsets of a player entity.
#[derive(Debug, Clone, Copy, PartialEq, Eq, Structural)]
pub struct EntityOffsets {
    pub health: usize,
    pub max_health: usize,
    pub team: usize,
    pub life_state: usize,
    pub game_scene_node: usize,
    pub velocity: usize,
    pub collision: usize,
}

impl Default for EntityOffsets {
    fn default() -> (r: Self)
        ensures
            r == (EntityOffsets { health: 0, max_health: 0, team: 0, life_state: 0, game_scene_node: 0, velocity: 0, collision: 0 }),
    {
        EntityOffsets { health: 0, max_health: 0, team: 0, life_state: 0, game_scene_node: 0, velocity: 0, collision: 0 }
    }
}

impl EntityOffsets {
    /// The offsets of this group in the game build this library targets.
    pub open spec fn spec_csgo() -> Self {
        EntityOffsets { health: 0x100, max_health: 0x108, team: 0xF4, life_state: 0x25F, game_scene_node: 0x318, velocity: 0x114, collision: 0x310 }
    }

    /// Builds the group from the offsets of the game build this library targets.
    pub fn csgo() -> (r: Self)
        ensures
            r == Self::spec_csgo(),
    {
        EntityOffsets { health: 0x100, max_health: 0x108, team: 0xF4, life_state: 0x25F, game_scene_node: 0x318, velocity: 0x114, collision: 0x310 }
    }
}

/// Field offsets of a collision property.
#[derive(Debug, Clone, Copy, PartialEq, Eq, Structural)]
pub struct CollisionOffsets {
    pub mins: usize,
    pub maxs: usize,
}

impl Default for CollisionOffsets {
    fn default() -> (r: Self)
        ensures
            r == (CollisionOffsets { mins: 0, maxs: 0 }),
    {
        CollisionOffsets { mins: 0, maxs: 0 }
    }
}

impl CollisionOffsets {
    /// The offsets of this group in the game build this library targets.
    pub open spec fn spec_csgo() -> Self {
        CollisionOffsets { mins: 0x8, maxs: 0x14 }
    }

    /// Builds the group from the offsets of the game build this library targets.
    pub fn csgo() -> (r: Self)
        ensures
            r == Self::spec_csgo(),
    {
        CollisionOffsets { mins: 0x8, maxs: 0x14 }
    }
}

/// Field offsets of a player pawn.
#[derive(Debug, Clone, Copy, PartialEq, Eq, Structural)]
pub struct PawnOffsets {
    pub controller: usize,
    pub armor: usize,
    pub fov_multiplier: usize,
    pub eye_offset: usize,
    pub shots_fired: usize,
    pub view_angles: usize,
    pub eye_angles: usize,
    pub flags: usize,
    pub crosshair_entity: usize,
    pub is_scoped: usize,
    pub deathmatch_immunity: usize,
    pub observer_services: usize,
    pub spotted_state: usize,
    pub flash_alpha: usize,
    pub flash_duration: usize,
    pub camera_services: usize,
    pub item_services: usize,
    pub weapon_services: usize,
    pub aim_punch_services: usize,
    pub bullet_services: usize,
}

impl Default for PawnOffsets {
    fn default() -> (r: Self)
        ensures
            r == (PawnOffsets { controller: 0, armor: 0, fov_multiplier: 0, eye_offset: 0, shots_fired: 0, view_angles: 0, eye_angles: 0, flags: 0, crosshair_entity: 0, is_scoped: 0, deathmatch_immunity: 0, observer_services: 0, spotted_state: 0, flash_alpha: 0, flash_duration: 0, camera_services: 0, item_services: 0, weapon_services: 0, aim_punch_services: 0, bullet_services: 0 }),
    {
        PawnOffsets { controller: 0, armor: 0, fov_multiplier: 0, eye_offset: 0, shots_fired: 0, view_angles: 0, eye_angles: 0, flags: 0, crosshair_entity: 0, is_scoped: 0, deathmatch_immunity: 0, observer_services: 0, spotted_state: 0, flash_alpha: 0, flash_duration: 0, camera_services: 0, item_services: 0, weapon_services: 0, aim_punch_services: 0, bullet_services: 0 }
    }
}

impl PawnOffsets {
    /// The offsets of this group in the game build this library targets.
    pub open spec fn spec_csgo() -> Self {
        PawnOffsets { controller: 0x1A0, armor: 0x104, fov_multiplier: 0x110, eye_offset: 0x10C, shots_fired: 0x29C, view_angles: 0x288, eye_angles: 0x290, flags: 0x100, crosshair_entity: 0x2A8, is_scoped: 0x2A0, deathmatch_immunity: 0x2A4, observer_services: 0x340, spotted_state: 0x350, flash_alpha: 0x20C, flash_duration: 0x210, camera_services: 0x330, item_services: 0x328, weapon_services: 0x320, aim_punch_services: 0x360, bullet_services: 0x370 }
    }

    /// Builds the group from the offsets of the game build this library targets.
    pub fn csgo() -> (r: Self)
        ensures
            r == Self::spec_csgo(),
    {
        PawnOffsets { controller: 0x1A0, armor: 0x104, fov_multiplier: 0x110, eye_offset: 0x10C, shots_fired: 0x29C, view_angles: 0x288, eye_angles: 0x290, flags: 0x100, crosshair_entity: 0x2A8, is_scoped: 0x2A0, deathmatch_immunity: 0x2A4, observer_services: 0x340, spotted_state: 0x350, flash_alpha: 0x20C, flash_duration: 0x210, camera_services: 0x330, item_services: 0x328, weapon_services: 0x320, aim_punch_services: 0x360, bullet_services: 0x370 }
    }
}

/// Field offsets of a game scene node.
#[derive(Debug, Clone, Copy, PartialEq, Eq, Structural)]
pub struct GameSceneNodeOffsets {
    pub dormant: usize,
    pub origin: usize,
    pub node_to_world: usize,
    pub model_state: usize,
    pub model_name: usize,
}

impl Default for GameSceneNodeOffsets {
    fn default() -> (r: Self)
        ensures
            r == (GameSceneNodeOffsets { dormant: 0, origin: 0, node_to_world: 0, model_state: 0, model_name: 0 }),
    {
        GameSceneNodeOffsets { dormant: 0, origin: 0, node_to_world: 0, model_state: 0, model_name: 0 }
    }
}

impl GameSceneNodeOffsets {
    /// The offsets of this group in the game build this library targets.
    pub open spec fn spec_csgo() -> Self {
        GameSceneNodeOffsets { dormant: 0xED, origin: 0x138, node_to_world: 0x30, model_state: 0x168, model_name: 0x8 }
    }

    /// Builds the group from the offsets of the game build this library targets.
    pub fn csgo() -> (r: Self)
        ensures
            r == Self::spec_csgo(),
    {
        GameSceneNodeOffsets { dormant: 0xED, origin: 0x138, node_to_world: 0x30, model_state: 0x168, model_name: 0x8 }
    }
}

/// Field offsets of a smoke grenade projectile.
#[derive(Debug, Clone, Copy, PartialEq, Eq, Structural)]
pub struct SmokeOffsets {
    pub did_smoke_effect: usize,
    pub smoke_color: usize,
}

impl Default for SmokeOffsets {
    fn default() -> (r: Self)
        ensures
            r == (SmokeOffsets { did_smoke_effect: 0, smoke_color: 0 }),
    {
        SmokeOffsets { did_smoke_effect: 0, smoke_color: 0 }
    }
}

impl SmokeOffsets {
    /// The offsets of this group in the game build this library targets.
    pub open spec fn spec_csgo() -> Self {
        SmokeOffsets { did_smoke_effect: 0x3E8, smoke_color: 0x3F0 }
    }

    /// Builds the group from the offsets of the game build this library targets.
    pub fn csgo() -> (r: Self)
        ensures
            r == Self::spec_csgo(),
    {
        SmokeOffsets { did_smoke_effect: 0x3E8, smoke_color: 0x3F0 }
    }
}

/// Field offsets of a molotov projectile.
#[derive(Debug, Clone, Copy, PartialEq, Eq, Structural)]
pub struct MolotovOffsets {
    pub is_incendiary: usize,
}

impl Default for MolotovOffsets {
    fn default() -> (r: Self)
        ensures
            r == (MolotovOffsets { is_incendiary: 0 }),
    {
        MolotovOffsets { is_incendiary: 0 }
    }
}

impl MolotovOffsets {
    /// The offsets of this group in the game build this library targets.
    pub open spec fn spec_csgo() -> Self {
        MolotovOffsets { is_incendiary: 0x3E8 }
    }

    /// Builds the group from the offsets of the game build this library targets.
    pub fn csgo() -> (r: Self)
        ensures
            r == Self::spec_csgo(),
    {
        MolotovOffsets { is_incendiary: 0x3E8 }
    }
}

/// Field offsets of a fire (inferno) entity.
#[derive(Debug, Clone, Copy, PartialEq, Eq, Structural)]
pub struct InfernoOffsets {
    pub is_burning: usize,
    pub fire_count: usize,
    pub fire_positions: usize,
}

impl Default for InfernoOffsets {
    fn default() -> (r: Self)
        ensures
            r == (InfernoOffsets { is_burning: 0, fire_count: 0, fire_positions: 0 }),
    {
        InfernoOffsets { is_burning: 0, fire_count: 0, fire_positions: 0 }
    }
}

impl InfernoOffsets {
    /// The offsets of this group in the game build this library targets.
    pub open spec fn spec_csgo() -> Self {
        InfernoOffsets { is_burning: 0x3E8, fire_count: 0x3F0, fire_positions: 0x3F8 }
    }

    /// Builds the group from the offsets of the game build this library targets.
    pub fn csgo() -> (r: Self)
        ensures
            r == Self::spec_csgo(),
    {
        InfernoOffsets { is_burning: 0x3E8, fire_count: 0x3F0, fire_positions: 0x3F8 }
    }
}

/// Field offsets of a spotted state.
#[derive(Debug, Clone, Copy, PartialEq, Eq, Structural)]
pub struct SpottedStateOffsets {
    pub spotted: usize,
    pub mask: usize,
}

impl Default for SpottedStateOffsets {
    fn default() -> (r: Self)
        ensures
            r == (SpottedStateOffsets { spotted: 0, mask: 0 }),
    {
        SpottedStateOffsets { spotted: 0, mask: 0 }
    }
}

impl SpottedStateOffsets {
    /// The offsets of this group in the game build this library targets.
    pub open spec fn spec_csgo() -> Self {
        SpottedStateOffsets { spotted: 0x0, mask: 0x1 }
    }

    /// Builds the group from the offsets of the game build this library targets.
    pub fn csgo() -> (r: Self)
        ensures
            r == Self::spec_csgo(),
    {
        SpottedStateOffsets { spotted: 0x0, mask: 0x1 }
    }
}

/// Field offsets of the camera services.
#[derive(Debug, Clone, Copy, PartialEq, Eq, Structural)]
pub struct CameraServicesOffsets {
    pub fov: usize,
}

impl Default for CameraServicesOffsets {
    fn default() -> (r: Self)
        ensures
            r == (CameraServicesOffsets { fov: 0 }),
    {
        CameraServicesOffsets { fov: 0 }
    }
}

impl CameraServicesOffsets {
    /// The offsets of this group in the game build this library targets.
    pub open spec fn spec_csgo() -> Self {
        CameraServicesOffsets { fov: 0x0 }
    }

    /// Builds the group from the offsets of the game build this library targets.
    pub fn csgo() -> (r: Self)
        ensures
            r == Self::spec_csgo(),
    {
        CameraServicesOffsets { fov: 0x0 }
    }
}

/// Field offsets of the item services.
#[derive(Debug, Clone, Copy, PartialEq, Eq, Structural)]
pub struct ItemServicesOffsets {
    pub has_defuser: usize,
    pub has_helmet: usize,
}

impl Default for ItemServicesOffsets {
    fn default() -> (r: Self)
        ensures
            r == (ItemServicesOffsets { has_defuser: 0, has_helmet: 0 }),
    {
        ItemServicesOffsets { has_defuser: 0, has_helmet: 0 }
    }
}

impl ItemServicesOffsets {
    /// The offsets of this group in the game build this library targets.
    pub open spec fn spec_csgo() -> Self {
        ItemServicesOffsets { has_defuser: 0x0, has_helmet: 0x4 }
    }

    /// Builds the group from the offsets of the game build this library targets.
    pub fn csgo() -> (r: Self)
        ensures
            r == Self::spec_csgo(),
    {
        ItemServicesOffsets { has_defuser: 0x0, has_helmet: 0x4 }
    }
}

/// Field offsets of the weapon services.
#[derive(Debug, Clone, Copy, PartialEq, Eq, Structural)]
pub struct WeaponServicesOffsets {
    pub weapons: usize,
    pub active_weapon: usize,
}

impl Default for WeaponServicesOffsets {
    fn default() -> (r: Self)
        ensures
            r == (WeaponServicesOffsets { weapons: 0, active_weapon: 0 }),
    {
        WeaponServicesOffsets { weapons: 0, active_weapon: 0 }
    }
}

impl WeaponServicesOffsets {
    /// The offsets of this group in the game build this library targets.
    pub open spec fn spec_csgo() -> Self {
        WeaponServicesOffsets { weapons: 0x0, active_weapon: 0x4 }
    }

    /// Builds the group from the offsets of the game build this library targets.
    pub fn csgo() -> (r: Self)
        ensures
            r == Self::spec_csgo(),
    {
        WeaponServicesOffsets { weapons: 0x0, active_weapon: 0x4 }
    }
}

/// Field offsets of the aim punch services.
#[derive(Debug, Clone, Copy, PartialEq, Eq, Structural)]
pub struct AimPunchServicesOffsets {
    pub aim_punch_cache: usize,
}

impl Default for AimPunchServicesOffsets {
    fn default() -> (r: Self)
        ensures
            r == (AimPunchServicesOffsets { aim_punch_cache: 0 }),
    {
        AimPunchServicesOffsets { aim_punch_cache: 0 }
    }
}

impl AimPunchServicesOffsets {
    /// The offsets of this group in the game build this library targets.
    pub open spec fn spec_csgo() -> Self {
        AimPunchServicesOffsets { aim_punch_cache: 0x0 }
    }

    /// Builds the group from the offsets of the game build this library targets.
    pub fn csgo() -> (r: Self)
        ensures
            r == Self::spec_csgo(),
    {
        AimPunchServicesOffsets { aim_punch_cache: 0x0 }
    }
}

/// Field offsets of the action tracking services.
#[derive(Debug, Clone, Copy, PartialEq, Eq, Structural)]
pub struct ActionTrackingServicesOffsets {
    pub round_kills: usize,
    pub round_damage: usize,
    pub per_round_stats: usize,
}

impl Default for ActionTrackingServicesOffsets {
    fn default() -> (r: Self)
        ensures
            r == (ActionTrackingServicesOffsets { round_kills: 0, round_damage: 0, per_round_stats: 0 }),
    {
        ActionTrackingServicesOffsets { round_kills: 0, round_damage: 0, per_round_stats: 0 }
    }
}

impl ActionTrackingServicesOffsets {
    /// The offsets of this group in the game build this library targets.
    pub open spec fn spec_csgo() -> Self {
        ActionTrackingServicesOffsets { round_kills: 0x0, round_damage: 0x4, per_round_stats: 0x8 }
    }

    /// Builds the group from the offsets of the game build this library targets.
    pub fn csgo() -> (r: Self)
        ensures
            r == Self::spec_csgo(),
    {
        ActionTrackingServicesOffsets { round_kills: 0x0, round_damage: 0x4, per_round_stats: 0x8 }
    }
}

/// Field offsets of the bullet services.
#[derive(Debug, Clone, Copy, PartialEq, Eq, Structural)]
pub struct BulletServicesOffsets {
    pub total_hits: usize,
}

impl Default for BulletServicesOffsets {
    fn default() -> (r: Self)
        ensures
            r == (BulletServicesOffsets { total_hits: 0 }),
    {
        BulletServicesOffsets { total_hits: 0 }
    }
}

impl BulletServicesOffsets {
    /// The offsets of this group in the game build this library targets.
    pub open spec fn spec_csgo() -> Self {
        BulletServicesOffsets { total_hits: 0x0 }
    }

    /// Builds the group from the offsets of the game build this library targets.
    pub fn csgo() -> (r: Self)
        ensures
            r == Self::spec_csgo(),
    {
        BulletServicesOffsets { total_hits: 0x0 }
    }
}

/// Field offsets of the per-round statistics.
#[derive(Debug, Clone, Copy, PartialEq, Eq, Structural)]
pub struct PerRoundStatsOffsets {
    pub kills: usize,
    pub deaths: usize,
    pub assists: usize,
    pub damage: usize,
    pub size: usize,
}

impl Default for PerRoundStatsOffsets {
    fn default() -> (r: Self)
        ensures
            r == (PerRoundStatsOffsets { kills: 0, deaths: 0, assists: 0, damage: 0, size: 0 }),
    {
        PerRoundStatsOffsets { kills: 0, deaths: 0, assists: 0, damage: 0, size: 0 }
    }
}

impl PerRoundStatsOffsets {
    /// The offsets of this group in the game build this library targets.
    pub open spec fn spec_csgo() -> Self {
        PerRoundStatsOffsets { kills: 0x0, deaths: 0x4, assists: 0x8, damage: 0xC, size: 0x20 }
    }

    /// Builds the group from the offsets of the game build this library targets.
    pub fn csgo() -> (r: Self)
        ensures
            r == Self::spec_csgo(),
    {
        PerRoundStatsOffsets { kills: 0x0, deaths: 0x4, assists: 0x8, damage: 0xC, size: 0x20 }
    }
}

/// Field offsets of the observer services.
#[derive(Debug, Clone, Copy, PartialEq, Eq, Structural)]
pub struct ObserverServicesOffsets {
    pub target: usize,
}

impl Default for ObserverServicesOffsets {
    fn default() -> (r: Self)
        ensures
            r == (ObserverServicesOffsets { target: 0 }),
    {
        ObserverServicesOffsets { target: 0 }
    }
}

impl ObserverServicesOffsets {
    /// The offsets of this group in the game build this library targets.
    pub open spec fn spec_csgo() -> Self {
        ObserverServicesOffsets { target: 0x0 }
    }

    /// Builds the group from the offsets of the game build this library targets.
    pub fn csgo() -> (r: Self)
        ensures
            r == Self::spec_csgo(),
    {
        ObserverServicesOffsets { target: 0x0 }
    }
}

/// Field offsets of an econ item view.
#[derive(Debug, Clone, Copy, PartialEq, Eq, Structural)]
pub struct EconItemViewOffsets {
    pub item_definition_index: usize,
}

impl Default for EconItemViewOffsets {
    fn default() -> (r: Self)
        ensures
            r == (EconItemViewOffsets { item_definition_index: 0 }),
    {
        EconItemViewOffsets { item_definition_index: 0 }
    }
}

impl EconItemViewOffsets {
    /// The offsets of this group in the game build this library targets.
    pub open spec fn spec_csgo() -> Self {
        EconItemViewOffsets { item_definition_index: 0x0 }
    }

    /// Builds the group from the offsets of the game build this library targets.
    pub fn csgo() -> (r: Self)
        ensures
            r == Self::spec_csgo(),
    {
        EconItemViewOffsets { item_definition_index: 0x0 }
    }
}

/// Field offsets of a weapon.
#[derive(Debug, Clone, Copy, PartialEq, Eq, Structural)]
pub struct WeaponOffsets {
    pub attribute_manager: usize,
    pub item: usize,
    pub item_definition_index: usize,
    pub clip_primary: usize,
    pub reserve_ammo: usize,
}

impl Default for WeaponOffsets {
    fn default() -> (r: Self)
        ensures
            r == (WeaponOffsets { attribute_manager: 0, item: 0, item_definition_index: 0, clip_primary: 0, reserve_ammo: 0 }),
    {
        WeaponOffsets { attribute_manager: 0, item: 0, item_definition_index: 0, clip_primary: 0, reserve_ammo: 0 }
    }
}

impl WeaponOffsets {
    /// The offsets of this group in the game build this library targets.
    pub open spec fn spec_csgo() -> Self {
        WeaponOffsets { attribute_manager: 0x0, item: 0x0, item_definition_index: 0x0, clip_primary: 0x0, reserve_ammo: 0x0 }
    }

    /// Builds the group from the offsets of the game build this library targets.
    pub fn csgo() -> (r: Self)
        ensures
            r == Self::spec_csgo(),
    {
        WeaponOffsets { attribute_manager: 0x0, item: 0x0, item_definition_index: 0x0, clip_primary: 0x0, reserve_ammo: 0x0 }
    }
}

/// Field offsets of a planted bomb.
#[derive(Debug, Clone, Copy, PartialEq, Eq, Structural)]
pub struct PlantedC4Offsets {
    pub is_ticking: usize,
    pub blow_time: usize,
    pub being_defused: usize,
    pub is_defused: usize,
    pub has_exploded: usize,
    pub defuse_time: usize,
    pub defuse_time_left: usize,
}

impl Default for PlantedC4Offsets {
    fn default() -> (r: Self)
        ensures
            r == (PlantedC4Offsets { is_ticking: 0, blow_time: 0, being_defused: 0, is_defused: 0, has_exploded: 0, defuse_time: 0, defuse_time_left: 0 }),
    {
        PlantedC4Offsets { is_ticking: 0, blow_time: 0, being_defused: 0, is_defused: 0, has_exploded: 0, defuse_time: 0, defuse_time_left: 0 }
    }
}

impl PlantedC4Offsets {
    /// The offsets of this group in the game build this library targets.
    pub open spec fn spec_csgo() -> Self {
        PlantedC4Offsets { is_ticking: 0x3E8, blow_time: 0x3F0, being_defused: 0x3F8, is_defused: 0x3FC, has_exploded: 0x400, defuse_time: 0x404, defuse_time_left: 0x408 }
    }

    /// Builds the group from the offsets of the game build this library targets.
    pub fn csgo() -> (r: Self)
        ensures
            r == Self::spec_csgo(),
    {
        PlantedC4Offsets { is_ticking: 0x3E8, blow_time: 0x3F0, being_defused: 0x3F8, is_defused: 0x3FC, has_exploded: 0x400, defuse_time: 0x404, defuse_time_left: 0x408 }
    }
}

/// Field offsets of a model state.
#[derive(Debug, Clone, Copy, PartialEq, Eq, Structural)]
pub struct ModelState {
    pub skeleton_instance: usize,
}

impl Default for ModelState {
    fn default() -> (r: Self)
        ensures
            r == (ModelState { skeleton_instance: 0 }),
    {
        ModelState { skeleton_instance: 0 }
    }
}

impl ModelState {
    /// The offsets of this group in the game build this library targets.
    pub open spec fn spec_csgo() -> Self {
        ModelState { skeleton_instance: 0x0 }
    }

    /// Builds the group from the offsets of the game build this library targets.
    pub fn csgo() -> (r: Self)
        ensures
            r == Self::spec_csgo(),
    {
        ModelState { skeleton_instance: 0x0 }
    }
}

/// Field offsets of a networked velocity.
#[derive(Debug, Clone, Copy, PartialEq, Eq, Structural)]
pub struct NetworkVelocityOffsets {
    pub x: usize,
    pub y: usize,
    pub z: usize,
}

impl Default for NetworkVelocityOffsets {
    fn default() -> (r: Self)
        ensures
            r == (NetworkVelocityOffsets { x: 0, y: 0, z: 0 }),
    {
        NetworkVelocityOffsets { x: 0, y: 0, z: 0 }
    }
}

impl NetworkVelocityOffsets {
    /// The offsets of this group in the game build this library targets.
    pub open spec fn spec_csgo() -> Self {
        NetworkVelocityOffsets { x: 0x10, y: 0x18, z: 0x20 }
    }

    /// Builds the group from the offsets of the game build this library targets.
    pub fn csgo() -> (r: Self)
        ensures
            r == Self::spec_csgo(),
    {
        NetworkVelocityOffsets { x: 0x10, y: 0x18, z: 0x20 }
    }
}

/// Field offsets of an entity identity.
#[derive(Debug, Clone, Copy, PartialEq, Eq, Structural)]
pub struct EntityIdentityOffsets {
    pub size: usize,
}

impl Default for EntityIdentityOffsets {
    fn default() -> (r: Self)
        ensures
            r == (EntityIdentityOffsets { size: 0 }),
    {
        EntityIdentityOffsets { size: 0 }
    }
}

impl EntityIdentityOffsets {
    /// The offsets of this group in the game build this library targets.
    pub open spec fn spec_csgo() -> Self {
        EntityIdentityOffsets { size: 0x50 }
    }

    /// Builds the group from the offsets of the game build this library targets.
    pub fn csgo() -> (r: Self)
        ensures
            r == Self::spec_csgo(),
    {
        EntityIdentityOffsets { size: 0x50 }
    }
}

/// Field offsets of a physics hull.
#[derive(Debug, Clone, Copy, PartialEq, Eq, Structural)]
pub struct PhysHullOffsets {
    pub vertices: usize,
    pub edges: usize,
    pub faces: usize,
    pub flags: usize,
}

impl Default for PhysHullOffsets {
    fn default() -> (r: Self)
        ensures
            r == (PhysHullOffsets { vertices: 0, edges: 0, faces: 0, flags: 0 }),
    {
        PhysHullOffsets { vertices: 0, edges: 0, faces: 0, flags: 0 }
    }
}

impl PhysHullOffsets {
    /// The offsets of this group in the game build this library targets.
    pub open spec fn spec_csgo() -> Self {
        PhysHullOffsets { vertices: 0x0, edges: 0x8, faces: 0x10, flags: 0x18 }
    }

    /// Builds the group from the offsets of the game build this library targets.
    pub fn csgo() -> (r: Self)
        ensures
            r == Self::spec_csgo(),
    {
        PhysHullOffsets { vertices: 0x0, edges: 0x8, faces: 0x10, flags: 0x18 }
    }
}

/// Field offsets of a physics mesh.
#[derive(Debug, Clone, Copy, PartialEq, Eq, Structural)]
pub struct PhysMeshOffsets {
    pub vertices: usize,
    pub triangles: usize,
    pub materials: usize,
    pub flags: usize,
}

impl Default for PhysMeshOffsets {
    fn default() -> (r: Self)
        ensures
            r == (PhysMeshOffsets { vertices: 0, triangles: 0, materials: 0, flags: 0 }),
    {
        PhysMeshOffsets { vertices: 0, triangles: 0, materials: 0, flags: 0 }
    }
}

impl PhysMeshOffsets {
    /// The offsets of this group in the game build this library targets.
    pub open spec fn spec_csgo() -> Self {
        PhysMeshOffsets { vertices: 0x0, triangles: 0x8, materials: 0x10, flags: 0x18 }
    }

    /// Builds the group from the offsets of the game build this library targets.
    pub fn csgo() -> (r: Self)
        ensures
            r == Self::spec_csgo(),
    {
        PhysMeshOffsets { vertices: 0x0, triangles: 0x8, materials: 0x10, flags: 0x18 }
    }
}

/// Every offset the library knows of, group by group.
#[derive(Debug, Clone, Copy, PartialEq, Eq, Structural)]
pub struct Offsets {
    pub library: LibraryOffsets,
    pub interface: InterfaceOffsets,
    pub direct: DirectOffsets,
    pub convar: ConvarOffsets,
    pub controller: PlayerControllerOffsets,
    pub entity: EntityOffsets,
    pub collision: CollisionOffsets,
    pub pawn: PawnOffsets,
    pub game_scene_node: GameSceneNodeOffsets,
    pub smoke: SmokeOffsets,
    pub molotov: MolotovOffsets,
    pub inferno: InfernoOffsets,
    pub spotted_state: SpottedStateOffsets,
    pub camera_services: CameraServicesOffsets,
    pub item_services: ItemServicesOffsets,
    pub weapon_services: WeaponServicesOffsets,
    pub aim_punch_services: AimPunchServicesOffsets,
    pub action_tracking: ActionTrackingServicesOffsets,
    pub bullet_services: BulletServicesOffsets,
    pub per_round_stats: PerRoundStatsOffsets,
    pub observer_services: ObserverServicesOffsets,
    pub econ_item_view: EconItemViewOffsets,
    pub weapon: WeaponOffsets,
    pub planted_c4: PlantedC4Offsets,
    pub model_state: ModelState,
    pub network_velocity: NetworkVelocityOffsets,
    pub entity_identity: EntityIdentityOffsets,
    pub hull: PhysHullOffsets,
    pub mesh: PhysMeshOffsets,
}

impl Default for Offsets {
    fn default() -> (r: Self)
        ensures
            r.library == (LibraryOffsets { client: 0, engine: 0, tier0: 0, input: 0, sdl: 0, schema: 0, physics: 0 }),
            r.interface == (InterfaceOffsets { resource: 0, entity: 0, cvar: 0, input: 0 }),
            r.direct == (DirectOffsets { local_player: 0, entity_list: 0, view_matrix: 0, button_state: 0, sdl_window: 0, global_vars: 0, vphys_world: 0, build_date: 0 }),
            r.convar == (ConvarOffsets { ffa: 0, sensitivity: 0 }),
            r.controller == (PlayerControllerOffsets { steam_id: 0, money_services: 0, money: 0, color: 0, name: 0, pawn: 0, desired_fov: 0, owner_entity: 0, rank: 0, rank_type: 0, action_tracking_services: 0 }),
            r.entity == (EntityOffsets { health: 0, max_health: 0, team: 0, life_state: 0, game_scene_node: 0, velocity: 0, collision: 0 }),
            r.collision == (CollisionOffsets { mins: 0, maxs: 0 }),
            r.pawn == (PawnOffsets { controller: 0, armor: 0, fov_multiplier: 0, eye_offset: 0, shots_fired: 0, view_angles: 0, eye_angles: 0, flags: 0, crosshair_entity: 0, is_scoped: 0, deathmatch_immunity: 0, observer_services: 0, spotted_state: 0, flash_alpha: 0, flash_duration: 0, camera_services: 0, item_services: 0, weapon_services: 0, aim_punch_services: 0, bullet_services: 0 }),
            r.game_scene_node == (GameSceneNodeOffsets { dormant: 0, origin: 0, node_to_world: 0, model_state: 0, model_name: 0 }),
            r.smoke == (SmokeOffsets { did_smoke_effect: 0, smoke_color: 0 }),
            r.molotov == (MolotovOffsets { is_incendiary: 0 }),
            r.inferno == (InfernoOffsets { is_burning: 0, fire_count: 0, fire_positions: 0 }),
            r.spotted_state == (SpottedStateOffsets { spotted: 0, mask: 0 }),
            r.camera_services == (CameraServicesOffsets { fov: 0 }),
            r.item_services == (ItemServicesOffsets { has_defuser: 0, has_helmet: 0 }),
            r.weapon_services == (WeaponServicesOffsets { weapons: 0, active_weapon: 0 }),
            r.aim_punch_services == (AimPunchServicesOffsets { aim_punch_cache: 0 }),
            r.action_tracking == (ActionTrackingServicesOffsets { round_kills: 0, round_damage: 0, per_round_stats: 0 }),
            r.bullet_services == (BulletServicesOffsets { total_hits: 0 }),
            r.per_round_stats == (PerRoundStatsOffsets { kills: 0, deaths: 0, assists: 0, damage: 0, size: 0 }),
            r.observer_services == (ObserverServicesOffsets { target: 0 }),
            r.econ_item_view == (EconItemViewOffsets { item_definition_index: 0 }),
            r.weapon == (WeaponOffsets { attribute_manager: 0, item: 0, item_definition_index: 0, clip_primary: 0, reserve_ammo: 0 }),
            r.planted_c4 == (PlantedC4Offsets { is_ticking: 0, blow_time: 0, being_defused: 0, is_defused: 0, has_exploded: 0, defuse_time: 0, defuse_time_left: 0 }),
            r.model_state == (ModelState { skeleton_instance: 0 }),
            r.network_velocity == (NetworkVelocityOffsets { x: 0, y: 0, z: 0 }),
            r.entity_identity == (EntityIdentityOffsets { size: 0 }),
            r.hull == (PhysHullOffsets { vertices: 0, edges: 0, faces: 0, flags: 0 }),
            r.mesh == (PhysMeshOffsets { vertices: 0, triangles: 0, materials: 0, flags: 0 }),
    {
        Offsets {
            library: LibraryOffsets::default(),
            interface: InterfaceOffsets::default(),
            direct: DirectOffsets::default(),
            convar: ConvarOffsets::default(),
            controller: PlayerControllerOffsets::default(),
            entity: EntityOffsets::default(),
            collision: CollisionOffsets::default(),
            pawn: PawnOffsets::default(),
            game_scene_node: GameSceneNodeOffsets::default(),
            smoke: SmokeOffsets::default(),
            molotov: MolotovOffsets::default(),
            inferno: InfernoOffsets::default(),
            spotted_state: SpottedStateOffsets::default(),
            camera_services: CameraServicesOffsets::default(),
            item_services: ItemServicesOffsets::default(),
            weapon_services: WeaponServicesOffsets::default(),
            aim_punch_services: AimPunchServicesOffsets::default(),
            action_tracking: ActionTrackingServicesOffsets::default(),
            bullet_services: BulletServicesOffsets::default(),
            per_round_stats: PerRoundStatsOffsets::default(),
            observer_services: ObserverServicesOffsets::default(),
            econ_item_view: EconItemViewOffsets::default(),
            weapon: WeaponOffsets::default(),
            planted_c4: PlantedC4Offsets::default(),
            model_state: ModelState::default(),
            network_velocity: NetworkVelocityOffsets::default(),
            entity_identity: EntityIdentityOffsets::default(),
            hull: PhysHullOffsets::default(),
            mesh: PhysMeshOffsets::default(),
        }
    }
}

} // verus!
