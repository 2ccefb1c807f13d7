//! What holds of every search, whatever the game answers.

use vstd::prelude::*;

use crate::constants::cs2::{
    CLIENT_LIB, ENGINE_LIB, INPUT_LIB, PHYSICS_LIB, SCHEMA_LIB, SDL_LIB, TIER0_LIB,
};
use crate::cs2::offset_types::{
    ActionTrackingServicesOffsets, AimPunchServicesOffsets, BulletServicesOffsets,
    CameraServicesOffsets, CollisionOffsets, EconItemViewOffsets, EntityIdentityOffsets,
    EntityOffsets, GameSceneNodeOffsets, InfernoOffsets, ItemServicesOffsets, ModelState,
    MolotovOffsets, NetworkVelocityOffsets, ObserverServicesOffsets, Offsets, PawnOffsets,
    PerRoundStatsOffsets, PhysHullOffsets, PhysMeshOffsets, PlantedC4Offsets,
    PlayerControllerOffsets, SmokeOffsets, SpottedStateOffsets, WeaponOffsets,
    WeaponServicesOffsets,
};
use crate::cs2::offsets::{
    reply_value, spec_admits, spec_found_offsets, spec_progress, spec_query, well_formed, Progress, Query,
    BUILD_DATE_PATTERN, BUTTON_STATE_FUNCTION, BUTTON_STATE_OFFSET, CVAR_INTERFACE,
    ENTITY_LIST_ADD, ENTITY_SYSTEM_OFFSET, FFA_CONVAR, GLOBAL_VARS_PATTERN, INPUT_INTERFACE,
    RESOURCE_INTERFACE, SDL_WINDOW_EXPORT, SEARCH_STEPS, SENSITIVITY_CONVAR, VPHYS_WORLD_PATTERN,
};

verus! {

/// The answers of a search in which every lookup succeeded.
pub open spec fn succeeded(r: Seq<Option<usize>>) -> bool {
    &&& well_formed(r)
    &&& r.len() == SEARCH_STEPS
    &&& forall|i: int| 0 <= i < r.len() ==> (#[trigger] r[i]) is Some
}

/// A search asks at most `SEARCH_STEPS` lookups: it waits for an answer
/// exactly while fewer have been given and none of them failed.
pub proof fn lemma_search_is_bounded(r: Seq<Option<usize>>)
    requires
        well_formed(r),
    ensures
        spec_progress(r) is Pending <==> (r.len() < SEARCH_STEPS && (r.len() > 0
            ==> r.last() is Some)),
{
}

/// A lookup that fails ends the search without offsets, and the search asks
/// nothing after it.
pub proof fn lemma_failed_lookup_ends_search(r: Seq<Option<usize>>, i: int)
    requires
        well_formed(r),
        0 <= i < r.len(),
        r[i] is None,
    ensures
        i == r.len() - 1,
        spec_progress(r) == Progress::Finished(None),
{
}

/// A search finds offsets only when every lookup it made succeeded, and then
/// it finds the offsets that its answers determine.
pub proof fn lemma_offsets_need_every_lookup(r: Seq<Option<usize>>, o: Offsets)
    requires
        well_formed(r),
        spec_progress(r) == Progress::Finished(Some(o)),
    ensures
        succeeded(r),
        o == spec_found_offsets(r),
{
    assert forall|i: int| 0 <= i < r.len() implies (#[trigger] r[i]) is Some by {
        if i == r.len() - 1 {
            assert(r[i] == r.last());
        }
    }
}

/// The offsets that no lookup finds are the same whatever the game answered.
pub proof fn lemma_fixed_offsets_do_not_depend_on_game(
    r1: Seq<Option<usize>>,
    r2: Seq<Option<usize>>,
)
    requires
        succeeded(r1),
        succeeded(r2),
    ensures
        ({
            let o1 = spec_found_offsets(r1);
            let o2 = spec_found_offsets(r2);
            &&& o1.direct.local_player == o2.direct.local_player
            &&& o1.direct.entity_list == o2.direct.entity_list
            &&& o1.direct.view_matrix == o2.direct.view_matrix
            &&& o1.controller == o2.controller
            &&& o1.entity == o2.entity
            &&& o1.collision == o2.collision
            &&& o1.pawn == o2.pawn
            &&& o1.game_scene_node == o2.game_scene_node
            &&& o1.smoke == o2.smoke
            &&& o1.molotov == o2.molotov
            &&& o1.inferno == o2.inferno
            &&& o1.spotted_state == o2.spotted_state
            &&& o1.camera_services == o2.camera_services
            &&& o1.item_services == o2.item_services
            &&& o1.weapon_services == o2.weapon_services
            &&& o1.aim_punch_services == o2.aim_punch_services
            &&& o1.action_tracking == o2.action_tracking
            &&& o1.bullet_services == o2.bullet_services
            &&& o1.per_round_stats == o2.per_round_stats
            &&& o1.observer_services == o2.observer_services
            &&& o1.econ_item_view == o2.econ_item_view
            &&& o1.weapon == o2.weapon
            &&& o1.planted_c4 == o2.planted_c4
            &&& o1.model_state == o2.model_state
            &&& o1.network_velocity == o2.network_velocity
            &&& o1.entity_identity == o2.entity_identity
            &&& o1.hull == o2.hull
            &&& o1.mesh == o2.mesh
        }),
{
}

proof fn lemma_earlier_answers(r: Seq<Option<usize>>, k: int)
    requires
        0 <= k <= r.len(),
    ensures
        r.take(k).len() == k,
        forall|j: int| 0 <= j < k ==> reply_value(r.take(k), j) == #[trigger] reply_value(r, j),
{
}

/// Every offset that a successful search finds is the answer to the lookup
/// that the offset's entry prescribes, made with the addresses found before
/// it: the library bases come first, the interfaces are looked up in their
/// libraries, the scans search the engine, the console variables are looked
/// up through the console variable interface, and the search ends by
/// opening the schema system and its client and physics scopes.
pub proof fn lemma_found_offsets_follow_lookups(r: Seq<Option<usize>>)
    requires
        succeeded(r),
    ensures
        ({
            let o = spec_found_offsets(r);
            &&& spec_query(r.take(0)) == Query::ModuleBase { name: CLIENT_LIB }
            &&& r[0] == Some(o.library.client)
            &&& spec_query(r.take(1)) == Query::ModuleBase { name: ENGINE_LIB }
            &&& r[1] == Some(o.library.engine)
            &&& spec_query(r.take(2)) == Query::ModuleBase { name: TIER0_LIB }
            &&& r[2] == Some(o.library.tier0)
            &&& spec_query(r.take(3)) == Query::ModuleBase { name: INPUT_LIB }
            &&& r[3] == Some(o.library.input)
            &&& spec_query(r.take(4)) == Query::ModuleBase { name: SDL_LIB }
            &&& r[4] == Some(o.library.sdl)
            &&& spec_query(r.take(5)) == Query::ModuleBase { name: SCHEMA_LIB }
            &&& r[5] == Some(o.library.schema)
            &&& spec_query(r.take(6)) == Query::ModuleBase { name: PHYSICS_LIB }
            &&& r[6] == Some(o.library.physics)
            &&& spec_query(r.take(7)) == Query::InterfaceOffset {
                library: o.library.engine,
                name: RESOURCE_INTERFACE,
                field: "resource",
            }
            &&& r[7] == Some(o.interface.resource)
            &&& spec_query(r.take(8)) == Query::ReadUsize {
                address: (o.interface.resource + ENTITY_SYSTEM_OFFSET) as usize,
            }
            &&& o.interface.entity == reply_value(r, 8) + ENTITY_LIST_ADD
            &&& spec_query(r.take(9)) == Query::InterfaceOffset {
                library: o.library.tier0,
                name: CVAR_INTERFACE,
                field: "cvar",
            }
            &&& r[9] == Some(o.interface.cvar)
            &&& spec_query(r.take(10)) == Query::InterfaceOffset {
                library: o.library.input,
                name: INPUT_INTERFACE,
                field: "input",
            }
            &&& r[10] == Some(o.interface.input)
            &&& spec_query(r.take(11)) == Query::InterfaceFunction {
                interface: o.interface.input,
                index: BUTTON_STATE_FUNCTION,
            }
            &&& spec_query(r.take(12)) == Query::ReadU32 {
                address: (reply_value(r, 11) + BUTTON_STATE_OFFSET) as usize,
            }
            &&& r[12] == Some(o.direct.button_state)
            &&& spec_query(r.take(13)) == Query::ModuleExport {
                library: o.library.sdl,
                name: SDL_WINDOW_EXPORT,
                field: "sdl_window",
            }
            &&& spec_query(r.take(14)) == Query::RelativeAddress {
                address: reply_value(r, 13),
                offset: 0x02,
                instruction_size: 0x06,
            }
            &&& spec_query(r.take(15)) == Query::ReadUsize { address: reply_value(r, 14) }
            &&& spec_query(r.take(16)) == Query::RelativeAddress {
                address: reply_value(r, 15),
                offset: 0x03,
                instruction_size: 0x07,
            }
            &&& r[16] == Some(o.direct.sdl_window)
            &&& spec_query(r.take(17)) == Query::Scan {
                library: o.library.engine,
                pattern: GLOBAL_VARS_PATTERN,
                field: "global_vars",
            }
            &&& spec_query(r.take(18)) == Query::RelativeAddress {
                address: reply_value(r, 17),
                offset: 0x03,
                instruction_size: 0x07,
            }
            &&& r[18] == Some(o.direct.global_vars)
            &&& spec_query(r.take(19)) == Query::Scan {
                library: o.library.engine,
                pattern: VPHYS_WORLD_PATTERN,
                field: "vphys_world",
            }
            &&& spec_query(r.take(20)) == Query::RelativeAddress {
                address: reply_value(r, 19),
                offset: 3,
                instruction_size: 7,
            }
            &&& spec_query(r.take(21)) == Query::ReadUsize { address: reply_value(r, 20) }
            &&& r[21] == Some(o.direct.vphys_world)
            &&& spec_query(r.take(22)) == Query::Scan {
                library: o.library.engine,
                pattern: BUILD_DATE_PATTERN,
                field: "build_date",
            }
            &&& spec_query(r.take(23)) == Query::RelativeAddress {
                address: reply_value(r, 22),
                offset: 11,
                instruction_size: 15,
            }
            &&& r[23] == Some(o.direct.build_date)
            &&& spec_query(r.take(24)) == Query::Convar {
                cvar: o.interface.cvar,
                name: FFA_CONVAR,
                field: "ffa",
            }
            &&& r[24] == Some(o.convar.ffa)
            &&& spec_query(r.take(25)) == Query::Convar {
                cvar: o.interface.cvar,
                name: SENSITIVITY_CONVAR,
                field: "sensitivity",
            }
            &&& r[25] == Some(o.convar.sensitivity)
            &&& spec_query(r.take(26)) == Query::OpenSchema { library: o.library.schema }
            &&& spec_query(r.take(27)) == Query::SchemaLibrary { name: CLIENT_LIB }
            &&& spec_query(r.take(28)) == Query::SchemaLibrary { name: PHYSICS_LIB }
        }),
{
    lemma_earlier_answers(r, 0);
    lemma_earlier_answers(r, 1);
    lemma_earlier_answers(r, 2);
    lemma_earlier_answers(r, 3);
    lemma_earlier_answers(r, 4);
    lemma_earlier_answers(r, 5);
    lemma_earlier_answers(r, 6);
    lemma_earlier_answers(r, 7);
    lemma_earlier_answers(r, 8);
    lemma_earlier_answers(r, 9);
    lemma_earlier_answers(r, 10);
    lemma_earlier_answers(r, 11);
    lemma_earlier_answers(r, 12);
    lemma_earlier_answers(r, 13);
    lemma_earlier_answers(r, 14);
    lemma_earlier_answers(r, 15);
    lemma_earlier_answers(r, 16);
    lemma_earlier_answers(r, 17);
    lemma_earlier_answers(r, 18);
    lemma_earlier_answers(r, 19);
    lemma_earlier_answers(r, 20);
    lemma_earlier_answers(r, 21);
    lemma_earlier_answers(r, 22);
    lemma_earlier_answers(r, 23);
    lemma_earlier_answers(r, 24);
    lemma_earlier_answers(r, 25);
    lemma_earlier_answers(r, 26);
    lemma_earlier_answers(r, 27);
    lemma_earlier_answers(r, 28);
    assert(spec_admits(r.take(8), r[8]));
    assert forall|i: int| 0 <= i < r.len() implies r[i] == Some(reply_value(r, i)) by {
        assert(r[i] is Some);
    }
}

/// The groups of field offsets that no lookup finds hold the offsets of the
/// targeted game build, as the original's table gives them.
pub proof fn lemma_fixed_groups_are_the_targeted_build()
    ensures
        PlayerControllerOffsets::spec_csgo() == (PlayerControllerOffsets { steam_id: 0x1E8, money_services: 0x1F0, money: 0x1F0, color: 0x204, name: 0x210, pawn: 0x1C8, desired_fov: 0x238, owner_entity: 0xF4, rank: 0x1324, rank_type: 0x1328, action_tracking_services: 0x1288 }),
        EntityOffsets::spec_csgo() == (EntityOffsets { health: 0x100, max_health: 0x108, team: 0xF4, life_state: 0x25F, game_scene_node: 0x318, velocity: 0x114, collision: 0x310 }),
        CollisionOffsets::spec_csgo() == (CollisionOffsets { mins: 0x8, maxs: 0x14 }),
        PawnOffsets::spec_csgo() == (PawnOffsets { controller: 0x1A0, armor: 0x104, fov_multiplier: 0x110, eye_offset: 0x10C, shots_fired: 0x29C, view_angles: 0x288, eye_angles: 0x290, flags: 0x100, crosshair_entity: 0x2A8, is_scoped: 0x2A0, deathmatch_immunity: 0x2A4, observer_services: 0x340, spotted_state: 0x350, flash_alpha: 0x20C, flash_duration: 0x210, camera_services: 0x330, item_services: 0x328, weapon_services: 0x320, aim_punch_services: 0x360, bullet_services: 0x370 }),
        GameSceneNodeOffsets::spec_csgo() == (GameSceneNodeOffsets { dormant: 0xED, origin: 0x138, node_to_world: 0x30, model_state: 0x168, model_name: 0x8 }),
        SmokeOffsets::spec_csgo() == (SmokeOffsets { did_smoke_effect: 0x3E8, smoke_color: 0x3F0 }),
        MolotovOffsets::spec_csgo() == (MolotovOffsets { is_incendiary: 0x3E8 }),
        InfernoOffsets::spec_csgo() == (InfernoOffsets { is_burning: 0x3E8, fire_count: 0x3F0, fire_positions: 0x3F8 }),
        SpottedStateOffsets::spec_csgo() == (SpottedStateOffsets { spotted: 0x0, mask: 0x1 }),
        CameraServicesOffsets::spec_csgo() == (CameraServicesOffsets { fov: 0x0 }),
        ItemServicesOffsets::spec_csgo() == (ItemServicesOffsets { has_defuser: 0x0, has_helmet: 0x4 }),
        WeaponServicesOffsets::spec_csgo() == (WeaponServicesOffsets { weapons: 0x0, active_weapon: 0x4 }),
        AimPunchServicesOffsets::spec_csgo() == (AimPunchServicesOffsets { aim_punch_cache: 0x0 }),
        ActionTrackingServicesOffsets::spec_csgo() == (ActionTrackingServicesOffsets { round_kills: 0x0, round_damage: 0x4, per_round_stats: 0x8 }),
        BulletServicesOffsets::spec_csgo() == (BulletServicesOffsets { total_hits: 0x0 }),
        PerRoundStatsOffsets::spec_csgo() == (PerRoundStatsOffsets { kills: 0x0, deaths: 0x4, assists: 0x8, damage: 0xC, size: 0x20 }),
        ObserverServicesOffsets::spec_csgo() == (ObserverServicesOffsets { target: 0x0 }),
        EconItemViewOffsets::spec_csgo() == (EconItemViewOffsets { item_definition_index: 0x0 }),
        WeaponOffsets::spec_csgo() == (WeaponOffsets { attribute_manager: 0x0, item: 0x0, item_definition_index: 0x0, clip_primary: 0x0, reserve_ammo: 0x0 }),
        PlantedC4Offsets::spec_csgo() == (PlantedC4Offsets { is_ticking: 0x3E8, blow_time: 0x3F0, being_defused: 0x3F8, is_defused: 0x3FC, has_exploded: 0x400, defuse_time: 0x404, defuse_time_left: 0x408 }),
        ModelState::spec_csgo() == (ModelState { skeleton_instance: 0x0 }),
        NetworkVelocityOffsets::spec_csgo() == (NetworkVelocityOffsets { x: 0x10, y: 0x18, z: 0x20 }),
        EntityIdentityOffsets::spec_csgo() == (EntityIdentityOffsets { size: 0x50 }),
        PhysHullOffsets::spec_csgo() == (PhysHullOffsets { vertices: 0x0, edges: 0x8, faces: 0x10, flags: 0x18 }),
        PhysMeshOffsets::spec_csgo() == (PhysMeshOffsets { vertices: 0x0, triangles: 0x8, materials: 0x10, flags: 0x18 }),
{
}

/// Every successful search finds, besides its answers, the fixed offsets of
/// the targeted game build.
pub proof fn lemma_found_fixed_offsets(r: Seq<Option<usize>>)
    requires
        succeeded(r),
    ensures
        ({
            let o = spec_found_offsets(r);
            &&& o.direct.local_player == 0xDEA98C
            &&& o.direct.entity_list == 0x4DDC8F4
            &&& o.direct.view_matrix == 0x4D0F250
            &&& o.controller == (PlayerControllerOffsets { steam_id: 0x1E8, money_services: 0x1F0, money: 0x1F0, color: 0x204, name: 0x210, pawn: 0x1C8, desired_fov: 0x238, owner_entity: 0xF4, rank: 0x1324, rank_type: 0x1328, action_tracking_services: 0x1288 })
            &&& o.entity == (EntityOffsets { health: 0x100, max_health: 0x108, team: 0xF4, life_state: 0x25F, game_scene_node: 0x318, velocity: 0x114, collision: 0x310 })
            &&& o.collision == (CollisionOffsets { mins: 0x8, maxs: 0x14 })
            &&& o.pawn == (PawnOffsets { controller: 0x1A0, armor: 0x104, fov_multiplier: 0x110, eye_offset: 0x10C, shots_fired: 0x29C, view_angles: 0x288, eye_angles: 0x290, flags: 0x100, crosshair_entity: 0x2A8, is_scoped: 0x2A0, deathmatch_immunity: 0x2A4, observer_services: 0x340, spotted_state: 0x350, flash_alpha: 0x20C, flash_duration: 0x210, camera_services: 0x330, item_services: 0x328, weapon_services: 0x320, aim_punch_services: 0x360, bullet_services: 0x370 })
            &&& o.game_scene_node == (GameSceneNodeOffsets { dormant: 0xED, origin: 0x138, node_to_world: 0x30, model_state: 0x168, model_name: 0x8 })
            &&& o.smoke == (SmokeOffsets { did_smoke_effect: 0x3E8, smoke_color: 0x3F0 })
            &&& o.molotov == (MolotovOffsets { is_incendiary: 0x3E8 })
            &&& o.inferno == (InfernoOffsets { is_burning: 0x3E8, fire_count: 0x3F0, fire_positions: 0x3F8 })
            &&& o.spotted_state == (SpottedStateOffsets { spotted: 0x0, mask: 0x1 })
            &&& o.camera_services == (CameraServicesOffsets { fov: 0x0 })
            &&& o.item_services == (ItemServicesOffsets { has_defuser: 0x0, has_helmet: 0x4 })
            &&& o.weapon_services == (WeaponServicesOffsets { weapons: 0x0, active_weapon: 0x4 })
            &&& o.aim_punch_services == (AimPunchServicesOffsets { aim_punch_cache: 0x0 })
            &&& o.action_tracking == (ActionTrackingServicesOffsets { round_kills: 0x0, round_damage: 0x4, per_round_stats: 0x8 })
            &&& o.bullet_services == (BulletServicesOffsets { total_hits: 0x0 })
            &&& o.per_round_stats == (PerRoundStatsOffsets { kills: 0x0, deaths: 0x4, assists: 0x8, damage: 0xC, size: 0x20 })
            &&& o.observer_services == (ObserverServicesOffsets { target: 0x0 })
            &&& o.econ_item_view == (EconItemViewOffsets { item_definition_index: 0x0 })
            &&& o.weapon == (WeaponOffsets { attribute_manager: 0x0, item: 0x0, item_definition_index: 0x0, clip_primary: 0x0, reserve_ammo: 0x0 })
            &&& o.planted_c4 == (PlantedC4Offsets { is_ticking: 0x3E8, blow_time: 0x3F0, being_defused: 0x3F8, is_defused: 0x3FC, has_exploded: 0x400, defuse_time: 0x404, defuse_time_left: 0x408 })
            &&& o.model_state == (ModelState { skeleton_instance: 0x0 })
            &&& o.network_velocity == (NetworkVelocityOffsets { x: 0x10, y: 0x18, z: 0x20 })
            &&& o.entity_identity == (EntityIdentityOffsets { size: 0x50 })
            &&& o.hull == (PhysHullOffsets { vertices: 0x0, edges: 0x8, faces: 0x10, flags: 0x18 })
            &&& o.mesh == (PhysMeshOffsets { vertices: 0x0, triangles: 0x8, materials: 0x10, flags: 0x18 })
        }),
{
}

/// While a search waits, the lookup it names is the next one of its schedule
/// (see `lemma_found_offsets_follow_lookups`), made with the answers so far.
pub proof fn lemma_pending_search_names_scheduled_lookup(r: Seq<Option<usize>>)
    requires
        well_formed(r),
        spec_progress(r) is Pending,
    ensures
        spec_progress(r) == Progress::Pending(spec_query(r)),
{
}

/// The lookups that may fail are those that search for something: library
/// bases, interfaces, console variables, scans, exports and the schema
/// system. Reads, relative addresses and interface functions always give a
/// number.
pub proof fn lemma_fallible_lookups(q: Query)
    ensures
        !q.spec_always_answered() <==> (q is ModuleBase || q is InterfaceOffset || q is Convar
            || q is Scan || q is ModuleExport || q is OpenSchema || q is SchemaLibrary),
{
}

/// A waiting search accepts a failed answer exactly when its lookup is one
/// that searches for something; a failed answer then ends the search without
/// offsets.
pub proof fn lemma_failure_admitted_exactly_for_searches(r: Seq<Option<usize>>)
    requires
        well_formed(r),
        spec_progress(r) is Pending,
    ensures
        ({
            let q = spec_query(r);
            spec_admits(r, None) <==> (q is ModuleBase || q is InterfaceOffset || q is Convar
                || q is Scan || q is ModuleExport || q is OpenSchema || q is SchemaLibrary)
        }),
        spec_admits(r, None) ==> spec_progress(r.push(None)) == Progress::Finished(None),
{
}

/// Every failed answer a search received answered a lookup that searches for
/// something: reads, relative addresses and interface functions never end a
/// search without offsets.
pub proof fn lemma_failures_answer_searches(r: Seq<Option<usize>>, i: int)
    requires
        well_formed(r),
        0 <= i < r.len(),
        r[i] is None,
    ensures
        ({
            let q = spec_query(r.take(i));
            q is ModuleBase || q is InterfaceOffset || q is Convar || q is Scan
                || q is ModuleExport || q is OpenSchema || q is SchemaLibrary
        }),
{
    assert(spec_admits(r.take(i), r[i]));
}

} // verus!
