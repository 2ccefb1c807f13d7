//! The search for the game's offsets. The original reads the game's memory
//! lookup after lookup and stops at the first lookup that fails; here the
//! decisions are a state machine, [`CS2`], that says which lookup it needs
//! next and takes the game's answer. Whoever holds the game process performs
//! the lookups.

use vstd::prelude::*;

use crate::constants::cs2::{
    CLIENT_LIB, ENGINE_LIB, INPUT_LIB, PHYSICS_LIB, SCHEMA_LIB, SDL_LIB, TIER0_LIB,
};
use crate::cs2::offset_types::{
    ActionTrackingServicesOffsets, AimPunchServicesOffsets, BulletServicesOffsets,
    CameraServicesOffsets, CollisionOffsets, ConvarOffsets, DirectOffsets, EconItemViewOffsets,
    EntityIdentityOffsets, EntityOffsets, GameSceneNodeOffsets, InfernoOffsets, InterfaceOffsets,
    ItemServicesOffsets, LibraryOffsets, ModelState, MolotovOffsets, NetworkVelocityOffsets,
    ObserverServicesOffsets, Offsets, PawnOffsets, PerRoundStatsOffsets, PhysHullOffsets,
    PhysMeshOffsets, PlantedC4Offsets, PlayerControllerOffsets, SmokeOffsets,
    SpottedStateOffsets, WeaponOffsets, WeaponServicesOffsets,
};

verus! {

/// Number of lookups the search makes when none of them fails.
pub const SEARCH_STEPS: usize = 29;

/// Name under which the engine registers the game resource service.
pub const RESOURCE_INTERFACE: &'static str = "GameResourceServiceClientV0";

/// Name under which tier0 registers the console variable interface.
pub const CVAR_INTERFACE: &'static str = "VEngineCvar0";

/// Name under which the input system registers itself.
pub const INPUT_INTERFACE: &'static str = "InputSystemVersion0";

/// Where the game resource service holds the entity system.
pub const ENTITY_SYSTEM_OFFSET: usize = 0x50;

/// Distance from the entity system to its entity list.
pub const ENTITY_LIST_ADD: usize = 0x10;

/// Index of the input system function that reads the button state.
pub const BUTTON_STATE_FUNCTION: usize = 19;

/// Where that function's instruction holds the button state's offset.
pub const BUTTON_STATE_OFFSET: usize = 0x14;

/// The SDL export whose code leads to the focused window.
pub const SDL_WINDOW_EXPORT: &'static str = "SDL_GetKeyboardFocus";

/// Code that loads the address of the global variables.
pub const GLOBAL_VARS_PATTERN: &'static str = "48 8D 05 ? ? ? ? 45 31 E4 48 8B 00 8B 78 10";

/// Code that loads the address of the pointer to the physics world.
pub const VPHYS_WORLD_PATTERN: &'static str = "4c 8d 35 ? ? ? ? 49 8b 3e e8 ? ? ? ? 48 89 c2";

/// Code that loads the address of the build date.
pub const BUILD_DATE_PATTERN: &'static str = "4c 89 e6 e8 ? ? ? ? 48 8d 35 ? ? ? ? 48 8d 3d";

/// Console variable that says whether teammates count as enemies.
pub const FFA_CONVAR: &'static str = "mp_teammates_are_enemies";

/// Console variable that holds the mouse sensitivity.
pub const SENSITIVITY_CONVAR: &'static str = "sensitivity";

/// A lookup in the game process. Its answer is a number, or `None` where the
/// lookup found nothing; the queries for which `always_answered` holds cannot
/// fail. `field` names the offset being looked up, for the warning that a
/// failed lookup is reported with.
#[derive(Debug, Clone, Copy, PartialEq, Eq)]
pub enum Query {
    /// Base address of a loaded library.
    ModuleBase { name: &'static str },
    /// Address of the interface that the library at `library` registers as `name`.
    InterfaceOffset { library: usize, name: &'static str, field: &'static str },
    /// Address of the console variable `name`, through the interface at `cvar`.
    Convar { cvar: usize, name: &'static str, field: &'static str },
    /// First address in the library at `library` whose bytes match `pattern`
    /// (hexadecimal bytes, `?` for any byte).
    Scan { library: usize, pattern: &'static str, field: &'static str },
    /// Address of the symbol `name` that the library at `library` exports.
    ModuleExport { library: usize, name: &'static str, field: &'static str },
    /// Target of the relative operand at `address + offset` of the instruction
    /// at `address` that is `instruction_size` bytes long.
    RelativeAddress { address: usize, offset: usize, instruction_size: usize },
    /// The word stored at `address`.
    ReadUsize { address: usize },
    /// The 32-bit value stored at `address`.
    ReadU32 { address: usize },
    /// Address of function `index` of the interface at `interface`.
    InterfaceFunction { interface: usize, index: usize },
    /// Whether the schema system of the library at `library` can be opened
    /// (any number for yes).
    OpenSchema { library: usize },
    /// Whether the opened schema system knows the library `library` (any
    /// number for yes).
    SchemaLibrary { name: &'static str },
}

impl Query {
    /// The lookups that cannot fail: reads, relative addresses and interface
    /// functions always give a number.
    pub open spec fn spec_always_answered(self) -> bool {
        ||| self is RelativeAddress
        ||| self is ReadUsize
        ||| self is ReadU32
        ||| self is InterfaceFunction
    }

    /// Whether this lookup always gives a number.
    pub fn always_answered(&self) -> (b: bool)
        ensures
            b == self.spec_always_answered(),
    {
        match self {
            Query::RelativeAddress { .. } => true,
            Query::ReadUsize { .. } => true,
            Query::ReadU32 { .. } => true,
            Query::InterfaceFunction { .. } => true,
            _ => false,
        }
    }
}

/// Where the search stands.
#[derive(Debug, Clone, Copy, PartialEq, Eq)]
pub enum Progress {
    /// The search needs the answer to this lookup.
    Pending(Query),
    /// The search is over: the offsets, or `None` where a lookup failed.
    Finished(Option<Offsets>),
}

/// The number in the answer `i` of `r` (0 for a failed lookup).
pub open spec fn reply_value(r: Seq<Option<usize>>, i: int) -> usize {
    match r[i] {
        Some(v) => v,
        None => 0,
    }
}

/// The lookup the search makes after the answers `r`, while none failed.
pub open spec fn spec_query(r: Seq<Option<usize>>) -> Query {
    let n = r.len();
    if n == 0 {
        Query::ModuleBase { name: CLIENT_LIB }
    } else if n == 1 {
        Query::ModuleBase { name: ENGINE_LIB }
    } else if n == 2 {
        Query::ModuleBase { name: TIER0_LIB }
    } else if n == 3 {
        Query::ModuleBase { name: INPUT_LIB }
    } else if n == 4 {
        Query::ModuleBase { name: SDL_LIB }
    } else if n == 5 {
        Query::ModuleBase { name: SCHEMA_LIB }
    } else if n == 6 {
        Query::ModuleBase { name: PHYSICS_LIB }
    } else if n == 7 {
        Query::InterfaceOffset { library: reply_value(r, 1), name: RESOURCE_INTERFACE, field: "resource" }
    } else if n == 8 {
        Query::ReadUsize { address: (reply_value(r, 7) + ENTITY_SYSTEM_OFFSET) as usize }
    } else if n == 9 {
        Query::InterfaceOffset { library: reply_value(r, 2), name: CVAR_INTERFACE, field: "cvar" }
    } else if n == 10 {
        Query::InterfaceOffset { library: reply_value(r, 3), name: INPUT_INTERFACE, field: "input" }
    } else if n == 11 {
        Query::InterfaceFunction { interface: reply_value(r, 10), index: BUTTON_STATE_FUNCTION }
    } else if n == 12 {
        Query::ReadU32 { address: (reply_value(r, 11) + BUTTON_STATE_OFFSET) as usize }
    } else if n == 13 {
        Query::ModuleExport { library: reply_value(r, 4), name: SDL_WINDOW_EXPORT, field: "sdl_window" }
    } else if n == 14 {
        Query::RelativeAddress { address: reply_value(r, 13), offset: 0x02, instruction_size: 0x06 }
    } else if n == 15 {
        Query::ReadUsize { address: reply_value(r, 14) }
    } else if n == 16 {
        Query::RelativeAddress { address: reply_value(r, 15), offset: 0x03, instruction_size: 0x07 }
    } else if n == 17 {
        Query::Scan { library: reply_value(r, 1), pattern: GLOBAL_VARS_PATTERN, field: "global_vars" }
    } else if n == 18 {
        Query::RelativeAddress { address: reply_value(r, 17), offset: 0x03, instruction_size: 0x07 }
    } else if n == 19 {
        Query::Scan { library: reply_value(r, 1), pattern: VPHYS_WORLD_PATTERN, field: "vphys_world" }
    } else if n == 20 {
        Query::RelativeAddress { address: reply_value(r, 19), offset: 3, instruction_size: 7 }
    } else if n == 21 {
        Query::ReadUsize { address: reply_value(r, 20) }
    } else if n == 22 {
        Query::Scan { library: reply_value(r, 1), pattern: BUILD_DATE_PATTERN, field: "build_date" }
    } else if n == 23 {
        Query::RelativeAddress { address: reply_value(r, 22), offset: 11, instruction_size: 15 }
    } else if n == 24 {
        Query::Convar { cvar: reply_value(r, 9), name: FFA_CONVAR, field: "ffa" }
    } else if n == 25 {
        Query::Convar { cvar: reply_value(r, 9), name: SENSITIVITY_CONVAR, field: "sensitivity" }
    } else if n == 26 {
        Query::OpenSchema { library: reply_value(r, 5) }
    } else if n == 27 {
        Query::SchemaLibrary { name: CLIENT_LIB }
    } else {
        Query::SchemaLibrary { name: PHYSICS_LIB }
    }
}

/// Whether `reply` may answer the lookup that follows the answers `r`: a
/// lookup that cannot fail gives a number, a 32-bit read gives a 32-bit
/// value, and no address that the search computes from the answer leaves the
/// range of `usize` (where the original's addition would overflow).
pub open spec fn spec_admits(r: Seq<Option<usize>>, reply: Option<usize>) -> bool {
    let n = r.len();
    &&& spec_query(r).spec_always_answered() ==> reply is Some
    &&& n == 7 ==> (reply matches Some(v) ==> v + ENTITY_SYSTEM_OFFSET <= usize::MAX)
    &&& n == 8 ==> (reply matches Some(v) ==> v + ENTITY_LIST_ADD <= usize::MAX)
    &&& n == 11 ==> (reply matches Some(v) ==> v + BUTTON_STATE_OFFSET <= usize::MAX)
    &&& n == 12 ==> (reply matches Some(v) ==> v <= u32::MAX)
}

/// The answers a search can have received: each admitted by the lookup it
/// answered, at most as many as the search makes, and none after a failed
/// lookup.
pub open spec fn well_formed(r: Seq<Option<usize>>) -> bool {
    &&& r.len() <= SEARCH_STEPS
    &&& forall|i: int| 0 <= i < r.len() ==> #[trigger] spec_admits(r.take(i), r[i])
    &&& forall|i: int| 0 <= i < r.len() - 1 ==> (#[trigger] r[i]) is Some
}

/// The offsets that a search whose lookups all succeeded finds from its
/// answers `r`: the answered addresses where the search looks them up, the
/// offsets of the targeted game build everywhere else.
pub open spec fn spec_found_offsets(r: Seq<Option<usize>>) -> Offsets {
    Offsets {
        library: LibraryOffsets {
            client: reply_value(r, 0),
            engine: reply_value(r, 1),
            tier0: reply_value(r, 2),
            input: reply_value(r, 3),
            sdl: reply_value(r, 4),
            schema: reply_value(r, 5),
            physics: reply_value(r, 6),
        },
        interface: InterfaceOffsets {
            resource: reply_value(r, 7),
            entity: (reply_value(r, 8) + ENTITY_LIST_ADD) as usize,
            cvar: reply_value(r, 9),
            input: reply_value(r, 10),
        },
        direct: DirectOffsets {
            local_player: 0xDEA98C,
            entity_list: 0x4DDC8F4,
            view_matrix: 0x4D0F250,
            button_state: reply_value(r, 12),
            sdl_window: reply_value(r, 16),
            global_vars: reply_value(r, 18),
            vphys_world: reply_value(r, 21),
            build_date: reply_value(r, 23),
        },
        convar: ConvarOffsets {
            ffa: reply_value(r, 24),
            sensitivity: reply_value(r, 25),
        },
        controller: PlayerControllerOffsets::spec_csgo(),
        entity: EntityOffsets::spec_csgo(),
        collision: CollisionOffsets::spec_csgo(),
        pawn: PawnOffsets::spec_csgo(),
        game_scene_node: GameSceneNodeOffsets::spec_csgo(),
        smoke: SmokeOffsets::spec_csgo(),
        molotov: MolotovOffsets::spec_csgo(),
        inferno: InfernoOffsets::spec_csgo(),
        spotted_state: SpottedStateOffsets::spec_csgo(),
        camera_services: CameraServicesOffsets::spec_csgo(),
        item_services: ItemServicesOffsets::spec_csgo(),
        weapon_services: WeaponServicesOffsets::spec_csgo(),
        aim_punch_services: AimPunchServicesOffsets::spec_csgo(),
        action_tracking: ActionTrackingServicesOffsets::spec_csgo(),
        bullet_services: BulletServicesOffsets::spec_csgo(),
        per_round_stats: PerRoundStatsOffsets::spec_csgo(),
        observer_services: ObserverServicesOffsets::spec_csgo(),
        econ_item_view: EconItemViewOffsets::spec_csgo(),
        weapon: WeaponOffsets::spec_csgo(),
        planted_c4: PlantedC4Offsets::spec_csgo(),
        model_state: ModelState::spec_csgo(),
        network_velocity: NetworkVelocityOffsets::spec_csgo(),
        entity_identity: EntityIdentityOffsets::spec_csgo(),
        hull: PhysHullOffsets::spec_csgo(),
        mesh: PhysMeshOffsets::spec_csgo(),
    }
}

/// Where a search stands after the answers `r`: over without offsets once a
/// lookup failed, over with the offsets once every lookup succeeded, and
/// otherwise waiting for the next lookup.
pub open spec fn spec_progress(r: Seq<Option<usize>>) -> Progress {
    if r.len() > 0 && r.last() is None {
        Progress::Finished(None)
    } else if r.len() >= SEARCH_STEPS {
        Progress::Finished(Some(spec_found_offsets(r)))
    } else {
        Progress::Pending(spec_query(r))
    }
}

proof fn lemma_admitted_at(r: Seq<Option<usize>>, i: int)
    requires
        well_formed(r),
        0 <= i < r.len(),
    ensures
        spec_admits(r.take(i), r[i]),
        r.take(i).len() == i,
{
}

fn reply_value_of(answers: &Vec<Option<usize>>, i: usize) -> (v: usize)
    requires
        i < answers.len(),
    ensures
        v == reply_value(answers@, i as int),
{
    match answers[i] {
        Some(v) => v,
        None => 0,
    }
}

fn found_offsets(answers: &Vec<Option<usize>>) -> (o: Offsets)
    requires
        well_formed(answers@),
        answers.len() == SEARCH_STEPS,
        answers@.last() is Some,
    ensures
        o == spec_found_offsets(answers@),
{
    proof {
        lemma_admitted_at(answers@, 8);
    }
    Offsets {
        library: LibraryOffsets {
            client: reply_value_of(answers, 0),
            engine: reply_value_of(answers, 1),
            tier0: reply_value_of(answers, 2),
            input: reply_value_of(answers, 3),
            sdl: reply_value_of(answers, 4),
            schema: reply_value_of(answers, 5),
            physics: reply_value_of(answers, 6),
        },
        interface: InterfaceOffsets {
            resource: reply_value_of(answers, 7),
            entity: reply_value_of(answers, 8) + ENTITY_LIST_ADD,
            cvar: reply_value_of(answers, 9),
            input: reply_value_of(answers, 10),
        },
        direct: DirectOffsets {
            local_player: 0xDEA98C,
            entity_list: 0x4DDC8F4,
            view_matrix: 0x4D0F250,
            button_state: reply_value_of(answers, 12),
            sdl_window: reply_value_of(answers, 16),
            global_vars: reply_value_of(answers, 18),
            vphys_world: reply_value_of(answers, 21),
            build_date: reply_value_of(answers, 23),
        },
        convar: ConvarOffsets {
            ffa: reply_value_of(answers, 24),
            sensitivity: reply_value_of(answers, 25),
        },
        controller: PlayerControllerOffsets::csgo(),
        entity: EntityOffsets::csgo(),
        collision: CollisionOffsets::csgo(),
        pawn: PawnOffsets::csgo(),
        game_scene_node: GameSceneNodeOffsets::csgo(),
        smoke: SmokeOffsets::csgo(),
        molotov: MolotovOffsets::csgo(),
        inferno: InfernoOffsets::csgo(),
        spotted_state: SpottedStateOffsets::csgo(),
        camera_services: CameraServicesOffsets::csgo(),
        item_services: ItemServicesOffsets::csgo(),
        weapon_services: WeaponServicesOffsets::csgo(),
        aim_punch_services: AimPunchServicesOffsets::csgo(),
        action_tracking: ActionTrackingServicesOffsets::csgo(),
        bullet_services: BulletServicesOffsets::csgo(),
        per_round_stats: PerRoundStatsOffsets::csgo(),
        observer_services: ObserverServicesOffsets::csgo(),
        econ_item_view: EconItemViewOffsets::csgo(),
        weapon: WeaponOffsets::csgo(),
        planted_c4: PlantedC4Offsets::csgo(),
        model_state: ModelState::csgo(),
        network_velocity: NetworkVelocityOffsets::csgo(),
        entity_identity: EntityIdentityOffsets::csgo(),
        hull: PhysHullOffsets::csgo(),
        mesh: PhysMeshOffsets::csgo(),
    }
}


fn query_at(answers: &Vec<Option<usize>>) -> (q: Query)
    requires
        well_formed(answers@),
        answers.len() < SEARCH_STEPS,
        answers.len() > 0 ==> answers@.last() is Some,
    ensures
        q == spec_query(answers@),
{
    let n = answers.len();
    if n == 0 {
        Query::ModuleBase { name: CLIENT_LIB }
    } else if n == 1 {
        Query::ModuleBase { name: ENGINE_LIB }
    } else if n == 2 {
        Query::ModuleBase { name: TIER0_LIB }
    } else if n == 3 {
        Query::ModuleBase { name: INPUT_LIB }
    } else if n == 4 {
        Query::ModuleBase { name: SDL_LIB }
    } else if n == 5 {
        Query::ModuleBase { name: SCHEMA_LIB }
    } else if n == 6 {
        Query::ModuleBase { name: PHYSICS_LIB }
    } else if n == 7 {
        Query::InterfaceOffset { library: reply_value_of(answers, 1), name: RESOURCE_INTERFACE, field: "resource" }
    } else if n == 8 {
        proof {
            lemma_admitted_at(answers@, 7);
        }
        Query::ReadUsize { address: reply_value_of(answers, 7) + ENTITY_SYSTEM_OFFSET }
    } else if n == 9 {
        Query::InterfaceOffset { library: reply_value_of(answers, 2), name: CVAR_INTERFACE, field: "cvar" }
    } else if n == 10 {
        Query::InterfaceOffset { library: reply_value_of(answers, 3), name: INPUT_INTERFACE, field: "input" }
    } else if n == 11 {
        Query::InterfaceFunction { interface: reply_value_of(answers, 10), index: BUTTON_STATE_FUNCTION }
    } else if n == 12 {
        proof {
            lemma_admitted_at(answers@, 11);
        }
        Query::ReadU32 { address: reply_value_of(answers, 11) + BUTTON_STATE_OFFSET }
    } else if n == 13 {
        Query::ModuleExport { library: reply_value_of(answers, 4), name: SDL_WINDOW_EXPORT, field: "sdl_window" }
    } else if n == 14 {
        Query::RelativeAddress { address: reply_value_of(answers, 13), offset: 0x02, instruction_size: 0x06 }
    } else if n == 15 {
        Query::ReadUsize { address: reply_value_of(answers, 14) }
    } else if n == 16 {
        Query::RelativeAddress { address: reply_value_of(answers, 15), offset: 0x03, instruction_size: 0x07 }
    } else if n == 17 {
        Query::Scan { library: reply_value_of(answers, 1), pattern: GLOBAL_VARS_PATTERN, field: "global_vars" }
    } else if n == 18 {
        Query::RelativeAddress { address: reply_value_of(answers, 17), offset: 0x03, instruction_size: 0x07 }
    } else if n == 19 {
        Query::Scan { library: reply_value_of(answers, 1), pattern: VPHYS_WORLD_PATTERN, field: "vphys_world" }
    } else if n == 20 {
        Query::RelativeAddress { address: reply_value_of(answers, 19), offset: 3, instruction_size: 7 }
    } else if n == 21 {
        Query::ReadUsize { address: reply_value_of(answers, 20) }
    } else if n == 22 {
        Query::Scan { library: reply_value_of(answers, 1), pattern: BUILD_DATE_PATTERN, field: "build_date" }
    } else if n == 23 {
        Query::RelativeAddress { address: reply_value_of(answers, 22), offset: 11, instruction_size: 15 }
    } else if n == 24 {
        Query::Convar { cvar: reply_value_of(answers, 9), name: FFA_CONVAR, field: "ffa" }
    } else if n == 25 {
        Query::Convar { cvar: reply_value_of(answers, 9), name: SENSITIVITY_CONVAR, field: "sensitivity" }
    } else if n == 26 {
        Query::OpenSchema { library: reply_value_of(answers, 5) }
    } else if n == 27 {
        Query::SchemaLibrary { name: CLIENT_LIB }
    } else {
        Query::SchemaLibrary { name: PHYSICS_LIB }
    }
}

proof fn lemma_push_keeps_well_formed(r: Seq<Option<usize>>, reply: Option<usize>)
    requires
        well_formed(r),
        spec_progress(r) is Pending,
        spec_admits(r, reply),
    ensures
        well_formed(r.push(reply)),
{
    let s = r.push(reply);
    assert forall|i: int| 0 <= i < s.len() implies #[trigger] spec_admits(s.take(i), s[i]) by {
        if i < r.len() {
            assert(s.take(i) =~= r.take(i));
            lemma_admitted_at(r, i);
        } else {
            assert(s.take(i) =~= r);
        }
    }
    assert forall|i: int| 0 <= i < s.len() - 1 implies (#[trigger] s[i]) is Some by {
        assert(s[i] == r[i]);
        if i == r.len() - 1 {
            assert(r[i] == r.last());
        }
    }
}

/// What the library knows of the running game: the answers to the lookups
/// it has asked for so far. Its view is that sequence of answers.
pub struct CS2 {
    answers: Vec<Option<usize>>,
}

impl View for CS2 {
    type V = Seq<Option<usize>>;

    closed spec fn view(&self) -> Seq<Option<usize>> {
        self.answers@
    }
}

impl CS2 {
    #[verifier::type_invariant]
    spec fn inv(self) -> bool {
        well_formed(self.answers@)
    }

    /// A search that has asked nothing yet.
    pub fn new() -> (s: Self)
        ensures
            s@ == Seq::<Option<usize>>::empty(),
            well_formed(s@),
    {
        CS2 { answers: Vec::new() }
    }

    /// Where the search stands: the next lookup it needs, or its outcome,
    /// `Some` offsets once every lookup succeeded and `None` once one failed.
    pub fn find_offsets(&self) -> (p: Progress)
        ensures
            p == spec_progress(self@),
            well_formed(self@),
    {
        proof {
            use_type_invariant(self);
        }
        let n = self.answers.len();
        if n > 0 && self.answers[n - 1].is_none() {
            return Progress::Finished(None);
        }
        if n >= SEARCH_STEPS {
            return Progress::Finished(Some(found_offsets(&self.answers)));
        }
        Progress::Pending(query_at(&self.answers))
    }

    /// Whether the search is waiting and `reply` may answer its next lookup
    /// (see [`spec_admits`]). Where the original would have overflowed on
    /// such an answer, this is `false`.
    pub fn admits(&self, reply: Option<usize>) -> (b: bool)
        ensures
            b == (spec_progress(self@) is Pending && spec_admits(self@, reply)),
    {
        proof {
            use_type_invariant(self);
        }
        let n = self.answers.len();
        if n > 0 && self.answers[n - 1].is_none() {
            return false;
        }
        if n >= SEARCH_STEPS {
            return false;
        }
        let q = query_at(&self.answers);
        if q.always_answered() && reply.is_none() {
            return false;
        }
        match reply {
            Some(v) => {
                if n == 7 {
                    v <= usize::MAX - ENTITY_SYSTEM_OFFSET
                } else if n == 8 {
                    v <= usize::MAX - ENTITY_LIST_ADD
                } else if n == 11 {
                    v <= usize::MAX - BUTTON_STATE_OFFSET
                } else if n == 12 {
                    v <= 0xffff_ffff
                } else {
                    true
                }
            },
            None => true,
        }
    }

    /// Takes the game's answer to the pending lookup.
    pub fn answer(&mut self, reply: Option<usize>)
        requires
            spec_progress(old(self)@) is Pending,
            spec_admits(old(self)@, reply),
        ensures
            final(self)@ == old(self)@.push(reply),
            well_formed(final(self)@),
    {
        proof {
            use_type_invariant(&*self);
            lemma_push_keeps_well_formed(self.answers@, reply);
        }
        let mut answers = Vec::new();
        std::mem::swap(&mut answers, &mut self.answers);
        answers.push(reply);
        self.answers = answers;
    }
}

} // verus!
