use cheat::constants::cs2::{
    CLIENT_LIB, ENGINE_LIB, INPUT_LIB, LIBS, PHYSICS_LIB, SCHEMA_LIB, SDL_LIB, TIER0_LIB,
};
use cheat::cs2::offset_types::{
    DirectOffsets, EntityOffsets, LibraryOffsets, NetworkVelocityOffsets, PawnOffsets,
    PlayerControllerOffsets,
};
use cheat::cs2::offsets::{
    BUILD_DATE_PATTERN, GLOBAL_VARS_PATTERN, SEARCH_STEPS, VPHYS_WORLD_PATTERN,
};
use cheat::cs2::{Offsets, Progress, Query, CS2};

/// A game that answers every lookup with a number derived from the lookup.
fn game(q: &Query) -> Option<usize> {
    match *q {
        Query::ModuleBase { name } => {
            let libs = [CLIENT_LIB, ENGINE_LIB, TIER0_LIB, INPUT_LIB, SDL_LIB, SCHEMA_LIB, PHYSICS_LIB];
            libs.iter().position(|l| *l == name).map(|i| 0x10_0000 * (i + 1))
        }
        Query::InterfaceOffset { library, .. } => Some(library + 0x100),
        Query::Convar { cvar, name, .. } => Some(cvar + name.len()),
        Query::Scan { library, pattern, .. } => Some(library + pattern.len()),
        Query::ModuleExport { library, .. } => Some(library + 0x200),
        Query::RelativeAddress { address, offset, instruction_size } => {
            Some(address + offset * 0x1000 + instruction_size)
        }
        Query::ReadUsize { address } => Some(address * 2),
        Query::ReadU32 { address } => Some(address & 0xffff),
        Query::InterfaceFunction { interface, index } => Some(interface + 8 * index),
        Query::OpenSchema { .. } => Some(1),
        Query::SchemaLibrary { .. } => Some(1),
    }
}

/// Runs the search against `answer`, recording the lookups it asks for.
fn run(answer: impl Fn(&Query) -> Option<usize>) -> (Vec<Query>, Option<Offsets>) {
    let mut search = CS2::new();
    let mut asked = Vec::new();
    loop {
        match search.find_offsets() {
            Progress::Finished(found) => return (asked, found),
            Progress::Pending(q) => {
                let reply = answer(&q);
                assert!(search.admits(reply));
                asked.push(q);
                search.answer(reply);
            }
        }
    }
}

#[test]
fn search_asks_library_bases_first() {
    let (asked, _) = run(game);
    let libs = [CLIENT_LIB, ENGINE_LIB, TIER0_LIB, INPUT_LIB, SDL_LIB, SCHEMA_LIB, PHYSICS_LIB];
    for (i, lib) in libs.iter().enumerate() {
        assert_eq!(asked[i], Query::ModuleBase { name: lib });
    }
}

#[test]
fn search_finds_every_offset() {
    let (asked, found) = run(game);
    assert_eq!(asked.len(), SEARCH_STEPS);
    let o = found.expect("every lookup succeeds");
    assert_eq!(
        o.library,
        LibraryOffsets {
            client: 0x10_0000,
            engine: 0x20_0000,
            tier0: 0x30_0000,
            input: 0x40_0000,
            sdl: 0x50_0000,
            schema: 0x60_0000,
            physics: 0x70_0000,
        }
    );
    // resource interface of the engine, entity list behind it
    assert_eq!(o.interface.resource, 0x20_0100);
    assert_eq!(asked[8], Query::ReadUsize { address: 0x20_0150 });
    assert_eq!(o.interface.entity, 0x20_0150 * 2 + 0x10);
    assert_eq!(o.interface.cvar, 0x30_0100);
    assert_eq!(o.interface.input, 0x40_0100);
    // button state: function 19 of the input system, 32-bit read at +0x14
    assert_eq!(asked[11], Query::InterfaceFunction { interface: 0x40_0100, index: 19 });
    assert_eq!(asked[12], Query::ReadU32 { address: 0x40_0100 + 8 * 19 + 0x14 });
    assert_eq!(o.direct.button_state, (0x40_0100 + 8 * 19 + 0x14) & 0xffff);
    // SDL window: export, relative, read, relative
    let export = 0x50_0200;
    let first = export + 0x2000 + 0x06;
    let read = first * 2;
    assert_eq!(o.direct.sdl_window, read + 0x3000 + 0x07);
    // scans of the engine
    assert_eq!(
        asked[17],
        Query::Scan { library: 0x20_0000, pattern: GLOBAL_VARS_PATTERN, field: "global_vars" }
    );
    assert_eq!(o.direct.global_vars, 0x20_0000 + GLOBAL_VARS_PATTERN.len() + 0x3000 + 7);
    assert_eq!(
        o.direct.vphys_world,
        (0x20_0000 + VPHYS_WORLD_PATTERN.len() + 0x3000 + 7) * 2
    );
    assert_eq!(o.direct.build_date, 0x20_0000 + BUILD_DATE_PATTERN.len() + 11 * 0x1000 + 15);
    // console variables through the tier0 interface
    assert_eq!(o.convar.ffa, 0x30_0100 + "mp_teammates_are_enemies".len());
    assert_eq!(o.convar.sensitivity, 0x30_0100 + "sensitivity".len());
    // fixed offsets
    assert_eq!(o.direct.local_player, 0xDEA98C);
    assert_eq!(o.direct.entity_list, 0x4DDC8F4);
    assert_eq!(o.direct.view_matrix, 0x4D0F250);
    assert_eq!(o.controller, PlayerControllerOffsets::csgo());
    assert_eq!(o.pawn.armor, 0x104);
    assert_eq!(o.pawn.bullet_services, 0x370);
    assert_eq!(o.planted_c4.defuse_time_left, 0x408);
    assert_eq!(o.network_velocity, NetworkVelocityOffsets { x: 0x10, y: 0x18, z: 0x20 });
    assert_eq!(o.hull.flags, 0x18);
    assert_eq!(o.mesh.materials, 0x10);
    // the search ends with the schema system
    assert_eq!(asked[26], Query::OpenSchema { library: 0x60_0000 });
    assert_eq!(asked[27], Query::SchemaLibrary { name: CLIENT_LIB });
    assert_eq!(asked[28], Query::SchemaLibrary { name: PHYSICS_LIB });
}

#[test]
fn fixed_offsets_do_not_depend_on_game() {
    let (_, a) = run(game);
    let (_, b) = run(|q: &Query| game(q).map(|v| v / 2));
    let (a, b) = (a.unwrap(), b.unwrap());
    assert_eq!(a.pawn, b.pawn);
    assert_eq!(a.entity, b.entity);
    assert_eq!(a.mesh, b.mesh);
    assert_ne!(a.library, b.library);
}

#[test]
fn missing_library_ends_search() {
    let (asked, found) = run(|q: &Query| match q {
        Query::ModuleBase { name } if *name == SDL_LIB => None,
        _ => game(q),
    });
    assert_eq!(found, None);
    assert_eq!(asked.len(), 5);
    assert_eq!(*asked.last().unwrap(), Query::ModuleBase { name: SDL_LIB });
}

#[test]
fn missing_interface_ends_search() {
    let (asked, found) = run(|q: &Query| match q {
        Query::InterfaceOffset { field: "cvar", .. } => None,
        _ => game(q),
    });
    assert_eq!(found, None);
    assert_eq!(asked.len(), 10);
}

#[test]
fn missing_scan_ends_search() {
    let (asked, found) = run(|q: &Query| match q {
        Query::Scan { field: "vphys_world", .. } => None,
        _ => game(q),
    });
    assert_eq!(found, None);
    assert_eq!(asked.len(), 20);
}

#[test]
fn missing_physics_schema_ends_search() {
    let (asked, found) = run(|q: &Query| match q {
        Query::SchemaLibrary { name } if *name == PHYSICS_LIB => None,
        _ => game(q),
    });
    assert_eq!(found, None);
    assert_eq!(asked.len(), SEARCH_STEPS);
}

#[test]
fn finished_search_admits_nothing() {
    let mut search = CS2::new();
    search.answer(None);
    assert_eq!(search.find_offsets(), Progress::Finished(None));
    assert!(!search.admits(Some(1)));
    assert!(!search.admits(None));
}

#[test]
fn reads_must_be_answered() {
    let mut search = CS2::new();
    for _ in 0..7 {
        search.answer(Some(0x1000));
    }
    search.answer(Some(0x2000));
    // the entity system read cannot fail
    assert!(matches!(search.find_offsets(), Progress::Pending(Query::ReadUsize { address: 0x2050 })));
    assert!(!search.admits(None));
    assert!(search.admits(Some(7)));
}

#[test]
fn overflowing_addresses_are_not_admitted() {
    let mut search = CS2::new();
    for _ in 0..7 {
        search.answer(Some(0x1000));
    }
    assert!(!search.admits(Some(usize::MAX)));
    assert!(!search.admits(Some(usize::MAX - 0x4f)));
    assert!(search.admits(Some(usize::MAX - 0x50)));
    assert!(search.admits(None));
    search.answer(Some(usize::MAX - 0x50));
    assert!(!search.admits(Some(usize::MAX - 0xf)));
    assert!(search.admits(Some(usize::MAX - 0x10)));
}

#[test]
fn u32_reads_are_32_bit() {
    let mut search = CS2::new();
    let mut steps = 0;
    while steps < 12 {
        if let Progress::Pending(q) = search.find_offsets() {
            search.answer(game(&q));
        }
        steps += 1;
    }
    assert!(matches!(search.find_offsets(), Progress::Pending(Query::ReadU32 { .. })));
    assert!(search.admits(Some(0xffff_ffff)));
    assert!(!search.admits(Some(0x1_0000_0000)));
}

#[test]
fn default_offsets_are_zero() {
    let o = Offsets::default();
    assert_eq!(o.library, LibraryOffsets::default());
    assert_eq!(o.library.client, 0);
    assert_eq!(o.direct, DirectOffsets::default());
    assert_eq!(o.pawn.bullet_services, 0);
    assert_eq!(o.entity, EntityOffsets::default());
    assert_eq!(PawnOffsets::default().armor, 0);
}

#[test]
fn fixed_groups() {
    let e = EntityOffsets::csgo();
    assert_eq!(e.health, 0x100);
    assert_eq!(e.team, 0xF4);
    assert_eq!(e.collision, 0x310);
    let c = PlayerControllerOffsets::csgo();
    assert_eq!(c.steam_id, 0x1E8);
    assert_eq!(c.rank_type, 0x1328);
}

#[test]
fn library_names() {
    assert_eq!(LIBS.len(), 6);
    assert_eq!(LIBS[0], "client_client.so");
    assert!(!LIBS.contains(&PHYSICS_LIB));
    assert_eq!(cheat::constants::cs2::PROCESS_NAME, "csgo_linux64");
    assert_eq!(cheat::constants::elf::SECTION_HEADER_NUM_ENTRIES, 0x3C);
}
