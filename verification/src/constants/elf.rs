//! Offsets of the fields of an ELF header that locate its tables.

use vstd::prelude::*;

verus! {

pub const PROGRAM_HEADER_OFFSET: usize = 0x20;

pub const PROGRAM_HEADER_ENTRY_SIZE: usize = 0x36;

pub const PROGRAM_HEADER_NUM_ENTRIES: usize = 0x38;

pub const SECTION_HEADER_OFFSET: usize = 0x28;

pub const SECTION_HEADER_ENTRY_SIZE: usize = 0x3A;

pub const SECTION_HEADER_NUM_ENTRIES: usize = 0x3C;

pub const DYNAMIC_SECTION_PHT_TYPE: usize = 0x02;

} // verus!
