use vstd::prelude::*;

pub mod cartridge_file;
pub mod endians;
pub mod cpu;
pub mod flags;
pub mod isa;
pub mod laws;
pub mod memory;
pub mod name_attr_tables_mapper;
pub mod video;

verus! {

} // verus!
