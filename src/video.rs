//! The PPU's address space: pattern tables from the cartridge, the four logical name tables, and
//! the palettes, each mirrored as on the NES.

use vstd::prelude::*;

use crate::cartridge_file::{arrangement_of, Cartridge, NametableArrangement};
use crate::memory::{BusOp, Memory as Bus, NROMNoMapper, PgrMemoryMapper};
use crate::name_attr_tables_mapper::{NameAndAttributeTablesMemoryMapper, NameTables};

verus! {

const PATTERN_TABLES_END: u16 = 0x2000;

const NAME_TABLES_START: u16 = 0x2000;

const NAME_TABLES_TOTAL_SIZE: u16 = 0x1000;

const TABLE_SIZE: u16 = 0x0400;

const PALETTE_START: u16 = 0x3f00;

const PALETTE_SIZE: u16 = 0x0020;

const MIRRORED_CONTENT_SIZE: u16 = 0x4000;

/// Where a PPU address lands, with the offset inside that region.
#[derive(Clone, Copy, Debug, PartialEq, Eq, Structural)]
pub enum VideoRegion {
    /// The two pattern tables, 4 KiB each.
    PatternTable(u16),
    /// A logical name table (0 to 3) and the offset in it.
    NameTable(u8, u16),
    /// The image and sprite palettes.
    Palette(u16),
}

/// The PPU memory map: 0x3000..0x3f00 mirrors the name tables, 0x3f20..0x4000 the palettes,
/// and everything from 0x4000 up the whole space below it.
pub open spec fn video_region_of(address: u16) -> VideoRegion {
    let a = address % 0x4000;
    if a < 0x2000 {
        VideoRegion::PatternTable(a as u16)
    } else if a < 0x3f00 {
        VideoRegion::NameTable((((a - 0x2000) % 0x1000) / 0x400) as u8, ((a - 0x2000) % 0x400) as u16)
    } else {
        VideoRegion::Palette(((a - 0x3f00) % 0x20) as u16)
    }
}

pub fn map_video_address(address: u16) -> (r: VideoRegion)
    ensures
        r == video_region_of(address),
{
    let a = address % MIRRORED_CONTENT_SIZE;
    if a < PATTERN_TABLES_END {
        VideoRegion::PatternTable(a)
    } else if a < PALETTE_START {
        let offset = (a - NAME_TABLES_START) % NAME_TABLES_TOTAL_SIZE;
        VideoRegion::NameTable((offset / TABLE_SIZE) as u8, offset % TABLE_SIZE)
    } else {
        VideoRegion::Palette((a - PALETTE_START) % PALETTE_SIZE)
    }
}

/// The cartridge's pattern table memory as the PPU sees it.
pub trait PatternTableMemoryMapper {
    /// The pattern memory's cells.
    spec fn cells(&self) -> Seq<u8>;

    /// The cell that holds pattern address `address`.
    spec fn cell_index(&self, address: u16) -> int;

    spec fn wf(&self) -> bool;

    /// Reads pattern table memory; `address` is below 0x2000, table 1 starting at 0x1000.
    fn read8_pattern_table(&self, address: u16) -> (r: u8)
        requires
            address < 0x2000,
        ensures
            self.wf() ==> r == self.cells()[self.cell_index(address)],
    ;

    fn write8_pattern_table(&mut self, address: u16, value: u8)
        requires
            address < 0x2000,
        ensures
            old(self).wf() ==> final(self).wf() && final(self).cells() == old(self).cells().update(
                old(self).cell_index(address),
                value,
            ),
            forall|a: u16| #[trigger] final(self).cell_index(a) == old(self).cell_index(a),
    ;
}

/// NROM's pattern tables, starting zeroed: 8 KiB, or 4 KiB that both tables share when the
/// cartridge has fewer than two CHR blocks.
pub struct NROMVideo {
    pattern_tables: Vec<u8>,
    mirrored: bool,
}

impl NROMVideo {
    pub fn new(cartridge: &Cartridge) -> (r: NROMVideo)
        ensures
            r.wf(),
            forall|i: int| 0 <= i < r.cells().len() ==> #[trigger] r.cells()[i] == 0,
            forall|a: u16|
                a < 0x2000 ==> #[trigger] r.cell_index(a) == if cartridge.header_bytes()[5] < 2 {
                    (a % 0x1000) as int
                } else {
                    a as int
                },
    {
        let mirrored = cartridge.header().chr_rom_size().in_blocks() < 2;
        let len: usize = if mirrored { 0x1000 } else { 0x2000 };
        let mut pattern_tables: Vec<u8> = Vec::new();
        let mut i: usize = 0;
        while i < len
            invariant
                i <= len,
                pattern_tables@.len() == i,
                forall|j: int| 0 <= j < i ==> #[trigger] pattern_tables@[j] == 0,
            decreases len - i,
        {
            pattern_tables.push(0);
            i = i + 1;
        }
        NROMVideo { pattern_tables, mirrored }
    }

    /// Where pattern address `address` lives: table 1 falls onto table 0 when they are shared.
    fn index(&self, address: u16) -> (r: usize)
        ensures
            r == self.cell_index(address),
    {
        if self.mirrored {
            (address % 0x1000) as usize
        } else {
            address as usize
        }
    }
}

impl PatternTableMemoryMapper for NROMVideo {
    closed spec fn cells(&self) -> Seq<u8> {
        self.pattern_tables@
    }

    closed spec fn cell_index(&self, address: u16) -> int {
        if self.mirrored {
            (address % 0x1000) as int
        } else {
            address as int
        }
    }

    closed spec fn wf(&self) -> bool {
        self.pattern_tables@.len() == if self.mirrored {
            0x1000int
        } else {
            0x2000
        }
    }

    fn read8_pattern_table(&self, address: u16) -> (r: u8) {
        let i = self.index(address);
        if i < self.pattern_tables.len() {
            self.pattern_tables[i]
        } else {
            0
        }
    }

    fn write8_pattern_table(&mut self, address: u16, value: u8) {
        let i = self.index(address);
        if i < self.pattern_tables.len() {
            self.pattern_tables.set(i, value);
        }
    }
}

/// The memory mappers that a cartridge calls for: its program ROM, its pattern tables and the
/// name tables of its nametable arrangement.
pub fn new_memory_mapper(cartridge: &Cartridge) -> (r: (NROMNoMapper, NROMVideo, NameTables))
    requires
        cartridge.wf(),
    ensures
        r.0.lower_bank() == cartridge.prg_blocks()[0],
        r.0.upper_bank() == cartridge.prg_blocks()[cartridge.prg_blocks().len() - 1],
        r.1.wf(),
        forall|i: int| 0 <= i < r.1.cells().len() ==> #[trigger] r.1.cells()[i] == 0,
        forall|a: u16|
            a < 0x2000 ==> #[trigger] r.1.cell_index(a) == if cartridge.header_bytes()[5] < 2 {
                (a % 0x1000) as int
            } else {
                a as int
            },
        r.2.wf(),
        forall|i: int| 0 <= i < r.2.cells().len() ==> #[trigger] r.2.cells()[i] == 0,
        arrangement_of(cartridge.header_bytes()[6]) == NametableArrangement::Vertical ==> r.2 is Vertical,
        arrangement_of(cartridge.header_bytes()[6]) == NametableArrangement::Horizontal ==> r.2 is Horizontal,
        arrangement_of(cartridge.header_bytes()[6]) == NametableArrangement::FourScreenMirroring
            ==> r.2 is FourWay,
{
    let name_and_attributes = NameTables::for_arrangement(cartridge.header().nametable_arrangement());
    // NROM is the one mapper that a cartridge can name
    (NROMNoMapper::new(cartridge), NROMVideo::new(cartridge), name_and_attributes)
}

/// The PPU bus: pattern tables through the cartridge, name tables through their mirroring, and
/// the palettes.
pub struct Memory<P: PatternTableMemoryMapper, N: NameAndAttributeTablesMemoryMapper> {
    pattern_table_mapper: P,
    name_and_attribute_table_mapper: N,
    palettes: Vec<u8>,
    log: Ghost<Seq<BusOp>>,
}

impl<P: PatternTableMemoryMapper, N: NameAndAttributeTablesMemoryMapper> Memory<P, N> {
    pub closed spec fn pattern_tables(&self) -> P {
        self.pattern_table_mapper
    }

    pub closed spec fn name_tables(&self) -> N {
        self.name_and_attribute_table_mapper
    }

    /// The 32 palette bytes.
    pub closed spec fn palettes(&self) -> Seq<u8> {
        self.palettes@
    }

    /// A read of `address` returns `r`, the byte of the region that `video_region_of` names.
    pub open spec fn reads_as(&self, address: u16, r: u8) -> bool {
        match video_region_of(address) {
            VideoRegion::PatternTable(a) => r == self.pattern_tables().cells()[self.pattern_tables().cell_index(a)],
            VideoRegion::NameTable(t, o) => r == self.name_tables().cells()[self.name_tables().physical(t) * 0x400 + o],
            VideoRegion::Palette(i) => r == self.palettes()[i as int],
        }
    }

    /// `after` is this memory with `value` written at `address`.
    pub open spec fn written(&self, after: &Self, address: u16, value: u8) -> bool {
        match video_region_of(address) {
            VideoRegion::PatternTable(a) => {
                &&& after.pattern_tables().cells() == self.pattern_tables().cells().update(
                    self.pattern_tables().cell_index(a),
                    value,
                )
                &&& after.name_tables() == self.name_tables()
                &&& after.palettes() == self.palettes()
            },
            VideoRegion::NameTable(t, o) => {
                &&& after.pattern_tables() == self.pattern_tables()
                &&& after.name_tables().cells() == self.name_tables().cells().update(
                    self.name_tables().physical(t) * 0x400 + o,
                    value,
                )
                &&& after.palettes() == self.palettes()
            },
            VideoRegion::Palette(i) => {
                &&& after.pattern_tables() == self.pattern_tables()
                &&& after.name_tables() == self.name_tables()
                &&& after.palettes() == self.palettes().update(i as int, value)
            },
        }
    }

    pub fn new(pattern_table_mapper: P, name_and_attribute_table_mapper: N) -> (r: Memory<P, N>)
        requires
            pattern_table_mapper.wf(),
            name_and_attribute_table_mapper.wf(),
        ensures
            r.wf(),
            r.ops() == Seq::<BusOp>::empty(),
            r.pattern_tables() == pattern_table_mapper,
            r.name_tables() == name_and_attribute_table_mapper,
            forall|i: int| 0 <= i < 0x20 ==> #[trigger] r.palettes()[i] == 0,
    {
        let mut palettes: Vec<u8> = Vec::new();
        let mut i: usize = 0;
        while i < PALETTE_SIZE as usize
            invariant
                i <= 0x20,
                palettes@.len() == i,
                forall|j: int| 0 <= j < i ==> #[trigger] palettes@[j] == 0,
            decreases 0x20 - i,
        {
            palettes.push(0);
            i = i + 1;
        }
        Memory {
            pattern_table_mapper,
            name_and_attribute_table_mapper,
            palettes,
            log: Ghost(Seq::empty()),
        }
    }
}

impl<P: PatternTableMemoryMapper, N: NameAndAttributeTablesMemoryMapper> Bus for Memory<P, N> {
    closed spec fn ops(&self) -> Seq<BusOp> {
        self.log@
    }

    closed spec fn wf(&self) -> bool {
        &&& self.palettes@.len() == 0x20
        &&& self.pattern_table_mapper.wf()
        &&& self.name_and_attribute_table_mapper.wf()
    }

    fn read8(&mut self, address: u16) -> (r: u8)
        ensures
            old(self).wf() ==> old(self).reads_as(address, r),
            final(self).pattern_tables() == old(self).pattern_tables(),
            final(self).name_tables() == old(self).name_tables(),
            final(self).palettes() == old(self).palettes(),
    {
        let r = match map_video_address(address) {
            VideoRegion::PatternTable(a) => self.pattern_table_mapper.read8_pattern_table(a),
            VideoRegion::NameTable(t, o) => self.name_and_attribute_table_mapper.read8(t, o),
            VideoRegion::Palette(i) => if (i as usize) < self.palettes.len() {
                self.palettes[i as usize]
            } else {
                0
            },
        };
        self.log = Ghost(self.log@.push(BusOp::Read { address, value: r }));
        r
    }

    fn write8(&mut self, address: u16, value: u8)
        ensures
            old(self).wf() ==> old(self).written(final(self), address, value),
    {
        match map_video_address(address) {
            VideoRegion::PatternTable(a) => self.pattern_table_mapper.write8_pattern_table(
                a,
                value,
            ),
            VideoRegion::NameTable(t, o) => self.name_and_attribute_table_mapper.write8(
                t,
                o,
                value,
            ),
            VideoRegion::Palette(i) => if (i as usize) < self.palettes.len() {
                self.palettes.set(i as usize, value);
            },
        }
        self.log = Ghost(self.log@.push(BusOp::Write { address, value }));
    }
}

} // verus!
