//! The PPU's four logical name tables (each a name table followed by its attribute table) and
//! the physical RAM that the cartridge's mirroring puts behind them.

use vstd::prelude::*;

use crate::cartridge_file::NametableArrangement;

verus! {

pub const NAME_TABLE_SIZE: u16 = 0x03c0;

pub const ATTRIBUTE_TABLE_SIZE: u16 = 0x0040;

/// One logical table: a name table and its attribute table.
pub const TABLE_SIZE: u16 = 0x0400;

pub trait NameAndAttributeTablesMemoryMapper {
    /// The physical table RAM, one table of `TABLE_SIZE` bytes after another.
    spec fn cells(&self) -> Seq<u8>;

    /// The physical table behind logical table `table`.
    spec fn physical(&self, table: u8) -> int;

    spec fn wf(&self) -> bool;

    /// Byte `offset` of logical table `table`: offsets below `NAME_TABLE_SIZE` are the name
    /// table, the rest its attribute table.
    fn read8(&self, table: u8, offset: u16) -> (r: u8)
        requires
            table < 4,
            offset < TABLE_SIZE,
        ensures
            self.wf() ==> r == self.cells()[self.physical(table) * TABLE_SIZE + offset],
    ;

    fn write8(&mut self, table: u8, offset: u16, value: u8)
        requires
            table < 4,
            offset < TABLE_SIZE,
        ensures
            old(self).wf() ==> final(self).wf() && final(self).cells() == old(self).cells().update(
                old(self).physical(table) * TABLE_SIZE + offset,
                value,
            ),
            forall|t: u8| #[trigger] final(self).physical(t) == old(self).physical(t),
    ;
}

/// `count` tables of zero bytes.
fn table_ram(count: usize) -> (r: Vec<u8>)
    requires
        count <= 4,
    ensures
        r@.len() == count * TABLE_SIZE,
        forall|i: int| 0 <= i < r@.len() ==> #[trigger] r@[i] == 0,
{
    let mut r: Vec<u8> = Vec::new();
    let len = count * (TABLE_SIZE as usize);
    let mut i: usize = 0;
    while i < len
        invariant
            i <= len,
            len == count * TABLE_SIZE,
            r@.len() == i,
            forall|j: int| 0 <= j < i ==> #[trigger] r@[j] == 0,
        decreases len - i,
    {
        r.push(0);
        i = i + 1;
    }
    r
}

/// The byte at `index` of `ram`, or zero past its end.
fn read_cell(ram: &Vec<u8>, index: usize) -> (r: u8)
    ensures
        index < ram@.len() ==> r == ram@[index as int],
{
    if index < ram.len() {
        ram[index]
    } else {
        0
    }
}

fn write_cell(ram: &mut Vec<u8>, index: usize, value: u8)
    ensures
        index < old(ram)@.len() ==> final(ram)@ == old(ram)@.update(index as int, value),
        final(ram)@.len() == old(ram)@.len(),
{
    if index < ram.len() {
        ram.set(index, value);
    }
}

/// Tables 0 and 1 share the first physical table, 2 and 3 the second.
pub struct HorizontalMirroringNameAndAttributeTable {
    ram: Vec<u8>,
}

impl HorizontalMirroringNameAndAttributeTable {
    pub fn new() -> (r: Self)
        ensures
            r.wf(),
            forall|i: int| 0 <= i < r.cells().len() ==> #[trigger] r.cells()[i] == 0,
    {
        HorizontalMirroringNameAndAttributeTable { ram: table_ram(2) }
    }
}

impl NameAndAttributeTablesMemoryMapper for HorizontalMirroringNameAndAttributeTable {
    closed spec fn cells(&self) -> Seq<u8> {
        self.ram@
    }

    open spec fn physical(&self, table: u8) -> int {
        (table / 2) as int
    }

    closed spec fn wf(&self) -> bool {
        self.ram@.len() == 2 * TABLE_SIZE
    }

    fn read8(&self, table: u8, offset: u16) -> (r: u8) {
        read_cell(&self.ram, (table / 2) as usize * 0x400 + offset as usize)
    }

    fn write8(&mut self, table: u8, offset: u16, value: u8) {
        write_cell(&mut self.ram, (table / 2) as usize * 0x400 + offset as usize, value);
    }
}

/// Tables 0 and 2 share the first physical table, 1 and 3 the second.
pub struct VerticalMirroringNameAndAttributeTable {
    ram: Vec<u8>,
}

impl VerticalMirroringNameAndAttributeTable {
    pub fn new() -> (r: Self)
        ensures
            r.wf(),
            forall|i: int| 0 <= i < r.cells().len() ==> #[trigger] r.cells()[i] == 0,
    {
        VerticalMirroringNameAndAttributeTable { ram: table_ram(2) }
    }
}

impl NameAndAttributeTablesMemoryMapper for VerticalMirroringNameAndAttributeTable {
    closed spec fn cells(&self) -> Seq<u8> {
        self.ram@
    }

    open spec fn physical(&self, table: u8) -> int {
        (table % 2) as int
    }

    closed spec fn wf(&self) -> bool {
        self.ram@.len() == 2 * TABLE_SIZE
    }

    fn read8(&self, table: u8, offset: u16) -> (r: u8) {
        read_cell(&self.ram, (table % 2) as usize * 0x400 + offset as usize)
    }

    fn write8(&mut self, table: u8, offset: u16, value: u8) {
        write_cell(&mut self.ram, (table % 2) as usize * 0x400 + offset as usize, value);
    }
}

/// All four tables are one physical table.
pub struct SingleNameAndAttributeTable {
    ram: Vec<u8>,
}

impl SingleNameAndAttributeTable {
    pub fn new() -> (r: Self)
        ensures
            r.wf(),
            forall|i: int| 0 <= i < r.cells().len() ==> #[trigger] r.cells()[i] == 0,
    {
        SingleNameAndAttributeTable { ram: table_ram(1) }
    }
}

impl NameAndAttributeTablesMemoryMapper for SingleNameAndAttributeTable {
    closed spec fn cells(&self) -> Seq<u8> {
        self.ram@
    }

    open spec fn physical(&self, table: u8) -> int {
        0
    }

    closed spec fn wf(&self) -> bool {
        self.ram@.len() == 1 * TABLE_SIZE
    }

    fn read8(&self, table: u8, offset: u16) -> (r: u8) {
        read_cell(&self.ram, (0) as usize * 0x400 + offset as usize)
    }

    fn write8(&mut self, table: u8, offset: u16, value: u8) {
        write_cell(&mut self.ram, (0) as usize * 0x400 + offset as usize, value);
    }
}

/// Four physical tables, one behind each logical table.
pub struct FourWayMirroringNameAndAttributeTable {
    ram: Vec<u8>,
}

impl FourWayMirroringNameAndAttributeTable {
    pub fn new() -> (r: Self)
        ensures
            r.wf(),
            forall|i: int| 0 <= i < r.cells().len() ==> #[trigger] r.cells()[i] == 0,
    {
        FourWayMirroringNameAndAttributeTable { ram: table_ram(4) }
    }
}

impl NameAndAttributeTablesMemoryMapper for FourWayMirroringNameAndAttributeTable {
    closed spec fn cells(&self) -> Seq<u8> {
        self.ram@
    }

    open spec fn physical(&self, table: u8) -> int {
        table as int
    }

    closed spec fn wf(&self) -> bool {
        self.ram@.len() == 4 * TABLE_SIZE
    }

    fn read8(&self, table: u8, offset: u16) -> (r: u8) {
        read_cell(&self.ram, (table) as usize * 0x400 + offset as usize)
    }

    fn write8(&mut self, table: u8, offset: u16, value: u8) {
        write_cell(&mut self.ram, (table) as usize * 0x400 + offset as usize, value);
    }
}

/// The name tables of one of the four mirrorings, chosen when the cartridge is read.
pub enum NameTables {
    Horizontal(HorizontalMirroringNameAndAttributeTable),
    Vertical(VerticalMirroringNameAndAttributeTable),
    Single(SingleNameAndAttributeTable),
    FourWay(FourWayMirroringNameAndAttributeTable),
}

impl NameTables {
    /// The mirroring that a cartridge's nametable arrangement names.
    pub fn for_arrangement(arrangement: NametableArrangement) -> (r: NameTables)
        ensures
            r.wf(),
            forall|i: int| 0 <= i < r.cells().len() ==> #[trigger] r.cells()[i] == 0,
            arrangement == NametableArrangement::Vertical ==> r is Vertical,
            arrangement == NametableArrangement::Horizontal ==> r is Horizontal,
            arrangement == NametableArrangement::SingleScreenMirroring ==> r is Single,
            arrangement == NametableArrangement::FourScreenMirroring ==> r is FourWay,
    {
        match arrangement {
            NametableArrangement::Vertical => NameTables::Vertical(
                VerticalMirroringNameAndAttributeTable::new(),
            ),
            NametableArrangement::Horizontal => NameTables::Horizontal(
                HorizontalMirroringNameAndAttributeTable::new(),
            ),
            NametableArrangement::SingleScreenMirroring => NameTables::Single(
                SingleNameAndAttributeTable::new(),
            ),
            NametableArrangement::FourScreenMirroring => NameTables::FourWay(
                FourWayMirroringNameAndAttributeTable::new(),
            ),
        }
    }
}

impl NameAndAttributeTablesMemoryMapper for NameTables {
    closed spec fn cells(&self) -> Seq<u8> {
        match self {
            NameTables::Horizontal(t) => t.cells(),
            NameTables::Vertical(t) => t.cells(),
            NameTables::Single(t) => t.cells(),
            NameTables::FourWay(t) => t.cells(),
        }
    }

    open spec fn physical(&self, table: u8) -> int {
        match self {
            NameTables::Horizontal(t) => t.physical(table),
            NameTables::Vertical(t) => t.physical(table),
            NameTables::Single(t) => t.physical(table),
            NameTables::FourWay(t) => t.physical(table),
        }
    }

    closed spec fn wf(&self) -> bool {
        match self {
            NameTables::Horizontal(t) => t.wf(),
            NameTables::Vertical(t) => t.wf(),
            NameTables::Single(t) => t.wf(),
            NameTables::FourWay(t) => t.wf(),
        }
    }

    fn read8(&self, table: u8, offset: u16) -> (r: u8) {
        match self {
            NameTables::Horizontal(t) => t.read8(table, offset),
            NameTables::Vertical(t) => t.read8(table, offset),
            NameTables::Single(t) => t.read8(table, offset),
            NameTables::FourWay(t) => t.read8(table, offset),
        }
    }

    fn write8(&mut self, table: u8, offset: u16, value: u8) {
        match self {
            NameTables::Horizontal(t) => t.write8(table, offset, value),
            NameTables::Vertical(t) => t.write8(table, offset, value),
            NameTables::Single(t) => t.write8(table, offset, value),
            NameTables::FourWay(t) => t.write8(table, offset, value),
        }
    }
}

} // verus!
