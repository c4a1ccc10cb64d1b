use vstd::prelude::*;

use crate::cartridge_file::Cartridge;
use crate::endians::Word;
use crate::isa::extends;

verus! {

/// One access that the processor made on the bus: the address and the byte read or written.
#[derive(Clone, Copy, Debug, PartialEq, Eq, Structural)]
pub enum BusOp {
    Read { address: u16, value: u8 },
    Write { address: u16, value: u8 },
}

impl BusOp {
    pub open spec fn address(self) -> u16 {
        match self {
            BusOp::Read { address, .. } => address,
            BusOp::Write { address, .. } => address,
        }
    }

    pub open spec fn value(self) -> u8 {
        match self {
            BusOp::Read { value, .. } => value,
            BusOp::Write { value, .. } => value,
        }
    }
}

/// The address one past `address`, wrapping in the 16-bit space.
pub open spec fn next_address(address: u16) -> u16 {
    if address == 0xffff {
        0
    } else {
        (address + 1) as u16
    }
}

/// The bus the processor talks to.
///
/// A bus may give different bytes for two reads of one address, so nothing is said of what a
/// read returns. What is said is the log of accesses: each read and each write appends one entry,
/// and the processor's behaviour is stated over that log.
pub trait Memory {
    /// Every access made on this bus so far, oldest first.
    spec fn ops(&self) -> Seq<BusOp>;

    /// The bus's own consistency, which every access keeps.
    spec fn wf(&self) -> bool;

    fn read8(&mut self, address: u16) -> (r: u8)
        ensures
            final(self).ops() == old(self).ops().push(BusOp::Read { address, value: r }),
            old(self).wf() ==> final(self).wf(),
    ;

    fn write8(&mut self, address: u16, value: u8)
        ensures
            final(self).ops() == old(self).ops().push(BusOp::Write { address, value }),
            old(self).wf() ==> final(self).wf(),
    ;

    /// Reads `address`, then the address after it, and joins the two bytes low byte first.
    fn read16(&mut self, address: u16) -> (r: u16)
        ensures
            final(self).ops() == old(self).ops().push(
                BusOp::Read { address, value: (r % 256) as u8 },
            ).push(BusOp::Read { address: next_address(address), value: (r / 256) as u8 }),
            old(self).wf() ==> final(self).wf(),
    {
        let low = self.read8(address);
        let high = self.read8(address.wrapping_add(1));
        Word { low, high }.to_u16()
    }

    /// Writes the low byte of `value` at `address`, then its high byte at the address after it.
    fn write16(&mut self, address: u16, value: u16)
        ensures
            final(self).ops() == old(self).ops().push(
                BusOp::Write { address, value: (value % 256) as u8 },
            ).push(BusOp::Write { address: next_address(address), value: (value / 256) as u8 }),
            old(self).wf() ==> final(self).wf(),
    {
        let w = Word::from_u16(value);
        self.write8(address, w.low);
        self.write8(address.wrapping_add(1), w.high);
    }
}

/// The cells of a memory after the accesses `ops`, starting from `cells`: each write stores its
/// byte, reads change nothing.
pub open spec fn replay(cells: Seq<u8>, ops: Seq<BusOp>) -> Seq<u8>
    decreases ops.len(),
{
    if ops.len() == 0 {
        cells
    } else {
        match ops.last() {
            BusOp::Write { address, value } => replay(cells, ops.drop_last()).update(
                address as int,
                value,
            ),
            BusOp::Read { .. } => replay(cells, ops.drop_last()),
        }
    }
}

/// Every read among `ops` returned what the cell held at that moment, starting from `cells`.
pub open spec fn reads_agree(cells: Seq<u8>, ops: Seq<BusOp>) -> bool
    decreases ops.len(),
{
    if ops.len() == 0 {
        true
    } else {
        &&& reads_agree(cells, ops.drop_last())
        &&& match ops.last() {
            BusOp::Read { address, value } => replay(cells, ops.drop_last())[address as int]
                == value,
            BusOp::Write { .. } => true,
        }
    }
}

/// Accesses `a` then `t` replay as `a` and then `t` from where `a` left the cells.
pub proof fn lemma_replay_append(cells: Seq<u8>, a: Seq<BusOp>, t: Seq<BusOp>)
    ensures
        replay(cells, a + t) == replay(replay(cells, a), t),
        reads_agree(cells, a + t) == (reads_agree(cells, a) && reads_agree(replay(cells, a), t)),
    decreases t.len(),
{
    if t.len() == 0 {
        assert(a + t =~= a);
    } else {
        lemma_replay_append(cells, a, t.drop_last());
        assert((a + t).drop_last() =~= a + t.drop_last());
        assert((a + t).last() == t.last());
    }
}

/// What cell `address` holds just before access `i` of `ops`, starting from `cells`: the byte of
/// the latest write to it among the first `i` accesses, else its starting byte.
pub open spec fn cell_before(cells: Seq<u8>, ops: Seq<BusOp>, i: int, address: u16) -> u8
    decreases i,
{
    if i <= 0 {
        cells[address as int]
    } else if ops[i - 1] == (BusOp::Write { address, value: ops[i - 1].value() }) {
        ops[i - 1].value()
    } else {
        cell_before(cells, ops, i - 1, address)
    }
}

proof fn lemma_cell_before_prefix(cells: Seq<u8>, t: Seq<BusOp>, t2: Seq<BusOp>, i: int, address: u16)
    requires
        0 <= i <= t.len(),
        i <= t2.len(),
        forall|j: int| 0 <= j < i ==> t[j] == t2[j],
    ensures
        cell_before(cells, t, i, address) == cell_before(cells, t2, i, address),
    decreases i,
{
    if i > 0 {
        lemma_cell_before_prefix(cells, t, t2, i - 1, address);
    }
}

/// `reads_agree` and `replay` access by access: each read returned the byte its cell held just
/// before it, and afterwards each cell holds the byte of its latest write.
pub proof fn lemma_each_access(cells: Seq<u8>, t: Seq<BusOp>)
    requires
        cells.len() == 0x10000,
        reads_agree(cells, t),
    ensures
        forall|i: int|
            0 <= i < t.len() && #[trigger] t[i] == (BusOp::Read {
                address: t[i].address(),
                value: t[i].value(),
            }) ==> t[i].value() == cell_before(cells, t, i, t[i].address()),
        forall|a: u16| #[trigger] replay(cells, t)[a as int] == cell_before(cells, t, t.len() as int, a),
        replay(cells, t).len() == 0x10000,
    decreases t.len(),
{
    if t.len() > 0 {
        let t0 = t.drop_last();
        lemma_each_access(cells, t0);
        let n = t.len() - 1;
        assert forall|a: u16| #[trigger] replay(cells, t)[a as int] == cell_before(cells, t, t.len() as int, a) by {
            lemma_cell_before_prefix(cells, t, t0, n, a);
        }
        assert forall|i: int|
            0 <= i < t.len() && #[trigger] t[i] == (BusOp::Read {
                address: t[i].address(),
                value: t[i].value(),
            }) implies t[i].value() == cell_before(cells, t, i, t[i].address()) by {
            lemma_cell_before_prefix(cells, t, t0, i, t[i].address());
            if i < n {
                assert(t0[i] == t[i]);
            }
        }
    }
}

/// 64 KiB of zero bytes.
pub open spec fn zeroed() -> Seq<u8> {
    Seq::new(0x10000, |i: int| 0u8)
}

/// A flat 64 KiB memory with no decoding: every address is its own cell, a read returns what the
/// cell holds and a write stores its byte there.
pub struct FlatMemory {
    data: Vec<u8>,
    log: Ghost<Seq<BusOp>>,
}

impl FlatMemory {
    pub closed spec fn cells(&self) -> Seq<u8> {
        self.data@
    }

    /// A memory whose every cell holds zero, with no access made yet.
    pub fn new() -> (r: FlatMemory)
        ensures
            r.wf(),
            r.ops() == Seq::<BusOp>::empty(),
            r.cells() == zeroed(),
    {
        let mut data: Vec<u8> = Vec::new();
        let mut i: usize = 0;
        while i < 0x10000
            invariant
                i <= 0x10000,
                data@.len() == i,
                forall|j: int| 0 <= j < i ==> #[trigger] data@[j] == 0,
            decreases 0x10000 - i,
        {
            data.push(0);
            i = i + 1;
        }
        assert(data@ =~= zeroed());
        FlatMemory { data, log: Ghost(Seq::empty()) }
    }

    /// The byte held at `address`, read without an access on the bus.
    pub fn peek(&self, address: u16) -> (r: u8)
        requires
            self.wf(),
        ensures
            r == self.cells()[address as int],
    {
        self.data[address as usize]
    }

    /// From `m0` to a later `m1` of the same memory, each access in between read what its cell
    /// held just before it, and the cells end as the latest writes left them. For the few
    /// accesses of one step, `reveal_with_fuel(cell_before, 8)` spells `cell_before` out.
    pub proof fn lemma_continues(m0: &FlatMemory, m1: &FlatMemory)
        requires
            m0.wf(),
            m1.wf(),
            extends(m0.ops(), m1.ops()),
        ensures
            ({
                let t = m1.ops().subrange(m0.ops().len() as int, m1.ops().len() as int);
                &&& reads_agree(m0.cells(), t)
                &&& m1.cells() == replay(m0.cells(), t)
                &&& forall|i: int|
                    0 <= i < t.len() && #[trigger] t[i] == (BusOp::Read {
                        address: t[i].address(),
                        value: t[i].value(),
                    }) ==> t[i].value() == cell_before(m0.cells(), t, i, t[i].address())
                &&& forall|a: u16| #[trigger] m1.cells()[a as int] == cell_before(
                    m0.cells(),
                    t,
                    t.len() as int,
                    a,
                )
            }),
    {
        let t = m1.ops().subrange(m0.ops().len() as int, m1.ops().len() as int);
        assert(m1.ops() =~= m0.ops() + t);
        lemma_replay_append(zeroed(), m0.ops(), t);
        lemma_each_access(m0.cells(), t);
    }
}

impl Memory for FlatMemory {
    closed spec fn ops(&self) -> Seq<BusOp> {
        self.log@
    }

    /// The cells are what the logged writes left, and every logged read saw its cell.
    closed spec fn wf(&self) -> bool {
        &&& self.data@.len() == 0x10000
        &&& self.data@ == replay(zeroed(), self.log@)
        &&& reads_agree(zeroed(), self.log@)
    }

    fn read8(&mut self, address: u16) -> (r: u8)
        ensures
            old(self).wf() ==> r == old(self).cells()[address as int] && final(self).cells()
                == old(self).cells(),
    {
        let r = if (address as usize) < self.data.len() {
            self.data[address as usize]
        } else {
            0
        };
        let ghost old_log = self.log@;
        self.log = Ghost(self.log@.push(BusOp::Read { address, value: r }));
        assert(self.log@.drop_last() =~= old_log);
        r
    }

    fn write8(&mut self, address: u16, value: u8)
        ensures
            old(self).wf() ==> final(self).cells() == old(self).cells().update(
                address as int,
                value,
            ),
    {
        if (address as usize) < self.data.len() {
            self.data.set(address as usize, value);
        }
        let ghost old_log = self.log@;
        self.log = Ghost(self.log@.push(BusOp::Write { address, value }));
        assert(self.log@.drop_last() =~= old_log);
    }
}

const TOTAL_RAM_SIZE: u16 = 0x0800;

const RAM_MIRROR_END: u16 = 0x2000;

const IO_REGISTER_LOWER_START: u16 = 0x2000;

const IO_REGISTER_LOWER_SIZE: u16 = 8;

const IO_REGISTER_MIRROR_END: u16 = 0x4000;

const IO_REGISTER_UPPER_START: u16 = 0x4000;

const IO_REGISTER_UPPER_END: u16 = 0x4020;

const EXPANSION_ROM_END: u16 = 0x6000;

const SRAM_START: u16 = 0x6000;

const SRAM_END: u16 = 0x8000;

const PRG_BANK_SIZE: u16 = 0x4000;

const PRG_LOWER_BANK_START: u16 = 0x8000;

const PRG_UPPER_BANK_START: u16 = 0xc000;

/// Where a CPU address lands on the NES bus, with the offset inside that region.
#[derive(Clone, Copy, Debug, PartialEq, Eq, Structural)]
pub enum Region {
    /// The 2 KiB of RAM, mirrored up to 0x2000.
    Ram(u16),
    /// The eight PPU registers, mirrored up to 0x4000.
    PpuRegister(u16),
    /// The APU and I/O registers.
    ApuIoRegister(u16),
    ExpansionRom(u16),
    Sram(u16),
    PrgLowerBank(u16),
    PrgUpperBank(u16),
}

/// The CPU memory map of the NES.
pub open spec fn region_of(address: u16) -> Region {
    if address < 0x2000 {
        Region::Ram(address % 0x0800)
    } else if address < 0x4000 {
        Region::PpuRegister(((address - 0x2000) % 8) as u16)
    } else if address < 0x4020 {
        Region::ApuIoRegister((address - 0x4000) as u16)
    } else if address < 0x6000 {
        Region::ExpansionRom((address - 0x4020) as u16)
    } else if address < 0x8000 {
        Region::Sram((address - 0x6000) as u16)
    } else if address < 0xc000 {
        Region::PrgLowerBank((address - 0x8000) as u16)
    } else {
        Region::PrgUpperBank((address - 0xc000) as u16)
    }
}

/// Decodes a CPU address into its region and the offset there.
pub fn map_address(address: u16) -> (r: Region)
    ensures
        r == region_of(address),
{
    if address < RAM_MIRROR_END {
        // zero page, stack, ram and their mirrors
        Region::Ram(address % TOTAL_RAM_SIZE)
    } else if address < IO_REGISTER_MIRROR_END {
        Region::PpuRegister((address - IO_REGISTER_LOWER_START) % IO_REGISTER_LOWER_SIZE)
    } else if address < IO_REGISTER_UPPER_END {
        Region::ApuIoRegister(address - IO_REGISTER_UPPER_START)
    } else if address < EXPANSION_ROM_END {
        Region::ExpansionRom(address - IO_REGISTER_UPPER_END)
    } else if address < SRAM_END {
        // persistent ram for save games
        Region::Sram(address - SRAM_START)
    } else if address < PRG_UPPER_BANK_START {
        Region::PrgLowerBank(address - PRG_LOWER_BANK_START)
    } else {
        Region::PrgUpperBank(address - PRG_UPPER_BANK_START)
    }
}

/// The cartridge's program ROM as the CPU sees it, in two banks of 16 KiB.
pub trait PgrMemoryMapper {
    /// The bank mapped at 0x8000.
    spec fn lower_bank(&self) -> Seq<u8>;

    /// The bank mapped at 0xc000.
    spec fn upper_bank(&self) -> Seq<u8>;

    /// Reads from whatever bank is set as the lower bank; `address` is below the bank size.
    fn read8_pgr_lower_bank(&self, address: u16) -> (r: u8)
        requires
            address < 0x4000,
        ensures
            address < self.lower_bank().len() ==> r == self.lower_bank()[address as int],
    ;

    /// As the lower bank, for whatever bank is set as the upper bank.
    fn read8_pgr_upper_bank(&self, address: u16) -> (r: u8)
        requires
            address < 0x4000,
        ensures
            address < self.upper_bank().len() ==> r == self.upper_bank()[address as int],
    ;

    /// Mappers take their register writes in the program ROM's range, `address` below 0x8000.
    fn write8_pgr(&mut self, address: u16, value: u8)
        requires
            address < 0x8000,
    ;
}

/// NROM: the first and the last program block, no bank switching and no registers.
pub struct NROMNoMapper {
    lower: Vec<u8>,
    upper: Vec<u8>,
}

impl NROMNoMapper {
    pub fn new(cartridge: &Cartridge) -> (r: NROMNoMapper)
        requires
            cartridge.wf(),
        ensures
            r.lower_bank() == cartridge.prg_blocks()[0],
            r.upper_bank() == cartridge.prg_blocks()[cartridge.prg_blocks().len() - 1],
            r.lower_bank().len() == 0x4000,
            r.upper_bank().len() == 0x4000,
    {
        let blocks = cartridge.pgr_rom();
        let lower = blocks[0].clone();
        let upper = blocks[blocks.len() - 1].clone();
        NROMNoMapper { lower, upper }
    }
}

impl PgrMemoryMapper for NROMNoMapper {
    closed spec fn lower_bank(&self) -> Seq<u8> {
        self.lower@
    }

    closed spec fn upper_bank(&self) -> Seq<u8> {
        self.upper@
    }

    fn read8_pgr_lower_bank(&self, address: u16) -> (r: u8) {
        if (address as usize) < self.lower.len() {
            self.lower[address as usize]
        } else {
            0
        }
    }

    fn read8_pgr_upper_bank(&self, address: u16) -> (r: u8) {
        if (address as usize) < self.upper.len() {
            self.upper[address as usize]
        } else {
            0
        }
    }

    /// This mapper has no registers: its banks stay as they are.
    fn write8_pgr(&mut self, _address: u16, _value: u8)
        ensures
            final(self).lower_bank() == old(self).lower_bank(),
            final(self).upper_bank() == old(self).upper_bank(),
    {
    }
}

/// The CPU bus of the NES: RAM and its mirrors, the PPU and APU registers, SRAM, and the
/// cartridge's program ROM through its mapper.
pub struct MainMemory<P: PgrMemoryMapper> {
    ram: Vec<u8>,
    ppu_registers: Vec<u8>,
    apu_io_registers: Vec<u8>,
    sram: Vec<u8>,
    mapper: P,
    log: Ghost<Seq<BusOp>>,
}

/// `len` zero bytes.
fn zeroes(len: usize) -> (r: Vec<u8>)
    ensures
        r@ == Seq::new(len as nat, |i: int| 0u8),
{
    let mut r: Vec<u8> = Vec::new();
    let mut i: usize = 0;
    while i < len
        invariant
            i <= len,
            r@ == Seq::new(i as nat, |j: int| 0u8),
        decreases len - i,
    {
        r.push(0);
        i = i + 1;
        assert(r@ =~= Seq::new(i as nat, |j: int| 0u8));
    }
    r
}

impl<P: PgrMemoryMapper> MainMemory<P> {
    /// The 2 KiB of RAM.
    pub closed spec fn ram(&self) -> Seq<u8> {
        self.ram@
    }

    /// The eight PPU registers as the bus holds them.
    pub closed spec fn ppu_registers(&self) -> Seq<u8> {
        self.ppu_registers@
    }

    /// The 32 APU and I/O registers as the bus holds them.
    pub closed spec fn apu_io_registers(&self) -> Seq<u8> {
        self.apu_io_registers@
    }

    /// The 8 KiB of SRAM.
    pub closed spec fn sram(&self) -> Seq<u8> {
        self.sram@
    }

    pub closed spec fn mapper(&self) -> P {
        self.mapper
    }

    /// A read of `address` returns `r`, the byte of the region that `region_of` names. Expansion
    /// ROM reads as zero.
    pub open spec fn reads_as(&self, address: u16, r: u8) -> bool {
        match region_of(address) {
            Region::Ram(i) => r == self.ram()[i as int],
            Region::PpuRegister(i) => r == self.ppu_registers()[i as int],
            Region::ApuIoRegister(i) => r == self.apu_io_registers()[i as int],
            Region::ExpansionRom(_) => r == 0,
            Region::Sram(i) => r == self.sram()[i as int],
            Region::PrgLowerBank(i) => i < self.mapper().lower_bank().len() ==> r
                == self.mapper().lower_bank()[i as int],
            Region::PrgUpperBank(i) => i < self.mapper().upper_bank().len() ==> r
                == self.mapper().upper_bank()[i as int],
        }
    }

    /// RAM, registers and SRAM are those of `other`.
    pub open spec fn same_cells(&self, other: &Self) -> bool {
        &&& self.ram() == other.ram()
        &&& self.ppu_registers() == other.ppu_registers()
        &&& self.apu_io_registers() == other.apu_io_registers()
        &&& self.sram() == other.sram()
    }

    /// `after` is this memory with `value` written at `address`: the region's cell is updated;
    /// a write to expansion ROM changes nothing, and one to program ROM goes to the mapper.
    pub open spec fn written(&self, after: &Self, address: u16, value: u8) -> bool {
        match region_of(address) {
            Region::Ram(i) => {
                &&& after.ram() == self.ram().update(i as int, value)
                &&& after.ppu_registers() == self.ppu_registers()
                &&& after.apu_io_registers() == self.apu_io_registers()
                &&& after.sram() == self.sram()
                &&& after.mapper() == self.mapper()
            },
            Region::PpuRegister(i) => {
                &&& after.ram() == self.ram()
                &&& after.ppu_registers() == self.ppu_registers().update(i as int, value)
                &&& after.apu_io_registers() == self.apu_io_registers()
                &&& after.sram() == self.sram()
                &&& after.mapper() == self.mapper()
            },
            Region::ApuIoRegister(i) => {
                &&& after.ram() == self.ram()
                &&& after.ppu_registers() == self.ppu_registers()
                &&& after.apu_io_registers() == self.apu_io_registers().update(i as int, value)
                &&& after.sram() == self.sram()
                &&& after.mapper() == self.mapper()
            },
            Region::Sram(i) => {
                &&& after.ram() == self.ram()
                &&& after.ppu_registers() == self.ppu_registers()
                &&& after.apu_io_registers() == self.apu_io_registers()
                &&& after.sram() == self.sram().update(i as int, value)
                &&& after.mapper() == self.mapper()
            },
            Region::ExpansionRom(_) => after.same_cells(self) && after.mapper() == self.mapper(),
            _ => after.same_cells(self),
        }
    }

    /// A bus with all RAM, registers and SRAM at zero.
    pub fn new(mapper: P) -> (r: MainMemory<P>)
        ensures
            r.wf(),
            r.ops() == Seq::<BusOp>::empty(),
            r.mapper() == mapper,
            forall|i: int| 0 <= i < 0x0800 ==> #[trigger] r.ram()[i] == 0,
            forall|i: int| 0 <= i < 0x2000 ==> #[trigger] r.sram()[i] == 0,
    {
        MainMemory {
            ram: zeroes(TOTAL_RAM_SIZE as usize),
            ppu_registers: zeroes(IO_REGISTER_LOWER_SIZE as usize),
            apu_io_registers: zeroes(0x20),
            sram: zeroes((SRAM_END - SRAM_START) as usize),
            mapper,
            log: Ghost(Seq::empty()),
        }
    }
}

impl MainMemory<NROMNoMapper> {
    /// The bus of a cartridge: NROM, the one mapper that a cartridge can name, with its first
    /// and last program blocks.
    pub fn with_cartridge(cartridge: &Cartridge) -> (r: MainMemory<NROMNoMapper>)
        requires
            cartridge.wf(),
        ensures
            r.wf(),
            r.ops() == Seq::<BusOp>::empty(),
            r.mapper().lower_bank() == cartridge.prg_blocks()[0],
            r.mapper().upper_bank() == cartridge.prg_blocks()[cartridge.prg_blocks().len() - 1],
    {
        MainMemory::new(NROMNoMapper::new(cartridge))
    }
}

impl<P: PgrMemoryMapper> Memory for MainMemory<P> {
    closed spec fn ops(&self) -> Seq<BusOp> {
        self.log@
    }

    closed spec fn wf(&self) -> bool {
        &&& self.ram@.len() == 0x0800
        &&& self.ppu_registers@.len() == 8
        &&& self.apu_io_registers@.len() == 0x20
        &&& self.sram@.len() == 0x2000
    }

    fn read8(&mut self, address: u16) -> (r: u8)
        ensures
            old(self).wf() ==> old(self).reads_as(address, r),
            final(self).same_cells(old(self)),
            final(self).mapper() == old(self).mapper(),
    {
        let r = if self.ram.len() == 0x0800 && self.ppu_registers.len() == 8
            && self.apu_io_registers.len() == 0x20 && self.sram.len() == 0x2000 {
            match map_address(address) {
                Region::Ram(i) => self.ram[i as usize],
                Region::PpuRegister(i) => self.ppu_registers[i as usize],
                Region::ApuIoRegister(i) => self.apu_io_registers[i as usize],
                Region::ExpansionRom(_) => 0,
                Region::Sram(i) => self.sram[i as usize],
                Region::PrgLowerBank(i) => self.mapper.read8_pgr_lower_bank(i),
                Region::PrgUpperBank(i) => self.mapper.read8_pgr_upper_bank(i),
            }
        } else {
            0
        };
        self.log = Ghost(self.log@.push(BusOp::Read { address, value: r }));
        r
    }

    fn write8(&mut self, address: u16, value: u8)
        ensures
            old(self).wf() ==> old(self).written(final(self), address, value),
    {
        if self.ram.len() == 0x0800 && self.ppu_registers.len() == 8
            && self.apu_io_registers.len() == 0x20 && self.sram.len() == 0x2000 {
            match map_address(address) {
                Region::Ram(i) => self.ram.set(i as usize, value),
                Region::PpuRegister(i) => self.ppu_registers.set(i as usize, value),
                Region::ApuIoRegister(i) => self.apu_io_registers.set(i as usize, value),
                Region::ExpansionRom(_) => {},
                Region::Sram(i) => self.sram.set(i as usize, value),
                Region::PrgLowerBank(i) => self.mapper.write8_pgr(i, value),
                Region::PrgUpperBank(i) => self.mapper.write8_pgr(i + PRG_BANK_SIZE, value),
            }
        }
        self.log = Ghost(self.log@.push(BusOp::Write { address, value }));
    }
}

} // verus!
