//! The iNES 1.0 cartridge image: a 16-byte header, an optional 512-byte trainer, then the
//! program ROM and the character ROM.

use vstd::prelude::*;

pub mod chr_rom;
pub mod pgr_ram;
pub mod pgr_rom;

verus! {

#[derive(Debug, Clone, Copy, PartialEq, Eq, Structural)]
pub enum CartridgeError {
    BadHeader,
    UnrecognizedMemoryMapper(u8),
    MissingTrainer,
    MissingPRGROM,
    MissingCHRROM,
}

#[derive(Debug, Clone, Copy, PartialEq, Eq, Structural)]
pub enum NametableArrangement {
    Vertical,
    Horizontal,
    SingleScreenMirroring,
    FourScreenMirroring,
}

/// The nametable arrangement that byte 6 of the header gives: four-screen (bit 3) before
/// horizontal (bit 0 set) or vertical (bit 0 clear).
pub open spec fn arrangement_of(flags6: u8) -> NametableArrangement {
    if flags6 & 8 != 0 {
        NametableArrangement::FourScreenMirroring
    } else if flags6 & 1 != 0 {
        NametableArrangement::Horizontal
    } else {
        NametableArrangement::Vertical
    }
}

#[derive(Debug, Clone, Copy, PartialEq, Eq, Structural)]
pub enum TVSystem {
    NTSC,
    PAL,
    Both,
}

#[derive(Debug, Clone, Copy, PartialEq, Eq, Structural)]
pub enum MemoryMapper {
    NROM,
}

const PRG_ROM_INDEX: usize = 4;

const TRAINER_SIZE: usize = 512;

/// The mapper number: the high nibble of byte 7 over the high nibble of byte 6.
pub open spec fn mapper_number(h: Seq<u8>) -> int {
    (h[7] / 16) * 16 + h[6] / 16
}

/// Why the 16 header bytes `h` are refused, if they are.
pub open spec fn header_error(h: Seq<u8>) -> Option<CartridgeError> {
    if !(h[0] == 0x4e && h[1] == 0x45 && h[2] == 0x53 && h[3] == 0x1a) {
        Some(CartridgeError::BadHeader)
    } else if h[4] == 0 {
        Some(CartridgeError::MissingPRGROM)
    } else if mapper_number(h) != 0 {
        Some(CartridgeError::UnrecognizedMemoryMapper(mapper_number(h) as u8))
    } else {
        None
    }
}

pub open spec fn trainer_len(h: Seq<u8>) -> int {
    if h[6] & 4 != 0 {
        512
    } else {
        0
    }
}

/// Where the program ROM starts in an image with header `h`.
pub open spec fn prg_start(h: Seq<u8>) -> int {
    16 + trainer_len(h)
}

pub open spec fn chr_start(h: Seq<u8>) -> int {
    prg_start(h) + h[4] * pgr_rom::BLOCK_SIZE
}

pub open spec fn image_end(h: Seq<u8>) -> int {
    chr_start(h) + h[5] * chr_rom::BLOCK_SIZE
}

/// Why the image `d` is refused, if it is.
pub open spec fn cartridge_error(d: Seq<u8>) -> Option<CartridgeError> {
    if d.len() < 16 {
        Some(CartridgeError::BadHeader)
    } else if header_error(d.subrange(0, 16)) is Some {
        header_error(d.subrange(0, 16))
    } else if d.len() < prg_start(d) {
        Some(CartridgeError::MissingTrainer)
    } else if d.len() < chr_start(d) {
        Some(CartridgeError::MissingPRGROM)
    } else if d.len() < image_end(d) {
        Some(CartridgeError::MissingCHRROM)
    } else {
        None
    }
}

pub struct Header {
    data: [u8; 16],
    mapper: MemoryMapper,
}

pub struct Trainer(Vec<u8>);

impl Trainer {
    pub closed spec fn view(&self) -> Seq<u8> {
        self.0@
    }

    pub fn bytes(&self) -> (r: &Vec<u8>)
        ensures
            r@ == self@,
    {
        &self.0
    }
}

impl Header {
    pub closed spec fn view(&self) -> Seq<u8> {
        self.data@
    }

    /// Checks the magic number, that there is program ROM, and that the mapper is known.
    pub fn new(data: [u8; 16]) -> (r: Result<Header, CartridgeError>)
        ensures
            match r {
                Ok(h) => header_error(data@) is None && h@ == data@,
                Err(e) => header_error(data@) == Some(e),
            },
    {
        if !(data[0] == 0x4e && data[1] == 0x45 && data[2] == 0x53 && data[3] == 0x1a) {
            return Err(CartridgeError::BadHeader);
        }
        if data[PRG_ROM_INDEX] == 0 {
            return Err(CartridgeError::MissingPRGROM);
        }
        let low = data[6] / 16;
        let high = (data[7] / 16) * 16;
        let mapper = low + high;
        if mapper != 0 {
            return Err(CartridgeError::UnrecognizedMemoryMapper(mapper));
        }
        Ok(Header { data, mapper: MemoryMapper::NROM })
    }

    pub fn prg_rom_size(&self) -> (r: pgr_rom::Size)
        ensures
            r.0 == self@[4],
    {
        pgr_rom::Size(self.data[PRG_ROM_INDEX])
    }

    pub fn chr_rom_size(&self) -> (r: chr_rom::Size)
        ensures
            r.0 == self@[5],
    {
        chr_rom::Size(self.data[5])
    }

    /// Four-screen mirroring (byte 6, bit 3) takes precedence over bit 0, which picks
    /// horizontal (1) or vertical (0).
    pub fn nametable_arrangement(&self) -> (r: NametableArrangement)
        ensures
            r == arrangement_of(self@[6]),
    {
        let alt_layout = (self.data[6] & 0b0000_1000) != 0;
        let layout = (self.data[6] & 0b0000_0001) != 0;
        if alt_layout {
            NametableArrangement::FourScreenMirroring
        } else if layout {
            NametableArrangement::Horizontal
        } else {
            NametableArrangement::Vertical
        }
    }

    pub fn has_battery_backed_prg_ram(&self) -> (r: bool)
        ensures
            r == (self@[6] & 2 != 0),
    {
        (self.data[6] & 0b0000_0010) != 0
    }

    pub fn has_trainer(&self) -> (r: bool)
        ensures
            r == (self@[6] & 4 != 0),
    {
        (self.data[6] & 0b0000_0100) != 0
    }

    pub fn memory_mapper(&self) -> (r: MemoryMapper)
        ensures
            r == MemoryMapper::NROM,
    {
        self.mapper
    }

    pub fn is_vs_unisystem(&self) -> (r: bool)
        ensures
            r == (self@[7] & 1 != 0),
    {
        (self.data[7] & 0b0000_0001) != 0
    }

    pub fn is_playchoice_10(&self) -> (r: bool)
        ensures
            r == (self@[7] & 2 != 0),
    {
        (self.data[7] & 0b0000_0010) != 0
    }

    /// Bytes 8 to 15 are in the NES 2.0 format.
    pub fn is_nes_2_0(&self) -> (r: bool)
        ensures
            r == (self@[7] & 0x0c == 0x0c),
    {
        (self.data[7] & 0b0000_1100) == 0b0000_1100
    }

    /// Byte 8 in blocks of 8 KiB, where 0 counts as 1.
    pub fn prg_ram_size(&self) -> (r: pgr_ram::Size)
        ensures
            r.0 == if self@[8] == 0 { 1 } else { self@[8] },
    {
        let x = self.data[8];
        pgr_ram::Size(if x == 0 { 1 } else { x })
    }

    pub fn tv_system(&self) -> (r: TVSystem)
        ensures
            r == if self@[10] % 4 == 0 {
                TVSystem::NTSC
            } else if self@[10] % 4 == 2 {
                TVSystem::PAL
            } else {
                TVSystem::Both
            },
    {
        let bits = self.data[10] % 4;
        if bits == 0 {
            TVSystem::NTSC
        } else if bits == 2 {
            TVSystem::PAL
        } else {
            TVSystem::Both
        }
    }

    pub fn has_prg_ram(&self) -> (r: bool)
        ensures
            r == (self@[10] & 0x10 == 0),
    {
        (self.data[10] & 0b0001_0000) == 0
    }

    pub fn has_bus_conflicts(&self) -> (r: bool)
        ensures
            r == (self@[10] & 0x20 != 0),
    {
        (self.data[10] & 0b0010_0000) != 0
    }
}

/// The bytes `data[start..start + len]`.
fn copy_range(data: &Vec<u8>, start: usize, len: usize) -> (r: Vec<u8>)
    requires
        start + len <= data@.len(),
    ensures
        r@ == data@.subrange(start as int, start + len),
{
    let mut r: Vec<u8> = Vec::new();
    let total = data.len();
    let mut i: usize = 0;
    while i < len
        invariant
            i <= len,
            total == data@.len(),
            start + len <= data@.len(),
            r@ == data@.subrange(start as int, start + i),
        decreases len - i,
    {
        r.push(data[start + i]);
        i = i + 1;
        assert(r@ =~= data@.subrange(start as int, start + i));
    }
    r
}

/// `count` blocks of `size` bytes each, read from `data` at `start`.
fn copy_blocks(data: &Vec<u8>, start: usize, count: u8, size: usize) -> (r: Vec<Vec<u8>>)
    requires
        size <= 0x4000,
        start + count * size <= data@.len(),
    ensures
        r@.len() == count,
        forall|i: int|
            0 <= i < count ==> #[trigger] r@[i]@ == data@.subrange(
                start + i * size,
                start + (i + 1) * size,
            ),
{
    let mut results: Vec<Vec<u8>> = Vec::new();
    let total = data.len();
    let mut offset = start;
    let mut i: u8 = 0;
    while i < count
        invariant
            i <= count,
            total == data@.len(),
            size <= 0x4000,
            start + count * size <= data@.len(),
            offset == start + i * size,
            results@.len() == i,
            forall|j: int|
                0 <= j < i ==> #[trigger] results@[j]@ == data@.subrange(
                    start + j * size,
                    start + (j + 1) * size,
                ),
        decreases count - i,
    {
        proof {
            assert((i + 1) * size <= count * size) by (nonlinear_arith)
                requires
                    i < count,
            ;
            assert((i + 1) * size == i * size + size) by (nonlinear_arith);
        }
        let block = copy_range(data, offset, size);
        results.push(block);
        offset = offset + size;
        i = i + 1;
    }
    results
}

pub struct Cartridge {
    header: Header,
    trainer: Option<Trainer>,
    prg_rom_data: Vec<Vec<u8>>,
    chr_rom_data: Vec<Vec<u8>>,
}

impl Cartridge {
    pub closed spec fn header_bytes(&self) -> Seq<u8> {
        self.header@
    }

    pub closed spec fn trainer_bytes(&self) -> Option<Seq<u8>> {
        match self.trainer {
            Some(t) => Some(t@),
            None => None,
        }
    }

    pub closed spec fn prg_blocks(&self) -> Seq<Seq<u8>> {
        self.prg_rom_data@.map_values(|b: Vec<u8>| b@)
    }

    pub closed spec fn chr_blocks(&self) -> Seq<Seq<u8>> {
        self.chr_rom_data@.map_values(|b: Vec<u8>| b@)
    }

    /// At least one program ROM block; every block of its full size.
    pub open spec fn wf(&self) -> bool {
        &&& self.prg_blocks().len() >= 1
        &&& forall|i: int|
            0 <= i < self.prg_blocks().len() ==> #[trigger] self.prg_blocks()[i].len()
                == pgr_rom::BLOCK_SIZE
        &&& forall|i: int|
            0 <= i < self.chr_blocks().len() ==> #[trigger] self.chr_blocks()[i].len()
                == chr_rom::BLOCK_SIZE
    }

    /// Parses an iNES 1.0 image; fails as `cartridge_error` says.
    pub fn from_bytes(data: Vec<u8>) -> (r: Result<Cartridge, CartridgeError>)
        ensures
            match r {
                Ok(c) => {
                    let d = data@;
                    &&& c.wf()
                    &&& cartridge_error(d) is None
                    &&& c.header_bytes() == d.subrange(0, 16)
                    &&& c.trainer_bytes() == if trainer_len(d) == 0 {
                        None
                    } else {
                        Some(d.subrange(16, 528))
                    }
                    &&& c.prg_blocks().len() == d[4]
                    &&& forall|i: int|
                        0 <= i < d[4] ==> #[trigger] c.prg_blocks()[i] == d.subrange(
                            prg_start(d) + i * pgr_rom::BLOCK_SIZE,
                            prg_start(d) + (i + 1) * pgr_rom::BLOCK_SIZE,
                        )
                    &&& c.chr_blocks().len() == d[5]
                    &&& forall|i: int|
                        0 <= i < d[5] ==> #[trigger] c.chr_blocks()[i] == d.subrange(
                            chr_start(d) + i * chr_rom::BLOCK_SIZE,
                            chr_start(d) + (i + 1) * chr_rom::BLOCK_SIZE,
                        )
                },
                Err(e) => cartridge_error(data@) == Some(e),
            },
    {
        if data.len() < 16 {
            return Err(CartridgeError::BadHeader);
        }
        let mut bytes: [u8; 16] = [0; 16];
        let mut i: usize = 0;
        while i < 16
            invariant
                i <= 16,
                data@.len() >= 16,
                forall|j: int| 0 <= j < i ==> bytes@[j] == data@[j],
            decreases 16 - i,
        {
            bytes[i] = data[i];
            i = i + 1;
        }
        assert(bytes@ =~= data@.subrange(0, 16));
        let header = match Header::new(bytes) {
            Ok(h) => h,
            Err(e) => {
                return Err(e);
            },
        };
        let mut offset: usize = 16;
        let trainer = if header.has_trainer() {
            if data.len() - offset < TRAINER_SIZE {
                return Err(CartridgeError::MissingTrainer);
            }
            let t = Trainer(copy_range(&data, offset, TRAINER_SIZE));
            offset = offset + TRAINER_SIZE;
            Some(t)
        } else {
            None
        };

        let prg = header.prg_rom_size();
        if data.len() - offset < prg.in_bytes() {
            return Err(CartridgeError::MissingPRGROM);
        }
        let prg_rom_data = copy_blocks(&data, offset, prg.in_blocks(), pgr_rom::BLOCK_SIZE);
        offset = offset + prg.in_bytes();

        let chr = header.chr_rom_size();
        if data.len() - offset < chr.in_bytes() {
            return Err(CartridgeError::MissingCHRROM);
        }
        let chr_rom_data = copy_blocks(&data, offset, chr.in_blocks(), chr_rom::BLOCK_SIZE);
        // what follows (PlayChoice INST-ROM and PROM) is not read
        Ok(Cartridge { header, trainer, prg_rom_data, chr_rom_data })
    }

    pub fn header(&self) -> (r: &Header)
        ensures
            r@ == self.header_bytes(),
    {
        &self.header
    }

    /// The program ROM, one block of 16 KiB each.
    pub fn pgr_rom(&self) -> (r: &[Vec<u8>])
        ensures
            r@.len() == self.prg_blocks().len(),
            forall|i: int| 0 <= i < r@.len() ==> #[trigger] r@[i]@ == self.prg_blocks()[i],
    {
        self.prg_rom_data.as_slice()
    }

    /// The character ROM, one block of 8 KiB each.
    pub fn chr_rom(&self) -> (r: &[Vec<u8>])
        ensures
            r@.len() == self.chr_blocks().len(),
            forall|i: int| 0 <= i < r@.len() ==> #[trigger] r@[i]@ == self.chr_blocks()[i],
    {
        self.chr_rom_data.as_slice()
    }
}

} // verus!
