use nes6502::cartridge_file::{pgr_rom, Cartridge};
use nes6502::cpu::CPU;
use nes6502::memory::{map_address, MainMemory, Memory, NROMNoMapper, PgrMemoryMapper, Region};

fn nrom_image(prg: u8) -> Vec<u8> {
    let mut d = vec![b'N', b'E', b'S', 0x1a, prg, 0, 0, 0, 0, 0, 0, 0, 0, 0, 0, 0];
    for b in 0..prg {
        let mut block = vec![b + 1; pgr_rom::BLOCK_SIZE];
        block[0] = 0xa0 + b;
        d.extend(block);
    }
    d
}

#[test]
fn address_decoding() {
    assert_eq!(map_address(0x0000), Region::Ram(0));
    assert_eq!(map_address(0x07ff), Region::Ram(0x07ff));
    assert_eq!(map_address(0x0800), Region::Ram(0));
    assert_eq!(map_address(0x1fff), Region::Ram(0x07ff));
    assert_eq!(map_address(0x2000), Region::PpuRegister(0));
    assert_eq!(map_address(0x2009), Region::PpuRegister(1));
    assert_eq!(map_address(0x3fff), Region::PpuRegister(7));
    assert_eq!(map_address(0x4000), Region::ApuIoRegister(0));
    assert_eq!(map_address(0x401f), Region::ApuIoRegister(0x1f));
    assert_eq!(map_address(0x4020), Region::ExpansionRom(0));
    assert_eq!(map_address(0x6000), Region::Sram(0));
    assert_eq!(map_address(0x7fff), Region::Sram(0x1fff));
    assert_eq!(map_address(0x8000), Region::PrgLowerBank(0));
    assert_eq!(map_address(0xbfff), Region::PrgLowerBank(0x3fff));
    assert_eq!(map_address(0xc000), Region::PrgUpperBank(0));
    assert_eq!(map_address(0xffff), Region::PrgUpperBank(0x3fff));
}

#[test]
fn ram_mirrors_and_sram() {
    let c = Cartridge::from_bytes(nrom_image(1)).unwrap();
    let mut m = MainMemory::with_cartridge(&c);
    m.write8(0x0801, 0x5a);
    assert_eq!(m.read8(0x0001), 0x5a);
    assert_eq!(m.read8(0x1801), 0x5a);
    m.write8(0x6123, 0x77);
    assert_eq!(m.read8(0x6123), 0x77);
    m.write8(0x2008, 0x11);
    assert_eq!(m.read8(0x2000), 0x11);
    m.write8(0x4015, 0x0f);
    assert_eq!(m.read8(0x4015), 0x0f);
}

#[test]
fn nrom_with_one_block_mirrors_it_in_both_banks() {
    let c = Cartridge::from_bytes(nrom_image(1)).unwrap();
    let mut m = MainMemory::with_cartridge(&c);
    assert_eq!(m.read8(0x8000), 0xa0);
    assert_eq!(m.read8(0xc000), 0xa0);
    assert_eq!(m.read8(0xc001), 0x01);
    m.write8(0x8000, 0x00);
    assert_eq!(m.read8(0x8000), 0xa0);
}

#[test]
fn nrom_with_two_blocks() {
    let c = Cartridge::from_bytes(nrom_image(2)).unwrap();
    let n = NROMNoMapper::new(&c);
    assert_eq!(n.read8_pgr_lower_bank(0), 0xa0);
    assert_eq!(n.read8_pgr_upper_bank(0), 0xa1);
    assert_eq!(n.read8_pgr_upper_bank(0x3fff), 0x02);
}

#[test]
fn cpu_runs_from_cartridge_reset_vector_region() {
    let mut d = nrom_image(1);
    // LDA #$42 ; STA $0200 at 0xc010
    let code = [0xa9, 0x42, 0x8d, 0x00, 0x02];
    for (i, b) in code.iter().enumerate() {
        d[16 + 0x10 + i] = *b;
    }
    let c = Cartridge::from_bytes(d).unwrap();
    let mut m = MainMemory::with_cartridge(&c);
    let mut cpu = CPU::new();
    cpu.pc = 0xc010;
    cpu.step(&mut m);
    cpu.step(&mut m);
    assert_eq!(m.read8(0x0a00), 0x42);
    assert_eq!(cpu.clock, 6);
}
