use nes6502::cartridge_file::{pgr_rom, Cartridge};
use nes6502::memory::Memory as Bus;
use nes6502::name_attr_tables_mapper::NameTables;
use nes6502::video::{map_video_address, new_memory_mapper, Memory, VideoRegion};

fn cartridge(flags6: u8) -> Cartridge {
    let mut d = vec![b'N', b'E', b'S', 0x1a, 1, 1, flags6, 0, 0, 0, 0, 0, 0, 0, 0, 0];
    d.extend(vec![0u8; pgr_rom::BLOCK_SIZE]);
    d.extend(vec![0u8; 8192]);
    Cartridge::from_bytes(d).unwrap()
}

#[test]
fn video_address_decoding() {
    assert_eq!(map_video_address(0x0000), VideoRegion::PatternTable(0));
    assert_eq!(map_video_address(0x1fff), VideoRegion::PatternTable(0x1fff));
    assert_eq!(map_video_address(0x2000), VideoRegion::NameTable(0, 0));
    assert_eq!(map_video_address(0x23c0), VideoRegion::NameTable(0, 0x3c0));
    assert_eq!(map_video_address(0x2c05), VideoRegion::NameTable(3, 5));
    assert_eq!(map_video_address(0x3405), VideoRegion::NameTable(1, 5));
    assert_eq!(map_video_address(0x3f00), VideoRegion::Palette(0));
    assert_eq!(map_video_address(0x3f25), VideoRegion::Palette(5));
    assert_eq!(map_video_address(0x4000), VideoRegion::PatternTable(0));
    assert_eq!(map_video_address(0x7f3f), VideoRegion::Palette(0x1f));
}

#[test]
fn mappers_follow_the_header() {
    let (_, _, tables) = new_memory_mapper(&cartridge(0x00));
    assert!(matches!(tables, NameTables::Vertical(_)));
    let (_, _, tables) = new_memory_mapper(&cartridge(0x01));
    assert!(matches!(tables, NameTables::Horizontal(_)));
    let (_, _, tables) = new_memory_mapper(&cartridge(0x08));
    assert!(matches!(tables, NameTables::FourWay(_)));
}

#[test]
fn video_memory_mirrors() {
    let (_, pattern_tables, tables) = new_memory_mapper(&cartridge(0x00));
    let mut m = Memory::new(pattern_tables, tables);
    m.write8(0x2005, 0x11);
    assert_eq!(m.read8(0x2805), 0x11);
    assert_eq!(m.read8(0x3005), 0x11);
    assert_eq!(m.read8(0x2405), 0x00);
    m.write8(0x3f01, 0x22);
    assert_eq!(m.read8(0x3f21), 0x22);
    m.write8(0x0123, 0x33);
    assert_eq!(m.read8(0x4123), 0x33);
    // one CHR block: pattern table 1 is table 0
    assert_eq!(m.read8(0x1123), 0x33);
}

#[test]
fn two_chr_blocks_give_two_pattern_tables() {
    let mut d = vec![b'N', b'E', b'S', 0x1a, 1, 2, 0, 0, 0, 0, 0, 0, 0, 0, 0, 0];
    d.extend(vec![0u8; pgr_rom::BLOCK_SIZE]);
    d.extend(vec![0u8; 2 * 8192]);
    let c = Cartridge::from_bytes(d).unwrap();
    let (_, pattern_tables, tables) = new_memory_mapper(&c);
    let mut m = Memory::new(pattern_tables, tables);
    m.write8(0x0123, 0x33);
    assert_eq!(m.read8(0x0123), 0x33);
    assert_eq!(m.read8(0x1123), 0x00);
}
