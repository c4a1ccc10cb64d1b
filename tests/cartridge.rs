use nes6502::cartridge_file::{
    chr_rom, pgr_ram, pgr_rom, Cartridge, CartridgeError, Header, MemoryMapper,
    NametableArrangement, TVSystem,
};

fn header_bytes(prg: u8, chr: u8, flags6: u8, flags7: u8) -> [u8; 16] {
    let mut h = [0u8; 16];
    h[0] = b'N';
    h[1] = b'E';
    h[2] = b'S';
    h[3] = 0x1a;
    h[4] = prg;
    h[5] = chr;
    h[6] = flags6;
    h[7] = flags7;
    h
}

fn image(prg: u8, chr: u8, flags6: u8) -> Vec<u8> {
    let mut d = header_bytes(prg, chr, flags6, 0).to_vec();
    if flags6 & 4 != 0 {
        d.extend(std::iter::repeat(0xee).take(512));
    }
    for b in 0..prg {
        d.extend(std::iter::repeat(b + 1).take(pgr_rom::BLOCK_SIZE));
    }
    for b in 0..chr {
        d.extend(std::iter::repeat(0x80 + b).take(chr_rom::BLOCK_SIZE));
    }
    d
}

fn error_of(d: Vec<u8>) -> CartridgeError {
    match Cartridge::from_bytes(d) {
        Ok(_) => panic!("the image was accepted"),
        Err(e) => e,
    }
}

#[test]
fn sizes_in_blocks_and_bytes() {
    assert_eq!(pgr_rom::Size(2).in_blocks(), 2);
    assert_eq!(pgr_rom::Size(2).in_bytes(), 32768);
    assert_eq!(chr_rom::Size(3).in_bytes(), 3 * 8192);
    assert_eq!(pgr_ram::Size(1).in_bytes(), 8192);
    assert_eq!(chr_rom::Size(0).in_blocks(), 0);
    assert_eq!(pgr_ram::Size(255).in_blocks(), 255);
    assert_eq!(pgr_rom::Size(255).in_bytes(), 255 * 16384);
}

#[test]
fn parses_nrom_image() {
    let c = Cartridge::from_bytes(image(2, 1, 0x01)).unwrap();
    let h = c.header();
    assert_eq!(h.prg_rom_size().in_blocks(), 2);
    assert_eq!(h.chr_rom_size().in_blocks(), 1);
    assert!(matches!(h.memory_mapper(), MemoryMapper::NROM));
    assert_eq!(c.pgr_rom().len(), 2);
    assert_eq!(c.pgr_rom()[0].len(), pgr_rom::BLOCK_SIZE);
    assert_eq!(c.pgr_rom()[0][0], 1);
    assert_eq!(c.pgr_rom()[1][pgr_rom::BLOCK_SIZE - 1], 2);
    assert_eq!(c.chr_rom().len(), 1);
    assert_eq!(c.chr_rom()[0][5], 0x80);
}

#[test]
fn parses_image_with_trainer_and_chr_ram() {
    let c = Cartridge::from_bytes(image(1, 0, 0x04)).unwrap();
    assert!(c.header().has_trainer());
    assert_eq!(c.pgr_rom()[0][0], 1);
    assert_eq!(c.chr_rom().len(), 0);
}

#[test]
fn short_image_is_bad_header() {
    assert_eq!(error_of(vec![b'N', b'E', b'S']), CartridgeError::BadHeader);
    assert_eq!(error_of(Vec::new()), CartridgeError::BadHeader);
}

#[test]
fn wrong_magic_is_bad_header() {
    let mut d = image(1, 1, 0);
    d[3] = 0x1b;
    assert_eq!(error_of(d), CartridgeError::BadHeader);
}

#[test]
fn zero_prg_blocks_is_missing_prg_rom() {
    assert_eq!(error_of(image(0, 1, 0)), CartridgeError::MissingPRGROM);
}

#[test]
fn truncated_prg_rom() {
    let mut d = image(2, 0, 0);
    d.truncate(16 + pgr_rom::BLOCK_SIZE + 100);
    assert_eq!(error_of(d), CartridgeError::MissingPRGROM);
}

#[test]
fn truncated_chr_rom() {
    let mut d = image(1, 2, 0);
    d.pop();
    assert_eq!(error_of(d), CartridgeError::MissingCHRROM);
}

#[test]
fn truncated_trainer() {
    let d = header_bytes(1, 0, 0x04, 0).to_vec();
    assert_eq!(error_of(d), CartridgeError::MissingTrainer);
}

#[test]
fn unknown_mapper_is_reported_with_its_number() {
    let mut d = image(1, 1, 0);
    d[6] = 0x10;
    d[7] = 0x40;
    assert_eq!(error_of(d), CartridgeError::UnrecognizedMemoryMapper(0x41));
    match Header::new(header_bytes(1, 0, 0x20, 0)) {
        Err(e) => assert_eq!(e, CartridgeError::UnrecognizedMemoryMapper(2)),
        Ok(_) => panic!("mapper 2 was accepted"),
    }
}

#[test]
fn header_flags() {
    let mut bytes = header_bytes(1, 1, 0x0b, 0x0f);
    bytes[8] = 0;
    bytes[10] = 0x32;
    let h = match Header::new(bytes) {
        Ok(h) => h,
        Err(e) => panic!("{:?}", e),
    };
    assert!(h.has_battery_backed_prg_ram());
    assert!(!h.has_trainer());
    assert!(h.is_vs_unisystem());
    assert!(h.is_playchoice_10());
    assert!(h.is_nes_2_0());
    assert_eq!(h.prg_ram_size().in_blocks(), 1);
    assert!(matches!(h.tv_system(), TVSystem::PAL));
    assert!(!h.has_prg_ram());
    assert!(h.has_bus_conflicts());
    assert!(matches!(h.nametable_arrangement(), NametableArrangement::FourScreenMirroring));
}

#[test]
fn header_defaults() {
    let mut bytes = header_bytes(1, 0, 0x00, 0x00);
    bytes[8] = 3;
    bytes[10] = 0x01;
    let h = match Header::new(bytes) {
        Ok(h) => h,
        Err(e) => panic!("{:?}", e),
    };
    assert!(!h.is_nes_2_0());
    assert!(!h.is_vs_unisystem());
    assert_eq!(h.prg_ram_size().in_blocks(), 3);
    assert!(matches!(h.tv_system(), TVSystem::Both));
    assert!(h.has_prg_ram());
    assert!(!h.has_bus_conflicts());
    assert!(matches!(h.nametable_arrangement(), NametableArrangement::Vertical));
    bytes[6] = 0x01;
    bytes[10] = 0x00;
    let h = match Header::new(bytes) {
        Ok(h) => h,
        Err(e) => panic!("{:?}", e),
    };
    assert!(matches!(h.nametable_arrangement(), NametableArrangement::Horizontal));
    assert!(matches!(h.tv_system(), TVSystem::NTSC));
}
