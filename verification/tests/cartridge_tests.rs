use nes_core::cartridge::create_rom;
use nes_core::cartridge::Mirroring;
use nes_core::cartridge::Rom;
use nes_core::cartridge::TestRom;
use nes_core::cartridge::CHR_ROM_PAGE_SIZE;
use nes_core::cartridge::PRG_ROM_PAGE_SIZE;

#[test]
fn test() {
    let test_rom = create_rom(TestRom {
        header: vec![
            0x4E, 0x45, 0x53, 0x1A, 0x02, 0x01, 0x31, 00, 00, 00, 00, 00, 00, 00, 00, 00,
        ],
        trainer: None,
        pgp_rom: vec![1; 2 * PRG_ROM_PAGE_SIZE],
        chr_rom: vec![2; 1 * CHR_ROM_PAGE_SIZE],
    });

    let rom: Rom = Rom::new(&test_rom).unwrap();

    assert_eq!(rom.chr_rom, vec!(2; 1 * CHR_ROM_PAGE_SIZE));
    assert_eq!(rom.prg_rom, vec!(1; 2 * PRG_ROM_PAGE_SIZE));
    assert_eq!(rom.mapper, 3);
    assert_eq!(rom.screen_mirroring, Mirroring::VERTICAL);
}

#[test]
fn test_with_trainer() {
    let test_rom = create_rom(TestRom {
        header: vec![
            0x4E,
            0x45,
            0x53,
            0x1A,
            0x02,
            0x01,
            0x31 | 0b100,
            00,
            00,
            00,
            00,
            00,
            00,
            00,
            00,
            00,
        ],
        trainer: Some(vec![0; 512]),
        pgp_rom: vec![1; 2 * PRG_ROM_PAGE_SIZE],
        chr_rom: vec![2; 1 * CHR_ROM_PAGE_SIZE],
    });

    let rom: Rom = Rom::new(&test_rom).unwrap();

    assert_eq!(rom.chr_rom, vec!(2; 1 * CHR_ROM_PAGE_SIZE));
    assert_eq!(rom.prg_rom, vec!(1; 2 * PRG_ROM_PAGE_SIZE));
    assert_eq!(rom.mapper, 3);
    assert_eq!(rom.screen_mirroring, Mirroring::VERTICAL);
}

#[test]
fn test_nes2_is_not_supported() {
    let test_rom = create_rom(TestRom {
        header: vec![
            0x4E, 0x45, 0x53, 0x1A, 0x01, 0x01, 0x31, 0x8, 00, 00, 00, 00, 00, 00, 00, 00,
        ],
        trainer: None,
        pgp_rom: vec![1; 1 * PRG_ROM_PAGE_SIZE],
        chr_rom: vec![2; 1 * CHR_ROM_PAGE_SIZE],
    });
    let rom = Rom::new(&test_rom);
    match rom {
        Result::Ok(_) => assert!(false, "should not load rom"),
        Result::Err(str) => assert_eq!(str, "iNES2.0 is not supported yet"),
    }
}

#[test]
fn test_bad_magic_is_rejected() {
    let raw: Vec<u8> = vec![0x4E, 0x45, 0x53];
    match Rom::new(&raw) {
        Result::Ok(_) => assert!(false, "should not load rom"),
        Result::Err(msg) => assert_eq!(msg, "File is not in iNES file format"),
    }
}

#[test]
fn test_horizontal_mirroring_and_mapper_nibbles() {
    let test_rom = create_rom(TestRom {
        header: vec![
            0x4E, 0x45, 0x53, 0x1A, 0x01, 0x01, 0x40, 0x20, 00, 00, 00, 00, 00, 00, 00, 00,
        ],
        trainer: None,
        pgp_rom: vec![7; 1 * PRG_ROM_PAGE_SIZE],
        chr_rom: vec![9; 1 * CHR_ROM_PAGE_SIZE],
    });
    let rom = Rom::new(&test_rom).unwrap();
    assert_eq!(rom.mapper, 0x24);
    assert_eq!(rom.screen_mirroring, Mirroring::HORIZONTAL);
    assert_eq!(rom.prg_rom.len(), PRG_ROM_PAGE_SIZE);
    assert_eq!(rom.chr_rom.len(), CHR_ROM_PAGE_SIZE);
}
