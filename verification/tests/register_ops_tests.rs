use nes_core::bus::Bus;
use nes_core::cartridge::create_rom;
use nes_core::cartridge::Rom;
use nes_core::cartridge::TestRom;
use nes_core::cartridge::CHR_ROM_PAGE_SIZE;
use nes_core::cartridge::PRG_ROM_PAGE_SIZE;
use nes_core::cpu::CPU;
use nes_core::flags::CARRY;
use nes_core::flags::NEGATIV;
use nes_core::flags::ZERO;

/// A CPU over a blank (zero-filled) 32KB cartridge, so that memory reads
/// outside the loaded program return zero.
fn blank_cpu() -> CPU {
    let raw = create_rom(TestRom {
        header: vec![
            0x4E, 0x45, 0x53, 0x1A, 0x02, 0x01, 0x31, 00, 00, 00, 00, 00, 00, 00, 00, 00,
        ],
        trainer: None,
        pgp_rom: vec![0; 2 * PRG_ROM_PAGE_SIZE],
        chr_rom: vec![0; 1 * CHR_ROM_PAGE_SIZE],
    });
    CPU::new(Bus::new(Rom::new(&raw).unwrap()))
}

#[test]
fn test_cpx() {
    let mut cpu = blank_cpu();
    cpu.mem_write(0x10, 0x05).unwrap();
    cpu.load_and_run(vec![0xa2, 0x10, 0xe0, 0x10, 0x00]).unwrap();
    assert!(cpu.status.contains(CARRY));

    cpu.mem_write(0x10, 0x010).unwrap();
    cpu.load_and_run(vec![0xa2, 0x10, 0xe0, 0x10, 0x00]).unwrap();
    assert!(cpu.status.contains(ZERO));
}

#[test]
fn test_cpy() {
    let mut cpu = blank_cpu();
    cpu.mem_write(0x10, 0x05).unwrap();
    cpu.load_and_run(vec![0xa0, 0x10, 0xc0, 0x10, 0x00]).unwrap();
    assert!(cpu.status.contains(CARRY));

    cpu.mem_write(0x10, 0x010).unwrap();
    cpu.load_and_run(vec![0xa0, 0x10, 0xc0, 0x10, 0x00]).unwrap();
    assert!(cpu.status.contains(ZERO));
}

#[test]
fn test_0xa9_lda_immediate_load_data() {
    let mut cpu = blank_cpu();
    cpu.load_and_run(vec![0xa9, 0x05, 0x00]).unwrap();
    assert_eq!(cpu.register_a, 0x05);
    assert!(!cpu.status.contains(ZERO));
    assert!(!cpu.status.contains(NEGATIV));
}

#[test]
fn test_0xa5_lda_zero_page() {
    let mut cpu = blank_cpu();
    cpu.mem_write(0x10, 0x55).unwrap();

    cpu.load_and_run(vec![0xa5, 0x10, 0x00]).unwrap();
    assert_eq!(cpu.register_a, 0x55);
}

#[test]
fn test_0xb5_lda_zero_page_x() {
    let mut cpu = blank_cpu();
    cpu.mem_write(0x20, 0x55).unwrap();

    cpu.load_and_run(vec![0xa9, 0x10, 0xaa, 0xb5, 0x10, 0x00]).unwrap();
    assert_eq!(cpu.register_a, 0x55);
}

#[test]
fn test_0xa9_lda_zero_flag() {
    let mut cpu = blank_cpu();
    cpu.load_and_run(vec![0xa9, 0x00, 0x00]).unwrap();
    assert!(cpu.status.contains(ZERO));
}

#[test]
fn test_0xa9_lda_negative_flag() {
    let mut cpu = blank_cpu();
    cpu.load_and_run(vec![0xa9, 0xff, 0x00]).unwrap();

    assert!(cpu.status.contains(NEGATIV));
}

#[test]
fn test_dex() {
    let mut cpu = blank_cpu();
    cpu.load_and_run(vec![0xa2, 0x05, 0xca, 0x00]).unwrap();
    assert_eq!(cpu.register_x, 0x04);
}

#[test]
fn test_dey() {
    let mut cpu = blank_cpu();
    cpu.load_and_run(vec![0xa0, 0x05, 0x88, 0x00]).unwrap();
    assert_eq!(cpu.register_y, 0x04);
}

#[test]
fn test_ldx() {
    let mut cpu = blank_cpu();
    cpu.load_and_run(vec![0xa2, 0xff, 0x00]).unwrap();

    assert_eq!(cpu.register_x, 0xff);
}

#[test]
fn test_ldy() {
    let mut cpu = blank_cpu();
    cpu.load_and_run(vec![0xa0, 0xff, 0x00]).unwrap();

    assert_eq!(cpu.register_y, 0xff);
}

#[test]
fn test_0xaa_tax_copy_data() {
    let mut cpu = blank_cpu();
    cpu.load_and_run(vec![0xa9, 0xc0, 0xaa, 0x00]).unwrap();

    assert_eq!(cpu.register_a, cpu.register_x);
}

#[test]
fn test_0xaa_tax_move_a_to_x() {
    let mut cpu = blank_cpu();
    cpu.load_and_run(vec![0xa9, 0x0A, 0xaa, 0x00]).unwrap();

    assert_eq!(cpu.register_x, 10)
}

#[test]
fn test_inc() {
    let mut cpu = blank_cpu();
    cpu.mem_write(0x10, 0x05).unwrap();
    cpu.load_and_run(vec![0xee, 0x10]).unwrap();

    assert_eq!(cpu.mem_read(0x10).unwrap(), 0x06);
}

#[test]
fn test_inx() {
    let mut cpu = blank_cpu();
    cpu.load_and_run(vec![0xa2, 0x05, 0xe8, 0x00]).unwrap();

    assert_eq!(cpu.register_x, 0x06);
}

#[test]
fn test_iny() {
    let mut cpu = blank_cpu();
    cpu.load_and_run(vec![0xa0, 0x05, 0xc8, 0x00]).unwrap();

    assert_eq!(cpu.register_y, 0x06);
}

#[test]
fn test_inx_overflow() {
    let mut cpu = blank_cpu();
    cpu.load_and_run(vec![0xa9, 0xff, 0xaa, 0xe8, 0xe8, 0x00]).unwrap();

    assert_eq!(cpu.register_x, 1)
}
