use nes_core::bus::Bus;
use nes_core::cartridge::create_rom;
use nes_core::cartridge::gen_test_rom;
use nes_core::cartridge::Rom;
use nes_core::cartridge::TestRom;
use nes_core::cartridge::CHR_ROM_PAGE_SIZE;
use nes_core::cartridge::PRG_ROM_PAGE_SIZE;
use nes_core::cpu::CPU;
use nes_core::flags::CARRY;
use nes_core::flags::NEGATIV;
use nes_core::flags::OVERFLOW;
use nes_core::flags::ZERO;

/// A CPU over a zero-filled 32KB cartridge, for programs whose final
/// instruction consumes the trailing byte: execution runs one instruction
/// past the program and must land on a halting zero byte.
fn zeroed_cpu() -> CPU {
    let raw = create_rom(TestRom {
        header: vec![
            0x4E, 0x45, 0x53, 0x1A, 0x02, 0x01, 0x31, 00, 00, 00, 00, 00, 00, 00, 00, 00,
        ],
        trainer: None,
        pgp_rom: vec![0; 2 * PRG_ROM_PAGE_SIZE],
        chr_rom: vec![0; 1 * CHR_ROM_PAGE_SIZE],
    });
    CPU::new(Bus::new(Rom::new(&raw).unwrap()))
}

#[test]
fn test_and_working() {
    let bus = Bus::new(gen_test_rom());
    let mut cpu = CPU::new(bus);
    cpu.load_and_run(vec![0xa9, 0xEC, 0x29, 0xE0, 0x00]).unwrap();
    assert_eq!(cpu.register_a, 0xe0);
}

#[test]
fn test_adc() {
    let bus = Bus::new(gen_test_rom());
    let mut cpu = CPU::new(bus);
    cpu.load_and_run(vec![0xa9, 0x10, 0x69, 0x10, 0x00]).unwrap();
    assert_eq!(cpu.register_a, 0x20);
    assert!(!cpu.status.contains(CARRY));
    assert!(!cpu.status.contains(OVERFLOW));
}

#[test]
fn test_adc_carry() {
    let bus = Bus::new(gen_test_rom());
    let mut cpu = CPU::new(bus);
    cpu.load_and_run(vec![0xa9, 0xff, 0x69, 0x10, 0x00]).unwrap();
    assert!(cpu.status.contains(CARRY))
}

#[test]
fn test_adc_overflow_two_positiv() {
    let bus = Bus::new(gen_test_rom());
    let mut cpu = CPU::new(bus);
    cpu.load_and_run(vec![0xa9, 0x50, 0x69, 0x50, 0x00]).unwrap();
    assert!(cpu.status.contains(OVERFLOW))
}

#[test]
fn test_adc_overflow_two_negativ() {
    let bus = Bus::new(gen_test_rom());
    let mut cpu = CPU::new(bus);
    cpu.load_and_run(vec![0xa9, 0xd0, 0x69, 0x90, 0x00]).unwrap();
    assert!(cpu.status.contains(OVERFLOW))
}

#[test]
fn test_asl_acu() {
    let bus = Bus::new(gen_test_rom());
    let mut cpu = CPU::new(bus);
    cpu.load_and_run(vec![0xa9, 0x50, 0x0A, 0x00]).unwrap();
    assert_eq!(cpu.register_a, 0x50 << 1);
}

#[test]
fn test_bit() {
    let bus = Bus::new(gen_test_rom());
    let mut cpu = CPU::new(bus);
    cpu.load_and_run(vec![0xa9, 0x50, 0x2c, 0x00, 0x00]).unwrap();
    assert!(cpu.status.contains(ZERO));

    cpu.mem_write(0x10, 0b1000_0000).unwrap();
    cpu.load_and_run(vec![0xa9, 0b1111_1111, 0x2c, 0x10, 0x00]).unwrap();
    assert!(cpu.status.contains(NEGATIV));

    cpu.mem_write(0x10, 0b0100_0000).unwrap();
    cpu.load_and_run(vec![0xa9, 0b1111_1111, 0x2c, 0x10, 0x00]).unwrap();
    assert!(cpu.status.contains(OVERFLOW))
}

#[test]
fn test_dec() {
    let mut cpu = zeroed_cpu();
    cpu.mem_write(0x10, 0x05).unwrap();
    cpu.load_and_run(vec![0xce, 0x10, 0x00]).unwrap();
    assert_eq!(cpu.mem_read(0x10).unwrap(), 0x04);
}

#[test]
fn test_cmp() {
    let bus = Bus::new(gen_test_rom());
    let mut cpu = CPU::new(bus);
    cpu.mem_write(0x10, 0x05).unwrap();
    cpu.load_and_run(vec![0xa9, 0x10, 0xc9, 0x10, 0x00]).unwrap();
    assert!(cpu.status.contains(CARRY));

    cpu.mem_write(0x10, 0x010).unwrap();
    cpu.load_and_run(vec![0xa9, 0x10, 0xc9, 0x10, 0x00]).unwrap();
    assert!(cpu.status.contains(ZERO));
}

#[test]
fn test_eor() {
    let mut cpu = zeroed_cpu();
    cpu.mem_write(0x10, 0x09).unwrap();
    cpu.load_and_run(vec![0xa9, 0x10, 0x4D, 0x10, 0x00]).unwrap();
    assert_eq!(cpu.register_a, 0x10 ^ 0x09);
}

#[test]
fn test_lsr() {
    let mut cpu = zeroed_cpu();
    cpu.mem_write(0x10, 0x08).unwrap();
    cpu.load_and_run(vec![0x4e, 0x10, 0x00]).unwrap();
    assert_eq!(cpu.mem_read(0x10).unwrap(), 0x04)
}

#[test]
fn test_ora() {
    let mut cpu = zeroed_cpu();
    cpu.mem_write(0x10, 0x09).unwrap();
    cpu.load_and_run(vec![0xa9, 0x05, 0x0d, 0x10, 0x00]).unwrap();
    assert_eq!(cpu.register_a, 0x05 | 0x09)
}

#[test]
fn test_rol() {
    let bus = Bus::new(gen_test_rom());
    let mut cpu = CPU::new(bus);
    cpu.load_and_run(vec![0xa9, 0b1100_1111, 0x2a, 0x00]).unwrap();
    assert_eq!(cpu.register_a, 0b1001_1110);
    assert!(cpu.status.contains(CARRY));
}

#[test]
fn test_ror() {
    let bus = Bus::new(gen_test_rom());
    let mut cpu = CPU::new(bus);
    cpu.load_and_run(vec![0xa9, 0b1100_1111, 0x6a, 0x00]).unwrap();
    assert_eq!(cpu.register_a, 0b0110_0111);
    assert!(cpu.status.contains(CARRY));
}

#[test]
fn test_sbc() {
    let bus = Bus::new(gen_test_rom());
    let mut cpu = CPU::new(bus);
    cpu.load_and_run(vec![0xa9, 0x50, 0xe9, 0x30, 0x00]).unwrap();
    assert_eq!(cpu.register_a, 0x1f);
}

#[test]
fn test_sbc_carry() {
    let bus = Bus::new(gen_test_rom());
    let mut cpu = CPU::new(bus);
    cpu.load_and_run(vec![0xa9, 0xff, 0x69, 0x02, 0xe9, 0x01, 0x00]).unwrap();
    assert!(cpu.status.contains(CARRY));
}
