use nes_core::bus::Bus;
use nes_core::bus::Fault;
use nes_core::cartridge::create_rom;
use nes_core::cartridge::gen_test_rom;
use nes_core::cartridge::Rom;
use nes_core::cartridge::TestRom;
use nes_core::cartridge::CHR_ROM_PAGE_SIZE;
use nes_core::cartridge::PRG_ROM_PAGE_SIZE;
use nes_core::cpu::CPU;
use nes_core::flags::CARRY;
use nes_core::flags::NEGATIV;
use nes_core::flags::ZERO;

/// A 16KB-PRG cartridge whose bytes vary, to make mirroring observable.
fn small_cartridge_bus() -> Bus {
    let mut prg: Vec<u8> = Vec::with_capacity(PRG_ROM_PAGE_SIZE);
    for i in 0..PRG_ROM_PAGE_SIZE {
        prg.push((i % 251) as u8);
    }
    let raw = create_rom(TestRom {
        header: vec![
            0x4E, 0x45, 0x53, 0x1A, 0x01, 0x01, 0x31, 00, 00, 00, 00, 00, 00, 00, 00, 00,
        ],
        trainer: None,
        pgp_rom: prg,
        chr_rom: vec![0; 1 * CHR_ROM_PAGE_SIZE],
    });
    Bus::new(Rom::new(&raw).unwrap())
}

#[test]
fn test_prg_rom_mirroring_16k() {
    let bus = small_cartridge_bus();
    assert_eq!(bus.mem_read(0x8000).unwrap(), bus.mem_read(0xC000).unwrap());
    assert_eq!(bus.mem_read(0x9123).unwrap(), bus.mem_read(0xD123).unwrap());
    assert_eq!(bus.mem_read(0xBFFF).unwrap(), bus.mem_read(0xFFFF).unwrap());
    assert_eq!(bus.mem_read(0x8005).unwrap(), 5);
}

#[test]
fn test_ram_mirroring() {
    let mut bus = Bus::new(gen_test_rom());
    bus.mem_write(0x0042, 0x99).unwrap();
    assert_eq!(bus.mem_read(0x0842).unwrap(), 0x99);
    assert_eq!(bus.mem_read(0x1042).unwrap(), 0x99);
    assert_eq!(bus.mem_read(0x1842).unwrap(), 0x99);
}

#[test]
fn test_zero_page_x_wraparound() {
    let mut cpu = CPU::new(Bus::new(gen_test_rom()));
    cpu.mem_write(0x00, 0x55).unwrap();
    cpu.mem_write(0xFF, 0x11).unwrap();
    // LDX #1; LDA $FF,X — the base 0xFF plus X wraps to 0x00, not 0x100.
    cpu.load_and_run(vec![0xa2, 0x01, 0xb5, 0xff, 0x00]).unwrap();
    assert_eq!(cpu.register_a, 0x55);
}

#[test]
fn test_jmp_indirect_page_bug() {
    let mut cpu = CPU::new(Bus::new(gen_test_rom()));
    // Pointer bytes at 0x02FF/0x0200: the high byte must come from 0x0200,
    // not 0x0300.
    cpu.mem_write(0x02FF, 0x07).unwrap();
    cpu.mem_write(0x0200, 0x00).unwrap();
    cpu.mem_write(0x0300, 0x03).unwrap();
    cpu.mem_write(0x0007, 0xa9).unwrap();
    cpu.mem_write(0x0008, 0x05).unwrap();
    cpu.mem_write(0x0009, 0x00).unwrap();
    cpu.load_and_run(vec![0x6c, 0xff, 0x02]).unwrap();
    assert_eq!(cpu.register_a, 0x05);
}

#[test]
fn test_adc_sbc_round_trip_program() {
    let mut cpu = CPU::new(Bus::new(gen_test_rom()));
    // SEC; LDA #0x21; ADC #0x17; SBC #0x17 — with the carry set and no
    // overflow the accumulator comes back to where it started.
    cpu.load_and_run(vec![0x38, 0xa9, 0x21, 0x69, 0x17, 0xe9, 0x17, 0x00]).unwrap();
    assert_eq!(cpu.register_a, 0x21);
    assert!(cpu.status.contains(CARRY));
}

#[test]
fn test_sbc_borrow_edge() {
    let mut cpu = CPU::new(Bus::new(gen_test_rom()));
    // A = 0, operand = 1, carry clear: the one's-complement form yields
    // 0xFE with the carry still clear (a borrow).
    cpu.load_and_run(vec![0xa9, 0x00, 0xe9, 0x01, 0x00]).unwrap();
    assert_eq!(cpu.register_a, 0xFE);
    assert!(!cpu.status.contains(CARRY));
    assert!(cpu.status.contains(NEGATIV));
}

#[test]
fn test_zero_and_negative_flags_after_inx() {
    let mut cpu = CPU::new(Bus::new(gen_test_rom()));
    cpu.load_and_run(vec![0xa2, 0xff, 0xe8, 0x00]).unwrap();
    assert_eq!(cpu.register_x, 0x00);
    assert!(cpu.status.contains(ZERO));
    assert!(!cpu.status.contains(NEGATIV));

    cpu.load_and_run(vec![0xa2, 0x7f, 0xe8, 0x00]).unwrap();
    assert_eq!(cpu.register_x, 0x80);
    assert!(!cpu.status.contains(ZERO));
    assert!(cpu.status.contains(NEGATIV));
}

#[test]
fn test_ppu_read_is_reported() {
    let mut cpu = CPU::new(Bus::new(gen_test_rom()));
    let result = cpu.load_and_run(vec![0xad, 0x00, 0x20, 0x00]);
    assert_eq!(result, Err(Fault::PpuUnsupported(0x2000)));
}

#[test]
fn test_rom_write_is_reported() {
    let mut cpu = CPU::new(Bus::new(gen_test_rom()));
    let result = cpu.load_and_run(vec![0xa9, 0x05, 0x8d, 0x00, 0x90, 0x00]);
    assert_eq!(result, Err(Fault::RomWrite(0x9000)));
}

#[test]
fn test_unknown_opcode_is_reported() {
    let mut cpu = CPU::new(Bus::new(gen_test_rom()));
    let result = cpu.load_and_run(vec![0xff]);
    assert_eq!(result, Err(Fault::UnknownOpcode(0xff)));
}

#[test]
fn test_lda_immediate_scenario() {
    let mut cpu = CPU::new(Bus::new(gen_test_rom()));
    cpu.load_and_run(vec![0xa9, 0x05, 0x00]).unwrap();
    assert_eq!(cpu.register_a, 0x05);
    assert!(!cpu.status.contains(ZERO));
    assert!(!cpu.status.contains(NEGATIV));
}
