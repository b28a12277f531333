use nes_core::bus::Bus;
use nes_core::cartridge::gen_test_rom;
use nes_core::cpu::CPU;
use nes_core::flags::CARRY;
use nes_core::flags::DECIMAL_MODE;

#[test]
fn test_test_jsr() {
    let bus = Bus::new(gen_test_rom());
    let mut cpu = CPU::new(bus);
    cpu.mem_write(0x07, 0x38).unwrap();
    cpu.mem_write(0x08, 0xf8).unwrap();
    cpu.mem_write(0x09, 0x00).unwrap();
    cpu.load_and_run(vec![0x20, 0x07, 0x00]).unwrap();
    assert!(cpu.status.contains(CARRY));
    assert!(cpu.status.contains(DECIMAL_MODE));
}

#[test]
fn test_nop_only_advances() {
    let bus = Bus::new(gen_test_rom());
    let mut cpu = CPU::new(bus);
    cpu.load_and_run(vec![0xea, 0xa9, 0x05, 0x00]).unwrap();
    assert_eq!(cpu.register_a, 0x05);
}

#[test]
fn test_rti_restores_status_and_counter() {
    let bus = Bus::new(gen_test_rom());
    let mut cpu = CPU::new(bus);
    // Push a return address pointing into RAM at a LDA #7; BRK sequence,
    // then a status byte with Carry set, and return through RTI.
    cpu.mem_write(0x20, 0xa9).unwrap();
    cpu.mem_write(0x21, 0x07).unwrap();
    cpu.mem_write(0x22, 0x00).unwrap();
    cpu.load(vec![0x40]);
    cpu.reset();
    cpu.stack_push_u16(0x0020);
    cpu.stack_push(0b0000_0001);
    cpu.run().unwrap();
    assert_eq!(cpu.register_a, 0x07);
    assert!(cpu.status.contains(CARRY));
}
