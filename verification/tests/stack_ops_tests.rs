use nes_core::bus::Bus;
use nes_core::cartridge::gen_test_rom;
use nes_core::cpu::CPU;

#[test]
fn test_pha() {
    let bus = Bus::new(gen_test_rom());
    let mut cpu = CPU::new(bus);
    cpu.load_and_run(vec![0xa9, 0x05, 0x48, 0x00]).unwrap();
    let pushed = cpu.stack_pull();
    assert_eq!(pushed, 0x05);
}

#[test]
fn test_php() {
    let bus = Bus::new(gen_test_rom());
    let mut cpu = CPU::new(bus);
    cpu.load_and_run(vec![0x38, 0xf8, 0x08, 0x00]).unwrap();
    let pushed = cpu.stack_pull();
    assert_eq!(pushed, 0b0011_1101);
}

#[test]
fn test_pla() {
    let bus = Bus::new(gen_test_rom());
    let mut cpu = CPU::new(bus);
    cpu.load_and_run(vec![0xa9, 0x05, 0x48, 0xa9, 0x07, 0x68, 0x00]).unwrap();
    assert_eq!(cpu.register_a, 0x05);
}

#[test]
fn test_plp() {
    let bus = Bus::new(gen_test_rom());
    let mut cpu = CPU::new(bus);
    cpu.load_and_run(vec![0x38, 0xf8, 0x08, 0x18, 0x28, 0x00]).unwrap();
    assert_eq!(cpu.status.bits, 0b0000_1101);
}

#[test]
fn test_stack_round_trip_direct() {
    let bus = Bus::new(gen_test_rom());
    let mut cpu = CPU::new(bus);
    let sp_before = cpu.stack_ptr;
    cpu.stack_push(0xA7);
    assert_eq!(cpu.stack_ptr, sp_before.wrapping_sub(1));
    let pulled = cpu.stack_pull();
    assert_eq!(pulled, 0xA7);
    assert_eq!(cpu.stack_ptr, sp_before);
}

#[test]
fn test_stack_u16_round_trip_direct() {
    let bus = Bus::new(gen_test_rom());
    let mut cpu = CPU::new(bus);
    let sp_before = cpu.stack_ptr;
    cpu.stack_push_u16(0xBEEF);
    let pulled = cpu.stack_pull_u16();
    assert_eq!(pulled, 0xBEEF);
    assert_eq!(cpu.stack_ptr, sp_before);
}
