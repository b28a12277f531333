//! The opcode table: a static mapping from opcode byte to mnemonic,
//! instruction length, base cycle count and addressing mode.
use vstd::prelude::*;

use crate::cpu::AddressingMode;

verus! {

/// One opcode record. The mnemonic is diagnostic only and the cycle count
/// informational: execution depends on the length and the addressing mode.
pub struct OpCode {
    pub code: u8,
    pub human: &'static str,
    pub len: u8,
    pub cycles: u8,
    pub mode: AddressingMode,
}

impl OpCode {
    /// Build one record.
    pub fn new(code: u8, human: &'static str, len: u8, cycles: u8, mode: AddressingMode) -> (r:
        OpCode)
        ensures
            r.code == code,
            r.human == human,
            r.len == len,
            r.cycles == cycles,
            r.mode == mode,
    {
        OpCode { code, human, len, cycles, mode }
    }
}

/// The instruction length and addressing mode of each recognized opcode;
/// `None` for a byte the engine cannot decode.
pub open spec fn spec_opcode(code: u8) -> Option<(u8, AddressingMode)> {
    match code {
        0x00 => Some((1, AddressingMode::NoneAddressing)),
        0x01 => Some((2, AddressingMode::Indirect_X)),
        0x05 => Some((2, AddressingMode::ZeroPage)),
        0x06 => Some((2, AddressingMode::ZeroPage)),
        0x08 => Some((1, AddressingMode::NoneAddressing)),
        0x09 => Some((2, AddressingMode::Immediate)),
        0x0A => Some((1, AddressingMode::NoneAddressing)),
        0x0D => Some((3, AddressingMode::Absolute)),
        0x0E => Some((3, AddressingMode::Absolute)),
        0x10 => Some((2, AddressingMode::NoneAddressing)),
        0x11 => Some((2, AddressingMode::Indirect_Y)),
        0x15 => Some((2, AddressingMode::ZeroPage_X)),
        0x16 => Some((2, AddressingMode::ZeroPage_X)),
        0x18 => Some((1, AddressingMode::NoneAddressing)),
        0x19 => Some((3, AddressingMode::Absolute_Y)),
        0x1D => Some((3, AddressingMode::Absolute_X)),
        0x1E => Some((3, AddressingMode::Absolute_X)),
        0x20 => Some((3, AddressingMode::NoneAddressing)),
        0x21 => Some((2, AddressingMode::Indirect_X)),
        0x24 => Some((2, AddressingMode::ZeroPage)),
        0x25 => Some((2, AddressingMode::ZeroPage)),
        0x26 => Some((2, AddressingMode::ZeroPage)),
        0x28 => Some((1, AddressingMode::NoneAddressing)),
        0x29 => Some((2, AddressingMode::Immediate)),
        0x2A => Some((1, AddressingMode::NoneAddressing)),
        0x2C => Some((2, AddressingMode::Absolute)),
        0x2D => Some((3, AddressingMode::Absolute)),
        0x2E => Some((3, AddressingMode::Absolute)),
        0x30 => Some((2, AddressingMode::NoneAddressing)),
        0x31 => Some((2, AddressingMode::Indirect_Y)),
        0x35 => Some((2, AddressingMode::ZeroPage_X)),
        0x36 => Some((2, AddressingMode::ZeroPage_X)),
        0x38 => Some((1, AddressingMode::NoneAddressing)),
        0x39 => Some((3, AddressingMode::Absolute_Y)),
        0x3D => Some((3, AddressingMode::Absolute_X)),
        0x3E => Some((3, AddressingMode::Absolute_X)),
        0x40 => Some((1, AddressingMode::NoneAddressing)),
        0x41 => Some((2, AddressingMode::Indirect_X)),
        0x45 => Some((2, AddressingMode::ZeroPage)),
        0x46 => Some((2, AddressingMode::ZeroPage)),
        0x48 => Some((1, AddressingMode::NoneAddressing)),
        0x49 => Some((2, AddressingMode::Immediate)),
        0x4A => Some((1, AddressingMode::NoneAddressing)),
        0x4C => Some((3, AddressingMode::NoneAddressing)),
        0x4D => Some((3, AddressingMode::Absolute)),
        0x4E => Some((3, AddressingMode::Absolute)),
        0x50 => Some((2, AddressingMode::NoneAddressing)),
        0x51 => Some((2, AddressingMode::Indirect_Y)),
        0x55 => Some((2, AddressingMode::ZeroPage_X)),
        0x56 => Some((2, AddressingMode::ZeroPage_X)),
        0x58 => Some((1, AddressingMode::NoneAddressing)),
        0x59 => Some((3, AddressingMode::Absolute_Y)),
        0x5D => Some((3, AddressingMode::Absolute_X)),
        0x5E => Some((3, AddressingMode::Absolute_X)),
        0x60 => Some((1, AddressingMode::NoneAddressing)),
        0x61 => Some((2, AddressingMode::Indirect_X)),
        0x65 => Some((2, AddressingMode::ZeroPage)),
        0x66 => Some((2, AddressingMode::ZeroPage)),
        0x68 => Some((1, AddressingMode::NoneAddressing)),
        0x69 => Some((2, AddressingMode::Immediate)),
        0x6A => Some((1, AddressingMode::NoneAddressing)),
        0x6C => Some((3, AddressingMode::NoneAddressing)),
        0x6D => Some((3, AddressingMode::Absolute)),
        0x6E => Some((3, AddressingMode::Absolute)),
        0x70 => Some((2, AddressingMode::NoneAddressing)),
        0x71 => Some((2, AddressingMode::Indirect_Y)),
        0x75 => Some((2, AddressingMode::ZeroPage_X)),
        0x76 => Some((2, AddressingMode::ZeroPage_X)),
        0x78 => Some((1, AddressingMode::NoneAddressing)),
        0x79 => Some((3, AddressingMode::Absolute_Y)),
        0x7D => Some((3, AddressingMode::Absolute_X)),
        0x7E => Some((3, AddressingMode::Absolute_X)),
        0x81 => Some((2, AddressingMode::Indirect_X)),
        0x84 => Some((2, AddressingMode::ZeroPage)),
        0x85 => Some((2, AddressingMode::ZeroPage)),
        0x86 => Some((2, AddressingMode::ZeroPage)),
        0x88 => Some((1, AddressingMode::NoneAddressing)),
        0x8A => Some((1, AddressingMode::NoneAddressing)),
        0x8C => Some((3, AddressingMode::Absolute)),
        0x8D => Some((3, AddressingMode::Absolute)),
        0x8E => Some((3, AddressingMode::Absolute)),
        0x90 => Some((2, AddressingMode::NoneAddressing)),
        0x91 => Some((2, AddressingMode::Indirect_Y)),
        0x94 => Some((2, AddressingMode::ZeroPage_X)),
        0x95 => Some((2, AddressingMode::ZeroPage_X)),
        0x96 => Some((2, AddressingMode::ZeroPage_Y)),
        0x98 => Some((1, AddressingMode::NoneAddressing)),
        0x99 => Some((3, AddressingMode::Absolute_Y)),
        0x9A => Some((1, AddressingMode::NoneAddressing)),
        0x9D => Some((3, AddressingMode::Absolute_X)),
        0xA0 => Some((2, AddressingMode::Immediate)),
        0xA1 => Some((2, AddressingMode::Indirect_X)),
        0xA2 => Some((2, AddressingMode::Immediate)),
        0xA4 => Some((2, AddressingMode::ZeroPage)),
        0xA5 => Some((2, AddressingMode::ZeroPage)),
        0xA6 => Some((2, AddressingMode::ZeroPage)),
        0xA8 => Some((1, AddressingMode::NoneAddressing)),
        0xA9 => Some((2, AddressingMode::Immediate)),
        0xAA => Some((1, AddressingMode::NoneAddressing)),
        0xAC => Some((3, AddressingMode::Absolute)),
        0xAD => Some((3, AddressingMode::Absolute)),
        0xAE => Some((3, AddressingMode::Absolute)),
        0xB0 => Some((2, AddressingMode::NoneAddressing)),
        0xB1 => Some((2, AddressingMode::Indirect_Y)),
        0xB4 => Some((2, AddressingMode::ZeroPage_X)),
        0xB5 => Some((2, AddressingMode::ZeroPage_X)),
        0xB6 => Some((2, AddressingMode::ZeroPage_Y)),
        0xB8 => Some((1, AddressingMode::NoneAddressing)),
        0xB9 => Some((3, AddressingMode::Absolute_Y)),
        0xBA => Some((1, AddressingMode::NoneAddressing)),
        0xBC => Some((3, AddressingMode::Absolute_X)),
        0xBD => Some((3, AddressingMode::Absolute_X)),
        0xBE => Some((3, AddressingMode::Absolute_Y)),
        0xC0 => Some((2, AddressingMode::Immediate)),
        0xC1 => Some((2, AddressingMode::Indirect_X)),
        0xC4 => Some((2, AddressingMode::ZeroPage)),
        0xC5 => Some((2, AddressingMode::ZeroPage)),
        0xC6 => Some((2, AddressingMode::ZeroPage)),
        0xC8 => Some((1, AddressingMode::NoneAddressing)),
        0xC9 => Some((2, AddressingMode::Immediate)),
        0xCA => Some((1, AddressingMode::NoneAddressing)),
        0xCC => Some((3, AddressingMode::Absolute)),
        0xCD => Some((3, AddressingMode::Absolute)),
        0xCE => Some((3, AddressingMode::Absolute)),
        0xD0 => Some((2, AddressingMode::NoneAddressing)),
        0xD1 => Some((2, AddressingMode::Indirect_Y)),
        0xD5 => Some((2, AddressingMode::ZeroPage_X)),
        0xD6 => Some((2, AddressingMode::ZeroPage_X)),
        0xD8 => Some((1, AddressingMode::NoneAddressing)),
        0xD9 => Some((3, AddressingMode::Absolute_Y)),
        0xDD => Some((3, AddressingMode::Absolute_X)),
        0xDE => Some((3, AddressingMode::Absolute_X)),
        0xE0 => Some((2, AddressingMode::Immediate)),
        0xE1 => Some((2, AddressingMode::Indirect_X)),
        0xE4 => Some((2, AddressingMode::ZeroPage)),
        0xE5 => Some((2, AddressingMode::ZeroPage)),
        0xE6 => Some((2, AddressingMode::ZeroPage)),
        0xE8 => Some((1, AddressingMode::NoneAddressing)),
        0xE9 => Some((2, AddressingMode::Immediate)),
        0xEA => Some((1, AddressingMode::NoneAddressing)),
        0xEC => Some((3, AddressingMode::Absolute)),
        0xED => Some((3, AddressingMode::Absolute)),
        0xEE => Some((3, AddressingMode::Absolute)),
        0xF0 => Some((2, AddressingMode::NoneAddressing)),
        0xF1 => Some((2, AddressingMode::Indirect_Y)),
        0xF5 => Some((2, AddressingMode::ZeroPage_X)),
        0xF6 => Some((2, AddressingMode::ZeroPage_X)),
        0xF8 => Some((1, AddressingMode::NoneAddressing)),
        0xF9 => Some((3, AddressingMode::Absolute_Y)),
        0xFD => Some((3, AddressingMode::Absolute_X)),
        0xFE => Some((3, AddressingMode::Absolute_X)),
        _ => None,
    }
}

/// Look an opcode byte up in the table.
#[verifier::rlimit(100)]
pub fn opcode_lookup(code: u8) -> (r: Option<OpCode>)
    ensures
        match r {
            Some(op) => spec_opcode(code) == Some((op.len, op.mode)) && op.code == code && 1
                <= op.len <= 3,
            None => spec_opcode(code) is None,
        },
{
    match code {
        0x00 => Some(OpCode::new(0x00, "BRK", 1, 7, AddressingMode::NoneAddressing)),
        0x01 => Some(OpCode::new(0x01, "ORA", 2, 6, AddressingMode::Indirect_X)),
        0x05 => Some(OpCode::new(0x05, "ORA", 2, 3, AddressingMode::ZeroPage)),
        0x06 => Some(OpCode::new(0x06, "ASL", 2, 5, AddressingMode::ZeroPage)),
        0x08 => Some(OpCode::new(0x08, "PHP", 1, 3, AddressingMode::NoneAddressing)),
        0x09 => Some(OpCode::new(0x09, "ORA", 2, 2, AddressingMode::Immediate)),
        0x0A => Some(OpCode::new(0x0A, "ASL", 1, 2, AddressingMode::NoneAddressing)),
        0x0D => Some(OpCode::new(0x0D, "ORA", 3, 4, AddressingMode::Absolute)),
        0x0E => Some(OpCode::new(0x0E, "ASL", 3, 6, AddressingMode::Absolute)),
        0x10 => Some(OpCode::new(0x10, "BPL", 2, 2, AddressingMode::NoneAddressing)),
        0x11 => Some(OpCode::new(0x11, "ORA", 2, 5, AddressingMode::Indirect_Y)),
        0x15 => Some(OpCode::new(0x15, "ORA", 2, 4, AddressingMode::ZeroPage_X)),
        0x16 => Some(OpCode::new(0x16, "ASL", 2, 6, AddressingMode::ZeroPage_X)),
        0x18 => Some(OpCode::new(0x18, "CLC", 1, 2, AddressingMode::NoneAddressing)),
        0x19 => Some(OpCode::new(0x19, "ORA", 3, 4, AddressingMode::Absolute_Y)),
        0x1D => Some(OpCode::new(0x1D, "ORA", 3, 4, AddressingMode::Absolute_X)),
        0x1E => Some(OpCode::new(0x1E, "ASL", 3, 7, AddressingMode::Absolute_X)),
        0x20 => Some(OpCode::new(0x20, "JSR", 3, 6, AddressingMode::NoneAddressing)),
        0x21 => Some(OpCode::new(0x21, "AND", 2, 6, AddressingMode::Indirect_X)),
        0x24 => Some(OpCode::new(0x24, "BIT", 2, 3, AddressingMode::ZeroPage)),
        0x25 => Some(OpCode::new(0x25, "AND", 2, 3, AddressingMode::ZeroPage)),
        0x26 => Some(OpCode::new(0x26, "ROL", 2, 5, AddressingMode::ZeroPage)),
        0x28 => Some(OpCode::new(0x28, "PLP", 1, 4, AddressingMode::NoneAddressing)),
        0x29 => Some(OpCode::new(0x29, "AND", 2, 2, AddressingMode::Immediate)),
        0x2A => Some(OpCode::new(0x2A, "ROL", 1, 2, AddressingMode::NoneAddressing)),
        0x2C => Some(OpCode::new(0x2C, "BIT", 2, 3, AddressingMode::Absolute)),
        0x2D => Some(OpCode::new(0x2D, "AND", 3, 4, AddressingMode::Absolute)),
        0x2E => Some(OpCode::new(0x2E, "ROL", 3, 6, AddressingMode::Absolute)),
        0x30 => Some(OpCode::new(0x30, "BMI", 2, 2, AddressingMode::NoneAddressing)),
        0x31 => Some(OpCode::new(0x31, "AND", 2, 5, AddressingMode::Indirect_Y)),
        0x35 => Some(OpCode::new(0x35, "AND", 2, 4, AddressingMode::ZeroPage_X)),
        0x36 => Some(OpCode::new(0x36, "ROL", 2, 6, AddressingMode::ZeroPage_X)),
        0x38 => Some(OpCode::new(0x38, "SEC", 1, 2, AddressingMode::NoneAddressing)),
        0x39 => Some(OpCode::new(0x39, "AND", 3, 4, AddressingMode::Absolute_Y)),
        0x3D => Some(OpCode::new(0x3D, "AND", 3, 4, AddressingMode::Absolute_X)),
        0x3E => Some(OpCode::new(0x3E, "ROL", 3, 7, AddressingMode::Absolute_X)),
        0x40 => Some(OpCode::new(0x40, "RTI", 1, 6, AddressingMode::NoneAddressing)),
        0x41 => Some(OpCode::new(0x41, "EOR", 2, 6, AddressingMode::Indirect_X)),
        0x45 => Some(OpCode::new(0x45, "EOR", 2, 3, AddressingMode::ZeroPage)),
        0x46 => Some(OpCode::new(0x46, "LSR", 2, 5, AddressingMode::ZeroPage)),
        0x48 => Some(OpCode::new(0x48, "PHA", 1, 3, AddressingMode::NoneAddressing)),
        0x49 => Some(OpCode::new(0x49, "EOR", 2, 2, AddressingMode::Immediate)),
        0x4A => Some(OpCode::new(0x4A, "LSR", 1, 2, AddressingMode::NoneAddressing)),
        0x4C => Some(OpCode::new(0x4C, "JMP", 3, 3, AddressingMode::NoneAddressing)),
        0x4D => Some(OpCode::new(0x4D, "EOR", 3, 4, AddressingMode::Absolute)),
        0x4E => Some(OpCode::new(0x4E, "LSR", 3, 6, AddressingMode::Absolute)),
        0x50 => Some(OpCode::new(0x50, "BVC", 2, 2, AddressingMode::NoneAddressing)),
        0x51 => Some(OpCode::new(0x51, "EOR", 2, 5, AddressingMode::Indirect_Y)),
        0x55 => Some(OpCode::new(0x55, "EOR", 2, 4, AddressingMode::ZeroPage_X)),
        0x56 => Some(OpCode::new(0x56, "LSR", 2, 6, AddressingMode::ZeroPage_X)),
        0x58 => Some(OpCode::new(0x58, "CLI", 1, 2, AddressingMode::NoneAddressing)),
        0x59 => Some(OpCode::new(0x59, "EOR", 3, 4, AddressingMode::Absolute_Y)),
        0x5D => Some(OpCode::new(0x5D, "EOR", 3, 4, AddressingMode::Absolute_X)),
        0x5E => Some(OpCode::new(0x5E, "LSR", 3, 7, AddressingMode::Absolute_X)),
        0x60 => Some(OpCode::new(0x60, "RTS", 1, 6, AddressingMode::NoneAddressing)),
        0x61 => Some(OpCode::new(0x61, "ADC", 2, 6, AddressingMode::Indirect_X)),
        0x65 => Some(OpCode::new(0x65, "ADC", 2, 3, AddressingMode::ZeroPage)),
        0x66 => Some(OpCode::new(0x66, "ROR", 2, 5, AddressingMode::ZeroPage)),
        0x68 => Some(OpCode::new(0x68, "PLA", 1, 4, AddressingMode::NoneAddressing)),
        0x69 => Some(OpCode::new(0x69, "ADC", 2, 2, AddressingMode::Immediate)),
        0x6A => Some(OpCode::new(0x6A, "ROR", 1, 2, AddressingMode::NoneAddressing)),
        0x6C => Some(OpCode::new(0x6C, "JMP", 3, 5, AddressingMode::NoneAddressing)),
        0x6D => Some(OpCode::new(0x6D, "ADC", 3, 4, AddressingMode::Absolute)),
        0x6E => Some(OpCode::new(0x6E, "ROR", 3, 6, AddressingMode::Absolute)),
        0x70 => Some(OpCode::new(0x70, "BVS", 2, 2, AddressingMode::NoneAddressing)),
        0x71 => Some(OpCode::new(0x71, "ADC", 2, 5, AddressingMode::Indirect_Y)),
        0x75 => Some(OpCode::new(0x75, "ADC", 2, 4, AddressingMode::ZeroPage_X)),
        0x76 => Some(OpCode::new(0x76, "ROR", 2, 6, AddressingMode::ZeroPage_X)),
        0x78 => Some(OpCode::new(0x78, "SEI", 1, 2, AddressingMode::NoneAddressing)),
        0x79 => Some(OpCode::new(0x79, "ADC", 3, 4, AddressingMode::Absolute_Y)),
        0x7D => Some(OpCode::new(0x7D, "ADC", 3, 4, AddressingMode::Absolute_X)),
        0x7E => Some(OpCode::new(0x7E, "ROR", 3, 7, AddressingMode::Absolute_X)),
        0x81 => Some(OpCode::new(0x81, "STA", 2, 6, AddressingMode::Indirect_X)),
        0x84 => Some(OpCode::new(0x84, "STY", 2, 3, AddressingMode::ZeroPage)),
        0x85 => Some(OpCode::new(0x85, "STA", 2, 3, AddressingMode::ZeroPage)),
        0x86 => Some(OpCode::new(0x86, "STX", 2, 3, AddressingMode::ZeroPage)),
        0x88 => Some(OpCode::new(0x88, "DEY", 1, 2, AddressingMode::NoneAddressing)),
        0x8A => Some(OpCode::new(0x8A, "TXA", 1, 2, AddressingMode::NoneAddressing)),
        0x8C => Some(OpCode::new(0x8C, "STY", 3, 4, AddressingMode::Absolute)),
        0x8D => Some(OpCode::new(0x8D, "STA", 3, 4, AddressingMode::Absolute)),
        0x8E => Some(OpCode::new(0x8E, "STX", 3, 4, AddressingMode::Absolute)),
        0x90 => Some(OpCode::new(0x90, "BCC", 2, 2, AddressingMode::NoneAddressing)),
        0x91 => Some(OpCode::new(0x91, "STA", 2, 6, AddressingMode::Indirect_Y)),
        0x94 => Some(OpCode::new(0x94, "STY", 2, 4, AddressingMode::ZeroPage_X)),
        0x95 => Some(OpCode::new(0x95, "STA", 2, 4, AddressingMode::ZeroPage_X)),
        0x96 => Some(OpCode::new(0x96, "STX", 2, 4, AddressingMode::ZeroPage_Y)),
        0x98 => Some(OpCode::new(0x98, "TYA", 1, 2, AddressingMode::NoneAddressing)),
        0x99 => Some(OpCode::new(0x99, "STA", 3, 5, AddressingMode::Absolute_Y)),
        0x9A => Some(OpCode::new(0x9A, "TXS", 1, 2, AddressingMode::NoneAddressing)),
        0x9D => Some(OpCode::new(0x9D, "STA", 3, 5, AddressingMode::Absolute_X)),
        0xA0 => Some(OpCode::new(0xA0, "LDY", 2, 2, AddressingMode::Immediate)),
        0xA1 => Some(OpCode::new(0xA1, "LDA", 2, 6, AddressingMode::Indirect_X)),
        0xA2 => Some(OpCode::new(0xA2, "LDX", 2, 2, AddressingMode::Immediate)),
        0xA4 => Some(OpCode::new(0xA4, "LDY", 2, 3, AddressingMode::ZeroPage)),
        0xA5 => Some(OpCode::new(0xA5, "LDA", 2, 3, AddressingMode::ZeroPage)),
        0xA6 => Some(OpCode::new(0xA6, "LDX", 2, 3, AddressingMode::ZeroPage)),
        0xA8 => Some(OpCode::new(0xA8, "TAY", 1, 2, AddressingMode::NoneAddressing)),
        0xA9 => Some(OpCode::new(0xA9, "LDA", 2, 2, AddressingMode::Immediate)),
        0xAA => Some(OpCode::new(0xAA, "TAX", 1, 2, AddressingMode::NoneAddressing)),
        0xAC => Some(OpCode::new(0xAC, "LDY", 3, 4, AddressingMode::Absolute)),
        0xAD => Some(OpCode::new(0xAD, "LDA", 3, 4, AddressingMode::Absolute)),
        0xAE => Some(OpCode::new(0xAE, "LDX", 3, 4, AddressingMode::Absolute)),
        0xB0 => Some(OpCode::new(0xB0, "BCS", 2, 2, AddressingMode::NoneAddressing)),
        0xB1 => Some(OpCode::new(0xB1, "LDA", 2, 5, AddressingMode::Indirect_Y)),
        0xB4 => Some(OpCode::new(0xB4, "LDY", 2, 4, AddressingMode::ZeroPage_X)),
        0xB5 => Some(OpCode::new(0xB5, "LDA", 2, 4, AddressingMode::ZeroPage_X)),
        0xB6 => Some(OpCode::new(0xB6, "LDX", 2, 4, AddressingMode::ZeroPage_Y)),
        0xB8 => Some(OpCode::new(0xB8, "CLV", 1, 2, AddressingMode::NoneAddressing)),
        0xB9 => Some(OpCode::new(0xB9, "LDA", 3, 4, AddressingMode::Absolute_Y)),
        0xBA => Some(OpCode::new(0xBA, "TSX", 1, 2, AddressingMode::NoneAddressing)),
        0xBC => Some(OpCode::new(0xBC, "LDY", 3, 4, AddressingMode::Absolute_X)),
        0xBD => Some(OpCode::new(0xBD, "LDA", 3, 4, AddressingMode::Absolute_X)),
        0xBE => Some(OpCode::new(0xBE, "LDX", 3, 4, AddressingMode::Absolute_Y)),
        0xC0 => Some(OpCode::new(0xC0, "CPY", 2, 2, AddressingMode::Immediate)),
        0xC1 => Some(OpCode::new(0xC1, "CMP", 2, 6, AddressingMode::Indirect_X)),
        0xC4 => Some(OpCode::new(0xC4, "CPY", 2, 3, AddressingMode::ZeroPage)),
        0xC5 => Some(OpCode::new(0xC5, "CMP", 2, 3, AddressingMode::ZeroPage)),
        0xC6 => Some(OpCode::new(0xC6, "DEC", 2, 5, AddressingMode::ZeroPage)),
        0xC8 => Some(OpCode::new(0xC8, "INY", 1, 2, AddressingMode::NoneAddressing)),
        0xC9 => Some(OpCode::new(0xC9, "CMP", 2, 2, AddressingMode::Immediate)),
        0xCA => Some(OpCode::new(0xCA, "DEX", 1, 2, AddressingMode::NoneAddressing)),
        0xCC => Some(OpCode::new(0xCC, "CPY", 3, 4, AddressingMode::Absolute)),
        0xCD => Some(OpCode::new(0xCD, "CMP", 3, 4, AddressingMode::Absolute)),
        0xCE => Some(OpCode::new(0xCE, "DEC", 3, 6, AddressingMode::Absolute)),
        0xD0 => Some(OpCode::new(0xD0, "BNE", 2, 2, AddressingMode::NoneAddressing)),
        0xD1 => Some(OpCode::new(0xD1, "CMP", 2, 5, AddressingMode::Indirect_Y)),
        0xD5 => Some(OpCode::new(0xD5, "CMP", 2, 4, AddressingMode::ZeroPage_X)),
        0xD6 => Some(OpCode::new(0xD6, "DEC", 2, 6, AddressingMode::ZeroPage_X)),
        0xD8 => Some(OpCode::new(0xD8, "CLD", 1, 2, AddressingMode::NoneAddressing)),
        0xD9 => Some(OpCode::new(0xD9, "CMP", 3, 4, AddressingMode::Absolute_Y)),
        0xDD => Some(OpCode::new(0xDD, "CMP", 3, 4, AddressingMode::Absolute_X)),
        0xDE => Some(OpCode::new(0xDE, "DEC", 3, 7, AddressingMode::Absolute_X)),
        0xE0 => Some(OpCode::new(0xE0, "CPX", 2, 2, AddressingMode::Immediate)),
        0xE1 => Some(OpCode::new(0xE1, "SBC", 2, 6, AddressingMode::Indirect_X)),
        0xE4 => Some(OpCode::new(0xE4, "CPX", 2, 3, AddressingMode::ZeroPage)),
        0xE5 => Some(OpCode::new(0xE5, "SBC", 2, 3, AddressingMode::ZeroPage)),
        0xE6 => Some(OpCode::new(0xE6, "INC", 2, 5, AddressingMode::ZeroPage)),
        0xE8 => Some(OpCode::new(0xE8, "INX", 1, 2, AddressingMode::NoneAddressing)),
        0xE9 => Some(OpCode::new(0xE9, "SBC", 2, 2, AddressingMode::Immediate)),
        0xEA => Some(OpCode::new(0xEA, "NOP", 1, 2, AddressingMode::NoneAddressing)),
        0xEC => Some(OpCode::new(0xEC, "CPX", 3, 4, AddressingMode::Absolute)),
        0xED => Some(OpCode::new(0xED, "SBC", 3, 4, AddressingMode::Absolute)),
        0xEE => Some(OpCode::new(0xEE, "INC", 3, 6, AddressingMode::Absolute)),
        0xF0 => Some(OpCode::new(0xF0, "BEQ", 2, 2, AddressingMode::NoneAddressing)),
        0xF1 => Some(OpCode::new(0xF1, "SBC", 2, 5, AddressingMode::Indirect_Y)),
        0xF5 => Some(OpCode::new(0xF5, "SBC", 2, 4, AddressingMode::ZeroPage_X)),
        0xF6 => Some(OpCode::new(0xF6, "INC", 2, 6, AddressingMode::ZeroPage_X)),
        0xF8 => Some(OpCode::new(0xF8, "SED", 1, 2, AddressingMode::NoneAddressing)),
        0xF9 => Some(OpCode::new(0xF9, "SBC", 3, 4, AddressingMode::Absolute_Y)),
        0xFD => Some(OpCode::new(0xFD, "SBC", 3, 4, AddressingMode::Absolute_X)),
        0xFE => Some(OpCode::new(0xFE, "INC", 3, 7, AddressingMode::Absolute_X)),
        _ => None,
    }
}

} // verus!
