//! Arithmetic and logic instructions: add/subtract with carry, bitwise
//! operations, shifts and rotates, bit test, compare, decrement.
use vstd::prelude::*;

use crate::bus::Fault;
use crate::bus::v_read;
use crate::bus::v_write;
use crate::cpu::AddressingMode;
use crate::cpu::CPU;
use crate::cpu::CpuV;
use crate::cpu::v_add_to_a;
use crate::cpu::v_compare;
use crate::cpu::v_mem_operand;
use crate::cpu::v_operand_addr;
use crate::cpu::v_set_a;
use crate::flags::CARRY;
use crate::flags::NEGATIV;
use crate::flags::OVERFLOW;
use crate::flags::ZERO;
use crate::flags::f_assign;
use crate::flags::f_has;
use crate::flags::upd_zn;
use crate::opcodes::OpCode;
use crate::opcodes::spec_opcode;

verus! {

/// The accumulator shifted left one bit: the bit shifted off becomes Carry,
/// Zero and Negative follow the result.
pub open spec fn v_asl_acu(c: CpuV) -> CpuV {
    let data = c.a;
    let result = data << 1;
    CpuV { a: result, status: upd_zn(f_assign(c.status, CARRY, data >> 7 == 1), result), ..c }
}

/// The accumulator shifted right one bit: bit 0 becomes Carry.
pub open spec fn v_lsr_acu(c: CpuV) -> CpuV {
    let data = c.a;
    let result = data >> 1;
    CpuV { a: result, status: upd_zn(f_assign(c.status, CARRY, data & 1 == 1), result), ..c }
}

/// The accumulator rotated left through the carry: the old carry enters bit
/// 0, bit 7 becomes the new carry.
pub open spec fn v_rol_acu(c: CpuV) -> CpuV {
    let data = c.a;
    let cin: u8 = if f_has(c.status, CARRY) {
        1
    } else {
        0
    };
    let result = (data << 1) | cin;
    CpuV { a: result, status: upd_zn(f_assign(c.status, CARRY, data >> 7 == 1), result), ..c }
}

/// The accumulator rotated right through the carry: the old carry enters bit
/// 7, bit 0 becomes the new carry.
pub open spec fn v_ror_acu(c: CpuV) -> CpuV {
    let data = c.a;
    let cin: u8 = if f_has(c.status, CARRY) {
        0x80
    } else {
        0
    };
    let result = (data >> 1) | cin;
    CpuV { a: result, status: upd_zn(f_assign(c.status, CARRY, data & 1 == 1), result), ..c }
}

/// A memory cell shifted left; the pair carries the written value.
pub open spec fn v_asl_mem(c: CpuV, mode: AddressingMode) -> Result<(CpuV, u8), Fault> {
    match v_operand_addr(c, mode) {
        Ok(addr) => match v_read(c.bus, addr) {
            Ok(data) => {
                let result = data << 1;
                match v_write(c.bus, addr, result) {
                    Ok(b) => Ok(
                        (
                            CpuV {
                                bus: b,
                                status: upd_zn(f_assign(c.status, CARRY, data >> 7 == 1), result),
                                ..c
                            },
                            result,
                        ),
                    ),
                    Err(e) => Err(e),
                }
            },
            Err(e) => Err(e),
        },
        Err(e) => Err(e),
    }
}

/// A memory cell shifted right; the pair carries the written value.
pub open spec fn v_lsr_mem(c: CpuV, mode: AddressingMode) -> Result<(CpuV, u8), Fault> {
    match v_operand_addr(c, mode) {
        Ok(addr) => match v_read(c.bus, addr) {
            Ok(data) => {
                let result = data >> 1;
                match v_write(c.bus, addr, result) {
                    Ok(b) => Ok(
                        (
                            CpuV {
                                bus: b,
                                status: upd_zn(f_assign(c.status, CARRY, data & 1 == 1), result),
                                ..c
                            },
                            result,
                        ),
                    ),
                    Err(e) => Err(e),
                }
            },
            Err(e) => Err(e),
        },
        Err(e) => Err(e),
    }
}

/// A memory cell rotated left through the carry.
pub open spec fn v_rol_mem(c: CpuV, mode: AddressingMode) -> Result<CpuV, Fault> {
    match v_operand_addr(c, mode) {
        Ok(addr) => match v_read(c.bus, addr) {
            Ok(data) => {
                let cin: u8 = if f_has(c.status, CARRY) {
                    1
                } else {
                    0
                };
                let result = (data << 1) | cin;
                match v_write(c.bus, addr, result) {
                    Ok(b) => Ok(
                        CpuV {
                            bus: b,
                            status: upd_zn(f_assign(c.status, CARRY, data >> 7 == 1), result),
                            ..c
                        },
                    ),
                    Err(e) => Err(e),
                }
            },
            Err(e) => Err(e),
        },
        Err(e) => Err(e),
    }
}

/// A memory cell rotated right through the carry.
pub open spec fn v_ror_mem(c: CpuV, mode: AddressingMode) -> Result<CpuV, Fault> {
    match v_operand_addr(c, mode) {
        Ok(addr) => match v_read(c.bus, addr) {
            Ok(data) => {
                let cin: u8 = if f_has(c.status, CARRY) {
                    0x80
                } else {
                    0
                };
                let result = (data >> 1) | cin;
                match v_write(c.bus, addr, result) {
                    Ok(b) => Ok(
                        CpuV {
                            bus: b,
                            status: upd_zn(f_assign(c.status, CARRY, data & 1 == 1), result),
                            ..c
                        },
                    ),
                    Err(e) => Err(e),
                }
            },
            Err(e) => Err(e),
        },
        Err(e) => Err(e),
    }
}

/// BIT: Zero from `A AND operand`, Negative from bit 7 of the operand itself,
/// Overflow from bit 6 of the operand; A is untouched.
pub open spec fn v_bit(c: CpuV, mode: AddressingMode) -> Result<CpuV, Fault> {
    match v_mem_operand(c, mode) {
        Ok(data) => Ok(
            CpuV {
                status: f_assign(
                    f_assign(
                        f_assign(c.status, ZERO, c.a & data == 0),
                        NEGATIV,
                        data & 0b1000_0000 > 0,
                    ),
                    OVERFLOW,
                    data & 0b0100_0000 > 0,
                ),
                ..c
            },
        ),
        Err(e) => Err(e),
    }
}

/// A memory cell decremented with 8-bit wraparound, Zero and Negative
/// updated.
pub open spec fn v_dec_mem(c: CpuV, mode: AddressingMode) -> Result<CpuV, Fault> {
    match v_operand_addr(c, mode) {
        Ok(addr) => match v_read(c.bus, addr) {
            Ok(data) => {
                let result = data.wrapping_sub(1);
                match v_write(c.bus, addr, result) {
                    Ok(b) => Ok(CpuV { bus: b, status: upd_zn(c.status, result), ..c }),
                    Err(e) => Err(e),
                }
            },
            Err(e) => Err(e),
        },
        Err(e) => Err(e),
    }
}

/// ADC: add the operand with carry into the accumulator.
pub open spec fn v_adc(c: CpuV, mode: AddressingMode) -> Result<CpuV, Fault> {
    match v_mem_operand(c, mode) {
        Ok(data) => Ok(v_add_to_a(c, data)),
        Err(e) => Err(e),
    }
}

/// SBC: add the operand's one's complement with carry, so that borrow is
/// modeled through the carry flag — the hardware-correct form.
pub open spec fn v_sbc(c: CpuV, mode: AddressingMode) -> Result<CpuV, Fault> {
    match v_mem_operand(c, mode) {
        Ok(data) => Ok(v_add_to_a(c, data ^ 0xFF)),
        Err(e) => Err(e),
    }
}

/// Does this opcode belong to the arithmetic/logic family?
pub open spec fn is_logic_op(code: u8) -> bool {
    match code {
        0x69 | 0x65 | 0x75 | 0x6D | 0x7D | 0x79 | 0x61 | 0x71 | 0x29 | 0x25 | 0x35 | 0x2D | 0x3D
            | 0x39 | 0x21 | 0x31 | 0x0A | 0x06 | 0x16 | 0x0E | 0x1E | 0x24 | 0x2C | 0xC9 | 0xC5
            | 0xD5 | 0xCD | 0xDD | 0xD9 | 0xC1 | 0xD1 | 0xC6 | 0xD6 | 0xCE | 0xDE | 0x49 | 0x45
            | 0x55 | 0x4D | 0x5D | 0x59 | 0x41 | 0x51 | 0x4A | 0x46 | 0x56 | 0x4E | 0x5E | 0x09
            | 0x05 | 0x15 | 0x0D | 0x1D | 0x19 | 0x01 | 0x11 | 0x2A | 0x26 | 0x36 | 0x2E | 0x3E
            | 0x6A | 0x66 | 0x76 | 0x6E | 0x7E | 0xE9 | 0xE5 | 0xF5 | 0xED | 0xFD | 0xF9 | 0xE1
            | 0xF1 => true,
        _ => false,
    }
}

/// What one arithmetic/logic opcode does to the CPU state.
pub open spec fn v_exec_logic(c: CpuV, code: u8, mode: AddressingMode) -> Result<CpuV, Fault> {
    match code {
        0x69 | 0x65 | 0x75 | 0x6D | 0x7D | 0x79 | 0x61 | 0x71 => v_adc(c, mode),
        0x29 | 0x25 | 0x35 | 0x2D | 0x3D | 0x39 | 0x21 | 0x31 => match v_mem_operand(c, mode) {
            Ok(data) => Ok(v_set_a(c, data & c.a)),
            Err(e) => Err(e),
        },
        0x0A => Ok(v_asl_acu(c)),
        0x06 | 0x16 | 0x0E | 0x1E => match v_asl_mem(c, mode) {
            Ok(p) => Ok(p.0),
            Err(e) => Err(e),
        },
        0x24 | 0x2C => v_bit(c, mode),
        0xC9 | 0xC5 | 0xD5 | 0xCD | 0xDD | 0xD9 | 0xC1 | 0xD1 => v_compare(c, mode, c.a),
        0xC6 | 0xD6 | 0xCE | 0xDE => v_dec_mem(c, mode),
        0x49 | 0x45 | 0x55 | 0x4D | 0x5D | 0x59 | 0x41 | 0x51 => match v_mem_operand(c, mode) {
            Ok(data) => Ok(v_set_a(c, c.a ^ data)),
            Err(e) => Err(e),
        },
        0x4A => Ok(v_lsr_acu(c)),
        0x46 | 0x56 | 0x4E | 0x5E => match v_lsr_mem(c, mode) {
            Ok(p) => Ok(p.0),
            Err(e) => Err(e),
        },
        0x09 | 0x05 | 0x15 | 0x0D | 0x1D | 0x19 | 0x01 | 0x11 => match v_mem_operand(c, mode) {
            Ok(data) => Ok(v_set_a(c, c.a | data)),
            Err(e) => Err(e),
        },
        0x2A => Ok(v_rol_acu(c)),
        0x26 | 0x36 | 0x2E | 0x3E => v_rol_mem(c, mode),
        0x6A => Ok(v_ror_acu(c)),
        0x66 | 0x76 | 0x6E | 0x7E => v_ror_mem(c, mode),
        0xE9 | 0xE5 | 0xF5 | 0xED | 0xFD | 0xF9 | 0xE1 | 0xF1 => v_sbc(c, mode),
        _ => Ok(c),
    }
}

impl CPU {
    /// ADC: add the operand with carry into the accumulator.
    pub fn adc(&mut self, mode: &AddressingMode) -> (r: Result<(), Fault>)
        requires
            old(self).wf(),
            *mode != AddressingMode::NoneAddressing,
        ensures
            final(self).wf(),
            match v_adc(old(self)@, *mode) {
                Ok(c2) => r == Ok::<(), Fault>(()) && final(self)@ == c2,
                Err(e) => r == Err::<(), Fault>(e) && final(self)@ == old(self)@,
            },
    {
        let addr = match self.get_operand_address(mode) {
            Ok(a) => a,
            Err(e) => {
                return Err(e);
            },
        };
        let data = match self.mem_read(addr) {
            Ok(v) => v,
            Err(e) => {
                return Err(e);
            },
        };
        self.add_to_register_a(data);
        Ok(())
    }

    /// AND: bitwise and of the accumulator with the operand.
    pub fn and(&mut self, mode: &AddressingMode) -> (r: Result<(), Fault>)
        requires
            old(self).wf(),
            *mode != AddressingMode::NoneAddressing,
        ensures
            final(self).wf(),
            match v_mem_operand(old(self)@, *mode) {
                Ok(data) => r == Ok::<(), Fault>(()) && final(self)@ == v_set_a(
                    old(self)@,
                    data & old(self)@.a,
                ),
                Err(e) => r == Err::<(), Fault>(e) && final(self)@ == old(self)@,
            },
    {
        let addr = match self.get_operand_address(mode) {
            Ok(a) => a,
            Err(e) => {
                return Err(e);
            },
        };
        let data = match self.mem_read(addr) {
            Ok(v) => v,
            Err(e) => {
                return Err(e);
            },
        };
        let value = data & self.register_a;
        self.set_register_a(value);
        Ok(())
    }

    /// ASL on the accumulator.
    pub fn asl_acu(&mut self)
        ensures
            final(self)@ == v_asl_acu(old(self)@),
            final(self).wf() == old(self).wf(),
    {
        let data = self.register_a;
        if data >> 7 == 1 {
            self.set_carry();
        } else {
            self.remove_carry();
        }
        self.set_register_a(data << 1);
    }

    /// ASL on a memory cell; returns the shifted value.
    pub fn asl(&mut self, mode: &AddressingMode) -> (r: Result<u8, Fault>)
        requires
            old(self).wf(),
            *mode != AddressingMode::NoneAddressing,
        ensures
            final(self).wf(),
            match v_asl_mem(old(self)@, *mode) {
                Ok(p) => r == Ok::<u8, Fault>(p.1) && final(self)@ == p.0,
                Err(e) => r == Err::<u8, Fault>(e) && final(self)@ == old(self)@,
            },
    {
        let addr = match self.get_operand_address(mode) {
            Ok(a) => a,
            Err(e) => {
                return Err(e);
            },
        };
        let data = match self.mem_read(addr) {
            Ok(v) => v,
            Err(e) => {
                return Err(e);
            },
        };
        let result = data << 1;
        match self.mem_write(addr, result) {
            Ok(()) => (),
            Err(e) => {
                return Err(e);
            },
        }
        if data >> 7 == 1 {
            self.set_carry();
        } else {
            self.remove_carry();
        }
        self.update_zero_and_negative_flags(result);
        Ok(result)
    }

    /// BIT: test accumulator bits against the operand.
    pub fn bit(&mut self, mode: &AddressingMode) -> (r: Result<(), Fault>)
        requires
            old(self).wf(),
            *mode != AddressingMode::NoneAddressing,
        ensures
            final(self).wf(),
            match v_bit(old(self)@, *mode) {
                Ok(c2) => r == Ok::<(), Fault>(()) && final(self)@ == c2,
                Err(e) => r == Err::<(), Fault>(e) && final(self)@ == old(self)@,
            },
    {
        let addr = match self.get_operand_address(mode) {
            Ok(a) => a,
            Err(e) => {
                return Err(e);
            },
        };
        let data = match self.mem_read(addr) {
            Ok(v) => v,
            Err(e) => {
                return Err(e);
            },
        };
        let and = self.register_a & data;
        self.status.assign(ZERO, and == 0);
        self.status.assign(NEGATIV, data & 0b1000_0000 > 0);
        self.status.assign(OVERFLOW, data & 0b0100_0000 > 0);
        Ok(())
    }

    /// CMP: compare the accumulator against the operand.
    pub fn cmp(&mut self, mode: &AddressingMode) -> (r: Result<(), Fault>)
        requires
            old(self).wf(),
            *mode != AddressingMode::NoneAddressing,
        ensures
            final(self).wf(),
            match v_compare(old(self)@, *mode, old(self)@.a) {
                Ok(c2) => r == Ok::<(), Fault>(()) && final(self)@ == c2,
                Err(e) => r == Err::<(), Fault>(e) && final(self)@ == old(self)@,
            },
    {
        let base = self.register_a;
        self.compare_handle(mode, base)
    }

    /// DEC: decrement a memory cell.
    pub fn dec(&mut self, mode: &AddressingMode) -> (r: Result<(), Fault>)
        requires
            old(self).wf(),
            *mode != AddressingMode::NoneAddressing,
        ensures
            final(self).wf(),
            match v_dec_mem(old(self)@, *mode) {
                Ok(c2) => r == Ok::<(), Fault>(()) && final(self)@ == c2,
                Err(e) => r == Err::<(), Fault>(e) && final(self)@ == old(self)@,
            },
    {
        let addr = match self.get_operand_address(mode) {
            Ok(a) => a,
            Err(e) => {
                return Err(e);
            },
        };
        let data = match self.mem_read(addr) {
            Ok(v) => v,
            Err(e) => {
                return Err(e);
            },
        };
        let result = data.wrapping_sub(1);
        match self.mem_write(addr, result) {
            Ok(()) => (),
            Err(e) => {
                return Err(e);
            },
        }
        self.update_zero_and_negative_flags(result);
        Ok(())
    }

    /// EOR: bitwise exclusive or of the accumulator with the operand.
    pub fn eor(&mut self, mode: &AddressingMode) -> (r: Result<(), Fault>)
        requires
            old(self).wf(),
            *mode != AddressingMode::NoneAddressing,
        ensures
            final(self).wf(),
            match v_mem_operand(old(self)@, *mode) {
                Ok(data) => r == Ok::<(), Fault>(()) && final(self)@ == v_set_a(
                    old(self)@,
                    old(self)@.a ^ data,
                ),
                Err(e) => r == Err::<(), Fault>(e) && final(self)@ == old(self)@,
            },
    {
        let addr = match self.get_operand_address(mode) {
            Ok(a) => a,
            Err(e) => {
                return Err(e);
            },
        };
        let data = match self.mem_read(addr) {
            Ok(v) => v,
            Err(e) => {
                return Err(e);
            },
        };
        let result = self.register_a ^ data;
        self.register_a = result;
        self.update_zero_and_negative_flags(result);
        Ok(())
    }

    /// LSR on the accumulator.
    pub fn lsr_acu(&mut self)
        ensures
            final(self)@ == v_lsr_acu(old(self)@),
            final(self).wf() == old(self).wf(),
    {
        let data = self.register_a;
        if data & 0b0000_0001 == 1 {
            self.set_carry();
        } else {
            self.remove_carry();
        }
        self.set_register_a(data >> 1);
    }

    /// LSR on a memory cell; returns the shifted value.
    pub fn lsr(&mut self, mode: &AddressingMode) -> (r: Result<u8, Fault>)
        requires
            old(self).wf(),
            *mode != AddressingMode::NoneAddressing,
        ensures
            final(self).wf(),
            match v_lsr_mem(old(self)@, *mode) {
                Ok(p) => r == Ok::<u8, Fault>(p.1) && final(self)@ == p.0,
                Err(e) => r == Err::<u8, Fault>(e) && final(self)@ == old(self)@,
            },
    {
        let addr = match self.get_operand_address(mode) {
            Ok(a) => a,
            Err(e) => {
                return Err(e);
            },
        };
        let data = match self.mem_read(addr) {
            Ok(v) => v,
            Err(e) => {
                return Err(e);
            },
        };
        let result = data >> 1;
        match self.mem_write(addr, result) {
            Ok(()) => (),
            Err(e) => {
                return Err(e);
            },
        }
        if data & 0b0000_0001 == 1 {
            self.set_carry();
        } else {
            self.remove_carry();
        }
        self.update_zero_and_negative_flags(result);
        Ok(result)
    }

    /// ORA: bitwise or of the accumulator with the operand.
    pub fn ora(&mut self, mode: &AddressingMode) -> (r: Result<(), Fault>)
        requires
            old(self).wf(),
            *mode != AddressingMode::NoneAddressing,
        ensures
            final(self).wf(),
            match v_mem_operand(old(self)@, *mode) {
                Ok(data) => r == Ok::<(), Fault>(()) && final(self)@ == v_set_a(
                    old(self)@,
                    old(self)@.a | data,
                ),
                Err(e) => r == Err::<(), Fault>(e) && final(self)@ == old(self)@,
            },
    {
        let addr = match self.get_operand_address(mode) {
            Ok(a) => a,
            Err(e) => {
                return Err(e);
            },
        };
        let data = match self.mem_read(addr) {
            Ok(v) => v,
            Err(e) => {
                return Err(e);
            },
        };
        let result = self.register_a | data;
        self.set_register_a(result);
        Ok(())
    }

    /// ROL on the accumulator.
    pub fn rol_acu(&mut self)
        ensures
            final(self)@ == v_rol_acu(old(self)@),
            final(self).wf() == old(self).wf(),
    {
        let data = self.register_a;
        let cin: u8 = if self.status.contains(CARRY) {
            1
        } else {
            0
        };
        if data >> 7 == 1 {
            self.set_carry();
        } else {
            self.remove_carry();
        }
        self.set_register_a((data << 1) | cin);
    }

    /// ROL on a memory cell.
    pub fn rol(&mut self, mode: &AddressingMode) -> (r: Result<(), Fault>)
        requires
            old(self).wf(),
            *mode != AddressingMode::NoneAddressing,
        ensures
            final(self).wf(),
            match v_rol_mem(old(self)@, *mode) {
                Ok(c2) => r == Ok::<(), Fault>(()) && final(self)@ == c2,
                Err(e) => r == Err::<(), Fault>(e) && final(self)@ == old(self)@,
            },
    {
        let addr = match self.get_operand_address(mode) {
            Ok(a) => a,
            Err(e) => {
                return Err(e);
            },
        };
        let data = match self.mem_read(addr) {
            Ok(v) => v,
            Err(e) => {
                return Err(e);
            },
        };
        let cin: u8 = if self.status.contains(CARRY) {
            1
        } else {
            0
        };
        let result = (data << 1) | cin;
        match self.mem_write(addr, result) {
            Ok(()) => (),
            Err(e) => {
                return Err(e);
            },
        }
        if data >> 7 == 1 {
            self.set_carry();
        } else {
            self.remove_carry();
        }
        self.update_zero_and_negative_flags(result);
        Ok(())
    }

    /// ROR on the accumulator.
    pub fn ror_acu(&mut self)
        ensures
            final(self)@ == v_ror_acu(old(self)@),
            final(self).wf() == old(self).wf(),
    {
        let data = self.register_a;
        let cin: u8 = if self.status.contains(CARRY) {
            0x80
        } else {
            0
        };
        if data & 0b0000_0001 == 1 {
            self.set_carry();
        } else {
            self.remove_carry();
        }
        self.set_register_a((data >> 1) | cin);
    }

    /// ROR on a memory cell.
    pub fn ror(&mut self, mode: &AddressingMode) -> (r: Result<(), Fault>)
        requires
            old(self).wf(),
            *mode != AddressingMode::NoneAddressing,
        ensures
            final(self).wf(),
            match v_ror_mem(old(self)@, *mode) {
                Ok(c2) => r == Ok::<(), Fault>(()) && final(self)@ == c2,
                Err(e) => r == Err::<(), Fault>(e) && final(self)@ == old(self)@,
            },
    {
        let addr = match self.get_operand_address(mode) {
            Ok(a) => a,
            Err(e) => {
                return Err(e);
            },
        };
        let data = match self.mem_read(addr) {
            Ok(v) => v,
            Err(e) => {
                return Err(e);
            },
        };
        let cin: u8 = if self.status.contains(CARRY) {
            0x80
        } else {
            0
        };
        let result = (data >> 1) | cin;
        match self.mem_write(addr, result) {
            Ok(()) => (),
            Err(e) => {
                return Err(e);
            },
        }
        if data & 0b0000_0001 == 1 {
            self.set_carry();
        } else {
            self.remove_carry();
        }
        self.update_zero_and_negative_flags(result);
        Ok(())
    }

    /// SBC: subtract the operand via its one's complement and the carry.
    pub fn sbc(&mut self, mode: &AddressingMode) -> (r: Result<(), Fault>)
        requires
            old(self).wf(),
            *mode != AddressingMode::NoneAddressing,
        ensures
            final(self).wf(),
            match v_sbc(old(self)@, *mode) {
                Ok(c2) => r == Ok::<(), Fault>(()) && final(self)@ == c2,
                Err(e) => r == Err::<(), Fault>(e) && final(self)@ == old(self)@,
            },
    {
        let addr = match self.get_operand_address(mode) {
            Ok(a) => a,
            Err(e) => {
                return Err(e);
            },
        };
        let data = match self.mem_read(addr) {
            Ok(v) => v,
            Err(e) => {
                return Err(e);
            },
        };
        self.add_to_register_a(data ^ 0xFF);
        Ok(())
    }

    /// Dispatch an arithmetic/logic opcode; any other code is left untouched.
    pub fn handle_logic_ops(&mut self, opcode: &OpCode, code: u8) -> (r: Result<(), Fault>)
        requires
            old(self).wf(),
            spec_opcode(code) == Some((opcode.len, opcode.mode)),
        ensures
            final(self).wf(),
            is_logic_op(code) ==> (match v_exec_logic(old(self)@, code, opcode.mode) {
                Ok(c2) => r == Ok::<(), Fault>(()) && final(self)@ == c2,
                Err(e) => r == Err::<(), Fault>(e) && final(self)@ == old(self)@,
            }),
            !is_logic_op(code) ==> r == Ok::<(), Fault>(()) && final(self)@ == old(self)@,
    {
        match code {
            0x69 | 0x65 | 0x75 | 0x6D | 0x7D | 0x79 | 0x61 | 0x71 => self.adc(&opcode.mode),
            0x29 | 0x25 | 0x35 | 0x2D | 0x3D | 0x39 | 0x21 | 0x31 => self.and(&opcode.mode),
            0x0A => {
                self.asl_acu();
                Ok(())
            },
            0x06 | 0x16 | 0x0E | 0x1E => match self.asl(&opcode.mode) {
                Ok(_) => Ok(()),
                Err(e) => Err(e),
            },
            0x24 | 0x2C => self.bit(&opcode.mode),
            0xC9 | 0xC5 | 0xD5 | 0xCD | 0xDD | 0xD9 | 0xC1 | 0xD1 => self.cmp(&opcode.mode),
            0xC6 | 0xD6 | 0xCE | 0xDE => self.dec(&opcode.mode),
            0x49 | 0x45 | 0x55 | 0x4D | 0x5D | 0x59 | 0x41 | 0x51 => self.eor(&opcode.mode),
            0x4A => {
                self.lsr_acu();
                Ok(())
            },
            0x46 | 0x56 | 0x4E | 0x5E => match self.lsr(&opcode.mode) {
                Ok(_) => Ok(()),
                Err(e) => Err(e),
            },
            0x09 | 0x05 | 0x15 | 0x0D | 0x1D | 0x19 | 0x01 | 0x11 => self.ora(&opcode.mode),
            0x2A => {
                self.rol_acu();
                Ok(())
            },
            0x26 | 0x36 | 0x2E | 0x3E => self.rol(&opcode.mode),
            0x6A => {
                self.ror_acu();
                Ok(())
            },
            0x66 | 0x76 | 0x6E | 0x7E => self.ror(&opcode.mode),
            0xE9 | 0xE5 | 0xF5 | 0xED | 0xFD | 0xF9 | 0xE1 | 0xF1 => self.sbc(&opcode.mode),
            _ => Ok(()),
        }
    }
}

} // verus!
