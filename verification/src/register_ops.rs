//! Load, store, transfer, increment/decrement and register-compare
//! instructions.
use vstd::prelude::*;

use crate::bus::Fault;
use crate::bus::v_read;
use crate::bus::v_write;
use crate::cpu::AddressingMode;
use crate::cpu::CPU;
use crate::cpu::CpuV;
use crate::cpu::v_compare;
use crate::cpu::v_mem_operand;
use crate::cpu::v_operand_addr;
use crate::cpu::v_set_a;
use crate::cpu::v_set_x;
use crate::cpu::v_set_y;
use crate::flags::upd_zn;
use crate::opcodes::OpCode;
use crate::opcodes::spec_opcode;

verus! {

/// A memory cell incremented or decremented by `delta` with 8-bit wraparound,
/// Zero and Negative updated from the new value.
pub open spec fn v_step_mem(c: CpuV, mode: AddressingMode, delta: u8) -> Result<CpuV, Fault> {
    match v_operand_addr(c, mode) {
        Ok(addr) => match v_read(c.bus, addr) {
            Ok(data) => {
                let result = data.wrapping_add(delta);
                match v_write(c.bus, addr, result) {
                    Ok(b) => Ok(CpuV { bus: b, status: upd_zn(c.status, result), ..c }),
                    Err(e) => Err(e),
                }
            },
            Err(e) => Err(e),
        },
        Err(e) => Err(e),
    }
}

/// A register stored to the resolved address; no flag effect.
pub open spec fn v_store(c: CpuV, mode: AddressingMode, value: u8) -> Result<CpuV, Fault> {
    match v_operand_addr(c, mode) {
        Ok(addr) => match v_write(c.bus, addr, value) {
            Ok(b) => Ok(CpuV { bus: b, ..c }),
            Err(e) => Err(e),
        },
        Err(e) => Err(e),
    }
}

/// The accumulator loaded from the resolved address.
pub open spec fn v_lda(c: CpuV, mode: AddressingMode) -> Result<CpuV, Fault> {
    match v_mem_operand(c, mode) {
        Ok(data) => Ok(v_set_a(c, data)),
        Err(e) => Err(e),
    }
}

/// The X register loaded from the resolved address.
pub open spec fn v_ldx(c: CpuV, mode: AddressingMode) -> Result<CpuV, Fault> {
    match v_mem_operand(c, mode) {
        Ok(data) => Ok(v_set_x(c, data)),
        Err(e) => Err(e),
    }
}

/// The Y register loaded from the resolved address.
pub open spec fn v_ldy(c: CpuV, mode: AddressingMode) -> Result<CpuV, Fault> {
    match v_mem_operand(c, mode) {
        Ok(data) => Ok(v_set_y(c, data)),
        Err(e) => Err(e),
    }
}

/// Does this opcode belong to the register family?
pub open spec fn is_register_op(code: u8) -> bool {
    match code {
        0xE0 | 0xE4 | 0xEC | 0xC0 | 0xC4 | 0xCC | 0xCA | 0x88 | 0xA9 | 0xA5 | 0xB5 | 0xAD | 0xBD
            | 0xB9 | 0xA1 | 0xB1 | 0xA2 | 0xA6 | 0xB6 | 0xAE | 0xBE | 0xA0 | 0xA4 | 0xB4 | 0xAC
            | 0xBC | 0x85 | 0x95 | 0x8D | 0x9D | 0x99 | 0x81 | 0x91 | 0x86 | 0x96 | 0x8E | 0x84
            | 0x94 | 0x8C | 0xAA | 0xA8 | 0x8A | 0x98 | 0xBA | 0x9A | 0xE8 | 0xC8 | 0xE6 | 0xF6
            | 0xEE | 0xFE => true,
        _ => false,
    }
}

/// What one register-family opcode does to the CPU state.
pub open spec fn v_exec_register(c: CpuV, code: u8, mode: AddressingMode) -> Result<CpuV, Fault> {
    match code {
        0xE0 | 0xE4 | 0xEC => v_compare(c, mode, c.x),
        0xC0 | 0xC4 | 0xCC => v_compare(c, mode, c.y),
        0xCA => Ok(v_set_x(c, c.x.wrapping_sub(1))),
        0x88 => Ok(v_set_y(c, c.y.wrapping_sub(1))),
        0xA9 | 0xA5 | 0xB5 | 0xAD | 0xBD | 0xB9 | 0xA1 | 0xB1 => v_lda(c, mode),
        0xA2 | 0xA6 | 0xB6 | 0xAE | 0xBE => v_ldx(c, mode),
        0xA0 | 0xA4 | 0xB4 | 0xAC | 0xBC => v_ldy(c, mode),
        0x85 | 0x95 | 0x8D | 0x9D | 0x99 | 0x81 | 0x91 => v_store(c, mode, c.a),
        0x86 | 0x96 | 0x8E => v_store(c, mode, c.x),
        0x84 | 0x94 | 0x8C => v_store(c, mode, c.y),
        0xAA => Ok(v_set_x(c, c.a)),
        0xA8 => Ok(v_set_y(c, c.a)),
        0x8A => Ok(v_set_a(c, c.x)),
        0x98 => Ok(v_set_a(c, c.y)),
        0xBA => Ok(v_set_x(c, c.sp)),
        0x9A => Ok(CpuV { sp: c.x, ..c }),
        0xE8 => Ok(v_set_x(c, c.x.wrapping_add(1))),
        0xC8 => Ok(v_set_y(c, c.y.wrapping_add(1))),
        0xE6 | 0xF6 | 0xEE | 0xFE => v_step_mem(c, mode, 1),
        _ => Ok(c),
    }
}

impl CPU {
    /// Compare X against the operand.
    pub fn cpx(&mut self, mode: &AddressingMode) -> (r: Result<(), Fault>)
        requires
            old(self).wf(),
            *mode != AddressingMode::NoneAddressing,
        ensures
            final(self).wf(),
            match v_compare(old(self)@, *mode, old(self)@.x) {
                Ok(c2) => r == Ok::<(), Fault>(()) && final(self)@ == c2,
                Err(e) => r == Err::<(), Fault>(e) && final(self)@ == old(self)@,
            },
    {
        let base = self.register_x;
        self.compare_handle(mode, base)
    }

    /// Compare Y against the operand.
    pub fn cpy(&mut self, mode: &AddressingMode) -> (r: Result<(), Fault>)
        requires
            old(self).wf(),
            *mode != AddressingMode::NoneAddressing,
        ensures
            final(self).wf(),
            match v_compare(old(self)@, *mode, old(self)@.y) {
                Ok(c2) => r == Ok::<(), Fault>(()) && final(self)@ == c2,
                Err(e) => r == Err::<(), Fault>(e) && final(self)@ == old(self)@,
            },
    {
        let base = self.register_y;
        self.compare_handle(mode, base)
    }

    /// Decrement X.
    pub fn dex(&mut self)
        ensures
            final(self)@ == v_set_x(old(self)@, old(self)@.x.wrapping_sub(1)),
            final(self).wf() == old(self).wf(),
    {
        let result = self.register_x.wrapping_sub(1);
        self.register_x = result;
        self.update_zero_and_negative_flags(result);
    }

    /// Decrement Y.
    pub fn dey(&mut self)
        ensures
            final(self)@ == v_set_y(old(self)@, old(self)@.y.wrapping_sub(1)),
            final(self).wf() == old(self).wf(),
    {
        let result = self.register_y.wrapping_sub(1);
        self.register_y = result;
        self.update_zero_and_negative_flags(result);
    }

    /// Increment X.
    pub fn inx(&mut self)
        ensures
            final(self)@ == v_set_x(old(self)@, old(self)@.x.wrapping_add(1)),
            final(self).wf() == old(self).wf(),
    {
        let result = self.register_x.wrapping_add(1);
        self.register_x = result;
        self.update_zero_and_negative_flags(result);
    }

    /// Increment Y.
    pub fn iny(&mut self)
        ensures
            final(self)@ == v_set_y(old(self)@, old(self)@.y.wrapping_add(1)),
            final(self).wf() == old(self).wf(),
    {
        let result = self.register_y.wrapping_add(1);
        self.register_y = result;
        self.update_zero_and_negative_flags(result);
    }

    /// Increment a memory cell.
    pub fn inc(&mut self, mode: &AddressingMode) -> (r: Result<(), Fault>)
        requires
            old(self).wf(),
            *mode != AddressingMode::NoneAddressing,
        ensures
            final(self).wf(),
            match v_step_mem(old(self)@, *mode, 1) {
                Ok(c2) => r == Ok::<(), Fault>(()) && final(self)@ == c2,
                Err(e) => r == Err::<(), Fault>(e) && final(self)@ == old(self)@,
            },
    {
        let addr = match self.get_operand_address(mode) {
            Ok(a) => a,
            Err(e) => {
                return Err(e);
            },
        };
        let data = match self.mem_read(addr) {
            Ok(v) => v,
            Err(e) => {
                return Err(e);
            },
        };
        let result = data.wrapping_add(1);
        match self.mem_write(addr, result) {
            Ok(()) => (),
            Err(e) => {
                return Err(e);
            },
        }
        self.update_zero_and_negative_flags(result);
        Ok(())
    }

    /// Load the accumulator.
    pub fn lda(&mut self, mode: &AddressingMode) -> (r: Result<(), Fault>)
        requires
            old(self).wf(),
            *mode != AddressingMode::NoneAddressing,
        ensures
            final(self).wf(),
            match v_lda(old(self)@, *mode) {
                Ok(c2) => r == Ok::<(), Fault>(()) && final(self)@ == c2,
                Err(e) => r == Err::<(), Fault>(e) && final(self)@ == old(self)@,
            },
    {
        let addr = match self.get_operand_address(mode) {
            Ok(a) => a,
            Err(e) => {
                return Err(e);
            },
        };
        let value = match self.mem_read(addr) {
            Ok(v) => v,
            Err(e) => {
                return Err(e);
            },
        };
        self.register_a = value;
        self.update_zero_and_negative_flags(value);
        Ok(())
    }

    /// Load X.
    pub fn ldx(&mut self, mode: &AddressingMode) -> (r: Result<(), Fault>)
        requires
            old(self).wf(),
            *mode != AddressingMode::NoneAddressing,
        ensures
            final(self).wf(),
            match v_ldx(old(self)@, *mode) {
                Ok(c2) => r == Ok::<(), Fault>(()) && final(self)@ == c2,
                Err(e) => r == Err::<(), Fault>(e) && final(self)@ == old(self)@,
            },
    {
        let addr = match self.get_operand_address(mode) {
            Ok(a) => a,
            Err(e) => {
                return Err(e);
            },
        };
        let value = match self.mem_read(addr) {
            Ok(v) => v,
            Err(e) => {
                return Err(e);
            },
        };
        self.register_x = value;
        self.update_zero_and_negative_flags(value);
        Ok(())
    }

    /// Load Y.
    pub fn ldy(&mut self, mode: &AddressingMode) -> (r: Result<(), Fault>)
        requires
            old(self).wf(),
            *mode != AddressingMode::NoneAddressing,
        ensures
            final(self).wf(),
            match v_ldy(old(self)@, *mode) {
                Ok(c2) => r == Ok::<(), Fault>(()) && final(self)@ == c2,
                Err(e) => r == Err::<(), Fault>(e) && final(self)@ == old(self)@,
            },
    {
        let addr = match self.get_operand_address(mode) {
            Ok(a) => a,
            Err(e) => {
                return Err(e);
            },
        };
        let value = match self.mem_read(addr) {
            Ok(v) => v,
            Err(e) => {
                return Err(e);
            },
        };
        self.register_y = value;
        self.update_zero_and_negative_flags(value);
        Ok(())
    }

    /// Store the accumulator.
    pub fn sta(&mut self, mode: &AddressingMode) -> (r: Result<(), Fault>)
        requires
            old(self).wf(),
            *mode != AddressingMode::NoneAddressing,
        ensures
            final(self).wf(),
            match v_store(old(self)@, *mode, old(self)@.a) {
                Ok(c2) => r == Ok::<(), Fault>(()) && final(self)@ == c2,
                Err(e) => r == Err::<(), Fault>(e) && final(self)@ == old(self)@,
            },
    {
        let addr = match self.get_operand_address(mode) {
            Ok(a) => a,
            Err(e) => {
                return Err(e);
            },
        };
        let value = self.register_a;
        match self.mem_write(addr, value) {
            Ok(()) => Ok(()),
            Err(e) => Err(e),
        }
    }

    /// Store X.
    pub fn stx(&mut self, mode: &AddressingMode) -> (r: Result<(), Fault>)
        requires
            old(self).wf(),
            *mode != AddressingMode::NoneAddressing,
        ensures
            final(self).wf(),
            match v_store(old(self)@, *mode, old(self)@.x) {
                Ok(c2) => r == Ok::<(), Fault>(()) && final(self)@ == c2,
                Err(e) => r == Err::<(), Fault>(e) && final(self)@ == old(self)@,
            },
    {
        let addr = match self.get_operand_address(mode) {
            Ok(a) => a,
            Err(e) => {
                return Err(e);
            },
        };
        let value = self.register_x;
        match self.mem_write(addr, value) {
            Ok(()) => Ok(()),
            Err(e) => Err(e),
        }
    }

    /// Store Y.
    pub fn sty(&mut self, mode: &AddressingMode) -> (r: Result<(), Fault>)
        requires
            old(self).wf(),
            *mode != AddressingMode::NoneAddressing,
        ensures
            final(self).wf(),
            match v_store(old(self)@, *mode, old(self)@.y) {
                Ok(c2) => r == Ok::<(), Fault>(()) && final(self)@ == c2,
                Err(e) => r == Err::<(), Fault>(e) && final(self)@ == old(self)@,
            },
    {
        let addr = match self.get_operand_address(mode) {
            Ok(a) => a,
            Err(e) => {
                return Err(e);
            },
        };
        let value = self.register_y;
        match self.mem_write(addr, value) {
            Ok(()) => Ok(()),
            Err(e) => Err(e),
        }
    }

    /// Copy A into X.
    pub fn tax(&mut self)
        ensures
            final(self)@ == v_set_x(old(self)@, old(self)@.a),
            final(self).wf() == old(self).wf(),
    {
        self.register_x = self.register_a;
        self.update_zero_and_negative_flags(self.register_x);
    }

    /// Copy A into Y.
    pub fn tay(&mut self)
        ensures
            final(self)@ == v_set_y(old(self)@, old(self)@.a),
            final(self).wf() == old(self).wf(),
    {
        self.register_y = self.register_a;
        self.update_zero_and_negative_flags(self.register_y);
    }

    /// Copy X into A.
    pub fn txa(&mut self)
        ensures
            final(self)@ == v_set_a(old(self)@, old(self)@.x),
            final(self).wf() == old(self).wf(),
    {
        self.register_a = self.register_x;
        self.update_zero_and_negative_flags(self.register_a);
    }

    /// Copy Y into A.
    pub fn tya(&mut self)
        ensures
            final(self)@ == v_set_a(old(self)@, old(self)@.y),
            final(self).wf() == old(self).wf(),
    {
        self.register_a = self.register_y;
        self.update_zero_and_negative_flags(self.register_a);
    }

    /// Copy the stack pointer into X.
    pub fn tsx(&mut self)
        ensures
            final(self)@ == v_set_x(old(self)@, old(self)@.sp),
            final(self).wf() == old(self).wf(),
    {
        self.register_x = self.stack_ptr;
        self.update_zero_and_negative_flags(self.register_x);
    }

    /// Copy X into the stack pointer; no flag effect.
    pub fn txs(&mut self)
        ensures
            final(self)@ == (CpuV { sp: old(self)@.x, ..old(self)@ }),
            final(self).wf() == old(self).wf(),
    {
        self.stack_ptr = self.register_x;
    }

    /// Dispatch a register-family opcode; any other code is left untouched.
    pub fn handle_register_ops(&mut self, opcode: &OpCode, code: u8) -> (r: Result<(), Fault>)
        requires
            old(self).wf(),
            spec_opcode(code) == Some((opcode.len, opcode.mode)),
        ensures
            final(self).wf(),
            is_register_op(code) ==> (match v_exec_register(old(self)@, code, opcode.mode) {
                Ok(c2) => r == Ok::<(), Fault>(()) && final(self)@ == c2,
                Err(e) => r == Err::<(), Fault>(e) && final(self)@ == old(self)@,
            }),
            !is_register_op(code) ==> r == Ok::<(), Fault>(()) && final(self)@ == old(self)@,
    {
        match code {
            0xE0 | 0xE4 | 0xEC => self.cpx(&opcode.mode),
            0xC0 | 0xC4 | 0xCC => self.cpy(&opcode.mode),
            0xCA => {
                self.dex();
                Ok(())
            },
            0x88 => {
                self.dey();
                Ok(())
            },
            0xA9 | 0xA5 | 0xB5 | 0xAD | 0xBD | 0xB9 | 0xA1 | 0xB1 => self.lda(&opcode.mode),
            0xA2 | 0xA6 | 0xB6 | 0xAE | 0xBE => self.ldx(&opcode.mode),
            0xA0 | 0xA4 | 0xB4 | 0xAC | 0xBC => self.ldy(&opcode.mode),
            0x85 | 0x95 | 0x8D | 0x9D | 0x99 | 0x81 | 0x91 => self.sta(&opcode.mode),
            0x86 | 0x96 | 0x8E => self.stx(&opcode.mode),
            0x84 | 0x94 | 0x8C => self.sty(&opcode.mode),
            0xAA => {
                self.tax();
                Ok(())
            },
            0xA8 => {
                self.tay();
                Ok(())
            },
            0x8A => {
                self.txa();
                Ok(())
            },
            0x98 => {
                self.tya();
                Ok(())
            },
            0xBA => {
                self.tsx();
                Ok(())
            },
            0x9A => {
                self.txs();
                Ok(())
            },
            0xE8 => {
                self.inx();
                Ok(())
            },
            0xC8 => {
                self.iny();
                Ok(())
            },
            0xE6 | 0xF6 | 0xEE | 0xFE => self.inc(&opcode.mode),
            _ => Ok(()),
        }
    }
}

} // verus!
