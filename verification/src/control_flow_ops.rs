//! Control-flow instructions: conditional branches, jumps, subroutine call
//! and return.
//!
//! JSR pushes the return address before it reads its operand, so a fault
//! while reading the target leaves the pushed bytes in place; the family
//! spec therefore carries the at-fault state in its error.
use vstd::prelude::*;

use crate::bus::Fault;
use crate::bus::v_read;
use crate::bus::v_read_u16;
use crate::cpu::CPU;
use crate::cpu::CpuV;
use crate::cpu::v_branch;
use crate::cpu::v_pull_u16;
use crate::cpu::v_push_u16;
use crate::flags::CARRY;
use crate::flags::NEGATIV;
use crate::flags::OVERFLOW;
use crate::flags::ZERO;
use crate::flags::f_has;
use crate::opcodes::OpCode;
use crate::opcodes::spec_opcode;

verus! {

/// JMP absolute: the program counter set to the 16-bit operand.
pub open spec fn v_jmp(c: CpuV) -> Result<CpuV, Fault> {
    match v_read_u16(c.bus, c.pc) {
        Ok(addr) => Ok(CpuV { pc: addr, ..c }),
        Err(e) => Err(e),
    }
}

/// JMP indirect, with the 6502 page-boundary bug: when the pointer's low
/// byte is `0xFF`, the target's high byte is fetched from the start of the
/// pointer's own page (`pointer AND 0xFF00`), not from the next page.
pub open spec fn v_jmp_indirect(c: CpuV) -> Result<CpuV, Fault> {
    match v_read_u16(c.bus, c.pc) {
        Ok(mem_address) => if mem_address & 0x00FF == 0x00FF {
            match v_read(c.bus, mem_address) {
                Ok(lo) => match v_read(c.bus, mem_address & 0xFF00) {
                    Ok(hi) => Ok(CpuV { pc: ((hi as u16) << 8) | (lo as u16), ..c }),
                    Err(e) => Err(e),
                },
                Err(e) => Err(e),
            }
        } else {
            match v_read_u16(c.bus, mem_address) {
                Ok(target) => Ok(CpuV { pc: target, ..c }),
                Err(e) => Err(e),
            }
        },
        Err(e) => Err(e),
    }
}

/// JSR: push the address of the last byte of the instruction (the program
/// counter plus one, it already passed the opcode byte), then jump to the
/// absolute operand, which is read after the push.
pub open spec fn v_jsr(c: CpuV) -> Result<CpuV, (CpuV, Fault)> {
    let c1 = v_push_u16(c, c.pc.wrapping_add(1));
    match v_read_u16(c1.bus, c1.pc) {
        Ok(target) => Ok(CpuV { pc: target, ..c1 }),
        Err(e) => Err((c1, e)),
    }
}

/// RTS: pull a 16-bit address and resume one byte past it.
pub open spec fn v_rts(c: CpuV) -> CpuV {
    let p = v_pull_u16(c);
    CpuV { pc: p.1.wrapping_add(1), ..p.0 }
}

/// Does this opcode belong to the control-flow family?
pub open spec fn is_control_op(code: u8) -> bool {
    match code {
        0x90 | 0xB0 | 0xF0 | 0xD0 | 0x30 | 0x10 | 0x50 | 0x70 | 0x4C | 0x6C | 0x20 | 0x60 => true,
        _ => false,
    }
}

/// What one control-flow opcode does; the error carries the state at the
/// fault (only JSR can have mutated it by then).
pub open spec fn v_exec_control(c: CpuV, code: u8) -> Result<CpuV, (CpuV, Fault)> {
    match code {
        0x90 => match v_branch(c, !f_has(c.status, CARRY)) {
            Ok(c2) => Ok(c2),
            Err(e) => Err((c, e)),
        },
        0xB0 => match v_branch(c, f_has(c.status, CARRY)) {
            Ok(c2) => Ok(c2),
            Err(e) => Err((c, e)),
        },
        0xF0 => match v_branch(c, f_has(c.status, ZERO)) {
            Ok(c2) => Ok(c2),
            Err(e) => Err((c, e)),
        },
        0xD0 => match v_branch(c, !f_has(c.status, ZERO)) {
            Ok(c2) => Ok(c2),
            Err(e) => Err((c, e)),
        },
        0x30 => match v_branch(c, f_has(c.status, NEGATIV)) {
            Ok(c2) => Ok(c2),
            Err(e) => Err((c, e)),
        },
        0x10 => match v_branch(c, !f_has(c.status, NEGATIV)) {
            Ok(c2) => Ok(c2),
            Err(e) => Err((c, e)),
        },
        0x50 => match v_branch(c, !f_has(c.status, OVERFLOW)) {
            Ok(c2) => Ok(c2),
            Err(e) => Err((c, e)),
        },
        0x70 => match v_branch(c, f_has(c.status, OVERFLOW)) {
            Ok(c2) => Ok(c2),
            Err(e) => Err((c, e)),
        },
        0x4C => match v_jmp(c) {
            Ok(c2) => Ok(c2),
            Err(e) => Err((c, e)),
        },
        0x6C => match v_jmp_indirect(c) {
            Ok(c2) => Ok(c2),
            Err(e) => Err((c, e)),
        },
        0x20 => v_jsr(c),
        0x60 => Ok(v_rts(c)),
        _ => Ok(c),
    }
}

impl CPU {
    /// Branch when the carry flag is clear.
    pub fn bcc(&mut self) -> (r: Result<(), Fault>)
        requires
            old(self).wf(),
        ensures
            final(self).wf(),
            match v_branch(old(self)@, !f_has(old(self)@.status, CARRY)) {
                Ok(c2) => r == Ok::<(), Fault>(()) && final(self)@ == c2,
                Err(e) => r == Err::<(), Fault>(e) && final(self)@ == old(self)@,
            },
    {
        let condition = !self.status.contains(CARRY);
        self.branch_handle(condition)
    }

    /// Branch when the carry flag is set.
    pub fn bcs(&mut self) -> (r: Result<(), Fault>)
        requires
            old(self).wf(),
        ensures
            final(self).wf(),
            match v_branch(old(self)@, f_has(old(self)@.status, CARRY)) {
                Ok(c2) => r == Ok::<(), Fault>(()) && final(self)@ == c2,
                Err(e) => r == Err::<(), Fault>(e) && final(self)@ == old(self)@,
            },
    {
        let condition = self.status.contains(CARRY);
        self.branch_handle(condition)
    }

    /// Branch when the zero flag is set.
    pub fn beq(&mut self) -> (r: Result<(), Fault>)
        requires
            old(self).wf(),
        ensures
            final(self).wf(),
            match v_branch(old(self)@, f_has(old(self)@.status, ZERO)) {
                Ok(c2) => r == Ok::<(), Fault>(()) && final(self)@ == c2,
                Err(e) => r == Err::<(), Fault>(e) && final(self)@ == old(self)@,
            },
    {
        let condition = self.status.contains(ZERO);
        self.branch_handle(condition)
    }

    /// Branch when the zero flag is clear.
    pub fn bne(&mut self) -> (r: Result<(), Fault>)
        requires
            old(self).wf(),
        ensures
            final(self).wf(),
            match v_branch(old(self)@, !f_has(old(self)@.status, ZERO)) {
                Ok(c2) => r == Ok::<(), Fault>(()) && final(self)@ == c2,
                Err(e) => r == Err::<(), Fault>(e) && final(self)@ == old(self)@,
            },
    {
        let condition = !self.status.contains(ZERO);
        self.branch_handle(condition)
    }

    /// Branch when the negative flag is set.
    pub fn bmi(&mut self) -> (r: Result<(), Fault>)
        requires
            old(self).wf(),
        ensures
            final(self).wf(),
            match v_branch(old(self)@, f_has(old(self)@.status, NEGATIV)) {
                Ok(c2) => r == Ok::<(), Fault>(()) && final(self)@ == c2,
                Err(e) => r == Err::<(), Fault>(e) && final(self)@ == old(self)@,
            },
    {
        let condition = self.status.contains(NEGATIV);
        self.branch_handle(condition)
    }

    /// Branch when the negative flag is clear.
    pub fn bpl(&mut self) -> (r: Result<(), Fault>)
        requires
            old(self).wf(),
        ensures
            final(self).wf(),
            match v_branch(old(self)@, !f_has(old(self)@.status, NEGATIV)) {
                Ok(c2) => r == Ok::<(), Fault>(()) && final(self)@ == c2,
                Err(e) => r == Err::<(), Fault>(e) && final(self)@ == old(self)@,
            },
    {
        let condition = !self.status.contains(NEGATIV);
        self.branch_handle(condition)
    }

    /// Branch when the overflow flag is clear.
    pub fn bvc(&mut self) -> (r: Result<(), Fault>)
        requires
            old(self).wf(),
        ensures
            final(self).wf(),
            match v_branch(old(self)@, !f_has(old(self)@.status, OVERFLOW)) {
                Ok(c2) => r == Ok::<(), Fault>(()) && final(self)@ == c2,
                Err(e) => r == Err::<(), Fault>(e) && final(self)@ == old(self)@,
            },
    {
        let condition = !self.status.contains(OVERFLOW);
        self.branch_handle(condition)
    }

    /// Branch when the overflow flag is set.
    pub fn bvs(&mut self) -> (r: Result<(), Fault>)
        requires
            old(self).wf(),
        ensures
            final(self).wf(),
            match v_branch(old(self)@, f_has(old(self)@.status, OVERFLOW)) {
                Ok(c2) => r == Ok::<(), Fault>(()) && final(self)@ == c2,
                Err(e) => r == Err::<(), Fault>(e) && final(self)@ == old(self)@,
            },
    {
        let condition = self.status.contains(OVERFLOW);
        self.branch_handle(condition)
    }

    /// JMP absolute.
    pub fn jmp(&mut self) -> (r: Result<(), Fault>)
        requires
            old(self).wf(),
        ensures
            final(self).wf(),
            match v_jmp(old(self)@) {
                Ok(c2) => r == Ok::<(), Fault>(()) && final(self)@ == c2,
                Err(e) => r == Err::<(), Fault>(e) && final(self)@ == old(self)@,
            },
    {
        let addr = match self.mem_read_u16(self.program_counter) {
            Ok(v) => v,
            Err(e) => {
                return Err(e);
            },
        };
        self.program_counter = addr;
        Ok(())
    }

    /// JMP indirect, reproducing the page-boundary bug.
    pub fn jmp_indirect(&mut self) -> (r: Result<(), Fault>)
        requires
            old(self).wf(),
        ensures
            final(self).wf(),
            match v_jmp_indirect(old(self)@) {
                Ok(c2) => r == Ok::<(), Fault>(()) && final(self)@ == c2,
                Err(e) => r == Err::<(), Fault>(e) && final(self)@ == old(self)@,
            },
    {
        let mem_address = match self.mem_read_u16(self.program_counter) {
            Ok(v) => v,
            Err(e) => {
                return Err(e);
            },
        };
        let indirect_ref: u16 = if mem_address & 0x00FF == 0x00FF {
            let lo = match self.mem_read(mem_address) {
                Ok(v) => v,
                Err(e) => {
                    return Err(e);
                },
            };
            let hi = match self.mem_read(mem_address & 0xFF00) {
                Ok(v) => v,
                Err(e) => {
                    return Err(e);
                },
            };
            ((hi as u16) << 8) | (lo as u16)
        } else {
            match self.mem_read_u16(mem_address) {
                Ok(v) => v,
                Err(e) => {
                    return Err(e);
                },
            }
        };
        self.program_counter = indirect_ref;
        Ok(())
    }

    /// JSR: push the return address, then jump to the absolute operand.
    pub fn jsr(&mut self) -> (r: Result<(), Fault>)
        requires
            old(self).wf(),
        ensures
            final(self).wf(),
            match v_jsr(old(self)@) {
                Ok(c2) => r == Ok::<(), Fault>(()) && final(self)@ == c2,
                Err((cf, e)) => r == Err::<(), Fault>(e) && final(self)@ == cf,
            },
    {
        let ret: u16 = self.program_counter.wrapping_add(1);
        self.stack_push_u16(ret);
        let target = match self.mem_read_u16(self.program_counter) {
            Ok(v) => v,
            Err(e) => {
                return Err(e);
            },
        };
        self.program_counter = target;
        Ok(())
    }

    /// RTS: pull the return address and resume one byte past it.
    pub fn rts(&mut self)
        requires
            old(self).wf(),
        ensures
            final(self).wf(),
            final(self)@ == v_rts(old(self)@),
    {
        let pulled = self.stack_pull_u16();
        self.program_counter = pulled.wrapping_add(1);
    }

    /// Dispatch a control-flow opcode; any other code is left untouched.
    pub fn handle_control_flow_ops(&mut self, opcode: &OpCode, code: u8) -> (r: Result<(), Fault>)
        requires
            old(self).wf(),
            spec_opcode(code) == Some((opcode.len, opcode.mode)),
        ensures
            final(self).wf(),
            is_control_op(code) ==> (match v_exec_control(old(self)@, code) {
                Ok(c2) => r == Ok::<(), Fault>(()) && final(self)@ == c2,
                Err((cf, e)) => r == Err::<(), Fault>(e) && final(self)@ == cf,
            }),
            !is_control_op(code) ==> r == Ok::<(), Fault>(()) && final(self)@ == old(self)@,
    {
        match code {
            0x90 => self.bcc(),
            0xB0 => self.bcs(),
            0xF0 => self.beq(),
            0xD0 => self.bne(),
            0x30 => self.bmi(),
            0x10 => self.bpl(),
            0x50 => self.bvc(),
            0x70 => self.bvs(),
            0x4C => self.jmp(),
            0x6C => self.jmp_indirect(),
            0x20 => self.jsr(),
            0x60 => {
                self.rts();
                Ok(())
            },
            _ => Ok(()),
        }
    }
}

} // verus!
