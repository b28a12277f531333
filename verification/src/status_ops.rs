//! Status-flag instructions: each unconditionally clears or sets exactly one
//! named flag.
use vstd::prelude::*;

use crate::bus::Fault;
use crate::cpu::CPU;
use crate::cpu::CpuV;
use crate::flags::CARRY;
use crate::flags::DECIMAL_MODE;
use crate::flags::INTERRUPT_DISABLE;
use crate::flags::OVERFLOW;
use crate::flags::f_insert;
use crate::flags::f_remove;
use crate::opcodes::OpCode;
use crate::opcodes::spec_opcode;

verus! {

/// Does this opcode belong to the status-flag family?
pub open spec fn is_status_op(code: u8) -> bool {
    match code {
        0x18 | 0xD8 | 0x58 | 0xB8 | 0x38 | 0xF8 | 0x78 => true,
        _ => false,
    }
}

/// What one status-flag opcode does: one flag set or cleared, nothing else.
pub open spec fn v_exec_status(c: CpuV, code: u8) -> CpuV {
    match code {
        0x18 => (CpuV { status: f_remove(c.status, CARRY), ..c }),
        0xD8 => (CpuV { status: f_remove(c.status, DECIMAL_MODE), ..c }),
        0x58 => (CpuV { status: f_remove(c.status, INTERRUPT_DISABLE), ..c }),
        0xB8 => (CpuV { status: f_remove(c.status, OVERFLOW), ..c }),
        0x38 => (CpuV { status: f_insert(c.status, CARRY), ..c }),
        0xF8 => (CpuV { status: f_insert(c.status, DECIMAL_MODE), ..c }),
        0x78 => (CpuV { status: f_insert(c.status, INTERRUPT_DISABLE), ..c }),
        _ => c,
    }
}

impl CPU {
    /// Clear the carry flag.
    pub fn clc(&mut self)
        ensures
            final(self)@ == (CpuV { status: f_remove(old(self)@.status, CARRY), ..old(self)@ }),
            final(self).wf() == old(self).wf(),
    {
        self.status.remove(CARRY);
    }

    /// Clear the decimal-mode flag.
    pub fn cld(&mut self)
        ensures
            final(self)@ == (CpuV {
                status: f_remove(old(self)@.status, DECIMAL_MODE),
                ..old(self)@
            }),
            final(self).wf() == old(self).wf(),
    {
        self.status.remove(DECIMAL_MODE);
    }

    /// Clear the interrupt-disable flag.
    pub fn cli(&mut self)
        ensures
            final(self)@ == (CpuV {
                status: f_remove(old(self)@.status, INTERRUPT_DISABLE),
                ..old(self)@
            }),
            final(self).wf() == old(self).wf(),
    {
        self.status.remove(INTERRUPT_DISABLE);
    }

    /// Clear the overflow flag.
    pub fn clv(&mut self)
        ensures
            final(self)@ == (CpuV { status: f_remove(old(self)@.status, OVERFLOW), ..old(self)@ }),
            final(self).wf() == old(self).wf(),
    {
        self.status.remove(OVERFLOW);
    }

    /// Set the carry flag.
    pub fn sec(&mut self)
        ensures
            final(self)@ == (CpuV { status: f_insert(old(self)@.status, CARRY), ..old(self)@ }),
            final(self).wf() == old(self).wf(),
    {
        self.status.insert(CARRY);
    }

    /// Set the decimal-mode flag.
    pub fn sed(&mut self)
        ensures
            final(self)@ == (CpuV {
                status: f_insert(old(self)@.status, DECIMAL_MODE),
                ..old(self)@
            }),
            final(self).wf() == old(self).wf(),
    {
        self.status.insert(DECIMAL_MODE);
    }

    /// Set the interrupt-disable flag.
    pub fn sei(&mut self)
        ensures
            final(self)@ == (CpuV {
                status: f_insert(old(self)@.status, INTERRUPT_DISABLE),
                ..old(self)@
            }),
            final(self).wf() == old(self).wf(),
    {
        self.status.insert(INTERRUPT_DISABLE);
    }

    /// Dispatch a status-flag opcode; any other code is left untouched.
    pub fn handle_status_ops(&mut self, opcode: &OpCode, code: u8) -> (r: Result<(), Fault>)
        requires
            old(self).wf(),
            spec_opcode(code) == Some((opcode.len, opcode.mode)),
        ensures
            final(self).wf(),
            r == Ok::<(), Fault>(()),
            is_status_op(code) ==> final(self)@ == v_exec_status(old(self)@, code),
            !is_status_op(code) ==> final(self)@ == old(self)@,
    {
        match code {
            0x18 => self.clc(),
            0xD8 => self.cld(),
            0x58 => self.cli(),
            0xB8 => self.clv(),
            0x38 => self.sec(),
            0xF8 => self.sed(),
            0x78 => self.sei(),
            _ => (),
        }
        Ok(())
    }
}

} // verus!
