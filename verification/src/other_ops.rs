//! The remaining instructions: NOP and return-from-interrupt.
use vstd::prelude::*;

use crate::bus::Fault;
use crate::cpu::CPU;
use crate::cpu::CpuV;
use crate::cpu::v_pull;
use crate::cpu::v_pull_u16;
use crate::flags::CpuFlags;
use crate::opcodes::OpCode;
use crate::opcodes::spec_opcode;

verus! {

/// RTI: pull the status (Break2 masked out), then pull the program counter.
pub open spec fn v_rti(c: CpuV) -> CpuV {
    let p = v_pull(c);
    let q = v_pull_u16(p.0);
    CpuV { status: p.1 & 0b1101_1111, pc: q.1, ..q.0 }
}

/// Does this opcode belong to the remaining family?
pub open spec fn is_other_op(code: u8) -> bool {
    match code {
        0xEA | 0x40 => true,
        _ => false,
    }
}

/// What one remaining opcode does; neither faults.
pub open spec fn v_exec_other(c: CpuV, code: u8) -> CpuV {
    match code {
        0xEA => c,
        0x40 => v_rti(c),
        _ => c,
    }
}

impl CPU {
    /// NOP: no effect beyond the generic program-counter advance.
    pub fn nop(&mut self)
        ensures
            final(self)@ == old(self)@,
            final(self).wf() == old(self).wf(),
    {
    }

    /// RTI: restore the status (Break2 discarded) and the program counter
    /// from the stack.
    pub fn rti(&mut self)
        requires
            old(self).wf(),
        ensures
            final(self).wf(),
            final(self)@ == v_rti(old(self)@),
    {
        let status = self.stack_pull();
        self.status = CpuFlags::from_bits_truncate(status & 0b1101_1111);
        let pc = self.stack_pull_u16();
        self.program_counter = pc;
    }

    /// Dispatch one of the remaining opcodes; any other code is left
    /// untouched.
    pub fn handle_other_ops(&mut self, opcode: &OpCode, code: u8) -> (r: Result<(), Fault>)
        requires
            old(self).wf(),
            spec_opcode(code) == Some((opcode.len, opcode.mode)),
        ensures
            final(self).wf(),
            r == Ok::<(), Fault>(()),
            is_other_op(code) ==> final(self)@ == v_exec_other(old(self)@, code),
            !is_other_op(code) ==> final(self)@ == old(self)@,
    {
        match code {
            0xEA => self.nop(),
            0x40 => self.rti(),
            _ => (),
        }
        Ok(())
    }
}

} // verus!
