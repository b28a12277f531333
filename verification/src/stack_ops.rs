//! Stack instructions: push/pull of the accumulator and of the status
//! register, with the synthesized Break bits.
use vstd::prelude::*;

use crate::bus::Fault;
use crate::cpu::CPU;
use crate::cpu::CpuV;
use crate::cpu::v_pull;
use crate::cpu::v_push;
use crate::cpu::v_set_a;
use crate::flags::BREAK;
use crate::flags::BREAK2;
use crate::flags::CpuFlags;
use crate::flags::f_insert;
use crate::opcodes::OpCode;
use crate::opcodes::spec_opcode;

verus! {

/// PHA: the accumulator pushed.
pub open spec fn v_pha(c: CpuV) -> CpuV {
    v_push(c, c.a)
}

/// PHP: the status pushed with Break and Break2 forced set; the live status
/// is untouched.
pub open spec fn v_php(c: CpuV) -> CpuV {
    v_push(c, f_insert(f_insert(c.status, BREAK), BREAK2))
}

/// PLA: a byte pulled into the accumulator through the load flag path.
pub open spec fn v_pla(c: CpuV) -> CpuV {
    let p = v_pull(c);
    v_set_a(p.0, p.1)
}

/// PLP: a byte pulled into the status with the Break bits masked out —
/// hardware does not latch them.
pub open spec fn v_plp(c: CpuV) -> CpuV {
    let p = v_pull(c);
    CpuV { status: p.1 & 0b1100_1111, ..p.0 }
}

/// Does this opcode belong to the stack family?
pub open spec fn is_stack_op(code: u8) -> bool {
    match code {
        0x48 | 0x08 | 0x68 | 0x28 => true,
        _ => false,
    }
}

/// What one stack opcode does; stack accesses stay in RAM, so none faults.
pub open spec fn v_exec_stack(c: CpuV, code: u8) -> CpuV {
    match code {
        0x48 => v_pha(c),
        0x08 => v_php(c),
        0x68 => v_pla(c),
        0x28 => v_plp(c),
        _ => c,
    }
}

impl CPU {
    /// Push the accumulator.
    pub fn pha(&mut self)
        requires
            old(self).wf(),
        ensures
            final(self).wf(),
            final(self)@ == v_pha(old(self)@),
    {
        let value = self.register_a;
        self.stack_push(value);
    }

    /// Push the status with Break and Break2 forced set.
    pub fn php(&mut self)
        requires
            old(self).wf(),
        ensures
            final(self).wf(),
            final(self)@ == v_php(old(self)@),
    {
        let mut data = self.status;
        data.insert(BREAK);
        data.insert(BREAK2);
        self.stack_push(data.bits);
    }

    /// Pull into the accumulator, updating Zero and Negative.
    pub fn pla(&mut self)
        requires
            old(self).wf(),
        ensures
            final(self).wf(),
            final(self)@ == v_pla(old(self)@),
    {
        let pulled = self.stack_pull();
        self.set_register_a(pulled);
    }

    /// Pull into the status with the Break bits masked out.
    pub fn plp(&mut self)
        requires
            old(self).wf(),
        ensures
            final(self).wf(),
            final(self)@ == v_plp(old(self)@),
    {
        let pulled = self.stack_pull();
        self.status = CpuFlags::from_bits_truncate(pulled & 0b1100_1111);
    }

    /// Dispatch a stack opcode; any other code is left untouched.
    pub fn handle_stack_ops(&mut self, opcode: &OpCode, code: u8) -> (r: Result<(), Fault>)
        requires
            old(self).wf(),
            spec_opcode(code) == Some((opcode.len, opcode.mode)),
        ensures
            final(self).wf(),
            r == Ok::<(), Fault>(()),
            is_stack_op(code) ==> final(self)@ == v_exec_stack(old(self)@, code),
            !is_stack_op(code) ==> final(self)@ == old(self)@,
    {
        match code {
            0x48 => self.pha(),
            0x08 => self.php(),
            0x68 => self.pla(),
            0x28 => self.plp(),
            _ => (),
        }
        Ok(())
    }
}

} // verus!
