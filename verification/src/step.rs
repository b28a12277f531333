//! The fetch-decode-execute loop, specified against a small-step
//! interpreter over the mathematical CPU state.
use vstd::prelude::*;

use crate::bus::BusV;
use crate::bus::Fault;
use crate::bus::v_read;
use crate::control_flow_ops::is_control_op;
use crate::control_flow_ops::v_exec_control;
use crate::cpu::AddressingMode;
use crate::cpu::CPU;
use crate::cpu::CpuV;
use crate::cpu::v_loaded_prg;
use crate::cpu::v_reset;
use crate::logic_ops::is_logic_op;
use crate::logic_ops::v_exec_logic;
use crate::opcodes::opcode_lookup;
use crate::opcodes::spec_opcode;
use crate::other_ops::is_other_op;
use crate::other_ops::v_exec_other;
use crate::register_ops::is_register_op;
use crate::register_ops::v_exec_register;
use crate::stack_ops::is_stack_op;
use crate::stack_ops::v_exec_stack;
use crate::status_ops::is_status_op;
use crate::status_ops::v_exec_status;

verus! {

/// What the instruction handler for `code` does, after the opcode byte has
/// been fetched and the program counter incremented past it. The error
/// carries the state at the fault.
pub open spec fn v_exec(c: CpuV, code: u8, mode: AddressingMode) -> Result<CpuV, (CpuV, Fault)> {
    if is_control_op(code) {
        v_exec_control(c, code)
    } else if is_logic_op(code) {
        match v_exec_logic(c, code, mode) {
            Ok(c2) => Ok(c2),
            Err(e) => Err((c, e)),
        }
    } else if is_register_op(code) {
        match v_exec_register(c, code, mode) {
            Ok(c2) => Ok(c2),
            Err(e) => Err((c, e)),
        }
    } else if is_status_op(code) {
        Ok(v_exec_status(c, code))
    } else if is_stack_op(code) {
        Ok(v_exec_stack(c, code))
    } else if is_other_op(code) {
        Ok(v_exec_other(c, code))
    } else {
        Ok(c)
    }
}

/// One observation of the execution loop: still running, halted by the
/// halting opcode, or aborted by a fault (with the state at that point).
#[verifier::ext_equal]
pub ghost enum RunOutcome {
    Running(CpuV),
    Halted(CpuV),
    Faulted(CpuV, Fault),
}

/// One cycle of the loop: fetch the opcode byte, advance the program counter
/// past it, stop on an unknown opcode or on the halting opcode, otherwise
/// execute and, when the handler left the program counter alone, advance it
/// by the remaining instruction length.
#[verifier::opaque]
pub open spec fn v_step_outcome(c: CpuV) -> RunOutcome {
    match v_read(c.bus, c.pc) {
        Err(e) => RunOutcome::Faulted(c, e),
        Ok(code) => {
            let c1 = CpuV { pc: c.pc.wrapping_add(1), ..c };
            match spec_opcode(code) {
                None => RunOutcome::Faulted(c1, Fault::UnknownOpcode(code)),
                Some(info) => if code == 0x00 {
                    RunOutcome::Halted(c1)
                } else {
                    match v_exec(c1, code, info.1) {
                        Err((cf, e)) => RunOutcome::Faulted(cf, e),
                        Ok(c2) => RunOutcome::Running(
                            if c2.pc == c1.pc {
                                CpuV { pc: c2.pc.wrapping_add((info.0 - 1) as u16), ..c2 }
                            } else {
                                c2
                            },
                        ),
                    }
                },
            }
        },
    }
}

/// `n` cycles of the loop from `c`; a halt or a fault is final.
pub open spec fn v_run(c: CpuV, n: nat) -> RunOutcome
    decreases n,
{
    if n == 0 {
        RunOutcome::Running(c)
    } else {
        match v_step_outcome(c) {
            RunOutcome::Running(c2) => v_run(c2, (n - 1) as nat),
            RunOutcome::Halted(h) => RunOutcome::Halted(h),
            RunOutcome::Faulted(cf, e) => RunOutcome::Faulted(cf, e),
        }
    }
}

/// Unfolding `v_run` at the back: one more cycle after `n` is one
/// observation of the state those `n` cycles reached.
pub proof fn lemma_v_run_step(c: CpuV, n: nat)
    ensures
        v_run(c, n + 1) == (match v_run(c, n) {
            RunOutcome::Running(m) => v_step_outcome(m),
            RunOutcome::Halted(h) => RunOutcome::Halted(h),
            RunOutcome::Faulted(cf, e) => RunOutcome::Faulted(cf, e),
        }),
    decreases n,
{
    if n == 0 {
        assert(v_run(c, 0) == RunOutcome::Running(c));
        match v_step_outcome(c) {
            RunOutcome::Running(c2) => {
                assert(v_run(c, 1) == v_run(c2, 0));
            },
            _ => {},
        }
    } else {
        match v_step_outcome(c) {
            RunOutcome::Running(c2) => {
                lemma_v_run_step(c2, (n - 1) as nat);
                assert(v_run(c, n + 1) == v_run(c2, n));
                assert(v_run(c, n) == v_run(c2, (n - 1) as nat));
            },
            _ => {},
        }
    }
}

/// The state with a program image loaded at `0x8000` and the reset vector
/// pointed there.
pub open spec fn v_loaded(c: CpuV, program: Seq<u8>) -> CpuV {
    CpuV { bus: BusV { prg: v_loaded_prg(c.bus.prg, program), ..c.bus }, ..c }
}

impl CPU {
    /// One cycle of the loop: `Ok(true)` to keep running, `Ok(false)` on the
    /// halting opcode, `Err` on a fault — each exactly the observation the
    /// small-step interpreter makes of the starting state.
    #[verifier::rlimit(100)]
    fn run_step(&mut self) -> (r: Result<bool, Fault>)
        requires
            old(self).wf(),
        ensures
            final(self).wf(),
            match r {
                Ok(true) => v_step_outcome(old(self)@) == RunOutcome::Running(final(self)@),
                Ok(false) => v_step_outcome(old(self)@) == RunOutcome::Halted(final(self)@),
                Err(e) => v_step_outcome(old(self)@) == RunOutcome::Faulted(final(self)@, e),
            },
    {
        proof {
            reveal(v_step_outcome);
        }
        let code = match self.mem_read(self.program_counter) {
            Ok(v) => v,
            Err(e) => {
                return Err(e);
            },
        };
        self.program_counter = self.program_counter.wrapping_add(1);
        let program_counter_state = self.program_counter;
        let opcode = match opcode_lookup(code) {
            Some(op) => op,
            None => {
                return Err(Fault::UnknownOpcode(code));
            },
        };
        if code == 0x00 {
            return Ok(false);
        }
        match self.handle_control_flow_ops(&opcode, code) {
            Ok(()) => (),
            Err(e) => {
                return Err(e);
            },
        }
        match self.handle_logic_ops(&opcode, code) {
            Ok(()) => (),
            Err(e) => {
                return Err(e);
            },
        }
        match self.handle_register_ops(&opcode, code) {
            Ok(()) => (),
            Err(e) => {
                return Err(e);
            },
        }
        match self.handle_status_ops(&opcode, code) {
            Ok(()) => (),
            Err(e) => {
                return Err(e);
            },
        }
        match self.handle_stack_ops(&opcode, code) {
            Ok(()) => (),
            Err(e) => {
                return Err(e);
            },
        }
        match self.handle_other_ops(&opcode, code) {
            Ok(()) => (),
            Err(e) => {
                return Err(e);
            },
        }
        if program_counter_state == self.program_counter {
            self.program_counter = self.program_counter.wrapping_add((opcode.len - 1) as u16);
        }
        Ok(true)
    }

    /// Run the fetch-decode-execute loop until the halting opcode or a
    /// fault: the final state is what some number of cycles of the
    /// small-step interpreter reaches, halted on `Ok` and aborted on `Err`
    /// with exactly the fault the interpreter names. The loop carries a
    /// cycle budget of 2 to the 64th so that it provably ends; a program
    /// still running after that many instructions is given up on as running
    /// forever, and `Ok` then returns the state those cycles reached.
    pub fn run(&mut self) -> (r: Result<(), Fault>)
        requires
            old(self).wf(),
        ensures
            final(self).wf(),
            match r {
                Ok(()) => (exists|n: nat|
                    v_run(old(self)@, n) == RunOutcome::Halted(final(self)@)) || v_run(
                    old(self)@,
                    u64::MAX as nat,
                ) == RunOutcome::Running(final(self)@),
                Err(e) => exists|n: nat|
                    v_run(old(self)@, n) == RunOutcome::Faulted(final(self)@, e),
            },
    {
        let ghost c0 = self@;
        let ghost mut steps: nat = 0nat;
        let mut fuel: u64 = u64::MAX;
        while fuel > 0
            invariant
                c0 == old(self)@,
                self.wf(),
                v_run(c0, steps) == RunOutcome::Running(self@),
                steps + fuel == u64::MAX,
            decreases fuel,
        {
            fuel = fuel - 1;
            let step = self.run_step();
            proof {
                lemma_v_run_step(c0, steps);
            }
            match step {
                Ok(true) => {
                    proof {
                        assert(v_run(c0, steps + 1) == RunOutcome::Running(self@));
                        steps = steps + 1;
                    }
                },
                Ok(false) => {
                    proof {
                        assert(v_run(old(self)@, steps + 1) == RunOutcome::Halted(self@));
                    }
                    return Ok(());
                },
                Err(e) => {
                    proof {
                        assert(v_run(old(self)@, steps + 1) == RunOutcome::Faulted(self@, e));
                    }
                    return Err(e);
                },
            }
        }
        proof {
            assert(v_run(old(self)@, u64::MAX as nat) == RunOutcome::Running(self@));
        }
        Ok(())
    }

    /// Load a program, reset, and run it to the halting opcode or a fault,
    /// under the same cycle budget as `run`.
    pub fn load_and_run(&mut self, program: Vec<u8>) -> (r: Result<(), Fault>)
        requires
            old(self).wf(),
            program@.len() <= old(self)@.bus.prg.len(),
        ensures
            final(self).wf(),
            match r {
                Ok(()) => (exists|n: nat|
                    v_run(v_reset(v_loaded(old(self)@, program@)), n) == RunOutcome::Halted(
                        final(self)@,
                    )) || v_run(v_reset(v_loaded(old(self)@, program@)), u64::MAX as nat)
                    == RunOutcome::Running(final(self)@),
                Err(e) => exists|n: nat|
                    v_run(v_reset(v_loaded(old(self)@, program@)), n) == RunOutcome::Faulted(
                        final(self)@,
                        e,
                    ),
            },
    {
        self.load(program);
        self.reset();
        self.run()
    }
}

} // verus!
