//! The CPU core: registers, flags, stack pointer and program counter, the
//! addressing-mode resolver, and the primitive register/flag/stack/memory
//! operations every instruction is built from.
use vstd::prelude::*;

use crate::bus::Bus;
use crate::bus::BusV;
use crate::bus::Fault;
use crate::bus::bus_wf;
use crate::bus::lemma_ram_index_bounds;
use crate::bus::v_read;
use crate::bus::v_read_u16;
use crate::bus::v_write;
use crate::flags::CARRY;
use crate::flags::CpuFlags;
use crate::flags::NEGATIV;
use crate::flags::OVERFLOW;
use crate::flags::STATUS_RESET;
use crate::flags::ZERO;
use crate::flags::f_assign;
use crate::flags::f_has;
use crate::flags::f_insert;
use crate::flags::f_remove;
use crate::flags::upd_zn;

verus! {

/// Base of the fixed stack page.
pub const STACK_PTR_START: u16 = 0x0100;

/// Stack pointer value after reset.
pub const STACK_PTR_RESET: u8 = 0xFD;

/// The rule by which an instruction's operand address is computed from the
/// instruction bytes and the index registers. `NoneAddressing` marks implied
/// and accumulator operands, for which resolving an address is a programming
/// error.
#[derive(Clone, Copy, Debug, PartialEq, Eq, Structural)]
pub enum AddressingMode {
    Immediate,
    ZeroPage,
    ZeroPage_X,
    ZeroPage_Y,
    Absolute,
    Absolute_X,
    Absolute_Y,
    Indirect_X,
    Indirect_Y,
    NoneAddressing,
}

/// The CPU as mathematics: registers, raw status bits, program counter and
/// the bus contents.
#[verifier::ext_equal]
pub ghost struct CpuV {
    pub a: u8,
    pub x: u8,
    pub y: u8,
    pub sp: u8,
    pub status: u8,
    pub pc: u16,
    pub bus: BusV,
}

/// Owns the registers and the bus; drives the fetch-decode-execute loop.
pub struct CPU {
    pub register_a: u8,
    pub register_x: u8,
    pub register_y: u8,
    pub stack_ptr: u8,
    pub status: CpuFlags,
    pub program_counter: u16,
    pub bus: Bus,
}

impl View for CPU {
    type V = CpuV;

    open spec fn view(&self) -> CpuV {
        CpuV {
            a: self.register_a,
            x: self.register_x,
            y: self.register_y,
            sp: self.stack_ptr,
            status: self.status.bits,
            pc: self.program_counter,
            bus: self.bus@,
        }
    }
}

/// The effective address the current instruction operates on, resolved from
/// the program counter and the index registers; never advances the program
/// counter. Zero-page indexed modes wrap within page zero (hardware
/// faithful); absolute indexed modes wrap at 16 bits. The value for
/// `NoneAddressing` is immaterial: the resolver is never invoked on it.
pub open spec fn v_operand_addr(c: CpuV, mode: AddressingMode) -> Result<u16, Fault> {
    match mode {
        AddressingMode::Immediate => Ok(c.pc),
        AddressingMode::ZeroPage => match v_read(c.bus, c.pc) {
            Ok(pos) => Ok(pos as u16),
            Err(e) => Err(e),
        },
        AddressingMode::Absolute => v_read_u16(c.bus, c.pc),
        AddressingMode::ZeroPage_X => match v_read(c.bus, c.pc) {
            Ok(pos) => Ok(pos.wrapping_add(c.x) as u16),
            Err(e) => Err(e),
        },
        AddressingMode::ZeroPage_Y => match v_read(c.bus, c.pc) {
            Ok(pos) => Ok(pos.wrapping_add(c.y) as u16),
            Err(e) => Err(e),
        },
        AddressingMode::Absolute_X => match v_read_u16(c.bus, c.pc) {
            Ok(base) => Ok(base.wrapping_add(c.x as u16)),
            Err(e) => Err(e),
        },
        AddressingMode::Absolute_Y => match v_read_u16(c.bus, c.pc) {
            Ok(base) => Ok(base.wrapping_add(c.y as u16)),
            Err(e) => Err(e),
        },
        AddressingMode::Indirect_X => match v_read(c.bus, c.pc) {
            Ok(base) => {
                let ptr = base.wrapping_add(c.x);
                match v_read(c.bus, ptr as u16) {
                    Ok(lo) => match v_read(c.bus, ptr.wrapping_add(1) as u16) {
                        Ok(hi) => Ok(((hi as u16) << 8) | (lo as u16)),
                        Err(e) => Err(e),
                    },
                    Err(e) => Err(e),
                }
            },
            Err(e) => Err(e),
        },
        AddressingMode::Indirect_Y => match v_read(c.bus, c.pc) {
            Ok(base) => match v_read(c.bus, base as u16) {
                Ok(lo) => match v_read(c.bus, base.wrapping_add(1) as u16) {
                    Ok(hi) => Ok((((hi as u16) << 8) | (lo as u16)).wrapping_add(c.y as u16)),
                    Err(e) => Err(e),
                },
                Err(e) => Err(e),
            },
            Err(e) => Err(e),
        },
        AddressingMode::NoneAddressing => Ok(0),
    }
}

/// The operand byte itself: the resolved address, dereferenced.
pub open spec fn v_mem_operand(c: CpuV, mode: AddressingMode) -> Result<u8, Fault> {
    match v_operand_addr(c, mode) {
        Ok(addr) => v_read(c.bus, addr),
        Err(e) => Err(e),
    }
}

/// Zero and Negative recomputed from `result`; nothing else moves.
pub open spec fn v_upd_zn(c: CpuV, result: u8) -> CpuV {
    CpuV { status: upd_zn(c.status, result), ..c }
}

/// The accumulator loaded with `value`, Zero and Negative updated from it.
pub open spec fn v_set_a(c: CpuV, value: u8) -> CpuV {
    CpuV { a: value, status: upd_zn(c.status, value), ..c }
}

/// The X register loaded with `value`, Zero and Negative updated from it.
pub open spec fn v_set_x(c: CpuV, value: u8) -> CpuV {
    CpuV { x: value, status: upd_zn(c.status, value), ..c }
}

/// The Y register loaded with `value`, Zero and Negative updated from it.
pub open spec fn v_set_y(c: CpuV, value: u8) -> CpuV {
    CpuV { y: value, status: upd_zn(c.status, value), ..c }
}

/// Add with carry into the accumulator: the 16-bit sum of A, the operand and
/// the carry-in; Carry is unsigned overflow of that sum, Overflow the signed
/// overflow test on bit 7, Zero and Negative follow the 8-bit result.
pub open spec fn v_add_to_a(c: CpuV, data: u8) -> CpuV {
    let cin: int = if f_has(c.status, CARRY) {
        1
    } else {
        0
    };
    let sum: int = c.a + data + cin;
    let result: u8 = (sum % 256) as u8;
    let st1 = f_assign(c.status, CARRY, sum > 255);
    let st2 = f_assign(st1, OVERFLOW, (data ^ result) & (result ^ c.a) & 0x80 != 0);
    CpuV { a: result, status: upd_zn(st2, result), ..c }
}

/// One byte pushed: written at the stack page offset, stack pointer
/// decremented with 8-bit wraparound.
pub open spec fn v_push(c: CpuV, data: u8) -> CpuV {
    CpuV {
        bus: BusV { ram: c.bus.ram.update(0x0100 + c.sp, data), ..c.bus },
        sp: c.sp.wrapping_sub(1),
        ..c
    }
}

/// One byte pulled: stack pointer incremented with 8-bit wraparound first,
/// then the byte at the new offset read.
pub open spec fn v_pull(c: CpuV) -> (CpuV, u8) {
    let sp1 = c.sp.wrapping_add(1);
    (CpuV { sp: sp1, ..c }, c.bus.ram[0x0100 + sp1])
}

/// A 16-bit push is two 8-bit pushes, high byte first.
pub open spec fn v_push_u16(c: CpuV, data: u16) -> CpuV {
    v_push(v_push(c, (data >> 8) as u8), (data & 0xFF) as u8)
}

/// A 16-bit pull is two 8-bit pulls, low byte first.
pub open spec fn v_pull_u16(c: CpuV) -> (CpuV, u16) {
    let (c1, lo) = v_pull(c);
    let (c2, hi) = v_pull(c1);
    (c2, ((hi as u16) << 8) | (lo as u16))
}

/// A branch offset is a signed byte, sign-extended to 16 bits.
pub open spec fn sign_ext(off: u8) -> u16 {
    if off >= 0x80 {
        (0xFF00 + off) as u16
    } else {
        off as u16
    }
}

/// A taken branch reads the offset byte at the program counter and jumps to
/// `pc + 1 + offset` (the `+ 1` skips the offset byte itself); an untaken
/// branch changes nothing here, the generic post-dispatch advance skips the
/// offset byte.
pub open spec fn v_branch(c: CpuV, condition: bool) -> Result<CpuV, Fault> {
    if condition {
        match v_read(c.bus, c.pc) {
            Ok(off) => Ok(
                CpuV { pc: c.pc.wrapping_add(1).wrapping_add(sign_ext(off)), ..c },
            ),
            Err(e) => Err(e),
        }
    } else {
        Ok(c)
    }
}

/// A comparison: Carry holds `base >= operand`, Zero and Negative follow the
/// wrapping difference.
pub open spec fn v_compare(c: CpuV, mode: AddressingMode, base: u8) -> Result<CpuV, Fault> {
    match v_mem_operand(c, mode) {
        Ok(data) => Ok(
            CpuV {
                status: upd_zn(f_assign(c.status, CARRY, base >= data), base.wrapping_sub(data)),
                ..c
            },
        ),
        Err(e) => Err(e),
    }
}

/// Registers zeroed, status back to the power-on pattern, stack pointer
/// reset, program counter loaded from the little-endian reset vector at
/// `0xFFFC`. That read sits in ROM, so it cannot fault; the error branch is
/// immaterial.
pub open spec fn v_reset(c: CpuV) -> CpuV {
    CpuV {
        a: 0,
        x: 0,
        y: 0,
        sp: STACK_PTR_RESET,
        status: STATUS_RESET,
        pc: (match v_read_u16(c.bus, 0xFFFC) {
            Ok(v) => v,
            Err(_) => 0,
        }),
        bus: c.bus,
    }
}

/// PRG-ROM with a program image at its start and the reset vector (the last
/// two bank bytes) pointing at `0x8000`.
pub open spec fn v_loaded_prg(prg: Seq<u8>, program: Seq<u8>) -> Seq<u8> {
    Seq::new(
        prg.len(),
        |i: int|
            if i == prg.len() - 4 {
                0x00u8
            } else if i == prg.len() - 3 {
                0x80u8
            } else if i < program.len() {
                program[i]
            } else {
                prg[i]
            },
    )
}

/// High and low byte of a 16-bit value stay in byte range.
pub proof fn lemma_u16_byte_parts(x: u16)
    ensures
        x >> 8 < 256,
        x & 0xFF < 256,
{
    assert(x >> 8 < 256 && x & 0xFF < 256) by (bit_vector);
}

impl CPU {
    /// Is this CPU well formed? Its bus is.
    pub open spec fn wf(self) -> bool {
        bus_wf(self@.bus)
    }

    /// A CPU at power-on state that owns the given bus.
    pub fn new(bus: Bus) -> (r: CPU)
        ensures
            r@ == (CpuV {
                a: 0,
                x: 0,
                y: 0,
                sp: STACK_PTR_RESET,
                status: STATUS_RESET,
                pc: 0,
                bus: bus@,
            }),
    {
        CPU {
            register_a: 0,
            register_x: 0,
            register_y: 0,
            stack_ptr: STACK_PTR_RESET,
            status: CpuFlags::from_bits_truncate(STATUS_RESET),
            program_counter: 0,
            bus,
        }
    }

    /// Read one byte through the bus.
    pub fn mem_read(&self, addr: u16) -> (r: Result<u8, Fault>)
        requires
            self.wf(),
        ensures
            r == v_read(self@.bus, addr),
    {
        self.bus.mem_read(addr)
    }

    /// Write one byte through the bus; on a fault nothing has changed.
    pub fn mem_write(&mut self, addr: u16, data: u8) -> (r: Result<(), Fault>)
        requires
            old(self).wf(),
        ensures
            final(self).wf(),
            match v_write(old(self)@.bus, addr, data) {
                Ok(b) => r == Ok::<(), Fault>(()) && final(self)@ == (CpuV { bus: b, ..old(self)@ }),
                Err(e) => r == Err::<(), Fault>(e) && final(self)@ == old(self)@,
            },
    {
        self.bus.mem_write(addr, data)
    }

    /// Little-endian 16-bit read built from two 8-bit reads.
    pub fn mem_read_u16(&self, pos: u16) -> (r: Result<u16, Fault>)
        requires
            self.wf(),
        ensures
            r == v_read_u16(self@.bus, pos),
    {
        let lowest = match self.mem_read(pos) {
            Ok(v) => v,
            Err(e) => {
                return Err(e);
            },
        };
        let highest = match self.mem_read(pos.wrapping_add(1)) {
            Ok(v) => v,
            Err(e) => {
                return Err(e);
            },
        };
        Ok(((highest as u16) << 8) | (lowest as u16))
    }

    /// Little-endian 16-bit write built from two 8-bit writes, low byte
    /// first; a fault on the second write leaves the first in place.
    pub fn mem_write_u16(&mut self, pos: u16, data: u16) -> (r: Result<(), Fault>)
        requires
            old(self).wf(),
        ensures
            final(self).wf(),
            match v_write(old(self)@.bus, pos, (data & 0xFF) as u8) {
                Ok(b1) => match v_write(b1, pos.wrapping_add(1), (data >> 8) as u8) {
                    Ok(b2) => r == Ok::<(), Fault>(()) && final(self)@ == (CpuV {
                        bus: b2,
                        ..old(self)@
                    }),
                    Err(e) => r == Err::<(), Fault>(e) && final(self)@ == (CpuV {
                        bus: b1,
                        ..old(self)@
                    }),
                },
                Err(e) => r == Err::<(), Fault>(e) && final(self)@ == old(self)@,
            },
    {
        proof {
            lemma_u16_byte_parts(data);
        }
        let highest: u8 = (data >> 8) as u8;
        let lowest: u8 = (data & 0xFF) as u8;
        match self.mem_write(pos, lowest) {
            Ok(()) => (),
            Err(e) => {
                return Err(e);
            },
        }
        match self.mem_write(pos.wrapping_add(1), highest) {
            Ok(()) => (),
            Err(e) => {
                return Err(e);
            },
        }
        Ok(())
    }

    /// Recompute Zero and Negative from an 8-bit result.
    pub fn update_zero_and_negative_flags(&mut self, result: u8)
        ensures
            final(self)@ == v_upd_zn(old(self)@, result),
            final(self).wf() == old(self).wf(),
    {
        if result == 0 {
            self.status.insert(ZERO);
        } else {
            self.status.remove(ZERO);
        }
        if result & 0b1000_0000 != 0 {
            self.status.insert(NEGATIV);
        } else {
            self.status.remove(NEGATIV);
        }
    }

    /// Load the accumulator and update Zero and Negative.
    pub fn set_register_a(&mut self, value: u8)
        ensures
            final(self)@ == v_set_a(old(self)@, value),
            final(self).wf() == old(self).wf(),
    {
        self.register_a = value;
        self.update_zero_and_negative_flags(value);
    }

    /// Add an operand and the carry into the accumulator, updating Carry,
    /// Overflow, Zero and Negative.
    pub fn add_to_register_a(&mut self, data: u8)
        ensures
            final(self)@ == v_add_to_a(old(self)@, data),
            final(self).wf() == old(self).wf(),
    {
        let is_carry = self.status.contains(CARRY);
        let sum: u16 = self.register_a as u16 + data as u16 + if is_carry {
            1
        } else {
            0
        };
        let carry = sum > 0xFF;
        if carry {
            self.status.insert(CARRY);
        } else {
            self.status.remove(CARRY);
        }
        let result: u8 = (sum % 256) as u8;
        if (data ^ result) & (result ^ self.register_a) & 0x80 != 0 {
            self.status.insert(OVERFLOW);
        } else {
            self.status.remove(OVERFLOW);
        }
        self.set_register_a(result);
    }

    /// Set the carry flag.
    pub fn set_carry(&mut self)
        ensures
            final(self)@ == (CpuV { status: f_insert(old(self)@.status, CARRY), ..old(self)@ }),
            final(self).wf() == old(self).wf(),
    {
        self.status.insert(CARRY);
    }

    /// Clear the carry flag.
    pub fn remove_carry(&mut self)
        ensures
            final(self)@ == (CpuV { status: f_remove(old(self)@.status, CARRY), ..old(self)@ }),
            final(self).wf() == old(self).wf(),
    {
        self.status.remove(CARRY);
    }

    /// Push one byte onto the stack page and decrement the stack pointer.
    pub fn stack_push(&mut self, data: u8)
        requires
            old(self).wf(),
        ensures
            final(self).wf(),
            final(self)@ == v_push(old(self)@, data),
    {
        let addr: u16 = STACK_PTR_START + self.stack_ptr as u16;
        proof {
            lemma_ram_index_bounds(addr);
        }
        match self.mem_write(addr, data) {
            Ok(()) => (),
            Err(_) => {
                proof {
                    assert(false);
                }
            },
        }
        self.stack_ptr = self.stack_ptr.wrapping_sub(1);
        proof {
            assert(self@ =~~= v_push(old(self)@, data));
        }
    }

    /// Increment the stack pointer and pull the byte it now points at.
    pub fn stack_pull(&mut self) -> (r: u8)
        requires
            old(self).wf(),
        ensures
            final(self).wf(),
            final(self)@ == v_pull(old(self)@).0,
            r == v_pull(old(self)@).1,
    {
        self.stack_ptr = self.stack_ptr.wrapping_add(1);
        let addr: u16 = STACK_PTR_START + self.stack_ptr as u16;
        proof {
            lemma_ram_index_bounds(addr);
        }
        let data = match self.mem_read(addr) {
            Ok(v) => v,
            Err(_) => {
                proof {
                    assert(false);
                }
                0
            },
        };
        data
    }

    /// Push a 16-bit value, high byte first.
    pub fn stack_push_u16(&mut self, data: u16)
        requires
            old(self).wf(),
        ensures
            final(self).wf(),
            final(self)@ == v_push_u16(old(self)@, data),
    {
        proof {
            lemma_u16_byte_parts(data);
        }
        let hi: u8 = (data >> 8) as u8;
        let lo: u8 = (data & 0xFF) as u8;
        self.stack_push(hi);
        self.stack_push(lo);
    }

    /// Pull a 16-bit value, low byte first.
    pub fn stack_pull_u16(&mut self) -> (r: u16)
        requires
            old(self).wf(),
        ensures
            final(self).wf(),
            final(self)@ == v_pull_u16(old(self)@).0,
            r == v_pull_u16(old(self)@).1,
    {
        let lo = self.stack_pull();
        let hi = self.stack_pull();
        ((hi as u16) << 8) | (lo as u16)
    }

    /// Branch by the signed offset byte at the program counter when
    /// `condition` holds; do nothing otherwise.
    pub fn branch_handle(&mut self, condition: bool) -> (r: Result<(), Fault>)
        requires
            old(self).wf(),
        ensures
            final(self).wf(),
            match v_branch(old(self)@, condition) {
                Ok(c2) => r == Ok::<(), Fault>(()) && final(self)@ == c2,
                Err(e) => r == Err::<(), Fault>(e) && final(self)@ == old(self)@,
            },
    {
        if condition {
            let data = match self.mem_read(self.program_counter) {
                Ok(v) => v,
                Err(e) => {
                    return Err(e);
                },
            };
            let jump_ext: u16 = if data >= 0x80 {
                0xFF00 + data as u16
            } else {
                data as u16
            };
            let jump_addr = self.program_counter.wrapping_add(1).wrapping_add(jump_ext);
            self.program_counter = jump_addr;
        }
        Ok(())
    }

    /// Compare a register against the operand: Carry, Zero and Negative.
    pub fn compare_handle(&mut self, mode: &AddressingMode, base: u8) -> (r: Result<(), Fault>)
        requires
            old(self).wf(),
            *mode != AddressingMode::NoneAddressing,
        ensures
            final(self).wf(),
            match v_compare(old(self)@, *mode, base) {
                Ok(c2) => r == Ok::<(), Fault>(()) && final(self)@ == c2,
                Err(e) => r == Err::<(), Fault>(e) && final(self)@ == old(self)@,
            },
    {
        let addr = match self.get_operand_address(mode) {
            Ok(a) => a,
            Err(e) => {
                return Err(e);
            },
        };
        let data = match self.mem_read(addr) {
            Ok(v) => v,
            Err(e) => {
                return Err(e);
            },
        };
        self.status.assign(CARRY, base >= data);
        self.update_zero_and_negative_flags(base.wrapping_sub(data));
        Ok(())
    }

    /// Resolve the effective address of the current instruction. Resolving
    /// `NoneAddressing` is a programming error, ruled out by contract.
    pub fn get_operand_address(&self, mode: &AddressingMode) -> (r: Result<u16, Fault>)
        requires
            self.wf(),
            *mode != AddressingMode::NoneAddressing,
        ensures
            r == v_operand_addr(self@, *mode),
    {
        match mode {
            AddressingMode::Immediate => Ok(self.program_counter),
            AddressingMode::ZeroPage => match self.mem_read(self.program_counter) {
                Ok(pos) => Ok(pos as u16),
                Err(e) => Err(e),
            },
            AddressingMode::Absolute => self.mem_read_u16(self.program_counter),
            AddressingMode::ZeroPage_X => match self.mem_read(self.program_counter) {
                Ok(pos) => Ok(pos.wrapping_add(self.register_x) as u16),
                Err(e) => Err(e),
            },
            AddressingMode::ZeroPage_Y => match self.mem_read(self.program_counter) {
                Ok(pos) => Ok(pos.wrapping_add(self.register_y) as u16),
                Err(e) => Err(e),
            },
            AddressingMode::Absolute_X => match self.mem_read_u16(self.program_counter) {
                Ok(base) => Ok(base.wrapping_add(self.register_x as u16)),
                Err(e) => Err(e),
            },
            AddressingMode::Absolute_Y => match self.mem_read_u16(self.program_counter) {
                Ok(base) => Ok(base.wrapping_add(self.register_y as u16)),
                Err(e) => Err(e),
            },
            AddressingMode::Indirect_X => {
                let base = match self.mem_read(self.program_counter) {
                    Ok(v) => v,
                    Err(e) => {
                        return Err(e);
                    },
                };
                let ptr: u8 = base.wrapping_add(self.register_x);
                let lowest = match self.mem_read(ptr as u16) {
                    Ok(v) => v,
                    Err(e) => {
                        return Err(e);
                    },
                };
                let highest = match self.mem_read(ptr.wrapping_add(1) as u16) {
                    Ok(v) => v,
                    Err(e) => {
                        return Err(e);
                    },
                };
                Ok(((highest as u16) << 8) | (lowest as u16))
            },
            AddressingMode::Indirect_Y => {
                let base = match self.mem_read(self.program_counter) {
                    Ok(v) => v,
                    Err(e) => {
                        return Err(e);
                    },
                };
                let lowest = match self.mem_read(base as u16) {
                    Ok(v) => v,
                    Err(e) => {
                        return Err(e);
                    },
                };
                let highest = match self.mem_read(base.wrapping_add(1) as u16) {
                    Ok(v) => v,
                    Err(e) => {
                        return Err(e);
                    },
                };
                let deref_base: u16 = ((highest as u16) << 8) | (lowest as u16);
                Ok(deref_base.wrapping_add(self.register_y as u16))
            },
            AddressingMode::NoneAddressing => vstd::pervasive::unreached(),
        }
    }

    /// Write a program image at `0x8000` and point the reset vector there.
    pub fn load(&mut self, program: Vec<u8>)
        requires
            old(self).wf(),
            program@.len() <= old(self)@.bus.prg.len(),
        ensures
            final(self).wf(),
            final(self)@ == (CpuV {
                bus: BusV {
                    prg: v_loaded_prg(old(self)@.bus.prg, program@),
                    ..old(self)@.bus
                },
                ..old(self)@
            }),
    {
        self.bus.load_program(&program);
        proof {
            assert(self@ =~~= (CpuV {
                bus: BusV { prg: v_loaded_prg(old(self)@.bus.prg, program@), ..old(self)@.bus },
                ..old(self)@
            }));
        }
    }

    /// Zero the registers, restore the power-on status pattern, reset the
    /// stack pointer and load the program counter from the reset vector.
    pub fn reset(&mut self)
        requires
            old(self).wf(),
        ensures
            final(self).wf(),
            final(self)@ == v_reset(old(self)@),
    {
        self.register_a = 0;
        self.register_x = 0;
        self.register_y = 0;
        self.status = CpuFlags::from_bits_truncate(STATUS_RESET);
        self.stack_ptr = STACK_PTR_RESET;
        self.program_counter = match self.mem_read_u16(0xFFFC) {
            Ok(v) => v,
            Err(_) => {
                proof {
                    assert(false);
                }
                0
            },
        };
    }
}

} // verus!
