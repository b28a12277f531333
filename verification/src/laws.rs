//! Laws the core obeys, stated and proved over the mathematical CPU state.
use vstd::prelude::*;

use crate::bus::BusV;
use crate::bus::bus_wf;
use crate::bus::v_read;
use crate::cpu::CpuV;
use crate::cpu::v_add_to_a;
use crate::cpu::v_pull;
use crate::cpu::v_push;
use crate::flags::CARRY;
use crate::flags::OVERFLOW;
use crate::flags::f_assign;
use crate::flags::f_has;
use crate::flags::upd_zn;

verus! {

/// The Carry bit written by the add path survives the Overflow and
/// Zero/Negative updates that follow it.
proof fn lemma_add_carry_survives(st: u8, cb: bool, ob: bool, r: u8)
    ensures
        f_has(upd_zn(f_assign(f_assign(st, CARRY, cb), OVERFLOW, ob), r), CARRY) == cb,
{
    assert(f_has(upd_zn(f_assign(f_assign(st, CARRY, cb), OVERFLOW, ob), r), CARRY) == cb) by (
    bit_vector);
}

/// ADC/SBC round trip: with the carry set and the addition staying in byte
/// range, adding an operand and then subtracting it (adding its one's
/// complement under the carry discipline the addition left behind) restores
/// the accumulator, and leaves the carry set — no borrow.
///
/// With the carry clear the trip does not close: from a zero accumulator and
/// a zero operand it ends one below where it started.
pub proof fn lemma_adc_sbc_round_trip(c: CpuV, m: u8)
    requires
        f_has(c.status, CARRY),
        c.a + m + 1 <= 255,
    ensures
        v_add_to_a(v_add_to_a(c, m), m ^ 0xFF).a == c.a,
        f_has(v_add_to_a(v_add_to_a(c, m), m ^ 0xFF).status, CARRY),
{
    let c1 = v_add_to_a(c, m);
    let sum1: int = c.a + m + 1;
    assert(sum1 % 256 == sum1);
    lemma_add_carry_survives(
        c.status,
        sum1 > 255,
        (m ^ (sum1 % 256) as u8) & ((sum1 % 256) as u8 ^ c.a) & 0x80 != 0,
        (sum1 % 256) as u8,
    );
    assert(!f_has(c1.status, CARRY));
    assert(m ^ 0xFF == 255 - m) by (bit_vector);
    let sum2: int = c1.a + (m ^ 0xFF);
    assert(sum2 == c.a + 256);
    assert(sum2 % 256 == c.a) by {
        assert(sum2 == 1 * 256 + c.a);
    }
    lemma_add_carry_survives(
        c1.status,
        sum2 > 255,
        ((m ^ 0xFF) ^ (sum2 % 256) as u8) & ((sum2 % 256) as u8 ^ c1.a) & 0x80 != 0,
        (sum2 % 256) as u8,
    );
}

/// Stack round trip: pulling right after pushing returns the pushed byte,
/// and the stack pointer is back at its pre-push value.
pub proof fn lemma_stack_round_trip(c: CpuV, x: u8)
    requires
        bus_wf(c.bus),
    ensures
        v_pull(v_push(c, x)).1 == x,
        v_pull(v_push(c, x)).0.sp == c.sp,
        v_pull(v_push(c, x)).0.status == c.status,
        v_pull(v_push(c, x)).0.a == c.a,
        v_pull(v_push(c, x)).0.x == c.x,
        v_pull(v_push(c, x)).0.y == c.y,
        v_pull(v_push(c, x)).0.pc == c.pc,
{
    let c1 = v_push(c, x);
    assert(c1.sp.wrapping_add(1) == c.sp);
    assert(0 <= 0x0100 + c.sp < c.bus.ram.len());
}

/// 16KB PRG-ROM mirroring: with a single bank, an address in the lower half
/// of the ROM window and its image one bank higher read the same byte.
pub proof fn lemma_prg_mirroring(b: BusV, addr: u16)
    requires
        bus_wf(b),
        b.prg.len() == 0x4000,
        0x8000 <= addr < 0xC000,
    ensures
        v_read(b, addr) == v_read(b, (addr + 0x4000) as u16),
{
}

} // verus!

