//! The processor status register: an 8-bit flag set with named bit masks.
use vstd::prelude::*;

verus! {

/// Carry flag, bit 0 of the status register.
pub const CARRY: u8 = 0b0000_0001;
/// Zero flag, bit 1.
pub const ZERO: u8 = 0b0000_0010;
/// Interrupt-disable flag, bit 2.
pub const INTERRUPT_DISABLE: u8 = 0b0000_0100;
/// Decimal-mode flag, bit 3 (stored but not functionally implemented).
pub const DECIMAL_MODE: u8 = 0b0000_1000;
/// Break flag, bit 4: synthesized when the status is pushed, never latched.
pub const BREAK: u8 = 0b0001_0000;
/// Second break flag, bit 5: synthesized on push, discarded on pull.
pub const BREAK2: u8 = 0b0010_0000;
/// Overflow flag, bit 6.
pub const OVERFLOW: u8 = 0b0100_0000;
/// Negative flag, bit 7.
pub const NEGATIV: u8 = 0b1000_0000;

/// Power-on and reset status pattern: InterruptDisable and Break2 set.
pub const STATUS_RESET: u8 = 0b0010_0100;

/// Does `bits` have any bit of `mask` set?
pub open spec fn f_has(bits: u8, mask: u8) -> bool {
    bits & mask != 0
}

/// `bits` with every bit of `mask` set.
pub open spec fn f_insert(bits: u8, mask: u8) -> u8 {
    bits | mask
}

/// `bits` with every bit of `mask` cleared.
pub open spec fn f_remove(bits: u8, mask: u8) -> u8 {
    bits & !mask
}

/// `bits` with the bits of `mask` set when `value` holds, cleared otherwise.
pub open spec fn f_assign(bits: u8, mask: u8, value: bool) -> u8 {
    if value {
        f_insert(bits, mask)
    } else {
        f_remove(bits, mask)
    }
}

/// Zero and Negative recomputed from an 8-bit result: Zero iff the result is
/// zero, Negative iff bit 7 of the result is set. Every instruction that
/// documents a flag update on a value routes through this function.
pub open spec fn upd_zn(bits: u8, result: u8) -> u8 {
    f_assign(f_assign(bits, ZERO, result == 0), NEGATIV, result & 0x80 != 0)
}

/// The status register as an explicit bit-flag set.
#[derive(Clone, Copy, Debug, PartialEq, Eq, Structural)]
pub struct CpuFlags {
    pub bits: u8,
}

impl CpuFlags {
    /// Build a flag set from raw bits; all 8 bits are named flags, so nothing
    /// is truncated away.
    pub fn from_bits_truncate(bits: u8) -> (r: CpuFlags)
        ensures
            r.bits == bits,
    {
        CpuFlags { bits }
    }

    /// Is every bit of `mask` set?
    pub fn contains(&self, mask: u8) -> (r: bool)
        ensures
            r == f_has(self.bits, mask),
    {
        self.bits & mask != 0
    }

    /// Set every bit of `mask`.
    pub fn insert(&mut self, mask: u8)
        ensures
            final(self).bits == f_insert(old(self).bits, mask),
    {
        self.bits = self.bits | mask;
    }

    /// Clear every bit of `mask`.
    pub fn remove(&mut self, mask: u8)
        ensures
            final(self).bits == f_remove(old(self).bits, mask),
    {
        self.bits = self.bits & !mask;
    }

    /// Set or clear the bits of `mask` according to `value`.
    pub fn assign(&mut self, mask: u8, value: bool)
        ensures
            final(self).bits == f_assign(old(self).bits, mask, value),
    {
        if value {
            self.insert(mask);
        } else {
            self.remove(mask);
        }
    }
}

/// The Zero flag tracks exactly "the result was zero" and the Negative flag
/// exactly "bit 7 of the result was set"; no other status bit moves.
pub proof fn lemma_zero_negative_flags(bits: u8, result: u8)
    ensures
        f_has(upd_zn(bits, result), ZERO) <==> result == 0,
        f_has(upd_zn(bits, result), NEGATIV) <==> result & 0x80 != 0,
        upd_zn(bits, result) & !(ZERO | NEGATIV) == bits & !(ZERO | NEGATIV),
{
    assert(f_has(upd_zn(bits, result), ZERO) <==> result == 0) by (bit_vector);
    assert(f_has(upd_zn(bits, result), NEGATIV) <==> result & 0x80 != 0) by (bit_vector);
    assert(upd_zn(bits, result) & !(ZERO | NEGATIV) == bits & !(ZERO | NEGATIV)) by (bit_vector);
}

} // verus!
