use crate::lameboy::cpu::registers::{carry_of, lemma_set_nhz, with_flags, Flags};
use vstd::prelude::*;

verus! {

/// Increment a byte, wrapping at 256: zero is set when the result is zero, subtract is reset,
/// half carry is set when the lower nibble overflows, carry is kept.
pub open spec fn inc_8bit(d8: u8, flags: u8) -> (u8, u8) {
    let result = ((d8 + 1) % 256) as u8;
    (result, with_flags(flags, result == 0, false, d8 % 16 == 15, carry_of(flags)))
}

/// Decrement a byte, wrapping at 256: zero is set when the result is zero, subtract is set,
/// half carry is set when the lower nibble was zero, carry is kept.
pub open spec fn dec_8bit(d8: u8, flags: u8) -> (u8, u8) {
    let result = ((d8 - 1) % 256) as u8;
    (result, with_flags(flags, result == 0, true, d8 % 16 == 0, carry_of(flags)))
}

/// Increment 8-bit value
///
/// Update flags:
///
/// ## Flags::ZERO
///
/// Set if the result equals zero.
///
/// ## Flags::SUBTRACT
///
/// Always unset
///
/// ## Flags::HALF_CARRY
///
/// Set if the lower nibble of the value overflowed
///
/// ## Flags::CARRY
///
/// Unchanged
///
pub fn alu_inc_8bit(d8: u8, flags: Flags) -> (r: (u8, Flags))
    ensures
        r.1@ & 0x0F == 0,
        r.0 == inc_8bit(d8, flags@).0,
        r.1@ == inc_8bit(d8, flags@).1,
{
    proof {
        crate::bits::lemma_u8_arith(d8);
    }
    let mut new_flags = flags;
    new_flags.remove(Flags::SUBTRACT);
    let half_carry = d8 & 0x0F == 0x0F;
    new_flags.set(Flags::HALF_CARRY, half_carry);

    let incremented = d8.wrapping_add(1);

    new_flags.set(Flags::ZERO, incremented == 0);

    proof {
        lemma_set_nhz(flags@, false, half_carry, incremented == 0);
    }
    (incremented, new_flags)
}

/// Decrement 8-bit value
///
/// Update flags:
///
/// ## Flags::ZERO
///
/// Set if the result equals zero.
///
/// ## Flags::SUBTRACT
///
/// Always set
///
/// ## Flags::HALF_CARRY
///
/// Set if the lower nibble of the value was zero and would underflow
///
/// ## Flags::CARRY
///
/// Unchanged
///
pub fn alu_dec_8bit(d8: u8, flags: Flags) -> (r: (u8, Flags))
    ensures
        r.1@ & 0x0F == 0,
        r.0 == dec_8bit(d8, flags@).0,
        r.1@ == dec_8bit(d8, flags@).1,
{
    proof {
        crate::bits::lemma_u8_arith(d8);
    }
    let mut new_flags = flags;
    new_flags.set(Flags::SUBTRACT, true);
    let half_carry = d8 & 0x0F == 0x00;
    new_flags.set(Flags::HALF_CARRY, half_carry);

    let decremented = d8.wrapping_sub(1);

    new_flags.set(Flags::ZERO, decremented == 0);

    proof {
        lemma_set_nhz(flags@, true, half_carry, decremented == 0);
    }
    (decremented, new_flags)
}

} // verus!
