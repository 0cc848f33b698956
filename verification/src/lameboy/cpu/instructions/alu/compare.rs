use crate::lameboy::cpu::registers::{lemma_set_znhc, with_flags, Flags};
use vstd::prelude::*;

verus! {

/// The flags of comparing the accumulator with `d8`: zero is set when they are equal, subtract
/// is set, half carry is set when the lower nibble of `d8` is larger than that of the
/// accumulator, and carry is set when `d8` is larger than the accumulator.
pub open spec fn cp_8bit(accumulator: u8, flags: u8, d8: u8) -> u8 {
    with_flags(flags, accumulator == d8, true, accumulator % 16 < d8 % 16, accumulator < d8)
}

/// Compare an 8-bit value with register A by subtracting the two but not storing the result, only
/// the flags.
///
/// Update flags:
///
/// ## Flags::ZERO
///
/// Set if the result equals zero.
///
/// ## Flags::SUBTRACT
///
/// Always set
///
/// ## Flags::HALF_CARRY
///
/// Set if the lower nibble of the value subtracted from the lower nibble of A would have attempted
/// to borrow a bit. i.e. the lower nibble of the value is larger than the lower nibble of A.
///
/// ## Flags::CARRY
///
/// Set if the value subtracted from A would have required a borrow, otherwise reset
///
pub fn alu_cp_8bit(accumulator: u8, flags: Flags, d8: u8) -> (r: Flags)
    ensures
        r@ & 0x0F == 0,
        r@ == cp_8bit(accumulator, flags@, d8),
{
    proof {
        crate::bits::lemma_u8_arith(accumulator);
        crate::bits::lemma_u8_arith(d8);
    }
    let mut new_flags = flags;

    let zero = accumulator.wrapping_sub(d8) == 0;
    let half_carry = (accumulator & 0x0F) < (d8 & 0x0F);
    let carry = accumulator < d8;

    new_flags.set(Flags::ZERO, zero);
    new_flags.set(Flags::SUBTRACT, true);
    new_flags.set(Flags::HALF_CARRY, half_carry);
    new_flags.set(Flags::CARRY, carry);

    proof {
        lemma_set_znhc(flags@, zero, true, half_carry, carry);
    }
    new_flags
}

} // verus!
