use crate::lameboy::cpu::instructions::alu::add::carry_in;
use crate::lameboy::cpu::registers::{lemma_set_znhc, with_flags, Flags};
use vstd::prelude::*;

verus! {

/// Subtract `d8` (and the carry flag when `use_carry`) from the accumulator: the result wraps
/// at 256; zero is set when the result is zero, subtract is set, half carry is set when the
/// lower nibble needs a borrow, and carry is set when the whole subtraction needs one.
pub open spec fn sub_8bit(accumulator: u8, flags: u8, d8: u8, use_carry: bool) -> (u8, u8) {
    let cy = carry_in(flags, use_carry);
    let difference = accumulator - d8 - cy;
    let result = (difference % 256) as u8;
    (
        result,
        with_flags(flags, result == 0, true, accumulator % 16 < d8 % 16 + cy, difference < 0),
    )
}

/// Subtract 8-bit value from register A, storing the result in A.
/// If use_carry is true this will subtract the content of the carry flag along with the value and
/// take that into account when updating flags too.
///
/// Update flags:
///
/// ## Flags::ZERO
///
/// Set if the result equals zero.
///
/// ## Flags::SUBTRACT
///
/// Always set
///
/// ## Flags::HALF_CARRY
///
/// Set if the lower nibble of the value subtracted from the lower nibble of A would have attempted
/// to borrow a bit. i.e. the lower nibble of the value is larger than the lower nibble of A.
///
/// ## Flags::CARRY
///
/// Set if the value subtracted from A would have required a borrow, otherwise reset
///
pub fn alu_sub_8bit(accumulator: u8, flags: Flags, d8: u8, use_carry: bool) -> (r: (u8, Flags))
    ensures
        r.1@ & 0x0F == 0,
        r.0 == sub_8bit(accumulator, flags@, d8, use_carry).0,
        r.1@ == sub_8bit(accumulator, flags@, d8, use_carry).1,
{
    proof {
        crate::bits::lemma_u8_arith(accumulator);
        crate::bits::lemma_u8_arith(d8);
        crate::bits::lemma_u8_arith(flags@);
    }
    let cy: u8 = if use_carry && flags.contains(Flags::CARRY) {
        1
    } else {
        0
    };

    let signed_result = accumulator as i16 - d8 as i16 - cy as i16;
    let result = accumulator.wrapping_sub(d8).wrapping_sub(cy);

    let half_carry = (accumulator & 0x0F) < (d8 & 0x0F) + cy;
    let carry = signed_result < 0;

    let mut new_flags = flags;
    new_flags.set(Flags::ZERO, result == 0);
    new_flags.set(Flags::SUBTRACT, true);
    new_flags.set(Flags::HALF_CARRY, half_carry);
    new_flags.set(Flags::CARRY, carry);

    proof {
        let difference = accumulator - d8 - carry_in(flags@, use_carry);
        assert(difference % 256 == if difference < 0 {
            difference + 256
        } else {
            difference
        }) by (nonlinear_arith)
            requires
                -256 <= difference < 256,
        ;
        lemma_set_znhc(flags@, result == 0, true, half_carry, carry);
    }
    (result, new_flags)
}

} // verus!
