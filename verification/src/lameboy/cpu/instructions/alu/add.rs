use crate::lameboy::cpu::registers::{carry_of, lemma_set_znhc, with_flags, Flags};
use vstd::prelude::*;

verus! {

/// The carry that an add or subtract with `use_carry` takes in: one when asked for and the
/// carry flag is set, else zero.
pub open spec fn carry_in(flags: u8, use_carry: bool) -> int {
    if use_carry && carry_of(flags) {
        1
    } else {
        0
    }
}

/// Add `d8` (and the carry flag when `use_carry`) to the accumulator: the result wraps at
/// 256; zero is set when the result is zero, subtract is reset, half carry is set when the
/// lower nibbles overflow, and carry is set when the sum does not fit in a byte.
pub open spec fn add_8bit(accumulator: u8, flags: u8, d8: u8, use_carry: bool) -> (u8, u8) {
    let cy = carry_in(flags, use_carry);
    let sum = accumulator + d8 + cy;
    let result = (sum % 256) as u8;
    (
        result,
        with_flags(
            flags,
            result == 0,
            false,
            accumulator % 16 + d8 % 16 + cy > 15,
            sum > 255,
        ),
    )
}

/// Add 8-bit value with register A, storing the result in A.
/// If use_carry is true this will add the content of the carry flag along with the value and take
/// that into account when updating flags too.
///
/// Update flags:
///
/// ## Flags::ZERO
///
/// Set if the result equals zero.
///
/// ## Flags::SUBTRACT
///
/// Always unset
///
/// ## Flags::HALF_CARRY
///
/// Set if the lower nibble of the value added to the lower nibble of A was too large to fit in a u4
///
/// ## Flags::CARRY
///
/// Set if the value added to A would have been too large to fit in a u8
///
#[verifier::rlimit(30)]
pub fn alu_add_8bit(accumulator: u8, flags: Flags, d8: u8, use_carry: bool) -> (r: (u8, Flags))
    ensures
        r.1@ & 0x0F == 0,
        r.0 == add_8bit(accumulator, flags@, d8, use_carry).0,
        r.1@ == add_8bit(accumulator, flags@, d8, use_carry).1,
{
    proof {
        crate::bits::lemma_u8_arith(accumulator);
        crate::bits::lemma_u8_arith(d8);
        crate::bits::lemma_u8_arith(flags@);
    }
    let cy: u8 = if use_carry && flags.contains(Flags::CARRY) {
        1
    } else {
        0
    };

    let new_accumulator = accumulator.wrapping_add(d8).wrapping_add(cy);

    let half_carry = ((accumulator & 0x0F) + (d8 & 0x0F) + cy) > 0x0F;
    let carry = u16::from(accumulator) + u16::from(d8) + u16::from(cy) > 0xFF;

    let mut new_flags = flags;
    new_flags.set(Flags::ZERO, new_accumulator == 0);
    new_flags.set(Flags::SUBTRACT, false);
    new_flags.set(Flags::HALF_CARRY, half_carry);
    new_flags.set(Flags::CARRY, carry);

    proof {
        lemma_set_znhc(flags@, new_accumulator == 0, false, half_carry, carry);
    }
    (new_accumulator, new_flags)
}

} // verus!
