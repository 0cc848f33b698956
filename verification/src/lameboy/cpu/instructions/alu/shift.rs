use crate::lameboy::cpu::registers::{lemma_set_znhc, with_flags, Flags};
use vstd::prelude::*;

verus! {

/// Shift a byte left: the high bit moves into the carry flag and the new low bit is zero. Zero
/// is set when the result is zero, subtract and half carry are reset.
pub open spec fn shift_left(d8: u8, flags: u8) -> (u8, u8) {
    let result = ((d8 * 2) % 256) as u8;
    (result, with_flags(flags, result == 0, false, false, d8 >= 128))
}

/// Shift a byte right: the low bit moves into the carry flag; the new high bit is zero when
/// `reset_high_bit`, else the old high bit is kept. Zero is set when the result is zero,
/// subtract and half carry are reset.
pub open spec fn shift_right(d8: u8, flags: u8, reset_high_bit: bool) -> (u8, u8) {
    let high_bit: int = if !reset_high_bit && d8 >= 128 {
        128
    } else {
        0
    };
    let result = (d8 / 2 + high_bit) as u8;
    (result, with_flags(flags, result == 0, false, false, d8 % 2 == 1))
}

/// Shift an 8-bit value to the left.
///
pub fn alu_shift_left(d8: u8, flags: Flags) -> (r: (u8, Flags))
    ensures
        r.1@ & 0x0F == 0,
        r.0 == shift_left(d8, flags@).0,
        r.1@ == shift_left(d8, flags@).1,
{
    proof {
        crate::bits::lemma_u8_arith(d8);
    }
    let high_bit = d8 & 0x80;
    let shifted_value = d8 << 1;

    let mut new_flags = flags;
    new_flags.set(Flags::ZERO, shifted_value == 0);
    new_flags.set(Flags::SUBTRACT, false);
    new_flags.set(Flags::HALF_CARRY, false);
    new_flags.set(Flags::CARRY, high_bit != 0);

    proof {
        lemma_set_znhc(flags@, shifted_value == 0, false, false, high_bit != 0);
    }
    (shifted_value, new_flags)
}

/// Shift an 8-bit value to the right.
///
pub fn alu_shift_right(d8: u8, flags: Flags, reset_high_bit: bool) -> (r: (u8, Flags))
    ensures
        r.1@ & 0x0F == 0,
        r.0 == shift_right(d8, flags@, reset_high_bit).0,
        r.1@ == shift_right(d8, flags@, reset_high_bit).1,
{
    proof {
        crate::bits::lemma_u8_arith(d8);
        crate::bits::lemma_u8_shr_swap(d8);
    }
    let high_bit = if reset_high_bit {
        0
    } else {
        d8 & 0x80
    };
    let low_bit = d8 & 0x01;
    proof {
        crate::bits::lemma_u8_shr_or_zero(d8, high_bit);
    }
    let shifted_value = (d8 >> 1) | high_bit;

    let mut new_flags = flags;
    new_flags.set(Flags::ZERO, shifted_value == 0);
    new_flags.set(Flags::SUBTRACT, false);
    new_flags.set(Flags::HALF_CARRY, false);
    new_flags.set(Flags::CARRY, low_bit != 0);

    proof {
        lemma_set_znhc(flags@, shifted_value == 0, false, false, low_bit != 0);
    }
    (shifted_value, new_flags)
}

} // verus!
