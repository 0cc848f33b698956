use crate::lameboy::cpu::registers::{carry_of, lemma_set_znhc, with_flags, Flags};
use vstd::prelude::*;

verus! {

/// Rotate a byte left: the high bit moves into the carry flag, and the new low bit is the old
/// carry flag when `through_carry`, else the old high bit. Zero is set when the result is zero,
/// subtract and half carry are reset.
pub open spec fn rotate_left(d8: u8, flags: u8, through_carry: bool) -> (u8, u8) {
    let high_bit = d8 / 128;
    let new_low_bit: int = if through_carry {
        if carry_of(flags) {
            1
        } else {
            0
        }
    } else {
        high_bit as int
    };
    let result = ((d8 * 2) % 256 + new_low_bit) as u8;
    (result, with_flags(flags, result == 0, false, false, high_bit == 1))
}

/// Rotate a byte right: the low bit moves into the carry flag, and the new high bit is the old
/// carry flag when `through_carry`, else the old low bit. Zero is set when the result is zero,
/// subtract and half carry are reset.
pub open spec fn rotate_right(d8: u8, flags: u8, through_carry: bool) -> (u8, u8) {
    let low_bit = d8 % 2;
    let new_high_bit: int = if through_carry {
        if carry_of(flags) {
            1
        } else {
            0
        }
    } else {
        low_bit as int
    };
    let result = (d8 / 2 + new_high_bit * 128) as u8;
    (result, with_flags(flags, result == 0, false, false, low_bit == 1))
}

/// Rotate an 8-bit register to the left.
///
/// If through_carry is true then the high bit will go into the Flags::CARRY flag and the old value of the
/// Flags::CARRY flag will become the new low bit.
/// If it is not true the high bit will become the low bit as well as going into the Flags::CARRY flag.
///
pub fn alu_rotate_left(d8: u8, flags: Flags, through_carry: bool) -> (r: (u8, Flags))
    ensures
        r.1@ & 0x0F == 0,
        r.0 == rotate_left(d8, flags@, through_carry).0,
        r.1@ == rotate_left(d8, flags@, through_carry).1,
{
    proof {
        crate::bits::lemma_u8_arith(d8);
        crate::bits::lemma_u8_arith(flags@);
    }
    let cy: u8 = if flags.contains(Flags::CARRY) {
        1
    } else {
        0
    };

    let high_bit = (d8 & 0b1000_0000) >> 7;
    let new_low_bit = if through_carry {
        cy
    } else {
        high_bit
    };
    proof {
        crate::bits::lemma_u8_shl_or(d8, new_low_bit);
    }
    let rotated_value = (d8 << 1) | new_low_bit;

    let mut new_flags = flags;
    new_flags.set(Flags::ZERO, rotated_value == 0);
    new_flags.set(Flags::SUBTRACT, false);
    new_flags.set(Flags::HALF_CARRY, false);
    new_flags.set(Flags::CARRY, high_bit != 0);

    proof {
        lemma_set_znhc(flags@, rotated_value == 0, false, false, high_bit != 0);
    }
    (rotated_value, new_flags)
}

/// Rotate an 8-bit value to the right.
///
/// If through_carry is true then the low bit will go into the Flags::CARRY flag and the old value of the
/// Flags::CARRY flag will become the new high bit.
/// If it is not true the low bit will become the high bit as well as going into the Flags::CARRY flag.
///
pub fn alu_rotate_right(d8: u8, flags: Flags, through_carry: bool) -> (r: (u8, Flags))
    ensures
        r.1@ & 0x0F == 0,
        r.0 == rotate_right(d8, flags@, through_carry).0,
        r.1@ == rotate_right(d8, flags@, through_carry).1,
{
    proof {
        crate::bits::lemma_u8_arith(d8);
        crate::bits::lemma_u8_arith(flags@);
    }
    let cy: u8 = if flags.contains(Flags::CARRY) {
        1
    } else {
        0
    };
    let low_bit = d8 & 0x01;
    let new_high_bit = if through_carry {
        cy
    } else {
        low_bit
    };
    proof {
        crate::bits::lemma_u8_shr_or(d8, new_high_bit);
    }
    let rotated_value = (d8 >> 1) | (new_high_bit << 7);

    let mut new_flags = flags;
    new_flags.set(Flags::ZERO, rotated_value == 0);
    new_flags.set(Flags::SUBTRACT, false);
    new_flags.set(Flags::HALF_CARRY, false);
    new_flags.set(Flags::CARRY, low_bit != 0);

    proof {
        lemma_set_znhc(flags@, rotated_value == 0, false, false, low_bit != 0);
    }
    (rotated_value, new_flags)
}

} // verus!
