use crate::lameboy::cpu::registers::{lemma_flags_clear_low, lemma_set_znhc, with_flags, Flags};
use vstd::prelude::*;

verus! {

/// Swap the nibbles of a byte: zero is set when the result is zero, the other flags are reset.
pub open spec fn swap(d8: u8, flags: u8) -> (u8, u8) {
    let result = ((d8 % 16) * 16 + d8 / 16) as u8;
    (result, with_flags(flags, result == 0, false, false, false))
}

/// Swap upper and lower nibbles of an 8-bit value.
///
/// Update flags:
///
/// ## Flags::ZERO
///
/// Set if the result equals zero.
///
/// ## Flags::SUBTRACT
///
/// Reset
///
/// ## Flags::HALF_CARRY
///
/// Reset
///
/// ## Flags::CARRY
///
/// Reset
///
pub fn alu_swap(d8: u8, flags: Flags) -> (r: (u8, Flags))
    ensures
        r.1@ & 0x0F == 0,
        r.0 == swap(d8, flags@).0,
        r.1@ == swap(d8, flags@).1,
        r.1@ == (if r.0 == 0 { Flags::ZERO } else { 0u8 }),
{
    proof {
        crate::bits::lemma_u8_shr_swap(d8);
    }
    let swapped_value = ((d8 & 0x0F) << 4) | ((d8 & 0xF0) >> 4);

    let mut new_flags = flags;
    new_flags.set(Flags::ZERO, swapped_value == 0);
    new_flags.set(Flags::SUBTRACT, false);
    new_flags.set(Flags::HALF_CARRY, false);
    new_flags.set(Flags::CARRY, false);

    proof {
        lemma_set_znhc(flags@, swapped_value == 0, false, false, false);
        use_type_invariant(&flags);
        lemma_flags_clear_low(flags@, swapped_value == 0, false, false, false);
        assert(with_flags(0u8, true, false, false, false) == 0x80u8) by (bit_vector);
        assert(with_flags(0u8, false, false, false, false) == 0u8) by (bit_vector);
    }
    (swapped_value, new_flags)
}

} // verus!
