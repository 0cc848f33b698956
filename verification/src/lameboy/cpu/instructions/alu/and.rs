use crate::lameboy::cpu::registers::{lemma_set_znhc, with_flags, Flags};
use vstd::prelude::*;

verus! {

/// Logical AND of the accumulator and `d8`: zero is set when the result is zero, subtract and
/// carry are reset, half carry is set.
pub open spec fn and_8bit(accumulator: u8, flags: u8, d8: u8) -> (u8, u8) {
    let result = accumulator & d8;
    (result, with_flags(flags, result == 0, false, true, false))
}

/// Logically AND 8-bit value from register A, storing the result in A.
///
/// Update flags:
///
/// ## Flags::ZERO
///
/// Set if the result equals zero.
///
/// ## Flags::SUBTRACT
///
/// Always reset
///
/// ## Flags::HALF_CARRY
///
/// Always set
///
/// ## Flags::CARRY
///
/// Always reset
///
pub fn alu_and_8bit(accumulator: u8, flags: Flags, d8: u8) -> (r: (u8, Flags))
    ensures
        r.1@ & 0x0F == 0,
        r.0 == and_8bit(accumulator, flags@, d8).0,
        r.1@ == and_8bit(accumulator, flags@, d8).1,
{
    let new_accumulator = accumulator & d8;

    let mut new_flags = flags;
    new_flags.set(Flags::ZERO, new_accumulator == 0);
    new_flags.set(Flags::SUBTRACT, false);
    new_flags.set(Flags::HALF_CARRY, true);
    new_flags.set(Flags::CARRY, false);

    proof {
        lemma_set_znhc(flags@, new_accumulator == 0, false, true, false);
    }
    (new_accumulator, new_flags)
}

} // verus!
