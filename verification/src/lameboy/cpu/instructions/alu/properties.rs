use crate::lameboy::cpu::instructions::alu::add::add_8bit;
use crate::lameboy::cpu::instructions::alu::and::and_8bit;
use crate::lameboy::cpu::instructions::alu::compare::cp_8bit;
use crate::lameboy::cpu::instructions::alu::increment_decrement::{dec_8bit, inc_8bit};
use crate::lameboy::cpu::instructions::alu::or::or_8bit;
use crate::lameboy::cpu::instructions::alu::rotate::{rotate_left, rotate_right};
use crate::lameboy::cpu::instructions::alu::sub::sub_8bit;
use crate::lameboy::cpu::instructions::alu::swap::swap;
use crate::lameboy::cpu::instructions::alu::xor::xor_8bit;
use crate::lameboy::cpu::registers::{carry_of, half_carry_of, lemma_flags, subtract_of, zero_of};
use vstd::prelude::*;

verus! {

/// Comparing sets the flags exactly as subtracting (without carry) does; only the accumulator
/// is left alone.
pub proof fn lemma_compare_is_subtract(accumulator: u8, flags: u8, d8: u8)
    ensures
        cp_8bit(accumulator, flags, d8) == sub_8bit(accumulator, flags, d8, false).1,
{
}

/// Decrementing undoes incrementing, and incrementing undoes decrementing, whatever the flags.
pub proof fn lemma_increment_decrement_inverse(d8: u8, flags: u8, other_flags: u8)
    ensures
        dec_8bit(inc_8bit(d8, flags).0, other_flags).0 == d8,
        inc_8bit(dec_8bit(d8, flags).0, other_flags).0 == d8,
{
}

/// Subtracting a value undoes adding it (neither with carry), whatever the flags.
pub proof fn lemma_add_subtract_inverse(accumulator: u8, flags: u8, d8: u8, other_flags: u8)
    ensures
        sub_8bit(add_8bit(accumulator, flags, d8, false).0, other_flags, d8, false).0
            == accumulator,
        add_8bit(sub_8bit(accumulator, flags, d8, false).0, other_flags, d8, false).0
            == accumulator,
{
    let a = accumulator as int;
    let d = d8 as int;
    let sum = add_8bit(accumulator, flags, d8, false).0 as int;
    let difference = sub_8bit(accumulator, flags, d8, false).0 as int;
    if a + d < 256 {
        assert(sum == a + d);
    } else {
        assert(sum == a + d - 256);
    }
    if a >= d {
        assert(difference == a - d);
    } else {
        assert(difference == a - d + 256);
    }
}

/// Swapping the nibbles twice gives the byte back.
pub proof fn lemma_swap_involution(d8: u8, flags: u8, other_flags: u8)
    ensures
        swap(swap(d8, flags).0, other_flags).0 == d8,
{
}

/// A rotation right undoes a rotation left, and a rotation left undoes a rotation right. Through
/// the carry flag, the flags the first rotation leaves are taken by the second, which gives
/// back both the byte and the carry flag.
pub proof fn lemma_rotate_inverse(d8: u8, flags: u8, other_flags: u8)
    ensures
        rotate_right(rotate_left(d8, flags, false).0, other_flags, false).0 == d8,
        rotate_left(rotate_right(d8, flags, false).0, other_flags, false).0 == d8,
        ({
            let (left, left_flags) = rotate_left(d8, flags, true);
            let (back, back_flags) = rotate_right(left, left_flags, true);
            back == d8 && carry_of(back_flags) == carry_of(flags)
        }),
        ({
            let (right, right_flags) = rotate_right(d8, flags, true);
            let (back, back_flags) = rotate_left(right, right_flags, true);
            back == d8 && carry_of(back_flags) == carry_of(flags)
        }),
{
    let x = d8 as int;
    let cy: int = if carry_of(flags) { 1 } else { 0 };
    assert(x == (x / 128) * 128 + x % 128);
    assert(x == (x / 2) * 2 + x % 2);
    if x >= 128 {
        assert((x * 2) % 256 == x * 2 - 256);
    } else {
        assert((x * 2) % 256 == x * 2);
    }
    let (left, left_flags) = rotate_left(d8, flags, true);
    lemma_flags(flags, left == 0, false, false, d8 / 128 == 1, false);
    let (right, right_flags) = rotate_right(d8, flags, true);
    lemma_flags(flags, right == 0, false, false, d8 % 2 == 1, false);
    let (b1, f1) = rotate_right(left, left_flags, true);
    lemma_flags(left_flags, b1 == 0, false, false, left % 2 == 1, false);
    let (b2, f2) = rotate_left(right, right_flags, true);
    lemma_flags(right_flags, b2 == 0, false, false, right / 128 == 1, false);
}

/// A byte with itself: XOR and SUB give zero with the zero flag set (SUB also sets subtract and
/// resets carry), AND and OR give the byte back, CP sets the zero flag.
pub proof fn lemma_accumulator_with_itself(accumulator: u8, flags: u8)
    ensures
        xor_8bit(accumulator, flags, accumulator).0 == 0,
        zero_of(xor_8bit(accumulator, flags, accumulator).1),
        sub_8bit(accumulator, flags, accumulator, false).0 == 0,
        zero_of(sub_8bit(accumulator, flags, accumulator, false).1),
        subtract_of(sub_8bit(accumulator, flags, accumulator, false).1),
        !carry_of(sub_8bit(accumulator, flags, accumulator, false).1),
        and_8bit(accumulator, flags, accumulator).0 == accumulator,
        or_8bit(accumulator, flags, accumulator).0 == accumulator,
        zero_of(cp_8bit(accumulator, flags, accumulator)),
{
    crate::bits::lemma_u8_self(accumulator);
    lemma_flags(flags, true, false, false, false, false);
    lemma_flags(flags, true, true, false, false, false);
}

/// 8-bit addition: the result is the sum of the accumulator, the operand and (for ADC) the
/// carry flag, modulo 256; zero says the result is zero, subtract is clear, half carry says the
/// lower nibbles overflowed and carry says the sum passed 255.
pub proof fn lemma_add_meaning(a: u8, f: u8, d: u8, use_carry: bool)
    ensures
        ({
            let c: int = if use_carry && carry_of(f) {
                1
            } else {
                0
            };
            let (r, g) = add_8bit(a, f, d, use_carry);
            &&& r as int == (a + d + c) % 256
            &&& zero_of(g) == (r == 0)
            &&& !subtract_of(g)
            &&& half_carry_of(g) == (a % 16 + d % 16 + c > 15)
            &&& carry_of(g) == (a + d + c > 255)
        }),
{
    let (r, g) = add_8bit(a, f, d, use_carry);
    let c: int = if use_carry && carry_of(f) {
        1
    } else {
        0
    };
    lemma_flags(f, r == 0, false, a % 16 + d % 16 + c > 15, a + d + c > 255, false);
}

/// 8-bit subtraction: the result is the accumulator less the operand and (for SBC) the carry
/// flag, modulo 256; zero says the result is zero, subtract is set, half carry says the lower
/// nibble borrowed and carry says the whole byte borrowed.
pub proof fn lemma_subtract_meaning(a: u8, f: u8, d: u8, use_carry: bool)
    ensures
        ({
            let c: int = if use_carry && carry_of(f) {
                1
            } else {
                0
            };
            let (r, g) = sub_8bit(a, f, d, use_carry);
            &&& r as int == (a - d - c) % 256
            &&& zero_of(g) == (r == 0)
            &&& subtract_of(g)
            &&& half_carry_of(g) == (a % 16 < d % 16 + c)
            &&& carry_of(g) == (a < d + c)
        }),
{
    let (r, g) = sub_8bit(a, f, d, use_carry);
    let c: int = if use_carry && carry_of(f) {
        1
    } else {
        0
    };
    lemma_flags(f, r == 0, true, a % 16 < d % 16 + c, a - d - c < 0, false);
}

/// Comparing: zero says the two bytes are equal, subtract is set, half carry says the lower
/// nibble of the accumulator is the smaller and carry says the accumulator is the smaller.
pub proof fn lemma_compare_meaning(a: u8, f: u8, d: u8)
    ensures
        zero_of(cp_8bit(a, f, d)) == (a == d),
        subtract_of(cp_8bit(a, f, d)),
        half_carry_of(cp_8bit(a, f, d)) == (a % 16 < d % 16),
        carry_of(cp_8bit(a, f, d)) == (a < d),
{
    lemma_flags(f, a == d, true, a % 16 < d % 16, a < d, false);
}

/// INC and DEC of a byte add or take one modulo 256; zero says the result is zero, subtract is
/// clear for INC and set for DEC, half carry says the lower nibble carried (INC from 0xF) or
/// borrowed (DEC from 0x0), and the carry flag keeps its value.
pub proof fn lemma_increment_decrement_meaning(d: u8, f: u8)
    ensures
        inc_8bit(d, f).0 as int == (d + 1) % 256,
        zero_of(inc_8bit(d, f).1) == (inc_8bit(d, f).0 == 0),
        !subtract_of(inc_8bit(d, f).1),
        half_carry_of(inc_8bit(d, f).1) == (d % 16 == 15),
        carry_of(inc_8bit(d, f).1) == carry_of(f),
        dec_8bit(d, f).0 as int == (d - 1) % 256,
        zero_of(dec_8bit(d, f).1) == (dec_8bit(d, f).0 == 0),
        subtract_of(dec_8bit(d, f).1),
        half_carry_of(dec_8bit(d, f).1) == (d % 16 == 0),
        carry_of(dec_8bit(d, f).1) == carry_of(f),
{
    lemma_flags(f, inc_8bit(d, f).0 == 0, false, d % 16 == 15, carry_of(f), false);
    lemma_flags(f, dec_8bit(d, f).0 == 0, true, d % 16 == 0, carry_of(f), false);
}

} // verus!
