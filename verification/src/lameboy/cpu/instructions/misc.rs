use crate::lameboy::cpu::instructions::alu::add::{add_8bit, carry_in};
use crate::lameboy::cpu::instructions::alu::sub::sub_8bit;
use crate::lameboy::cpu::instructions::alu::swap::{alu_swap, swap};
use crate::lameboy::cpu::registers::{
    carry_of, half_carry_of, lemma_flags, lemma_set_nh, lemma_set_nh_toggle_c, lemma_set_nhc, lemma_set_zhc,
    subtract_of, with_flags, zero_of, Flags, Reg16, Reg8,
};
use crate::lameboy::cpu::{Cpu, CpuView, InterruptFlagDelayStatus};
use vstd::prelude::*;

verus! {

/// The state after and the cycles of `swap_r8`.
pub open spec fn swap_r8_step(s: CpuView, r8: Reg8) -> (CpuView, u8) {
    let (result, flags) = swap(s.regs.read8(r8), s.regs.f);
    let t = s.with_f(flags);
    (t.with_regs(t.regs.write8(r8, result)), 8)
}

/// Swap high and low bits of an 8-bit register.
///
/// Takes 8 cycles
///
/// # Examples
///
/// ```asm
/// SWAP B  ; B = (B & 0x0F << 4) & (B & 0xF0 >> 4)
/// ```
pub fn swap_r8(cpu: &mut Cpu, r8: &Reg8) -> (cycles: u8)
    requires
        old(cpu)@.wf(),
    ensures
        (final(cpu)@, cycles) == swap_r8_step(old(cpu)@, *r8),
        final(cpu)@.wf(),
{
    let value = cpu.registers.read8(r8);

    let (swapped_value, flags) = alu_swap(value, cpu.registers.f);
    cpu.registers.f = flags;

    cpu.registers.write8(r8, swapped_value);

    8
}

/// The state after and the cycles of `swap_indirect_hl`.
pub open spec fn swap_indirect_hl_step(s: CpuView) -> (CpuView, u8) {
    let addr = s.regs.read16(Reg16::HL);
    let (t, value) = s.read8(addr);
    let (result, flags) = swap(value, t.regs.f);
    (t.with_f(flags).write8(addr, result), 16)
}

/// Swap high and low bits of an indirect value, taken from memory using a 16-bit register as an
/// address.
///
/// Takes 16 cycles.
///
/// # Examples
///
/// ```asm
/// SWAP (HL) ; memory[hl] = (memory[hl] & 0x0F << 4) & (memory[hl] & 0xF0 >> 4)
/// ```
pub fn swap_indirect_hl(cpu: &mut Cpu) -> (cycles: u8)
    requires
        old(cpu)@.wf(),
    ensures
        (final(cpu)@, cycles) == swap_indirect_hl_step(old(cpu)@),
        final(cpu)@.wf(),
{
    let a16_addr = cpu.registers.read16(&Reg16::HL);
    let value = cpu.mmu.read8(a16_addr);

    let (swapped_value, flags) = alu_swap(value, cpu.registers.f);
    cpu.registers.f = flags;

    cpu.mmu.write8(a16_addr, swapped_value);

    16
}

/// Decimal adjust of the accumulator `a` with the flags `f` of the add or subtract that made
/// it: the adjusted accumulator and whether the carry flag ends up set.
///
/// After an add, 0x60 is added when carry was set or `a` is above 0x99 (and carry is then
/// set), and 0x06 when half carry was set or the low nibble is above 9. After a subtract,
/// 0xA0 (0x9A with half carry) is added when carry was set, which stays set, else 0xFA with
/// half carry.
pub open spec fn decimal_adjusted(a: u8, f: u8) -> (u8, bool) {
    if !subtract_of(f) {
        let (a1, carry) = if carry_of(f) || a > 0x99 {
            (a.wrapping_add(0x60), true)
        } else {
            (a, false)
        };
        let a2 = if half_carry_of(f) || a1 % 16 > 9 {
            a1.wrapping_add(0x06)
        } else {
            a1
        };
        (a2, carry)
    } else if carry_of(f) {
        (a.wrapping_add(
            if half_carry_of(f) {
                0x9A
            } else {
                0xA0
            },
        ), true)
    } else if half_carry_of(f) {
        (a.wrapping_add(0xFA), false)
    } else {
        (a, false)
    }
}

/// A byte is binary-coded decimal when both of its nibbles are decimal digits.
pub open spec fn is_bcd(d8: u8) -> bool {
    d8 / 16 <= 9 && d8 % 16 <= 9
}

/// The number a binary-coded decimal byte stands for.
pub open spec fn bcd_value(d8: u8) -> int {
    (d8 / 16) * 10 + d8 % 16
}

/// The binary-coded decimal byte of a number below one hundred.
pub open spec fn to_bcd(n: int) -> u8 {
    ((n / 10) * 16 + n % 10) as u8
}

/// After adding two binary-coded decimal bytes (and the carry flag, for ADC), DAA leaves the
/// decimal sum modulo one hundred as binary-coded decimal, with the carry flag set exactly
/// when the sum reached one hundred.
pub proof fn lemma_decimal_adjust_addition(a: u8, b: u8, flags: u8, use_carry: bool)
    requires
        is_bcd(a),
        is_bcd(b),
    ensures
        ({
            let total = bcd_value(a) + bcd_value(b) + carry_in(flags, use_carry);
            let (sum, sum_flags) = add_8bit(a, flags, b, use_carry);
            let (adjusted, carry) = decimal_adjusted(sum, sum_flags);
            adjusted == to_bcd(total % 100) && carry == (total >= 100)
        }),
{
    let cy = carry_in(flags, use_carry);
    let (sum, sum_flags) = add_8bit(a, flags, b, use_carry);
    let half = a % 16 + b % 16 + cy > 15;
    let full = a + b + cy > 255;
    lemma_flags(flags, sum == 0, false, half, full, false);
    assert(!subtract_of(sum_flags) && carry_of(sum_flags) == full && half_carry_of(sum_flags)
        == half);
    let s = (a + b + cy) as u16;
    assert(s == a + b + cy);
    assert(sum == (s % 256) as u8);
    let adjust_high = full || sum > 0x99;
    let a1 = if adjust_high {
        sum.wrapping_add(0x60)
    } else {
        sum
    };
    lemma_wrapping_add_mod(sum, 0x60);
    let a2 = if half || a1 % 16 > 9 {
        a1.wrapping_add(0x06)
    } else {
        a1
    };
    lemma_wrapping_add_mod(a1, 0x06);
    assert((((a % 16) as u16 + (b % 16) as u16 + cy as u16) as u16 > 15) == half);
    assert(decimal_adjusted(sum, sum_flags) == (a2, adjust_high));
    let total = bcd_value(a) + bcd_value(b) + cy;
    let t = total as u16;
    assert(t == total);
    let r = t % 100;
    if t >= 100 {
        assert(r == t - 100 && t / 100 == 1);
    } else {
        assert(r == t && t / 100 == 0);
    }
    assert(t == (r + (t / 100) * 100) as u16);
    assert(r == ((r / 10) * 10 + r % 10) as u16);
    lemma_decimal_adjust_addition_digits(a, b, cy as u8, s, sum, a1, a2, t, r, t / 100, r / 10, r % 10);
    assert(total % 100 == r);
}

/// After subtracting a binary-coded decimal byte (and the carry flag, for SBC) from another,
/// DAA leaves the decimal difference modulo one hundred as binary-coded decimal, with the carry
/// flag set exactly when the difference is negative.
pub proof fn lemma_decimal_adjust_subtraction(a: u8, b: u8, flags: u8, use_carry: bool)
    requires
        is_bcd(a),
        is_bcd(b),
    ensures
        ({
            let total = bcd_value(a) - bcd_value(b) - carry_in(flags, use_carry);
            let (difference, difference_flags) = sub_8bit(a, flags, b, use_carry);
            let (adjusted, carry) = decimal_adjusted(difference, difference_flags);
            adjusted == to_bcd(total % 100) && carry == (total < 0)
        }),
{
    let cy = carry_in(flags, use_carry);
    let (difference, difference_flags) = sub_8bit(a, flags, b, use_carry);
    let half = a % 16 < b % 16 + cy;
    let borrow = a - b - cy < 0;
    lemma_flags(flags, difference == 0, true, half, borrow, false);
    assert(subtract_of(difference_flags) && carry_of(difference_flags) == borrow
        && half_carry_of(difference_flags) == half);
    assert(difference == (((a as u16 + 256u16 - b as u16 - cy as u16) as u16) % 256) as u8) by {
        if a - b - cy >= 0 {
            assert((a - b - cy) % 256 == a - b - cy);
        } else {
            assert((a - b - cy) % 256 == a - b - cy + 256);
        }
    }
    let a1 = if borrow {
        difference.wrapping_add(
            if half {
                0x9A
            } else {
                0xA0
            },
        )
    } else if half {
        difference.wrapping_add(0xFA)
    } else {
        difference
    };
    lemma_wrapping_add_mod(difference, 0x9A);
    lemma_wrapping_add_mod(difference, 0xA0);
    lemma_wrapping_add_mod(difference, 0xFA);
    assert((((a % 16) as u16) < ((b % 16) as u16 + cy as u16) as u16) == half);
    assert(((a as u16) < (b as u16 + cy as u16) as u16) == borrow);
    assert(decimal_adjusted(difference, difference_flags) == (a1, borrow));
    lemma_decimal_adjust_subtraction_result(a, b, cy, difference, a1);
}

/// A wrapping add of bytes is the sum modulo 256.
proof fn lemma_wrapping_add_mod(x: u8, y: u8)
    ensures
        x.wrapping_add(y) == (((x as u16 + y as u16) as u16) % 256) as u8,
{
    if x + y > 255 {
        assert((x + y) % 256 == x + y - 256);
    } else {
        assert((x + y) % 256 == x + y);
    }
}

/// The result of DAA after a subtraction, from its definition in digits.
proof fn lemma_decimal_adjust_subtraction_result(a: u8, b: u8, cy: int, difference: u8, a1: u8)
    requires
        is_bcd(a),
        is_bcd(b),
        0 <= cy <= 1,
        difference == (((a as u16 + 256u16 - b as u16 - cy as u16) as u16) % 256) as u8,
        a1 == (if (a as u16) < (b as u16 + cy as u16) as u16 {
            if ((a % 16) as u16) < ((b % 16) as u16 + cy as u16) as u16 {
                (((difference as u16 + 0x9Au16) as u16) % 256) as u8
            } else {
                (((difference as u16 + 0xA0u16) as u16) % 256) as u8
            }
        } else if ((a % 16) as u16) < ((b % 16) as u16 + cy as u16) as u16 {
            (((difference as u16 + 0xFAu16) as u16) % 256) as u8
        } else {
            difference
        }),
    ensures
        a1 == to_bcd((bcd_value(a) - bcd_value(b) - cy) % 100),
{
    let total = bcd_value(a) - bcd_value(b) - cy;
    let t = (total + 100) as u16;
    assert(t == total + 100);
    let r = t % 100;
    if t >= 100 {
        assert(r == t - 100 && t / 100 == 1 && total % 100 == r);
    } else {
        assert(r == t && t / 100 == 0 && total % 100 == r);
    }
    assert(t == (r + (t / 100) * 100) as u16);
    assert(r == ((r / 10) * 10 + r % 10) as u16);
    lemma_decimal_adjust_subtraction_digits(
        a,
        b,
        cy as u8,
        difference,
        a1,
        t,
        r,
        t / 100,
        r / 10,
        r % 10,
    );
}

/// The digit arithmetic behind DAA after an addition.
proof fn lemma_decimal_adjust_addition_digits(
    a: u8,
    b: u8,
    cy: u8,
    s: u16,
    a0: u8,
    a1: u8,
    a2: u8,
    t: u16,
    r: u16,
    q: u16,
    tens: u16,
    ones: u16,
)
    by (bit_vector)
    requires
        a / 16 <= 9,
        a % 16 <= 9,
        b / 16 <= 9,
        b % 16 <= 9,
        cy <= 1,
        s == (a as u16 + b as u16 + cy as u16) as u16,
        a0 == (s % 256) as u8,
        a1 == (if s > 255 || a0 > 0x99 {
            (((a0 as u16 + 0x60u16) as u16) % 256) as u8
        } else {
            a0
        }),
        a2 == (if ((a % 16) as u16 + (b % 16) as u16 + cy as u16) as u16 > 15 || a1 % 16 > 9 {
            (((a1 as u16 + 6u16) as u16) % 256) as u8
        } else {
            a1
        }),
        t == ((a / 16) as u16 * 10 + (a % 16) as u16 + (b / 16) as u16 * 10 + (b % 16) as u16
            + cy as u16) as u16,
        t == (r + q * 100) as u16,
        r < 100,
        q <= 3,
        r == (tens * 10 + ones) as u16,
        tens < 10,
        ones < 10,
    ensures
        a2 == (tens * 16 + ones) as u8,
        (s > 255 || a0 > 0x99) == (t >= 100),
{
}

/// The digit arithmetic behind DAA after a subtraction; `t` is the decimal difference plus one
/// hundred.
proof fn lemma_decimal_adjust_subtraction_digits(
    a: u8,
    b: u8,
    cy: u8,
    a0: u8,
    a1: u8,
    t: u16,
    r: u16,
    q: u16,
    tens: u16,
    ones: u16,
)
    by (bit_vector)
    requires
        a / 16 <= 9,
        a % 16 <= 9,
        b / 16 <= 9,
        b % 16 <= 9,
        cy <= 1,
        a0 == (((a as u16 + 256u16 - b as u16 - cy as u16) as u16) % 256) as u8,
        a1 == (if (a as u16) < (b as u16 + cy as u16) as u16 {
            if ((a % 16) as u16) < ((b % 16) as u16 + cy as u16) as u16 {
                (((a0 as u16 + 0x9Au16) as u16) % 256) as u8
            } else {
                (((a0 as u16 + 0xA0u16) as u16) % 256) as u8
            }
        } else if ((a % 16) as u16) < ((b % 16) as u16 + cy as u16) as u16 {
            (((a0 as u16 + 0xFAu16) as u16) % 256) as u8
        } else {
            a0
        }),
        t == ((a / 16) as u16 * 10 + (a % 16) as u16 + 100 - (b / 16) as u16 * 10 - (b % 16) as u16
            - cy as u16) as u16,
        t == (r + q * 100) as u16,
        r < 100,
        q <= 3,
        r == (tens * 10 + ones) as u16,
        tens < 10,
        ones < 10,
    ensures
        a1 == (tens * 16 + ones) as u8,
        ((a as u16) < (b as u16 + cy as u16) as u16) == (t < 100),
{
}

/// The accumulator and flags after DAA: zero is set when the adjusted accumulator is zero,
/// half carry is reset, subtract is kept.
pub open spec fn decimal_adjust_af(a: u8, f: u8) -> (u8, u8) {
    let (result, carry) = decimal_adjusted(a, f);
    (result, with_flags(f, result == 0, subtract_of(f), false, carry))
}

/// The state after and the cycles of `decimal_adjust`.
pub open spec fn decimal_adjust_step(s: CpuView) -> (CpuView, u8) {
    (s.with_af(decimal_adjust_af(s.regs.a, s.regs.f)), 4)
}

/// This instruction conditionally adjusts the accumulator for BCD addition and subtraction
/// operations.
///
/// Takes 4 cycles.
///
/// # Examples
///
/// ```asm
/// DAA
/// ```
pub fn decimal_adjust(cpu: &mut Cpu) -> (cycles: u8)
    requires
        old(cpu)@.wf(),
    ensures
        (final(cpu)@, cycles) == decimal_adjust_step(old(cpu)@),
        final(cpu)@.wf(),
{
    let ghost f0 = cpu.registers.f@;
    let mut carry = false;

    if !cpu.registers.f.contains(Flags::SUBTRACT) {
        if cpu.registers.f.contains(Flags::CARRY) || cpu.registers.a > 0x99 {
            cpu.registers.a = cpu.registers.a.wrapping_add(0x60);
            carry = true;
        }
        proof {
            crate::bits::lemma_u8_arith(cpu.registers.a);
        }
        if cpu.registers.f.contains(Flags::HALF_CARRY) || cpu.registers.a & 0x0F > 0x09 {
            cpu.registers.a = cpu.registers.a.wrapping_add(0x06);
        }
    } else if cpu.registers.f.contains(Flags::CARRY) {
        carry = true;
        cpu.registers.a =
            cpu.registers.a.wrapping_add(
                if cpu.registers.f.contains(Flags::HALF_CARRY) {
                    0x9A
                } else {
                    0xA0
                },
            );
    } else if cpu.registers.f.contains(Flags::HALF_CARRY) {
        cpu.registers.a = cpu.registers.a.wrapping_add(0xFA);
    }

    let zero = cpu.registers.a == 0;
    cpu.registers.f.set(Flags::ZERO, zero);
    cpu.registers.f.set(Flags::HALF_CARRY, false);
    cpu.registers.f.set(Flags::CARRY, carry);
    proof {
        lemma_flags(f0, zero_of(f0), subtract_of(f0), half_carry_of(f0), carry_of(f0), false);
        lemma_set_zhc(f0, zero, false, carry);
    }

    4
}

/// The state after and the cycles of `complement`.
pub open spec fn complement_step(s: CpuView) -> (CpuView, u8) {
    let f = with_flags(s.regs.f, zero_of(s.regs.f), true, true, carry_of(s.regs.f));
    (s.with_af((!s.regs.a, f)), 4)
}

/// Complement A register, flipping all bits.
///
/// Takes 4 cycles.
///
/// # Examples
///
/// ```asm
/// CPL
/// ```
pub fn complement(cpu: &mut Cpu) -> (cycles: u8)
    requires
        old(cpu)@.wf(),
    ensures
        (final(cpu)@, cycles) == complement_step(old(cpu)@),
        final(cpu)@.wf(),
{
    let value = cpu.registers.a;
    cpu.registers.a = !value;

    let ghost f0 = cpu.registers.f@;
    cpu.registers.f.set(Flags::SUBTRACT, true);
    cpu.registers.f.set(Flags::HALF_CARRY, true);
    proof {
        lemma_set_nh(f0, true, true);
    }

    4
}

/// The state after and the cycles of `complement_carry_flag`.
pub open spec fn complement_carry_flag_step(s: CpuView) -> (CpuView, u8) {
    (s.with_f(with_flags(s.regs.f, zero_of(s.regs.f), false, false, !carry_of(s.regs.f))), 4)
}

/// Complement the carry flag.
///
/// Takes 4 cycles.
///
/// # Examples
///
/// ```asm
/// CCF ; Flags::CARRY = !Flags::CARRY
/// ```
pub fn complement_carry_flag(cpu: &mut Cpu) -> (cycles: u8)
    requires
        old(cpu)@.wf(),
    ensures
        (final(cpu)@, cycles) == complement_carry_flag_step(old(cpu)@),
        final(cpu)@.wf(),
{
    let ghost f0 = cpu.registers.f@;
    cpu.registers.f.set(Flags::SUBTRACT, false);
    cpu.registers.f.set(Flags::HALF_CARRY, false);
    cpu.registers.f.toggle(Flags::CARRY);
    proof {
        lemma_set_nh_toggle_c(f0, false, false);
    }

    4
}

/// The state after and the cycles of `set_carry_flag`.
pub open spec fn set_carry_flag_step(s: CpuView) -> (CpuView, u8) {
    (s.with_f(with_flags(s.regs.f, zero_of(s.regs.f), false, false, true)), 4)
}

/// Set the carry flag.
///
/// Takes 4 cycles.
///
/// # Examples
///
/// ```asm
/// SCF ; Flags::CARRY = 1
/// ```
pub fn set_carry_flag(cpu: &mut Cpu) -> (cycles: u8)
    requires
        old(cpu)@.wf(),
    ensures
        (final(cpu)@, cycles) == set_carry_flag_step(old(cpu)@),
        final(cpu)@.wf(),
{
    let ghost f0 = cpu.registers.f@;
    cpu.registers.f.set(Flags::SUBTRACT, false);
    cpu.registers.f.set(Flags::HALF_CARRY, false);
    cpu.registers.f.set(Flags::CARRY, true);
    proof {
        lemma_set_nhc(f0, false, false, true);
    }

    4
}

/// No operation instruction, does nothing.
///
/// Takes 4 cycles.
///
/// # Examples
///
/// ```asm
/// NOP
/// ```
pub fn nop(_cpu: &Cpu) -> (cycles: u8)
    ensures
        cycles == 4,
{
    // Do nothing
    4
}

/// The state after and the cycles of `halt`.
pub open spec fn halt_step(s: CpuView) -> (CpuView, u8) {
    (CpuView { halt: true, ..s }, 4)
}

/// Halt the system clock, though let the oscillator and LCD controller continue to run.
///
/// Halt mode can be cancelled by an interrupt or reset signal.
///
/// Takes 4 cycles.
///
/// # Examples
///
/// ```asm
/// HALT
/// ```
pub fn halt(cpu: &mut Cpu) -> (cycles: u8)
    requires
        old(cpu)@.wf(),
    ensures
        (final(cpu)@, cycles) == halt_step(old(cpu)@),
        final(cpu)@.wf(),
{
    cpu.halt = true;

    4
}

/// The state after and the cycles of `stop`: the byte after the opcode is read past.
pub open spec fn stop_step(s: CpuView) -> (CpuView, u8) {
    (s.fetch8().0, 4)
}

/// Stop the system clock and oscillator circuit to stop the CPU and LCD controller.
///
/// Stop mode can be cancelled by a reset signal.
///
/// The instruction must be followed by a zero byte.
///
/// Takes 4 cycles.
///
/// # Examples
///
/// ```asm
/// STOP
/// ```
pub fn stop(cpu: &mut Cpu) -> (cycles: u8)
    requires
        old(cpu)@.wf(),
        old(cpu)@.fetch8().1 == 0,
    ensures
        (final(cpu)@, cycles) == stop_step(old(cpu)@),
        final(cpu)@.wf(),
{
    // Read 8-bit value, which is zero
    let _value = cpu.fetch8();

    4
}

/// The state after and the cycles of `interrupts`: EI and DI schedule their change of the
/// interrupt master enable flag.
pub open spec fn interrupts_step(s: CpuView, enabled: bool) -> (CpuView, u8) {
    if enabled {
        (CpuView { ie_delay: InterruptFlagDelayStatus::ChangeScheduled, ..s }, 4)
    } else {
        (CpuView { de_delay: InterruptFlagDelayStatus::ChangeScheduled, ..s }, 4)
    }
}

/// Enable or disable interrupts.
///
/// Takes 4 cycles.
///
/// # Examples
///
/// ```asm
/// DI
/// EI
/// ```
pub fn interrupts(cpu: &mut Cpu, enabled: bool) -> (cycles: u8)
    requires
        old(cpu)@.wf(),
    ensures
        (final(cpu)@, cycles) == interrupts_step(old(cpu)@, enabled),
        final(cpu)@.wf(),
{
    if enabled {
        cpu.ie_delay_state = InterruptFlagDelayStatus::ChangeScheduled;
    } else {
        cpu.de_delay_state = InterruptFlagDelayStatus::ChangeScheduled;
    }

    4
}

} // verus!
