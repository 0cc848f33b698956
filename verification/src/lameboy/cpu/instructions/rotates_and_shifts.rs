use crate::lameboy::cpu::instructions::alu::rotate::{
    alu_rotate_left, alu_rotate_right, rotate_left, rotate_right,
};
use crate::lameboy::cpu::instructions::alu::shift::{
    alu_shift_left, alu_shift_right, shift_left, shift_right,
};
use crate::lameboy::cpu::registers::{with_bit, Flags, Reg16, Reg8};
use crate::lameboy::cpu::{Cpu, CpuView};
use vstd::prelude::*;

verus! {

/// A rotation of a byte, left or right, with the zero flag reset afterwards when `reset_zero`.
pub open spec fn rotated(d8: u8, flags: u8, left: bool, through_carry: bool, reset_zero: bool) -> (
    u8,
    u8,
) {
    let (result, new_flags) = if left {
        rotate_left(d8, flags, through_carry)
    } else {
        rotate_right(d8, flags, through_carry)
    };
    (result, if reset_zero {
        with_bit(new_flags, 0x80, false)
    } else {
        new_flags
    })
}

/// The state after and the cycles of a rotation of an 8-bit register.
pub open spec fn rotate_r8_step(
    s: CpuView,
    r8: Reg8,
    left: bool,
    through_carry: bool,
    reset_zero: bool,
) -> (CpuView, u8) {
    let (result, flags) = rotated(s.regs.read8(r8), s.regs.f, left, through_carry, reset_zero);
    let t = s.with_f(flags);
    (t.with_regs(t.regs.write8(r8, result)), if reset_zero {
        4
    } else {
        8
    })
}

/// The state after and the cycles of a rotation of the byte HL points at.
pub open spec fn rotate_indirect_hl_step(
    s: CpuView,
    left: bool,
    through_carry: bool,
    reset_zero: bool,
) -> (CpuView, u8) {
    let addr = s.regs.read16(Reg16::HL);
    let (t, value) = s.read8(addr);
    let (result, flags) = rotated(value, t.regs.f, left, through_carry, reset_zero);
    (t.with_f(flags).write8(addr, result), 16)
}

/// Rotate an 8-bit register to the left.
///
/// If through_carry is true then the high bit will go into the Flags::CARRY flag and the old value of the
/// Flags::CARRY flag will become the new low bit.
/// If it is not true the high bit will become the low bit as well as going into the Flags::CARRY flag.
///
/// If reset_zero is true the Flags::ZERO flag will always be reset.
/// If it is not true the Flags::ZERO flag will be set only if the rotated value equals zero.
///
/// Takes 4 cycles if always using A, otherwise 8 cycles
///
/// # Examples
///
/// ```asm
/// ; 4 cycle
/// RLCA  ; Rotate A left (resets Flag::ZERO)
/// RLA   ; Rotate A left through the carry flag (resets Flag::ZERO)
///
/// ; 8 cycle
/// RLC B ; Rotate B left (sets Flag::ZERO if rotated result == 0)
/// RL B  ; Rotate B left through the carry flag (sets Flag::ZERO if rotated result == 0)
///
/// ```
pub fn rotate_left_r8(cpu: &mut Cpu, r8: &Reg8, through_carry: bool, reset_zero: bool) -> (cycles:
    u8)
    requires
        old(cpu)@.wf(),
    ensures
        (final(cpu)@, cycles) == rotate_r8_step(old(cpu)@, *r8, true, through_carry, reset_zero),
        final(cpu)@.wf(),
{
    let value = cpu.registers.read8(r8);

    let (rotated_value, mut flags) = alu_rotate_left(value, cpu.registers.f, through_carry);
    if reset_zero {
        flags.set(Flags::ZERO, false);
    }
    cpu.registers.f = flags;

    cpu.registers.write8(r8, rotated_value);

    if reset_zero {
        4
    } else {
        8
    }
}

/// Rotate an indirect value, taken from memory using a 16-bit register as an address to the left.
///
/// If through_carry is true then the high bit will go into the Flags::CARRY flag and the old value of the
/// Flags::CARRY flag will become the new low bit.
/// If it is not true the high bit will become the low bit as well as going into the Flags::CARRY flag.
///
/// If reset_zero is true the Flags::ZERO flag will always be reset.
/// If it is not true the Flags::ZERO flag will be set only if the rotated value equals zero.
///
/// Takes 16 cycles.
///
/// # Examples
///
/// ```asm
/// RLC (HL) ; Rotate memory[hl] left (sets Flag::ZERO if rotated result == 0)
/// RL (HL)  ; Rotate memory[hl] left through the carry flag (sets Flag::ZERO if rotated result == 0)
///
/// ```
pub fn rotate_left_indirect_hl(cpu: &mut Cpu, through_carry: bool, reset_zero: bool) -> (cycles:
    u8)
    requires
        old(cpu)@.wf(),
    ensures
        (final(cpu)@, cycles) == rotate_indirect_hl_step(
            old(cpu)@,
            true,
            through_carry,
            reset_zero,
        ),
        final(cpu)@.wf(),
{
    let a16_addr = cpu.registers.read16(&Reg16::HL);
    let value = cpu.mmu.read8(a16_addr);

    let (rotated_value, mut flags) = alu_rotate_left(value, cpu.registers.f, through_carry);
    if reset_zero {
        flags.set(Flags::ZERO, false);
    }
    cpu.registers.f = flags;

    cpu.mmu.write8(a16_addr, rotated_value);

    16
}

/// Rotate an 8-bit register to the right.
///
/// If through_carry is true then the low bit will go into the Flags::CARRY flag and the old value of the
/// Flags::CARRY flag will become the new high bit.
/// If it is not true the low bit will become the high bit as well as going into the Flags::CARRY flag.
///
/// If reset_zero is true the Flags::ZERO flag will always be reset.
/// If it is not true the Flags::ZERO flag will be set only if the rotated value equals zero.
///
/// Takes 4 cycles if always using A, otherwise 8 cycles
///
/// # Examples
///
/// ```asm
/// ; 4 cycle
/// RRCA  ; Rotate A right (resets Flag::ZERO)
/// RRA   ; Rotate A right through the carry flag (resets Flag::ZERO)
///
/// ; 8 cycle
/// RRC B ; Rotate B right (sets Flag::ZERO if rotated result == 0)
/// RR B  ; Rotate B right through the carry flag (sets Flag::ZERO if rotated result == 0)
///
/// ```
pub fn rotate_right_r8(cpu: &mut Cpu, r8: &Reg8, through_carry: bool, reset_zero: bool) -> (cycles:
    u8)
    requires
        old(cpu)@.wf(),
    ensures
        (final(cpu)@, cycles) == rotate_r8_step(old(cpu)@, *r8, false, through_carry, reset_zero),
        final(cpu)@.wf(),
{
    let value = cpu.registers.read8(r8);

    let (rotated_value, mut flags) = alu_rotate_right(value, cpu.registers.f, through_carry);
    if reset_zero {
        flags.set(Flags::ZERO, false);
    }
    cpu.registers.f = flags;

    cpu.registers.write8(r8, rotated_value);

    if reset_zero {
        4
    } else {
        8
    }
}

/// Rotate an indirect value, taken from memory using a 16-bit register as an address to the right.
///
/// If through_carry is true then the low bit will go into the Flags::CARRY flag and the old value of the
/// Flags::CARRY flag will become the new high bit.
/// If it is not true the low bit will become the high bit as well as going into the Flags::CARRY flag.
///
/// If reset_zero is true the Flags::ZERO flag will always be reset.
/// If it is not true the Flags::ZERO flag will be set only if the rotated value equals zero.
///
/// Takes 16 cycles.
///
/// # Examples
///
/// ```asm
/// RRC (HL) ; Rotate memory[hl] right (sets Flag::ZERO if rotated result == 0)
/// RR (HL)  ; Rotate memory[hl] right through the carry flag (sets Flag::ZERO if rotated result == 0)
///
/// ```
pub fn rotate_right_indirect_hl(cpu: &mut Cpu, through_carry: bool, reset_zero: bool) -> (cycles:
    u8)
    requires
        old(cpu)@.wf(),
    ensures
        (final(cpu)@, cycles) == rotate_indirect_hl_step(
            old(cpu)@,
            false,
            through_carry,
            reset_zero,
        ),
        final(cpu)@.wf(),
{
    let a16_addr = cpu.registers.read16(&Reg16::HL);
    let value = cpu.mmu.read8(a16_addr);

    let (rotated_value, mut flags) = alu_rotate_right(value, cpu.registers.f, through_carry);
    if reset_zero {
        flags.set(Flags::ZERO, false);
    }
    cpu.registers.f = flags;

    cpu.mmu.write8(a16_addr, rotated_value);

    16
}

/// The state after and the cycles of `shift_left_r8` (when `left`) or `shift_right_r8`.
pub open spec fn shift_r8_step(s: CpuView, r8: Reg8, left: bool, reset_high_bit: bool) -> (
    CpuView,
    u8,
) {
    let value = s.regs.read8(r8);
    let (result, flags) = if left {
        shift_left(value, s.regs.f)
    } else {
        shift_right(value, s.regs.f, reset_high_bit)
    };
    let t = s.with_f(flags);
    (t.with_regs(t.regs.write8(r8, result)), 8)
}

/// The state after and the cycles of `shift_left_indirect_hl` (when `left`) or
/// `shift_right_indirect_hl`.
pub open spec fn shift_indirect_hl_step(s: CpuView, left: bool, reset_high_bit: bool) -> (
    CpuView,
    u8,
) {
    let addr = s.regs.read16(Reg16::HL);
    let (t, value) = s.read8(addr);
    let (result, flags) = if left {
        shift_left(value, t.regs.f)
    } else {
        shift_right(value, t.regs.f, reset_high_bit)
    };
    (t.with_f(flags).write8(addr, result), 16)
}

/// Shift an 8-bit register to the left.
///
/// Takes 8 cycles
///
/// # Examples
///
/// ```asm
/// SLA B  ; Shift B left through the carry flag (sets Flag::ZERO if rotated result == 0)
/// ```
pub fn shift_left_r8(cpu: &mut Cpu, r8: &Reg8) -> (cycles: u8)
    requires
        old(cpu)@.wf(),
    ensures
        (final(cpu)@, cycles) == shift_r8_step(old(cpu)@, *r8, true, false),
        final(cpu)@.wf(),
{
    let value = cpu.registers.read8(r8);

    let (shifted_value, flags) = alu_shift_left(value, cpu.registers.f);
    cpu.registers.f = flags;

    cpu.registers.write8(r8, shifted_value);

    8
}

/// Shift an indirect value, taken from memory using a 16-bit register as an address to the left.
///
/// Takes 16 cycles.
///
/// # Examples
///
/// ```asm
/// SLA (HL) ; Shift memory[hl] left (sets Flag::ZERO if rotated result == 0)
/// ```
pub fn shift_left_indirect_hl(cpu: &mut Cpu) -> (cycles: u8)
    requires
        old(cpu)@.wf(),
    ensures
        (final(cpu)@, cycles) == shift_indirect_hl_step(old(cpu)@, true, false),
        final(cpu)@.wf(),
{
    let a16_addr = cpu.registers.read16(&Reg16::HL);
    let value = cpu.mmu.read8(a16_addr);

    let (shifted_value, flags) = alu_shift_left(value, cpu.registers.f);
    cpu.registers.f = flags;

    cpu.mmu.write8(a16_addr, shifted_value);

    16
}

/// Shift an 8-bit register to the right.
///
/// If reset_high_bit is true the highest bit after the shift will always be reset.
/// If it is not true the highest bit after the shift keeps the value it had.
///
/// Takes 8 cycles
///
/// # Examples
///
/// ```asm
/// SRA B  ; Shift B right through the carry flag (sets Flag::ZERO if rotated result == 0)
/// SRL B  ; Shift B right through the carry flag (sets Flag::ZERO if rotated result == 0)
/// ```
pub fn shift_right_r8(cpu: &mut Cpu, r8: &Reg8, reset_high_bit: bool) -> (cycles: u8)
    requires
        old(cpu)@.wf(),
    ensures
        (final(cpu)@, cycles) == shift_r8_step(old(cpu)@, *r8, false, reset_high_bit),
        final(cpu)@.wf(),
{
    let value = cpu.registers.read8(r8);

    let (shifted_value, flags) = alu_shift_right(value, cpu.registers.f, reset_high_bit);
    cpu.registers.f = flags;

    cpu.registers.write8(r8, shifted_value);

    8
}

/// Shift an indirect value, taken from memory using a 16-bit register as an address to the right.
///
/// If reset_high_bit is true the highest bit after the shift will always be reset.
/// If it is not true the highest bit after the shift keeps the value it had.
///
/// Takes 16 cycles.
///
/// # Examples
///
/// ```asm
/// SRA (HL) ; Shift memory[hl] right (sets Flag::ZERO if rotated result == 0)
/// SRL (HL) ; Shift memory[hl] right (sets Flag::ZERO if rotated result == 0)
/// ```
pub fn shift_right_indirect_hl(cpu: &mut Cpu, reset_high_bit: bool) -> (cycles: u8)
    requires
        old(cpu)@.wf(),
    ensures
        (final(cpu)@, cycles) == shift_indirect_hl_step(old(cpu)@, false, reset_high_bit),
        final(cpu)@.wf(),
{
    let a16_addr = cpu.registers.read16(&Reg16::HL);
    let value = cpu.mmu.read8(a16_addr);

    let (shifted_value, flags) = alu_shift_right(value, cpu.registers.f, reset_high_bit);
    cpu.registers.f = flags;

    cpu.mmu.write8(a16_addr, shifted_value);

    16
}

} // verus!
