use crate::lameboy::cpu::instructions::sixteen_bit_loads::sp_offset_flags;
use crate::lameboy::cpu::registers::{
    carry_of, lemma_flags, lemma_set_nhc, lemma_set_znhc, lemma_write16_read16, subtract_of,
    with_flags, zero_of, Flags, Reg16, RegistersView,
};
use crate::lameboy::cpu::{lemma_sign_extend, sign_extend, Cpu, CpuView};
use vstd::prelude::*;

verus! {

/// The state after and the cycles of `add_hl_r16`.
pub open spec fn add_hl_r16_step(s: CpuView, r16: Reg16) -> (CpuView, u8) {
    let value = s.regs.read16(r16);
    let hl = s.regs.read16(Reg16::HL);
    let regs = s.regs.write16(Reg16::HL, hl.wrapping_add(value));
    let flags = with_flags(
        s.regs.f,
        zero_of(s.regs.f),
        false,
        hl % 4096 + value % 4096 > 4095,
        hl + value > 0xFFFF,
    );
    (s.with_regs(RegistersView { f: flags, ..regs }), 8)
}

/// ADD 16-bit register with register HL, storing the result in HL.
///
/// Takes 8 cycles.
///
/// # Examples
///
/// ```asm
/// ADD HL, BC ; HL <- HL + BC
/// ```
pub fn add_hl_r16(cpu: &mut Cpu, r16: &Reg16) -> (cycles: u8)
    requires
        old(cpu)@.wf(),
    ensures
        (final(cpu)@, cycles) == add_hl_r16_step(old(cpu)@, *r16),
        final(cpu)@.wf(),
{
    let value = cpu.registers.read16(r16);
    let old_hl = cpu.registers.read16(&Reg16::HL);
    proof {
        crate::bits::lemma_u16_arith(value);
        crate::bits::lemma_u16_arith(old_hl);
    }

    let combined = old_hl.wrapping_add(value);

    cpu.registers.write16(&Reg16::HL, combined);

    // No change for Flags::ZERO
    let ghost f0 = cpu.registers.f@;
    let half_carry = ((old_hl & 0x0FFF) + (value & 0x0FFF)) > 0x0FFF;
    let carry = (u32::from(old_hl) + u32::from(value)) > 0xFFFF;
    cpu.registers.f.set(Flags::SUBTRACT, false);
    cpu.registers.f.set(Flags::HALF_CARRY, half_carry);
    cpu.registers.f.set(Flags::CARRY, carry);
    proof {
        lemma_set_nhc(f0, false, half_carry, carry);
    }

    8
}

/// The state after and the cycles of `add_sp_d8`.
pub open spec fn add_sp_d8_step(s: CpuView) -> (CpuView, u8) {
    let (t, d8) = s.fetch8();
    let sp = t.regs.sp;
    (
        t.with_regs(
            RegistersView {
                sp: sp.wrapping_add(sign_extend(d8)),
                f: sp_offset_flags(t.regs.f, sp, d8),
                ..t.regs
            },
        ),
        16,
    )
}

/// ADD 8-bit signed value with register SP, storing the result in SP.
///
/// Takes 16 cycles.
///
/// # Examples
///
/// ```asm
/// ADD SP, $DA ; SP <- SP + 0xDA
/// ```
pub fn add_sp_d8(cpu: &mut Cpu) -> (cycles: u8)
    requires
        old(cpu)@.wf(),
    ensures
        (final(cpu)@, cycles) == add_sp_d8_step(old(cpu)@),
        final(cpu)@.wf(),
{
    // Read 8-bit value
    let unsigned_value = cpu.fetch8();
    let signed_value = unsigned_value as i8;

    let old_sp = cpu.registers.sp;
    proof {
        lemma_sign_extend(unsigned_value);
        crate::bits::lemma_u16_arith(old_sp);
        crate::bits::lemma_u16_arith(unsigned_value as u16);
        crate::bits::lemma_u8_arith(unsigned_value);
    }

    cpu.registers.sp = old_sp.wrapping_add(signed_value as u16);

    let ghost f0 = cpu.registers.f@;
    let half_carry = ((old_sp & 0x0F) + (unsigned_value as u16 & 0x0F)) > 0x0F;
    let carry = ((old_sp & 0xFF) + (unsigned_value as u16 & 0xFF)) > 0xFF;
    cpu.registers.f.set(Flags::ZERO, false);
    cpu.registers.f.set(Flags::SUBTRACT, false);
    cpu.registers.f.set(Flags::HALF_CARRY, half_carry);
    cpu.registers.f.set(Flags::CARRY, carry);
    proof {
        lemma_set_znhc(f0, false, false, half_carry, carry);
    }

    16
}

/// The state after and the cycles of `inc_r16`.
pub open spec fn inc_r16_step(s: CpuView, r16: Reg16) -> (CpuView, u8) {
    (s.with_regs(s.regs.write16(r16, s.regs.read16(r16).wrapping_add(1))), 8)
}

/// Increment 16-bit registers.
///
/// Takes 8 cycles.
///
/// # Examples
///
/// ```asm
/// INC BC
/// INC DE
/// ```
pub fn inc_r16(cpu: &mut Cpu, r16: &Reg16) -> (cycles: u8)
    requires
        old(cpu)@.wf(),
    ensures
        (final(cpu)@, cycles) == inc_r16_step(old(cpu)@, *r16),
        final(cpu)@.wf(),
{
    let mut value = cpu.registers.read16(r16);

    value = value.wrapping_add(1);

    cpu.registers.write16(r16, value);

    8
}

/// The state after and the cycles of `dec_r16`.
pub open spec fn dec_r16_step(s: CpuView, r16: Reg16) -> (CpuView, u8) {
    (s.with_regs(s.regs.write16(r16, s.regs.read16(r16).wrapping_sub(1))), 8)
}

/// Decrement 16-bit registers.
///
/// Takes 8 cycles.
///
/// # Examples
///
/// ```asm
/// DEC BC
/// DEC DE
/// ```
pub fn dec_r16(cpu: &mut Cpu, r16: &Reg16) -> (cycles: u8)
    requires
        old(cpu)@.wf(),
    ensures
        (final(cpu)@, cycles) == dec_r16_step(old(cpu)@, *r16),
        final(cpu)@.wf(),
{
    let mut value = cpu.registers.read16(r16);

    value = value.wrapping_sub(1);

    cpu.registers.write16(r16, value);

    8
}

/// ADD HL,rr adds the register pair (or SP) to HL, modulo 65536; the carry flag says the sum
/// passed 0xFFFF, subtract is clear, zero keeps its value, and every other register pair and
/// the stack pointer, unless added, keep their values.
pub proof fn lemma_add_hl(s: CpuView, r16: Reg16, other: Reg16)
    requires
        r16 != Reg16::AF,
    ensures
        ({
            let hl = s.regs.read16(Reg16::HL);
            let v = s.regs.read16(r16);
            let t = add_hl_r16_step(s, r16).0.regs;
            &&& t.read16(Reg16::HL) as int == (hl + v) % 65536
            &&& carry_of(t.f) == (hl + v > 0xFFFF)
            &&& !subtract_of(t.f)
            &&& zero_of(t.f) == zero_of(s.regs.f)
            &&& (other != Reg16::HL && other != Reg16::AF) ==> t.read16(other) == s.regs.read16(
                other,
            )
            &&& t.a == s.regs.a
            &&& t.pc == s.regs.pc
        }),
{
    let hl = s.regs.read16(Reg16::HL);
    let v = s.regs.read16(r16);
    lemma_write16_read16(s.regs, Reg16::HL, hl.wrapping_add(v));
    lemma_flags(
        s.regs.f,
        zero_of(s.regs.f),
        false,
        hl % 4096 + v % 4096 > 4095,
        hl + v > 0xFFFF,
        false,
    );
}

/// ADD SP,e adds to the stack pointer the operand byte read as a signed value (-128 to 127),
/// modulo 65536; the register pairs keep their values and the program counter moves past the
/// operand.
pub proof fn lemma_add_sp_offset(s: CpuView, other: Reg16)
    ensures
        ({
            let e = s.mmu.read(s.regs.pc);
            let offset: int = if e < 128 {
                e as int
            } else {
                e - 256
            };
            let t = add_sp_d8_step(s).0.regs;
            &&& t.sp as int == (s.regs.sp + offset) % 65536
            &&& (other != Reg16::SP && other != Reg16::AF) ==> t.read16(other) == s.regs.read16(
                other,
            )
            &&& t.a == s.regs.a
            &&& t.pc == s.regs.pc.wrapping_add(1)
        }),
{
}

/// INC rr and DEC rr add or take one from the register pair (or SP), modulo 65536; every
/// other register pair keeps its value.
pub proof fn lemma_increment_decrement_pair(s: CpuView, r16: Reg16, other: Reg16)
    requires
        r16 != Reg16::AF,
    ensures
        inc_r16_step(s, r16).0.regs.read16(r16) as int == (s.regs.read16(r16) + 1) % 65536,
        dec_r16_step(s, r16).0.regs.read16(r16) as int == (s.regs.read16(r16) - 1) % 65536,
        other != r16 ==> inc_r16_step(s, r16).0.regs.read16(other) == s.regs.read16(other),
        other != r16 ==> dec_r16_step(s, r16).0.regs.read16(other) == s.regs.read16(other),
        inc_r16_step(s, r16).0.regs.f == s.regs.f,
        dec_r16_step(s, r16).0.regs.f == s.regs.f,
{
    lemma_write16_read16(s.regs, r16, s.regs.read16(r16).wrapping_add(1));
    lemma_write16_read16(s.regs, r16, s.regs.read16(r16).wrapping_sub(1));
}

} // verus!
