use crate::lameboy::cpu::instructions::alu::add::{add_8bit, alu_add_8bit};
use crate::lameboy::cpu::instructions::alu::and::{alu_and_8bit, and_8bit};
use crate::lameboy::cpu::instructions::alu::compare::{alu_cp_8bit, cp_8bit};
use crate::lameboy::cpu::instructions::alu::increment_decrement::{
    alu_dec_8bit, alu_inc_8bit, dec_8bit, inc_8bit,
};
use crate::lameboy::cpu::instructions::alu::or::{alu_or_8bit, or_8bit};
use crate::lameboy::cpu::instructions::alu::sub::{alu_sub_8bit, sub_8bit};
use crate::lameboy::cpu::instructions::alu::xor::{alu_xor_8bit, xor_8bit};
use crate::lameboy::cpu::instructions::alu::properties::{
    lemma_compare_meaning, lemma_increment_decrement_meaning,
};
use crate::lameboy::cpu::registers::{carry_of, zero_of, Reg16, Reg8, RegistersView};
use crate::lameboy::cpu::{Cpu, CpuView};
use vstd::prelude::*;

verus! {

/// The operand of an instruction on an 8-bit register: the register's value.
pub open spec fn operand_r8(s: CpuView, r8: Reg8) -> (CpuView, u8) {
    (s, s.regs.read8(r8))
}

/// The operand of an instruction on memory a 16-bit register points at: the byte there.
pub open spec fn operand_indirect(s: CpuView, r16: Reg16) -> (CpuView, u8) {
    s.read8(s.regs.read16(r16))
}

/// The operand of an instruction on immediate data: the byte after the opcode.
pub open spec fn operand_d8(s: CpuView) -> (CpuView, u8) {
    s.fetch8()
}

/// The state after and the cycles of `add_r8`.
pub open spec fn add_r8_step(s: CpuView, r8: Reg8) -> (CpuView, u8) {
    let (t, value) = operand_r8(s, r8);
    (t.with_af(add_8bit(t.regs.a, t.regs.f, value, false)), 4)
}

/// ADD 8-bit register with register A, storing the result in A.
///
/// Takes 4 cycles.
///
/// # Examples
///
/// ```asm
/// ADD B ; A <- A + B
/// ```
pub fn add_r8(cpu: &mut Cpu, r8: &Reg8) -> (cycles: u8)
    requires
        old(cpu)@.wf(),
    ensures
        (final(cpu)@, cycles) == add_r8_step(old(cpu)@, *r8),
        final(cpu)@.wf(),
{
    let value = cpu.registers.read8(r8);

    let (acc, flags) = alu_add_8bit(cpu.registers.a, cpu.registers.f, value, false);
    cpu.registers.a = acc;
    cpu.registers.f = flags;

    4
}

/// The state after and the cycles of `add_indirect_r16`.
pub open spec fn add_indirect_r16_step(s: CpuView, r16: Reg16) -> (CpuView, u8) {
    let (t, value) = operand_indirect(s, r16);
    (t.with_af(add_8bit(t.regs.a, t.regs.f, value, false)), 8)
}

/// ADD memory addressed indirectly by a 16-bit register with register A, storing the result in A.
///
/// Takes 8 cycles.
///
/// # Examples
///
/// ```asm
/// ADD (HL) ; A <- A + memory[HL]
/// ```
pub fn add_indirect_r16(cpu: &mut Cpu, r16: &Reg16) -> (cycles: u8)
    requires
        old(cpu)@.wf(),
    ensures
        (final(cpu)@, cycles) == add_indirect_r16_step(old(cpu)@, *r16),
        final(cpu)@.wf(),
{
    let addr = cpu.registers.read16(r16);
    let value = cpu.mmu.read8(addr);

    let (acc, flags) = alu_add_8bit(cpu.registers.a, cpu.registers.f, value, false);
    cpu.registers.a = acc;
    cpu.registers.f = flags;

    8
}

/// The state after and the cycles of `add_d8`.
pub open spec fn add_d8_step(s: CpuView) -> (CpuView, u8) {
    let (t, value) = operand_d8(s);
    (t.with_af(add_8bit(t.regs.a, t.regs.f, value, false)), 8)
}

/// ADD 8-bit value with register A, storing the result in A.
///
/// Takes 8 cycles.
///
/// # Examples
///
/// ```asm
/// ADD $DA ; A <- A + 0xDA
/// ```
pub fn add_d8(cpu: &mut Cpu) -> (cycles: u8)
    requires
        old(cpu)@.wf(),
    ensures
        (final(cpu)@, cycles) == add_d8_step(old(cpu)@),
        final(cpu)@.wf(),
{
    let value = cpu.fetch8();

    let (acc, flags) = alu_add_8bit(cpu.registers.a, cpu.registers.f, value, false);
    cpu.registers.a = acc;
    cpu.registers.f = flags;

    8
}

/// The state after and the cycles of `adc_r8`.
pub open spec fn adc_r8_step(s: CpuView, r8: Reg8) -> (CpuView, u8) {
    let (t, value) = operand_r8(s, r8);
    (t.with_af(add_8bit(t.regs.a, t.regs.f, value, true)), 4)
}

/// ADD 8-bit register plus the carry flag with register A, storing the result in A.
///
/// Takes 4 cycles.
///
/// # Examples
///
/// ```asm
/// ADC B ; A <- A + B + Flags::CARRY
/// ```
pub fn adc_r8(cpu: &mut Cpu, r8: &Reg8) -> (cycles: u8)
    requires
        old(cpu)@.wf(),
    ensures
        (final(cpu)@, cycles) == adc_r8_step(old(cpu)@, *r8),
        final(cpu)@.wf(),
{
    let value = cpu.registers.read8(r8);

    let (acc, flags) = alu_add_8bit(cpu.registers.a, cpu.registers.f, value, true);
    cpu.registers.a = acc;
    cpu.registers.f = flags;

    4
}

/// The state after and the cycles of `adc_indirect_r16`.
pub open spec fn adc_indirect_r16_step(s: CpuView, r16: Reg16) -> (CpuView, u8) {
    let (t, value) = operand_indirect(s, r16);
    (t.with_af(add_8bit(t.regs.a, t.regs.f, value, true)), 8)
}

/// ADD memory addressed indirectly by a 16-bit register plus the carry flag with register A,
/// storing the result in A.
///
/// Takes 8 cycles.
///
/// # Examples
///
/// ```asm
/// ADC (HL) ; A <- A + memory[HL] + Flags::CARRY
/// ```
pub fn adc_indirect_r16(cpu: &mut Cpu, r16: &Reg16) -> (cycles: u8)
    requires
        old(cpu)@.wf(),
    ensures
        (final(cpu)@, cycles) == adc_indirect_r16_step(old(cpu)@, *r16),
        final(cpu)@.wf(),
{
    let addr = cpu.registers.read16(r16);
    let value = cpu.mmu.read8(addr);

    let (acc, flags) = alu_add_8bit(cpu.registers.a, cpu.registers.f, value, true);
    cpu.registers.a = acc;
    cpu.registers.f = flags;

    8
}

/// The state after and the cycles of `adc_d8`.
pub open spec fn adc_d8_step(s: CpuView) -> (CpuView, u8) {
    let (t, value) = operand_d8(s);
    (t.with_af(add_8bit(t.regs.a, t.regs.f, value, true)), 8)
}

/// ADD 8-bit value plus the carry flag with register A, storing the result in A.
///
/// Takes 8 cycles.
///
/// # Examples
///
/// ```asm
/// ADC $DA ; A <- A + 0xDA + Flags::CARRY
/// ```
pub fn adc_d8(cpu: &mut Cpu) -> (cycles: u8)
    requires
        old(cpu)@.wf(),
    ensures
        (final(cpu)@, cycles) == adc_d8_step(old(cpu)@),
        final(cpu)@.wf(),
{
    let value = cpu.fetch8();

    let (acc, flags) = alu_add_8bit(cpu.registers.a, cpu.registers.f, value, true);
    cpu.registers.a = acc;
    cpu.registers.f = flags;

    8
}

/// The state after and the cycles of `sub_r8`.
pub open spec fn sub_r8_step(s: CpuView, r8: Reg8) -> (CpuView, u8) {
    let (t, value) = operand_r8(s, r8);
    (t.with_af(sub_8bit(t.regs.a, t.regs.f, value, false)), 4)
}

/// Subtract 8-bit register from register A, storing the result in A.
///
/// Takes 4 cycles.
///
/// # Examples
///
/// ```asm
/// SUB B ; A <- A - B
/// ```
pub fn sub_r8(cpu: &mut Cpu, r8: &Reg8) -> (cycles: u8)
    requires
        old(cpu)@.wf(),
    ensures
        (final(cpu)@, cycles) == sub_r8_step(old(cpu)@, *r8),
        final(cpu)@.wf(),
{
    let value = cpu.registers.read8(r8);

    let (acc, flags) = alu_sub_8bit(cpu.registers.a, cpu.registers.f, value, false);
    cpu.registers.a = acc;
    cpu.registers.f = flags;

    4
}

/// The state after and the cycles of `sub_indirect_r16`.
pub open spec fn sub_indirect_r16_step(s: CpuView, r16: Reg16) -> (CpuView, u8) {
    let (t, value) = operand_indirect(s, r16);
    (t.with_af(sub_8bit(t.regs.a, t.regs.f, value, false)), 8)
}

/// Subtract memory addressed indirectly by a 16-bit register from register A, storing the result
/// in A.
///
/// Takes 8 cycles.
///
/// # Examples
///
/// ```asm
/// SUB (HL) ; A <- A - memory[HL]
/// ```
pub fn sub_indirect_r16(cpu: &mut Cpu, r16: &Reg16) -> (cycles: u8)
    requires
        old(cpu)@.wf(),
    ensures
        (final(cpu)@, cycles) == sub_indirect_r16_step(old(cpu)@, *r16),
        final(cpu)@.wf(),
{
    let addr = cpu.registers.read16(r16);
    let value = cpu.mmu.read8(addr);

    let (acc, flags) = alu_sub_8bit(cpu.registers.a, cpu.registers.f, value, false);
    cpu.registers.a = acc;
    cpu.registers.f = flags;

    8
}

/// The state after and the cycles of `sub_d8`.
pub open spec fn sub_d8_step(s: CpuView) -> (CpuView, u8) {
    let (t, value) = operand_d8(s);
    (t.with_af(sub_8bit(t.regs.a, t.regs.f, value, false)), 8)
}

/// Subtract 8-bit value from register A, storing the result in A.
///
/// Takes 8 cycles.
///
/// # Examples
///
/// ```asm
/// SUB $DA ; A <- A - 0xDA
/// ```
pub fn sub_d8(cpu: &mut Cpu) -> (cycles: u8)
    requires
        old(cpu)@.wf(),
    ensures
        (final(cpu)@, cycles) == sub_d8_step(old(cpu)@),
        final(cpu)@.wf(),
{
    let value = cpu.fetch8();

    let (acc, flags) = alu_sub_8bit(cpu.registers.a, cpu.registers.f, value, false);
    cpu.registers.a = acc;
    cpu.registers.f = flags;

    8
}

/// The state after and the cycles of `sbc_r8`.
pub open spec fn sbc_r8_step(s: CpuView, r8: Reg8) -> (CpuView, u8) {
    let (t, value) = operand_r8(s, r8);
    (t.with_af(sub_8bit(t.regs.a, t.regs.f, value, true)), 4)
}

/// Subtract 8-bit register plus the carry flag from register A, storing the result in A.
///
/// Takes 4 cycles.
///
/// # Examples
///
/// ```asm
/// SBC B ; A <- A - B - Flags::CARRY
/// ```
pub fn sbc_r8(cpu: &mut Cpu, r8: &Reg8) -> (cycles: u8)
    requires
        old(cpu)@.wf(),
    ensures
        (final(cpu)@, cycles) == sbc_r8_step(old(cpu)@, *r8),
        final(cpu)@.wf(),
{
    let value = cpu.registers.read8(r8);

    let (acc, flags) = alu_sub_8bit(cpu.registers.a, cpu.registers.f, value, true);
    cpu.registers.a = acc;
    cpu.registers.f = flags;

    4
}

/// The state after and the cycles of `sbc_indirect_r16`.
pub open spec fn sbc_indirect_r16_step(s: CpuView, r16: Reg16) -> (CpuView, u8) {
    let (t, value) = operand_indirect(s, r16);
    (t.with_af(sub_8bit(t.regs.a, t.regs.f, value, true)), 8)
}

/// Subtract memory addressed indirectly by a 16-bit register plus the carry flag from register A,
/// storing the result in A.
///
/// Takes 8 cycles.
///
/// # Examples
///
/// ```asm
/// SBC (HL) ; A <- A - memory[HL] - Flags::CARRY
/// ```
pub fn sbc_indirect_r16(cpu: &mut Cpu, r16: &Reg16) -> (cycles: u8)
    requires
        old(cpu)@.wf(),
    ensures
        (final(cpu)@, cycles) == sbc_indirect_r16_step(old(cpu)@, *r16),
        final(cpu)@.wf(),
{
    let addr = cpu.registers.read16(r16);
    let value = cpu.mmu.read8(addr);

    let (acc, flags) = alu_sub_8bit(cpu.registers.a, cpu.registers.f, value, true);
    cpu.registers.a = acc;
    cpu.registers.f = flags;

    8
}

/// The state after and the cycles of `sbc_d8`.
pub open spec fn sbc_d8_step(s: CpuView) -> (CpuView, u8) {
    let (t, value) = operand_d8(s);
    (t.with_af(sub_8bit(t.regs.a, t.regs.f, value, true)), 8)
}

/// Subtract 8-bit value plus the carry flag from register A, storing the result in A.
///
/// Takes 8 cycles.
///
/// # Examples
///
/// ```asm
/// SBC $DA ; A <- A - 0xDA - Flags::CARRY
/// ```
pub fn sbc_d8(cpu: &mut Cpu) -> (cycles: u8)
    requires
        old(cpu)@.wf(),
    ensures
        (final(cpu)@, cycles) == sbc_d8_step(old(cpu)@),
        final(cpu)@.wf(),
{
    let value = cpu.fetch8();

    let (acc, flags) = alu_sub_8bit(cpu.registers.a, cpu.registers.f, value, true);
    cpu.registers.a = acc;
    cpu.registers.f = flags;

    8
}

/// The state after and the cycles of `and_r8`.
pub open spec fn and_r8_step(s: CpuView, r8: Reg8) -> (CpuView, u8) {
    let (t, value) = operand_r8(s, r8);
    (t.with_af(and_8bit(t.regs.a, t.regs.f, value)), 4)
}

/// AND 8-bit register with register A, storing the result in A.
///
/// Takes 4 cycles.
///
/// # Examples
///
/// ```asm
/// AND B ; A <- A & B
/// ```
pub fn and_r8(cpu: &mut Cpu, r8: &Reg8) -> (cycles: u8)
    requires
        old(cpu)@.wf(),
    ensures
        (final(cpu)@, cycles) == and_r8_step(old(cpu)@, *r8),
        final(cpu)@.wf(),
{
    let value = cpu.registers.read8(r8);

    let (acc, flags) = alu_and_8bit(cpu.registers.a, cpu.registers.f, value);
    cpu.registers.a = acc;
    cpu.registers.f = flags;

    4
}

/// The state after and the cycles of `and_indirect_r16`.
pub open spec fn and_indirect_r16_step(s: CpuView, r16: Reg16) -> (CpuView, u8) {
    let (t, value) = operand_indirect(s, r16);
    (t.with_af(and_8bit(t.regs.a, t.regs.f, value)), 8)
}

/// AND memory addressed indirectly by a 16-bit register with register A, storing the result in A.
///
/// Takes 8 cycles.
///
/// # Examples
///
/// ```asm
/// AND (HL) ; A <- A & memory[HL]
/// ```
pub fn and_indirect_r16(cpu: &mut Cpu, r16: &Reg16) -> (cycles: u8)
    requires
        old(cpu)@.wf(),
    ensures
        (final(cpu)@, cycles) == and_indirect_r16_step(old(cpu)@, *r16),
        final(cpu)@.wf(),
{
    let addr = cpu.registers.read16(r16);
    let value = cpu.mmu.read8(addr);

    let (acc, flags) = alu_and_8bit(cpu.registers.a, cpu.registers.f, value);
    cpu.registers.a = acc;
    cpu.registers.f = flags;

    8
}

/// The state after and the cycles of `and_d8`.
pub open spec fn and_d8_step(s: CpuView) -> (CpuView, u8) {
    let (t, value) = operand_d8(s);
    (t.with_af(and_8bit(t.regs.a, t.regs.f, value)), 8)
}

/// AND 8-bit value with register A, storing the result in A.
///
/// Takes 8 cycles.
///
/// # Examples
///
/// ```asm
/// AND $DA ; A <- A & 0xDA
/// ```
pub fn and_d8(cpu: &mut Cpu) -> (cycles: u8)
    requires
        old(cpu)@.wf(),
    ensures
        (final(cpu)@, cycles) == and_d8_step(old(cpu)@),
        final(cpu)@.wf(),
{
    let value = cpu.fetch8();

    let (acc, flags) = alu_and_8bit(cpu.registers.a, cpu.registers.f, value);
    cpu.registers.a = acc;
    cpu.registers.f = flags;

    8
}

/// The state after and the cycles of `xor_r8`.
pub open spec fn xor_r8_step(s: CpuView, r8: Reg8) -> (CpuView, u8) {
    let (t, value) = operand_r8(s, r8);
    (t.with_af(xor_8bit(t.regs.a, t.regs.f, value)), 4)
}

/// XOR 8-bit register with register A, storing the result in A.
///
/// Takes 4 cycles.
///
/// # Examples
///
/// ```asm
/// XOR B ; A <- A ^ B
/// ```
pub fn xor_r8(cpu: &mut Cpu, r8: &Reg8) -> (cycles: u8)
    requires
        old(cpu)@.wf(),
    ensures
        (final(cpu)@, cycles) == xor_r8_step(old(cpu)@, *r8),
        final(cpu)@.wf(),
{
    let value = cpu.registers.read8(r8);

    let (acc, flags) = alu_xor_8bit(cpu.registers.a, cpu.registers.f, value);
    cpu.registers.a = acc;
    cpu.registers.f = flags;

    4
}

/// The state after and the cycles of `xor_indirect_r16`.
pub open spec fn xor_indirect_r16_step(s: CpuView, r16: Reg16) -> (CpuView, u8) {
    let (t, value) = operand_indirect(s, r16);
    (t.with_af(xor_8bit(t.regs.a, t.regs.f, value)), 8)
}

/// XOR memory addressed indirectly by a 16-bit register with register A, storing the result in A.
///
/// Takes 8 cycles.
///
/// # Examples
///
/// ```asm
/// XOR (HL) ; A <- A ^ memory[HL]
/// ```
pub fn xor_indirect_r16(cpu: &mut Cpu, r16: &Reg16) -> (cycles: u8)
    requires
        old(cpu)@.wf(),
    ensures
        (final(cpu)@, cycles) == xor_indirect_r16_step(old(cpu)@, *r16),
        final(cpu)@.wf(),
{
    let addr = cpu.registers.read16(r16);
    let value = cpu.mmu.read8(addr);

    let (acc, flags) = alu_xor_8bit(cpu.registers.a, cpu.registers.f, value);
    cpu.registers.a = acc;
    cpu.registers.f = flags;

    8
}

/// The state after and the cycles of `xor_d8`.
pub open spec fn xor_d8_step(s: CpuView) -> (CpuView, u8) {
    let (t, value) = operand_d8(s);
    (t.with_af(xor_8bit(t.regs.a, t.regs.f, value)), 8)
}

/// XOR 8-bit value with register A, storing the result in A.
///
/// Takes 8 cycles.
///
/// # Examples
///
/// ```asm
/// XOR $DA ; A <- A ^ 0xDA
/// ```
pub fn xor_d8(cpu: &mut Cpu) -> (cycles: u8)
    requires
        old(cpu)@.wf(),
    ensures
        (final(cpu)@, cycles) == xor_d8_step(old(cpu)@),
        final(cpu)@.wf(),
{
    let value = cpu.fetch8();

    let (acc, flags) = alu_xor_8bit(cpu.registers.a, cpu.registers.f, value);
    cpu.registers.a = acc;
    cpu.registers.f = flags;

    8
}

/// The state after and the cycles of `or_r8`.
pub open spec fn or_r8_step(s: CpuView, r8: Reg8) -> (CpuView, u8) {
    let (t, value) = operand_r8(s, r8);
    (t.with_af(or_8bit(t.regs.a, t.regs.f, value)), 4)
}

/// OR 8-bit register with register A, storing the result in A.
///
/// Takes 4 cycles.
///
/// # Examples
///
/// ```asm
/// OR B ; A <- A | B
/// ```
pub fn or_r8(cpu: &mut Cpu, r8: &Reg8) -> (cycles: u8)
    requires
        old(cpu)@.wf(),
    ensures
        (final(cpu)@, cycles) == or_r8_step(old(cpu)@, *r8),
        final(cpu)@.wf(),
{
    let value = cpu.registers.read8(r8);

    let (acc, flags) = alu_or_8bit(cpu.registers.a, cpu.registers.f, value);
    cpu.registers.a = acc;
    cpu.registers.f = flags;

    4
}

/// The state after and the cycles of `or_indirect_r16`.
pub open spec fn or_indirect_r16_step(s: CpuView, r16: Reg16) -> (CpuView, u8) {
    let (t, value) = operand_indirect(s, r16);
    (t.with_af(or_8bit(t.regs.a, t.regs.f, value)), 8)
}

/// OR memory addressed indirectly by a 16-bit register with register A, storing the result in A.
///
/// Takes 8 cycles.
///
/// # Examples
///
/// ```asm
/// OR (HL) ; A <- A | memory[HL]
/// ```
pub fn or_indirect_r16(cpu: &mut Cpu, r16: &Reg16) -> (cycles: u8)
    requires
        old(cpu)@.wf(),
    ensures
        (final(cpu)@, cycles) == or_indirect_r16_step(old(cpu)@, *r16),
        final(cpu)@.wf(),
{
    let addr = cpu.registers.read16(r16);
    let value = cpu.mmu.read8(addr);

    let (acc, flags) = alu_or_8bit(cpu.registers.a, cpu.registers.f, value);
    cpu.registers.a = acc;
    cpu.registers.f = flags;

    8
}

/// The state after and the cycles of `or_d8`.
pub open spec fn or_d8_step(s: CpuView) -> (CpuView, u8) {
    let (t, value) = operand_d8(s);
    (t.with_af(or_8bit(t.regs.a, t.regs.f, value)), 8)
}

/// OR 8-bit value with register A, storing the result in A.
///
/// Takes 8 cycles.
///
/// # Examples
///
/// ```asm
/// OR $DA ; A <- A | 0xDA
/// ```
pub fn or_d8(cpu: &mut Cpu) -> (cycles: u8)
    requires
        old(cpu)@.wf(),
    ensures
        (final(cpu)@, cycles) == or_d8_step(old(cpu)@),
        final(cpu)@.wf(),
{
    let value = cpu.fetch8();

    let (acc, flags) = alu_or_8bit(cpu.registers.a, cpu.registers.f, value);
    cpu.registers.a = acc;
    cpu.registers.f = flags;

    8
}

/// The state after and the cycles of `cp_r8`.
pub open spec fn cp_r8_step(s: CpuView, r8: Reg8) -> (CpuView, u8) {
    let (t, value) = operand_r8(s, r8);
    (t.with_f(cp_8bit(t.regs.a, t.regs.f, value)), 4)
}

/// Subtract 8-bit register from register A, but don't store the result. Zero flag will be set if
/// register A and the 8-bit operand register were equal.
///
/// Takes 4 cycles.
///
/// # Examples
///
/// ```asm
/// CP B ; Flags::ZERO true if A == B, Flags::CARRY true if A < B
/// ```
pub fn cp_r8(cpu: &mut Cpu, r8: &Reg8) -> (cycles: u8)
    requires
        old(cpu)@.wf(),
    ensures
        (final(cpu)@, cycles) == cp_r8_step(old(cpu)@, *r8),
        final(cpu)@.wf(),
{
    let value = cpu.registers.read8(r8);

    cpu.registers.f = alu_cp_8bit(cpu.registers.a, cpu.registers.f, value);

    4
}

/// The state after and the cycles of `cp_d8`.
pub open spec fn cp_d8_step(s: CpuView) -> (CpuView, u8) {
    let (t, value) = operand_d8(s);
    (t.with_f(cp_8bit(t.regs.a, t.regs.f, value)), 8)
}

/// Subtract 8-bit value from register A, but don't store the result. Zero flag will be set if
/// register A and the 8-bit value were equal.
///
/// Takes 8 cycles.
///
/// # Examples
///
/// ```asm
/// CP $DA ; Flags::ZERO true if A == 0xDA, Flags::CARRY true if A < 0xDA
/// ```
pub fn cp_d8(cpu: &mut Cpu) -> (cycles: u8)
    requires
        old(cpu)@.wf(),
    ensures
        (final(cpu)@, cycles) == cp_d8_step(old(cpu)@),
        final(cpu)@.wf(),
{
    let value = cpu.fetch8();

    cpu.registers.f = alu_cp_8bit(cpu.registers.a, cpu.registers.f, value);

    8
}

/// The state after and the cycles of `cp_indirect_r16`.
pub open spec fn cp_indirect_r16_step(s: CpuView, r16: Reg16) -> (CpuView, u8) {
    let (t, value) = operand_indirect(s, r16);
    (t.with_f(cp_8bit(t.regs.a, t.regs.f, value)), 8)
}

/// Subtract memory addressed indirectly by a 16-bit register from register A, but don't store the
/// result. Zero flag will be set if register A and the 8-bit value were equal.
///
/// Takes 8 cycles.
///
/// # Examples
///
/// ```asm
/// CP (HL) ; Flags::ZERO true if A == memory[HL], Flags::CARRY true if A < memory[HL]
/// ```
pub fn cp_indirect_r16(cpu: &mut Cpu, r16: &Reg16) -> (cycles: u8)
    requires
        old(cpu)@.wf(),
    ensures
        (final(cpu)@, cycles) == cp_indirect_r16_step(old(cpu)@, *r16),
        final(cpu)@.wf(),
{
    let addr = cpu.registers.read16(r16);
    let value = cpu.mmu.read8(addr);

    cpu.registers.f = alu_cp_8bit(cpu.registers.a, cpu.registers.f, value);

    8
}

/// The state after and the cycles of `inc_r8`.
pub open spec fn inc_r8_step(s: CpuView, r8: Reg8) -> (CpuView, u8) {
    let (value, flags) = inc_8bit(s.regs.read8(r8), s.regs.f);
    (s.with_regs(RegistersView { f: flags, ..s.regs }.write8(r8, value)), 4)
}

/// Increment 8-bit registers.
///
/// Takes 4 cycles.
///
/// # Examples
///
/// ```asm
/// INC A
/// INC B
/// ```
pub fn inc_r8(cpu: &mut Cpu, r8: &Reg8) -> (cycles: u8)
    requires
        old(cpu)@.wf(),
    ensures
        (final(cpu)@, cycles) == inc_r8_step(old(cpu)@, *r8),
        final(cpu)@.wf(),
{
    let d8 = cpu.registers.read8(r8);

    let (value, flags) = alu_inc_8bit(d8, cpu.registers.f);
    cpu.registers.f = flags;

    cpu.registers.write8(r8, value);

    4
}

/// The state after and the cycles of `inc_indirect_r16`.
pub open spec fn inc_indirect_r16_step(s: CpuView, r16: Reg16) -> (CpuView, u8) {
    let addr = s.regs.read16(r16);
    let (t, d8) = s.read8(addr);
    let (value, flags) = inc_8bit(d8, t.regs.f);
    (t.with_f(flags).write8(addr, value), 12)
}

/// Increment memory using a 16-bit register as an address.
///
/// Takes 12 cycles.
///
/// # Examples
///
/// ```asm
/// INC (HL)
/// ```
pub fn inc_indirect_r16(cpu: &mut Cpu, r16: &Reg16) -> (cycles: u8)
    requires
        old(cpu)@.wf(),
    ensures
        (final(cpu)@, cycles) == inc_indirect_r16_step(old(cpu)@, *r16),
        final(cpu)@.wf(),
{
    let a16_addr = cpu.registers.read16(r16);
    let d8 = cpu.mmu.read8(a16_addr);

    let (value, flags) = alu_inc_8bit(d8, cpu.registers.f);
    cpu.registers.f = flags;

    cpu.mmu.write8(a16_addr, value);

    12
}

/// The state after and the cycles of `dec_r8`.
pub open spec fn dec_r8_step(s: CpuView, r8: Reg8) -> (CpuView, u8) {
    let (value, flags) = dec_8bit(s.regs.read8(r8), s.regs.f);
    (s.with_regs(RegistersView { f: flags, ..s.regs }.write8(r8, value)), 4)
}

/// Decrement 8-bit registers.
///
/// Takes 4 cycles.
///
/// # Examples
///
/// ```asm
/// DEC A
/// DEC B
/// ```
pub fn dec_r8(cpu: &mut Cpu, r8: &Reg8) -> (cycles: u8)
    requires
        old(cpu)@.wf(),
    ensures
        (final(cpu)@, cycles) == dec_r8_step(old(cpu)@, *r8),
        final(cpu)@.wf(),
{
    let d8 = cpu.registers.read8(r8);

    let (value, flags) = alu_dec_8bit(d8, cpu.registers.f);
    cpu.registers.f = flags;

    cpu.registers.write8(r8, value);

    4
}

/// The state after and the cycles of `dec_indirect_r16`.
pub open spec fn dec_indirect_r16_step(s: CpuView, r16: Reg16) -> (CpuView, u8) {
    let addr = s.regs.read16(r16);
    let (t, d8) = s.read8(addr);
    let (value, flags) = dec_8bit(d8, t.regs.f);
    (t.with_f(flags).write8(addr, value), 12)
}

/// Decrement memory using a 16-bit register as an address.
///
/// Takes 12 cycles.
///
/// # Examples
///
/// ```asm
/// DEC (HL)
/// ```
pub fn dec_indirect_r16(cpu: &mut Cpu, r16: &Reg16) -> (cycles: u8)
    requires
        old(cpu)@.wf(),
    ensures
        (final(cpu)@, cycles) == dec_indirect_r16_step(old(cpu)@, *r16),
        final(cpu)@.wf(),
{
    let a16_addr = cpu.registers.read16(r16);
    let d8 = cpu.mmu.read8(a16_addr);

    let (value, flags) = alu_dec_8bit(d8, cpu.registers.f);
    cpu.registers.f = flags;

    cpu.mmu.write8(a16_addr, value);

    12
}

/// SUB A,r and SBC A,r take the register, and for SBC also the incoming carry flag, from the
/// accumulator, modulo 256; no register other than A and F changes.
pub proof fn lemma_subtract_register(s: CpuView, r8: Reg8)
    ensures
        sub_r8_step(s, r8).0.regs.a as int == (s.regs.a - s.regs.read8(r8)) % 256,
        sbc_r8_step(s, r8).0.regs.a as int == (s.regs.a - s.regs.read8(r8) - (if carry_of(
            s.regs.f,
        ) {
            1int
        } else {
            0int
        })) % 256,
        (RegistersView { a: s.regs.a, f: s.regs.f, ..sub_r8_step(s, r8).0.regs }) == s.regs,
        (RegistersView { a: s.regs.a, f: s.regs.f, ..sbc_r8_step(s, r8).0.regs }) == s.regs,
        sbc_r8_step(s, r8).0.mmu == s.mmu,
{
}

/// ADD and ADC add the operand, and ADC also the incoming carry flag, to the accumulator,
/// modulo 256, whether the operand is a register, the byte after the opcode or the byte HL
/// points at.
pub proof fn lemma_add_operands(s: CpuView, r8: Reg8)
    ensures
        ({
            let c: int = if carry_of(s.regs.f) {
                1
            } else {
                0
            };
            let a = s.regs.a;
            let r = s.regs.read8(r8);
            let d = s.mmu.read(s.regs.pc);
            let m = s.mmu.read(s.regs.read16(Reg16::HL));
            &&& add_r8_step(s, r8).0.regs.a as int == (a + r) % 256
            &&& adc_r8_step(s, r8).0.regs.a as int == (a + r + c) % 256
            &&& add_d8_step(s).0.regs.a as int == (a + d) % 256
            &&& adc_d8_step(s).0.regs.a as int == (a + d + c) % 256
            &&& add_indirect_r16_step(s, Reg16::HL).0.regs.a as int == (a + m) % 256
            &&& adc_indirect_r16_step(s, Reg16::HL).0.regs.a as int == (a + m + c) % 256
        }),
{
}

/// SUB and SBC take the operand, and SBC also the incoming carry flag, from the accumulator,
/// modulo 256, whether the operand is the byte after the opcode or the byte HL points at.
pub proof fn lemma_subtract_operands(s: CpuView)
    ensures
        ({
            let c: int = if carry_of(s.regs.f) {
                1
            } else {
                0
            };
            let a = s.regs.a;
            let d = s.mmu.read(s.regs.pc);
            let m = s.mmu.read(s.regs.read16(Reg16::HL));
            &&& sub_d8_step(s).0.regs.a as int == (a - d) % 256
            &&& sbc_d8_step(s).0.regs.a as int == (a - d - c) % 256
            &&& sub_indirect_r16_step(s, Reg16::HL).0.regs.a as int == (a - m) % 256
            &&& sbc_indirect_r16_step(s, Reg16::HL).0.regs.a as int == (a - m - c) % 256
        }),
{
}

/// CP compares the accumulator with the operand and keeps the accumulator: the zero flag says
/// the two are equal and the carry flag says the accumulator is the smaller.
pub proof fn lemma_compare_operands(s: CpuView, r8: Reg8)
    ensures
        ({
            let a = s.regs.a;
            let r = s.regs.read8(r8);
            let d = s.mmu.read(s.regs.pc);
            let t = cp_r8_step(s, r8).0.regs;
            let u = cp_d8_step(s).0.regs;
            &&& t.a == a && u.a == a
            &&& zero_of(t.f) == (a == r) && carry_of(t.f) == (a < r)
            &&& zero_of(u.f) == (a == d) && carry_of(u.f) == (a < d)
            &&& (RegistersView { f: s.regs.f, ..t }) == s.regs
        }),
{
    lemma_compare_meaning(s.regs.a, s.regs.f, s.regs.read8(r8));
    lemma_compare_meaning(s.regs.a, s.regs.f, s.mmu.read(s.regs.pc));
}

/// INC r and DEC r add or take one from the register, modulo 256, keep every other 8-bit
/// register and keep the carry flag.
pub proof fn lemma_increment_decrement_register(s: CpuView, r8: Reg8, other: Reg8)
    ensures
        inc_r8_step(s, r8).0.regs.read8(r8) as int == (s.regs.read8(r8) + 1) % 256,
        dec_r8_step(s, r8).0.regs.read8(r8) as int == (s.regs.read8(r8) - 1) % 256,
        other != r8 ==> inc_r8_step(s, r8).0.regs.read8(other) == s.regs.read8(other),
        other != r8 ==> dec_r8_step(s, r8).0.regs.read8(other) == s.regs.read8(other),
        carry_of(inc_r8_step(s, r8).0.regs.f) == carry_of(s.regs.f),
        carry_of(dec_r8_step(s, r8).0.regs.f) == carry_of(s.regs.f),
        inc_r8_step(s, r8).0.regs.sp == s.regs.sp,
        dec_r8_step(s, r8).0.regs.sp == s.regs.sp,
{
    let (vi, fi) = inc_8bit(s.regs.read8(r8), s.regs.f);
    let (vd, fd) = dec_8bit(s.regs.read8(r8), s.regs.f);
    lemma_increment_decrement_meaning(s.regs.read8(r8), s.regs.f);
    crate::lameboy::cpu::registers::lemma_write8_read8(
        RegistersView { f: fi, ..s.regs },
        r8,
        other,
        vi,
    );
    crate::lameboy::cpu::registers::lemma_write8_read8(
        RegistersView { f: fd, ..s.regs },
        r8,
        other,
        vd,
    );
}

/// AND, OR and XOR of the accumulator with a register store the bitwise conjunction,
/// disjunction and exclusive disjunction in the accumulator.
pub proof fn lemma_logic_register(s: CpuView, r8: Reg8)
    ensures
        and_r8_step(s, r8).0.regs.a == s.regs.a & s.regs.read8(r8),
        or_r8_step(s, r8).0.regs.a == s.regs.a | s.regs.read8(r8),
        xor_r8_step(s, r8).0.regs.a == s.regs.a ^ s.regs.read8(r8),
{
}

} // verus!
