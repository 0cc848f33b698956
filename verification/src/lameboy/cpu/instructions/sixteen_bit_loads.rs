use crate::lameboy::cpu::instructions::stack::{pop_stack_d16, push_stack_d16};
use crate::lameboy::cpu::registers::{
    carry_of, half_carry_of, high_byte, lemma_flags, lemma_set_znhc, lemma_word_split, low_byte,
    subtract_of, with_flags, zero_of, Flags, Reg16, RegistersView,
};
use crate::lameboy::cpu::{lemma_sign_extend, sign_extend, Cpu, CpuView};
use vstd::prelude::*;

verus! {

/// The state after and the cycles of `load_r16_d16`.
pub open spec fn load_r16_d16_step(s: CpuView, r16: Reg16) -> (CpuView, u8) {
    let (t, value) = s.fetch16();
    (t.with_regs(t.regs.write16(r16, value)), 12)
}

/// Load a 16-bit value into a 16-bit register.
///
/// Takes 12 cycles.
///
/// # Examples
///
/// ```asm
/// LD SP, $FFFE
/// LD HL, $9FFF
/// ```
pub fn load_r16_d16(cpu: &mut Cpu, r16: &Reg16) -> (cycles: u8)
    requires
        old(cpu)@.wf(),
    ensures
        (final(cpu)@, cycles) == load_r16_d16_step(old(cpu)@, *r16),
        final(cpu)@.wf(),
{
    // Read 16-bit value
    let value: u16 = cpu.fetch16();

    // Write it to the register
    cpu.registers.write16(r16, value);

    12
}

/// The state after and the cycles of `load_r16_r16`.
pub open spec fn load_r16_r16_step(s: CpuView, r16_target: Reg16, r16_source: Reg16) -> (
    CpuView,
    u8,
) {
    (s.with_regs(s.regs.write16(r16_target, s.regs.read16(r16_source))), 8)
}

/// Load a 16-bit register into a 16-bit register.
///
/// Takes 8 cycles.
///
/// # Examples
///
/// ```asm
/// LD SP, HL
/// ```
pub fn load_r16_r16(cpu: &mut Cpu, r16_target: &Reg16, r16_source: &Reg16) -> (cycles: u8)
    requires
        old(cpu)@.wf(),
    ensures
        (final(cpu)@, cycles) == load_r16_r16_step(old(cpu)@, *r16_target, *r16_source),
        final(cpu)@.wf(),
{
    // Copy from source register to target register
    let value = cpu.registers.read16(r16_source);
    cpu.registers.write16(r16_target, value);

    8
}

/// The flags of adding a signed byte to the stack pointer: zero and subtract reset, half carry
/// and carry from the unsigned addition of the byte to the low nibble and the low byte of the
/// stack pointer.
pub open spec fn sp_offset_flags(flags: u8, sp: u16, d8: u8) -> u8 {
    with_flags(flags, false, false, sp % 16 + d8 % 16 > 15, sp % 256 + d8 > 255)
}

/// The state after and the cycles of `load_reg_hl_reg_sp_d8`.
pub open spec fn load_reg_hl_reg_sp_d8_step(s: CpuView) -> (CpuView, u8) {
    let (t, d8) = s.fetch8();
    let sp = t.regs.sp;
    let regs = t.regs.write16(Reg16::HL, sp.wrapping_add(sign_extend(d8)));
    (t.with_regs(RegistersView { f: sp_offset_flags(t.regs.f, sp, d8), ..regs }), 12)
}

/// Load the HL register with the value of the SP register added to an 8-bit value.
///
/// Takes 12 cycles.
///
/// # Examples
///
/// ```asm
/// LD HL, SP+d8 ; HL <- SP + d8
/// ```
pub fn load_reg_hl_reg_sp_d8(cpu: &mut Cpu) -> (cycles: u8)
    requires
        old(cpu)@.wf(),
    ensures
        (final(cpu)@, cycles) == load_reg_hl_reg_sp_d8_step(old(cpu)@),
        final(cpu)@.wf(),
{
    // Read 8-bit value
    let unsigned_value = cpu.fetch8();
    let signed_value = unsigned_value as i8;
    let sp = cpu.registers.sp;
    proof {
        lemma_sign_extend(unsigned_value);
        crate::bits::lemma_u16_arith(sp);
        crate::bits::lemma_u16_arith(unsigned_value as u16);
        crate::bits::lemma_u8_arith(unsigned_value);
    }

    let combined = sp.wrapping_add(signed_value as u16);

    cpu.registers.write16(&Reg16::HL, combined);

    let ghost f0 = cpu.registers.f@;
    let half_carry = ((sp & 0x0F) + (unsigned_value as u16 & 0x0F)) > 0x0F;
    let carry = ((sp & 0xFF) + (unsigned_value as u16 & 0xFF)) > 0xFF;
    cpu.registers.f.set(Flags::ZERO, false);
    cpu.registers.f.set(Flags::SUBTRACT, false);
    cpu.registers.f.set(Flags::HALF_CARRY, half_carry);
    cpu.registers.f.set(Flags::CARRY, carry);
    proof {
        lemma_set_znhc(f0, false, false, half_carry, carry);
    }

    12
}

/// The state after and the cycles of `load_indirect_a16_r16`.
pub open spec fn load_indirect_a16_r16_step(s: CpuView, r16: Reg16) -> (CpuView, u8) {
    let (t, addr) = s.fetch16();
    let value = t.regs.read16(r16);
    (t.write8(addr, low_byte(value)).write8((addr + 1) as u16, high_byte(value)), 20)
}

/// Load memory, using a 16-bit value as an address, with a 16-bit register value: the low byte
/// at the address, the high byte after it.
///
/// Takes 20 cycles.
///
/// # Examples
///
/// ```asm
/// LD ($8000), SP ; memory[0x8000] <- SP
/// ```
pub fn load_indirect_a16_r16(cpu: &mut Cpu, r16_source: &Reg16) -> (cycles: u8)
    requires
        old(cpu)@.wf(),
        old(cpu)@.fetch16().1 != 0xFFFF,
    ensures
        (final(cpu)@, cycles) == load_indirect_a16_r16_step(old(cpu)@, *r16_source),
        final(cpu)@.wf(),
{
    // Read 16-bit address
    let a16_addr = cpu.fetch16();

    // Split 16-bit register to low/high
    let r16_value = cpu.registers.read16(r16_source);
    proof {
        crate::bits::lemma_u16_arith(r16_value);
        lemma_word_split(r16_value);
    }
    let r16_high = ((r16_value & 0xFF00) >> 8) as u8;
    let r16_low = (r16_value & 0x00FF) as u8;

    // Write the two bytes to memory
    cpu.mmu.write8(a16_addr, r16_low);
    cpu.mmu.write8(a16_addr + 1, r16_high);

    20
}

/// The state after and the cycles of `push_r16`.
pub open spec fn push_r16_step(s: CpuView, r16: Reg16) -> (CpuView, u8) {
    (s.push16(s.regs.read16(r16)), 16)
}

/// Push a 16-bit register to the stack.
///
/// Takes 16 cycles.
///
/// # Examples
///
/// ```asm
/// PUSH BC ; STACK <<- BC
/// ```
pub fn push_r16(cpu: &mut Cpu, r16: &Reg16) -> (cycles: u8)
    requires
        old(cpu)@.wf(),
    ensures
        (final(cpu)@, cycles) == push_r16_step(old(cpu)@, *r16),
        final(cpu)@.wf(),
{
    let value = cpu.registers.read16(r16);
    push_stack_d16(cpu, value);

    16
}

/// The state after and the cycles of `pop_r16`.
pub open spec fn pop_r16_step(s: CpuView, r16: Reg16) -> (CpuView, u8) {
    let (t, value) = s.pop16();
    (t.with_regs(t.regs.write16(r16, value)), 12)
}

/// Pop the contents of the stack into a 16-bit register.
///
/// Takes 12 cycles.
///
/// # Examples
///
/// ```asm
/// POP BC ; BC <<- STACK
/// ```
pub fn pop_r16(cpu: &mut Cpu, r16: &Reg16) -> (cycles: u8)
    requires
        old(cpu)@.wf(),
    ensures
        (final(cpu)@, cycles) == pop_r16_step(old(cpu)@, *r16),
        final(cpu)@.wf(),
{
    let value = pop_stack_d16(cpu);
    cpu.registers.write16(r16, value);

    12
}

/// LD HL,SP+e adds to the stack pointer the operand byte read as a signed value (-128 to 127),
/// modulo 65536, and stores the sum in HL; the stack pointer stays, the program counter moves
/// past the operand, and A, B, C, D and E keep their values.
pub proof fn lemma_load_hl_sp_offset(s: CpuView)
    ensures
        ({
            let e = s.mmu.read(s.regs.pc);
            let offset: int = if e < 128 {
                e as int
            } else {
                e - 256
            };
            let t = load_reg_hl_reg_sp_d8_step(s).0.regs;
            &&& t.read16(Reg16::HL) as int == (s.regs.sp + offset) % 65536
            &&& t.sp == s.regs.sp
            &&& t.pc == s.regs.pc.wrapping_add(1)
            &&& t.a == s.regs.a && t.b == s.regs.b && t.c == s.regs.c
            &&& t.d == s.regs.d && t.e == s.regs.e
        }),
{
    let (t, d8) = s.fetch8();
    let v = t.regs.sp.wrapping_add(sign_extend(d8));
    crate::lameboy::cpu::registers::lemma_write16_read16(t.regs, Reg16::HL, v);
}

/// The flags of adding a signed byte to the stack pointer (ADD SP,e and LD HL,SP+e): zero and
/// subtract clear, half carry when the low nibbles of SP and the byte overflow, carry when the
/// low byte of SP and the byte overflow.
pub proof fn lemma_sp_offset_flags(flags: u8, sp: u16, e: u8)
    ensures
        !zero_of(sp_offset_flags(flags, sp, e)),
        !subtract_of(sp_offset_flags(flags, sp, e)),
        half_carry_of(sp_offset_flags(flags, sp, e)) == ((sp & 0xF) + (e & 0xF) > 0xF),
        carry_of(sp_offset_flags(flags, sp, e)) == ((sp & 0xFF) + e > 0xFF),
{
    lemma_flags(flags, false, false, sp % 16 + e % 16 > 15, sp % 256 + e > 255, false);
    assert((sp & 0xF) == sp % 16 && (sp & 0xFF) == sp % 256 && (e & 0xF) == e % 16)
        by (bit_vector);
}

} // verus!
