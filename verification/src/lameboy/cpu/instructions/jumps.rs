use crate::lameboy::cpu::instructions::{condition_holds, opcode_flag_test};
use crate::lameboy::cpu::registers::Reg16;
use crate::lameboy::cpu::{lemma_sign_extend, sign_extend, Cpu, CpuView};
use vstd::prelude::*;

verus! {

/// The state after and the cycles of `jump_d16`.
pub open spec fn jump_d16_step(s: CpuView) -> (CpuView, u8) {
    let (t, target) = s.fetch16();
    (t.with_pc(target), 16)
}

/// Jump to a different address using 16-bit data as an address.
///
/// Takes 16 cycles.
///
/// # Examples
///
/// ```asm
/// JP $0150 ; PC <- 0x0150
/// ```
pub fn jump_d16(cpu: &mut Cpu) -> (cycles: u8)
    requires
        old(cpu)@.wf(),
    ensures
        (final(cpu)@, cycles) == jump_d16_step(old(cpu)@),
        final(cpu)@.wf(),
{
    // Read 16-bit jump target address
    let jump_target = cpu.fetch16();

    // Jump PC to that target address
    cpu.registers.pc = jump_target;

    16
}

/// The state after and the cycles of `jump_conditional_d16`.
pub open spec fn jump_conditional_d16_step(s: CpuView, opcode: u8) -> (CpuView, u8) {
    let (t, target) = s.fetch16();
    if condition_holds(opcode, t.regs.f) {
        (t.with_pc(target), 16)
    } else {
        (t, 12)
    }
}

/// Jump to a different address using 16-bit data as an address if a given flag status condition
/// matches.
///
/// Takes 16 cycles if condition matches, 12 if it doesn't match.
///
/// # Examples
///
/// ```asm
/// JP NZ $0150 ; IF !Flags::ZERO { PC <- 0x0150 }
/// ```
pub fn jump_conditional_d16(cpu: &mut Cpu, opcode: u8) -> (cycles: u8)
    requires
        old(cpu)@.wf(),
    ensures
        (final(cpu)@, cycles) == jump_conditional_d16_step(old(cpu)@, opcode),
        final(cpu)@.wf(),
{
    // Read 16-bit jump target address
    let jump_target = cpu.fetch16();

    // Test if the condition matches and if we need to jump
    if opcode_flag_test(opcode, cpu.registers.f) {
        // Jump PC to that target address
        cpu.registers.pc = jump_target;

        16
    } else {
        12
    }
}

/// The state after and the cycles of `jump_r16`.
pub open spec fn jump_r16_step(s: CpuView, r16: Reg16) -> (CpuView, u8) {
    (s.with_pc(s.regs.read16(r16)), 4)
}

/// Jump to a different address using 16-bit register as an address.
///
/// Takes 4 cycles.
///
/// # Examples
///
/// ```asm
/// JP (HL) ; PC <- HL
/// ```
pub fn jump_r16(cpu: &mut Cpu, r16: &Reg16) -> (cycles: u8)
    requires
        old(cpu)@.wf(),
    ensures
        (final(cpu)@, cycles) == jump_r16_step(old(cpu)@, *r16),
        final(cpu)@.wf(),
{
    // Set PC to whatever the 16-bit register is
    cpu.registers.pc = cpu.registers.read16(r16);

    4
}

/// The state after and the cycles of `jump_relative_d8`.
pub open spec fn jump_relative_d8_step(s: CpuView) -> (CpuView, u8) {
    let (t, offset) = s.fetch8();
    (t.with_pc(t.regs.pc.wrapping_add(sign_extend(offset))), 12)
}

/// Jump to a different relative address by adding the signed 8-bit operand to the current PC
/// register.
///
/// Takes 12 cycles.
///
/// # Examples
///
/// ```asm
/// JR $DA ; PC <- PC + 0xDA
/// ```
pub fn jump_relative_d8(cpu: &mut Cpu) -> (cycles: u8)
    requires
        old(cpu)@.wf(),
    ensures
        (final(cpu)@, cycles) == jump_relative_d8_step(old(cpu)@),
        final(cpu)@.wf(),
{
    // Read signed 8-bit jump offset
    let offset = cpu.fetch8();
    proof {
        lemma_sign_extend(offset);
    }
    let jump_offset: i8 = offset as i8;

    // Jump PC to that target address
    cpu.registers.pc = cpu.registers.pc.wrapping_add(jump_offset as u16);

    12
}

/// The state after and the cycles of `jump_relative_conditional_d8`.
pub open spec fn jump_relative_conditional_d8_step(s: CpuView, opcode: u8) -> (CpuView, u8) {
    let (t, offset) = s.fetch8();
    if condition_holds(opcode, t.regs.f) {
        (t.with_pc(t.regs.pc.wrapping_add(sign_extend(offset))), 12)
    } else {
        (t, 8)
    }
}

/// Jump to a different relative address by adding the signed 8-bit operand to the current PC
/// register if a given flag status condition matches.
///
/// Takes 12 cycles if condition matches, 8 if it doesn't match.
///
/// # Examples
///
/// ```asm
/// JR NZ $DA ; IF !Flags::ZERO { PC <- PC + $DA }
/// ```
pub fn jump_relative_conditional_d8(cpu: &mut Cpu, opcode: u8) -> (cycles: u8)
    requires
        old(cpu)@.wf(),
    ensures
        (final(cpu)@, cycles) == jump_relative_conditional_d8_step(old(cpu)@, opcode),
        final(cpu)@.wf(),
{
    // Read signed 8-bit jump offset
    let offset = cpu.fetch8();
    proof {
        lemma_sign_extend(offset);
    }
    let jump_offset: i8 = offset as i8;

    // Test if the condition matches and if we need to jump
    if opcode_flag_test(opcode, cpu.registers.f) {
        // Jump PC to that target address
        cpu.registers.pc = cpu.registers.pc.wrapping_add(jump_offset as u16);

        12
    } else {
        8
    }
}

/// JP a16 jumps to the little-endian address in the two bytes after the opcode; JR e jumps
/// from the address after its operand by the operand read as a signed byte (-128 to 127),
/// modulo 65536. Neither changes a register other than the program counter.
pub proof fn lemma_jump_targets(s: CpuView)
    ensures
        ({
            let low = s.mmu.read(s.regs.pc);
            let high = s.mmu.read(s.regs.pc.wrapping_add(1));
            let e = s.mmu.read(s.regs.pc);
            let offset: int = if e < 128 {
                e as int
            } else {
                e - 256
            };
            let j = jump_d16_step(s).0.regs;
            let r = jump_relative_d8_step(s).0.regs;
            &&& j.pc == high * 256 + low
            &&& r.pc as int == (s.regs.pc + 1 + offset) % 65536
            &&& (crate::lameboy::cpu::registers::RegistersView { pc: s.regs.pc, ..j }) == s.regs
            &&& (crate::lameboy::cpu::registers::RegistersView { pc: s.regs.pc, ..r }) == s.regs
        }),
{
    crate::lameboy::mmu::lemma_touch_keeps_memory(s.mmu, s.regs.pc, s.regs.pc.wrapping_add(1));
}

} // verus!
