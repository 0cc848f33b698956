use crate::lameboy::cpu::instructions::stack::push_stack_d16;
use crate::lameboy::cpu::instructions::{condition_holds, opcode_flag_test};
use crate::lameboy::cpu::{Cpu, CpuView};
use vstd::prelude::*;

verus! {

/// The state after and the cycles of `call_d16`.
pub open spec fn call_d16_step(s: CpuView) -> (CpuView, u8) {
    let (t, target) = s.fetch16();
    (t.push16(t.regs.pc).with_pc(target), 24)
}

/// Jump to a different address using 16-bit data as an address after first pushing the current PC
/// to the stack.
///
/// Takes 24 cycles.
///
/// # Examples
///
/// ```asm
/// CALL $0150 ; STACK <<- PC; PC <- 0x0150
/// ```
pub fn call_d16(cpu: &mut Cpu) -> (cycles: u8)
    requires
        old(cpu)@.wf(),
    ensures
        (final(cpu)@, cycles) == call_d16_step(old(cpu)@),
        final(cpu)@.wf(),
{
    // Read 16-bit jump target address
    let jump_target = cpu.fetch16();

    // Push current PC to the stack
    let current_pc = cpu.registers.pc;
    push_stack_d16(cpu, current_pc);

    // Jump PC to the target address
    cpu.registers.pc = jump_target;

    24
}

/// The state after and the cycles of `call_conditional_d16`.
pub open spec fn call_conditional_d16_step(s: CpuView, opcode: u8) -> (CpuView, u8) {
    let (t, target) = s.fetch16();
    if condition_holds(opcode, t.regs.f) {
        (t.push16(t.regs.pc).with_pc(target), 24)
    } else {
        (t, 12)
    }
}

/// Jump to a different address using 16-bit data as an address after first pushing the current PC
/// to the stack if a given flag status condition matches.
///
/// Takes 24 cycles if condition matches, 12 cycles if it doesn't match.
///
/// # Examples
///
/// ```asm
/// CALL NZ $0150 ; IF !Flags::ZERO { STACK <<- PC; PC <- 0x0150 }
/// ```
pub fn call_conditional_d16(cpu: &mut Cpu, opcode: u8) -> (cycles: u8)
    requires
        old(cpu)@.wf(),
    ensures
        (final(cpu)@, cycles) == call_conditional_d16_step(old(cpu)@, opcode),
        final(cpu)@.wf(),
{
    // Read 16-bit jump target address
    let jump_target = cpu.fetch16();

    if opcode_flag_test(opcode, cpu.registers.f) {
        // Push current PC to the stack
        let current_pc = cpu.registers.pc;
        push_stack_d16(cpu, current_pc);

        // Jump PC to the target address
        cpu.registers.pc = jump_target;

        24
    } else {
        12
    }
}

/// The state after and the cycles of `call_interrupt`.
pub open spec fn call_interrupt_step(s: CpuView, addr: u16) -> (CpuView, u8) {
    let t = CpuView { ime: false, ..s };
    (t.push16(t.regs.pc).with_pc(addr), 12)
}

/// Called internally by the CPU to jump to a different address using 16-bit interrupt handler
/// address after first pushing the current PC.
///
/// Takes 12 cycles.
pub fn call_interrupt(cpu: &mut Cpu, addr: u16) -> (cycles: u8)
    requires
        old(cpu)@.wf(),
    ensures
        (final(cpu)@, cycles) == call_interrupt_step(old(cpu)@, addr),
        final(cpu)@.wf(),
{
    // Disable further interrupts
    cpu.ime = false;

    // Save current PC on the stack
    let current_pc = cpu.registers.pc;
    push_stack_d16(cpu, current_pc);

    // Jump to handler
    cpu.registers.pc = addr;

    12
}

} // verus!
