use crate::lameboy::cpu::instructions::stack::push_stack_d16;
use crate::lameboy::cpu::{Cpu, CpuView};
use vstd::prelude::*;

verus! {

/// The zero page address a restart opcode jumps to: bits 5 to 3 of the opcode, times eight.
pub open spec fn restart_target(opcode: u8) -> u16 {
    (((opcode / 8) % 8) * 8) as u16
}

/// The state after and the cycles of `restart`.
pub open spec fn restart_step(s: CpuView, opcode: u8) -> (CpuView, u8) {
    (s.push16(s.regs.pc).with_pc(restart_target(opcode)), 16)
}

/// Push the current PC to the stack and then jump to one of 8 positions in the zero page.
///
/// Takes 16 cycles.
///
/// # Examples
///
/// ```asm
/// RST 1 ; STACK <<- PC; PC <- 0x0008
/// ```
pub fn restart(cpu: &mut Cpu, opcode: u8) -> (cycles: u8)
    requires
        old(cpu)@.wf(),
    ensures
        (final(cpu)@, cycles) == restart_step(old(cpu)@, opcode),
        final(cpu)@.wf(),
{
    // Push current PC to the stack
    let current_pc = cpu.registers.pc;
    push_stack_d16(cpu, current_pc);

    // Derive target address from opcode bits
    proof {
        crate::bits::lemma_opcode_fields(opcode);
    }
    let jump_target = opcode & 0b0011_1000;

    // Jump PC to the target address
    cpu.registers.pc = u16::from(jump_target);

    16
}

} // verus!
