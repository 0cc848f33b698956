use crate::lameboy::cpu::instructions::calls::call_d16_step;
use crate::lameboy::cpu::instructions::stack::{lemma_push_pop, pop_stack_d16, stack_cells_hold};
use crate::lameboy::cpu::instructions::{condition_holds, opcode_flag_test};
use crate::lameboy::cpu::{Cpu, CpuView};
use vstd::prelude::*;

verus! {

/// The state after and the cycles of `ret`.
pub open spec fn ret_step(s: CpuView) -> (CpuView, u8) {
    let (t, target) = s.pop16();
    (t.with_pc(target), 16)
}

/// Return to an address that was pushed to the stack.
///
/// Takes 16 cycles.
///
/// # Examples
///
/// ```asm
/// RET ; PC <<- STACK;
/// ```
pub fn ret(cpu: &mut Cpu) -> (cycles: u8)
    requires
        old(cpu)@.wf(),
    ensures
        (final(cpu)@, cycles) == ret_step(old(cpu)@),
        final(cpu)@.wf(),
{
    // Read 16-bit jump target address
    let jump_target: u16 = pop_stack_d16(cpu);

    // Jump PC to the target address
    cpu.registers.pc = jump_target;

    16
}

/// The state after and the cycles of `ret_conditional`.
pub open spec fn ret_conditional_step(s: CpuView, opcode: u8) -> (CpuView, u8) {
    if condition_holds(opcode, s.regs.f) {
        (ret_step(s).0, 20)
    } else {
        (s, 8)
    }
}

/// Return to an address that was pushed to the stack if a given flag status condition matches.
///
/// Takes 20 cycles if condition matches, 8 cycles if it doesn't match.
///
/// # Examples
///
/// ```asm
/// RET NZ ; IF !Flags::ZERO { PC <<- STACK }
/// ```
pub fn ret_conditional(cpu: &mut Cpu, opcode: u8) -> (cycles: u8)
    requires
        old(cpu)@.wf(),
    ensures
        (final(cpu)@, cycles) == ret_conditional_step(old(cpu)@, opcode),
        final(cpu)@.wf(),
{
    if opcode_flag_test(opcode, cpu.registers.f) {
        ret(cpu);

        20
    } else {
        8
    }
}

/// The state after and the cycles of `ret_interrupt`.
pub open spec fn ret_interrupt_step(s: CpuView) -> (CpuView, u8) {
    ret_step(CpuView { ime: true, ..s })
}

/// Return to an address that was pushed to the stack.
/// Enables the master interrupt flag.
///
/// Takes 16 cycles.
///
/// # Examples
///
/// ```asm
/// RETI ; PC <<- STACK; ime == true
/// ```
pub fn ret_interrupt(cpu: &mut Cpu) -> (cycles: u8)
    requires
        old(cpu)@.wf(),
    ensures
        (final(cpu)@, cycles) == ret_interrupt_step(old(cpu)@),
        final(cpu)@.wf(),
{
    cpu.ime = true;

    ret(cpu)
}


/// RET after CALL comes back to the instruction after the CALL, with the stack pointer where it
/// was, when the two stack cells below the stack pointer are memory that reads back.
pub proof fn lemma_call_then_ret(s: CpuView)
    requires
        s.wf(),
        stack_cells_hold(s),
    ensures
        ret_step(call_d16_step(s).0).0.regs.pc == s.fetch16().0.regs.pc,
        ret_step(call_d16_step(s).0).0.regs.sp == s.regs.sp,
{
    let (t, target) = s.fetch16();
    assert(t.regs.sp == s.regs.sp && t.wf());
    lemma_push_pop(t, t.regs.pc);
    let pushed = t.push16(t.regs.pc);
    assert(pushed.with_pc(target).pop16().1 == pushed.pop16().1);
    assert(pushed.with_pc(target).pop16().0.regs.sp == pushed.pop16().0.regs.sp);
}

} // verus!
