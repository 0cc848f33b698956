use crate::lameboy::cpu::registers::{high_byte, lemma_word_join, lemma_word_split, low_byte};
use crate::lameboy::mmu::{
    lemma_touch_keeps_memory, lemma_write_keeps_others, lemma_write_then_read, ram_address,
    same_cell,
};
use crate::lameboy::cpu::{Cpu, CpuView};
use vstd::prelude::*;

verus! {

/// The stack cells a push of a word writes: the two bytes below the stack pointer.
pub open spec fn stack_cells_hold(s: CpuView) -> bool {
    &&& ram_address(s.regs.sp.wrapping_sub(1))
    &&& ram_address(s.regs.sp.wrapping_sub(2))
}

/// Popping a word gives back the word pushed, and the stack pointer where it was, when the two
/// stack cells are memory that reads back.
pub proof fn lemma_push_pop(s: CpuView, value: u16)
    requires
        s.wf(),
        stack_cells_hold(s),
    ensures
        s.push16(value).pop16().1 == value,
        s.push16(value).pop16().0.regs == s.regs,
        s.push16(value).pop16().0.wf(),
{
    let high_addr = s.regs.sp.wrapping_sub(1);
    let low_addr = s.regs.sp.wrapping_sub(2);
    let s1 = s.push8(high_byte(value));
    let s2 = s1.push8(low_byte(value));
    assert(s1.mmu == s.mmu.write(high_addr, high_byte(value)));
    lemma_write_then_read(s.mmu, high_addr, high_byte(value));
    assert(s2.mmu == s1.mmu.write(low_addr, low_byte(value)));
    lemma_write_then_read(s1.mmu, low_addr, low_byte(value));
    assert(!same_cell(low_addr, high_addr));
    lemma_write_keeps_others(s1.mmu, low_addr, high_addr, low_byte(value));
    let (s3, low) = s2.pop8();
    assert(low == low_byte(value));
    lemma_touch_keeps_memory(s2.mmu, low_addr, high_addr);
    let (s4, high) = s3.pop8();
    assert(high == high_byte(value));
    lemma_touch_keeps_memory(s3.mmu, high_addr, high_addr);
    lemma_word_split(value);
    crate::bits::lemma_u16_high_low(value);
}

/// Push an 8-bit value to the stack.
/// Decrements the stack pointer and then writes the 8-bit value using the new stack pointer value.
pub fn push_stack_d8(cpu: &mut Cpu, d8: u8)
    requires
        old(cpu)@.wf(),
    ensures
        final(cpu)@ == old(cpu)@.push8(d8),
        final(cpu)@.wf(),
{
    // Decrement stack pointer
    cpu.registers.sp = cpu.registers.sp.wrapping_sub(1);

    // Write byte to stack
    cpu.mmu.write8(cpu.registers.sp, d8);
}

/// Push a 16-bit value to the stack.
/// Pushing the high byte of the value first, then the low byte.
pub fn push_stack_d16(cpu: &mut Cpu, d16: u16)
    requires
        old(cpu)@.wf(),
    ensures
        final(cpu)@ == old(cpu)@.push16(d16),
        final(cpu)@.wf(),
{
    proof {
        lemma_word_split(d16);
        crate::bits::lemma_u16_arith(d16);
    }
    // Write high byte
    push_stack_d8(cpu, ((d16 >> 8) & 0xFF) as u8);
    // Write low byte
    push_stack_d8(cpu, (d16 & 0xFF) as u8);
}

/// Pop an 8-bit value off the stack.
/// Reads the 8-bit value the stack pointer points at and then increments the stack pointer.
pub fn pop_stack_d8(cpu: &mut Cpu) -> (value: u8)
    requires
        old(cpu)@.wf(),
    ensures
        (final(cpu)@, value) == old(cpu)@.pop8(),
        final(cpu)@.wf(),
{
    // Read byte from stack
    let value = cpu.mmu.read8(cpu.registers.sp);

    // Increment stack pointer
    cpu.registers.sp = cpu.registers.sp.wrapping_add(1);

    value
}

/// Pop a 16-bit value off the stack.
/// Popping the low byte of the value first, then the high byte.
pub fn pop_stack_d16(cpu: &mut Cpu) -> (value: u16)
    requires
        old(cpu)@.wf(),
    ensures
        (final(cpu)@, value) == old(cpu)@.pop16(),
        final(cpu)@.wf(),
{
    let mut value: u16;
    // Pop low byte
    let low = pop_stack_d8(cpu);
    value = u16::from(low);
    // Pop high byte
    let high = pop_stack_d8(cpu);
    proof {
        lemma_word_join(high, low);
    }
    value |= (u16::from(high)) << 8;

    value
}

} // verus!
