use crate::lameboy::cpu::instructions::{
    bit_index_from_opcode, opcode_register, register_from_opcode,
};
use crate::lameboy::cpu::registers::{
    carry_of, lemma_set_znh, with_flags, Flags, Reg16, Reg8, Register,
};
use crate::lameboy::cpu::{Cpu, CpuView};
use vstd::prelude::*;

verus! {

/// The byte a bit opcode works on, the state after reading it, and the cycles the instruction
/// takes: 8 for a register, 16 for the memory HL points at.
pub open spec fn bit_operand(s: CpuView, opcode: u8) -> (CpuView, u8, u8) {
    match opcode_register(opcode) {
        Register::Reg8(r8) => (s, s.regs.read8(r8), 8),
        Register::Reg16(r16) => {
            let (t, value) = s.read8(s.regs.read16(r16));
            (t, value, 16)
        },
    }
}

/// The state after and the cycles of `bit_test`: zero is set when the selected bit is clear,
/// subtract is reset, half carry is set and carry is kept.
pub open spec fn bit_test_step(s: CpuView, opcode: u8) -> (CpuView, u8) {
    let (t, value, cycles) = bit_operand(s, opcode);
    let bit_clear = value & (1u8 << ((opcode / 8) % 8) as u8) == 0;
    (t.with_f(with_flags(t.regs.f, bit_clear, false, true, carry_of(t.regs.f))), cycles)
}

/// Put the complement of an 8-bit values single bit into the Flags::ZERO flag.
///
/// Takes 8 cycles unless operating on an indirectly addressed value, then 16 cycles.
///
/// # Examples
///
/// ```asm
/// BIT 4, B  ; Flag::ZERO = (B & 0x01 << 4)
/// ```
pub fn bit_test(cpu: &mut Cpu, opcode: u8) -> (cycles: u8)
    requires
        old(cpu)@.wf(),
    ensures
        (final(cpu)@, cycles) == bit_test_step(old(cpu)@, opcode),
        final(cpu)@.wf(),
{
    let bit_index = bit_index_from_opcode(opcode);

    let (value, duration) = match register_from_opcode(opcode) {
        Register::Reg8(r8) => (cpu.registers.read8(&r8), 8),
        Register::Reg16(r16) => {
            let addr = cpu.registers.read16(&r16);
            (cpu.mmu.read8(addr), 16)
        },
    };

    let tested_value = value & (0x01 << bit_index);

    let ghost f0 = cpu.registers.f@;
    cpu.registers.f.set(Flags::ZERO, tested_value == 0);
    cpu.registers.f.set(Flags::SUBTRACT, false);
    cpu.registers.f.set(Flags::HALF_CARRY, true);
    proof {
        lemma_set_znh(f0, tested_value == 0, false, true);
    }

    duration
}

/// A byte with the bit at `index` set, or reset.
pub open spec fn assign_bit(value: u8, index: u8, set_bit: bool) -> u8 {
    if set_bit {
        value | (1u8 << index)
    } else {
        value & !(1u8 << index)
    }
}

/// The state after and the cycles of `bit_assign`.
pub open spec fn bit_assign_step(s: CpuView, opcode: u8, set_bit: bool) -> (CpuView, u8) {
    let (t, value, cycles) = bit_operand(s, opcode);
    let result = assign_bit(value, ((opcode / 8) % 8) as u8, set_bit);
    match opcode_register(opcode) {
        Register::Reg8(r8) => (t.with_regs(t.regs.write8(r8, result)), cycles),
        Register::Reg16(r16) => (t.write8(t.regs.read16(r16), result), cycles),
    }
}

/// Set, or reset, an individual bit in an 8-bit value.
///
/// Takes 8 cycles unless operating on an indirectly addressed value, then 16 cycles.
///
/// # Examples
///
/// ```asm
/// SET 4, B  ; B = (B | 0x01 << 4)
/// RES 4, B  ; B = (B & 0x01 << 4)
/// ```
pub fn bit_assign(cpu: &mut Cpu, opcode: u8, set_bit: bool) -> (cycles: u8)
    requires
        old(cpu)@.wf(),
    ensures
        (final(cpu)@, cycles) == bit_assign_step(old(cpu)@, opcode, set_bit),
        final(cpu)@.wf(),
{
    let bit_index = bit_index_from_opcode(opcode);

    let (mut value, duration) = match register_from_opcode(opcode) {
        Register::Reg8(r8) => (cpu.registers.read8(&r8), 8),
        Register::Reg16(r16) => {
            let addr = cpu.registers.read16(&r16);
            (cpu.mmu.read8(addr), 16)
        },
    };

    if set_bit {
        value |= 0x01 << bit_index;
    } else {
        value &= !(0x01 << bit_index);
    }

    match register_from_opcode(opcode) {
        Register::Reg8(r8) => cpu.registers.write8(&r8, value),
        Register::Reg16(r16) => {
            let addr = cpu.registers.read16(&r16);
            cpu.mmu.write8(addr, value)
        },
    };

    duration
}

/// RES b clears bit b of a byte and SET b sets it; every other bit keeps its value.
pub proof fn lemma_assign_bit(value: u8, index: u8, j: u8)
    by (bit_vector)
    requires
        index < 8,
        j < 8,
    ensures
        (assign_bit(value, index, false) >> j) & 1 == (if j == index {
            0u8
        } else {
            (value >> j) & 1
        }),
        (assign_bit(value, index, true) >> j) & 1 == (if j == index {
            1u8
        } else {
            (value >> j) & 1
        }),
{
}

/// RES b,r and SET b,r on a register operand (opcodes 0x80 to 0xFF, register from bits 2 to 0,
/// bit from bits 5 to 3): the register's bit b ends clear (RES) or set (SET), its other bits
/// and every other 8-bit register keep their values, and the flags are untouched.
pub proof fn lemma_assign_bit_register(s: CpuView, opcode: u8, set_bit: bool, j: u8)
    requires
        j < 8,
    ensures
        opcode_register(opcode) matches Register::Reg8(r8) ==> {
            let t = bit_assign_step(s, opcode, set_bit).0.regs;
            let index = (opcode / 8) % 8;
            &&& (t.read8(r8) >> j) & 1 == (if j == index {
                if set_bit {
                    1u8
                } else {
                    0u8
                }
            } else {
                (s.regs.read8(r8) >> j) & 1
            })
            &&& forall|other: Reg8| other != r8 ==> #[trigger] t.read8(other) == s.regs.read8(other)
            &&& t.f == s.regs.f
            &&& t.sp == s.regs.sp
            &&& t.pc == s.regs.pc
        },
{
    if let Register::Reg8(r8) = opcode_register(opcode) {
        let index = ((opcode / 8) % 8) as u8;
        lemma_assign_bit(s.regs.read8(r8), index, j);
        let result = assign_bit(s.regs.read8(r8), index, set_bit);
        crate::lameboy::cpu::registers::lemma_write8_read8(s.regs, r8, r8, result);
        assert forall|other: Reg8| other != r8 implies #[trigger] s.regs.write8(r8, result).read8(
            other,
        ) == s.regs.read8(other) by {
            crate::lameboy::cpu::registers::lemma_write8_read8(s.regs, r8, other, result);
        }
    }
}

/// BIT b,r (opcodes 0x40 to 0x7F on a register operand) sets the zero flag exactly when bit b
/// of the register is clear, clears subtract, sets half carry, keeps carry and changes no
/// register but F.
pub proof fn lemma_bit_test_register(s: CpuView, opcode: u8)
    ensures
        opcode_register(opcode) matches Register::Reg8(r8) ==> {
            let t = bit_test_step(s, opcode).0.regs;
            let index = ((opcode / 8) % 8) as u8;
            &&& crate::lameboy::cpu::registers::zero_of(t.f) == ((s.regs.read8(r8) >> index) & 1
                == 0)
            &&& !crate::lameboy::cpu::registers::subtract_of(t.f)
            &&& crate::lameboy::cpu::registers::half_carry_of(t.f)
            &&& carry_of(t.f) == carry_of(s.regs.f)
            &&& (crate::lameboy::cpu::registers::RegistersView { f: s.regs.f, ..t }) == s.regs
        },
{
    if let Register::Reg8(r8) = opcode_register(opcode) {
        let index = ((opcode / 8) % 8) as u8;
        let value = s.regs.read8(r8);
        assert((value & (1u8 << index) == 0) == ((value >> index) & 1 == 0)) by (bit_vector)
            requires
                index < 8,
        ;
        crate::lameboy::cpu::registers::lemma_flags(
            s.regs.f,
            value & (1u8 << index) == 0,
            false,
            true,
            carry_of(s.regs.f),
            false,
        );
    }
}

/// RES b,(HL) and SET b,(HL) on memory that reads back: the byte HL points at ends with bit b
/// clear (RES) or set (SET) and its other bits as they were; the registers keep their values.
pub proof fn lemma_assign_bit_memory(s: CpuView, opcode: u8, set_bit: bool, j: u8)
    requires
        s.wf(),
        opcode % 8 == 6,
        crate::lameboy::mmu::ram_address(s.regs.read16(Reg16::HL)),
        j < 8,
    ensures
        ({
            let hl = s.regs.read16(Reg16::HL);
            let t = bit_assign_step(s, opcode, set_bit).0;
            let index = (opcode / 8) % 8;
            &&& (t.mmu.read(hl) >> j) & 1 == (if j == index {
                if set_bit {
                    1u8
                } else {
                    0u8
                }
            } else {
                (s.mmu.read(hl) >> j) & 1
            })
            &&& t.regs == s.regs
        }),
{
    let hl = s.regs.read16(Reg16::HL);
    let index = ((opcode / 8) % 8) as u8;
    let value = s.mmu.read(hl);
    let result = assign_bit(value, index, set_bit);
    lemma_assign_bit(value, index, j);
    crate::lameboy::mmu::lemma_touch_keeps_memory(s.mmu, hl, hl);
    crate::lameboy::mmu::lemma_write_then_read(s.mmu.touch(hl), hl, result);
}

} // verus!
