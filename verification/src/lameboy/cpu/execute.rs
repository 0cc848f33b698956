use crate::lameboy::cpu::instructions::bit_opcodes::{
    bit_assign, bit_assign_step, bit_test, bit_test_step,
};
use crate::lameboy::cpu::instructions::calls::{
    call_conditional_d16, call_conditional_d16_step, call_d16, call_d16_step,
};
use crate::lameboy::cpu::instructions::eight_bit_alu::{
    adc_d8, adc_d8_step, adc_indirect_r16, adc_indirect_r16_step, adc_r8, adc_r8_step, add_d8,
    add_d8_step, add_indirect_r16, add_indirect_r16_step, add_r8, add_r8_step, and_d8, and_d8_step,
    and_indirect_r16, and_indirect_r16_step, and_r8, and_r8_step, cp_d8, cp_d8_step,
    cp_indirect_r16, cp_indirect_r16_step, cp_r8, cp_r8_step, dec_indirect_r16,
    dec_indirect_r16_step, dec_r8, dec_r8_step, inc_indirect_r16, inc_indirect_r16_step, inc_r8,
    inc_r8_step, or_d8, or_d8_step, or_indirect_r16, or_indirect_r16_step, or_r8, or_r8_step,
    sbc_d8, sbc_d8_step, sbc_indirect_r16, sbc_indirect_r16_step, sbc_r8, sbc_r8_step, sub_d8,
    sub_d8_step, sub_indirect_r16, sub_indirect_r16_step, sub_r8, sub_r8_step, xor_d8, xor_d8_step,
    xor_indirect_r16, xor_indirect_r16_step, xor_r8, xor_r8_step,
};
use crate::lameboy::cpu::instructions::eight_bit_loads::{
    load_a16_reg_a, load_a16_reg_a_step, load_high_mem_d8_reg_a, load_high_mem_d8_reg_a_step,
    load_high_mem_reg_c_reg_a, load_high_mem_reg_c_reg_a_step, load_indirect_r16_d8,
    load_indirect_r16_d8_step, load_indirect_r16_decrement_r8, load_indirect_r16_decrement_r8_step,
    load_indirect_r16_increment_r8, load_indirect_r16_increment_r8_step, load_indirect_r16_r8,
    load_indirect_r16_r8_step, load_r8_d8, load_r8_d8_step, load_r8_indirect_r16,
    load_r8_indirect_r16_decrement, load_r8_indirect_r16_decrement_step,
    load_r8_indirect_r16_increment, load_r8_indirect_r16_increment_step, load_r8_indirect_r16_step,
    load_r8_r8, load_r8_r8_step, load_reg_a_a16, load_reg_a_a16_step, load_reg_a_high_mem_d8,
    load_reg_a_high_mem_d8_step, load_reg_a_high_mem_reg_c, load_reg_a_high_mem_reg_c_step,
};
use crate::lameboy::cpu::instructions::jumps::{
    jump_conditional_d16, jump_conditional_d16_step, jump_d16, jump_d16_step, jump_r16,
    jump_r16_step, jump_relative_conditional_d8, jump_relative_conditional_d8_step,
    jump_relative_d8, jump_relative_d8_step,
};
use crate::lameboy::cpu::instructions::misc::{
    complement, complement_carry_flag, complement_carry_flag_step, complement_step, decimal_adjust,
    decimal_adjust_step, halt, halt_step, interrupts, interrupts_step, nop, set_carry_flag,
    set_carry_flag_step, stop, stop_step, swap_indirect_hl, swap_indirect_hl_step, swap_r8,
    swap_r8_step,
};
use crate::lameboy::cpu::instructions::restarts::{restart, restart_step};
use crate::lameboy::cpu::instructions::rotates_and_shifts::{
    rotate_indirect_hl_step, rotate_left_indirect_hl, rotate_left_r8, rotate_r8_step,
    rotate_right_indirect_hl, rotate_right_r8, shift_indirect_hl_step, shift_left_indirect_hl,
    shift_left_r8, shift_r8_step, shift_right_indirect_hl, shift_right_r8,
};
use crate::lameboy::cpu::instructions::sixteen_bit_alu::{
    add_hl_r16, add_hl_r16_step, add_sp_d8, add_sp_d8_step, dec_r16, dec_r16_step, inc_r16,
    inc_r16_step,
};
use crate::lameboy::cpu::instructions::sixteen_bit_loads::{
    load_indirect_a16_r16, load_indirect_a16_r16_step, load_r16_d16, load_r16_d16_step,
    load_r16_r16, load_r16_r16_step, load_reg_hl_reg_sp_d8, load_reg_hl_reg_sp_d8_step, pop_r16,
    pop_r16_step, push_r16, push_r16_step,
};
use crate::lameboy::cpu::instructions::subroutine_returns::{
    ret, ret_conditional, ret_conditional_step, ret_interrupt, ret_interrupt_step, ret_step,
};
use crate::lameboy::cpu::instructions::{
    bit_index_from_opcode, opcode_register, register_from_opcode,
};
use crate::lameboy::cpu::registers::{
    carry_of, lemma_write16_read16, lemma_write8_read8, zero_of, Reg16, Reg8, Register,
};
use crate::lameboy::cpu::{Cpu, CpuView};
use crate::text::{hex2, hex4, push_hex2, push_hex4};
use vstd::prelude::*;

verus! {

/// The state after and the cycles of `nop`.
pub open spec fn nop_step(s: CpuView) -> (CpuView, u8) {
    (s, 4)
}

/// The opcodes that no instruction has.
pub open spec fn undefined_opcode(op: u8) -> bool {
    op == 0xD3 || op == 0xDB || op == 0xDD || op == 0xE3 || op == 0xE4 || op == 0xEB || op == 0xEC
        || op == 0xED || op == 0xF4 || op == 0xFC || op == 0xFD
}

/// Whether the instruction at the program counter can run: its opcode is defined, a STOP is
/// followed by a zero byte, and `LD (a16), SP` does not write its high byte past 0xFFFF.
pub open spec fn instruction_ok(s: CpuView) -> bool {
    let (t, op) = s.fetch8();
    &&& !undefined_opcode(op)
    &&& op == 0x10 ==> t.fetch8().1 == 0
    &&& op == 0x08 ==> t.fetch16().1 != 0xFFFF
}

/// The instructions of opcodes 0x00 to 0x3F, run on the state after the opcode was fetched.
pub open spec fn low_block_step(s: CpuView, op: u8) -> (CpuView, u8) {
    match op {
        0x00 => nop_step(s),
        0x01 => load_r16_d16_step(s, Reg16::BC),
        0x02 => load_indirect_r16_r8_step(s, Reg16::BC, Reg8::A),
        0x03 => inc_r16_step(s, Reg16::BC),
        0x04 => inc_r8_step(s, Reg8::B),
        0x05 => dec_r8_step(s, Reg8::B),
        0x06 => load_r8_d8_step(s, Reg8::B),
        0x07 => rotate_r8_step(s, Reg8::A, true, false, true),
        0x08 => load_indirect_a16_r16_step(s, Reg16::SP),
        0x09 => add_hl_r16_step(s, Reg16::BC),
        0x0A => load_r8_indirect_r16_step(s, Reg8::A, Reg16::BC),
        0x0B => dec_r16_step(s, Reg16::BC),
        0x0C => inc_r8_step(s, Reg8::C),
        0x0D => dec_r8_step(s, Reg8::C),
        0x0E => load_r8_d8_step(s, Reg8::C),
        0x0F => rotate_r8_step(s, Reg8::A, false, false, true),
        0x10 => stop_step(s),
        0x11 => load_r16_d16_step(s, Reg16::DE),
        0x12 => load_indirect_r16_r8_step(s, Reg16::DE, Reg8::A),
        0x13 => inc_r16_step(s, Reg16::DE),
        0x14 => inc_r8_step(s, Reg8::D),
        0x15 => dec_r8_step(s, Reg8::D),
        0x16 => load_r8_d8_step(s, Reg8::D),
        0x17 => rotate_r8_step(s, Reg8::A, true, true, true),
        0x18 => jump_relative_d8_step(s),
        0x19 => add_hl_r16_step(s, Reg16::DE),
        0x1A => load_r8_indirect_r16_step(s, Reg8::A, Reg16::DE),
        0x1B => dec_r16_step(s, Reg16::DE),
        0x1C => inc_r8_step(s, Reg8::E),
        0x1D => dec_r8_step(s, Reg8::E),
        0x1E => load_r8_d8_step(s, Reg8::E),
        0x1F => rotate_r8_step(s, Reg8::A, false, true, true),
        0x20 => jump_relative_conditional_d8_step(s, op),
        0x21 => load_r16_d16_step(s, Reg16::HL),
        0x22 => load_indirect_r16_increment_r8_step(s, Reg16::HL, Reg8::A),
        0x23 => inc_r16_step(s, Reg16::HL),
        0x24 => inc_r8_step(s, Reg8::H),
        0x25 => dec_r8_step(s, Reg8::H),
        0x26 => load_r8_d8_step(s, Reg8::H),
        0x27 => decimal_adjust_step(s),
        0x28 => jump_relative_conditional_d8_step(s, op),
        0x29 => add_hl_r16_step(s, Reg16::HL),
        0x2A => load_r8_indirect_r16_increment_step(s, Reg8::A, Reg16::HL),
        0x2B => dec_r16_step(s, Reg16::HL),
        0x2C => inc_r8_step(s, Reg8::L),
        0x2D => dec_r8_step(s, Reg8::L),
        0x2E => load_r8_d8_step(s, Reg8::L),
        0x2F => complement_step(s),
        0x30 => jump_relative_conditional_d8_step(s, op),
        0x31 => load_r16_d16_step(s, Reg16::SP),
        0x32 => load_indirect_r16_decrement_r8_step(s, Reg16::HL, Reg8::A),
        0x33 => inc_r16_step(s, Reg16::SP),
        0x34 => inc_indirect_r16_step(s, Reg16::HL),
        0x35 => dec_indirect_r16_step(s, Reg16::HL),
        0x36 => load_indirect_r16_d8_step(s, Reg16::HL),
        0x37 => set_carry_flag_step(s),
        0x38 => jump_relative_conditional_d8_step(s, op),
        0x39 => add_hl_r16_step(s, Reg16::SP),
        0x3A => load_r8_indirect_r16_decrement_step(s, Reg8::A, Reg16::HL),
        0x3B => dec_r16_step(s, Reg16::SP),
        0x3C => inc_r8_step(s, Reg8::A),
        0x3D => dec_r8_step(s, Reg8::A),
        0x3E => load_r8_d8_step(s, Reg8::A),
        0x3F => complement_carry_flag_step(s),
        _ => (s, 0),
    }
}

/// The loads of opcodes 0x40 to 0x7F: bits 5 to 3 select the target and bits 2 to 0 the
/// source, 0b110 standing for the memory HL points at; 0x76, which would load (HL) into
/// itself, is HALT.
pub open spec fn load_block_step(s: CpuView, op: u8) -> (CpuView, u8) {
    match (opcode_register((op / 8) % 8), opcode_register(op)) {
        (Register::Reg8(target), Register::Reg8(source)) => load_r8_r8_step(s, target, source),
        (Register::Reg8(target), Register::Reg16(source)) => load_r8_indirect_r16_step(
            s,
            target,
            source,
        ),
        (Register::Reg16(target), Register::Reg8(source)) => load_indirect_r16_r8_step(
            s,
            target,
            source,
        ),
        (Register::Reg16(_), Register::Reg16(_)) => halt_step(s),
    }
}

/// The arithmetic of opcodes 0x80 to 0xBF: bits 5 to 3 select ADD, ADC, SUB, SBC, AND, XOR,
/// OR or CP, and bits 2 to 0 the operand, 0b110 standing for the memory HL points at.
pub open spec fn alu_block_step(s: CpuView, op: u8) -> (CpuView, u8) {
    let kind = (op / 8) % 8;
    match opcode_register(op) {
        Register::Reg8(r8) => if kind == 0 {
            add_r8_step(s, r8)
        } else if kind == 1 {
            adc_r8_step(s, r8)
        } else if kind == 2 {
            sub_r8_step(s, r8)
        } else if kind == 3 {
            sbc_r8_step(s, r8)
        } else if kind == 4 {
            and_r8_step(s, r8)
        } else if kind == 5 {
            xor_r8_step(s, r8)
        } else if kind == 6 {
            or_r8_step(s, r8)
        } else {
            cp_r8_step(s, r8)
        },
        Register::Reg16(r16) => if kind == 0 {
            add_indirect_r16_step(s, r16)
        } else if kind == 1 {
            adc_indirect_r16_step(s, r16)
        } else if kind == 2 {
            sub_indirect_r16_step(s, r16)
        } else if kind == 3 {
            sbc_indirect_r16_step(s, r16)
        } else if kind == 4 {
            and_indirect_r16_step(s, r16)
        } else if kind == 5 {
            xor_indirect_r16_step(s, r16)
        } else if kind == 6 {
            or_indirect_r16_step(s, r16)
        } else {
            cp_indirect_r16_step(s, r16)
        },
    }
}

/// The instructions of opcodes 0xC0 to 0xFF, run on the state after the opcode was fetched.
pub open spec fn high_block_step(s: CpuView, op: u8) -> (CpuView, u8) {
    match op {
        0xC0 => ret_conditional_step(s, op),
        0xC1 => pop_r16_step(s, Reg16::BC),
        0xC2 => jump_conditional_d16_step(s, op),
        0xC3 => jump_d16_step(s),
        0xC4 => call_conditional_d16_step(s, op),
        0xC5 => push_r16_step(s, Reg16::BC),
        0xC6 => add_d8_step(s),
        0xC7 => restart_step(s, op),
        0xC8 => ret_conditional_step(s, op),
        0xC9 => ret_step(s),
        0xCA => jump_conditional_d16_step(s, op),
        0xCB => cb_prefixed_step(s),
        0xCC => call_conditional_d16_step(s, op),
        0xCD => call_d16_step(s),
        0xCE => adc_d8_step(s),
        0xCF => restart_step(s, op),
        0xD0 => ret_conditional_step(s, op),
        0xD1 => pop_r16_step(s, Reg16::DE),
        0xD2 => jump_conditional_d16_step(s, op),
        0xD4 => call_conditional_d16_step(s, op),
        0xD5 => push_r16_step(s, Reg16::DE),
        0xD6 => sub_d8_step(s),
        0xD7 => restart_step(s, op),
        0xD8 => ret_conditional_step(s, op),
        0xD9 => ret_interrupt_step(s),
        0xDA => jump_conditional_d16_step(s, op),
        0xDC => call_conditional_d16_step(s, op),
        0xDE => sbc_d8_step(s),
        0xDF => restart_step(s, op),
        0xE0 => load_high_mem_d8_reg_a_step(s),
        0xE1 => pop_r16_step(s, Reg16::HL),
        0xE2 => load_high_mem_reg_c_reg_a_step(s),
        0xE5 => push_r16_step(s, Reg16::HL),
        0xE6 => and_d8_step(s),
        0xE7 => restart_step(s, op),
        0xE8 => add_sp_d8_step(s),
        0xE9 => jump_r16_step(s, Reg16::HL),
        0xEA => load_a16_reg_a_step(s),
        0xEE => xor_d8_step(s),
        0xEF => restart_step(s, op),
        0xF0 => load_reg_a_high_mem_d8_step(s),
        0xF1 => pop_r16_step(s, Reg16::AF),
        0xF2 => load_reg_a_high_mem_reg_c_step(s),
        0xF3 => interrupts_step(s, false),
        0xF5 => push_r16_step(s, Reg16::AF),
        0xF6 => or_d8_step(s),
        0xF7 => restart_step(s, op),
        0xF8 => load_reg_hl_reg_sp_d8_step(s),
        0xF9 => load_r16_r16_step(s, Reg16::SP, Reg16::HL),
        0xFA => load_reg_a_a16_step(s),
        0xFB => interrupts_step(s, true),
        0xFE => cp_d8_step(s),
        0xFF => restart_step(s, op),
        _ => (s, 0),
    }
}

/// The CB-prefixed instructions, run on the state after the second opcode was fetched: 0x00 to
/// 0x3F rotate, shift or swap (bits 5 to 3 select RLC, RRC, RL, RR, SLA, SRA, SWAP or SRL), 0x40
/// to 0x7F test a bit, 0x80 to 0xBF reset one and 0xC0 to 0xFF set one.
pub open spec fn cb_block_step(s: CpuView, op: u8) -> (CpuView, u8) {
    if op < 0x40 {
        let kind = (op / 8) % 8;
        match opcode_register(op) {
            Register::Reg8(r8) => if kind == 0 {
                rotate_r8_step(s, r8, true, false, false)
            } else if kind == 1 {
                rotate_r8_step(s, r8, false, false, false)
            } else if kind == 2 {
                rotate_r8_step(s, r8, true, true, false)
            } else if kind == 3 {
                rotate_r8_step(s, r8, false, true, false)
            } else if kind == 4 {
                shift_r8_step(s, r8, true, false)
            } else if kind == 5 {
                shift_r8_step(s, r8, false, false)
            } else if kind == 6 {
                swap_r8_step(s, r8)
            } else {
                shift_r8_step(s, r8, false, true)
            },
            Register::Reg16(_) => if kind == 0 {
                rotate_indirect_hl_step(s, true, false, false)
            } else if kind == 1 {
                rotate_indirect_hl_step(s, false, false, false)
            } else if kind == 2 {
                rotate_indirect_hl_step(s, true, true, false)
            } else if kind == 3 {
                rotate_indirect_hl_step(s, false, true, false)
            } else if kind == 4 {
                shift_indirect_hl_step(s, true, false)
            } else if kind == 5 {
                shift_indirect_hl_step(s, false, false)
            } else if kind == 6 {
                swap_indirect_hl_step(s)
            } else {
                shift_indirect_hl_step(s, false, true)
            },
        }
    } else if op < 0x80 {
        bit_test_step(s, op)
    } else if op < 0xC0 {
        bit_assign_step(s, op, false)
    } else {
        bit_assign_step(s, op, true)
    }
}

/// The state after and the cycles of a CB-prefixed instruction whose second opcode is at the
/// program counter: fetching it costs 4 cycles more.
pub open spec fn cb_prefixed_step(s: CpuView) -> (CpuView, u8) {
    let (t, op) = s.fetch8();
    let (u, cycles) = cb_block_step(t, op);
    (u, (cycles + 4) as u8)
}

/// The state after and the cycles of the instruction at the program counter: fetch its opcode,
/// decode it and run it.
#[verifier::opaque]
pub open spec fn execute(s: CpuView) -> (CpuView, u8) {
    let (t, op) = s.fetch8();
    if op < 0x40 {
        low_block_step(t, op)
    } else if op < 0x80 {
        load_block_step(t, op)
    } else if op < 0xC0 {
        alu_block_step(t, op)
    } else {
        high_block_step(t, op)
    }
}

/// Whether two CPU states hold the same program counter history and history pointer.
pub open spec fn same_history(a: CpuView, b: CpuView) -> bool {
    a.pc_history == b.pc_history && a.pc_history_pointer == b.pc_history_pointer
}

/// The instructions of opcodes 0x00 to 0x3F leave the program counter history alone.
#[verifier::rlimit(100)]
proof fn lemma_low_block_history(s: CpuView, op: u8)
    ensures
        same_history(low_block_step(s, op).0, s),
{
}

/// The loads of opcodes 0x40 to 0x7F leave the program counter history alone.
proof fn lemma_load_block_history(s: CpuView, op: u8)
    ensures
        same_history(load_block_step(s, op).0, s),
{
}

/// The arithmetic of opcodes 0x80 to 0xBF leaves the program counter history alone.
#[verifier::rlimit(100)]
proof fn lemma_alu_block_history(s: CpuView, op: u8)
    ensures
        same_history(alu_block_step(s, op).0, s),
{
}

/// The CB-prefixed instructions leave the program counter history alone.
#[verifier::rlimit(100)]
proof fn lemma_cb_block_history(s: CpuView, op: u8)
    ensures
        same_history(cb_block_step(s, op).0, s),
{
}

/// The instructions of opcodes 0xC0 to 0xFF leave the program counter history alone.
#[verifier::rlimit(100)]
proof fn lemma_high_block_history(s: CpuView, op: u8)
    ensures
        same_history(high_block_step(s, op).0, s),
{
    let (t, op2) = s.fetch8();
    lemma_cb_block_history(t, op2);
}

/// No instruction changes the program counter history or its pointer.
pub proof fn lemma_execute_keeps_history(s: CpuView)
    ensures
        same_history(execute(s).0, s),
{
    reveal(execute);
    let (t, op) = s.fetch8();
    lemma_low_block_history(t, op);
    lemma_load_block_history(t, op);
    lemma_alu_block_history(t, op);
    lemma_high_block_history(t, op);
}

/// The message the emulator stops with when the instruction at the program counter cannot
/// run: an undefined opcode, or a STOP not followed by a zero byte, with the program counter
/// as it stands after the bytes read; else the address of `LD (a16), SP` overflowed.
pub open spec fn blocked_message(s: CpuView) -> Seq<char> {
    let (t, op) = s.fetch8();
    if undefined_opcode(op) {
        "Undefined opcode 0x"@ + hex2(op) + " at pc=0x"@ + hex4(t.regs.pc)
    } else if op == 0x10 {
        let (u, value) = t.fetch8();
        "Stop instruction should be followed by a zero but found: 0x"@ + hex2(value)
            + " at pc=0x"@ + hex4(u.regs.pc)
    } else {
        "attempt to add with overflow"@
    }
}

impl Cpu {
    /// Whether the instruction at the program counter can run; the bytes are read without
    /// recording memory breakpoints.
    pub fn can_execute(&self) -> (ok: bool)
        requires
            self@.wf(),
        ensures
            ok == instruction_ok(self@),
    {
        let s = Ghost(self@);
        let pc = self.registers.pc;
        let op = self.mmu.read8_safe(pc);
        let next = self.mmu.read8_safe(pc.wrapping_add(1));
        let after = self.mmu.read8_safe(pc.wrapping_add(1).wrapping_add(1));
        proof {
            let (t, op1) = s@.fetch8();
            assert(op1 == op);
            assert(t.mmu.read(t.regs.pc) == next);
            let (u, v) = t.fetch8();
            assert(v == next);
            assert(u.mmu.read(u.regs.pc) == after);
        }
        if op == 0xD3 || op == 0xDB || op == 0xDD || op == 0xE3 || op == 0xE4 || op == 0xEB || op
            == 0xEC || op == 0xED || op == 0xF4 || op == 0xFC || op == 0xFD {
            false
        } else if op == 0x10 {
            next == 0
        } else if op == 0x08 {
            !(next == 0xFF && after == 0xFF)
        } else {
            true
        }
    }

    /// The message the emulator stops with when the instruction at the program counter cannot
    /// run.
    pub fn blocked_message(&self) -> (msg: String)
        requires
            self@.wf(),
        ensures
            msg@ == blocked_message(self@),
    {
        let pc = self.registers.pc;
        let op = self.mmu.read8_safe(pc);
        let mut msg;
        if op == 0xD3 || op == 0xDB || op == 0xDD || op == 0xE3 || op == 0xE4 || op == 0xEB || op
            == 0xEC || op == 0xED || op == 0xF4 || op == 0xFC || op == 0xFD {
            msg = String::from_str("Undefined opcode 0x");
            push_hex2(&mut msg, op);
            msg.append(" at pc=0x");
            push_hex4(&mut msg, pc.wrapping_add(1));
        } else if op == 0x10 {
            let value = self.mmu.read8_safe(pc.wrapping_add(1));
            msg = String::from_str("Stop instruction should be followed by a zero but found: 0x");
            push_hex2(&mut msg, value);
            msg.append(" at pc=0x");
            push_hex4(&mut msg, pc.wrapping_add(1).wrapping_add(1));
        } else {
            msg = String::from_str("attempt to add with overflow");
        }
        msg
    }

    /// Fetch, decode and execute the instruction at the program counter.
    pub(crate) fn handle_instruction(&mut self) -> (cycles: u8)
        requires
            old(self)@.wf(),
            instruction_ok(old(self)@),
        ensures
            (final(self)@, cycles) == execute(old(self)@),
            final(self)@.wf(),
            4 <= cycles <= 24,
    {
        proof {
            reveal(execute);
        }
        // Fetch
        let op = self.fetch8();

        // Decode & Execute
        if op < 0x40 {
            self.execute_low_block(op)
        } else if op < 0x80 {
            self.execute_load_block(op)
        } else if op < 0xC0 {
            self.execute_alu_block(op)
        } else {
            self.execute_high_block(op)
        }
    }

    fn execute_low_block(&mut self, op: u8) -> (cycles: u8)
        requires
            old(self)@.wf(),
            op < 0x40,
            op == 0x10 ==> old(self)@.fetch8().1 == 0,
            op == 0x08 ==> old(self)@.fetch16().1 != 0xFFFF,
        ensures
            (final(self)@, cycles) == low_block_step(old(self)@, op),
            final(self)@.wf(),
            4 <= cycles <= 24,
    {
        match op {
            0x00 => nop(self),
            0x01 => load_r16_d16(self, &Reg16::BC),
            0x02 => load_indirect_r16_r8(self, &Reg16::BC, &Reg8::A),
            0x03 => inc_r16(self, &Reg16::BC),
            0x04 => inc_r8(self, &Reg8::B),
            0x05 => dec_r8(self, &Reg8::B),
            0x06 => load_r8_d8(self, &Reg8::B),
            0x07 => rotate_left_r8(self, &Reg8::A, false, true),
            0x08 => load_indirect_a16_r16(self, &Reg16::SP),
            0x09 => add_hl_r16(self, &Reg16::BC),
            0x0A => load_r8_indirect_r16(self, &Reg8::A, &Reg16::BC),
            0x0B => dec_r16(self, &Reg16::BC),
            0x0C => inc_r8(self, &Reg8::C),
            0x0D => dec_r8(self, &Reg8::C),
            0x0E => load_r8_d8(self, &Reg8::C),
            0x0F => rotate_right_r8(self, &Reg8::A, false, true),
            0x10 => stop(self),
            0x11 => load_r16_d16(self, &Reg16::DE),
            0x12 => load_indirect_r16_r8(self, &Reg16::DE, &Reg8::A),
            0x13 => inc_r16(self, &Reg16::DE),
            0x14 => inc_r8(self, &Reg8::D),
            0x15 => dec_r8(self, &Reg8::D),
            0x16 => load_r8_d8(self, &Reg8::D),
            0x17 => rotate_left_r8(self, &Reg8::A, true, true),
            0x18 => jump_relative_d8(self),
            0x19 => add_hl_r16(self, &Reg16::DE),
            0x1A => load_r8_indirect_r16(self, &Reg8::A, &Reg16::DE),
            0x1B => dec_r16(self, &Reg16::DE),
            0x1C => inc_r8(self, &Reg8::E),
            0x1D => dec_r8(self, &Reg8::E),
            0x1E => load_r8_d8(self, &Reg8::E),
            0x1F => rotate_right_r8(self, &Reg8::A, true, true),
            0x20 => jump_relative_conditional_d8(self, op),
            0x21 => load_r16_d16(self, &Reg16::HL),
            0x22 => load_indirect_r16_increment_r8(self, &Reg16::HL, &Reg8::A),
            0x23 => inc_r16(self, &Reg16::HL),
            0x24 => inc_r8(self, &Reg8::H),
            0x25 => dec_r8(self, &Reg8::H),
            0x26 => load_r8_d8(self, &Reg8::H),
            0x27 => decimal_adjust(self),
            0x28 => jump_relative_conditional_d8(self, op),
            0x29 => add_hl_r16(self, &Reg16::HL),
            0x2A => load_r8_indirect_r16_increment(self, &Reg8::A, &Reg16::HL),
            0x2B => dec_r16(self, &Reg16::HL),
            0x2C => inc_r8(self, &Reg8::L),
            0x2D => dec_r8(self, &Reg8::L),
            0x2E => load_r8_d8(self, &Reg8::L),
            0x2F => complement(self),
            0x30 => jump_relative_conditional_d8(self, op),
            0x31 => load_r16_d16(self, &Reg16::SP),
            0x32 => load_indirect_r16_decrement_r8(self, &Reg16::HL, &Reg8::A),
            0x33 => inc_r16(self, &Reg16::SP),
            0x34 => inc_indirect_r16(self, &Reg16::HL),
            0x35 => dec_indirect_r16(self, &Reg16::HL),
            0x36 => load_indirect_r16_d8(self, &Reg16::HL),
            0x37 => set_carry_flag(self),
            0x38 => jump_relative_conditional_d8(self, op),
            0x39 => add_hl_r16(self, &Reg16::SP),
            0x3A => load_r8_indirect_r16_decrement(self, &Reg8::A, &Reg16::HL),
            0x3B => dec_r16(self, &Reg16::SP),
            0x3C => inc_r8(self, &Reg8::A),
            0x3D => dec_r8(self, &Reg8::A),
            0x3E => load_r8_d8(self, &Reg8::A),
            _ => complement_carry_flag(self),
        }
    }

    fn execute_load_block(&mut self, op: u8) -> (cycles: u8)
        requires
            old(self)@.wf(),
            0x40 <= op < 0x80,
        ensures
            (final(self)@, cycles) == load_block_step(old(self)@, op),
            final(self)@.wf(),
            4 <= cycles <= 24,
    {
        let target = register_from_opcode(bit_index_from_opcode(op));
        let source = register_from_opcode(op);
        match (target, source) {
            (Register::Reg8(t8), Register::Reg8(s8)) => load_r8_r8(self, &t8, &s8),
            (Register::Reg8(t8), Register::Reg16(s16)) => load_r8_indirect_r16(self, &t8, &s16),
            (Register::Reg16(t16), Register::Reg8(s8)) => load_indirect_r16_r8(self, &t16, &s8),
            (Register::Reg16(_), Register::Reg16(_)) => halt(self),
        }
    }

    fn execute_alu_block(&mut self, op: u8) -> (cycles: u8)
        requires
            old(self)@.wf(),
            0x80 <= op < 0xC0,
        ensures
            (final(self)@, cycles) == alu_block_step(old(self)@, op),
            final(self)@.wf(),
            4 <= cycles <= 24,
    {
        let kind = bit_index_from_opcode(op);
        match register_from_opcode(op) {
            Register::Reg8(r8) => match kind {
                0 => add_r8(self, &r8),
                1 => adc_r8(self, &r8),
                2 => sub_r8(self, &r8),
                3 => sbc_r8(self, &r8),
                4 => and_r8(self, &r8),
                5 => xor_r8(self, &r8),
                6 => or_r8(self, &r8),
                _ => cp_r8(self, &r8),
            },
            Register::Reg16(r16) => match kind {
                0 => add_indirect_r16(self, &r16),
                1 => adc_indirect_r16(self, &r16),
                2 => sub_indirect_r16(self, &r16),
                3 => sbc_indirect_r16(self, &r16),
                4 => and_indirect_r16(self, &r16),
                5 => xor_indirect_r16(self, &r16),
                6 => or_indirect_r16(self, &r16),
                _ => cp_indirect_r16(self, &r16),
            },
        }
    }

    fn execute_high_block(&mut self, op: u8) -> (cycles: u8)
        requires
            old(self)@.wf(),
            0xC0 <= op,
            !undefined_opcode(op),
        ensures
            (final(self)@, cycles) == high_block_step(old(self)@, op),
            final(self)@.wf(),
            4 <= cycles <= 24,
    {
        match op {
            0xC0 => ret_conditional(self, op),
            0xC1 => pop_r16(self, &Reg16::BC),
            0xC2 => jump_conditional_d16(self, op),
            0xC3 => jump_d16(self),
            0xC4 => call_conditional_d16(self, op),
            0xC5 => push_r16(self, &Reg16::BC),
            0xC6 => add_d8(self),
            0xC7 => restart(self, op),
            0xC8 => ret_conditional(self, op),
            0xC9 => ret(self),
            0xCA => jump_conditional_d16(self, op),
            0xCB => self.decode_cb_prefixed(),
            0xCC => call_conditional_d16(self, op),
            0xCD => call_d16(self),
            0xCE => adc_d8(self),
            0xCF => restart(self, op),
            0xD0 => ret_conditional(self, op),
            0xD1 => pop_r16(self, &Reg16::DE),
            0xD2 => jump_conditional_d16(self, op),
            0xD4 => call_conditional_d16(self, op),
            0xD5 => push_r16(self, &Reg16::DE),
            0xD6 => sub_d8(self),
            0xD7 => restart(self, op),
            0xD8 => ret_conditional(self, op),
            0xD9 => ret_interrupt(self),
            0xDA => jump_conditional_d16(self, op),
            0xDC => call_conditional_d16(self, op),
            0xDE => sbc_d8(self),
            0xDF => restart(self, op),
            0xE0 => load_high_mem_d8_reg_a(self),
            0xE1 => pop_r16(self, &Reg16::HL),
            0xE2 => load_high_mem_reg_c_reg_a(self),
            0xE5 => push_r16(self, &Reg16::HL),
            0xE6 => and_d8(self),
            0xE7 => restart(self, op),
            0xE8 => add_sp_d8(self),
            0xE9 => jump_r16(self, &Reg16::HL),
            0xEA => load_a16_reg_a(self),
            0xEE => xor_d8(self),
            0xEF => restart(self, op),
            0xF0 => load_reg_a_high_mem_d8(self),
            0xF1 => pop_r16(self, &Reg16::AF),
            0xF2 => load_reg_a_high_mem_reg_c(self),
            0xF3 => interrupts(self, false),
            0xF5 => push_r16(self, &Reg16::AF),
            0xF6 => or_d8(self),
            0xF7 => restart(self, op),
            0xF8 => load_reg_hl_reg_sp_d8(self),
            0xF9 => load_r16_r16(self, &Reg16::SP, &Reg16::HL),
            0xFA => load_reg_a_a16(self),
            0xFB => interrupts(self, true),
            0xFE => cp_d8(self),
            0xFF => restart(self, op),
            // The undefined opcodes, which the precondition leaves out.
            _ => 0,
        }
    }

    /// Fetch, decode and execute a CB-prefixed instruction.
    fn decode_cb_prefixed(&mut self) -> (cycles: u8)
        requires
            old(self)@.wf(),
        ensures
            (final(self)@, cycles) == cb_prefixed_step(old(self)@),
            final(self)@.wf(),
            4 <= cycles <= 24,
    {
        // Fetch
        let op = self.fetch8();

        // Decode & Execute
        let duration = if op < 0x40 {
            let kind = bit_index_from_opcode(op);
            match register_from_opcode(op) {
                Register::Reg8(r8) => match kind {
                    0 => rotate_left_r8(self, &r8, false, false),
                    1 => rotate_right_r8(self, &r8, false, false),
                    2 => rotate_left_r8(self, &r8, true, false),
                    3 => rotate_right_r8(self, &r8, true, false),
                    4 => shift_left_r8(self, &r8),
                    5 => shift_right_r8(self, &r8, false),
                    6 => swap_r8(self, &r8),
                    _ => shift_right_r8(self, &r8, true),
                },
                Register::Reg16(_) => match kind {
                    0 => rotate_left_indirect_hl(self, false, false),
                    1 => rotate_right_indirect_hl(self, false, false),
                    2 => rotate_left_indirect_hl(self, true, false),
                    3 => rotate_right_indirect_hl(self, true, false),
                    4 => shift_left_indirect_hl(self),
                    5 => shift_right_indirect_hl(self, false),
                    6 => swap_indirect_hl(self),
                    _ => shift_right_indirect_hl(self, true),
                },
            }
        } else if op < 0x80 {
            bit_test(self, op)
        } else if op < 0xC0 {
            bit_assign(self, op, false)
        } else {
            bit_assign(self, op, true)
        };

        duration + 4
    }
}

/// DEC rr (opcodes 0x0B, 0x1B, 0x2B and 0x3B): bits 5 and 4 of the opcode select BC, DE, HL or
/// SP, which loses one, wrapping below zero; every other register pair keeps its value, the
/// program counter moves past the opcode and the instruction takes 8 cycles.
pub proof fn lemma_decrement_pair(s: CpuView)
    requires
        s.mmu.read(s.regs.pc) % 16 == 0x0B,
        s.mmu.read(s.regs.pc) < 0x40,
    ensures
        ({
            let op = s.mmu.read(s.regs.pc);
            let r = if op / 16 == 0 {
                Reg16::BC
            } else if op / 16 == 1 {
                Reg16::DE
            } else if op / 16 == 2 {
                Reg16::HL
            } else {
                Reg16::SP
            };
            let (t, cycles) = execute(s);
            &&& t.regs.read16(r) as int == (s.regs.read16(r) - 1) % 65536
            &&& forall|q: Reg16| q != r ==> #[trigger] t.regs.read16(q) == s.regs.read16(q)
            &&& t.regs.pc == s.regs.pc.wrapping_add(1)
            &&& cycles == 8
        }),
{
    let (t, op) = s.fetch8();
    let r = if op / 16 == 0 {
        Reg16::BC
    } else if op / 16 == 1 {
        Reg16::DE
    } else if op / 16 == 2 {
        Reg16::HL
    } else {
        Reg16::SP
    };
    assert(execute(s) == dec_r16_step(t, r)) by {
        reveal(execute);
        assert(execute(s) == low_block_step(t, op));
        if op == 0x0B {
            assert(low_block_step(t, op) == dec_r16_step(t, Reg16::BC));
        } else if op == 0x1B {
            assert(low_block_step(t, op) == dec_r16_step(t, Reg16::DE));
        } else if op == 0x2B {
            assert(low_block_step(t, op) == dec_r16_step(t, Reg16::HL));
        } else {
            assert(op == 0x3B);
            assert(low_block_step(t, op) == dec_r16_step(t, Reg16::SP));
        }
    }
    lemma_write16_read16(t.regs, r, t.regs.read16(r).wrapping_sub(1));
}

/// SBC A,r (opcodes 0x98 to 0x9F but 0x9E, register from bits 2 to 0: B, C, D, E, H, L, -, A)
/// takes the register and the incoming carry flag from the accumulator, modulo 256, keeps
/// every other 8-bit register, moves the program counter past the opcode and takes 4 cycles.
pub proof fn lemma_subtract_with_carry_opcode(s: CpuView)
    requires
        0x98 <= s.mmu.read(s.regs.pc) <= 0x9F,
        s.mmu.read(s.regs.pc) != 0x9E,
    ensures
        ({
            let op = s.mmu.read(s.regs.pc);
            let k = op % 8;
            let r = if k == 0 {
                Reg8::B
            } else if k == 1 {
                Reg8::C
            } else if k == 2 {
                Reg8::D
            } else if k == 3 {
                Reg8::E
            } else if k == 4 {
                Reg8::H
            } else if k == 5 {
                Reg8::L
            } else {
                Reg8::A
            };
            let c: int = if carry_of(s.regs.f) {
                1
            } else {
                0
            };
            let (t, cycles) = execute(s);
            &&& t.regs.a as int == (s.regs.a - s.regs.read8(r) - c) % 256
            &&& forall|q: Reg8| q != Reg8::A ==> #[trigger] t.regs.read8(q) == s.regs.read8(q)
            &&& t.regs.sp == s.regs.sp
            &&& t.regs.pc == s.regs.pc.wrapping_add(1)
            &&& cycles == 4
        }),
{
    let (t, op) = s.fetch8();
    let r = numbered_register(op % 8);
    assert(execute(s) == sbc_r8_step(t, r)) by {
        reveal(execute);
        assert(execute(s) == alu_block_step(t, op));
    }
    crate::lameboy::cpu::instructions::eight_bit_alu::lemma_subtract_register(t, r);
    assert forall|q: Reg8| q != Reg8::A implies #[trigger] execute(s).0.regs.read8(q)
        == s.regs.read8(q) by {
        crate::lameboy::cpu::instructions::eight_bit_alu::lemma_subtract_register(t, r);
    }
}

/// The 8-bit register that the three-bit register number `k` of an opcode names, for the
/// numbers other than 6 (which names the memory HL points at): B, C, D, E, H, L, -, A.
pub open spec fn numbered_register(k: u8) -> Reg8 {
    if k == 0 {
        Reg8::B
    } else if k == 1 {
        Reg8::C
    } else if k == 2 {
        Reg8::D
    } else if k == 3 {
        Reg8::E
    } else if k == 4 {
        Reg8::H
    } else if k == 5 {
        Reg8::L
    } else {
        Reg8::A
    }
}

/// The arithmetic and logic opcodes on a register (0x80 to 0xBF, register number in bits 2 to
/// 0 other than 6): bits 5 to 3 pick ADD, ADC, SUB, SBC, AND, XOR, OR or CP of the register
/// with the accumulator; every other 8-bit register keeps its value, the program counter moves
/// past the opcode and the instruction takes 4 cycles.
pub proof fn lemma_alu_opcode(s: CpuView)
    requires
        0x80 <= s.mmu.read(s.regs.pc) <= 0xBF,
        s.mmu.read(s.regs.pc) % 8 != 6,
    ensures
        ({
            let op = s.mmu.read(s.regs.pc);
            let kind = (op / 8) % 8;
            let a = s.regs.a;
            let v = s.regs.read8(numbered_register(op % 8));
            let c: int = if carry_of(s.regs.f) {
                1
            } else {
                0
            };
            let (t, cycles) = execute(s);
            &&& kind == 0 ==> t.regs.a as int == (a + v) % 256
            &&& kind == 1 ==> t.regs.a as int == (a + v + c) % 256
            &&& kind == 2 ==> t.regs.a as int == (a - v) % 256
            &&& kind == 3 ==> t.regs.a as int == (a - v - c) % 256
            &&& kind == 4 ==> t.regs.a == a & v
            &&& kind == 5 ==> t.regs.a == a ^ v
            &&& kind == 6 ==> t.regs.a == a | v
            &&& kind == 7 ==> t.regs.a == a && zero_of(t.regs.f) == (a == v) && carry_of(t.regs.f)
                == (a < v)
            &&& forall|q: Reg8| q != Reg8::A ==> #[trigger] t.regs.read8(q) == s.regs.read8(q)
            &&& t.regs.sp == s.regs.sp
            &&& t.regs.pc == s.regs.pc.wrapping_add(1)
            &&& cycles == 4
        }),
{
    reveal(execute);
    let (t, op) = s.fetch8();
    crate::lameboy::cpu::instructions::alu::properties::lemma_compare_meaning(
        t.regs.a,
        t.regs.f,
        t.regs.read8(numbered_register(op % 8)),
    );
}

/// The 8-bit register loads (0x40 to 0x7F with neither register number 6): the register that
/// bits 5 to 3 name gets the value of the register that bits 2 to 0 name; every other register
/// keeps its value, the program counter moves past the opcode and the instruction takes 4
/// cycles.
pub proof fn lemma_load_register_opcode(s: CpuView)
    requires
        0x40 <= s.mmu.read(s.regs.pc) <= 0x7F,
        s.mmu.read(s.regs.pc) % 8 != 6,
        (s.mmu.read(s.regs.pc) / 8) % 8 != 6,
    ensures
        ({
            let op = s.mmu.read(s.regs.pc);
            let target = numbered_register((op / 8) % 8);
            let source = numbered_register(op % 8);
            let (t, cycles) = execute(s);
            &&& t.regs.read8(target) == s.regs.read8(source)
            &&& forall|q: Reg8| q != target ==> #[trigger] t.regs.read8(q) == s.regs.read8(q)
            &&& t.regs.f == s.regs.f
            &&& t.regs.sp == s.regs.sp
            &&& t.regs.pc == s.regs.pc.wrapping_add(1)
            &&& cycles == 4
        }),
{
    reveal(execute);
    let (t, op) = s.fetch8();
    let target = numbered_register((op / 8) % 8);
    let value = t.regs.read8(numbered_register(op % 8));
    lemma_write8_read8(t.regs, target, target, value);
    assert forall|q: Reg8| q != target implies #[trigger] t.regs.write8(target, value).read8(q)
        == t.regs.read8(q) by {
        lemma_write8_read8(t.regs, target, q, value);
    }
}

/// The low block runs INC r or DEC r for the opcodes that name them.
#[verifier::rlimit(100)]
proof fn lemma_low_block_increment_decrement(t: CpuView, op: u8)
    requires
        op < 0x40,
        op % 8 == 4 || op % 8 == 5,
        (op / 8) % 8 != 6,
    ensures
        low_block_step(t, op) == (if op % 8 == 4 {
            inc_r8_step(t, numbered_register((op / 8) % 8))
        } else {
            dec_r8_step(t, numbered_register((op / 8) % 8))
        }),
{
    if op == 0x04 {
        assert(low_block_step(t, op) == inc_r8_step(t, Reg8::B));
    } else if op == 0x05 {
        assert(low_block_step(t, op) == dec_r8_step(t, Reg8::B));
    } else if op == 0x0C {
        assert(low_block_step(t, op) == inc_r8_step(t, Reg8::C));
    } else if op == 0x0D {
        assert(low_block_step(t, op) == dec_r8_step(t, Reg8::C));
    } else if op == 0x14 {
        assert(low_block_step(t, op) == inc_r8_step(t, Reg8::D));
    } else if op == 0x15 {
        assert(low_block_step(t, op) == dec_r8_step(t, Reg8::D));
    } else if op == 0x1C {
        assert(low_block_step(t, op) == inc_r8_step(t, Reg8::E));
    } else if op == 0x1D {
        assert(low_block_step(t, op) == dec_r8_step(t, Reg8::E));
    } else if op == 0x24 {
        assert(low_block_step(t, op) == inc_r8_step(t, Reg8::H));
    } else if op == 0x25 {
        assert(low_block_step(t, op) == dec_r8_step(t, Reg8::H));
    } else if op == 0x2C {
        assert(low_block_step(t, op) == inc_r8_step(t, Reg8::L));
    } else if op == 0x2D {
        assert(low_block_step(t, op) == dec_r8_step(t, Reg8::L));
    } else if op == 0x3C {
        assert(low_block_step(t, op) == inc_r8_step(t, Reg8::A));
    } else if op == 0x3D {
        assert(low_block_step(t, op) == dec_r8_step(t, Reg8::A));
    }
}

/// INC r and DEC r (opcodes below 0x40 ending in 4, 5, 0xC or 0xD, register number in bits 5 to
/// 3 other than 6) add or take one from the register, modulo 256; every other 8-bit register
/// and the carry flag keep their values, the program counter moves past the opcode and the
/// instruction takes 4 cycles.
pub proof fn lemma_increment_decrement_register_opcode(s: CpuView)
    requires
        s.mmu.read(s.regs.pc) < 0x40,
        s.mmu.read(s.regs.pc) % 8 == 4 || s.mmu.read(s.regs.pc) % 8 == 5,
        (s.mmu.read(s.regs.pc) / 8) % 8 != 6,
    ensures
        ({
            let op = s.mmu.read(s.regs.pc);
            let r = numbered_register((op / 8) % 8);
            let step: int = if op % 8 == 4 {
                1
            } else {
                -1
            };
            let (t, cycles) = execute(s);
            &&& t.regs.read8(r) as int == (s.regs.read8(r) + step) % 256
            &&& forall|q: Reg8| q != r ==> #[trigger] t.regs.read8(q) == s.regs.read8(q)
            &&& carry_of(t.regs.f) == carry_of(s.regs.f)
            &&& t.regs.sp == s.regs.sp
            &&& t.regs.pc == s.regs.pc.wrapping_add(1)
            &&& cycles == 4
        }),
{
    let (t, op) = s.fetch8();
    let r = numbered_register((op / 8) % 8);
    assert(execute(s) == (if op % 8 == 4 {
        inc_r8_step(t, r)
    } else {
        dec_r8_step(t, r)
    })) by {
        reveal(execute);
        assert(execute(s) == low_block_step(t, op));
        lemma_low_block_increment_decrement(t, op);
    }
    assert forall|q: Reg8| q != r implies #[trigger] execute(s).0.regs.read8(q) == s.regs.read8(
        q,
    ) by {
        crate::lameboy::cpu::instructions::eight_bit_alu::lemma_increment_decrement_register(
            t,
            r,
            q,
        );
    }
    crate::lameboy::cpu::instructions::eight_bit_alu::lemma_increment_decrement_register(t, r, r);
}

/// INC rr and ADD HL,rr (opcodes 0x03, 0x13, 0x23, 0x33 and 0x09, 0x19, 0x29, 0x39): bits 5
/// and 4 of the opcode select BC, DE, HL or SP; INC adds one to it and ADD adds it to HL,
/// modulo 65536; the program counter moves past the opcode and the instruction takes 8 cycles.
pub proof fn lemma_increment_add_pair_opcode(s: CpuView)
    requires
        s.mmu.read(s.regs.pc) < 0x40,
        s.mmu.read(s.regs.pc) % 16 == 0x03 || s.mmu.read(s.regs.pc) % 16 == 0x09,
    ensures
        ({
            let op = s.mmu.read(s.regs.pc);
            let r = if op / 16 == 0 {
                Reg16::BC
            } else if op / 16 == 1 {
                Reg16::DE
            } else if op / 16 == 2 {
                Reg16::HL
            } else {
                Reg16::SP
            };
            let (t, cycles) = execute(s);
            &&& op % 16 == 0x03 ==> t.regs.read16(r) as int == (s.regs.read16(r) + 1) % 65536
            &&& op % 16 == 0x09 ==> t.regs.read16(Reg16::HL) as int == (s.regs.read16(
                Reg16::HL,
            ) + s.regs.read16(r)) % 65536
            &&& t.regs.pc == s.regs.pc.wrapping_add(1)
            &&& cycles == 8
        }),
{
    let (t, op) = s.fetch8();
    let r = if op / 16 == 0 {
        Reg16::BC
    } else if op / 16 == 1 {
        Reg16::DE
    } else if op / 16 == 2 {
        Reg16::HL
    } else {
        Reg16::SP
    };
    assert(execute(s) == (if op % 16 == 0x03 {
        inc_r16_step(t, r)
    } else {
        add_hl_r16_step(t, r)
    })) by {
        reveal(execute);
        assert(execute(s) == low_block_step(t, op));
        assert(op == 0x03 || op == 0x13 || op == 0x23 || op == 0x33 || op == 0x09 || op == 0x19
            || op == 0x29 || op == 0x39);
    }
    crate::lameboy::cpu::instructions::sixteen_bit_alu::lemma_increment_decrement_pair(t, r, r);
    crate::lameboy::cpu::instructions::sixteen_bit_alu::lemma_add_hl(t, r, r);
}

/// The CB-prefixed bit instructions on a register (second opcode 0x40 to 0xFF, register number
/// in bits 2 to 0 other than 6, bit number in bits 5 to 3): BIT sets the zero flag exactly when
/// the bit is clear and changes no other register; RES clears the bit and SET sets it, every
/// other bit and register keeping its value; the program counter moves past both bytes.
pub proof fn lemma_bit_opcode(s: CpuView)
    requires
        s.mmu.read(s.regs.pc) == 0xCB,
        s.mmu.read(s.regs.pc.wrapping_add(1)) >= 0x40,
        s.mmu.read(s.regs.pc.wrapping_add(1)) % 8 != 6,
    ensures
        ({
            let op = s.mmu.read(s.regs.pc.wrapping_add(1));
            let r = numbered_register(op % 8);
            let b = (op / 8) % 8;
            let v = s.regs.read8(r);
            let t = execute(s).0.regs;
            &&& op < 0x80 ==> zero_of(t.f) == ((v >> b) & 1 == 0) && t.read8(r) == v
            &&& op >= 0x80 ==> t.f == s.regs.f
            &&& forall|j: u8|
                j < 8 && op >= 0x80 ==> (#[trigger] (t.read8(r) >> j) & 1) == (if j == b {
                    if op >= 0xC0 {
                        1u8
                    } else {
                        0u8
                    }
                } else {
                    (v >> j) & 1
                })
            &&& forall|q: Reg8| q != r ==> #[trigger] t.read8(q) == s.regs.read8(q)
            &&& t.sp == s.regs.sp
            &&& t.pc == s.regs.pc.wrapping_add(2)
        }),
{
    let (t, op1) = s.fetch8();
    let (u, op) = t.fetch8();
    crate::lameboy::mmu::lemma_touch_keeps_memory(s.mmu, s.regs.pc, s.regs.pc.wrapping_add(1));
    assert(op == s.mmu.read(s.regs.pc.wrapping_add(1)));
    assert(execute(s) == cb_prefixed_step(t)) by {
        reveal(execute);
        assert(execute(s) == high_block_step(t, op1));
    }
    let r = numbered_register(op % 8);
    assert(opcode_register(op) == Register::Reg8(r));
    if op < 0x80 {
        crate::lameboy::cpu::instructions::bit_opcodes::lemma_bit_test_register(u, op);
        let w = bit_test_step(u, op).0.regs;
        assert forall|q: Reg8| q != r implies #[trigger] w.read8(q) == s.regs.read8(q) by {}
    } else {
        let set_bit = op >= 0xC0;
        assert forall|j: u8| j < 8 implies (#[trigger] (bit_assign_step(u, op, set_bit).0.regs.read8(
            r,
        ) >> j) & 1) == (if j == (op / 8) % 8 {
            if set_bit {
                1u8
            } else {
                0u8
            }
        } else {
            (u.regs.read8(r) >> j) & 1
        }) by {
            crate::lameboy::cpu::instructions::bit_opcodes::lemma_assign_bit_register(
                u,
                op,
                set_bit,
                j,
            );
        }
        crate::lameboy::cpu::instructions::bit_opcodes::lemma_assign_bit_register(u, op, set_bit, 0);
    }
}

/// The low block runs LD r,d8 for the opcodes that name it.
#[verifier::rlimit(100)]
proof fn lemma_low_block_load_d8(t: CpuView, op: u8)
    requires
        op < 0x40,
        op % 8 == 6,
        (op / 8) % 8 != 6,
    ensures
        low_block_step(t, op) == load_r8_d8_step(t, numbered_register((op / 8) % 8)),
{
    if op == 0x06 {
        assert(low_block_step(t, op) == load_r8_d8_step(t, Reg8::B));
    } else if op == 0x0E {
        assert(low_block_step(t, op) == load_r8_d8_step(t, Reg8::C));
    } else if op == 0x16 {
        assert(low_block_step(t, op) == load_r8_d8_step(t, Reg8::D));
    } else if op == 0x1E {
        assert(low_block_step(t, op) == load_r8_d8_step(t, Reg8::E));
    } else if op == 0x26 {
        assert(low_block_step(t, op) == load_r8_d8_step(t, Reg8::H));
    } else if op == 0x2E {
        assert(low_block_step(t, op) == load_r8_d8_step(t, Reg8::L));
    } else if op == 0x3E {
        assert(low_block_step(t, op) == load_r8_d8_step(t, Reg8::A));
    }
}

/// LD r,d8 (opcodes below 0x40 ending in 6 or 0xE, register number in bits 5 to 3 other than 6)
/// loads the byte after the opcode into the register; every other register keeps its value,
/// the program counter moves past both bytes and the instruction takes 8 cycles.
pub proof fn lemma_load_immediate_opcode(s: CpuView)
    requires
        s.mmu.read(s.regs.pc) < 0x40,
        s.mmu.read(s.regs.pc) % 8 == 6,
        (s.mmu.read(s.regs.pc) / 8) % 8 != 6,
    ensures
        ({
            let op = s.mmu.read(s.regs.pc);
            let r = numbered_register((op / 8) % 8);
            let (t, cycles) = execute(s);
            &&& t.regs.read8(r) == s.mmu.read(s.regs.pc.wrapping_add(1))
            &&& forall|q: Reg8| q != r ==> #[trigger] t.regs.read8(q) == s.regs.read8(q)
            &&& t.regs.f == s.regs.f
            &&& t.regs.sp == s.regs.sp
            &&& t.regs.pc == s.regs.pc.wrapping_add(2)
            &&& cycles == 8
        }),
{
    let (t, op) = s.fetch8();
    let r = numbered_register((op / 8) % 8);
    assert(execute(s) == load_r8_d8_step(t, r)) by {
        reveal(execute);
        assert(execute(s) == low_block_step(t, op));
        lemma_low_block_load_d8(t, op);
    }
    crate::lameboy::mmu::lemma_touch_keeps_memory(s.mmu, s.regs.pc, s.regs.pc.wrapping_add(1));
    let (u, value) = t.fetch8();
    lemma_write8_read8(u.regs, r, r, value);
    assert forall|q: Reg8| q != r implies #[trigger] u.regs.write8(r, value).read8(q)
        == u.regs.read8(q) by {
        lemma_write8_read8(u.regs, r, q, value);
    }
}

} // verus!
