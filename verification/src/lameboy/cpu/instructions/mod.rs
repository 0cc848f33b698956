pub mod alu;
pub mod bit_opcodes;
pub mod calls;
pub mod eight_bit_alu;
pub mod eight_bit_loads;
pub mod jumps;
pub mod misc;
pub mod restarts;
pub mod rotates_and_shifts;
pub mod subroutine_returns;
pub mod sixteen_bit_alu;
pub mod sixteen_bit_loads;
pub mod stack;

use crate::lameboy::cpu::registers::{carry_of, zero_of, Flags, Reg16, Reg8, Register};
use vstd::prelude::*;

verus! {

/// The jump condition that bits 4 and 3 of a conditional opcode select, tested against a
/// flags byte: NZ, Z, NC or C.
pub open spec fn condition_holds(opcode: u8, flags: u8) -> bool {
    let cc = (opcode / 8) % 4;
    if cc == 0 {
        !zero_of(flags)
    } else if cc == 1 {
        zero_of(flags)
    } else if cc == 2 {
        !carry_of(flags)
    } else {
        carry_of(flags)
    }
}

/// The register that the low three bits of an opcode select; 0b110 selects the memory that HL
/// points at.
pub open spec fn opcode_register(opcode: u8) -> Register {
    let r = opcode % 8;
    if r == 7 {
        Register::Reg8(Reg8::A)
    } else if r == 0 {
        Register::Reg8(Reg8::B)
    } else if r == 1 {
        Register::Reg8(Reg8::C)
    } else if r == 2 {
        Register::Reg8(Reg8::D)
    } else if r == 3 {
        Register::Reg8(Reg8::E)
    } else if r == 4 {
        Register::Reg8(Reg8::H)
    } else if r == 5 {
        Register::Reg8(Reg8::L)
    } else {
        Register::Reg16(Reg16::HL)
    }
}

/// The conditions come in opposite pairs: NZ and Z, NC and C. A conditional opcode with bit 3
/// clear tests the opposite of the same opcode with bit 3 set.
pub proof fn lemma_conditions_complementary(opcode: u8, flags: u8)
    requires
        (opcode / 8) % 2 == 0,
    ensures
        condition_holds(opcode, flags) == !condition_holds((opcode + 8) as u8, flags),
{
}

/// Test a jump condition against the flags register of a CPU and return the result as a bool.
///
/// The condition (cc) is defined by the middle two bits (& 0b00011000) of the opcode in the
/// following table:
///
/// | cc | Condition | Flag   |
/// |----|-----------|--------|
/// | 00 | NZ        | Z = 0  |
/// | 01 | Z         | Z = 1  |
/// | 10 | NC        | CY = 0 |
/// | 11 | C         | CY = 1 |
///
pub fn opcode_flag_test(opcode: u8, flags: Flags) -> (b: bool)
    ensures
        b == condition_holds(opcode, flags@),
{
    proof {
        crate::bits::lemma_opcode_fields(opcode);
        crate::bits::lemma_u8_arith(flags@);
    }
    let cc = (opcode & 0b0001_1000) >> 3;
    match cc {
        0b00 => !flags.contains(Flags::ZERO),
        0b01 => flags.contains(Flags::ZERO),
        0b10 => !flags.contains(Flags::CARRY),
        _ => flags.contains(Flags::CARRY),
    }
}

/// The BIT opcodes have a 3-bit value in the opcode corresponding to the bit number to work on
///
pub fn bit_index_from_opcode(opcode: u8) -> (index: u8)
    ensures
        index == (opcode / 8) % 8,
{
    proof {
        crate::bits::lemma_opcode_fields(opcode);
    }
    (opcode & 0b0011_1000) >> 3
}

/// The register, or the memory HL points at, that the low three bits of an opcode select.
pub fn register_from_opcode(opcode: u8) -> (register: Register)
    ensures
        register == opcode_register(opcode),
{
    proof {
        crate::bits::lemma_opcode_fields(opcode);
    }
    let register = opcode & 0b0000_0111;

    match register {
        0b111 => Register::Reg8(Reg8::A),
        0b000 => Register::Reg8(Reg8::B),
        0b001 => Register::Reg8(Reg8::C),
        0b010 => Register::Reg8(Reg8::D),
        0b011 => Register::Reg8(Reg8::E),
        0b100 => Register::Reg8(Reg8::H),
        0b101 => Register::Reg8(Reg8::L),
        _ => Register::Reg16(Reg16::HL),
    }
}

} // verus!
