use lameboy::lameboy::cpu::instructions::{
    bit_index_from_opcode, opcode_flag_test, register_from_opcode,
};
use lameboy::lameboy::cpu::registers::Reg16::HL;
use lameboy::lameboy::cpu::registers::Reg8::{A, B, C, D, E, H, L};
use lameboy::lameboy::cpu::registers::Register::{Reg16, Reg8};
use lameboy::lameboy::cpu::registers::Flags;

fn flags(bits: u8) -> Flags {
    Flags::from_bits_truncate(bits)
}

#[test]
fn check_opcode_flag_nz() {
    assert_eq!(true, opcode_flag_test(0b0000_0000, Flags::empty()));
    assert_eq!(false, opcode_flag_test(0b0000_0000, flags(Flags::ZERO)));
    assert_eq!(true, opcode_flag_test(0b0000_0000, flags(Flags::SUBTRACT)));
    assert_eq!(true, opcode_flag_test(0b0000_0000, flags(Flags::HALF_CARRY)));
    assert_eq!(true, opcode_flag_test(0b0000_0000, flags(Flags::CARRY)));
}

#[test]
fn check_opcode_flag_z() {
    assert_eq!(false, opcode_flag_test(0b0000_1000, Flags::empty()));
    assert_eq!(true, opcode_flag_test(0b0000_1000, flags(Flags::ZERO)));
    assert_eq!(false, opcode_flag_test(0b0000_1000, flags(Flags::SUBTRACT)));
    assert_eq!(false, opcode_flag_test(0b0000_1000, flags(Flags::HALF_CARRY)));
    assert_eq!(false, opcode_flag_test(0b0000_1000, flags(Flags::CARRY)));
}

#[test]
fn check_opcode_flag_nc() {
    assert_eq!(true, opcode_flag_test(0b0001_0000, Flags::empty()));
    assert_eq!(true, opcode_flag_test(0b0001_0000, flags(Flags::ZERO)));
    assert_eq!(true, opcode_flag_test(0b0001_0000, flags(Flags::SUBTRACT)));
    assert_eq!(true, opcode_flag_test(0b0001_0000, flags(Flags::HALF_CARRY)));
    assert_eq!(false, opcode_flag_test(0b0001_0000, flags(Flags::CARRY)));
}

#[test]
fn check_opcode_flag_c() {
    assert_eq!(false, opcode_flag_test(0b0001_1000, Flags::empty()));
    assert_eq!(false, opcode_flag_test(0b0001_1000, flags(Flags::ZERO)));
    assert_eq!(false, opcode_flag_test(0b0001_1000, flags(Flags::SUBTRACT)));
    assert_eq!(false, opcode_flag_test(0b0001_1000, flags(Flags::HALF_CARRY)));
    assert_eq!(true, opcode_flag_test(0b0001_1000, flags(Flags::CARRY)));
}

#[test]
fn test_bit_index_from_opcode() {
    assert_eq!(0, bit_index_from_opcode(0b0000_0000));
    assert_eq!(1, bit_index_from_opcode(0b0000_1000));
    assert_eq!(2, bit_index_from_opcode(0b0001_0000));
    assert_eq!(3, bit_index_from_opcode(0b0001_1000));
    assert_eq!(4, bit_index_from_opcode(0b0010_0000));
    assert_eq!(5, bit_index_from_opcode(0b0010_1000));
    assert_eq!(6, bit_index_from_opcode(0b0011_0000));
    assert_eq!(7, bit_index_from_opcode(0b0011_1000));
}

#[test]
fn test_register_from_opcode() {
    assert_eq!(Reg8(A), register_from_opcode(0b0000_0111));
    assert_eq!(Reg8(B), register_from_opcode(0b0000_0000));
    assert_eq!(Reg8(C), register_from_opcode(0b0000_0001));
    assert_eq!(Reg8(D), register_from_opcode(0b0000_0010));
    assert_eq!(Reg8(E), register_from_opcode(0b0000_0011));
    assert_eq!(Reg8(H), register_from_opcode(0b0000_0100));
    assert_eq!(Reg8(L), register_from_opcode(0b0000_0101));
    assert_eq!(Reg16(HL), register_from_opcode(0b0000_0110));
}

#[test]
fn conditions_of_real_opcodes_are_opposite_pairs() {
    for bits in [0x00u8, 0x10, 0x80, 0x90] {
        let f = flags(bits);
        assert_eq!(opcode_flag_test(0xC2, f), !opcode_flag_test(0xCA, f));
        assert_eq!(opcode_flag_test(0xD2, f), !opcode_flag_test(0xDA, f));
        assert_eq!(opcode_flag_test(0x20, f), !opcode_flag_test(0x28, f));
    }
}
