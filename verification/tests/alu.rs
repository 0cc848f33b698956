use lameboy::lameboy::cpu::instructions::alu::{
    alu_add_8bit, alu_and_8bit, alu_cp_8bit, alu_dec_8bit, alu_inc_8bit, alu_or_8bit,
    alu_rotate_left, alu_rotate_right, alu_shift_left, alu_shift_right, alu_sub_8bit, alu_swap,
    alu_xor_8bit,
};
use lameboy::lameboy::cpu::registers::Flags;

fn flags(bits: u8) -> Flags {
    Flags::from_bits_truncate(bits)
}

const Z: u8 = Flags::ZERO;
const N: u8 = Flags::SUBTRACT;
const H: u8 = Flags::HALF_CARRY;
const C: u8 = Flags::CARRY;

#[test]
fn alu_check_basic() {
    assert_eq!(alu_add_8bit(0x00, Flags::empty(), 0x01, false), (0x01, Flags::empty()));
}

#[test]
fn alu_check_overflow_to_zero() {
    assert_eq!(alu_add_8bit(0xFF, Flags::empty(), 0x01, false), (0x00, flags(Z | H | C)));
}

#[test]
fn alu_check_overflow() {
    assert_eq!(alu_add_8bit(0xFF, Flags::empty(), 0x69, false), (0x68, flags(H | C)));
}

#[test]
fn alu_check_half_overflow() {
    assert_eq!(alu_add_8bit(0x0F, Flags::empty(), 0x01, false), (0x10, flags(H)));
}

#[test]
fn add_check_basic() {
    assert_eq!(alu_add_8bit(0x00, Flags::empty(), 0x01, false), (0x01, Flags::empty()));
}

#[test]
fn check_reset_subtract() {
    assert_eq!(alu_add_8bit(0x00, flags(N), 0x01, false), (0x01, Flags::empty()));
}

#[test]
fn add_check_overflow_to_zero() {
    assert_eq!(alu_add_8bit(0xFF, Flags::empty(), 0x01, false), (0x00, flags(Z | H | C)));
}

#[test]
fn add_check_overflow() {
    assert_eq!(alu_add_8bit(0xFF, Flags::empty(), 0x69, false), (0x68, flags(H | C)));
}

#[test]
fn add_check_half_overflow() {
    assert_eq!(alu_add_8bit(0x0F, flags(C), 0x01, false), (0x10, flags(H)));
}

#[test]
fn add_check_basic_use_carry() {
    assert_eq!(alu_add_8bit(0x00, flags(C), 0x01, true), (0x02, Flags::empty()));
}

#[test]
fn check_overflow_to_zero_use_carry() {
    assert_eq!(alu_add_8bit(0xFE, flags(C), 0x01, true), (0x00, flags(Z | H | C)));
}

#[test]
fn check_overflow_use_carry() {
    assert_eq!(alu_add_8bit(0xFF, flags(C), 0x69, true), (0x69, flags(H | C)));
}

#[test]
fn check_half_overflow_use_carry() {
    assert_eq!(alu_add_8bit(0x0F, flags(C), 0x01, true), (0x11, flags(H)));
}

#[test]
fn add_carry_in_that_wraps_a_whole_byte() {
    assert_eq!(alu_add_8bit(0x42, flags(C), 0xFF, true), (0x42, flags(H | C)));
}

#[test]
fn and_check_basic() {
    assert_eq!(alu_and_8bit(0xFF, Flags::empty(), 0xFF), (0xFF, flags(H)));
}

#[test]
fn and_check_flags_get_reset() {
    assert_eq!(alu_and_8bit(0x01, flags(N | C), 0x01), (0x01, flags(H)));
}

#[test]
fn and_check_zero_flag_set() {
    assert_eq!(alu_and_8bit(0xF0, flags(N | C), 0x0F), (0x00, flags(Z | H)));
}

#[test]
fn and_check_masking() {
    assert_eq!(alu_and_8bit(0b1111_1111, flags(N | C), 0b0101_0101), (0b0101_0101, flags(H)));
    assert_eq!(alu_and_8bit(0b0000_1111, flags(N | C), 0b0101_0101), (0b0000_0101, flags(H)));
    assert_eq!(alu_and_8bit(0b1111_0000, flags(N | C), 0b0101_0101), (0b0101_0000, flags(H)));

    assert_eq!(alu_and_8bit(0b0101_0101, flags(N | C), 0b1111_1111), (0b0101_0101, flags(H)));
    assert_eq!(alu_and_8bit(0b0101_0101, flags(N | C), 0b0000_1111), (0b0000_0101, flags(H)));
    assert_eq!(alu_and_8bit(0b0101_0101, flags(N | C), 0b1111_0000), (0b0101_0000, flags(H)));
}

#[test]
fn increment_decrement_check_basic() {
    assert_eq!(alu_inc_8bit(0x00, Flags::empty()), (0x01, Flags::empty()));
    assert_eq!(alu_dec_8bit(0x08, Flags::empty()), (0x07, flags(N)));
}

#[test]
fn check_zero_flag_if_overflow() {
    assert_eq!(alu_inc_8bit(0xFF, Flags::empty()), (0x00, flags(Z | H)));
}

#[test]
fn check_half_carry_flag_if_overflow() {
    assert_eq!(alu_inc_8bit(0x0F, Flags::empty()), (0x10, flags(H)));
}

#[test]
fn check_subtract_flag_reset() {
    assert_eq!(alu_inc_8bit(0x00, flags(N)), (0x01, Flags::empty()));
}

#[test]
fn increment_decrement_check_carry_flag_unchanged() {
    assert_eq!(alu_inc_8bit(0x00, flags(C)), (0x01, flags(C)));
    assert_eq!(alu_inc_8bit(0x0F, flags(C)), (0x10, flags(H | C)));
    assert_eq!(alu_inc_8bit(0xFF, flags(C)), (0x00, flags(Z | H | C)));

    assert_eq!(alu_inc_8bit(0x00, Flags::empty()), (0x01, Flags::empty()));
    assert_eq!(alu_inc_8bit(0x0F, Flags::empty()), (0x10, flags(H)));
    assert_eq!(alu_inc_8bit(0xFF, Flags::empty()), (0x00, flags(Z | H)));

    assert_eq!(alu_dec_8bit(0x00, flags(C)), (0xFF, flags(N | H | C)));
    assert_eq!(alu_dec_8bit(0xF0, flags(C)), (0xEF, flags(N | H | C)));
    assert_eq!(alu_dec_8bit(0x01, flags(C)), (0x00, flags(N | Z | C)));

    assert_eq!(alu_dec_8bit(0x00, Flags::empty()), (0xFF, flags(N | H)));
    assert_eq!(alu_dec_8bit(0xF0, Flags::empty()), (0xEF, flags(N | H)));
    assert_eq!(alu_dec_8bit(0x01, Flags::empty()), (0x00, flags(N | Z)));
}

#[test]
fn check_zero_flag() {
    assert_eq!(alu_dec_8bit(0x01, Flags::empty()), (0x00, flags(N | Z)));
}

#[test]
fn check_half_carry_flag_if_underflow() {
    assert_eq!(alu_dec_8bit(0xF0, Flags::empty()), (0xEF, flags(N | H)));
}

#[test]
fn rotate_check_basic() {
    assert_eq!(alu_rotate_left(0x04, Flags::empty(), false), (0x08, Flags::empty()));
    assert_eq!(alu_rotate_left(0x04, Flags::empty(), true), (0x08, Flags::empty()));

    assert_eq!(alu_rotate_right(0x08, Flags::empty(), false), (0x04, Flags::empty()));
    assert_eq!(alu_rotate_right(0x08, Flags::empty(), true), (0x04, Flags::empty()));
}

#[test]
fn rotate_reset_subtract_flag() {
    assert_eq!(alu_rotate_left(0x04, flags(N), false), (0x08, Flags::empty()));
    assert_eq!(alu_rotate_left(0x04, flags(N), true), (0x08, Flags::empty()));

    assert_eq!(alu_rotate_right(0x08, flags(N), false), (0x04, Flags::empty()));
    assert_eq!(alu_rotate_right(0x08, flags(N), true), (0x04, Flags::empty()));
}

#[test]
fn rotate_reset_half_carry_flag() {
    assert_eq!(alu_rotate_left(0x04, flags(H), false), (0x08, Flags::empty()));
    assert_eq!(alu_rotate_left(0x04, flags(H), true), (0x08, Flags::empty()));

    assert_eq!(alu_rotate_right(0x08, flags(H), false), (0x04, Flags::empty()));
    assert_eq!(alu_rotate_right(0x08, flags(H), true), (0x04, Flags::empty()));
}

#[test]
fn highest_bit_sets_carry() {
    assert_eq!(alu_rotate_left(0b1000_0000, Flags::empty(), false), (0b0000_0001, flags(C)));
    assert_eq!(alu_rotate_left(0b0100_0000, Flags::empty(), false), (0b1000_0000, Flags::empty()));

    assert_eq!(alu_rotate_left(0b1000_0000, Flags::empty(), true), (0b0000_0000, flags(Z | C)));
    assert_eq!(alu_rotate_left(0b0100_0000, Flags::empty(), true), (0b1000_0000, Flags::empty()));
}

#[test]
fn rotate_zero_flag_gets_set() {
    assert_eq!(alu_rotate_left(0b0000_0000, Flags::empty(), false), (0b0000_0000, flags(Z)));
    assert_eq!(alu_rotate_left(0b1000_0000, Flags::empty(), true), (0b0000_0000, flags(Z | C)));

    assert_eq!(alu_rotate_right(0b0000_0000, Flags::empty(), false), (0b0000_0000, flags(Z)));
    assert_eq!(alu_rotate_right(0b0000_0001, Flags::empty(), true), (0b0000_0000, flags(Z | C)));
}

#[test]
fn carry_flat_sets_low_bit_if_through_carry() {
    assert_eq!(alu_rotate_left(0b0000_0000, flags(C), false), (0b0000_0000, flags(Z)));
    assert_eq!(alu_rotate_left(0b0000_0000, Flags::empty(), false), (0b0000_0000, flags(Z)));

    assert_eq!(alu_rotate_left(0b0000_0000, flags(C), true), (0b0000_0001, Flags::empty()));
    assert_eq!(alu_rotate_left(0b0000_0000, Flags::empty(), true), (0b0000_0000, flags(Z)));
}

#[test]
fn lowest_bit_sets_carry() {
    assert_eq!(alu_rotate_right(0b0000_0001, Flags::empty(), false), (0b1000_0000, flags(C)));
    assert_eq!(alu_rotate_right(0b0000_0010, Flags::empty(), false), (0b0000_0001, Flags::empty()));

    assert_eq!(alu_rotate_right(0b0000_0001, Flags::empty(), true), (0b0000_0000, flags(Z | C)));
    assert_eq!(alu_rotate_right(0b0000_0010, Flags::empty(), true), (0b0000_0001, Flags::empty()));
}

#[test]
fn carry_flat_sets_high_bit_if_through_carry() {
    assert_eq!(alu_rotate_right(0b0000_0000, flags(C), false), (0b0000_0000, flags(Z)));
    assert_eq!(alu_rotate_right(0b0000_0000, Flags::empty(), false), (0b0000_0000, flags(Z)));

    assert_eq!(alu_rotate_right(0b0000_0000, flags(C), true), (0b1000_0000, Flags::empty()));
    assert_eq!(alu_rotate_right(0b0000_0000, Flags::empty(), true), (0b0000_0000, flags(Z)));
}

#[test]
fn shift_check_basic() {
    assert_eq!(alu_shift_left(0x04, Flags::empty()), (0x08, Flags::empty()));
    assert_eq!(alu_shift_right(0x08, Flags::empty(), false), (0x04, Flags::empty()));
}

#[test]
fn shift_zero_flag_set_on_zero_result() {
    assert_eq!(alu_shift_left(0b1000_0000, Flags::empty()), (0b0000_0000, flags(Z | C)));
    assert_eq!(alu_shift_left(0b0000_0000, Flags::empty()), (0b0000_0000, flags(Z)));

    assert_eq!(alu_shift_right(0b0000_0001, Flags::empty(), false), (0b0000_0000, flags(Z | C)));
    assert_eq!(alu_shift_right(0b0000_0000, Flags::empty(), false), (0b0000_0000, flags(Z)));

    assert_eq!(alu_shift_right(0b0000_0001, Flags::empty(), true), (0b0000_0000, flags(Z | C)));
    assert_eq!(alu_shift_right(0b0000_0000, Flags::empty(), true), (0b0000_0000, flags(Z)));
}

#[test]
fn high_bit_put_in_carry_flag() {
    assert_eq!(alu_shift_left(0b1100_0000, Flags::empty()), (0b1000_0000, flags(C)));
    assert_eq!(alu_shift_left(0b1000_0000, Flags::empty()), (0b0000_0000, flags(Z | C)));
    assert_eq!(alu_shift_left(0b0000_0000, Flags::empty()), (0b0000_0000, flags(Z)));
}

#[test]
fn shift_half_carry_and_subtract_flags_reset() {
    assert_eq!(alu_shift_left(0b0000_0001, flags(N | H)), (0b0000_0010, Flags::empty()));
    assert_eq!(alu_shift_right(0b0000_0100, flags(N | H), false), (0b0000_0010, Flags::empty()));
}

#[test]
fn reset_high_bit_if_told() {
    assert_eq!(alu_shift_right(0b1000_0010, Flags::empty(), false), (0b1100_0001, Flags::empty()));
    assert_eq!(alu_shift_right(0b1000_0010, Flags::empty(), true), (0b0100_0001, Flags::empty()));
}

#[test]
fn low_bit_put_in_carry_flag() {
    assert_eq!(alu_shift_right(0b0000_0011, Flags::empty(), false), (0b0000_0001, flags(C)));
    assert_eq!(alu_shift_right(0b0000_0001, Flags::empty(), false), (0b0000_0000, flags(Z | C)));
    assert_eq!(alu_shift_right(0b0000_0000, Flags::empty(), false), (0b0000_0000, flags(Z)));
}

#[test]
fn sub_check_basic() {
    assert_eq!(alu_sub_8bit(0xFF, Flags::empty(), 0x01, false), (0xFE, flags(N)));
}

#[test]
fn check_underflow_to_zero() {
    assert_eq!(alu_sub_8bit(0x01, Flags::empty(), 0x01, false), (0x00, flags(Z | N)));
}

#[test]
fn check_underflow() {
    assert_eq!(alu_sub_8bit(0x00, Flags::empty(), 0x03, false), (0xFD, flags(N | H | C)));
}

#[test]
fn check_half_underflow() {
    assert_eq!(alu_sub_8bit(0x37, Flags::empty(), 0x17, false), (0x20, flags(N)));
    assert_eq!(alu_sub_8bit(0x37, Flags::empty(), 0x18, false), (0x1F, flags(N | H)));
}

#[test]
fn sub_check_basic_use_carry() {
    assert_eq!(alu_sub_8bit(0x05, Flags::empty(), 0x01, true), (0x04, flags(N)));
    assert_eq!(alu_sub_8bit(0x05, flags(C), 0x01, true), (0x03, flags(N)));
}

#[test]
fn check_underflow_to_zero_use_carry() {
    assert_eq!(alu_sub_8bit(0x02, flags(C), 0x01, true), (0x00, flags(Z | N)));
}

#[test]
fn check_underflow_use_carry() {
    assert_eq!(alu_sub_8bit(0x00, flags(C), 0x03, true), (0xFC, flags(N | H | C)));
}

#[test]
fn check_half_underflow_use_carry() {
    assert_eq!(alu_sub_8bit(0x38, flags(C), 0x18, true), (0x1F, flags(N | H)));
}

#[test]
fn carry_boundary_case() {
    assert_eq!(alu_sub_8bit(0xFF, flags(C), 0xFF, true), (0xFF, flags(N | C | H)));
}

#[test]
fn swap_check_basic() {
    assert_eq!(alu_swap(0xF0, Flags::empty()), (0x0F, Flags::empty()));
}

#[test]
fn set_zero_flag_if_result_zero() {
    assert_eq!(alu_swap(0x00, Flags::empty()), (0x00, flags(Z)));
}

#[test]
fn clear_all_flags() {
    assert_eq!(alu_swap(0x01, flags(Z | N | H | C)), (0x10, Flags::empty()));
}

#[test]
fn xor_check_basic() {
    assert_eq!(alu_xor_8bit(0xFF, Flags::empty(), 0x0A), (0xF5, Flags::empty()));
}

#[test]
fn xor_check_flags_get_reset() {
    assert_eq!(alu_xor_8bit(0x01, flags(Z | N | H | C), 0x10), (0x11, Flags::empty()));
}

#[test]
fn xor_check_zero_flag_set() {
    assert_eq!(alu_xor_8bit(0xF0, Flags::empty(), 0xF0), (0x00, flags(Z)));
}

#[test]
fn xor_check_masking() {
    assert_eq!(alu_xor_8bit(0b1111_1111, Flags::empty(), 0b0101_0101), (0b1010_1010, Flags::empty()));
    assert_eq!(alu_xor_8bit(0b0000_1111, Flags::empty(), 0b0101_0101), (0b0101_1010, Flags::empty()));
    assert_eq!(alu_xor_8bit(0b1111_0000, Flags::empty(), 0b0101_0101), (0b1010_0101, Flags::empty()));

    assert_eq!(alu_xor_8bit(0b0101_0101, Flags::empty(), 0b1111_1111), (0b1010_1010, Flags::empty()));
    assert_eq!(alu_xor_8bit(0b0101_0101, Flags::empty(), 0b0000_1111), (0b0101_1010, Flags::empty()));
    assert_eq!(alu_xor_8bit(0b0101_0101, Flags::empty(), 0b1111_0000), (0b1010_0101, Flags::empty()));
}

#[test]
fn or_results_and_flags() {
    assert_eq!(alu_or_8bit(0x0F, flags(N | H | C), 0xF0), (0xFF, Flags::empty()));
    assert_eq!(alu_or_8bit(0x00, Flags::empty(), 0x00), (0x00, flags(Z)));
}

#[test]
fn compare_sets_flags_like_subtract() {
    assert_eq!(alu_cp_8bit(0x42, Flags::empty(), 0x42), flags(Z | N));
    assert_eq!(alu_cp_8bit(0x00, Flags::empty(), 0x03), flags(N | H | C));
    assert_eq!(alu_cp_8bit(0x37, Flags::empty(), 0x18), flags(N | H));
    assert_eq!(alu_cp_8bit(0x37, flags(C), 0x18), alu_sub_8bit(0x37, flags(C), 0x18, false).1);
}

#[test]
fn inverse_operations() {
    for x in [0x00u8, 0x01, 0x0F, 0x10, 0x7F, 0x80, 0xA5, 0xFF] {
        assert_eq!(alu_dec_8bit(alu_inc_8bit(x, Flags::empty()).0, flags(C)).0, x);
        assert_eq!(alu_swap(alu_swap(x, Flags::empty()).0, Flags::empty()).0, x);
        assert_eq!(
            alu_rotate_right(alu_rotate_left(x, Flags::empty(), false).0, flags(C), false).0,
            x
        );
        let (left, left_flags) = alu_rotate_left(x, flags(C), true);
        assert_eq!(alu_rotate_right(left, left_flags, true), (x, alu_rotate_right(left, left_flags, true).1));
        assert!(alu_rotate_right(left, left_flags, true).1.contains(Flags::CARRY));
        assert_eq!(alu_sub_8bit(alu_add_8bit(x, Flags::empty(), 0x9C, false).0, flags(C), 0x9C, false).0, x);
        assert_eq!(alu_xor_8bit(x, Flags::empty(), x).0, 0);
        assert_eq!(alu_and_8bit(x, Flags::empty(), x).0, x);
        assert_eq!(alu_or_8bit(x, Flags::empty(), x).0, x);
    }
}
