use gboyrust::cpu::alu::add_16;
use gboyrust::cpu::alu::add_8;
use gboyrust::cpu::alu::add_signed_byte_16;
use gboyrust::cpu::alu::adc_8;
use gboyrust::cpu::alu::and_8;
use gboyrust::cpu::alu::change_flags;
use gboyrust::cpu::alu::check_carry_flag;
use gboyrust::cpu::alu::check_half_carry_flag;
use gboyrust::cpu::alu::check_negative_flag;
use gboyrust::cpu::alu::check_zero_flag;
use gboyrust::cpu::alu::cp_8;
use gboyrust::cpu::alu::dec_16;
use gboyrust::cpu::alu::dec_8;
use gboyrust::cpu::alu::inc_16;
use gboyrust::cpu::alu::inc_8;
use gboyrust::cpu::alu::not_8;
use gboyrust::cpu::alu::or_8;
use gboyrust::cpu::alu::rotate_left_8;
use gboyrust::cpu::alu::rotate_left_8_carry;
use gboyrust::cpu::alu::rotate_right_8;
use gboyrust::cpu::alu::rotate_right_8_carry;
use gboyrust::cpu::alu::sbc_8;
use gboyrust::cpu::alu::shift_left_8;
use gboyrust::cpu::alu::shift_right_arithmetic_8;
use gboyrust::cpu::alu::shift_right_logic_8;
use gboyrust::cpu::alu::sub_8;
use gboyrust::cpu::alu::swap_nibbles_8;
use gboyrust::cpu::alu::toggle_carry;
use gboyrust::cpu::alu::toggle_half_carry;
use gboyrust::cpu::alu::toggle_negative;
use gboyrust::cpu::alu::toggle_zero;
use gboyrust::cpu::alu::unsigned_byte_to_bcd;
use gboyrust::cpu::alu::xor_8;
use gboyrust::cpu::alu::FlagState;

#[test]
fn test_rotate_right_8bit() {
    let flags = 0b0000_0000;
    let value_zero = 0b00_00_00_00;

    let (flags, result) = rotate_right_8_carry(flags, value_zero);

    assert_eq!(result, 0b00_00_00_00);
    assert_eq!(flags, 0b10_00_00_00);

    let value_one = 0b00_00_00_01;

    let (flags, result) = rotate_right_8_carry(flags, value_one);

    assert_eq!(result, 0b00_00_00_00);
    assert_eq!(flags, 0b10_01_00_00);

    let (flags, result) = rotate_right_8_carry(flags, result);

    assert_eq!(result, 0b10_00_00_00);
    assert_eq!(flags, 0b00_00_00_00);

    let (flags, result) = rotate_right_8_carry(flags, result);

    assert_eq!(result, 0b01_00_00_00);
    assert_eq!(flags, 0b00_00_00_00);

    let (flags, result) = rotate_right_8_carry(flags, result);

    assert_eq!(result, 0b00_10_00_00);
    assert_eq!(flags, 0b00_00_00_00);

    let (flags, result) = rotate_right_8_carry(flags, result);

    assert_eq!(result, 0b00_01_00_00);
    assert_eq!(flags, 0b00_00_00_00);

    let (flags, result) = rotate_right_8_carry(flags, result);

    assert_eq!(result, 0b00_00_10_00);
    assert_eq!(flags, 0b00_00_00_00);

    let (flags, result) = rotate_right_8_carry(flags, result);

    assert_eq!(result, 0b00_00_01_00);
    assert_eq!(flags, 0b00_00_00_00);

    let (flags, result) = rotate_right_8_carry(flags, result);

    assert_eq!(result, 0b00_00_00_10);
    assert_eq!(flags, 0b00_00_00_00);

    let (flags, result) = rotate_right_8_carry(flags, result);

    assert_eq!(result, 0b00_00_00_01);
    assert_eq!(flags, 0b00_00_00_00);

    let (flags, result) = rotate_right_8_carry(flags, value_one);

    assert_eq!(result, 0b00_00_00_00);
    assert_eq!(flags, 0b10_01_00_00);
}

#[test]
fn test_cp_8bit() {
    let mut flags = 0b0000_0000;
    flags = cp_8(flags, 0x80, 0x80);

    assert_eq!(flags, 0b11_00_00_00);

    flags = cp_8(flags, 0x80, 0xFF);

    assert_eq!(flags, 0b01_11_00_00);

    flags = cp_8(flags, 0x79, 0x20);

    assert_eq!(flags, 0b01_00_00_00);
}

#[test]
fn test_toggle_carry() {
    let mut flags = 0b00_01_00_00;
    flags = toggle_carry(flags, false);

    assert_eq!(flags, 0b00_00_00_00);

    flags = toggle_carry(flags, true);
    assert_eq!(flags, 0b00_01_00_00);

    flags = 0b11_01_00_00;

    flags = toggle_carry(flags, false);
    assert_eq!(flags, 0b11_00_00_00);

    flags = toggle_carry(flags, true);
    assert_eq!(flags, 0b11_01_00_00);
}

#[test]
fn test_toggle_zero() {
    let mut flags = 0b10_00_00_00;

    flags = toggle_zero(flags, false);
    assert_eq!(flags, 0b00_00_00_00);

    flags = toggle_zero(flags, true);
    assert_eq!(flags, 0b10_00_00_00);

    flags = 0b11_01_00_00;

    flags = toggle_zero(flags, false);
    assert_eq!(flags, 0b01_01_00_00);
    flags = toggle_zero(flags, true);
    assert_eq!(flags, 0b11_01_00_00);
}

#[test]
fn test_check_flags() {
    let mut flags = 0b11_11_00_00;

    assert_eq!(check_zero_flag(flags), true);
    assert_eq!(check_negative_flag(flags), true);
    assert_eq!(check_half_carry_flag(flags), true);
    assert_eq!(check_carry_flag(flags), true);

    flags = 0b01_01_00_00;

    assert_eq!(check_zero_flag(flags), false);
    assert_eq!(check_negative_flag(flags), true);
    assert_eq!(check_half_carry_flag(flags), false);
    assert_eq!(check_carry_flag(flags), true);

    flags = 0b010_10_00_00;

    assert_eq!(check_zero_flag(flags), true);
    assert_eq!(check_negative_flag(flags), false);
    assert_eq!(check_half_carry_flag(flags), true);
    assert_eq!(check_carry_flag(flags), false);
}

#[test]
fn add_8_wraps_and_sets_every_flag_by_its_rule() {
    for a in 0..=255u16 {
        for b in 0..=255u16 {
            let (flags, result) = add_8(0x00, a as u8, b as u8);
            assert_eq!(result as u16, (a + b) % 256);
            assert_eq!(check_zero_flag(flags), result == 0);
            assert_eq!(check_negative_flag(flags), false);
            assert_eq!(check_half_carry_flag(flags), (a & 0xF) + (b & 0xF) > 15);
            assert_eq!(check_carry_flag(flags), a + b > 255);
            assert_eq!(flags & 0x0F, 0);
        }
    }
    assert_eq!(add_8(0x00, 0x3A, 0xC6), (0b1011_0000, 0x00));
    assert_eq!(add_8(0xF0, 0x01, 0x01), (0b0000_0000, 0x02));
}

#[test]
fn sub_8_and_cp_8_set_negative_and_borrow_flags() {
    for a in 0..=255u16 {
        for b in 0..=255u16 {
            let (flags, result) = sub_8(0x00, a as u8, b as u8);
            assert_eq!(result, (a as u8).wrapping_sub(b as u8));
            assert_eq!(flags, cp_8(0x00, a as u8, b as u8));
            assert_eq!(check_negative_flag(flags), true);
            assert_eq!(check_zero_flag(flags), a == b);
            assert_eq!(check_half_carry_flag(flags), (a & 0xF) < (b & 0xF));
            assert_eq!(check_carry_flag(flags), a < b);
        }
    }
    assert_eq!(sub_8(0x00, 0x3E, 0x0F), (0b0110_0000, 0x2F));
    assert_eq!(sub_8(0x00, 0x3E, 0x40), (0b0101_0000, 0xFE));
}

#[test]
fn daa_after_adding_45_and_38_gives_83() {
    let (flags, sum) = add_8(0x00, 0x45, 0x38);
    assert_eq!(sum, 0x7D);
    assert_eq!(check_half_carry_flag(flags), false);
    assert_eq!(check_carry_flag(flags), false);
    let (flags, adjusted) = unsigned_byte_to_bcd(flags, sum);
    assert_eq!(adjusted, 0x83);
    assert_eq!(check_carry_flag(flags), false);
    assert_eq!(check_half_carry_flag(flags), false);
    assert_eq!(check_zero_flag(flags), false);
}

#[test]
fn daa_corrects_both_digits_and_keeps_carry() {
    // 0x99 + 0x01 = 0x9A, which is decimal 100: 0x00 with carry.
    let (flags, sum) = add_8(0x00, 0x99, 0x01);
    assert_eq!(sum, 0x9A);
    assert_eq!(unsigned_byte_to_bcd(flags, sum), (0b1001_0000, 0x00));
    // After a subtraction the correction is taken away: 0x42 - 0x09 = 0x39 -> 0x33.
    let (flags, diff) = sub_8(0x00, 0x42, 0x09);
    assert_eq!(diff, 0x39);
    assert_eq!(check_half_carry_flag(flags), true);
    assert_eq!(unsigned_byte_to_bcd(flags, diff), (0b0100_0000, 0x33));
    // Carry is never cleared.
    assert_eq!(unsigned_byte_to_bcd(0b0001_0000, 0x00), (0b0001_0000, 0x60));
    // The low nibble of the flag byte stays.
    assert_eq!(unsigned_byte_to_bcd(0b0000_0101, 0x0A), (0b0000_0101, 0x10));
}

#[test]
fn nine_rotations_through_carry_come_back() {
    for start in 0..=255u8 {
        for carry in [0x00u8, 0x10u8] {
            let mut flags = carry;
            let mut value = start;
            for _ in 0..9 {
                let rotated = rotate_right_8_carry(flags, value);
                flags = rotated.0;
                value = rotated.1;
            }
            assert_eq!(value, start);
            assert_eq!(flags & 0x10, carry);
        }
    }
}

#[test]
fn eight_rotations_through_carry_come_back_only_for_nine_equal_bits() {
    for start in 0..=255u8 {
        for carry in [0x00u8, 0x10u8] {
            let mut flags = carry;
            let mut value = start;
            for _ in 0..8 {
                let rotated = rotate_right_8_carry(flags, value);
                flags = rotated.0;
                value = rotated.1;
            }
            let back = value == start && flags & 0x10 == carry;
            let alike = (start == 0x00 && carry == 0x00) || (start == 0xFF && carry == 0x10);
            assert_eq!(back, alike);
        }
    }
}

#[test]
fn rotations_and_shifts_give_exact_results() {
    assert_eq!(rotate_left_8(0x00, 0x85), (0b0001_0000, 0x0B));
    assert_eq!(rotate_left_8(0x00, 0x00), (0b1000_0000, 0x00));
    assert_eq!(rotate_right_8(0x00, 0x01), (0b0001_0000, 0x80));
    assert_eq!(rotate_right_8(0x10, 0x00), (0b1000_0000, 0x00));
    assert_eq!(rotate_left_8_carry(0x10, 0x80), (0b0001_0000, 0x01));
    assert_eq!(rotate_left_8_carry(0x00, 0x80), (0b1001_0000, 0x00));
    assert_eq!(rotate_left_8_carry(0x00, 0x00), (0b1000_0000, 0x00));
    assert_eq!(rotate_left_8_carry(0xF5, 0x40), (0b0000_0101, 0x81));
    assert_eq!(rotate_right_8_carry(0x00, 0x00), (0b1000_0000, 0x00));
    assert_eq!(rotate_right_8_carry(0x00, 0x01), (0b1001_0000, 0x00));
    assert_eq!(rotate_right_8_carry(0x10, 0x02), (0b0000_0000, 0x81));
    assert_eq!(shift_left_8(0x00, 0x80), (0b1001_0000, 0x00));
    assert_eq!(shift_left_8(0x00, 0x41), (0b0000_0000, 0x82));
    assert_eq!(shift_right_arithmetic_8(0x00, 0x81), (0b0001_0000, 0xC0));
    assert_eq!(shift_right_arithmetic_8(0x00, 0x01), (0b1001_0000, 0x00));
    assert_eq!(shift_right_logic_8(0x00, 0x81), (0b0001_0000, 0x40));
    assert_eq!(shift_right_logic_8(0xF0, 0x02), (0b0000_0000, 0x01));
    assert_eq!(swap_nibbles_8(0xF0, 0xA5), (0b0000_0000, 0x5A));
    assert_eq!(swap_nibbles_8(0x00, 0x00), (0b1000_0000, 0x00));
}

#[test]
fn logic_operations_set_their_flags() {
    assert_eq!(and_8(0x00, 0x5A, 0x3F), (0b0010_0000, 0x1A));
    assert_eq!(and_8(0x10, 0x5A, 0x00), (0b1010_0000, 0x00));
    assert_eq!(or_8(0xF0, 0x5A, 0x0F), (0b0000_0000, 0x5F));
    assert_eq!(or_8(0x00, 0x00, 0x00), (0b1000_0000, 0x00));
    assert_eq!(xor_8(0xF0, 0xFF, 0x0F), (0b0000_0000, 0xF0));
    assert_eq!(xor_8(0x00, 0xFF, 0xFF), (0b1000_0000, 0x00));
    assert_eq!(not_8(0b1001_0000, 0x35), (0b1111_0000, 0xCA));
    assert_eq!(not_8(0b0000_0000, 0xFF), (0b0110_0000, 0x00));
}

#[test]
fn carry_goes_into_adc_and_sbc() {
    assert_eq!(adc_8(0x10, 0xE1, 0x0F), (0b0010_0000, 0xF1));
    assert_eq!(adc_8(0x10, 0xE1, 0x1E), (0b1011_0000, 0x00));
    assert_eq!(adc_8(0x00, 0xE1, 0x1E), (0b0000_0000, 0xFF));
    assert_eq!(adc_8(0x10, 0x00, 0xFF), (0b1011_0000, 0x00));
    assert_eq!(sbc_8(0x10, 0x3B, 0x2A), (0b0100_0000, 0x10));
    assert_eq!(sbc_8(0x10, 0x3B, 0x3A), (0b1100_0000, 0x00));
    assert_eq!(sbc_8(0x10, 0x3B, 0x4F), (0b0111_0000, 0xEB));
    assert_eq!(sbc_8(0x10, 0x00, 0xFF), (0b1111_0000, 0x00));
}

#[test]
fn inc_and_dec_leave_carry_alone() {
    assert_eq!(inc_8(0x10, 0xFF), (0b1011_0000, 0x00));
    assert_eq!(inc_8(0x00, 0x0F), (0b0010_0000, 0x10));
    assert_eq!(inc_8(0x10, 0x41), (0b0001_0000, 0x42));
    assert_eq!(dec_8(0x10, 0x01), (0b1101_0000, 0x00));
    assert_eq!(dec_8(0x00, 0x00), (0b0110_0000, 0xFF));
    assert_eq!(dec_8(0x00, 0x10), (0b0110_0000, 0x0F));
    assert_eq!(inc_16(0xFFFF), 0x0000);
    assert_eq!(inc_16(0x00FF), 0x0100);
    assert_eq!(dec_16(0x0000), 0xFFFF);
    assert_eq!(dec_16(0x0100), 0x00FF);
}

#[test]
fn add_16_carries_out_of_bit_11_and_bit_15() {
    assert_eq!(add_16(0x80, 0x8A23, 0x0605), (0b1010_0000, 0x9028));
    assert_eq!(add_16(0x00, 0x8A23, 0x8A23), (0b0011_0000, 0x1446));
    assert_eq!(add_16(0x40, 0x0001, 0x0001), (0b0000_0000, 0x0002));
    assert_eq!(add_16(0x00, 0xFFFF, 0x0001), (0b0011_0000, 0x0000));
}

#[test]
fn add_signed_byte_16_adds_a_signed_offset() {
    assert_eq!(add_signed_byte_16(0x00, 0x1000, -1), (0b0000_0000, 0x0FFF));
    assert_eq!(add_signed_byte_16(0x00, 0x1001, -1), (0b0010_0000, 0x1000));
    assert_eq!(add_signed_byte_16(0x00, 0x0000, -1), (0b0000_0000, 0xFFFF));
    assert_eq!(add_signed_byte_16(0x00, 0x7FFF, 1), (0b0011_0000, 0x8000));
    assert_eq!(add_signed_byte_16(0x80, 0x0005, 3), (0b1000_0000, 0x0008));
}

#[test]
fn change_flags_applies_each_change_and_keeps_the_low_nibble() {
    assert_eq!(
        change_flags(
            0b0101_1010,
            FlagState::Toggle(true),
            FlagState::Clear,
            FlagState::SetOn,
            FlagState::Untouched
        ),
        0b1011_1010
    );
    assert_eq!(
        change_flags(
            0b1111_0000,
            FlagState::Untouched,
            FlagState::Untouched,
            FlagState::Toggle(false),
            FlagState::Clear
        ),
        0b1100_0000
    );
    assert_eq!(toggle_negative(0b0000_0000, true), 0b0100_0000);
    assert_eq!(toggle_negative(0b1111_0000, false), 0b1011_0000);
    assert_eq!(toggle_half_carry(0b0000_0000, true), 0b0010_0000);
    assert_eq!(toggle_half_carry(0b1111_0000, false), 0b1101_0000);
}

#[test]
fn a_rotation_right_through_carry_takes_back_one_to_the_left() {
    for start in 0..=255u8 {
        for flags in [0x00u8, 0x10, 0xE0, 0xF0] {
            let (left_flags, left) = rotate_left_8_carry(flags, start);
            assert_eq!(left, (start << 1) | ((flags >> 4) & 1));
            assert_eq!(left_flags & 0x10 != 0, start & 0x80 != 0);
            assert_eq!(left_flags & 0x80 != 0, left == 0);
            assert_eq!(left_flags & 0x60, 0);
            let (back_flags, back) = rotate_right_8_carry(left_flags, left);
            assert_eq!(back, start);
            assert_eq!(back_flags & 0x10, flags & 0x10);
            assert_eq!(back_flags & 0x80 != 0, back == 0);
        }
    }
}
