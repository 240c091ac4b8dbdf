use pic_emulator::alu::{
    add_bytes, decrement, increment, rotate_left, rotate_right, sub_bytes, swap_nibbles,
};
use pic_emulator::cpu::CPU;
use pic_emulator::bits::{
    clear_bit, get_bit, get_high_byte, get_low_byte, set_bit, set_bit_enabled,
};

#[test]
fn get_bit_reads_each_position() {
    assert!(get_bit(0b0000_0001, 0));
    assert!(!get_bit(0b0000_0001, 1));
    assert!(get_bit(0b1000_0000, 7));
    assert!(!get_bit(0b0111_1111, 7));
    assert!(get_bit(0b0010_0000, 5));
}

#[test]
fn set_and_clear_bit_touch_one_bit() {
    let mut byte = 0b0101_0101u8;
    set_bit(&mut byte, 1);
    assert_eq!(byte, 0b0101_0111);
    set_bit(&mut byte, 1);
    assert_eq!(byte, 0b0101_0111);
    clear_bit(&mut byte, 0);
    assert_eq!(byte, 0b0101_0110);
    clear_bit(&mut byte, 7);
    assert_eq!(byte, 0b0101_0110);
    set_bit(&mut byte, 7);
    assert_eq!(byte, 0b1101_0110);
}

#[test]
fn set_bit_enabled_writes_the_value() {
    let mut byte = 0u8;
    set_bit_enabled(&mut byte, 2, true);
    assert_eq!(byte, 0x04);
    set_bit_enabled(&mut byte, 2, false);
    assert_eq!(byte, 0x00);
    set_bit_enabled(&mut byte, 7, true);
    set_bit_enabled(&mut byte, 0, true);
    assert_eq!(byte, 0x81);
}

#[test]
fn high_and_low_byte_split_a_word() {
    assert_eq!(get_high_byte(0x3FFF), 0x3F);
    assert_eq!(get_low_byte(0x3FFF), 0xFF);
    assert_eq!(get_high_byte(0x00AB), 0x00);
    assert_eq!(get_low_byte(0xAB00), 0x00);
    assert_eq!(get_high_byte(0xAB00), 0xAB);
}

#[test]
fn add_bytes_gives_sum_and_carry() {
    assert_eq!(add_bytes(0xFF, 0x01), (0x00, true));
    assert_eq!(add_bytes(0x0F, 0x01), (0x10, false));
    assert_eq!(add_bytes(0xF0, 0x10), (0x00, true));
    assert_eq!(add_bytes(0x12, 0x34), (0x46, false));
    assert_eq!(add_bytes(0x00, 0x00), (0x00, false));
    assert_eq!(add_bytes(0xFF, 0xFF), (0xFE, true));
}

#[test]
fn sub_bytes_carry_means_no_borrow() {
    assert_eq!(sub_bytes(0x05, 0x03), (0x02, true, true));
    assert_eq!(sub_bytes(0x03, 0x05), (0xFE, false, false));
    assert_eq!(sub_bytes(0x10, 0x01), (0x0F, true, false));
    assert_eq!(sub_bytes(0x42, 0x42), (0x00, true, true));
    assert_eq!(sub_bytes(0x00, 0x01), (0xFF, false, false));
}

#[test]
fn digit_carry_looks_at_the_low_nibbles() {
    let cpu = CPU::new();
    assert!(cpu.check_digit_carry(0x08, 0x08));
    assert!(cpu.check_digit_carry(0xFF, 0x01));
    assert!(!cpu.check_digit_carry(0x07, 0x08));
    assert!(!cpu.check_digit_carry(0xF0, 0xF0));
}

#[test]
fn increment_and_decrement_wrap() {
    assert_eq!(increment(0xFF), 0x00);
    assert_eq!(increment(0x7F), 0x80);
    assert_eq!(decrement(0x00), 0xFF);
    assert_eq!(decrement(0x01), 0x00);
}

#[test]
fn swap_nibbles_twice_is_the_identity() {
    assert_eq!(swap_nibbles(0xA5), 0x5A);
    assert_eq!(swap_nibbles(0x0F), 0xF0);
    for byte in 0..=255u8 {
        assert_eq!(swap_nibbles(swap_nibbles(byte)), byte);
    }
}

#[test]
fn complement_twice_is_the_identity() {
    for byte in 0..=255u8 {
        assert_eq!(!(!byte), byte);
    }
}

#[test]
fn rotations_go_through_the_carry() {
    assert_eq!(rotate_left(0x80, false), (0x00, true));
    assert_eq!(rotate_left(0x01, true), (0x03, false));
    assert_eq!(rotate_left(0xFF, false), (0xFE, true));
    assert_eq!(rotate_right(0x01, false), (0x00, true));
    assert_eq!(rotate_right(0x80, true), (0xC0, false));
    assert_eq!(rotate_right(0x02, false), (0x01, false));
}
