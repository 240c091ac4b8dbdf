use pic_emulator::text::{
    decimal_len, digit_str, make_freg_line, make_pcintern_line, make_register_line,
    make_source_line, make_statusbit_line, push_decimal, push_hex2, push_zero_padded,
};

#[test]
fn hex_digits_are_lower_case() {
    let digits: Vec<&str> = (0..16u8).map(digit_str).collect();
    assert_eq!(digits.concat(), "0123456789abcdef");
}

#[test]
fn bytes_are_two_hex_digits() {
    let mut out = String::from(">");
    push_hex2(&mut out, 0x00);
    push_hex2(&mut out, 0x0A);
    push_hex2(&mut out, 0xA0);
    push_hex2(&mut out, 0xFF);
    assert_eq!(out, ">000aa0ff");
}

#[test]
fn decimal_has_no_leading_zeros() {
    let mut out = String::new();
    push_decimal(&mut out, 0);
    out.push(' ');
    push_decimal(&mut out, 9);
    out.push(' ');
    push_decimal(&mut out, 10);
    out.push(' ');
    push_decimal(&mut out, 8191);
    out.push(' ');
    push_decimal(&mut out, u64::MAX);
    assert_eq!(out, "0 9 10 8191 18446744073709551615");
    assert_eq!(decimal_len(0), 1);
    assert_eq!(decimal_len(9), 1);
    assert_eq!(decimal_len(10), 2);
    assert_eq!(decimal_len(u64::MAX), 20);
}

#[test]
fn padding_fills_up_to_the_width() {
    let mut out = String::new();
    push_zero_padded(&mut out, 0, 4);
    out.push(' ');
    push_zero_padded(&mut out, 42, 4);
    out.push(' ');
    push_zero_padded(&mut out, 8191, 4);
    out.push(' ');
    push_zero_padded(&mut out, 12345, 4);
    out.push(' ');
    push_zero_padded(&mut out, 7, 0);
    assert_eq!(out, "0000 0042 8191 12345 7");
}

#[test]
fn command_lines_have_their_format() {
    assert_eq!(make_register_line("WREG", 0xFF), "WREG ffh");
    assert_eq!(make_register_line("PCL", 0x05), "PCL 05h");
    assert_eq!(make_register_line("TIMER0", 0x00), "TIMER0 00h");
    assert_eq!(make_source_line("SETLINE", 17), "SETLINE 17");
    assert_eq!(make_source_line("RESLINE", 0), "RESLINE 0");
    assert_eq!(make_pcintern_line(0), "PCINTERN 0000");
    assert_eq!(make_pcintern_line(0x1FFF), "PCINTERN 8191");
    assert_eq!(make_statusbit_line(2, true), "STATUSBIT 2,1");
    assert_eq!(make_statusbit_line(0, false), "STATUSBIT 0,0");
    assert_eq!(make_freg_line(32, 0xAB), "FREG 32,0xab");
    assert_eq!(make_freg_line(255, 0x00), "FREG 255,0x00");
}
