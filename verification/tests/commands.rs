use pic_emulator::clock::{delay_for, period_for};
use pic_emulator::command::{
    equals_str, is_load_command, parse_command, parse_number, split_field, Command, Inbound, Unit,
};
use pic_emulator::cpu::CPU;
use pic_emulator::parser::chars_of;

fn line(text: &str) -> Inbound {
    Inbound { line: String::from(text), listing: None }
}

fn word(text: &str) -> Vec<char> {
    text.chars().collect()
}

#[test]
fn keywords_are_recognised() {
    assert_eq!(parse_command("STEP"), Command::Step);
    assert_eq!(parse_command("RESET"), Command::Reset);
    assert_eq!(parse_command("START"), Command::Start);
    assert_eq!(parse_command("STOPP"), Command::Stop);
    assert_eq!(parse_command("STEP now"), Command::Step);
}

#[test]
fn other_lines_are_unknown() {
    assert_eq!(parse_command(""), Command::Unknown);
    assert_eq!(parse_command("STOP"), Command::Unknown);
    assert_eq!(parse_command("step"), Command::Unknown);
    assert_eq!(parse_command(" STEP"), Command::Unknown);
    assert_eq!(parse_command("STEPS"), Command::Unknown);
    assert_eq!(parse_command("PORTC 1,1"), Command::Unknown);
}

#[test]
fn paths_are_load_commands() {
    assert_eq!(parse_command("/home/user/test.lst"), Command::Load);
    assert_eq!(parse_command("C:\\pic\\test.lst"), Command::Load);
    assert_eq!(parse_command("d:/pic/test.lst"), Command::Load);
    assert_eq!(parse_command("/"), Command::Load);
    assert_eq!(parse_command("1:\\x"), Command::Unknown);
    assert_eq!(parse_command("test.lst"), Command::Unknown);
    assert!(is_load_command(&word("/STEP")));
    assert!(!is_load_command(&word("C")));
    assert!(!is_load_command(&word("")));
}

#[test]
fn xtal_takes_a_count_and_a_unit() {
    assert_eq!(parse_command("XTAL 4 MHz"), Command::Xtal(4, Unit::MegaHertz));
    assert_eq!(parse_command("XTAL 32 kHz"), Command::Xtal(32, Unit::KiloHertz));
    assert_eq!(parse_command("XTAL 0 kHz"), Command::Xtal(0, Unit::KiloHertz));
    assert_eq!(parse_command("XTAL 004 MHz extra"), Command::Xtal(4, Unit::MegaHertz));
    assert_eq!(
        parse_command("XTAL 18446744073709551615 kHz"),
        Command::Xtal(u64::MAX, Unit::KiloHertz)
    );
}

#[test]
fn malformed_xtal_is_a_configuration_fault() {
    assert_eq!(parse_command("XTAL"), Command::Malformed);
    assert_eq!(parse_command("XTAL 4"), Command::Malformed);
    assert_eq!(parse_command("XTAL 4 Hz"), Command::Malformed);
    assert_eq!(parse_command("XTAL 4 mhz"), Command::Malformed);
    assert_eq!(parse_command("XTAL four MHz"), Command::Malformed);
    assert_eq!(parse_command("XTAL  4 MHz"), Command::Malformed);
    assert_eq!(parse_command("XTAL -4 MHz"), Command::Malformed);
    assert_eq!(parse_command("XTAL 4.0 MHz"), Command::Malformed);
    assert_eq!(parse_command("XTAL 18446744073709551616 kHz"), Command::Malformed);
}

#[test]
fn port_commands_take_a_bit_and_a_value() {
    assert_eq!(parse_command("PORTA 3,1"), Command::PortA(3, true));
    assert_eq!(parse_command("PORTA 0,0"), Command::PortA(0, false));
    assert_eq!(parse_command("PORTB 7,255"), Command::PortB(7, true));
    assert_eq!(parse_command("PORTB 7,0 x"), Command::PortB(7, false));
    assert_eq!(parse_command("PORTB 1,2,3"), Command::PortB(1, true));
}

#[test]
fn malformed_port_argument_is_a_configuration_fault() {
    assert_eq!(parse_command("PORTA"), Command::Malformed);
    assert_eq!(parse_command("PORTA 3"), Command::Malformed);
    assert_eq!(parse_command("PORTA 8,1"), Command::Malformed);
    assert_eq!(parse_command("PORTA 3,256"), Command::Malformed);
    assert_eq!(parse_command("PORTA ,1"), Command::Malformed);
    assert_eq!(parse_command("PORTA 3,"), Command::Malformed);
    assert_eq!(parse_command("PORTA 3, 1"), Command::Malformed);
    assert_eq!(parse_command("PORTB a,b"), Command::Malformed);
}

#[test]
fn fields_are_cut_at_every_separator() {
    let text = word("a,,bc,");
    assert_eq!(split_field(&text, ',', 0), Some(word("a")));
    assert_eq!(split_field(&text, ',', 1), Some(word("")));
    assert_eq!(split_field(&text, ',', 2), Some(word("bc")));
    assert_eq!(split_field(&text, ',', 3), Some(word("")));
    assert_eq!(split_field(&text, ',', 4), None);
    assert_eq!(split_field(&text, ',', usize::MAX), None);
    assert_eq!(split_field(&word(""), ' ', 0), Some(word("")));
    assert_eq!(split_field(&word(""), ' ', 1), None);
}

#[test]
fn numbers_are_decimal_digits_that_fit() {
    assert_eq!(parse_number(&word("0")), Some(0));
    assert_eq!(parse_number(&word("42")), Some(42));
    assert_eq!(parse_number(&word("0042")), Some(42));
    assert_eq!(parse_number(&word("18446744073709551615")), Some(u64::MAX));
    assert_eq!(parse_number(&word("18446744073709551616")), None);
    assert_eq!(parse_number(&word("99999999999999999999")), None);
    assert_eq!(parse_number(&word("")), None);
    assert_eq!(parse_number(&word("+1")), None);
    assert_eq!(parse_number(&word("1 ")), None);
    assert_eq!(parse_number(&word("1a")), None);
}

#[test]
fn words_compare_with_literals() {
    assert!(equals_str(&word("STEP"), "STEP"));
    assert!(!equals_str(&word("STEP"), "STEPS"));
    assert!(!equals_str(&word("STEP"), "STOP"));
    assert!(equals_str(&word(""), ""));
    assert_eq!(chars_of("k\u{e9}z"), vec!['k', '\u{e9}', 'z']);
}

#[test]
fn crystal_period_is_four_over_the_frequency() {
    assert_eq!(period_for(4, Unit::MegaHertz), Some(1_000));
    assert_eq!(period_for(1, Unit::MegaHertz), Some(4_000));
    assert_eq!(period_for(20, Unit::MegaHertz), Some(200));
    assert_eq!(period_for(32, Unit::KiloHertz), Some(125_000));
    assert_eq!(period_for(1, Unit::KiloHertz), Some(4_000_000));
    assert_eq!(period_for(3, Unit::MegaHertz), Some(1_333));
    assert_eq!(period_for(6, Unit::MegaHertz), Some(667));
    assert_eq!(period_for(1_600, Unit::MegaHertz), Some(3));
    assert_eq!(period_for(8_000, Unit::MegaHertz), Some(1));
    assert_eq!(period_for(8_001, Unit::MegaHertz), Some(0));
    assert_eq!(period_for(512, Unit::KiloHertz), Some(7_813));
    assert_eq!(period_for(2_560, Unit::KiloHertz), Some(1_563));
}

#[test]
fn crystal_period_is_the_exact_quotient_rounded() {
    for count in (1..=100_000u64).chain((1..=2_000u64).map(|step| step * 1_000_003)) {
        for (unit, per_unit) in [(Unit::KiloHertz, 250u128), (Unit::MegaHertz, 250_000u128)] {
            let rate = count as u128 * per_unit;
            let exact = (2_000_000_000u128 + rate) / (2 * rate);
            assert_eq!(period_for(count, unit), Some(exact as u64));
        }
    }
}

#[test]
fn crystal_without_a_period_is_refused() {
    assert_eq!(period_for(0, Unit::MegaHertz), None);
    assert_eq!(period_for(0, Unit::KiloHertz), None);
    assert_eq!(period_for(u64::MAX, Unit::KiloHertz), None);
    assert_eq!(period_for(u64::MAX / 250_000 + 1, Unit::MegaHertz), None);
}

#[test]
fn delay_is_what_is_left_of_the_period() {
    assert_eq!(delay_for(1_000, 0), 1_000);
    assert_eq!(delay_for(1_000, 999), 1);
    assert_eq!(delay_for(1_000, 1_000), 0);
    assert_eq!(delay_for(1_000, 5_000), 0);
    assert_eq!(delay_for(0, 0), 0);
}

#[test]
fn xtal_command_sets_the_period() {
    let mut cpu = CPU::new();
    assert_eq!(cpu.handle(&line("XTAL 4 MHz")), (Command::Xtal(4, Unit::MegaHertz), None));
    assert_eq!(cpu.get_frame_duration(), 1_000);
    assert_eq!(cpu.frame_delay(400), 600);
    cpu.handle(&line("XTAL 32 kHz"));
    assert_eq!(cpu.get_frame_duration(), 125_000);
    assert!(cpu.update(&Vec::new()).lines.is_empty());
}

#[test]
fn faulty_commands_keep_the_configuration() {
    let mut cpu = CPU::new();
    cpu.handle(&line("XTAL 4 MHz"));
    assert_eq!(cpu.handle(&line("XTAL 4 GHz")).0, Command::Malformed);
    assert_eq!(cpu.handle(&line("XTAL 0 MHz")).0, Command::Xtal(0, Unit::MegaHertz));
    assert_eq!(cpu.handle(&line("PORTA 9,1")).0, Command::Malformed);
    assert_eq!(cpu.handle(&line("NONSENSE")).0, Command::Unknown);
    assert_eq!(cpu.handle(&line("/no/such/file.lst")), (Command::Load, None));
    assert_eq!(cpu.get_frame_duration(), 1_000);
    assert!(cpu.data_bus.memory.iter().all(|byte| *byte == 0));
    assert!(cpu.update(&Vec::new()).lines.is_empty());
}

#[test]
fn port_commands_drive_the_pins_of_bank_zero() {
    let mut cpu = CPU::new();
    cpu.handle(&line("PORTA 3,1"));
    assert_eq!(cpu.data_bus.memory[0x05], 0x08);
    cpu.handle(&line("PORTB 0,1"));
    cpu.handle(&line("PORTB 7,1"));
    assert_eq!(cpu.data_bus.memory[0x06], 0x81);
    cpu.handle(&line("PORTB 0,0"));
    assert_eq!(cpu.data_bus.memory[0x06], 0x80);
    cpu.set_fsr(0x03, 0x20, true);
    cpu.handle(&line("PORTA 0,1"));
    assert_eq!(cpu.data_bus.memory[0x05], 0x09);
    assert_eq!(cpu.data_bus.memory[0x85], 0x00);
    assert_eq!(
        cpu.update(&Vec::new()).lines,
        vec![
            "FREG 5,0x08",
            "FREG 6,0x01",
            "FREG 6,0x81",
            "FREG 6,0x80",
            "FREG 3,0x20",
            "FREG 5,0x09",
        ]
    );
}

#[test]
fn load_command_loads_the_listing_that_comes_with_it() {
    let mut cpu = CPU::new();
    let listing = "      00001 ; test\n0000 30FF 00002 movlw 0FFh\n0001 3E01 00003 addlw 1\n";
    let batch = vec![
        Inbound { line: String::from("C:\\test.lst"), listing: Some(String::from(listing)) },
        line("STEP"),
        line("STEP"),
    ];
    let tick = cpu.update(&batch);
    assert_eq!(tick.steps.len(), 2);
    let lines = tick.lines;
    assert_eq!(cpu.get_w(), 0x00);
    assert!(cpu.get_zero());
    assert!(cpu.get_carry());
    assert!(cpu.get_digit_carry());
    assert_eq!(cpu.cycles, 2);
    assert_eq!(
        lines,
        vec![
            "PCL 00h",
            "PCLATH 00h",
            "PCINTERN 0000",
            "WREG 00h",
            "STATUS 00h",
            "FSR 00h",
            "OPTION 00h",
            "TIMER0 00h",
            "STACK",
            "SETLINE 2",
            "WREG ffh",
            "RESLINE 2",
            "SETLINE 3",
            "PCL 01h",
            "PCLATH 00h",
            "PCINTERN 0001",
            "WREG 00h",
            "STATUSBIT 2,1",
            "STATUS 04h",
            "STATUSBIT 0,1",
            "STATUS 05h",
            "STATUSBIT 1,1",
            "STATUS 07h",
            "RESLINE 3",
            "PCL 02h",
            "PCLATH 00h",
            "PCINTERN 0002",
        ]
    );
}

#[test]
fn reset_command_reports_the_first_line() {
    let mut cpu = CPU::new();
    let listing = "0000 0000\n0001 0000\n";
    cpu.update(&vec![
        Inbound { line: String::from("/tmp/p.lst"), listing: Some(String::from(listing)) },
        line("STEP"),
    ]);
    let lines = cpu.update(&vec![line("RESET")]).lines;
    assert_eq!(lines.len(), 11);
    assert_eq!(lines[0], "RESLINE 2");
    assert_eq!(lines[10], "SETLINE 1");
    assert_eq!(cpu.get_pc(), 0);
}
