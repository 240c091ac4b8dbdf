use pic_emulator::instruction::{
    Address, BitIndex, DestinationFlag, FileRegister, Instruction, Literal,
};
use pic_emulator::rom_bus::{RomBus, RomError, ROM_SIZE};

#[test]
fn decodes_byte_oriented_instructions() {
    let f = FileRegister(0x20);
    let to_w = DestinationFlag(false);
    let to_f = DestinationFlag(true);
    assert_eq!(Instruction::decode(0x0720), Instruction::AddWf(f, to_w));
    assert_eq!(Instruction::decode(0x07A0), Instruction::AddWf(f, to_f));
    assert_eq!(Instruction::decode(0x0520), Instruction::AndWf(f, to_w));
    assert_eq!(Instruction::decode(0x01A0), Instruction::ClrF(f));
    assert_eq!(Instruction::decode(0x0100), Instruction::ClrW);
    assert_eq!(Instruction::decode(0x017F), Instruction::ClrW);
    assert_eq!(Instruction::decode(0x09A0), Instruction::ComF(f, to_f));
    assert_eq!(Instruction::decode(0x03A0), Instruction::DecF(f, to_f));
    assert_eq!(Instruction::decode(0x0BA0), Instruction::DecFsz(f, to_f));
    assert_eq!(Instruction::decode(0x0AA0), Instruction::IncF(f, to_f));
    assert_eq!(Instruction::decode(0x0FA0), Instruction::IncFsz(f, to_f));
    assert_eq!(Instruction::decode(0x0420), Instruction::IorWf(f, to_w));
    assert_eq!(Instruction::decode(0x0820), Instruction::MovF(f, to_w));
    assert_eq!(Instruction::decode(0x00A0), Instruction::MovWf(f));
    assert_eq!(Instruction::decode(0x0DA0), Instruction::RlF(f, to_f));
    assert_eq!(Instruction::decode(0x0CA0), Instruction::RrF(f, to_f));
    assert_eq!(Instruction::decode(0x02A0), Instruction::SubWf(f, to_f));
    assert_eq!(Instruction::decode(0x0EA0), Instruction::SwapWf(f, to_f));
    assert_eq!(Instruction::decode(0x0620), Instruction::XorWf(f, to_w));
}

#[test]
fn decodes_nop_in_all_its_forms() {
    assert_eq!(Instruction::decode(0x0000), Instruction::Nop);
    assert_eq!(Instruction::decode(0x0020), Instruction::Nop);
    assert_eq!(Instruction::decode(0x0040), Instruction::Nop);
    assert_eq!(Instruction::decode(0x0060), Instruction::Nop);
}

#[test]
fn decodes_bit_oriented_instructions() {
    let f = FileRegister(0x03);
    assert_eq!(Instruction::decode(0x1283), Instruction::BcF(f, BitIndex(5)));
    assert_eq!(Instruction::decode(0x1683), Instruction::BsF(f, BitIndex(5)));
    assert_eq!(Instruction::decode(0x1803), Instruction::BtFsc(f, BitIndex(0)));
    assert_eq!(Instruction::decode(0x1F83), Instruction::BtFss(f, BitIndex(7)));
}

#[test]
fn decodes_literal_and_control_instructions() {
    assert_eq!(Instruction::decode(0x3E01), Instruction::AddLw(Literal(0x01)));
    assert_eq!(Instruction::decode(0x3F01), Instruction::AddLw(Literal(0x01)));
    assert_eq!(Instruction::decode(0x39F0), Instruction::AndLw(Literal(0xF0)));
    assert_eq!(Instruction::decode(0x2010), Instruction::Call(Address(0x010)));
    assert_eq!(Instruction::decode(0x27FF), Instruction::Call(Address(0x7FF)));
    assert_eq!(Instruction::decode(0x0064), Instruction::ClrWdt);
    assert_eq!(Instruction::decode(0x2805), Instruction::Goto(Address(0x005)));
    assert_eq!(Instruction::decode(0x2FFF), Instruction::Goto(Address(0x7FF)));
    assert_eq!(Instruction::decode(0x380F), Instruction::IorLw(Literal(0x0F)));
    assert_eq!(Instruction::decode(0x30FF), Instruction::MovLw(Literal(0xFF)));
    assert_eq!(Instruction::decode(0x33AA), Instruction::MovLw(Literal(0xAA)));
    assert_eq!(Instruction::decode(0x0009), Instruction::RetFie);
    assert_eq!(Instruction::decode(0x3442), Instruction::RetLw(Literal(0x42)));
    assert_eq!(Instruction::decode(0x0008), Instruction::Return);
    assert_eq!(Instruction::decode(0x0063), Instruction::Sleep);
    assert_eq!(Instruction::decode(0x3C10), Instruction::SubLw(Literal(0x10)));
    assert_eq!(Instruction::decode(0x3D10), Instruction::SubLw(Literal(0x10)));
    assert_eq!(Instruction::decode(0x3A55), Instruction::XorLw(Literal(0x55)));
}

#[test]
fn decoder_ignores_the_two_top_bits() {
    assert_eq!(Instruction::decode(0xF0FF), Instruction::MovLw(Literal(0xFF)));
    assert_eq!(Instruction::decode(0x4000), Instruction::Nop);
    assert_eq!(Instruction::decode(0xC008), Instruction::Return);
}

#[test]
fn words_without_a_pattern_are_unknown() {
    assert_eq!(Instruction::decode(0x0001), Instruction::Unknown(0x0001));
    assert_eq!(Instruction::decode(0x0062), Instruction::Unknown(0x0062));
    assert_eq!(Instruction::decode(0x3B00), Instruction::Unknown(0x3B00));
    assert_eq!(Instruction::decode(0x3BFF), Instruction::Unknown(0x3BFF));
    assert_eq!(Instruction::decode(0xFB12), Instruction::Unknown(0x3B12));
}

#[test]
fn decoder_is_total() {
    for word in 0..=0xFFFFu16 {
        let instruction = Instruction::decode(word);
        assert_eq!(instruction, Instruction::decode(word & 0x3FFF));
    }
}

#[test]
fn new_rom_is_all_nop() {
    let rom = RomBus::new();
    assert_eq!(rom.rom.len(), ROM_SIZE);
    assert_eq!(rom.read_instruction(0), Ok(Instruction::Nop));
    assert_eq!(rom.read_instruction(4095), Ok(Instruction::Nop));
}

#[test]
fn load_program_copies_from_the_base() {
    let mut rom = RomBus::new();
    let copied = rom.load_program(&vec![0x30, 0xFF, 0x3E, 0x01], 0);
    assert_eq!(copied, 4);
    assert_eq!(rom.read_instruction(0), Ok(Instruction::MovLw(Literal(0xFF))));
    assert_eq!(rom.read_instruction(1), Ok(Instruction::AddLw(Literal(0x01))));
    assert_eq!(rom.read_instruction(2), Ok(Instruction::Nop));
    let copied = rom.load_program(&vec![0x34, 0x42], 0x20);
    assert_eq!(copied, 2);
    assert_eq!(rom.read_instruction(0x10), Ok(Instruction::RetLw(Literal(0x42))));
    assert_eq!(rom.read_instruction(0), Ok(Instruction::MovLw(Literal(0xFF))));
}

#[test]
fn load_program_truncates_what_does_not_fit() {
    let mut rom = RomBus::new();
    let copied = rom.load_program(&vec![0x30, 0x01, 0x30, 0x02], ROM_SIZE - 2);
    assert_eq!(copied, 2);
    assert_eq!(rom.read_instruction(4095), Ok(Instruction::MovLw(Literal(0x01))));
    assert_eq!(rom.load_program(&vec![1, 2, 3], ROM_SIZE), 0);
    assert_eq!(rom.load_program(&vec![1, 2, 3], usize::MAX), 0);
    let image = vec![0x30u8; ROM_SIZE + 10];
    assert_eq!(rom.load_program(&image, 0), ROM_SIZE);
}

#[test]
fn clear_zeroes_the_rom() {
    let mut rom = RomBus::new();
    rom.load_program(&vec![0x30, 0xFF], 0);
    rom.clear();
    assert_eq!(rom.read_instruction(0), Ok(Instruction::Nop));
    assert!(rom.rom.iter().all(|byte| *byte == 0));
}

#[test]
fn read_instruction_reports_out_of_range() {
    let rom = RomBus::new();
    assert_eq!(rom.read_instruction(4096), Err(RomError::OutOfRange(4096)));
    assert_eq!(rom.read_instruction(0x1FFF), Err(RomError::OutOfRange(0x1FFF)));
    assert_eq!(rom.read_instruction(0xFFFF), Err(RomError::OutOfRange(0xFFFF)));
}

#[test]
fn read_instruction_reports_unknown_opcode() {
    let mut rom = RomBus::new();
    rom.load_program(&vec![0x3B, 0x12], 0);
    assert_eq!(rom.read_instruction(0), Err(RomError::UnknownOpcode(0x3B12)));
    rom.load_program(&vec![0xFB, 0x12], 2);
    assert_eq!(rom.read_instruction(1), Err(RomError::UnknownOpcode(0x3B12)));
}
