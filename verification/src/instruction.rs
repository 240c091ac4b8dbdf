//! The instruction set: one variant per mnemonic with its decoded operands,
//! and the decoder from 14-bit opcode words.

use vstd::prelude::*;

verus! {

/// An 8-bit literal operand.
#[derive(Clone, Copy, Debug, PartialEq, Eq, Structural)]
pub struct Literal(pub u8);

/// A 7-bit file-register address.
#[derive(Clone, Copy, Debug, PartialEq, Eq, Structural)]
pub struct FileRegister(pub u8);

/// A bit position within a byte, 0 to 7.
#[derive(Clone, Copy, Debug, PartialEq, Eq, Structural)]
pub struct BitIndex(pub usize);

/// Where a result goes: the file register when set, W when clear.
#[derive(Clone, Copy, Debug, PartialEq, Eq, Structural)]
pub struct DestinationFlag(pub bool);

/// An 11-bit jump target.
#[derive(Clone, Copy, Debug, PartialEq, Eq, Structural)]
pub struct Address(pub u16);

/// A decoded instruction.
#[derive(Clone, Copy, Debug, PartialEq, Eq, Structural)]
pub enum Instruction {
    AddWf(FileRegister, DestinationFlag),
    AndWf(FileRegister, DestinationFlag),
    ClrF(FileRegister),
    ClrW,
    ComF(FileRegister, DestinationFlag),
    DecF(FileRegister, DestinationFlag),
    DecFsz(FileRegister, DestinationFlag),
    IncF(FileRegister, DestinationFlag),
    IncFsz(FileRegister, DestinationFlag),
    IorWf(FileRegister, DestinationFlag),
    MovF(FileRegister, DestinationFlag),
    MovWf(FileRegister),
    Nop,
    RlF(FileRegister, DestinationFlag),
    RrF(FileRegister, DestinationFlag),
    SubWf(FileRegister, DestinationFlag),
    SwapWf(FileRegister, DestinationFlag),
    XorWf(FileRegister, DestinationFlag),
    BcF(FileRegister, BitIndex),
    BsF(FileRegister, BitIndex),
    BtFsc(FileRegister, BitIndex),
    BtFss(FileRegister, BitIndex),
    AddLw(Literal),
    AndLw(Literal),
    Call(Address),
    ClrWdt,
    Goto(Address),
    IorLw(Literal),
    MovLw(Literal),
    RetFie,
    RetLw(Literal),
    Return,
    Sleep,
    SubLw(Literal),
    XorLw(Literal),
    /// A word that is no instruction; it carries the 14-bit word.
    Unknown(u16),
}

/// The part of a storage word that holds the opcode.
pub const OPCODE_MASK: u16 = 0x3FFF;

/// The file-register operand of an opcode word: bits 0 to 6.
pub open spec fn file_operand(word: u16) -> FileRegister {
    FileRegister((word & 0x7F) as u8)
}

/// The destination operand of an opcode word: bit 7.
pub open spec fn destination_operand(word: u16) -> DestinationFlag {
    DestinationFlag(word & 0x80 != 0)
}

/// The bit-index operand of an opcode word: bits 7 to 9.
pub open spec fn bit_operand(word: u16) -> BitIndex {
    BitIndex(((word >> 7) & 0x7) as usize)
}

/// The literal operand of an opcode word: bits 0 to 7.
pub open spec fn literal_operand(word: u16) -> Literal {
    Literal((word & 0xFF) as u8)
}

/// The jump-target operand of an opcode word: bits 0 to 10.
pub open spec fn address_operand(word: u16) -> Address {
    Address(word & 0x7FF)
}

/// The instruction that a storage word holds. The two top bits of the word
/// are ignored; the first pattern in this list that matches the rest decides.
pub open spec fn decode_spec(raw: u16) -> Instruction {
    let w = raw & OPCODE_MASK;
    let f = file_operand(w);
    let d = destination_operand(w);
    let b = bit_operand(w);
    let k = literal_operand(w);
    let a = address_operand(w);
    if w == 0x0008 {
        Instruction::Return
    } else if w == 0x0009 {
        Instruction::RetFie
    } else if w == 0x0063 {
        Instruction::Sleep
    } else if w == 0x0064 {
        Instruction::ClrWdt
    } else if w & 0x3F9F == 0x0000 {
        Instruction::Nop
    } else if w & 0x3F80 == 0x0080 {
        Instruction::MovWf(f)
    } else if w & 0x3F80 == 0x0100 {
        Instruction::ClrW
    } else if w & 0x3F80 == 0x0180 {
        Instruction::ClrF(f)
    } else if w & 0x3F00 == 0x0200 {
        Instruction::SubWf(f, d)
    } else if w & 0x3F00 == 0x0300 {
        Instruction::DecF(f, d)
    } else if w & 0x3F00 == 0x0400 {
        Instruction::IorWf(f, d)
    } else if w & 0x3F00 == 0x0500 {
        Instruction::AndWf(f, d)
    } else if w & 0x3F00 == 0x0600 {
        Instruction::XorWf(f, d)
    } else if w & 0x3F00 == 0x0700 {
        Instruction::AddWf(f, d)
    } else if w & 0x3F00 == 0x0800 {
        Instruction::MovF(f, d)
    } else if w & 0x3F00 == 0x0900 {
        Instruction::ComF(f, d)
    } else if w & 0x3F00 == 0x0A00 {
        Instruction::IncF(f, d)
    } else if w & 0x3F00 == 0x0B00 {
        Instruction::DecFsz(f, d)
    } else if w & 0x3F00 == 0x0C00 {
        Instruction::RrF(f, d)
    } else if w & 0x3F00 == 0x0D00 {
        Instruction::RlF(f, d)
    } else if w & 0x3F00 == 0x0E00 {
        Instruction::SwapWf(f, d)
    } else if w & 0x3F00 == 0x0F00 {
        Instruction::IncFsz(f, d)
    } else if w & 0x3C00 == 0x1000 {
        Instruction::BcF(f, b)
    } else if w & 0x3C00 == 0x1400 {
        Instruction::BsF(f, b)
    } else if w & 0x3C00 == 0x1800 {
        Instruction::BtFsc(f, b)
    } else if w & 0x3C00 == 0x1C00 {
        Instruction::BtFss(f, b)
    } else if w & 0x3800 == 0x2000 {
        Instruction::Call(a)
    } else if w & 0x3800 == 0x2800 {
        Instruction::Goto(a)
    } else if w & 0x3C00 == 0x3000 {
        Instruction::MovLw(k)
    } else if w & 0x3C00 == 0x3400 {
        Instruction::RetLw(k)
    } else if w & 0x3F00 == 0x3800 {
        Instruction::IorLw(k)
    } else if w & 0x3F00 == 0x3900 {
        Instruction::AndLw(k)
    } else if w & 0x3F00 == 0x3A00 {
        Instruction::XorLw(k)
    } else if w & 0x3E00 == 0x3C00 {
        Instruction::SubLw(k)
    } else if w & 0x3E00 == 0x3E00 {
        Instruction::AddLw(k)
    } else {
        Instruction::Unknown(w)
    }
}

impl Instruction {
    /// Whether the operands are in the ranges that an opcode word can hold.
    pub open spec fn operands_in_range(self) -> bool {
        match self {
            Instruction::AddWf(f, _)
            | Instruction::AndWf(f, _)
            | Instruction::ComF(f, _)
            | Instruction::DecF(f, _)
            | Instruction::DecFsz(f, _)
            | Instruction::IncF(f, _)
            | Instruction::IncFsz(f, _)
            | Instruction::IorWf(f, _)
            | Instruction::MovF(f, _)
            | Instruction::RlF(f, _)
            | Instruction::RrF(f, _)
            | Instruction::SubWf(f, _)
            | Instruction::SwapWf(f, _)
            | Instruction::XorWf(f, _)
            | Instruction::ClrF(f)
            | Instruction::MovWf(f) => f.0 < 128,
            Instruction::BcF(f, b)
            | Instruction::BsF(f, b)
            | Instruction::BtFsc(f, b)
            | Instruction::BtFss(f, b) => f.0 < 128 && b.0 < 8,
            Instruction::Call(a) | Instruction::Goto(a) => a.0 < 0x800,
            Instruction::Unknown(w) => w <= OPCODE_MASK,
            _ => true,
        }
    }

    /// Decodes the 14-bit opcode in the storage word `raw`.
    pub fn decode(raw: u16) -> (instruction: Instruction)
        ensures
            instruction == decode_spec(raw),
            instruction.operands_in_range(),
    {
        let w = raw & OPCODE_MASK;
        proof {
            lemma_opcode_word(raw);
            lemma_operand_ranges(w);
        }
        let high = (w >> 8) as u8;
        let low = (w & 0xFF) as u8;
        proof {
            lemma_patterns(w, high, low);
        }
        let f = FileRegister(low & 0x7F);
        let d = DestinationFlag(low & 0x80 != 0);
        let b = BitIndex(((w >> 7) & 0x7) as usize);
        let k = Literal(low);
        let a = Address(w & 0x7FF);
        match high {
            0x00 => {
                if low & 0x80 != 0 {
                    Instruction::MovWf(f)
                } else if low == 0x08 {
                    Instruction::Return
                } else if low == 0x09 {
                    Instruction::RetFie
                } else if low == 0x63 {
                    Instruction::Sleep
                } else if low == 0x64 {
                    Instruction::ClrWdt
                } else if low & 0x9F == 0 {
                    Instruction::Nop
                } else {
                    Instruction::Unknown(w)
                }
            },
            0x01 => {
                if low & 0x80 != 0 {
                    Instruction::ClrF(f)
                } else {
                    Instruction::ClrW
                }
            },
            0x02 => Instruction::SubWf(f, d),
            0x03 => Instruction::DecF(f, d),
            0x04 => Instruction::IorWf(f, d),
            0x05 => Instruction::AndWf(f, d),
            0x06 => Instruction::XorWf(f, d),
            0x07 => Instruction::AddWf(f, d),
            0x08 => Instruction::MovF(f, d),
            0x09 => Instruction::ComF(f, d),
            0x0A => Instruction::IncF(f, d),
            0x0B => Instruction::DecFsz(f, d),
            0x0C => Instruction::RrF(f, d),
            0x0D => Instruction::RlF(f, d),
            0x0E => Instruction::SwapWf(f, d),
            0x0F => Instruction::IncFsz(f, d),
            0x10..=0x13 => Instruction::BcF(f, b),
            0x14..=0x17 => Instruction::BsF(f, b),
            0x18..=0x1B => Instruction::BtFsc(f, b),
            0x1C..=0x1F => Instruction::BtFss(f, b),
            0x20..=0x27 => Instruction::Call(a),
            0x28..=0x2F => Instruction::Goto(a),
            0x30..=0x33 => Instruction::MovLw(k),
            0x34..=0x37 => Instruction::RetLw(k),
            0x38 => Instruction::IorLw(k),
            0x39 => Instruction::AndLw(k),
            0x3A => Instruction::XorLw(k),
            0x3C | 0x3D => Instruction::SubLw(k),
            0x3E | 0x3F => Instruction::AddLw(k),
            _ => Instruction::Unknown(w),
        }
    }
}

/// The opcode of a storage word has 14 bits, so its upper byte has six.
proof fn lemma_opcode_word(raw: u16)
    by (bit_vector)
    ensures
        raw & 0x3FFF <= 0x3FFF,
        (raw & 0x3FFF) >> 8 <= 0x3F,
{
}

/// The operand fields of an opcode word stay within their widths.
proof fn lemma_operand_ranges(w: u16)
    by (bit_vector)
    ensures
        w & 0x7F < 128,
        (w >> 7) & 0x7 < 8,
        w & 0xFF < 256,
        w & 0x7FF < 0x800,
{
}

/// How the opcode patterns read on the two bytes of a 14-bit word.
proof fn lemma_patterns(w: u16, high: u8, low: u8)
    by (bit_vector)
    requires
        w <= 0x3FFF,
        high == (w >> 8) as u8,
        low == (w & 0xFF) as u8,
    ensures
        high <= 0x3F,
        (low & 0x7F) == (w & 0x7F) as u8,
        (low & 0x80 != 0) == (w & 0x80 != 0),
        low & 0x80 != 0 ==> low != 0x08 && low != 0x09 && low != 0x63 && low != 0x64 && low & 0x9F
            != 0,
        (w == 0x0008) == (high == 0 && low == 0x08),
        (w == 0x0009) == (high == 0 && low == 0x09),
        (w == 0x0063) == (high == 0 && low == 0x63),
        (w == 0x0064) == (high == 0 && low == 0x64),
        (w & 0x3F9F == 0x0000) == (high == 0 && low & 0x9F == 0),
        (w & 0x3F80 == 0x0080) == (high == 0 && low & 0x80 != 0),
        (w & 0x3F80 == 0x0100) == (high == 1 && low & 0x80 == 0),
        (w & 0x3F80 == 0x0180) == (high == 1 && low & 0x80 != 0),
        (w & 0x3F00 == 0x0200) == (high == 0x02),
        (w & 0x3F00 == 0x0300) == (high == 0x03),
        (w & 0x3F00 == 0x0400) == (high == 0x04),
        (w & 0x3F00 == 0x0500) == (high == 0x05),
        (w & 0x3F00 == 0x0600) == (high == 0x06),
        (w & 0x3F00 == 0x0700) == (high == 0x07),
        (w & 0x3F00 == 0x0800) == (high == 0x08),
        (w & 0x3F00 == 0x0900) == (high == 0x09),
        (w & 0x3F00 == 0x0A00) == (high == 0x0A),
        (w & 0x3F00 == 0x0B00) == (high == 0x0B),
        (w & 0x3F00 == 0x0C00) == (high == 0x0C),
        (w & 0x3F00 == 0x0D00) == (high == 0x0D),
        (w & 0x3F00 == 0x0E00) == (high == 0x0E),
        (w & 0x3F00 == 0x0F00) == (high == 0x0F),
        (w & 0x3C00 == 0x1000) == (0x10 <= high && high <= 0x13),
        (w & 0x3C00 == 0x1400) == (0x14 <= high && high <= 0x17),
        (w & 0x3C00 == 0x1800) == (0x18 <= high && high <= 0x1B),
        (w & 0x3C00 == 0x1C00) == (0x1C <= high && high <= 0x1F),
        (w & 0x3800 == 0x2000) == (0x20 <= high && high <= 0x27),
        (w & 0x3800 == 0x2800) == (0x28 <= high && high <= 0x2F),
        (w & 0x3C00 == 0x3000) == (0x30 <= high && high <= 0x33),
        (w & 0x3C00 == 0x3400) == (0x34 <= high && high <= 0x37),
        (w & 0x3F00 == 0x3800) == (high == 0x38),
        (w & 0x3F00 == 0x3900) == (high == 0x39),
        (w & 0x3F00 == 0x3A00) == (high == 0x3A),
        (w & 0x3E00 == 0x3C00) == (high == 0x3C || high == 0x3D),
        (w & 0x3E00 == 0x3E00) == (high == 0x3E || high == 0x3F),
{
}

} // verus!
