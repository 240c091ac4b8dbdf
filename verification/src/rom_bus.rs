//! The ROM bus: byte-addressed program memory and instruction fetch.

use vstd::prelude::*;
use crate::instruction::{decode_spec, Instruction};

verus! {

/// Bytes of program memory: 4096 instructions of two bytes each.
pub const ROM_SIZE: usize = 8192;

/// Why no instruction could be fetched.
#[derive(Clone, Copy, Debug, PartialEq, Eq, Structural)]
pub enum RomError {
    /// The program counter, carried here, points past the end of program
    /// memory.
    OutOfRange(u16),
    /// The word at the program counter, carried here, is no instruction.
    UnknownOpcode(u16),
}

/// The storage word at program counter `pc`: the byte at `2 * pc` is its
/// upper half, the byte after it its lower half.
pub open spec fn word_at(rom: Seq<u8>, pc: u16) -> u16
    recommends
        2 * pc + 1 < rom.len(),
{
    ((rom[2 * pc] as u16) << 8) | (rom[2 * pc + 1] as u16)
}

/// The result of fetching the instruction at `pc` from `rom`.
pub open spec fn fetch(rom: Seq<u8>, pc: u16) -> Result<Instruction, RomError> {
    if 2 * pc + 1 >= rom.len() {
        Err(RomError::OutOfRange(pc))
    } else {
        match decode_spec(word_at(rom, pc)) {
            Instruction::Unknown(word) => Err(RomError::UnknownOpcode(word)),
            instruction => Ok(instruction),
        }
    }
}

/// Program memory after `bytes` were copied to `base`; what does not fit is
/// left out.
pub open spec fn loaded(rom: Seq<u8>, bytes: Seq<u8>, base: int) -> Seq<u8> {
    Seq::new(
        rom.len(),
        |i: int|
            if base <= i < base + bytes.len() {
                bytes[i - base]
            } else {
                rom[i]
            },
    )
}

/// How many of `len` bytes fit into program memory from `base` on.
pub open spec fn fitting(len: int, base: int) -> int {
    if base >= ROM_SIZE {
        0
    } else if len <= ROM_SIZE - base {
        len
    } else {
        ROM_SIZE - base
    }
}

/// The program memory of the core.
pub struct RomBus {
    /// The program image, two bytes per instruction, upper byte first.
    pub rom: [u8; 8192],
}

impl View for RomBus {
    type V = Seq<u8>;

    open spec fn view(&self) -> Seq<u8> {
        self.rom@
    }
}

impl RomBus {
    /// Program memory filled with zeros.
    pub fn new() -> (bus: RomBus)
        ensures
            bus@.len() == ROM_SIZE,
            forall|i: int| 0 <= i < ROM_SIZE ==> bus@[i] == 0,
    {
        RomBus { rom: [0u8; 8192] }
    }

    /// Fills program memory with zeros.
    pub fn clear(&mut self)
        ensures
            final(self)@.len() == ROM_SIZE,
            forall|i: int| 0 <= i < ROM_SIZE ==> final(self)@[i] == 0,
    {
        self.rom = [0u8; 8192];
    }

    /// Copies `bytes` into program memory from `base` on and returns how
    /// many were copied; bytes that would fall past the end are dropped.
    pub fn load_program(&mut self, bytes: &Vec<u8>, base: usize) -> (copied: usize)
        ensures
            final(self)@ == loaded(old(self)@, bytes@, base as int),
            copied == fitting(bytes@.len() as int, base as int),
    {
        if base >= ROM_SIZE {
            return 0;
        }
        let room: usize = ROM_SIZE - base;
        let count: usize = if bytes.len() <= room {
            bytes.len()
        } else {
            room
        };
        let mut i: usize = 0;
        while i < count
            invariant
                i <= count,
                count <= bytes@.len(),
                base + count <= ROM_SIZE,
                self@.len() == ROM_SIZE,
                forall|j: int|
                    0 <= j < ROM_SIZE ==> self@[j] == if base <= j < base + i {
                        bytes@[j - base]
                    } else {
                        old(self)@[j]
                    },
            decreases count - i,
        {
            self.rom[base + i] = bytes[i];
            i = i + 1;
        }
        count
    }

    /// Fetches and decodes the instruction at `pc`.
    pub fn read_instruction(&self, pc: u16) -> (result: Result<Instruction, RomError>)
        ensures
            result == fetch(self@, pc),
            result matches Ok(instruction) ==> instruction.operands_in_range()
                && !(instruction is Unknown),
    {
        let offset: usize = 2 * (pc as usize);
        if offset + 1 >= ROM_SIZE {
            return Err(RomError::OutOfRange(pc));
        }
        let word: u16 = ((self.rom[offset] as u16) << 8) | (self.rom[offset + 1] as u16);
        match Instruction::decode(word) {
            Instruction::Unknown(raw) => Err(RomError::UnknownOpcode(raw)),
            instruction => Ok(instruction),
        }
    }
}

} // verus!
