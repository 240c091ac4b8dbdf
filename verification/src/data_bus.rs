//! The data bus: banked file registers, the special function registers that
//! live among them, the working register and the return-address stack.

use vstd::prelude::*;
use crate::bits::{bit_is_set, with_bit, high_byte, low_byte, get_bit, get_high_byte, get_low_byte};
use crate::stack::{ReturnStack, StackView, PC_MASK};

verus! {

/// Address of INDF, the window onto the register that FSR points at.
pub const INDIRECT_ADDR: u8 = 0x00;

/// Address of TMR0 in bank 0.
pub const TMR0_ADDR: u8 = 0x01;

/// Address of PCL, the low byte of the program counter.
pub const PCL_ADDR: u8 = 0x02;

/// Address of STATUS.
pub const STATUS_ADDR: u8 = 0x03;

/// Address of FSR, the indirect-address pointer.
pub const FSR_ADDR: u8 = 0x04;

/// Address of PORTA in bank 0.
pub const PORTA_ADDR: u8 = 0x05;

/// Address of PORTB in bank 0.
pub const PORTB_ADDR: u8 = 0x06;

/// Address of PCLATH, the high bits of the program counter.
pub const PCLATH_ADDR: u8 = 0x0A;

/// Address of OPTION in bank 1.
pub const OPTION_ADDR: u8 = 0x01;

/// Address of TRISA in bank 1.
pub const TRISA_ADDR: u8 = 0x05;

/// Address of TRISB in bank 1.
pub const TRISB_ADDR: u8 = 0x06;

/// STATUS bit of the carry flag.
pub const C: usize = 0;

/// STATUS bit of the digit-carry flag.
pub const DC: usize = 1;

/// STATUS bit of the zero flag.
pub const Z: usize = 2;

/// STATUS bit that selects the active bank.
pub const RP0: usize = 5;

/// Number of registers in one bank.
pub const BANK_SIZE: usize = 128;

/// Number of bytes of file-register memory: two banks.
pub const MEMORY_SIZE: usize = 256;

/// Whether the register at `offset` of a bank is the same in both banks.
pub open spec fn is_mirrored(offset: u8) -> bool {
    ||| offset == INDIRECT_ADDR
    ||| offset == PCL_ADDR
    ||| offset == STATUS_ADDR
    ||| offset == FSR_ADDR
    ||| offset == PCLATH_ADDR
}

/// The place in the flat memory of the register that `target` names while
/// bank `rp0` is active. Only the low seven bits of `target` address a bank;
/// a mirrored register has one place, in bank 0.
pub open spec fn flat_index(target: u8, rp0: bool) -> int {
    let offset = target & 0x7F;
    if is_mirrored(offset) || !rp0 {
        offset as int
    } else {
        BANK_SIZE + offset
    }
}

/// The 13-bit program counter that PCLATH and PCL spell.
pub open spec fn pc_of(pclath: u8, pcl: u8) -> u16 {
    (((pclath & 0x1F) as u16) << 8) | (pcl as u16)
}

/// The special function registers, by name.
#[derive(Clone, Copy, Debug, PartialEq, Eq, Structural)]
pub struct SfrBank {
    /// The working register.
    pub w: u8,
    /// Flags and bank selection.
    pub status: u8,
    /// The indirect-address pointer.
    pub fsr: u8,
    /// The low byte of the program counter.
    pub pcl: u8,
    /// The high bits of the program counter.
    pub pclath: u8,
    /// OPTION, in bank 1.
    pub option: u8,
    /// TMR0, in bank 0.
    pub tmr0: u8,
    /// PORTA, in bank 0.
    pub porta: u8,
    /// PORTB, in bank 0.
    pub portb: u8,
    /// TRISA, in bank 1.
    pub trisa: u8,
    /// TRISB, in bank 1.
    pub trisb: u8,
}

/// The state that the data bus holds.
pub struct BusView {
    /// The two banks, one after the other.
    pub file: Seq<u8>,
    /// The working register.
    pub w: u8,
    /// The return-address stack.
    pub stack: StackView,
}

impl BusView {
    /// Two banks of file registers.
    pub open spec fn wf(self) -> bool {
        self.file.len() == MEMORY_SIZE
    }

    /// The state after a reset: everything zero, the stack empty.
    pub open spec fn reset() -> BusView {
        BusView {
            file: Seq::new(MEMORY_SIZE as nat, |i: int| 0u8),
            w: 0,
            stack: StackView::empty(),
        }
    }

    /// The STATUS register.
    pub open spec fn status(self) -> u8 {
        self.file[STATUS_ADDR as int]
    }

    /// The FSR register.
    pub open spec fn fsr(self) -> u8 {
        self.file[FSR_ADDR as int]
    }

    /// The PCL register.
    pub open spec fn pcl(self) -> u8 {
        self.file[PCL_ADDR as int]
    }

    /// The PCLATH register.
    pub open spec fn pclath(self) -> u8 {
        self.file[PCLATH_ADDR as int]
    }

    /// The special function registers: each is the byte at its place in
    /// the file registers, W apart.
    pub open spec fn sfr_bank(self) -> SfrBank {
        SfrBank {
            w: self.w,
            status: self.status(),
            fsr: self.fsr(),
            pcl: self.pcl(),
            pclath: self.pclath(),
            option: self.file[BANK_SIZE + OPTION_ADDR],
            tmr0: self.file[TMR0_ADDR as int],
            porta: self.file[PORTA_ADDR as int],
            portb: self.file[PORTB_ADDR as int],
            trisa: self.file[BANK_SIZE + TRISA_ADDR],
            trisb: self.file[BANK_SIZE + TRISB_ADDR],
        }
    }

    /// The active bank: bit RP0 of STATUS.
    pub open spec fn rp0(self) -> bool {
        bit_is_set(self.status(), RP0)
    }

    /// The program counter.
    pub open spec fn pc(self) -> u16 {
        pc_of(self.pclath(), self.pcl())
    }

    /// The address that an operand stands for: FSR where it is INDF.
    pub open spec fn effective_address(self, address: u8) -> u8 {
        if address == INDIRECT_ADDR {
            self.fsr()
        } else {
            address
        }
    }

    /// The place in `file` that an operand reaches, or `None` where INDF is
    /// addressed while FSR is zero.
    pub open spec fn resolve(self, address: u8) -> Option<int> {
        let target = self.effective_address(address);
        if target == INDIRECT_ADDR {
            None
        } else {
            Some(flat_index(target, self.rp0()))
        }
    }

    /// The byte that a read of `address` returns.
    pub open spec fn read(self, address: u8) -> u8 {
        match self.resolve(address) {
            Some(index) => self.file[index],
            None => 0,
        }
    }

    /// The state after `value` was written to `address`.
    pub open spec fn write(self, address: u8, value: u8) -> BusView {
        match self.resolve(address) {
            Some(index) => BusView { file: self.file.update(index, value), ..self },
            None => self,
        }
    }

    /// Whether a write to `address` lands in PCL and so redirects the
    /// program counter.
    pub open spec fn writes_pcl(self, address: u8) -> bool {
        self.resolve(address) == Some(PCL_ADDR as int)
    }

    /// The state after the program counter was set to the low 13 bits of
    /// `value`.
    pub open spec fn load_pc(self, value: u16) -> BusView {
        BusView {
            file: self.file.update(PCL_ADDR as int, low_byte(value)).update(
                PCLATH_ADDR as int,
                high_byte(value) & 0x1F,
            ),
            ..self
        }
    }

    /// The state after `n` was added to the program counter, which wraps
    /// at 13 bits.
    pub open spec fn inc_pc(self, n: u16) -> BusView {
        self.load_pc(((self.pc() + n) % 0x2000) as u16)
    }

    /// The state after `value` was pushed on the return-address stack.
    pub open spec fn push(self, value: u16) -> BusView {
        BusView { stack: self.stack.push(value), ..self }
    }

    /// The state after the return-address stack was popped.
    pub open spec fn pop(self) -> BusView {
        BusView { stack: self.stack.pop(), ..self }
    }
}

/// PCL is the low byte of the program counter and the low five bits of
/// PCLATH are its high bits, in every state.
pub proof fn lemma_pc_matches_registers(s: BusView)
    ensures
        s.pcl() == s.pc() & 0xFF,
        s.pclath() & 0x1F == (s.pc() >> 8) & 0x1F,
        s.pc() <= PC_MASK,
{
    let h = s.pclath();
    let l = s.pcl();
    assert(l == pc_of(h, l) & 0xFF) by (bit_vector);
    assert(h & 0x1F == (pc_of(h, l) >> 8) & 0x1F) by (bit_vector);
    assert(pc_of(h, l) <= 0x1FFF) by (bit_vector);
}

/// Loading the program counter leaves it at the low 13 bits of the value.
pub proof fn lemma_load_pc(s: BusView, value: u16)
    requires
        s.wf(),
    ensures
        s.load_pc(value).pc() == value & PC_MASK,
        s.load_pc(value).wf(),
{
    assert(pc_of(high_byte(value) & 0x1F, low_byte(value)) == value & 0x1FFF) by (bit_vector);
}

/// The place that an address reaches lies in the file-register memory.
pub proof fn lemma_flat_index_in_range(target: u8, rp0: bool)
    ensures
        0 <= flat_index(target, rp0) < MEMORY_SIZE,
{
    assert(target & 0x7F < 128) by (bit_vector);
}

/// While FSR holds a non-zero address `a`, INDF reads what `a` reads, and a
/// byte written through INDF is the byte that `a` then reads.
pub proof fn lemma_indirect_round_trip(s: BusView, a: u8, value: u8)
    requires
        s.wf(),
        s.fsr() == a,
        a != 0,
    ensures
        s.read(INDIRECT_ADDR) == s.read(a),
        s.write(INDIRECT_ADDR, value).read(a) == value,
{
    lemma_flat_index_in_range(a, s.rp0());
}

/// A place in memory as a mathematical index.
pub open spec fn place_view(place: Option<usize>) -> Option<int> {
    match place {
        Some(index) => Some(index as int),
        None => None,
    }
}

/// The data bus of the core.
pub struct DataBus {
    /// The two banks of file registers, bank 0 first.
    pub memory: [u8; 256],
    /// The working register.
    pub w: u8,
    /// The return-address stack.
    pub stack: ReturnStack,
}

impl View for DataBus {
    type V = BusView;

    open spec fn view(&self) -> BusView {
        BusView { file: self.memory@, w: self.w, stack: self.stack@ }
    }
}

impl DataBus {
    /// Every data bus holds two banks of file registers.
    pub proof fn lemma_wf(&self)
        ensures
            self@.wf(),
    {
    }

    /// A data bus in the reset state.
    pub fn new() -> (bus: DataBus)
        ensures
            bus@ == BusView::reset(),
            bus@.wf(),
    {
        let bus = DataBus { memory: [0u8; 256], w: 0, stack: ReturnStack::new() };
        assert(bus@.file =~= BusView::reset().file);
        bus
    }

    /// The special function registers.
    pub fn sfr_bank(&self) -> (sfr: SfrBank)
        ensures
            sfr == self@.sfr_bank(),
    {
        SfrBank {
            w: self.w,
            status: self.memory[STATUS_ADDR as usize],
            fsr: self.memory[FSR_ADDR as usize],
            pcl: self.memory[PCL_ADDR as usize],
            pclath: self.memory[PCLATH_ADDR as usize],
            option: self.memory[BANK_SIZE + OPTION_ADDR as usize],
            tmr0: self.memory[TMR0_ADDR as usize],
            porta: self.memory[PORTA_ADDR as usize],
            portb: self.memory[PORTB_ADDR as usize],
            trisa: self.memory[BANK_SIZE + TRISA_ADDR as usize],
            trisb: self.memory[BANK_SIZE + TRISB_ADDR as usize],
        }
    }

    /// Finds the place in memory that `address` reaches.
    pub fn resolve(&self, address: u8) -> (place: Option<usize>)
        ensures
            place_view(place) == self@.resolve(address),
            place matches Some(index) ==> index < MEMORY_SIZE,
    {
        let target = if address == INDIRECT_ADDR {
            self.memory[FSR_ADDR as usize]
        } else {
            address
        };
        if target == INDIRECT_ADDR {
            return None;
        }
        let offset = target & 0x7F;
        assert(target & 0x7F < 128) by (bit_vector);
        let mirrored = offset == INDIRECT_ADDR || offset == PCL_ADDR || offset == STATUS_ADDR
            || offset == FSR_ADDR || offset == PCLATH_ADDR;
        if mirrored || !get_bit(self.memory[STATUS_ADDR as usize], RP0) {
            Some(offset as usize)
        } else {
            Some(BANK_SIZE + offset as usize)
        }
    }

    /// Reads the register that `address` reaches.
    pub fn read_byte(&self, address: u8) -> (value: u8)
        ensures
            value == self@.read(address),
    {
        match self.resolve(address) {
            Some(index) => self.memory[index],
            None => 0,
        }
    }

    /// Writes `value` to the register that `address` reaches. Returns
    /// whether the write went to PCL and so moved the program counter.
    pub fn write_byte(&mut self, address: u8, value: u8) -> (pc_written: bool)
        ensures
            final(self)@ == old(self)@.write(address, value),
            pc_written == old(self)@.writes_pcl(address),
    {
        match self.resolve(address) {
            Some(index) => {
                self.memory[index] = value;
                index == PCL_ADDR as usize
            },
            None => false,
        }
    }

    /// Reads bit `index` of the register that `address` reaches.
    pub fn get_bit(&self, address: u8, index: usize) -> (bit: bool)
        requires
            index < 8,
        ensures
            bit == bit_is_set(self@.read(address), index),
    {
        get_bit(self.read_byte(address), index)
    }

    /// Sets bit `index` of the register that `address` reaches.
    pub fn set_bit(&mut self, address: u8, index: usize) -> (pc_written: bool)
        requires
            index < 8,
        ensures
            final(self)@ == old(self)@.write(
                address,
                with_bit(old(self)@.read(address), index, true),
            ),
            pc_written == old(self)@.writes_pcl(address),
    {
        let mut value = self.read_byte(address);
        crate::bits::set_bit(&mut value, index);
        self.write_byte(address, value)
    }

    /// Clears bit `index` of the register that `address` reaches.
    pub fn clear_bit(&mut self, address: u8, index: usize) -> (pc_written: bool)
        requires
            index < 8,
        ensures
            final(self)@ == old(self)@.write(
                address,
                with_bit(old(self)@.read(address), index, false),
            ),
            pc_written == old(self)@.writes_pcl(address),
    {
        let mut value = self.read_byte(address);
        crate::bits::clear_bit(&mut value, index);
        self.write_byte(address, value)
    }

    /// The program counter.
    pub fn get_pc(&self) -> (pc: u16)
        ensures
            pc == self@.pc(),
            pc <= PC_MASK,
    {
        let high = self.memory[PCLATH_ADDR as usize] & 0x1F;
        let low = self.memory[PCL_ADDR as usize];
        proof {
            lemma_pc_matches_registers(self@);
        }
        ((high as u16) << 8) | (low as u16)
    }

    /// Sets the program counter to the low 13 bits of `value`, through PCL
    /// and PCLATH.
    pub fn load_pc(&mut self, value: u16)
        ensures
            final(self)@ == old(self)@.load_pc(value),
    {
        self.memory[PCL_ADDR as usize] = get_low_byte(value);
        self.memory[PCLATH_ADDR as usize] = get_high_byte(value) & 0x1F;
    }

    /// Adds `n` to the program counter, which wraps at 13 bits.
    pub fn inc_pc(&mut self, n: u16)
        ensures
            final(self)@ == old(self)@.inc_pc(n),
    {
        let pc = self.get_pc();
        let sum: u32 = pc as u32 + n as u32;
        let next: u16 = (sum % 0x2000) as u16;
        self.load_pc(next);
    }

    /// Pushes a return address; returns whether a live entry was
    /// overwritten.
    pub fn push(&mut self, value: u16) -> (overflow: bool)
        requires
            value <= PC_MASK,
        ensures
            final(self)@ == old(self)@.push(value),
            overflow == (old(self)@.stack.depth == crate::stack::STACK_SIZE),
    {
        self.stack.push(value)
    }

    /// Pops a return address; on an empty stack the stack pointer wraps.
    pub fn pop(&mut self) -> (value: u16)
        ensures
            value == old(self)@.stack.top(),
            value <= PC_MASK,
            final(self)@ == old(self)@.pop(),
    {
        self.stack.pop()
    }
}

} // verus!
