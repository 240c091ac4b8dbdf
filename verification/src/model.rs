//! The model of the core: its state as mathematical values, and
//! what every instruction, a step and a reset do to it.

use vstd::prelude::*;
use crate::alu::{
    add_carries, add_digit_carries, difference8, rotated_left, rotated_right, sub_carries,
    sub_digit_carries, sum8, swapped,
};
use crate::bits::{bit_is_set, with_bit};
use crate::clock::{xtal_period, DEFAULT_FRAME_NS};
use crate::command::{command_of, Command, Inbound};
use crate::data_bus::{BusView, C, DC, PORTA_ADDR, PORTB_ADDR, STATUS_ADDR, Z};
use crate::instruction::{
    Address, BitIndex, DestinationFlag, FileRegister, Instruction, Literal,
};
use crate::parser::{listing_of, ListingView};
use crate::rom_bus::{fetch, loaded, RomError, ROM_SIZE};
use crate::stack::STACK_SIZE;
use crate::text::{
    line_freg, line_fsr, line_option, line_pcintern, line_pcl, line_pclath, line_stack,
    line_status, line_statusbit, line_timer0, line_wreg, source_line,
};

verus! {

/// How the execution of one instruction ended.
#[derive(Clone, Copy, Debug, PartialEq, Eq, Structural)]
pub enum ExecStatus {
    /// The instruction was executed.
    Done,
    /// The instruction was executed; its push overwrote the oldest return
    /// address of a full stack.
    StackOverflow,
    /// The instruction was executed; its pop found the stack empty and the
    /// stack pointer wrapped.
    StackUnderflow,
    /// The word is no instruction; nothing was executed.
    UnknownInstruction,
}

/// The state of the core.
pub struct CpuView {
    /// File registers, working register and return-address stack.
    pub bus: BusView,
    /// Program memory.
    pub rom: Seq<u8>,
    /// The listing that the program came from.
    pub listing: ListingView,
    /// Whether the last instruction redirected the program counter.
    pub jump: bool,
    /// Instruction cycles since the last reset.
    pub cycles: u64,
    /// Whether the core runs freely: one step per tick.
    pub running: bool,
    /// Nanoseconds per instruction cycle.
    pub frame_ns: u64,
    /// The outbound commands that wait to be flushed, oldest first.
    pub out: Seq<Seq<char>>,
}

impl CpuView {
    /// Two banks of file registers and a program memory of full size.
    pub open spec fn wf(self) -> bool {
        &&& self.bus.wf()
        &&& self.rom.len() == ROM_SIZE
    }

    /// The state of a core that was just created: everything zero, no
    /// program, no listing, stopped, the default clock.
    pub open spec fn power_on() -> CpuView {
        CpuView {
            bus: BusView::reset(),
            rom: Seq::new(ROM_SIZE as nat, |i: int| 0u8),
            listing: ListingView::empty(),
            jump: false,
            cycles: 0,
            running: false,
            frame_ns: DEFAULT_FRAME_NS,
            out: Seq::empty(),
        }
    }

    /// This state with one more outbound command.
    pub open spec fn emit(self, line: Seq<char>) -> CpuView {
        CpuView { out: self.out.push(line), ..self }
    }

    /// This state with the source line of `pc` reported under `keyword`,
    /// where the listing knows that line.
    pub open spec fn emit_source(self, keyword: Seq<char>, pc: u16) -> CpuView {
        if self.listing.lines.contains_key(pc) {
            self.emit(source_line(keyword, self.listing.lines[pc] as nat))
        } else {
            self
        }
    }

    /// The carry flag.
    pub open spec fn carry(self) -> bool {
        bit_is_set(self.bus.status(), C)
    }

    /// The digit-carry flag.
    pub open spec fn digit_carry(self) -> bool {
        bit_is_set(self.bus.status(), DC)
    }

    /// The zero flag.
    pub open spec fn zero(self) -> bool {
        bit_is_set(self.bus.status(), Z)
    }

    /// The state after W was written.
    pub open spec fn set_w(self, value: u8) -> CpuView {
        CpuView { bus: BusView { w: value, ..self.bus }, ..self }.emit(line_wreg(value))
    }

    /// The state after bit `bit` of STATUS was written: the bit is reported
    /// first, the whole register after it.
    pub open spec fn set_flag(self, bit: usize, value: bool) -> CpuView {
        let status = with_bit(self.bus.status(), bit, value);
        CpuView {
            bus: BusView { file: self.bus.file.update(STATUS_ADDR as int, status), ..self.bus },
            ..self
        }.emit(line_statusbit(bit as nat, value)).emit(line_status(status))
    }

    /// The state after the zero flag was written.
    pub open spec fn set_zero(self, value: bool) -> CpuView {
        self.set_flag(Z, value)
    }

    /// The state after the carry flag was written.
    pub open spec fn set_carry(self, value: bool) -> CpuView {
        self.set_flag(C, value)
    }

    /// The state after the digit-carry flag was written.
    pub open spec fn set_digit_carry(self, value: bool) -> CpuView {
        self.set_flag(DC, value)
    }

    /// The state after `value` was written to the file register that
    /// `destination` reaches. A write into PCL counts as a jump. Where INDF
    /// is addressed while FSR is zero nothing happens.
    pub open spec fn write_register(self, destination: u8, value: u8) -> CpuView {
        if self.bus.resolve(destination) is Some {
            CpuView {
                bus: self.bus.write(destination, value),
                jump: self.jump || self.bus.writes_pcl(destination),
                ..self
            }.emit(line_freg(self.bus.effective_address(destination), value))
        } else {
            self
        }
    }

    /// The state after a result was stored: in the file register where
    /// `to_file` is set, in W where it is clear.
    pub open spec fn set_fsr(self, destination: u8, value: u8, to_file: bool) -> CpuView {
        if to_file {
            self.write_register(destination, value)
        } else {
            self.set_w(value)
        }
    }

    /// The state after one bit of a file register was written.
    pub open spec fn write_register_bit(self, destination: u8, index: usize, value: bool)
        -> CpuView {
        self.write_register(destination, with_bit(self.bus.read(destination), index, value))
    }

    /// The state after a return address was pushed.
    pub open spec fn push(self, value: u16) -> CpuView {
        let bus = self.bus.push(value);
        CpuView { bus, ..self }.emit(line_stack(bus.stack.live()))
    }

    /// The state after a return address was popped.
    pub open spec fn pop(self) -> CpuView {
        let bus = self.bus.pop();
        CpuView { bus, ..self }.emit(line_stack(bus.stack.live()))
    }

    /// The state after a jump to `target`.
    pub open spec fn jump_to(self, target: u16) -> CpuView {
        CpuView { bus: self.bus.load_pc(target), jump: true, ..self }
    }

    /// The state after the next instruction was skipped, where `taken`.
    pub open spec fn skip_if(self, taken: bool) -> CpuView {
        if taken {
            CpuView { bus: self.bus.inc_pc(2), jump: true, ..self }
        } else {
            self
        }
    }

    /// The state after a return: the program counter comes from the stack.
    pub open spec fn return_from_call(self) -> CpuView {
        self.pop().jump_to(self.bus.stack.top())
    }

    /// The program-counter value that a GOTO or CALL with operand `a`
    /// reaches: PCLATH gives bits 11 and 12.
    pub open spec fn page_target(self, a: u16) -> u16 {
        (((self.bus.pclath() as u16) << 11) & 0x1800) | a
    }

    /// The address that follows the program counter.
    pub open spec fn return_address(self) -> u16 {
        ((self.bus.pc() + 1) % 0x2000) as u16
    }

    /// The byte that `instruction` computes from W, its operand and the
    /// carry flag; zero for an instruction that computes none.
    pub open spec fn result(self, instruction: Instruction) -> u8 {
        let w = self.bus.w;
        match instruction {
            Instruction::MovLw(Literal(k)) | Instruction::RetLw(Literal(k)) => k,
            Instruction::AndLw(Literal(k)) => w & k,
            Instruction::IorLw(Literal(k)) => w | k,
            Instruction::XorLw(Literal(k)) => w ^ k,
            Instruction::AddLw(Literal(k)) => sum8(w, k),
            Instruction::SubLw(Literal(k)) => difference8(k, w),
            Instruction::ClrW | Instruction::ClrF(_) => 0,
            Instruction::MovWf(_) => w,
            Instruction::MovF(FileRegister(f), _) => self.bus.read(f),
            Instruction::AddWf(FileRegister(f), _) => sum8(w, self.bus.read(f)),
            Instruction::SubWf(FileRegister(f), _) => difference8(self.bus.read(f), w),
            Instruction::AndWf(FileRegister(f), _) => w & self.bus.read(f),
            Instruction::IorWf(FileRegister(f), _) => w | self.bus.read(f),
            Instruction::XorWf(FileRegister(f), _) => w ^ self.bus.read(f),
            Instruction::ComF(FileRegister(f), _) => !self.bus.read(f),
            Instruction::IncF(FileRegister(f), _) | Instruction::IncFsz(FileRegister(f), _) => sum8(
                self.bus.read(f),
                1,
            ),
            Instruction::DecF(FileRegister(f), _)
            | Instruction::DecFsz(FileRegister(f), _) => difference8(self.bus.read(f), 1),
            Instruction::SwapWf(FileRegister(f), _) => swapped(self.bus.read(f)),
            Instruction::RlF(FileRegister(f), _) => rotated_left(self.bus.read(f), self.carry()),
            Instruction::RrF(FileRegister(f), _) => rotated_right(self.bus.read(f), self.carry()),
            Instruction::BcF(FileRegister(f), BitIndex(b)) => with_bit(self.bus.read(f), b, false),
            Instruction::BsF(FileRegister(f), BitIndex(b)) => with_bit(self.bus.read(f), b, true),
            _ => 0,
        }
    }

    /// Whether `instruction` is one of those that skip the next one on a
    /// condition.
    pub open spec fn is_skip(instruction: Instruction) -> bool {
        instruction is BtFsc || instruction is BtFss || instruction is IncFsz
            || instruction is DecFsz
    }

    /// Whether `instruction` is a skip whose condition holds in this state.
    pub open spec fn skip_taken(self, instruction: Instruction) -> bool {
        match instruction {
            Instruction::BtFsc(FileRegister(f), BitIndex(b)) => !bit_is_set(self.bus.read(f), b),
            Instruction::BtFss(FileRegister(f), BitIndex(b)) => bit_is_set(self.bus.read(f), b),
            Instruction::IncFsz(_, _) | Instruction::DecFsz(_, _) => self.result(instruction) == 0,
            _ => false,
        }
    }

    /// Whether `instruction` always redirects the program counter.
    pub open spec fn is_branch(instruction: Instruction) -> bool {
        instruction is Goto || instruction is Call || instruction is Return
            || instruction is RetFie || instruction is RetLw
    }

    /// The operand and the destination flag of an instruction that has a
    /// destination flag.
    pub open spec fn destination(instruction: Instruction) -> Option<(u8, bool)> {
        match instruction {
            Instruction::AddWf(FileRegister(f), DestinationFlag(d))
            | Instruction::AndWf(FileRegister(f), DestinationFlag(d))
            | Instruction::ComF(FileRegister(f), DestinationFlag(d))
            | Instruction::DecF(FileRegister(f), DestinationFlag(d))
            | Instruction::DecFsz(FileRegister(f), DestinationFlag(d))
            | Instruction::IncF(FileRegister(f), DestinationFlag(d))
            | Instruction::IncFsz(FileRegister(f), DestinationFlag(d))
            | Instruction::IorWf(FileRegister(f), DestinationFlag(d))
            | Instruction::MovF(FileRegister(f), DestinationFlag(d))
            | Instruction::RlF(FileRegister(f), DestinationFlag(d))
            | Instruction::RrF(FileRegister(f), DestinationFlag(d))
            | Instruction::SubWf(FileRegister(f), DestinationFlag(d))
            | Instruction::SwapWf(FileRegister(f), DestinationFlag(d))
            | Instruction::XorWf(FileRegister(f), DestinationFlag(d)) => Some((f, d)),
            _ => None,
        }
    }

    /// The operand of an instruction that writes its result to a file
    /// register.
    pub open spec fn written_register(instruction: Instruction) -> Option<u8> {
        match instruction {
            Instruction::MovWf(FileRegister(f))
            | Instruction::ClrF(FileRegister(f))
            | Instruction::BcF(FileRegister(f), _)
            | Instruction::BsF(FileRegister(f), _) => Some(f),
            _ => match Self::destination(instruction) {
                Some((f, true)) => Some(f),
                _ => None,
            },
        }
    }

    /// Whether `instruction` redirects the program counter in this state: a
    /// branch, a skip that is taken, or a write into PCL.
    pub open spec fn redirects(self, instruction: Instruction) -> bool {
        ||| Self::is_branch(instruction)
        ||| self.skip_taken(instruction)
        ||| (Self::written_register(instruction) matches Some(f) && self.bus.writes_pcl(f))
    }

    /// Whether `instruction` writes the zero flag.
    pub open spec fn affects_zero(instruction: Instruction) -> bool {
        match instruction {
            Instruction::AddLw(_)
            | Instruction::SubLw(_)
            | Instruction::AndLw(_)
            | Instruction::IorLw(_)
            | Instruction::XorLw(_)
            | Instruction::ClrW
            | Instruction::ClrF(_)
            | Instruction::MovF(_, _)
            | Instruction::AddWf(_, _)
            | Instruction::SubWf(_, _)
            | Instruction::AndWf(_, _)
            | Instruction::IorWf(_, _)
            | Instruction::XorWf(_, _)
            | Instruction::ComF(_, _)
            | Instruction::IncF(_, _)
            | Instruction::DecF(_, _) => true,
            _ => false,
        }
    }

    /// The STATUS byte after the flags of `instruction`, executed in this
    /// state, were written into `status`.
    pub open spec fn flags_written(self, instruction: Instruction, status: u8) -> u8 {
        let w = self.bus.w;
        let zero = with_bit(status, Z, self.result(instruction) == 0);
        match instruction {
            Instruction::AddLw(Literal(k)) => with_bit(
                with_bit(zero, C, add_carries(w, k)),
                DC,
                add_digit_carries(w, k),
            ),
            Instruction::SubLw(Literal(k)) => with_bit(
                with_bit(zero, C, sub_carries(k, w)),
                DC,
                sub_digit_carries(k, w),
            ),
            Instruction::AddWf(FileRegister(f), _) => with_bit(
                with_bit(zero, C, add_carries(w, self.bus.read(f))),
                DC,
                add_digit_carries(w, self.bus.read(f)),
            ),
            Instruction::SubWf(FileRegister(f), _) => with_bit(
                with_bit(zero, C, sub_carries(self.bus.read(f), w)),
                DC,
                sub_digit_carries(self.bus.read(f), w),
            ),
            Instruction::RlF(FileRegister(f), _) => with_bit(
                status,
                C,
                bit_is_set(self.bus.read(f), 7),
            ),
            Instruction::RrF(FileRegister(f), _) => with_bit(
                status,
                C,
                bit_is_set(self.bus.read(f), 0),
            ),
            _ => if Self::affects_zero(instruction) {
                zero
            } else {
                status
            },
        }
    }

    /// The state after `instruction` was executed: the jump flag is cleared
    /// first, then the instruction is performed.
    pub open spec fn execute(self, instruction: Instruction) -> CpuView {
        self.clear_jump().perform(instruction)
    }

    /// This state with the jump flag cleared.
    pub open spec fn clear_jump(self) -> CpuView {
        CpuView { jump: false, ..self }
    }

    /// What `instruction` does to the state. The result is stored first, the
    /// flags are written after it.
    #[verifier::opaque]
    pub open spec fn perform(self, instruction: Instruction) -> CpuView {
        let s = self;
        let w = s.bus.w;
        let r = s.result(instruction);
        match instruction {
            Instruction::Nop
            | Instruction::ClrWdt
            | Instruction::Sleep
            | Instruction::Unknown(_) => s,
            Instruction::MovLw(_) => s.set_w(r),
            Instruction::AndLw(_) | Instruction::IorLw(_) | Instruction::XorLw(_) => s.set_w(
                r,
            ).set_zero(r == 0),
            Instruction::AddLw(Literal(k)) => s.set_w(r).set_zero(r == 0).set_carry(
                add_carries(w, k),
            ).set_digit_carry(add_digit_carries(w, k)),
            Instruction::SubLw(Literal(k)) => s.set_w(r).set_zero(r == 0).set_carry(
                sub_carries(k, w),
            ).set_digit_carry(sub_digit_carries(k, w)),
            Instruction::ClrW => s.set_w(0).set_zero(true),
            Instruction::ClrF(FileRegister(f)) => s.write_register(f, 0).set_zero(true),
            Instruction::MovWf(FileRegister(f)) => s.write_register(f, r),
            Instruction::MovF(FileRegister(f), DestinationFlag(d))
            | Instruction::AndWf(FileRegister(f), DestinationFlag(d))
            | Instruction::IorWf(FileRegister(f), DestinationFlag(d))
            | Instruction::XorWf(FileRegister(f), DestinationFlag(d))
            | Instruction::ComF(FileRegister(f), DestinationFlag(d))
            | Instruction::IncF(FileRegister(f), DestinationFlag(d))
            | Instruction::DecF(FileRegister(f), DestinationFlag(d)) => s.set_fsr(
                f,
                r,
                d,
            ).set_zero(r == 0),
            Instruction::AddWf(FileRegister(f), DestinationFlag(d)) => {
                let v = s.bus.read(f);
                s.set_fsr(f, r, d).set_zero(r == 0).set_carry(add_carries(w, v)).set_digit_carry(
                    add_digit_carries(w, v),
                )
            },
            Instruction::SubWf(FileRegister(f), DestinationFlag(d)) => {
                let v = s.bus.read(f);
                s.set_fsr(f, r, d).set_zero(r == 0).set_carry(sub_carries(v, w)).set_digit_carry(
                    sub_digit_carries(v, w),
                )
            },
            Instruction::SwapWf(FileRegister(f), DestinationFlag(d)) => s.set_fsr(f, r, d),
            Instruction::RlF(FileRegister(f), DestinationFlag(d)) => s.set_fsr(f, r, d).set_carry(
                bit_is_set(s.bus.read(f), 7),
            ),
            Instruction::RrF(FileRegister(f), DestinationFlag(d)) => s.set_fsr(f, r, d).set_carry(
                bit_is_set(s.bus.read(f), 0),
            ),
            Instruction::IncFsz(FileRegister(f), DestinationFlag(d))
            | Instruction::DecFsz(FileRegister(f), DestinationFlag(d)) => s.set_fsr(
                f,
                r,
                d,
            ).skip_if(r == 0),
            Instruction::BcF(FileRegister(f), _) | Instruction::BsF(FileRegister(f), _) =>
                s.write_register(f, r),
            Instruction::BtFsc(FileRegister(f), BitIndex(b)) => s.skip_if(
                !bit_is_set(s.bus.read(f), b),
            ),
            Instruction::BtFss(FileRegister(f), BitIndex(b)) => s.skip_if(
                bit_is_set(s.bus.read(f), b),
            ),
            Instruction::Goto(Address(a)) => s.jump_to(s.page_target(a)),
            Instruction::Call(Address(a)) => s.push(s.return_address()).jump_to(s.page_target(a)),
            Instruction::Return | Instruction::RetFie => s.return_from_call(),
            Instruction::RetLw(_) => s.set_w(r).return_from_call(),
        }
    }

    /// How the execution of `instruction` ends in this state.
    pub open spec fn status_of(self, instruction: Instruction) -> ExecStatus {
        match instruction {
            Instruction::Unknown(_) => ExecStatus::UnknownInstruction,
            Instruction::Call(_) => if self.bus.stack.depth == STACK_SIZE {
                ExecStatus::StackOverflow
            } else {
                ExecStatus::Done
            },
            Instruction::Return | Instruction::RetFie | Instruction::RetLw(_) => if self.bus.stack.depth
                == 0 {
                ExecStatus::StackUnderflow
            } else {
                ExecStatus::Done
            },
            _ => ExecStatus::Done,
        }
    }

    /// The cycle counter after `cost` more cycles; it stops at its largest
    /// value.
    pub open spec fn cycles_after(self, cost: u64) -> u64 {
        if self.cycles + cost > u64::MAX {
            u64::MAX
        } else {
            (self.cycles + cost) as u64
        }
    }

    /// The state after the cycles of the executed instruction were counted:
    /// two after a jump, else one and the program counter moves on.
    pub open spec fn advance(self) -> CpuView {
        if self.jump {
            CpuView { cycles: self.cycles_after(2), ..self }
        } else {
            CpuView { cycles: self.cycles_after(1), bus: self.bus.inc_pc(1), ..self }
        }
    }

    /// This state with the program counter reported: PCL, PCLATH and the
    /// counter itself.
    pub open spec fn emit_pc(self) -> CpuView {
        self.emit(line_pcl(self.bus.pcl())).emit(line_pclath(self.bus.pclath())).emit(
            line_pcintern(self.bus.pc()),
        )
    }

    /// The state after one step: fetch, execute, count the cycles, then
    /// report the source line left, the source line reached and the program
    /// counter. Where no instruction can be fetched nothing changes.
    pub open spec fn step(self) -> CpuView {
        match fetch(self.rom, self.bus.pc()) {
            Ok(instruction) => {
                let s = self.execute(instruction).advance();
                s.emit_source("RESLINE"@, self.bus.pc()).emit_source(
                    "SETLINE"@,
                    s.bus.pc(),
                ).emit_pc()
            },
            Err(_) => self,
        }
    }

    /// What a step returns.
    pub open spec fn step_result(self) -> Result<ExecStatus, RomError> {
        match fetch(self.rom, self.bus.pc()) {
            Ok(instruction) => Ok(self.status_of(instruction)),
            Err(error) => Err(error),
        }
    }

    /// The state after a reset: the source line of the program counter is
    /// released, registers, stack and cycle counter are zero, and the whole
    /// state is reported. Program memory, listing, clock and run mode stay.
    pub open spec fn reset(self) -> CpuView {
        let s = CpuView {
            bus: BusView::reset(),
            cycles: 0,
            jump: false,
            ..self.emit_source("RESLINE"@, self.bus.pc())
        };
        let sfr = s.bus.sfr_bank();
        s.emit_pc().emit(line_wreg(sfr.w)).emit(line_status(sfr.status)).emit(
            line_fsr(sfr.fsr),
        ).emit(line_option(sfr.option)).emit(line_timer0(sfr.tmr0)).emit(
            line_stack(s.bus.stack.live()),
        )
    }

    /// The state after a program was loaded: program memory holds the image
    /// from address 0 on and zeros after it, the core is reset, the listing
    /// is installed and the source line of address 0 is reported.
    pub open spec fn load(self, listing: ListingView) -> CpuView {
        let cleared = Seq::new(ROM_SIZE as nat, |i: int| 0u8);
        let s = CpuView { rom: loaded(cleared, listing.program, 0), ..self }.reset();
        CpuView { listing, ..s }.emit_source("SETLINE"@, 0)
    }

    /// The state after one pin of a port in bank 0 was driven.
    pub open spec fn write_port(self, port: u8, bit: usize, high: bool) -> CpuView {
        let value = with_bit(self.bus.file[port as int], bit, high);
        CpuView {
            bus: BusView { file: self.bus.file.update(port as int, value), ..self.bus },
            ..self
        }.emit(line_freg(port, value))
    }

    /// The state after a command was carried out. `listing` is the text of
    /// the file that a load command names, where it could be read. A command
    /// that cannot be carried out changes nothing.
    pub open spec fn apply(self, command: Command, listing: Option<Seq<char>>) -> CpuView {
        match command {
            Command::Load => match listing {
                Some(text) => self.load(listing_of(text)),
                None => self,
            },
            Command::Step => self.step(),
            Command::Reset => self.reset().emit_source("SETLINE"@, 0),
            Command::Start => CpuView { running: true, ..self },
            Command::Stop => CpuView { running: false, ..self },
            Command::Xtal(count, unit) => match xtal_period(count, unit) {
                Some(period) => CpuView { frame_ns: period, ..self },
                None => self,
            },
            Command::PortA(bit, high) => self.write_port(PORTA_ADDR, bit, high),
            Command::PortB(bit, high) => self.write_port(PORTB_ADDR, bit, high),
            Command::Malformed | Command::Unknown => self,
        }
    }

    /// The state after one inbound line was handled.
    pub open spec fn handle(self, inbound: Inbound) -> CpuView {
        self.apply(command_of(inbound.line@), inbound.listing_text())
    }

    /// What the step of one inbound line returns, where the line is a step
    /// command.
    pub open spec fn step_of(self, inbound: Inbound) -> Option<Result<ExecStatus, RomError>> {
        if command_of(inbound.line@) == Command::Step {
            Some(self.step_result())
        } else {
            None
        }
    }

    /// The state after the first `n` lines of a batch were handled, in
    /// their order.
    pub open spec fn handle_first(self, batch: Seq<Inbound>, n: nat) -> CpuView
        decreases n,
    {
        if n == 0 {
            self
        } else {
            self.handle_first(batch, (n - 1) as nat).handle(batch[n - 1])
        }
    }

    /// What the steps return that the first `n` lines of a batch ask for,
    /// in their order.
    pub open spec fn steps_first(self, batch: Seq<Inbound>, n: nat) -> Seq<
        Result<ExecStatus, RomError>,
    >
        decreases n,
    {
        if n == 0 {
            Seq::empty()
        } else {
            let before = self.steps_first(batch, (n - 1) as nat);
            match self.handle_first(batch, (n - 1) as nat).step_of(batch[n - 1]) {
                Some(result) => before.push(result),
                None => before,
            }
        }
    }

    /// What the steps of a tick return, in their order: those that the batch
    /// asks for, then the one that is made where the core runs freely.
    pub open spec fn tick_steps(self, batch: Seq<Inbound>) -> Seq<Result<ExecStatus, RomError>> {
        let s = self.handle_first(batch, batch.len());
        let asked = self.steps_first(batch, batch.len());
        if s.running {
            asked.push(s.step_result())
        } else {
            asked
        }
    }

    /// The state at the end of a tick, before the outbound commands are
    /// flushed: the batch was handled, then one step was made where the core
    /// runs freely.
    pub open spec fn tick(self, batch: Seq<Inbound>) -> CpuView {
        let s = self.handle_first(batch, batch.len());
        if s.running {
            s.step()
        } else {
            s
        }
    }

    /// The state after a tick: as at its end, with no outbound command
    /// waiting.
    pub open spec fn update(self, batch: Seq<Inbound>) -> CpuView {
        CpuView { out: Seq::empty(), ..self.tick(batch) }
    }
}

} // verus!
