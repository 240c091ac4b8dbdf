//! The core: executes instructions on the data bus, counts cycles and
//! collects the outbound commands that report every change of state.

use vstd::prelude::*;
use crate::alu::{
    add_bytes, decrement, increment, rotate_left, rotate_right, sub_bytes, swap_nibbles,
};
use crate::bits::{get_bit, set_bit_enabled};
use crate::data_bus::{DataBus, C, DC, INDIRECT_ADDR, PORTA_ADDR, PORTB_ADDR, STATUS_ADDR, Z};
use crate::instruction::{
    Address, BitIndex, DestinationFlag, FileRegister, Instruction, Literal,
};
use crate::clock::{delay_for, period_for, remaining_delay, DEFAULT_FRAME_NS};
use crate::command::{command_of, parse_command, Command, Inbound};
use crate::model::{CpuView, ExecStatus};
use crate::parser::{parse_lst_file, ParseResult};
use crate::rom_bus::{RomBus, RomError, ROM_SIZE};
use crate::text::{
    line_stack, make_freg_line, make_pcintern_line, make_register_line, make_source_line,
    make_statusbit_line, push_zero_padded, stack_entries,
};
use vstd::string::StringExecFns;

verus! {

/// The text of each of `commands`.
pub open spec fn lines_of(commands: Seq<String>) -> Seq<Seq<char>> {
    Seq::new(commands.len(), |i: int| commands[i]@)
}

/// What one tick hands out.
pub struct Tick {
    /// The outbound commands that had gathered, oldest first.
    pub lines: Vec<String>,
    /// What each step of the tick returned, in their order.
    pub steps: Vec<Result<ExecStatus, RomError>>,
}

/// The core.
pub struct CPU {
    /// Instruction cycles since the last reset.
    pub cycles: u64,
    /// File registers, working register and stack.
    pub data_bus: DataBus,
    /// Program memory.
    pub rom_bus: RomBus,
    /// Whether the core runs freely.
    pub running: bool,
    /// The listing that the program came from.
    pub program_info: ParseResult,
    /// Whether the last instruction redirected the program counter.
    pub jump_performed: bool,
    /// Nanoseconds per instruction cycle.
    pub frame_duration: u64,
    /// The outbound commands that wait to be flushed, oldest first.
    pub commands: Vec<String>,
}

impl View for CPU {
    type V = CpuView;

    open spec fn view(&self) -> CpuView {
        CpuView {
            bus: self.data_bus@,
            rom: self.rom_bus@,
            listing: self.program_info@,
            jump: self.jump_performed,
            cycles: self.cycles,
            running: self.running,
            frame_ns: self.frame_duration,
            out: lines_of(self.commands@),
        }
    }
}

impl CPU {
    /// The state of every core is well formed.
    pub proof fn lemma_wf(&self)
        ensures
            self@.wf(),
    {
    }

    /// A core in its power-on state.
    pub fn new() -> (cpu: CPU)
        ensures
            cpu@ == CpuView::power_on(),
            cpu@.wf(),
    {
        let cpu = CPU {
            cycles: 0,
            data_bus: DataBus::new(),
            rom_bus: RomBus::new(),
            running: false,
            program_info: ParseResult::new(),
            jump_performed: false,
            frame_duration: DEFAULT_FRAME_NS,
            commands: Vec::new(),
        };
        assert(cpu@.rom =~= CpuView::power_on().rom);
        assert(cpu@.out =~= CpuView::power_on().out);
        cpu
    }

    /// Appends one outbound command.
    pub fn write_command(&mut self, cmd: String)
        ensures
            final(self)@ == old(self)@.emit(cmd@),
    {
        self.commands.push(cmd);
        assert(lines_of(self.commands@) =~= lines_of(old(self).commands@).push(cmd@));
    }

    /// Reports the source line of `pc` under `keyword`, where the listing
    /// knows it.
    fn write_source_command(&mut self, keyword: &str, pc: u16)
        ensures
            final(self)@ == old(self)@.emit_source(keyword@, pc),
    {
        let found = match self.program_info.pc_mapper.get(&pc) {
            Some(line) => Some(*line),
            None => None,
        };
        match found {
            Some(line) => {
                self.write_command(make_source_line(keyword, line));
            },
            None => {},
        }
    }

    /// Reports the program counter: PCL, PCLATH and the counter itself.
    fn write_pc_commands(&mut self)
        ensures
            final(self)@ == old(self)@.emit_pc(),
    {
        let sfr = self.data_bus.sfr_bank();
        self.write_command(make_register_line("PCL", sfr.pcl));
        self.write_command(make_register_line("PCLATH", sfr.pclath));
        self.write_command(make_pcintern_line(self.data_bus.get_pc()));
    }

    /// The carry flag.
    pub fn get_carry(&self) -> (flag: bool)
        ensures
            flag == self@.carry(),
    {
        get_bit(self.data_bus.sfr_bank().status, C)
    }

    /// The digit-carry flag.
    pub fn get_digit_carry(&self) -> (flag: bool)
        ensures
            flag == self@.digit_carry(),
    {
        get_bit(self.data_bus.sfr_bank().status, DC)
    }

    /// The zero flag.
    pub fn get_zero(&self) -> (flag: bool)
        ensures
            flag == self@.zero(),
    {
        get_bit(self.data_bus.sfr_bank().status, Z)
    }

    /// The working register.
    pub fn get_w(&self) -> (w: u8)
        ensures
            w == self@.bus.w,
    {
        self.data_bus.w
    }

    /// The STATUS register.
    pub fn get_status(&self) -> (status: u8)
        ensures
            status == self@.bus.status(),
    {
        self.data_bus.sfr_bank().status
    }

    /// The file register that `destination` reaches.
    pub fn get_fsr(&self, destination: u8) -> (value: u8)
        ensures
            value == self@.bus.read(destination),
    {
        self.data_bus.read_byte(destination)
    }

    /// Bit `index` of the file register that `destination` reaches.
    pub fn get_fsr_bit(&self, destination: u8, index: usize) -> (bit: bool)
        requires
            index < 8,
        ensures
            bit == crate::bits::bit_is_set(self@.bus.read(destination), index),
    {
        self.data_bus.get_bit(destination, index)
    }

    /// The program counter.
    pub fn get_pc(&self) -> (pc: u16)
        ensures
            pc == self@.bus.pc(),
    {
        self.data_bus.get_pc()
    }

    /// Nanoseconds per instruction cycle.
    pub fn get_frame_duration(&self) -> (ns: u64)
        ensures
            ns == self@.frame_ns,
    {
        self.frame_duration
    }

    fn set_flag(&mut self, bit: usize, value: bool)
        requires
            bit < 8,
        ensures
            final(self)@ == old(self)@.set_flag(bit, value),
    {
        let mut status = self.data_bus.memory[STATUS_ADDR as usize];
        set_bit_enabled(&mut status, bit, value);
        self.data_bus.memory[STATUS_ADDR as usize] = status;
        self.write_command(make_statusbit_line(bit, value));
        self.write_command(make_register_line("STATUS", status));
    }

    /// Writes the zero flag and reports it.
    pub fn set_zero(&mut self, value: bool)
        ensures
            final(self)@ == old(self)@.set_zero(value),
    {
        self.set_flag(Z, value);
    }

    /// Writes the carry flag and reports it.
    pub fn set_carry(&mut self, value: bool)
        ensures
            final(self)@ == old(self)@.set_carry(value),
    {
        self.set_flag(C, value);
    }

    /// Writes the digit-carry flag and reports it.
    pub fn set_digit_carry(&mut self, value: bool)
        ensures
            final(self)@ == old(self)@.set_digit_carry(value),
    {
        self.set_flag(DC, value);
    }

    /// Writes the working register and reports it.
    pub fn set_w(&mut self, value: u8)
        ensures
            final(self)@ == old(self)@.set_w(value),
    {
        self.data_bus.w = value;
        self.write_command(make_register_line("WREG", value));
    }

    /// The address that `destination` stands for: FSR where it is INDF.
    pub fn get_sfr_address(&self, destination: u8) -> (address: u8)
        ensures
            address == self@.bus.effective_address(destination),
    {
        if destination == INDIRECT_ADDR {
            self.data_bus.sfr_bank().fsr
        } else {
            destination
        }
    }

    fn write_register(&mut self, destination: u8, value: u8)
        ensures
            final(self)@ == old(self)@.write_register(destination, value),
    {
        let real_addr = self.get_sfr_address(destination);
        if self.data_bus.resolve(destination).is_some() {
            let pc_written = self.data_bus.write_byte(destination, value);
            self.jump_performed = self.jump_performed || pc_written;
            self.write_command(make_freg_line(real_addr, value));
        }
    }

    /// Stores a result and reports it: in the file register that
    /// `destination` reaches where `dflag` is set, in W where it is clear.
    pub fn set_fsr(&mut self, destination: u8, value: u8, dflag: bool)
        ensures
            final(self)@ == old(self)@.set_fsr(destination, value, dflag),
    {
        if !dflag {
            self.set_w(value);
        } else {
            self.write_register(destination, value);
        }
    }

    /// Sets bit `index` of the file register that `destination` reaches and
    /// reports the register.
    pub fn set_fsr_bit(&mut self, destination: u8, index: usize)
        requires
            index < 8,
        ensures
            final(self)@ == old(self)@.write_register_bit(destination, index, true),
    {
        let mut value = self.get_fsr(destination);
        crate::bits::set_bit(&mut value, index);
        self.write_register(destination, value);
    }

    /// Clears bit `index` of the file register that `destination` reaches
    /// and reports the register.
    pub fn clear_fsr_bit(&mut self, destination: u8, index: usize)
        requires
            index < 8,
        ensures
            final(self)@ == old(self)@.write_register_bit(destination, index, false),
    {
        let mut value = self.get_fsr(destination);
        crate::bits::clear_bit(&mut value, index);
        self.write_register(destination, value);
    }

    /// Reports the return-address stack, oldest entry first.
    pub fn output_stack(&mut self)
        ensures
            final(self)@ == old(self)@.emit(line_stack(old(self)@.bus.stack.live())),
    {
        let mut out = String::from_str("STACK");
        let count = self.data_bus.stack.len();
        let ghost live = self.data_bus.stack@.live();
        let mut i: usize = 0;
        while i < count
            invariant
                i <= count,
                count == live.len(),
                live == self.data_bus.stack@.live(),
                self == old(self),
                i == 0 ==> out@ == "STACK"@,
                i > 0 ==> out@ == "STACK"@ + seq![' '] + stack_entries(live.take(i as int)),
            decreases count - i,
        {
            proof {
                reveal_strlit(" ");
                reveal_strlit(", ");
            }
            if i == 0 {
                out.append(" ");
            } else {
                out.append(", ");
            }
            push_zero_padded(&mut out, self.data_bus.stack.get(i) as u64, 4);
            i = i + 1;
            proof {
                let upto = live.take(i as int);
                assert(upto.drop_last() =~= live.take(i - 1));
            }
        }
        assert(live.take(count as int) =~= live);
        self.write_command(out);
    }

    /// Pushes a return address and reports the stack; returns whether a
    /// live entry was overwritten.
    pub fn push(&mut self, value: u16) -> (overflow: bool)
        requires
            value <= crate::stack::PC_MASK,
        ensures
            final(self)@ == old(self)@.push(value),
            overflow == (old(self)@.bus.stack.depth == crate::stack::STACK_SIZE),
    {
        let overflow = self.data_bus.push(value);
        self.output_stack();
        overflow
    }

    /// Pops a return address and reports the stack.
    pub fn pop(&mut self) -> (value: u16)
        ensures
            final(self)@ == old(self)@.pop(),
            value == old(self)@.bus.stack.top(),
    {
        let value = self.data_bus.pop();
        self.output_stack();
        value
    }

    fn jump_to(&mut self, target: u16)
        ensures
            final(self)@ == old(self)@.jump_to(target),
    {
        self.data_bus.load_pc(target);
        self.jump_performed = true;
    }

    fn skip_if(&mut self, taken: bool)
        ensures
            final(self)@ == old(self)@.skip_if(taken),
    {
        if taken {
            self.data_bus.inc_pc(2);
            self.jump_performed = true;
        }
    }

    fn return_from_call(&mut self)
        ensures
            final(self)@ == old(self)@.return_from_call(),
    {
        let pc = self.pop();
        self.jump_to(pc);
    }

    fn page_target(&self, a: u16) -> (target: u16)
        ensures
            target == self@.page_target(a),
    {
        (((self.data_bus.sfr_bank().pclath as u16) << 11) & 0x1800) | a
    }

    /// Performs an instruction that works on W and a literal.
    fn perform_literal(&mut self, instruction: Instruction)
        requires
            instruction is MovLw || instruction is AndLw || instruction is IorLw
                || instruction is XorLw || instruction is AddLw || instruction is SubLw
                || instruction is ClrW,
        ensures
            final(self)@ == old(self)@.perform(instruction),
    {
        proof {
            reveal(CpuView::perform);
        }
        let w = self.get_w();
        match instruction {
            Instruction::MovLw(Literal(value)) => {
                self.set_w(value);
            },
            Instruction::AndLw(Literal(value)) => {
                let val = w & value;
                self.set_w(val);
                self.set_zero(val == 0);
            },
            Instruction::IorLw(Literal(value)) => {
                let val = w | value;
                self.set_w(val);
                self.set_zero(val == 0);
            },
            Instruction::XorLw(Literal(value)) => {
                let val = w ^ value;
                self.set_w(val);
                self.set_zero(val == 0);
            },
            Instruction::AddLw(Literal(value)) => {
                let (result, carry) = add_bytes(w, value);
                let digit_carry = self.check_digit_carry(w, value);
                self.set_w(result);
                self.set_zero(result == 0);
                self.set_carry(carry);
                self.set_digit_carry(digit_carry);
            },
            Instruction::SubLw(Literal(value)) => {
                let (result, carry, digit_carry) = sub_bytes(value, w);
                self.set_w(result);
                self.set_zero(result == 0);
                self.set_carry(carry);
                self.set_digit_carry(digit_carry);
            },
            _ => {
                self.set_w(0);
                self.set_zero(true);
            },
        }
    }

    /// Performs an instruction that moves or combines bytes without a carry.
    #[verifier::rlimit(40)]
    fn perform_logic(&mut self, instruction: Instruction)
        requires
            instruction is ClrF || instruction is MovWf || instruction is MovF
                || instruction is AndWf || instruction is IorWf || instruction is XorWf
                || instruction is ComF || instruction is SwapWf,
        ensures
            final(self)@ == old(self)@.perform(instruction),
    {
        proof {
            reveal(CpuView::perform);
        }
        let w = self.get_w();
        match instruction {
            Instruction::ClrF(FileRegister(destination)) => {
                self.set_fsr(destination, 0, true);
                self.set_zero(true);
            },
            Instruction::MovWf(FileRegister(destination)) => {
                self.set_fsr(destination, w, true);
            },
            Instruction::MovF(FileRegister(destination), DestinationFlag(dflag)) => {
                let val = self.get_fsr(destination);
                self.set_fsr(destination, val, dflag);
                self.set_zero(val == 0);
            },
            Instruction::AndWf(FileRegister(destination), DestinationFlag(dflag)) => {
                let val = w & self.get_fsr(destination);
                self.set_fsr(destination, val, dflag);
                self.set_zero(val == 0);
            },
            Instruction::IorWf(FileRegister(destination), DestinationFlag(dflag)) => {
                let val = w | self.get_fsr(destination);
                self.set_fsr(destination, val, dflag);
                self.set_zero(val == 0);
            },
            Instruction::XorWf(FileRegister(destination), DestinationFlag(dflag)) => {
                let val = w ^ self.get_fsr(destination);
                self.set_fsr(destination, val, dflag);
                self.set_zero(val == 0);
            },
            Instruction::ComF(FileRegister(destination), DestinationFlag(dflag)) => {
                let val = !self.get_fsr(destination);
                self.set_fsr(destination, val, dflag);
                self.set_zero(val == 0);
            },
            Instruction::SwapWf(FileRegister(destination), DestinationFlag(dflag)) => {
                let swapped = swap_nibbles(self.get_fsr(destination));
                self.set_fsr(destination, swapped, dflag);
            },
            _ => {},
        }
    }

    /// Performs an instruction that adds, subtracts, counts or rotates.
    #[verifier::rlimit(40)]
    fn perform_arithmetic(&mut self, instruction: Instruction)
        requires
            instruction is IncF || instruction is DecF || instruction is AddWf
                || instruction is SubWf || instruction is RlF || instruction is RrF
                || instruction is IncFsz || instruction is DecFsz,
        ensures
            final(self)@ == old(self)@.perform(instruction),
    {
        proof {
            reveal(CpuView::perform);
        }
        let w = self.get_w();
        match instruction {
            Instruction::IncF(FileRegister(destination), DestinationFlag(dflag)) => {
                let val = increment(self.get_fsr(destination));
                self.set_fsr(destination, val, dflag);
                self.set_zero(val == 0);
            },
            Instruction::DecF(FileRegister(destination), DestinationFlag(dflag)) => {
                let val = decrement(self.get_fsr(destination));
                self.set_fsr(destination, val, dflag);
                self.set_zero(val == 0);
            },
            Instruction::AddWf(FileRegister(destination), DestinationFlag(dflag)) => {
                let operand = self.get_fsr(destination);
                let (result, carry) = add_bytes(w, operand);
                let digit_carry = self.check_digit_carry(w, operand);
                self.set_fsr(destination, result, dflag);
                self.set_zero(result == 0);
                self.set_carry(carry);
                self.set_digit_carry(digit_carry);
            },
            Instruction::SubWf(FileRegister(destination), DestinationFlag(dflag)) => {
                let (result, carry, digit_carry) = sub_bytes(self.get_fsr(destination), w);
                self.set_fsr(destination, result, dflag);
                self.set_zero(result == 0);
                self.set_carry(carry);
                self.set_digit_carry(digit_carry);
            },
            Instruction::RlF(FileRegister(destination), DestinationFlag(dflag)) => {
                let (val, carry) = rotate_left(self.get_fsr(destination), self.get_carry());
                self.set_fsr(destination, val, dflag);
                self.set_carry(carry);
            },
            Instruction::RrF(FileRegister(destination), DestinationFlag(dflag)) => {
                let (val, carry) = rotate_right(self.get_fsr(destination), self.get_carry());
                self.set_fsr(destination, val, dflag);
                self.set_carry(carry);
            },
            Instruction::IncFsz(FileRegister(destination), DestinationFlag(dflag)) => {
                let val = increment(self.get_fsr(destination));
                self.set_fsr(destination, val, dflag);
                self.skip_if(val == 0);
            },
            Instruction::DecFsz(FileRegister(destination), DestinationFlag(dflag)) => {
                let val = decrement(self.get_fsr(destination));
                self.set_fsr(destination, val, dflag);
                self.skip_if(val == 0);
            },
            _ => {},
        }
    }

    /// Performs an instruction that writes or tests one bit.
    fn perform_bit(&mut self, instruction: Instruction)
        requires
            instruction is BcF || instruction is BsF || instruction is BtFsc
                || instruction is BtFss,
            instruction.operands_in_range(),
        ensures
            final(self)@ == old(self)@.perform(instruction),
    {
        proof {
            reveal(CpuView::perform);
        }
        match instruction {
            Instruction::BcF(FileRegister(destination), BitIndex(idx)) => {
                self.clear_fsr_bit(destination, idx);
            },
            Instruction::BsF(FileRegister(destination), BitIndex(idx)) => {
                self.set_fsr_bit(destination, idx);
            },
            Instruction::BtFsc(FileRegister(destination), BitIndex(idx)) => {
                let bit = self.get_fsr_bit(destination, idx);
                self.skip_if(!bit);
            },
            Instruction::BtFss(FileRegister(destination), BitIndex(idx)) => {
                let bit = self.get_fsr_bit(destination, idx);
                self.skip_if(bit);
            },
            _ => {},
        }
    }

    /// Performs a jump, a call or a return.
    fn perform_control(&mut self, instruction: Instruction) -> (status: ExecStatus)
        requires
            instruction is Goto || instruction is Call || instruction is Return
                || instruction is RetFie || instruction is RetLw,
        ensures
            final(self)@ == old(self)@.perform(instruction),
            status == old(self)@.status_of(instruction),
    {
        proof {
            reveal(CpuView::perform);
        }
        match instruction {
            Instruction::Goto(Address(idx)) => {
                let target = self.page_target(idx);
                self.jump_to(target);
                ExecStatus::Done
            },
            Instruction::Call(Address(idx)) => {
                let target = self.page_target(idx);
                let next = ((self.data_bus.get_pc() as u32 + 1) % 0x2000) as u16;
                let overflow = self.push(next);
                self.jump_to(target);
                if overflow {
                    ExecStatus::StackOverflow
                } else {
                    ExecStatus::Done
                }
            },
            Instruction::RetLw(Literal(value)) => {
                let underflow = self.data_bus.stack.len() == 0;
                self.set_w(value);
                self.return_from_call();
                if underflow {
                    ExecStatus::StackUnderflow
                } else {
                    ExecStatus::Done
                }
            },
            _ => {
                let underflow = self.data_bus.stack.len() == 0;
                self.return_from_call();
                if underflow {
                    ExecStatus::StackUnderflow
                } else {
                    ExecStatus::Done
                }
            },
        }
    }

    /// Executes one instruction: computes its result, stores it, writes the
    /// flags it affects and reports every change. The jump flag is cleared
    /// first and set where the instruction redirects the program counter.
    pub fn execute(&mut self, instruction: Instruction) -> (status: ExecStatus)
        requires
            instruction.operands_in_range(),
        ensures
            final(self)@ == old(self)@.execute(instruction),
            status == old(self)@.status_of(instruction),
    {
        proof {
            reveal(CpuView::perform);
        }
        self.jump_performed = false;
        match instruction {
            Instruction::Nop | Instruction::ClrWdt | Instruction::Sleep => ExecStatus::Done,
            Instruction::Unknown(_) => ExecStatus::UnknownInstruction,
            Instruction::MovLw(_)
            | Instruction::AndLw(_)
            | Instruction::IorLw(_)
            | Instruction::XorLw(_)
            | Instruction::AddLw(_)
            | Instruction::SubLw(_)
            | Instruction::ClrW => {
                self.perform_literal(instruction);
                ExecStatus::Done
            },
            Instruction::ClrF(_)
            | Instruction::MovWf(_)
            | Instruction::MovF(_, _)
            | Instruction::AndWf(_, _)
            | Instruction::IorWf(_, _)
            | Instruction::XorWf(_, _)
            | Instruction::ComF(_, _)
            | Instruction::SwapWf(_, _) => {
                self.perform_logic(instruction);
                ExecStatus::Done
            },
            Instruction::IncF(_, _)
            | Instruction::DecF(_, _)
            | Instruction::AddWf(_, _)
            | Instruction::SubWf(_, _)
            | Instruction::RlF(_, _)
            | Instruction::RrF(_, _)
            | Instruction::IncFsz(_, _)
            | Instruction::DecFsz(_, _) => {
                self.perform_arithmetic(instruction);
                ExecStatus::Done
            },
            Instruction::BcF(_, _)
            | Instruction::BsF(_, _)
            | Instruction::BtFsc(_, _)
            | Instruction::BtFss(_, _) => {
                self.perform_bit(instruction);
                ExecStatus::Done
            },
            Instruction::Goto(_)
            | Instruction::Call(_)
            | Instruction::Return
            | Instruction::RetFie
            | Instruction::RetLw(_) => self.perform_control(instruction),
        }
    }

    /// Executes the instruction at the program counter, counts its cycles
    /// and reports the source lines left and reached and the program
    /// counter. Where no instruction can be fetched, the error is returned
    /// and nothing changes.
    pub fn step(&mut self) -> (result: Result<ExecStatus, RomError>)
        ensures
            final(self)@ == old(self)@.step(),
            result == old(self)@.step_result(),
    {
        let old_pc = self.data_bus.get_pc();
        let instruction = match self.rom_bus.read_instruction(old_pc) {
            Ok(instruction) => instruction,
            Err(error) => {
                return Err(error);
            },
        };
        let status = self.execute(instruction);
        if self.jump_performed {
            self.cycles = self.cycles.saturating_add(2);
        } else {
            self.data_bus.inc_pc(1);
            self.cycles = self.cycles.saturating_add(1);
        }
        self.write_source_command("RESLINE", old_pc);
        let new_pc = self.data_bus.get_pc();
        self.write_source_command("SETLINE", new_pc);
        self.write_pc_commands();
        Ok(status)
    }

    /// Resets the core: releases the source line of the program counter,
    /// zeroes registers, stack and cycle counter and reports the whole
    /// state.
    pub fn reset(&mut self)
        ensures
            final(self)@ == old(self)@.reset(),
    {
        let pc = self.data_bus.get_pc();
        self.write_source_command("RESLINE", pc);
        self.cycles = 0;
        self.data_bus = DataBus::new();
        self.jump_performed = false;
        self.write_pc_commands();
        let sfr = self.data_bus.sfr_bank();
        self.write_command(make_register_line("WREG", sfr.w));
        self.write_command(make_register_line("STATUS", sfr.status));
        self.write_command(make_register_line("FSR", sfr.fsr));
        self.write_command(make_register_line("OPTION", sfr.option));
        self.write_command(make_register_line("TIMER0", sfr.tmr0));
        self.output_stack();
    }

    /// Loads a program: clears program memory, copies the image to address
    /// 0, resets the core, installs the listing and reports the source line
    /// of address 0. Returns whether the image was too long and was cut.
    pub fn load(&mut self, listing: ParseResult) -> (truncated: bool)
        ensures
            final(self)@ == old(self)@.load(listing@),
            truncated == (listing@.program.len() > ROM_SIZE),
    {
        self.rom_bus.clear();
        let ghost cleared = self.rom_bus@;
        let copied = self.rom_bus.load_program(&listing.program, 0);
        assert(cleared =~= Seq::new(ROM_SIZE as nat, |i: int| 0u8));
        let truncated = copied < listing.program.len();
        self.reset();
        self.program_info = listing;
        self.write_source_command("SETLINE", 0);
        truncated
    }

    /// Drives one pin of a port in bank 0 and reports the port.
    fn write_port(&mut self, port: u8, bit: usize, high: bool)
        requires
            bit < 8,
        ensures
            final(self)@ == old(self)@.write_port(port, bit, high),
    {
        let mut value = self.data_bus.memory[port as usize];
        set_bit_enabled(&mut value, bit, high);
        self.data_bus.memory[port as usize] = value;
        self.write_command(make_freg_line(port, value));
    }

    /// Handles one inbound line and returns the command it spells and, for
    /// a step command, what the step returned. A load command is carried out
    /// on the text of the listing that comes with the line; without it, and
    /// for a line that is no command or has arguments that cannot be read,
    /// nothing changes.
    pub fn handle(&mut self, inbound: &Inbound) -> (handled: (
        Command,
        Option<Result<ExecStatus, RomError>>,
    ))
        ensures
            handled.0 == command_of(inbound.line@),
            handled.1 == old(self)@.step_of(*inbound),
            final(self)@ == old(self)@.handle(*inbound),
    {
        let command = parse_command(inbound.line.as_str());
        let mut step = None;
        match command {
            Command::Load => {
                match &inbound.listing {
                    Some(text) => {
                        let listing = parse_lst_file(text.as_str());
                        self.load(listing);
                    },
                    None => {},
                }
            },
            Command::Step => {
                step = Some(self.step());
            },
            Command::Reset => {
                self.reset();
                self.write_source_command("SETLINE", 0);
            },
            Command::Start => {
                self.running = true;
            },
            Command::Stop => {
                self.running = false;
            },
            Command::Xtal(count, unit) => {
                match period_for(count, unit) {
                    Some(period) => {
                        self.frame_duration = period;
                    },
                    None => {},
                }
            },
            Command::PortA(bit, high) => {
                self.write_port(PORTA_ADDR, bit, high);
            },
            Command::PortB(bit, high) => {
                self.write_port(PORTB_ADDR, bit, high);
            },
            Command::Malformed | Command::Unknown => {},
        }
        (command, step)
    }

    /// One tick: handles the lines of `batch` in their order, makes one
    /// step where the core runs freely, and hands out the outbound commands
    /// that have gathered, oldest first, together with what each step of the
    /// tick returned.
    pub fn update(&mut self, batch: &Vec<Inbound>) -> (tick: Tick)
        ensures
            final(self)@ == old(self)@.update(batch@),
            lines_of(tick.lines@) == old(self)@.tick(batch@).out,
            tick.steps@ == old(self)@.tick_steps(batch@),
    {
        let mut steps: Vec<Result<ExecStatus, RomError>> = Vec::new();
        let mut i: usize = 0;
        while i < batch.len()
            invariant
                i <= batch@.len(),
                self@ == old(self)@.handle_first(batch@, i as nat),
                steps@ == old(self)@.steps_first(batch@, i as nat),
            decreases batch@.len() - i,
        {
            let (_, step) = self.handle(&batch[i]);
            match step {
                Some(result) => {
                    steps.push(result);
                },
                None => {},
            }
            i = i + 1;
        }
        if self.running {
            let result = self.step();
            steps.push(result);
        }
        let mut lines: Vec<String> = Vec::new();
        std::mem::swap(&mut self.commands, &mut lines);
        assert(lines_of(self.commands@) =~= Seq::empty());
        Tick { lines, steps }
    }

    /// How long to wait before the next tick, in nanoseconds, after
    /// `elapsed_ns` have passed since the last one.
    pub fn frame_delay(&self, elapsed_ns: u64) -> (delay: u64)
        ensures
            delay == remaining_delay(self@.frame_ns, elapsed_ns),
    {
        delay_for(self.frame_duration, elapsed_ns)
    }

    /// Whether the sum of two bytes carries out of the low nibble.
    pub fn check_digit_carry(&self, a: u8, b: u8) -> (carry: bool)
        ensures
            carry == crate::alu::add_digit_carries(a, b),
    {
        (a % 16) + (b % 16) > 15
    }
}

} // verus!
