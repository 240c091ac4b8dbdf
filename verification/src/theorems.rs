//! What holds of the model of the core in every state.

use vstd::prelude::*;
use crate::bits::{bit_is_set, lemma_other_bit, lemma_written_bit, with_bit};
use crate::alu::{
    add_carries, add_digit_carries, lemma_complement_twice, lemma_complement_zero,
    lemma_swap_twice, sub_carries, sub_digit_carries, swapped,
};
use crate::data_bus::{
    lemma_flat_index_in_range, BusView, C, DC, PCLATH_ADDR, PCL_ADDR, STATUS_ADDR, Z,
};
use crate::instruction::{DestinationFlag, FileRegister, Instruction};
use crate::model::CpuView;
use crate::rom_bus::fetch;

verus! {

/// Storing a result sets the jump flag exactly where it writes into PCL.
proof fn lemma_store_jump(s: CpuView, f: u8, value: u8, to_file: bool)
    ensures
        s.set_fsr(f, value, to_file).jump == (s.jump || (to_file && s.bus.writes_pcl(f))),
        s.write_register(f, value).jump == (s.jump || s.bus.writes_pcl(f)),
{
}

/// Executing an instruction leaves the jump flag set exactly where the
/// instruction redirects the program counter: a branch, a skip that is
/// taken, or a write into PCL.
#[verifier::rlimit(40)]
pub proof fn lemma_jump_flag(s: CpuView, instruction: Instruction)
    ensures
        s.execute(instruction).jump == s.redirects(instruction),
{
    reveal(CpuView::perform);
    let s0 = s.clear_jump();
    let r = s.result(instruction);
    assert(s0.bus == s.bus);
    assert(s0.result(instruction) == r);
    match instruction {
        Instruction::AddWf(f, d)
        | Instruction::SubWf(f, d)
        | Instruction::AndWf(f, d)
        | Instruction::IorWf(f, d)
        | Instruction::XorWf(f, d)
        | Instruction::ComF(f, d)
        | Instruction::IncF(f, d)
        | Instruction::DecF(f, d)
        | Instruction::MovF(f, d)
        | Instruction::RlF(f, d)
        | Instruction::RrF(f, d)
        | Instruction::SwapWf(f, d)
        | Instruction::IncFsz(f, d)
        | Instruction::DecFsz(f, d) => {
            lemma_store_jump(s0, f.0, r, d.0);
        },
        Instruction::ClrF(f)
        | Instruction::MovWf(f)
        | Instruction::BcF(f, _)
        | Instruction::BsF(f, _) => {
            lemma_store_jump(s0, f.0, r, true);
        },
        _ => {},
    }
}

/// Whether `after` has the cycle counter, program memory, listing, run mode
/// and clock of `before`, and is well formed where `before` is.
pub open spec fn keeps(before: CpuView, after: CpuView) -> bool {
    &&& after.cycles == before.cycles
    &&& after.rom == before.rom
    &&& after.listing == before.listing
    &&& after.running == before.running
    &&& after.frame_ns == before.frame_ns
    &&& before.wf() ==> after.wf()
}

/// Writes of W, of a flag and of a file register keep what `keeps` names.
proof fn lemma_keeps_writes(s: CpuView, f: u8, value: u8, to_file: bool, bit: usize, flag: bool)
    ensures
        keeps(s, s.set_w(value)),
        keeps(s, s.set_flag(bit, flag)),
        keeps(s, s.write_register(f, value)),
        keeps(s, s.set_fsr(f, value, to_file)),
{
    lemma_flat_index_in_range(s.bus.effective_address(f), s.bus.rp0());
}

/// Jumps, skips, calls and returns keep what `keeps` names.
proof fn lemma_keeps_control(s: CpuView, target: u16, taken: bool)
    ensures
        keeps(s, s.jump_to(target)),
        keeps(s, s.skip_if(taken)),
        keeps(s, s.push(s.return_address())),
        keeps(s, s.push(s.return_address()).jump_to(target)),
        keeps(s, s.return_from_call()),
{
}

/// The flags of an instruction keep what `keeps` names.
proof fn lemma_keeps_flags(s: CpuView, z: bool, c: bool, d: bool)
    ensures
        keeps(s, s.set_zero(z)),
        keeps(s, s.set_carry(c)),
        keeps(s, s.set_zero(z).set_carry(c).set_digit_carry(d)),
{
    lemma_keeps_writes(s, 0, 0, false, Z, z);
    lemma_keeps_writes(s, 0, 0, false, C, c);
    lemma_keeps_writes(s.set_zero(z), 0, 0, false, C, c);
    lemma_keeps_writes(s.set_zero(z).set_carry(c), 0, 0, false, DC, d);
}

/// Executing an instruction touches neither the cycle counter nor program
/// memory, listing, run mode or clock, and keeps the state well formed.
#[verifier::rlimit(40)]
pub proof fn lemma_execute_keeps(s: CpuView, instruction: Instruction)
    ensures
        keeps(s, s.execute(instruction)),
{
    reveal(CpuView::perform);
    let s0 = s.clear_jump();
    let r = s0.result(instruction);
    let w = s0.bus.w;
    match instruction {
        Instruction::MovLw(_) => {
            lemma_keeps_writes(s0, 0, r, false, 0, false);
        },
        Instruction::AndLw(_) | Instruction::IorLw(_) | Instruction::XorLw(_) => {
            lemma_keeps_writes(s0, 0, r, false, 0, false);
            lemma_keeps_flags(s0.set_w(r), r == 0, false, false);
        },
        Instruction::ClrW => {
            lemma_keeps_writes(s0, 0, 0, false, 0, false);
            lemma_keeps_flags(s0.set_w(0), true, false, false);
        },
        Instruction::AddLw(k) => {
            lemma_keeps_writes(s0, 0, r, false, 0, false);
            lemma_keeps_flags(s0.set_w(r), r == 0, add_carries(w, k.0), add_digit_carries(w, k.0));
        },
        Instruction::SubLw(k) => {
            lemma_keeps_writes(s0, 0, r, false, 0, false);
            lemma_keeps_flags(s0.set_w(r), r == 0, sub_carries(k.0, w), sub_digit_carries(k.0, w));
        },
        Instruction::ClrF(f) => {
            lemma_keeps_writes(s0, f.0, 0, true, 0, false);
            lemma_keeps_flags(s0.write_register(f.0, 0), true, false, false);
        },
        Instruction::MovWf(f) | Instruction::BcF(f, _) | Instruction::BsF(f, _) => {
            lemma_keeps_writes(s0, f.0, r, true, 0, false);
        },
        Instruction::MovF(f, d)
        | Instruction::AndWf(f, d)
        | Instruction::IorWf(f, d)
        | Instruction::XorWf(f, d)
        | Instruction::ComF(f, d)
        | Instruction::IncF(f, d)
        | Instruction::DecF(f, d) => {
            lemma_keeps_writes(s0, f.0, r, d.0, 0, false);
            lemma_keeps_flags(s0.set_fsr(f.0, r, d.0), r == 0, false, false);
        },
        Instruction::AddWf(f, d) => {
            let v = s0.bus.read(f.0);
            lemma_keeps_writes(s0, f.0, r, d.0, 0, false);
            lemma_keeps_flags(
                s0.set_fsr(f.0, r, d.0),
                r == 0,
                add_carries(w, v),
                add_digit_carries(w, v),
            );
        },
        Instruction::SubWf(f, d) => {
            let v = s0.bus.read(f.0);
            lemma_keeps_writes(s0, f.0, r, d.0, 0, false);
            lemma_keeps_flags(
                s0.set_fsr(f.0, r, d.0),
                r == 0,
                sub_carries(v, w),
                sub_digit_carries(v, w),
            );
        },
        Instruction::SwapWf(f, d) => {
            lemma_keeps_writes(s0, f.0, r, d.0, 0, false);
        },
        Instruction::RlF(f, d) => {
            lemma_keeps_writes(s0, f.0, r, d.0, 0, false);
            lemma_keeps_flags(s0.set_fsr(f.0, r, d.0), false, bit_is_set(s0.bus.read(f.0), 7), false);
        },
        Instruction::RrF(f, d) => {
            lemma_keeps_writes(s0, f.0, r, d.0, 0, false);
            lemma_keeps_flags(s0.set_fsr(f.0, r, d.0), false, bit_is_set(s0.bus.read(f.0), 0), false);
        },
        Instruction::IncFsz(f, d) | Instruction::DecFsz(f, d) => {
            lemma_keeps_writes(s0, f.0, r, d.0, 0, false);
            lemma_keeps_control(s0.set_fsr(f.0, r, d.0), 0, r == 0);
        },
        Instruction::BtFsc(f, b) => {
            lemma_keeps_control(s0, 0, !bit_is_set(s0.bus.read(f.0), b.0));
        },
        Instruction::BtFss(f, b) => {
            lemma_keeps_control(s0, 0, bit_is_set(s0.bus.read(f.0), b.0));
        },
        Instruction::Goto(a) => {
            lemma_keeps_control(s0, s0.page_target(a.0), false);
        },
        Instruction::Call(a) => {
            lemma_keeps_control(s0, s0.page_target(a.0), false);
        },
        Instruction::Return | Instruction::RetFie => {
            lemma_keeps_control(s0, 0, false);
        },
        Instruction::RetLw(_) => {
            lemma_keeps_writes(s0, 0, r, false, 0, false);
            lemma_keeps_control(s0.set_w(r), 0, false);
        },
        _ => {},
    }
}

/// A step costs two cycles where the instruction redirects the program
/// counter and one cycle where it does not, as long as the counter has room.
pub proof fn lemma_step_cycles(s: CpuView, instruction: Instruction)
    requires
        fetch(s.rom, s.bus.pc()) == Ok::<Instruction, crate::rom_bus::RomError>(instruction),
        s.cycles + 2 <= u64::MAX,
    ensures
        s.redirects(instruction) ==> s.step().cycles == s.cycles + 2,
        !s.redirects(instruction) ==> s.step().cycles == s.cycles + 1,
{
    lemma_jump_flag(s, instruction);
    lemma_execute_keeps(s, instruction);
}

/// The cycle counter never decreases in a step.
pub proof fn lemma_cycles_monotonic(s: CpuView)
    ensures
        s.step().cycles >= s.cycles,
{
    match fetch(s.rom, s.bus.pc()) {
        Ok(instruction) => {
            lemma_execute_keeps(s, instruction);
        },
        Err(_) => {},
    }
}

/// Whether `after` still holds every outbound command of `before`, each
/// in its place, and holds more of them unless W, the stack and every file
/// register but PCL and PCLATH are as in `before`.
#[verifier::opaque]
pub open spec fn reports(before: CpuView, after: CpuView) -> bool {
    &&& before.out.len() <= after.out.len()
    &&& forall|i: int| 0 <= i < before.out.len() ==> after.out[i] == before.out[i]
    &&& after.bus.file.len() == before.bus.file.len()
    &&& after.out.len() == before.out.len() ==> {
        &&& after.bus.w == before.bus.w
        &&& after.bus.stack == before.bus.stack
        &&& forall|i: int|
            0 <= i < before.bus.file.len() && i != PCL_ADDR && i != PCLATH_ADDR
                ==> after.bus.file[i] == before.bus.file[i]
    }
}

/// Writes of W, of a flag and of a file register are reported.
proof fn lemma_reports_writes(s: CpuView, f: u8, value: u8, to_file: bool, bit: usize, flag: bool)
    requires
        s.wf(),
    ensures
        reports(s, s.set_w(value)),
        reports(s, s.set_flag(bit, flag)),
        reports(s, s.write_register(f, value)),
        reports(s, s.set_fsr(f, value, to_file)),
        reports(s, s.clear_jump()),
        reports(s, s),
{
    reveal(reports);
    lemma_flat_index_in_range(s.bus.effective_address(f), s.bus.rp0());
}

/// Pushes and pops are reported; jumps and skips touch PCL and PCLATH only.
proof fn lemma_reports_control(s: CpuView, target: u16, taken: bool)
    requires
        s.wf(),
    ensures
        reports(s, s.jump_to(target)),
        reports(s, s.skip_if(taken)),
        reports(s, s.push(s.return_address()).jump_to(target)),
        reports(s, s.return_from_call()),
{
    reveal(reports);
}

/// What is reported stays reported.
proof fn lemma_reports_chain(a: CpuView, b: CpuView, c: CpuView)
    requires
        reports(a, b),
        reports(b, c),
    ensures
        reports(a, c),
{
    reveal(reports);
}

/// The flags of an instruction are reported.
proof fn lemma_reports_flags(s: CpuView, z: bool, c: bool, d: bool)
    requires
        s.wf(),
    ensures
        reports(s, s.set_zero(z)),
        reports(s, s.set_carry(c)),
        reports(s, s.set_zero(z).set_carry(c).set_digit_carry(d)),
{
    let s1 = s.set_zero(z);
    let s2 = s1.set_carry(c);
    let s3 = s2.set_digit_carry(d);
    lemma_reports_writes(s, 0, 0, false, Z, z);
    lemma_reports_writes(s, 0, 0, false, C, c);
    lemma_keeps_writes(s, 0, 0, false, Z, z);
    lemma_reports_writes(s1, 0, 0, false, C, c);
    lemma_keeps_writes(s1, 0, 0, false, C, c);
    lemma_reports_writes(s2, 0, 0, false, DC, d);
    lemma_reports_chain(s, s1, s2);
    lemma_reports_chain(s, s2, s3);
}

/// Executing an instruction loses no outbound command, and it adds at least
/// one unless it leaves W, the stack and every file register but PCL and
/// PCLATH as they were.
#[verifier::rlimit(40)]
pub proof fn lemma_execute_reports(s: CpuView, instruction: Instruction)
    requires
        s.wf(),
    ensures
        reports(s, s.execute(instruction)),
{
    reveal(CpuView::perform);
    let s0 = s.clear_jump();
    let r = s0.result(instruction);
    let w = s0.bus.w;
    lemma_reports_writes(s, 0, 0, false, 0, false);
    match instruction {
        Instruction::MovLw(_) => {
            lemma_reports_writes(s0, 0, r, false, 0, false);
        },
        Instruction::AndLw(_) | Instruction::IorLw(_) | Instruction::XorLw(_) => {
            lemma_reports_writes(s0, 0, r, false, 0, false);
            lemma_reports_flags(s0.set_w(r), r == 0, false, false);
            lemma_reports_chain(s0, s0.set_w(r), s0.execute(instruction));
        },
        Instruction::ClrW => {
            lemma_reports_writes(s0, 0, 0, false, 0, false);
            lemma_reports_flags(s0.set_w(0), true, false, false);
            lemma_reports_chain(s0, s0.set_w(0), s0.execute(instruction));
        },
        Instruction::AddLw(k) => {
            lemma_reports_writes(s0, 0, r, false, 0, false);
            lemma_reports_flags(
                s0.set_w(r),
                r == 0,
                add_carries(w, k.0),
                add_digit_carries(w, k.0),
            );
            lemma_reports_chain(s0, s0.set_w(r), s0.execute(instruction));
        },
        Instruction::SubLw(k) => {
            lemma_reports_writes(s0, 0, r, false, 0, false);
            lemma_reports_flags(
                s0.set_w(r),
                r == 0,
                sub_carries(k.0, w),
                sub_digit_carries(k.0, w),
            );
            lemma_reports_chain(s0, s0.set_w(r), s0.execute(instruction));
        },
        Instruction::ClrF(f) => {
            let s1 = s0.write_register(f.0, 0);
            lemma_reports_writes(s0, f.0, 0, true, 0, false);
            lemma_keeps_writes(s0, f.0, 0, true, 0, false);
            lemma_reports_flags(s1, true, false, false);
            lemma_reports_chain(s0, s1, s0.execute(instruction));
        },
        Instruction::MovWf(f) | Instruction::BcF(f, _) | Instruction::BsF(f, _) => {
            lemma_reports_writes(s0, f.0, r, true, 0, false);
        },
        Instruction::MovF(f, d)
        | Instruction::AndWf(f, d)
        | Instruction::IorWf(f, d)
        | Instruction::XorWf(f, d)
        | Instruction::ComF(f, d)
        | Instruction::IncF(f, d)
        | Instruction::DecF(f, d) => {
            let s1 = s0.set_fsr(f.0, r, d.0);
            lemma_reports_writes(s0, f.0, r, d.0, 0, false);
            lemma_keeps_writes(s0, f.0, r, d.0, 0, false);
            lemma_reports_flags(s1, r == 0, false, false);
            lemma_reports_chain(s0, s1, s0.execute(instruction));
        },
        Instruction::AddWf(f, d) => {
            let v = s0.bus.read(f.0);
            let s1 = s0.set_fsr(f.0, r, d.0);
            lemma_reports_writes(s0, f.0, r, d.0, 0, false);
            lemma_keeps_writes(s0, f.0, r, d.0, 0, false);
            lemma_reports_flags(s1, r == 0, add_carries(w, v), add_digit_carries(w, v));
            lemma_reports_chain(s0, s1, s0.execute(instruction));
        },
        Instruction::SubWf(f, d) => {
            let v = s0.bus.read(f.0);
            let s1 = s0.set_fsr(f.0, r, d.0);
            lemma_reports_writes(s0, f.0, r, d.0, 0, false);
            lemma_keeps_writes(s0, f.0, r, d.0, 0, false);
            lemma_reports_flags(s1, r == 0, sub_carries(v, w), sub_digit_carries(v, w));
            lemma_reports_chain(s0, s1, s0.execute(instruction));
        },
        Instruction::SwapWf(f, d) => {
            lemma_reports_writes(s0, f.0, r, d.0, 0, false);
        },
        Instruction::RlF(f, d) => {
            let s1 = s0.set_fsr(f.0, r, d.0);
            lemma_reports_writes(s0, f.0, r, d.0, 0, false);
            lemma_keeps_writes(s0, f.0, r, d.0, 0, false);
            lemma_reports_flags(s1, false, bit_is_set(s0.bus.read(f.0), 7), false);
            lemma_reports_chain(s0, s1, s0.execute(instruction));
        },
        Instruction::RrF(f, d) => {
            let s1 = s0.set_fsr(f.0, r, d.0);
            lemma_reports_writes(s0, f.0, r, d.0, 0, false);
            lemma_keeps_writes(s0, f.0, r, d.0, 0, false);
            lemma_reports_flags(s1, false, bit_is_set(s0.bus.read(f.0), 0), false);
            lemma_reports_chain(s0, s1, s0.execute(instruction));
        },
        Instruction::IncFsz(f, d) | Instruction::DecFsz(f, d) => {
            let s1 = s0.set_fsr(f.0, r, d.0);
            lemma_reports_writes(s0, f.0, r, d.0, 0, false);
            lemma_keeps_writes(s0, f.0, r, d.0, 0, false);
            lemma_reports_control(s1, 0, r == 0);
            lemma_reports_chain(s0, s1, s0.execute(instruction));
        },
        Instruction::BtFsc(f, b) => {
            lemma_reports_control(s0, 0, !bit_is_set(s0.bus.read(f.0), b.0));
        },
        Instruction::BtFss(f, b) => {
            lemma_reports_control(s0, 0, bit_is_set(s0.bus.read(f.0), b.0));
        },
        Instruction::Goto(a) => {
            lemma_reports_control(s0, s0.page_target(a.0), false);
        },
        Instruction::Call(a) => {
            lemma_reports_control(s0, s0.page_target(a.0), false);
        },
        Instruction::Return | Instruction::RetFie => {
            lemma_reports_control(s0, 0, false);
        },
        Instruction::RetLw(_) => {
            let s1 = s0.set_w(r);
            lemma_reports_writes(s0, 0, r, false, 0, false);
            lemma_reports_control(s1, 0, false);
            lemma_reports_chain(s0, s1, s0.execute(instruction));
        },
        _ => {
            lemma_reports_writes(s0, 0, 0, false, 0, false);
        },
    }
    lemma_reports_chain(s, s0, s.execute(instruction));
}

/// A step loses no outbound command, and a step that finds an instruction
/// adds at least the three commands that report the program counter.
pub proof fn lemma_step_reports(s: CpuView)
    requires
        s.wf(),
    ensures
        s.out.len() <= s.step().out.len(),
        forall|i: int| 0 <= i < s.out.len() ==> s.step().out[i] == s.out[i],
        fetch(s.rom, s.bus.pc()) is Ok ==> s.step().out.len() >= s.out.len() + 3,
{
    reveal(reports);
    match fetch(s.rom, s.bus.pc()) {
        Ok(instruction) => {
            lemma_execute_reports(s, instruction);
        },
        Err(_) => {},
    }
}

/// What writing the flags does to the zero flag.
proof fn lemma_flags_zero(s: CpuView, z: bool, c: bool, d: bool)
    requires
        s.wf(),
    ensures
        s.set_zero(z).zero() == z,
        s.set_zero(z).set_carry(c).set_digit_carry(d).zero() == z,
{
    let status = s.bus.status();
    lemma_written_bit(status, Z, z);
    lemma_other_bit(with_bit(status, Z, z), C, c, Z);
    lemma_other_bit(with_bit(with_bit(status, Z, z), C, c), DC, d, Z);
}

/// Storing a result keeps the state well formed.
proof fn lemma_store_wf(s: CpuView, f: u8, value: u8, to_file: bool)
    requires
        s.wf(),
    ensures
        s.set_fsr(f, value, to_file).wf(),
{
    lemma_flat_index_in_range(s.bus.effective_address(f), s.bus.rp0());
}

/// After an instruction that writes the zero flag, the flag is set exactly
/// where the result of the instruction is zero.
#[verifier::rlimit(40)]
pub proof fn lemma_zero_flag(s: CpuView, instruction: Instruction)
    requires
        s.wf(),
        CpuView::affects_zero(instruction),
    ensures
        s.execute(instruction).zero() == (s.result(instruction) == 0),
{
    reveal(CpuView::perform);
    let s0 = s.clear_jump();
    let r = s.result(instruction);
    assert(s0.bus == s.bus);
    assert(s0.result(instruction) == r);
    let w = s.bus.w;
    match instruction {
        Instruction::AddLw(k) => {
            lemma_flags_zero(s0.set_w(r), r == 0, add_carries(w, k.0), add_digit_carries(w, k.0));
        },
        Instruction::SubLw(k) => {
            lemma_flags_zero(s0.set_w(r), r == 0, sub_carries(k.0, w), sub_digit_carries(k.0, w));
        },
        Instruction::AndLw(_) | Instruction::IorLw(_) | Instruction::XorLw(_) => {
            lemma_flags_zero(s0.set_w(r), r == 0, false, false);
        },
        Instruction::ClrW => {
            lemma_flags_zero(s0.set_w(0), true, false, false);
        },
        Instruction::ClrF(f) => {
            lemma_store_wf(s0, f.0, 0, true);
            lemma_flags_zero(s0.set_fsr(f.0, 0, true), true, false, false);
        },
        Instruction::AddWf(f, d) => {
            let v = s0.bus.read(f.0);
            lemma_store_wf(s0, f.0, r, d.0);
            lemma_flags_zero(
                s0.set_fsr(f.0, r, d.0),
                r == 0,
                add_carries(w, v),
                add_digit_carries(w, v),
            );
        },
        Instruction::SubWf(f, d) => {
            let v = s0.bus.read(f.0);
            lemma_store_wf(s0, f.0, r, d.0);
            lemma_flags_zero(
                s0.set_fsr(f.0, r, d.0),
                r == 0,
                sub_carries(v, w),
                sub_digit_carries(v, w),
            );
        },
        Instruction::MovF(f, d)
        | Instruction::AndWf(f, d)
        | Instruction::IorWf(f, d)
        | Instruction::XorWf(f, d)
        | Instruction::ComF(f, d)
        | Instruction::IncF(f, d)
        | Instruction::DecF(f, d) => {
            lemma_store_wf(s0, f.0, r, d.0);
            lemma_flags_zero(s0.set_fsr(f.0, r, d.0), r == 0, false, false);
        },
        _ => {},
    }
}

/// SWAPF computes its operand with the nibbles exchanged, so a second SWAPF
/// on the result of the first computes the operand again.
pub proof fn lemma_swapf_twice(s: CpuView, f: u8, d: bool)
    ensures
        s.result(Instruction::SwapWf(FileRegister(f), DestinationFlag(d))) == swapped(
            s.bus.read(f),
        ),
        swapped(s.result(Instruction::SwapWf(FileRegister(f), DestinationFlag(d))))
            == s.bus.read(f),
{
    lemma_swap_twice(s.bus.read(f));
}

/// COMF computes the complement of its operand, so a second COMF on the
/// result of the first computes the operand again; after each of them the
/// zero flag says whether the complement that was just computed is zero.
pub proof fn lemma_comf_twice(s: CpuView, f: u8, d: bool)
    requires
        s.wf(),
    ensures
        s.result(Instruction::ComF(FileRegister(f), DestinationFlag(d))) == !s.bus.read(f),
        !s.result(Instruction::ComF(FileRegister(f), DestinationFlag(d))) == s.bus.read(f),
        s.execute(Instruction::ComF(FileRegister(f), DestinationFlag(d))).zero() == (s.bus.read(f)
            == 0xFF),
{
    let instruction = Instruction::ComF(FileRegister(f), DestinationFlag(d));
    lemma_complement_twice(s.bus.read(f));
    lemma_complement_zero(s.bus.read(f));
    lemma_zero_flag(s, instruction);
}

/// The file registers after the flags of `instruction` were written over
/// `file`.
spec fn file_after_flags(s: CpuView, instruction: Instruction, file: Seq<u8>) -> Seq<u8> {
    file.update(STATUS_ADDR as int, s.flags_written(instruction, file[STATUS_ADDR as int]))
}

/// What writing the flags does to the file registers.
proof fn lemma_flags_file(s: CpuView, z: bool, c: bool, d: bool)
    requires
        s.wf(),
    ensures
        s.set_zero(z).bus.file == s.bus.file.update(
            STATUS_ADDR as int,
            with_bit(s.bus.status(), Z, z),
        ),
        s.set_carry(c).bus.file == s.bus.file.update(
            STATUS_ADDR as int,
            with_bit(s.bus.status(), C, c),
        ),
        s.set_zero(z).set_carry(c).set_digit_carry(d).bus.file == s.bus.file.update(
            STATUS_ADDR as int,
            with_bit(with_bit(with_bit(s.bus.status(), Z, z), C, c), DC, d),
        ),
        s.set_zero(z).bus.w == s.bus.w,
        s.set_carry(c).bus.w == s.bus.w,
        s.set_zero(z).set_carry(c).set_digit_carry(d).bus.w == s.bus.w,
{
}

/// The bus after an instruction with a destination flag stored its result.
spec fn stored_bus(s: CpuView, instruction: Instruction, f: u8, d: bool) -> BusView {
    s.clear_jump().set_fsr(f, s.result(instruction), d).bus
}

/// The bus after an instruction with a destination flag stored its result
/// and wrote its flags.
spec fn flagged_bus(s: CpuView, instruction: Instruction, f: u8, d: bool) -> BusView {
    let stored = stored_bus(s, instruction, f, d);
    BusView { file: file_after_flags(s, instruction, stored.file), ..stored }
}

/// What an instruction with a destination flag leaves in W and in the file
/// registers: the stored result, then the flags, then the skip.
#[verifier::rlimit(40)]
proof fn lemma_destination_shape(s: CpuView, instruction: Instruction, f: u8, d: bool)
    requires
        s.wf(),
        CpuView::destination(instruction) == Some((f, d)),
    ensures
        s.execute(instruction).bus.w == stored_bus(s, instruction, f, d).w,
        s.skip_taken(instruction) ==> s.execute(instruction).bus.file == flagged_bus(
            s,
            instruction,
            f,
            d,
        ).inc_pc(2).file,
        !s.skip_taken(instruction) ==> s.execute(instruction).bus.file == flagged_bus(
            s,
            instruction,
            f,
            d,
        ).file,
{
    reveal(CpuView::perform);
    let s0 = s.clear_jump();
    let r = s.result(instruction);
    assert(s0.bus == s.bus);
    assert(s0.result(instruction) == r);
    let w = s.bus.w;
    let s1 = s0.set_fsr(f, r, d);
    lemma_store_wf(s0, f, r, d);
    match instruction {
        Instruction::AddWf(_, _) => {
            let v = s.bus.read(f);
            lemma_flags_file(s1, r == 0, add_carries(w, v), add_digit_carries(w, v));
        },
        Instruction::SubWf(_, _) => {
            let v = s.bus.read(f);
            lemma_flags_file(s1, r == 0, sub_carries(v, w), sub_digit_carries(v, w));
        },
        Instruction::MovF(_, _)
        | Instruction::AndWf(_, _)
        | Instruction::IorWf(_, _)
        | Instruction::XorWf(_, _)
        | Instruction::ComF(_, _)
        | Instruction::IncF(_, _)
        | Instruction::DecF(_, _) => {
            lemma_flags_file(s1, r == 0, false, false);
        },
        Instruction::RlF(_, _) => {
            lemma_flags_file(s1, false, bit_is_set(s.bus.read(f), 7), false);
        },
        Instruction::RrF(_, _) => {
            lemma_flags_file(s1, false, bit_is_set(s.bus.read(f), 0), false);
        },
        Instruction::IncFsz(_, _) | Instruction::DecFsz(_, _) => {
            assert(file_after_flags(s, instruction, s1.bus.file) =~= s1.bus.file);
        },
        _ => {},
    }
}

/// The flags of an instruction are bits 0 to 2 of STATUS: writing them
/// leaves every other bit as it was.
pub proof fn lemma_flags_keep_other_bits(
    s: CpuView,
    instruction: Instruction,
    status: u8,
    bit: usize,
)
    requires
        3 <= bit < 8,
    ensures
        bit_is_set(s.flags_written(instruction, status), bit) == bit_is_set(status, bit),
{
    let z = s.result(instruction) == 0;
    assert forall|c: bool, d: bool|
        bit_is_set(#[trigger] with_bit(with_bit(with_bit(status, Z, z), C, c), DC, d), bit)
            == bit_is_set(status, bit) by {
        lemma_other_bit(status, Z, z, bit);
        lemma_other_bit(with_bit(status, Z, z), C, c, bit);
        lemma_other_bit(with_bit(with_bit(status, Z, z), C, c), DC, d, bit);
    }
    assert forall|c: bool| bit_is_set(#[trigger] with_bit(status, C, c), bit) == bit_is_set(
        status,
        bit,
    ) by {
        lemma_other_bit(status, C, c, bit);
    }
    lemma_other_bit(status, Z, z, bit);
}

/// STATUS after the result of `instruction` was stored and before its flags
/// are written: the result where it goes into STATUS, else STATUS as it was.
pub open spec fn status_stored(s: CpuView, instruction: Instruction) -> u8 {
    match CpuView::written_register(instruction) {
        Some(f) => if s.bus.resolve(f) == Some(STATUS_ADDR as int) {
            s.result(instruction)
        } else {
            s.bus.status()
        },
        None => s.bus.status(),
    }
}

/// STATUS after an instruction is what the store of its result left there,
/// with the flags of the instruction written over it.
#[verifier::rlimit(40)]
pub proof fn lemma_status_after(s: CpuView, instruction: Instruction)
    requires
        s.wf(),
    ensures
        s.execute(instruction).bus.status() == s.flags_written(
            instruction,
            status_stored(s, instruction),
        ),
{
    reveal(CpuView::perform);
    let s0 = s.clear_jump();
    let r = s.result(instruction);
    let w = s.bus.w;
    assert(s0.bus == s.bus);
    assert(s0.result(instruction) == r);
    match instruction {
        Instruction::AddWf(f, d)
        | Instruction::SubWf(f, d)
        | Instruction::AndWf(f, d)
        | Instruction::IorWf(f, d)
        | Instruction::XorWf(f, d)
        | Instruction::ComF(f, d)
        | Instruction::IncF(f, d)
        | Instruction::DecF(f, d)
        | Instruction::MovF(f, d)
        | Instruction::RlF(f, d)
        | Instruction::RrF(f, d)
        | Instruction::SwapWf(f, d)
        | Instruction::IncFsz(f, d)
        | Instruction::DecFsz(f, d) => {
            lemma_destination_shape(s, instruction, f.0, d.0);
            lemma_store_wf(s0, f.0, r, d.0);
            lemma_flat_index_in_range(s.bus.effective_address(f.0), s.bus.rp0());
            let stored = stored_bus(s, instruction, f.0, d.0);
            assert(stored.file[STATUS_ADDR as int] == status_stored(s, instruction));
        },
        Instruction::AndLw(_) | Instruction::IorLw(_) | Instruction::XorLw(_) => {
            lemma_flags_file(s0.set_w(r), r == 0, false, false);
        },
        Instruction::ClrW => {
            lemma_flags_file(s0.set_w(0), true, false, false);
        },
        Instruction::AddLw(k) => {
            lemma_flags_file(s0.set_w(r), r == 0, add_carries(w, k.0), add_digit_carries(w, k.0));
        },
        Instruction::SubLw(k) => {
            lemma_flags_file(s0.set_w(r), r == 0, sub_carries(k.0, w), sub_digit_carries(k.0, w));
        },
        Instruction::ClrF(f) => {
            lemma_store_wf(s0, f.0, 0, true);
            lemma_flat_index_in_range(s.bus.effective_address(f.0), s.bus.rp0());
            lemma_flags_file(s0.write_register(f.0, 0), true, false, false);
        },
        Instruction::MovWf(f) | Instruction::BcF(f, _) | Instruction::BsF(f, _) => {
            lemma_flat_index_in_range(s.bus.effective_address(f.0), s.bus.rp0());
        },
        _ => {},
    }
}

/// An instruction whose store leaves STATUS as it was leaves bits 3 to 7 of
/// STATUS as they were: the flags are all that it then writes there.
pub proof fn lemma_status_upper_bits(s: CpuView, instruction: Instruction, bit: usize)
    requires
        s.wf(),
        3 <= bit < 8,
        status_stored(s, instruction) == s.bus.status(),
    ensures
        bit_is_set(s.execute(instruction).bus.status(), bit) == bit_is_set(s.bus.status(), bit),
{
    lemma_status_after(s, instruction);
    lemma_flags_keep_other_bits(s, instruction, s.bus.status(), bit);
}

/// With the destination flag clear, W receives the result and the file
/// register that the operand reaches stays as it is. Left out are the states
/// in which the instruction changes that register on another way: STATUS
/// through the flags it writes, PCL or PCLATH through a skip that is taken.
pub proof fn lemma_destination_w(s: CpuView, instruction: Instruction, f: u8, index: int)
    requires
        s.wf(),
        CpuView::destination(instruction) == Some((f, false)),
        s.bus.resolve(f) == Some(index),
        index == STATUS_ADDR ==> s.flags_written(instruction, s.bus.status()) == s.bus.status(),
        s.skip_taken(instruction) ==> s.bus.inc_pc(2).file[index] == s.bus.file[index],
    ensures
        s.execute(instruction).bus.w == s.result(instruction),
        s.execute(instruction).bus.file[index] == s.bus.file[index],
{
    lemma_destination_shape(s, instruction, f, false);
    lemma_flat_index_in_range(s.bus.effective_address(f), s.bus.rp0());
    let stored = stored_bus(s, instruction, f, false);
    assert(stored.file == s.bus.file);
    if s.skip_taken(instruction) {
        assert(file_after_flags(s, instruction, stored.file) =~= stored.file);
        assert(flagged_bus(s, instruction, f, false).inc_pc(2).file == s.bus.inc_pc(2).file);
    }
}

/// With the destination flag set, W stays as it is and the file register
/// that the operand reaches receives the result. Left out are the states in
/// which the instruction changes that register once more: STATUS through
/// the flags it writes, PCL or PCLATH through a skip that is taken.
pub proof fn lemma_destination_f(s: CpuView, instruction: Instruction, f: u8, index: int)
    requires
        s.wf(),
        CpuView::destination(instruction) == Some((f, true)),
        s.bus.resolve(f) == Some(index),
        index == STATUS_ADDR ==> s.flags_written(instruction, s.result(instruction)) == s.result(
            instruction,
        ),
        s.skip_taken(instruction) ==> s.bus.write(f, s.result(instruction)).inc_pc(2).file[index]
            == s.result(instruction),
    ensures
        s.execute(instruction).bus.w == s.bus.w,
        s.execute(instruction).bus.file[index] == s.result(instruction),
{
    lemma_destination_shape(s, instruction, f, true);
    lemma_flat_index_in_range(s.bus.effective_address(f), s.bus.rp0());
    let stored = stored_bus(s, instruction, f, true);
    assert(stored == s.bus.write(f, s.result(instruction)));
    assert(stored.file[index] == s.result(instruction));
    if s.skip_taken(instruction) {
        assert(file_after_flags(s, instruction, stored.file) =~= stored.file);
        assert(flagged_bus(s, instruction, f, true) == stored);
    }
}

} // verus!
