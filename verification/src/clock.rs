//! The instruction clock: the period of an instruction cycle for a given
//! crystal, and the delay that keeps a tick at that period.

use vstd::prelude::*;
use crate::command::Unit;

verus! {

/// Nanoseconds per instruction cycle while no crystal is configured.
pub const DEFAULT_FRAME_NS: u64 = 100_000_000;

/// Nanoseconds in a second.
pub const NS_PER_SECOND: u64 = 1_000_000_000;

/// Nanoseconds per frame at `fps` frames per second: a second divided by
/// `fps`, rounded to the nearest nanosecond, a half rounded up.
pub open spec fn ns_per_frame(fps: int) -> int
    recommends
        fps > 0,
{
    (2 * NS_PER_SECOND + fps) / (2 * fps)
}

/// Instruction cycles per second for each unit of crystal frequency: the
/// core divides the crystal by four.
pub open spec fn cycles_per_unit(unit: Unit) -> int {
    match unit {
        Unit::KiloHertz => 250,
        Unit::MegaHertz => 250_000,
    }
}

/// The period of an instruction cycle, in nanoseconds, for a crystal of
/// `count` units; `None` where the frequency is zero or too large for the
/// machine.
pub open spec fn xtal_period(count: u64, unit: Unit) -> Option<u64> {
    let rate = count * cycles_per_unit(unit);
    if rate == 0 || rate > usize::MAX {
        None
    } else {
        Some(ns_per_frame(rate) as u64)
    }
}

/// How long to wait before the next tick, after `elapsed_ns` of the current
/// period have passed.
pub open spec fn remaining_delay(period_ns: u64, elapsed_ns: u64) -> u64 {
    if elapsed_ns < period_ns {
        (period_ns - elapsed_ns) as u64
    } else {
        0
    }
}

/// Calls `hertz::fps_to_ns_per_frame`, which divides the nanoseconds of a
/// second by `fps` in double precision and rounds the quotient to the
/// nearest integer, a half away from zero. The contract states the same
/// rounding of the exact quotient. The two agree for every `fps` above zero:
/// unless the exact quotient is an odd multiple of one half, it differs from
/// each of them by at least `1 / (2 * fps)`, far more than the error of the
/// division; and for an `fps` so large that its conversion to double
/// precision rounds, both are zero.
#[verifier::external_body]
fn frame_nanoseconds(fps: usize) -> (ns: u64)
    requires
        fps > 0,
    ensures
        ns == ns_per_frame(fps as int),
{
    hertz::fps_to_ns_per_frame(fps)
}

/// The period of an instruction cycle for a crystal of `count` units.
pub fn period_for(count: u64, unit: Unit) -> (period: Option<u64>)
    ensures
        period == xtal_period(count, unit),
{
    let per_unit: u64 = match unit {
        Unit::KiloHertz => 250,
        Unit::MegaHertz => 250_000,
    };
    match count.checked_mul(per_unit) {
        Some(rate) => {
            if rate == 0 || rate > usize::MAX as u64 {
                None
            } else {
                Some(frame_nanoseconds(rate as usize))
            }
        },
        None => None,
    }
}

/// How long to wait before the next tick.
pub fn delay_for(period_ns: u64, elapsed_ns: u64) -> (delay: u64)
    ensures
        delay == remaining_delay(period_ns, elapsed_ns),
{
    if elapsed_ns < period_ns {
        period_ns - elapsed_ns
    } else {
        0
    }
}

/// The period of a crystal never exceeds one second.
pub proof fn lemma_period_bound(count: u64, unit: Unit)
    ensures
        xtal_period(count, unit) matches Some(ns) ==> ns <= NS_PER_SECOND,
{
    let rate = count * cycles_per_unit(unit);
    if rate > 0 {
        assert((2 * NS_PER_SECOND + rate) / (2 * rate) <= NS_PER_SECOND) by (nonlinear_arith)
            requires
                rate >= 1,
        ;
    }
}

} // verus!
