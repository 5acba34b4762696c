use vstd::prelude::*;

use crate::error::{BringUpError, Stage};
use crate::ops::{Domain, GlitchSource, Op};

verus! {

/// Status bit of the crystal oscillator that reports a stable clock, and of
/// a PLL's control register that reports lock.
pub const STATUS_READY_BIT: u32 = 0x8000_0000;

/// Frequency-counter status bit: a measurement is done.
pub const FC_DONE_BIT: u32 = 0x0000_0010;

/// Frequency-counter status bit: a measurement is running.
pub const FC_RUNNING_BIT: u32 = 0x0000_0100;

/// The bit of a domain's "selected" register that reports input `src`:
/// bit 0 for the ring oscillator or reference clock, bit 1 for the auxiliary
/// multiplexer, bit 2 for the crystal.
pub open spec fn select_mask(domain: Domain, src: GlitchSource) -> u32 {
    match src {
        GlitchSource::RingOsc => 1,
        GlitchSource::Reference => 1,
        GlitchSource::Aux => 2,
        GlitchSource::Crystal => 4,
    }
}

pub fn select_bit(domain: Domain, src: GlitchSource) -> (r: u32)
    ensures
        r == select_mask(domain, src),
{
    match src {
        GlitchSource::RingOsc => 1,
        GlitchSource::Reference => 1,
        GlitchSource::Aux => 2,
        GlitchSource::Crystal => 4,
    }
}

/// Whether `status`, read from the register that `op` waits on, ends the
/// wait. Operations that do not wait are always satisfied.
pub open spec fn satisfied(op: Op, status: u32) -> bool {
    match op {
        Op::AwaitResetDone { mask } => !status & mask == 0,
        Op::AwaitXoscStable => status & STATUS_READY_BIT != 0,
        Op::AwaitPllLock { .. } => status & STATUS_READY_BIT != 0,
        Op::AwaitSelected { domain, src } => status & select_mask(domain, src) != 0,
        Op::AwaitCounterIdle => status & FC_RUNNING_BIT == 0,
        Op::AwaitCounterDone => status & FC_DONE_BIT != 0,
        _ => true,
    }
}

/// The stage a wait belongs to.
pub open spec fn stage_of(op: Op) -> Stage {
    match op {
        Op::AwaitResetDone { .. } => Stage::ResetRelease,
        Op::AwaitXoscStable => Stage::Oscillator,
        Op::AwaitPllLock { .. } => Stage::PllLock,
        Op::AwaitCounterIdle => Stage::FrequencyCounter,
        Op::AwaitCounterDone => Stage::FrequencyCounter,
        _ => Stage::ClockSelect,
    }
}

pub fn wait_satisfied(op: Op, status: u32) -> (r: bool)
    ensures
        r == satisfied(op, status),
{
    match op {
        Op::AwaitResetDone { mask } => !status & mask == 0,
        Op::AwaitXoscStable => status & STATUS_READY_BIT != 0,
        Op::AwaitPllLock { .. } => status & STATUS_READY_BIT != 0,
        Op::AwaitSelected { domain, src } => status & select_bit(domain, src) != 0,
        Op::AwaitCounterIdle => status & FC_RUNNING_BIT == 0,
        Op::AwaitCounterDone => status & FC_DONE_BIT != 0,
        _ => true,
    }
}

pub fn wait_stage(op: Op) -> (r: Stage)
    ensures
        r == stage_of(op),
{
    match op {
        Op::AwaitResetDone { .. } => Stage::ResetRelease,
        Op::AwaitXoscStable => Stage::Oscillator,
        Op::AwaitPllLock { .. } => Stage::PllLock,
        Op::AwaitCounterIdle => Stage::FrequencyCounter,
        Op::AwaitCounterDone => Stage::FrequencyCounter,
        _ => Stage::ClockSelect,
    }
}

/// What to do after reading `status` on attempt `attempt` (from 1) of at
/// most `limit`.
#[derive(Debug, Clone, Copy, PartialEq, Eq, Structural)]
pub enum PollStep {
    Done,
    Again,
    Fail(BringUpError),
}

/// One step of a bounded wait: done when the status satisfies `op`, failed
/// with the stage and the status once `limit` reads have not, else read again.
pub fn poll_step(op: Op, status: u32, attempt: u32, limit: u32) -> (r: PollStep)
    ensures
        satisfied(op, status) ==> r == PollStep::Done,
        !satisfied(op, status) && attempt >= limit ==> r == PollStep::Fail(
            BringUpError { stage: stage_of(op), status },
        ),
        !satisfied(op, status) && attempt < limit ==> r == PollStep::Again,
{
    if wait_satisfied(op, status) {
        PollStep::Done
    } else if attempt >= limit {
        PollStep::Fail(BringUpError { stage: wait_stage(op), status })
    } else {
        PollStep::Again
    }
}

} // verus!
