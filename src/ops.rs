use vstd::prelude::*;

verus! {

/// One of the two PLLs.
#[derive(Debug, Clone, Copy, PartialEq, Eq, Structural)]
pub enum PllId {
    Sys,
    Usb,
}

/// A clock domain with its own source selection.
#[derive(Debug, Clone, Copy, PartialEq, Eq, Structural)]
pub enum Domain {
    Ref,
    Sys,
    Usb,
    Adc,
    Rtc,
    Peri,
}

/// Inputs of a domain's glitchless multiplexer.
#[derive(Debug, Clone, Copy, PartialEq, Eq, Structural)]
pub enum GlitchSource {
    RingOsc,
    Crystal,
    Reference,
    Aux,
}

/// Inputs of a domain's auxiliary multiplexer.
#[derive(Debug, Clone, Copy, PartialEq, Eq, Structural)]
pub enum AuxSource {
    PllSys,
    PllUsb,
    ClkSys,
}

/// Clocks the frequency counter can measure.
#[derive(Debug, Clone, Copy, PartialEq, Eq, Structural)]
pub enum FcSource {
    PllSys,
    PllUsb,
    Ref,
    Sys,
    Peri,
    Usb,
    Adc,
    Rtc,
}

/// One step of the bring-up sequence: a register write, or a wait on a
/// status bit.
#[derive(Debug, Clone, Copy, PartialEq, Eq, Structural)]
pub enum Op {
    /// Write the reset register: the set bits are the blocks held in reset.
    WriteReset { mask: u32 },
    /// Wait until every block in `mask` reports reset done.
    AwaitResetDone { mask: u32 },
    /// Start the watchdog's tick generator, one tick per `cycles` reference
    /// clock cycles (the timer counts these ticks).
    WatchdogTick { cycles: u32 },
    /// Switch off the system clock's resuscitation circuit.
    DisableResus,
    /// Clear a stale bad-write flag of the crystal oscillator.
    XoscClearBadWrite,
    /// Enable the crystal oscillator in its 1-15 MHz range.
    XoscEnable,
    /// Write the crystal start-up delay.
    XoscStartupDelay { delay: u32 },
    /// Wait for the crystal's stable flag.
    AwaitXoscStable,
    /// Power down every part of a PLL.
    PllPowerDown { pll: PllId },
    /// Write a PLL's reference divider.
    PllRefDiv { pll: PllId, div: u32 },
    /// Write a PLL's feedback divider.
    PllFbDiv { pll: PllId, div: u32 },
    /// Power up a PLL's core and VCO.
    PllPowerUpVco { pll: PllId },
    /// Wait for a PLL's lock flag.
    AwaitPllLock { pll: PllId },
    /// Write a PLL's two post dividers.
    PllPostDiv { pll: PllId, post_div1: u32, post_div2: u32 },
    /// Power up a PLL's post dividers.
    PllPowerUpPost { pll: PllId },
    /// Write a domain's 24.8 divisor.
    WriteDivisor { domain: Domain, div: u32 },
    /// Select the auxiliary input of a domain.
    SelectAux { domain: Domain, aux: AuxSource },
    /// Switch a domain's glitchless multiplexer.
    SelectSource { domain: Domain, src: GlitchSource },
    /// Wait until the glitchless multiplexer reports `src` selected.
    AwaitSelected { domain: Domain, src: GlitchSource },
    /// Gate a domain's clock on or off.
    SetEnable { domain: Domain, on: bool },
    /// Let `cycles` system clock cycles pass.
    Settle { cycles: u64 },
    /// Wait until the frequency counter has no measurement running.
    AwaitCounterIdle,
    /// Program the counter's reference frequency, interval and bounds.
    CounterSetup { reference_khz: u32, interval: u32, min_khz: u32, max_khz: u32 },
    /// Select the clock to measure, which starts the measurement.
    CounterStart { source: FcSource },
    /// Wait for the counter's done flag.
    AwaitCounterDone,
}

pub open spec fn is_divisor_write(op: Op) -> bool {
    op is WriteDivisor
}

pub open spec fn has_no_divisor_write(s: Seq<Op>) -> bool {
    forall|i: int| 0 <= i < s.len() ==> !is_divisor_write(#[trigger] s[i])
}

/// Appends `more` to `ops`.
pub fn append_ops(ops: &mut Vec<Op>, more: &Vec<Op>)
    ensures
        final(ops)@ == old(ops)@ + more@,
{
    let mut i: usize = 0;
    while i < more.len()
        invariant
            i <= more@.len(),
            ops@ == old(ops)@ + more@.subrange(0, i as int),
        decreases more@.len() - i,
    {
        ops.push(more[i]);
        i += 1;
        assert(more@.subrange(0, i as int) =~= more@.subrange(0, i - 1) + seq![more@[i - 1]]);
    }
    assert(more@.subrange(0, more@.len() as int) =~= more@);
}

} // verus!
