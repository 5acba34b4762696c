use vstd::prelude::*;

verus! {

/// A request that cannot be turned into a clock configuration. It is
/// reported before any register is written.
#[derive(Debug, Clone, Copy, PartialEq, Eq, Structural)]
pub enum ConfigError {
    /// A source or destination frequency of zero.
    ZeroFrequency,
    /// The destination frequency is above the source frequency, so the
    /// divisor would be below 1.0.
    DestinationAboveSource,
    /// The 24.8 divisor does not fit in 32 bits.
    DivisorOverflow,
    /// The reference divider is outside 1..=63.
    ReferenceDividerOutOfRange,
    /// The PLL reference frequency (oscillator / reference divider) is zero.
    ReferenceTooSlow,
    /// The feedback divider is outside 16..=320.
    FeedbackDividerOutOfRange { feedback_divider: u32 },
    /// The VCO frequency is outside the supported band.
    VcoOutOfRange { vco_hz: u64 },
    /// A post divider is outside 1..=7.
    PostDividerOutOfRange,
}

/// The bring-up stage during which a wait did not resolve.
#[derive(Debug, Clone, Copy, PartialEq, Eq, Structural)]
pub enum Stage {
    ResetRelease,
    Oscillator,
    PllLock,
    ClockSelect,
    FrequencyCounter,
}

/// A wait on a hardware status bit that did not resolve within its bound.
/// `status` is the last value read from the status register.
#[derive(Debug, Clone, Copy, PartialEq, Eq, Structural)]
pub struct BringUpError {
    pub stage: Stage,
    pub status: u32,
}

} // verus!
