use vstd::prelude::*;
use vstd::arithmetic::div_mod::lemma_div_is_ordered;

use crate::error::ConfigError;

verus! {

pub const MHZ: u32 = 1_000_000;

/// 1.0 as a 24.8 fixed-point divisor.
pub const DIVISOR_ONE: u32 = 256;

/// Crystal start-up delay, in units of 256 oscillator cycles, for a crystal
/// of `freq_mhz` MHz: the smallest count that covers one millisecond.
pub open spec fn startup_delay_cycles(freq_mhz: int) -> int {
    (freq_mhz * 1000 + 255) / 256
}

/// The 24.8 fixed-point divisor that brings `src` down to `dst`.
pub open spec fn divisor_of(src: int, dst: int) -> int {
    (src * 256) / dst
}

/// Cycles of a `sys_hz` clock that span three cycles of a `target_hz` clock,
/// rounded up.
pub open spec fn settle_cycles_of(sys_hz: int, target_hz: int) -> int {
    (3 * sys_hz + target_hz - 1) / target_hz
}

/// The frequency a divider yields from `src` with 24.8 divisor `div`.
pub open spec fn divided_hz(src: int, div: int) -> int {
    (src * 256) / div
}

/// Start-up delay register value for a crystal of `freq_mhz` MHz.
pub fn osc_startup_delay(freq_mhz: u32) -> (r: u32)
    requires
        startup_delay_cycles(freq_mhz as int) <= u32::MAX,
    ensures
        r == startup_delay_cycles(freq_mhz as int),
{
    let d: u64 = ((freq_mhz as u64) * 1000 + 255) / 256;
    d as u32
}

/// What dividing `src` down to `dst` gives: the 24.8 divisor, or why there
/// is none.
pub open spec fn divider_result(src: int, dst: int) -> Result<u32, ConfigError> {
    if src == 0 || dst == 0 {
        Err(ConfigError::ZeroFrequency)
    } else if dst > src {
        Err(ConfigError::DestinationAboveSource)
    } else if divisor_of(src, dst) > u32::MAX {
        Err(ConfigError::DivisorOverflow)
    } else {
        Ok(divisor_of(src, dst) as u32)
    }
}

/// The 24.8 fixed-point divisor from `src_freq` down to `dst_freq`.
/// A destination above the source, a zero frequency and a divisor that does
/// not fit in 32 bits are rejected.
pub fn clock_divider(src_freq: u32, dst_freq: u32) -> (r: Result<u32, ConfigError>)
    ensures
        r == divider_result(src_freq as int, dst_freq as int),
{
    if src_freq == 0 || dst_freq == 0 {
        return Err(ConfigError::ZeroFrequency);
    }
    if dst_freq > src_freq {
        return Err(ConfigError::DestinationAboveSource);
    }
    let d: u64 = (src_freq as u64) * 256 / (dst_freq as u64);
    if d > u32::MAX as u64 {
        return Err(ConfigError::DivisorOverflow);
    }
    Ok(d as u32)
}

/// A divisor obtained for `dst <= src` is at least 1.0, and the clock it
/// yields is no faster than its source and no slower than `dst`.
pub proof fn lemma_divisor_bounds(src: int, dst: int)
    requires
        0 < dst <= src,
    ensures
        divisor_of(src, dst) >= DIVISOR_ONE,
        dst <= divided_hz(src, divisor_of(src, dst)) <= src,
{
    let d = divisor_of(src, dst);
    assert(d >= 256) by (nonlinear_arith)
        requires
            0 < dst <= src,
            d == (src * 256) / dst,
    ;
    assert((src * 256) / d <= src) by (nonlinear_arith)
        requires
            d >= 256,
            src > 0,
    ;
    assert(d * dst <= src * 256) by (nonlinear_arith)
        requires
            0 < dst,
            d == (src * 256) / dst,
    ;
    assert(dst <= (src * 256) / d) by (nonlinear_arith)
        requires
            d * dst <= src * 256,
            d > 0,
    ;
}

/// Number of system clock cycles to hold a clock disabled before switching
/// its source: three cycles of the `target_hz` clock, rounded up.
pub fn settle_cycles(sys_hz: u32, target_hz: u32) -> (r: u64)
    requires
        target_hz > 0,
    ensures
        r == settle_cycles_of(sys_hz as int, target_hz as int),
{
    (3 * (sys_hz as u64) + (target_hz as u64) - 1) / (target_hz as u64)
}

/// The start-up delay is the least count of 256-cycle units that covers
/// `freq_mhz * 1000` cycles, and it never decreases as the crystal gets faster.
pub proof fn lemma_startup_delay_ceiling(freq_mhz: int, faster_mhz: int)
    requires
        0 <= freq_mhz <= faster_mhz,
    ensures
        startup_delay_cycles(freq_mhz) * 256 >= freq_mhz * 1000,
        (startup_delay_cycles(freq_mhz) - 1) * 256 < freq_mhz * 1000,
        startup_delay_cycles(freq_mhz) <= startup_delay_cycles(faster_mhz),
{
    lemma_div_is_ordered(freq_mhz * 1000 + 255, faster_mhz * 1000 + 255, 256);
}

/// Dividing a clock by itself gives 1.0 and leaves it unchanged; halving a
/// clock of even frequency gives 2.0; a destination above the source is
/// rejected.
pub proof fn lemma_divisor_unit_and_half(src: int, dst: int)
    requires
        1 <= src <= u32::MAX,
    ensures
        divider_result(src, src) == Ok::<u32, ConfigError>(DIVISOR_ONE),
        divided_hz(src, DIVISOR_ONE as int) == src,
        src % 2 == 0 ==> divider_result(src, src / 2) == Ok::<u32, ConfigError>(512u32),
        dst > src ==> divider_result(src, dst) == Err::<u32, ConfigError>(
            ConfigError::DestinationAboveSource,
        ),
{
    assert((src * 256) / src == 256) by (nonlinear_arith)
        requires
            src >= 1,
    ;
    if src % 2 == 0 {
        assert((src * 256) / (src / 2) == 512) by (nonlinear_arith)
            requires
                src >= 2,
                src % 2 == 0,
        ;
    }
}

} // verus!
