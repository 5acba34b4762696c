use vstd::prelude::*;

use crate::error::ConfigError;
use crate::freq::MHZ;

verus! {

pub const FBDIV_MIN: u32 = 16;
pub const FBDIV_MAX: u32 = 320;
pub const REFDIV_MAX: u32 = 63;
pub const POSTDIV_MAX: u32 = 7;
pub const VCO_MIN_HZ: u64 = 400_000_000;
pub const VCO_MAX_HZ: u64 = 1_600_000_000;

/// Dividers of one PLL, checked against the hardware's ranges.
#[derive(Debug, Clone, Copy, PartialEq, Eq, Structural)]
pub struct PllConfig {
    pub reference_divider: u32,
    pub feedback_divider: u32,
    pub post_divider_1: u32,
    pub post_divider_2: u32,
}

/// Reference frequency of the PLL in MHz.
pub open spec fn ref_mhz(osc_mhz: int, ref_div: int) -> int {
    osc_mhz / ref_div
}

/// The feedback divider that brings the reference up to `vco_hz`.
pub open spec fn feedback_of(osc_mhz: int, ref_div: int, vco_hz: int) -> int {
    vco_hz / (ref_mhz(osc_mhz, ref_div) * MHZ)
}

/// VCO frequency in Hz for a reference and a feedback divider.
pub open spec fn vco_hz_of(osc_mhz: int, ref_div: int, fbdiv: int) -> int {
    ref_mhz(osc_mhz, ref_div) * MHZ * fbdiv
}

/// PLL output in Hz after both post dividers.
pub open spec fn pll_output_hz(osc_mhz: int, cfg: PllConfig) -> int {
    vco_hz_of(osc_mhz, cfg.reference_divider as int, cfg.feedback_divider as int) / (
    cfg.post_divider_1 * cfg.post_divider_2)
}

pub open spec fn post_dividers_ok(pd1: int, pd2: int) -> bool {
    1 <= pd1 <= POSTDIV_MAX && 1 <= pd2 <= POSTDIV_MAX
}

/// A configuration the hardware accepts: every divider in range and the VCO
/// within its band.
pub open spec fn pll_config_ok(osc_mhz: int, cfg: PllConfig) -> bool {
    &&& 1 <= cfg.reference_divider <= REFDIV_MAX
    &&& ref_mhz(osc_mhz, cfg.reference_divider as int) > 0
    &&& FBDIV_MIN <= cfg.feedback_divider <= FBDIV_MAX
    &&& VCO_MIN_HZ <= vco_hz_of(osc_mhz, cfg.reference_divider as int, cfg.feedback_divider as int)
        <= VCO_MAX_HZ
    &&& post_dividers_ok(cfg.post_divider_1 as int, cfg.post_divider_2 as int)
}

/// The error, if any, for a PLL request; checks run in this order.
pub open spec fn pll_request_error(osc_mhz: int, ref_div: int, vco_hz: int, pd1: int, pd2: int)
    -> Option<ConfigError> {
    if !(1 <= ref_div <= REFDIV_MAX) {
        Some(ConfigError::ReferenceDividerOutOfRange)
    } else if ref_mhz(osc_mhz, ref_div) == 0 {
        Some(ConfigError::ReferenceTooSlow)
    } else if !(FBDIV_MIN <= feedback_of(osc_mhz, ref_div, vco_hz) <= FBDIV_MAX) {
        Some(
            ConfigError::FeedbackDividerOutOfRange {
                feedback_divider: feedback_of(osc_mhz, ref_div, vco_hz) as u32,
            },
        )
    } else if !(VCO_MIN_HZ <= vco_hz_of(osc_mhz, ref_div, feedback_of(osc_mhz, ref_div, vco_hz))
        <= VCO_MAX_HZ) {
        Some(
            ConfigError::VcoOutOfRange {
                vco_hz: vco_hz_of(osc_mhz, ref_div, feedback_of(osc_mhz, ref_div, vco_hz)) as u64,
            },
        )
    } else if !post_dividers_ok(pd1, pd2) {
        Some(ConfigError::PostDividerOutOfRange)
    } else {
        None
    }
}

/// Derives the dividers of a PLL fed by an `osc_freq_mhz` MHz oscillator that
/// should run its VCO at `vco_freq` Hz. Nothing is derived from a request
/// whose feedback divider, VCO frequency or other dividers are out of range.
pub fn pll_config(osc_freq_mhz: u32, ref_div: u32, vco_freq: u32, post_div1: u32, post_div2: u32)
    -> (r: Result<PllConfig, ConfigError>)
    ensures
        match pll_request_error(
            osc_freq_mhz as int,
            ref_div as int,
            vco_freq as int,
            post_div1 as int,
            post_div2 as int,
        ) {
            Some(e) => r == Err::<PllConfig, ConfigError>(e),
            None => r == Ok::<PllConfig, ConfigError>(
                PllConfig {
                    reference_divider: ref_div,
                    feedback_divider: feedback_of(
                        osc_freq_mhz as int,
                        ref_div as int,
                        vco_freq as int,
                    ) as u32,
                    post_divider_1: post_div1,
                    post_divider_2: post_div2,
                },
            ),
        },
        r is Ok ==> pll_config_ok(osc_freq_mhz as int, r->Ok_0),
{
    if ref_div < 1 || ref_div > REFDIV_MAX {
        return Err(ConfigError::ReferenceDividerOutOfRange);
    }
    let ref_mhz: u32 = osc_freq_mhz / ref_div;
    if ref_mhz == 0 {
        return Err(ConfigError::ReferenceTooSlow);
    }
    let ref_hz: u64 = (ref_mhz as u64) * (MHZ as u64);
    let fbdiv: u64 = (vco_freq as u64) / ref_hz;
    if fbdiv < FBDIV_MIN as u64 || fbdiv > FBDIV_MAX as u64 {
        return Err(ConfigError::FeedbackDividerOutOfRange { feedback_divider: fbdiv as u32 });
    }
    assert(ref_hz * fbdiv <= vco_freq) by (nonlinear_arith)
        requires
            ref_hz > 0,
            fbdiv == vco_freq as u64 / ref_hz,
    ;
    let vco: u64 = ref_hz * fbdiv;
    if vco < VCO_MIN_HZ || vco > VCO_MAX_HZ {
        return Err(ConfigError::VcoOutOfRange { vco_hz: vco });
    }
    if post_div1 < 1 || post_div1 > POSTDIV_MAX || post_div2 < 1 || post_div2 > POSTDIV_MAX {
        return Err(ConfigError::PostDividerOutOfRange);
    }
    Ok(
        PllConfig {
            reference_divider: ref_div,
            feedback_divider: fbdiv as u32,
            post_divider_1: post_div1,
            post_divider_2: post_div2,
        },
    )
}

} // verus!
