use pico_clocks::error::ConfigError;
use pico_clocks::freq::{clock_divider, osc_startup_delay, settle_cycles};
use pico_clocks::pll::{pll_config, PllConfig};
use pico_clocks::regs::R;

#[test]
fn startup_delay_rounds_up() {
    // 12 MHz: 12000 / 256 = 46.875
    assert_eq!(osc_startup_delay(12), 47);
    // 1 MHz: 1000 / 256 = 3.9
    assert_eq!(osc_startup_delay(1), 4);
    // 128 MHz: 128000 / 256 = 500 exactly
    assert_eq!(osc_startup_delay(128), 500);
    assert_eq!(osc_startup_delay(0), 0);
}

#[test]
fn startup_delay_is_monotonic() {
    let mut prev = osc_startup_delay(0);
    for f in 1..=200u32 {
        let d = osc_startup_delay(f);
        assert!(d >= prev);
        assert!(d as u64 * 256 >= f as u64 * 1000);
        assert!((d as u64 - 1) * 256 < f as u64 * 1000);
        prev = d;
    }
}

#[test]
fn divider_unit_and_half() {
    assert_eq!(clock_divider(125_000_000, 125_000_000), Ok(256));
    assert_eq!(clock_divider(48_000_000, 24_000_000), Ok(512));
    assert_eq!(clock_divider(7, 7), Ok(256));
}

#[test]
fn divider_rejects_destination_above_source() {
    assert_eq!(
        clock_divider(12_000_000, 12_000_001),
        Err(ConfigError::DestinationAboveSource)
    );
}

#[test]
fn divider_rejects_zero_and_overflow() {
    assert_eq!(clock_divider(12_000_000, 0), Err(ConfigError::ZeroFrequency));
    assert_eq!(clock_divider(0, 0), Err(ConfigError::ZeroFrequency));
    assert_eq!(clock_divider(u32::MAX, 1), Err(ConfigError::DivisorOverflow));
    // 2^24 / 1 * 256 = 2^32 does not fit; 2^24 - 1 does.
    assert_eq!(clock_divider(1 << 24, 1), Err(ConfigError::DivisorOverflow));
    assert_eq!(clock_divider((1 << 24) - 1, 1), Ok(((1u32 << 24) - 1) << 8));
}

#[test]
fn rtc_divisor_exact() {
    let expected = ((48_000_000u64 << 8) / 46875) as u32;
    assert_eq!(expected, 262_144);
    assert_eq!(clock_divider(48_000_000, 46875), Ok(expected));
}

#[test]
fn fractional_divisor() {
    // 125 MHz to 48 MHz: 2.604 in 24.8 is 666
    assert_eq!(clock_divider(125_000_000, 48_000_000), Ok(666));
}

#[test]
fn settle_cycles_cover_three_target_cycles() {
    // 3 * 125 / 48 = 7.8
    assert_eq!(settle_cycles(125_000_000, 48_000_000), 8);
    assert_eq!(settle_cycles(125_000_000, 125_000_000), 3);
    assert_eq!(settle_cycles(125_000_000, 46875), 8000);
}

#[test]
fn pll_system_config() {
    let c = pll_config(12, 1, 1_500_000_000, 6, 2).unwrap();
    assert_eq!(
        c,
        PllConfig {
            reference_divider: 1,
            feedback_divider: 125,
            post_divider_1: 6,
            post_divider_2: 2
        }
    );
    let u = pll_config(12, 1, 480_000_000, 5, 2).unwrap();
    assert_eq!(u.feedback_divider, 40);
}

#[test]
fn pll_feedback_too_small_fails() {
    assert_eq!(
        pll_config(12, 1, 100_000_000, 6, 2),
        Err(ConfigError::FeedbackDividerOutOfRange { feedback_divider: 8 })
    );
    assert_eq!(
        pll_config(12, 1, 4_000_000_000, 6, 2),
        Err(ConfigError::FeedbackDividerOutOfRange { feedback_divider: 333 })
    );
}

#[test]
fn pll_vco_band_enforced() {
    // 12 MHz * 141 = 1692 MHz: divider in range, VCO above 1600 MHz
    assert_eq!(
        pll_config(12, 1, 1_700_000_000, 6, 2),
        Err(ConfigError::VcoOutOfRange { vco_hz: 1_692_000_000 })
    );
    // 12 MHz * 30 = 360 MHz: below 400 MHz
    assert_eq!(
        pll_config(12, 1, 360_000_000, 6, 2),
        Err(ConfigError::VcoOutOfRange { vco_hz: 360_000_000 })
    );
}

#[test]
fn pll_other_dividers_checked() {
    assert_eq!(
        pll_config(12, 0, 1_500_000_000, 6, 2),
        Err(ConfigError::ReferenceDividerOutOfRange)
    );
    assert_eq!(
        pll_config(12, 64, 1_500_000_000, 6, 2),
        Err(ConfigError::ReferenceDividerOutOfRange)
    );
    assert_eq!(
        pll_config(12, 13, 1_500_000_000, 6, 2),
        Err(ConfigError::ReferenceTooSlow)
    );
    assert_eq!(
        pll_config(12, 1, 1_500_000_000, 8, 2),
        Err(ConfigError::PostDividerOutOfRange)
    );
    assert_eq!(
        pll_config(12, 1, 1_500_000_000, 6, 0),
        Err(ConfigError::PostDividerOutOfRange)
    );
}

#[test]
fn dma_debug_counter_field() {
    assert_eq!(R { bits: 0xffff_ffc5 }.ch1_dbg_ctdreq(), 5);
    assert_eq!(R { bits: 0x3f }.ch1_dbg_ctdreq(), 63);
    assert_eq!(R { bits: 0x40 }.ch1_dbg_ctdreq(), 0);
}
