use pico_clocks::bringup::{bring_up_plan, BringUpPlan, DomainDivisors, DomainTargets};
use pico_clocks::error::{BringUpError, ConfigError, Stage};
use pico_clocks::ops::{AuxSource, Domain, FcSource, GlitchSource, Op, PllId};
use pico_clocks::pll::{pll_config, PllConfig};
use pico_clocks::sim::{fc_source_code, SimChip};
use pico_clocks::stages::{
    divisor_and_switch, make_gated_switch, make_glitchless_switch, make_hold_ops,
    ALL_PERIPHERALS, CLOCK_DEPENDENT,
};
use pico_clocks::wait::{poll_step, PollStep};

fn sys_pll() -> PllConfig {
    pll_config(12, 1, 1_500_000_000, 6, 2).unwrap()
}

fn usb_pll() -> PllConfig {
    pll_config(12, 1, 480_000_000, 5, 2).unwrap()
}

fn targets() -> DomainTargets {
    DomainTargets {
        ref_hz: 12_000_000,
        sys_hz: 125_000_000,
        usb_hz: 48_000_000,
        adc_hz: 48_000_000,
        rtc_hz: 46875,
    }
}

fn power_on_divisors() -> DomainDivisors {
    DomainDivisors { ref_div: 256, sys_div: 256, usb_div: 256, adc_div: 256, rtc_div: 256 }
}

fn plan() -> BringUpPlan {
    bring_up_plan(12, sys_pll(), usb_pll(), targets(), power_on_divisors()).unwrap()
}

#[test]
fn end_to_end_frequencies() {
    let p = plan();
    assert_eq!(p.freqs.pll_sys_hz, 125_000_000);
    assert_eq!(p.freqs.pll_usb_hz, 48_000_000);
    assert_eq!(p.freqs.ref_hz, 12_000_000);
    assert_eq!(p.freqs.sys_hz, 125_000_000);
    assert_eq!(p.freqs.peri_hz, 125_000_000);
    assert_eq!(p.freqs.usb_hz, 48_000_000);
    assert_eq!(p.freqs.adc_hz, 48_000_000);
    assert_eq!(p.freqs.rtc_hz, 46875);
    assert_eq!(p.divisors.rtc_div, 262_144);

    let mut chip = SimChip::power_on(12);
    assert_eq!(chip.run(&p.ops), Ok(()));
    assert_eq!(chip.frequency_count_khz(FcSource::PllSys, 12_000), Ok(125_000));
    assert_eq!(chip.frequency_count_khz(FcSource::PllUsb, 12_000), Ok(48_000));
    assert_eq!(chip.frequency_count_khz(FcSource::Sys, 12_000), Ok(125_000));
    assert_eq!(chip.frequency_count_khz(FcSource::Peri, 12_000), Ok(125_000));
    assert_eq!(chip.frequency_count_khz(FcSource::Usb, 12_000), Ok(48_000));
    assert_eq!(chip.frequency_count_khz(FcSource::Ref, 12_000), Ok(12_000));
}

#[test]
fn rtc_divisor_matches_counter() {
    let p = plan();
    let div = ((48_000_000u64 << 8) / 46875) as u32;
    assert_eq!(p.divisors.rtc_div, div);
    let mut chip = SimChip::power_on(12);
    chip.run(&p.ops).unwrap();
    assert_eq!(chip.state.clk_rtc.div, div);
    // 46.875 kHz, counted in whole kHz
    assert_eq!(chip.frequency_count_khz(FcSource::Rtc, 12_000), Ok(46));
    assert_eq!(chip.frequency_count_khz(FcSource::Adc, 12_000), Ok(48_000));
}

#[test]
fn counter_before_bring_up_uses_ring_oscillator() {
    let mut chip = SimChip::power_on(12);
    // the reference clock runs from the ring oscillator; stated as 6500 kHz
    assert_eq!(chip.frequency_count_khz(FcSource::Ref, 6_500), Ok(6_500));
    assert_eq!(chip.frequency_count_khz(FcSource::PllSys, 6_500), Ok(0));
}

#[test]
fn plan_rejects_bad_domain_target() {
    let mut t = targets();
    t.usb_hz = 50_000_000;
    assert!(matches!(
        bring_up_plan(12, sys_pll(), usb_pll(), t, power_on_divisors()),
        Err(ConfigError::DestinationAboveSource)
    ));
    let mut t = targets();
    t.rtc_hz = 0;
    assert!(matches!(
        bring_up_plan(12, sys_pll(), usb_pll(), t, power_on_divisors()),
        Err(ConfigError::ZeroFrequency)
    ));
}

#[test]
fn reset_sequencing_holds_clock_dependent_blocks() {
    let p = plan();
    let n = p.ops.len();
    for op in &p.ops[..n - 2] {
        if let Op::WriteReset { mask } = op {
            assert_eq!(mask & CLOCK_DEPENDENT, CLOCK_DEPENDENT);
        }
    }
    assert_eq!(p.ops[n - 2], Op::WriteReset { mask: 0 });
    assert_eq!(p.ops[n - 1], Op::AwaitResetDone { mask: ALL_PERIPHERALS });
    // ADC, RTC, SPI0, SPI1, UART0, UART1, USB controller
    assert_eq!(CLOCK_DEPENDENT, 0x01c3_8001);

    let mut chip = SimChip::power_on(12);
    chip.run(&make_hold_ops()).unwrap();
    assert_eq!(chip.state.reset, CLOCK_DEPENDENT);
    let mut chip = SimChip::power_on(12);
    chip.run(&p.ops).unwrap();
    assert_eq!(chip.state.reset, 0);
}

#[test]
fn divisor_written_first_when_it_grows() {
    let sw = make_gated_switch(Domain::Rtc, AuxSource::PllUsb, 8000);
    let ops = divisor_and_switch(Domain::Rtc, 256, 262_144, &sw);
    let mut chip = SimChip::power_on(12);
    chip.run(&ops).unwrap();
    assert_eq!(
        chip.writes,
        vec![
            Op::WriteDivisor { domain: Domain::Rtc, div: 262_144 },
            Op::SetEnable { domain: Domain::Rtc, on: false },
            Op::SelectAux { domain: Domain::Rtc, aux: AuxSource::PllUsb },
            Op::SetEnable { domain: Domain::Rtc, on: true },
            Op::WriteDivisor { domain: Domain::Rtc, div: 262_144 },
        ]
    );
}

#[test]
fn grown_system_divisor_rewritten_after_selection() {
    let sw = make_glitchless_switch(Domain::Sys, GlitchSource::Aux, Some(AuxSource::PllSys));
    let ops = divisor_and_switch(Domain::Sys, 256, 512, &sw);
    assert_eq!(
        ops,
        vec![
            Op::WriteDivisor { domain: Domain::Sys, div: 512 },
            Op::SelectAux { domain: Domain::Sys, aux: AuxSource::PllSys },
            Op::SelectSource { domain: Domain::Sys, src: GlitchSource::Aux },
            Op::AwaitSelected { domain: Domain::Sys, src: GlitchSource::Aux },
            Op::WriteDivisor { domain: Domain::Sys, div: 512 },
        ]
    );
}

#[test]
fn failed_wait_stops_all_writes() {
    let mut chip = SimChip::power_on(12);
    let ops = vec![
        Op::XoscEnable,
        Op::AwaitXoscStable,
        Op::PllPostDiv { pll: PllId::Sys, post_div1: 6, post_div2: 2 },
    ];
    // no start-up delay was written, so the crystal never reports stable
    assert_eq!(chip.run(&ops), Err(BringUpError { stage: Stage::Oscillator, status: 0 }));
    assert_eq!(chip.writes, vec![Op::XoscEnable]);
    assert_eq!(chip.state.sys_pll.post_div1, 7);
}

#[test]
fn settle_uses_achieved_system_clock() {
    let p = plan();
    // 125 MHz system clock, 46875 Hz RTC: 8000 cycles
    assert!(p.ops.contains(&Op::Settle { cycles: 8000 }));
    // 125 MHz against 48 MHz: 8 cycles
    assert!(p.ops.contains(&Op::Settle { cycles: 8 }));
}

#[test]
fn divisor_written_last_when_it_shrinks() {
    let sw = make_glitchless_switch(Domain::Sys, GlitchSource::Aux, Some(AuxSource::PllSys));
    let ops = divisor_and_switch(Domain::Sys, 512, 256, &sw);
    let mut chip = SimChip::power_on(12);
    chip.run(&ops).unwrap();
    assert_eq!(
        chip.writes,
        vec![
            Op::SelectAux { domain: Domain::Sys, aux: AuxSource::PllSys },
            Op::SelectSource { domain: Domain::Sys, src: GlitchSource::Aux },
            Op::WriteDivisor { domain: Domain::Sys, div: 256 },
        ]
    );
    // an equal divisor also goes last
    let ops = divisor_and_switch(Domain::Sys, 256, 256, &sw);
    assert_eq!(ops.last(), Some(&Op::WriteDivisor { domain: Domain::Sys, div: 256 }));
}

#[test]
fn pll_post_dividers_after_lock() {
    let p = plan();
    let lock = p.ops.iter().position(|o| *o == Op::AwaitPllLock { pll: PllId::Sys }).unwrap();
    let post = p
        .ops
        .iter()
        .position(|o| matches!(o, Op::PllPostDiv { pll: PllId::Sys, .. }))
        .unwrap();
    let fb = p
        .ops
        .iter()
        .position(|o| *o == Op::PllFbDiv { pll: PllId::Sys, div: 125 })
        .unwrap();
    assert!(fb < lock && lock < post);
}

#[test]
fn missing_crystal_times_out() {
    let p = plan();
    let mut chip = SimChip::power_on(0);
    assert_eq!(
        chip.run(&p.ops),
        Err(BringUpError { stage: Stage::Oscillator, status: 0 })
    );
    assert!(!chip.writes.iter().any(|o| matches!(o, Op::PllPowerUpVco { .. })));
}

#[test]
fn unlocked_pll_times_out() {
    let mut chip = SimChip::power_on(12);
    let ops = vec![
        Op::XoscEnable,
        Op::XoscStartupDelay { delay: 47 },
        Op::AwaitXoscStable,
        Op::PllFbDiv { pll: PllId::Usb, div: 8 },
        Op::PllPowerUpVco { pll: PllId::Usb },
        Op::AwaitPllLock { pll: PllId::Usb },
    ];
    assert_eq!(chip.run(&ops), Err(BringUpError { stage: Stage::PllLock, status: 0 }));
}

#[test]
fn bounded_poll_steps() {
    let op = Op::AwaitResetDone { mask: 0b110 };
    assert_eq!(poll_step(op, 0b111, 1, 3), PollStep::Done);
    assert_eq!(poll_step(op, 0b010, 1, 3), PollStep::Again);
    assert_eq!(
        poll_step(op, 0b010, 3, 3),
        PollStep::Fail(BringUpError { stage: Stage::ResetRelease, status: 0b010 })
    );
    let sel = Op::AwaitSelected { domain: Domain::Ref, src: GlitchSource::Crystal };
    assert_eq!(poll_step(sel, 0b100, 1, 1), PollStep::Done);
    assert_eq!(
        poll_step(sel, 0b001, 1, 1),
        PollStep::Fail(BringUpError { stage: Stage::ClockSelect, status: 1 })
    );
}

#[test]
fn counter_programs_then_starts() {
    let mut chip = SimChip::power_on(12);
    chip.frequency_count_khz(FcSource::Ref, 6_500).unwrap();
    chip.frequency_count_khz(FcSource::Sys, 6_500).unwrap();
    let setup = Op::CounterSetup {
        reference_khz: 6_500,
        interval: 10,
        min_khz: 0,
        max_khz: u32::MAX,
    };
    assert_eq!(
        chip.writes,
        vec![
            setup,
            Op::CounterStart { source: FcSource::Ref },
            setup,
            Op::CounterStart { source: FcSource::Sys },
        ]
    );
}

#[test]
fn counter_with_stopped_reference_fails() {
    let mut chip = SimChip::power_on(12);
    chip.apply(Op::SelectSource { domain: Domain::Ref, src: GlitchSource::Crystal }).unwrap();
    // the crystal is not running yet, so the reference clock is stopped
    assert_eq!(
        chip.frequency_count_khz(FcSource::Sys, 12_000),
        Err(BringUpError { stage: Stage::FrequencyCounter, status: 0 })
    );
}

#[test]
fn counter_selector_codes() {
    assert_eq!(fc_source_code(FcSource::PllSys), 1);
    assert_eq!(fc_source_code(FcSource::PllUsb), 2);
    assert_eq!(fc_source_code(FcSource::Rtc), 0xd);
}

#[test]
fn timer_tick_and_resus_before_crystal() {
    let p = plan();
    assert_eq!(p.ops[3], Op::WatchdogTick { cycles: 12 });
    assert_eq!(p.ops[4], Op::DisableResus);
    assert_eq!(p.ops[5], Op::XoscClearBadWrite);
}
