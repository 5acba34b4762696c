use vstd::prelude::*;

use crate::error::ConfigError;
use crate::freq::{
    clock_divider, divided_hz, divider_result, lemma_divisor_bounds, osc_startup_delay,
    settle_cycles, settle_cycles_of, startup_delay_cycles, MHZ,
};
use crate::ops::{append_ops, AuxSource, Domain, GlitchSource, Op, PllId};
use crate::pll::{pll_config_ok, pll_output_hz, PllConfig};
use crate::stages::{
    divisor_and_switch, gated_switch, glitchless_switch, hold_ops, make_gated_switch,
    make_glitchless_switch, make_hold_ops, make_park_ops, make_pll_ops, make_prepare_ops, prepare_ops, make_pll_reset_ops,
    make_release_ops, make_xosc_ops, ordered_divisor_ops, park_ops, pll_ops, pll_reset_ops,
    release_ops, xosc_ops, all_keep_in_reset, keeps_in_reset, lemma_keep_concat,
    lemma_stage_masks, ALL_PERIPHERALS, CLOCK_DEPENDENT,
};

verus! {

/// Frequencies, in Hz, that the derived domains should run at.
#[derive(Debug, Clone, Copy, PartialEq, Eq, Structural)]
pub struct DomainTargets {
    pub ref_hz: u32,
    pub sys_hz: u32,
    pub usb_hz: u32,
    pub adc_hz: u32,
    pub rtc_hz: u32,
}

/// 24.8 divisors of the divided domains.
#[derive(Debug, Clone, Copy, PartialEq, Eq, Structural)]
pub struct DomainDivisors {
    pub ref_div: u32,
    pub sys_div: u32,
    pub usb_div: u32,
    pub adc_div: u32,
    pub rtc_div: u32,
}

/// Frequencies, in Hz, that bring-up achieves.
#[derive(Debug, Clone, Copy, PartialEq, Eq, Structural)]
pub struct ClockFrequencies {
    pub pll_sys_hz: u32,
    pub pll_usb_hz: u32,
    pub ref_hz: u32,
    pub sys_hz: u32,
    pub usb_hz: u32,
    pub adc_hz: u32,
    pub rtc_hz: u32,
    pub peri_hz: u32,
}

/// The checked bring-up sequence with the frequencies it yields.
pub struct BringUpPlan {
    pub ops: Vec<Op>,
    pub divisors: DomainDivisors,
    pub freqs: ClockFrequencies,
}

/// The range the crystal oscillator is enabled in, in MHz.
pub const XOSC_MIN_MHZ: u32 = 1;
pub const XOSC_MAX_MHZ: u32 = 15;

/// A crystal within the oscillator's 1-15 MHz range.
pub open spec fn crystal_ok(xosc_mhz: int) -> bool {
    XOSC_MIN_MHZ <= xosc_mhz <= XOSC_MAX_MHZ
}

/// The divisors for `t`, or the first domain's error, in the order
/// reference, system, USB, ADC, RTC.
pub open spec fn plan_divisors(xosc_mhz: int, sys_pll_hz: int, usb_pll_hz: int, t: DomainTargets)
    -> Result<DomainDivisors, ConfigError> {
    match divider_result(xosc_mhz * MHZ, t.ref_hz as int) {
        Err(e) => Err(e),
        Ok(r) => match divider_result(sys_pll_hz, t.sys_hz as int) {
            Err(e) => Err(e),
            Ok(s) => match divider_result(usb_pll_hz, t.usb_hz as int) {
                Err(e) => Err(e),
                Ok(u) => match divider_result(usb_pll_hz, t.adc_hz as int) {
                    Err(e) => Err(e),
                    Ok(a) => match divider_result(usb_pll_hz, t.rtc_hz as int) {
                        Err(e) => Err(e),
                        Ok(c) => Ok(
                            DomainDivisors {
                                ref_div: r,
                                sys_div: s,
                                usb_div: u,
                                adc_div: a,
                                rtc_div: c,
                            },
                        ),
                    },
                },
            },
        },
    }
}

/// Register steps between the crystal start-up and the final release.
/// `sys_hz` is the system clock once configured; it times the settle delays.
pub open spec fn clock_ops(
    sys_hz: int,
    sys_pll: PllConfig,
    usb_pll: PllConfig,
    t: DomainTargets,
    cur: DomainDivisors,
    d: DomainDivisors,
) -> Seq<Op> {
    let gated = |dom: Domain, aux: AuxSource, hz: u32|
        gated_switch(dom, aux, settle_cycles_of(sys_hz, hz as int) as u64);
    park_ops() + pll_reset_ops() + pll_ops(PllId::Sys, sys_pll) + pll_ops(PllId::Usb, usb_pll)
        + ordered_divisor_ops(
        Domain::Ref,
        cur.ref_div,
        d.ref_div,
        glitchless_switch(Domain::Ref, GlitchSource::Crystal, None),
    ) + ordered_divisor_ops(
        Domain::Sys,
        cur.sys_div,
        d.sys_div,
        glitchless_switch(Domain::Sys, GlitchSource::Aux, Some(AuxSource::PllSys)),
    ) + ordered_divisor_ops(
        Domain::Usb,
        cur.usb_div,
        d.usb_div,
        gated(Domain::Usb, AuxSource::PllUsb, t.usb_hz),
    ) + ordered_divisor_ops(
        Domain::Adc,
        cur.adc_div,
        d.adc_div,
        gated(Domain::Adc, AuxSource::PllUsb, t.adc_hz),
    ) + ordered_divisor_ops(
        Domain::Rtc,
        cur.rtc_div,
        d.rtc_div,
        gated(Domain::Rtc, AuxSource::PllUsb, t.rtc_hz),
    ) + gated(Domain::Peri, AuxSource::ClkSys, sys_hz as u32)
}

/// The whole bring-up sequence for divisors `d`.
pub open spec fn plan_ops(
    xosc_mhz: int,
    sys_pll: PllConfig,
    usb_pll: PllConfig,
    t: DomainTargets,
    cur: DomainDivisors,
    d: DomainDivisors,
) -> Seq<Op> {
    hold_ops() + prepare_ops(xosc_mhz as u32) + xosc_ops(startup_delay_cycles(xosc_mhz) as u32)
        + clock_ops(
        divided_hz(pll_output_hz(xosc_mhz, sys_pll), d.sys_div as int),
        sys_pll,
        usb_pll,
        t,
        cur,
        d,
    ) + release_ops()
}

pub open spec fn achieved(xosc_mhz: int, sys_pll: PllConfig, usb_pll: PllConfig, d: DomainDivisors)
    -> ClockFrequencies {
    let ps = pll_output_hz(xosc_mhz, sys_pll);
    let pu = pll_output_hz(xosc_mhz, usb_pll);
    let sys = divided_hz(ps, d.sys_div as int);
    ClockFrequencies {
        pll_sys_hz: ps as u32,
        pll_usb_hz: pu as u32,
        ref_hz: divided_hz(xosc_mhz * MHZ, d.ref_div as int) as u32,
        sys_hz: sys as u32,
        usb_hz: divided_hz(pu, d.usb_div as int) as u32,
        adc_hz: divided_hz(pu, d.adc_div as int) as u32,
        rtc_hz: divided_hz(pu, d.rtc_div as int) as u32,
        peri_hz: sys as u32,
    }
}

/// Output of a checked PLL configuration, in Hz.
fn pll_output(xosc_mhz: u32, cfg: PllConfig) -> (r: u32)
    requires
        crystal_ok(xosc_mhz as int),
        pll_config_ok(xosc_mhz as int, cfg),
    ensures
        r == pll_output_hz(xosc_mhz as int, cfg),
{
    let ref_mhz: u64 = (xosc_mhz / cfg.reference_divider) as u64;
    let fb: u64 = cfg.feedback_divider as u64;
    assert(ref_mhz * 1_000_000 * fb == (xosc_mhz / cfg.reference_divider) * 1_000_000 * fb);
    let vco: u64 = ref_mhz * 1_000_000 * fb;
    let div1: u64 = cfg.post_divider_1 as u64;
    let div2: u64 = cfg.post_divider_2 as u64;
    assert(1 <= div1 * div2 <= 49) by (nonlinear_arith)
        requires
            1 <= div1 <= 7,
            1 <= div2 <= 7,
    ;
    let pd: u64 = div1 * div2;
    assert(vco / pd <= vco) by (nonlinear_arith)
        requires
            pd >= 1,
    ;
    (vco / pd) as u32
}

/// The frequency a domain yields from `src` through divisor `div`.
fn divided(src: u32, dst: u32, div: u32) -> (r: u32)
    requires
        divider_result(src as int, dst as int) == Ok::<u32, ConfigError>(div),
    ensures
        r == divided_hz(src as int, div as int),
        dst <= r <= src,
{
    proof {
        lemma_divisor_bounds(src as int, dst as int);
    }
    ((src as u64) * 256 / (div as u64)) as u32
}

/// The steps between the crystal start-up and the final release.
fn make_clock_ops(
    sys_hz: u32,
    sys_pll: PllConfig,
    usb_pll: PllConfig,
    t: DomainTargets,
    cur: DomainDivisors,
    d: DomainDivisors,
) -> (r: Vec<Op>)
    requires
        sys_hz > 0,
        t.usb_hz > 0,
        t.adc_hz > 0,
        t.rtc_hz > 0,
    ensures
        r@ == clock_ops(sys_hz as int, sys_pll, usb_pll, t, cur, d),
{
    let mut ops = make_park_ops();
    append_ops(&mut ops, &make_pll_reset_ops());
    append_ops(&mut ops, &make_pll_ops(PllId::Sys, sys_pll));
    append_ops(&mut ops, &make_pll_ops(PllId::Usb, usb_pll));
    let sw = make_glitchless_switch(Domain::Ref, GlitchSource::Crystal, None);
    append_ops(&mut ops, &divisor_and_switch(Domain::Ref, cur.ref_div, d.ref_div, &sw));
    let sw = make_glitchless_switch(Domain::Sys, GlitchSource::Aux, Some(AuxSource::PllSys));
    append_ops(&mut ops, &divisor_and_switch(Domain::Sys, cur.sys_div, d.sys_div, &sw));
    let sw = make_gated_switch(Domain::Usb, AuxSource::PllUsb, settle_cycles(sys_hz, t.usb_hz));
    append_ops(&mut ops, &divisor_and_switch(Domain::Usb, cur.usb_div, d.usb_div, &sw));
    let sw = make_gated_switch(Domain::Adc, AuxSource::PllUsb, settle_cycles(sys_hz, t.adc_hz));
    append_ops(&mut ops, &divisor_and_switch(Domain::Adc, cur.adc_div, d.adc_div, &sw));
    let sw = make_gated_switch(Domain::Rtc, AuxSource::PllUsb, settle_cycles(sys_hz, t.rtc_hz));
    append_ops(&mut ops, &divisor_and_switch(Domain::Rtc, cur.rtc_div, d.rtc_div, &sw));
    append_ops(
        &mut ops,
        &make_gated_switch(Domain::Peri, AuxSource::ClkSys, settle_cycles(sys_hz, sys_hz)),
    );
    assert(ops@ =~= clock_ops(sys_hz as int, sys_pll, usb_pll, t, cur, d));
    ops
}

/// Checks the requested domain frequencies against the PLL outputs and
/// returns the whole bring-up sequence: hold the clock-dependent blocks in
/// reset, start the crystal, program both PLLs, route and divide every
/// domain without overspeed, then release every block. `current` holds the
/// divisors the domains have before bring-up. A request with no valid
/// divisor is rejected before any step is produced.
pub fn bring_up_plan(
    xosc_mhz: u32,
    sys_pll: PllConfig,
    usb_pll: PllConfig,
    targets: DomainTargets,
    current: DomainDivisors,
) -> (r: Result<BringUpPlan, ConfigError>)
    requires
        crystal_ok(xosc_mhz as int),
        pll_config_ok(xosc_mhz as int, sys_pll),
        pll_config_ok(xosc_mhz as int, usb_pll),
    ensures
        match plan_divisors(
            xosc_mhz as int,
            pll_output_hz(xosc_mhz as int, sys_pll),
            pll_output_hz(xosc_mhz as int, usb_pll),
            targets,
        ) {
            Err(e) => r == Err::<BringUpPlan, ConfigError>(e),
            Ok(d) => r is Ok && r->Ok_0.divisors == d && r->Ok_0.ops@ == plan_ops(
                xosc_mhz as int,
                sys_pll,
                usb_pll,
                targets,
                current,
                d,
            ) && r->Ok_0.freqs == achieved(xosc_mhz as int, sys_pll, usb_pll, d),
        },
{
    let xosc_hz: u32 = xosc_mhz * MHZ;
    let ps = pll_output(xosc_mhz, sys_pll);
    let pu = pll_output(xosc_mhz, usb_pll);
    let ref_div = match clock_divider(xosc_hz, targets.ref_hz) {
        Ok(v) => v,
        Err(e) => return Err(e),
    };
    let sys_div = match clock_divider(ps, targets.sys_hz) {
        Ok(v) => v,
        Err(e) => return Err(e),
    };
    let usb_div = match clock_divider(pu, targets.usb_hz) {
        Ok(v) => v,
        Err(e) => return Err(e),
    };
    let adc_div = match clock_divider(pu, targets.adc_hz) {
        Ok(v) => v,
        Err(e) => return Err(e),
    };
    let rtc_div = match clock_divider(pu, targets.rtc_hz) {
        Ok(v) => v,
        Err(e) => return Err(e),
    };
    let d = DomainDivisors { ref_div, sys_div, usb_div, adc_div, rtc_div };
    let sys_hz = divided(ps, targets.sys_hz, sys_div);

    let mut ops = make_hold_ops();
    append_ops(&mut ops, &make_prepare_ops(xosc_mhz));
    append_ops(&mut ops, &make_xosc_ops(osc_startup_delay(xosc_mhz)));
    let clocks = make_clock_ops(sys_hz, sys_pll, usb_pll, targets, current, d);
    append_ops(&mut ops, &clocks);
    append_ops(&mut ops, &make_release_ops());

    let freqs = ClockFrequencies {
        pll_sys_hz: ps,
        pll_usb_hz: pu,
        ref_hz: divided(xosc_hz, targets.ref_hz, ref_div),
        sys_hz,
        usb_hz: divided(pu, targets.usb_hz, usb_div),
        adc_hz: divided(pu, targets.adc_hz, adc_div),
        rtc_hz: divided(pu, targets.rtc_hz, rtc_div),
        peri_hz: sys_hz,
    };
    assert(ops@ =~= plan_ops(xosc_mhz as int, sys_pll, usb_pll, targets, current, d));
    Ok(BringUpPlan { ops, divisors: d, freqs })
}

proof fn lemma_switch_keeps(domain: Domain, current: u32, new: u32, switch: Seq<Op>)
    requires
        all_keep_in_reset(switch, CLOCK_DEPENDENT),
    ensures
        all_keep_in_reset(ordered_divisor_ops(domain, current, new, switch), CLOCK_DEPENDENT),
{
    let w = seq![Op::WriteDivisor { domain, div: new }];
    assert(all_keep_in_reset(w, CLOCK_DEPENDENT));
    lemma_keep_concat(w, switch, CLOCK_DEPENDENT);
    lemma_keep_concat(w + switch, w, CLOCK_DEPENDENT);
    lemma_keep_concat(switch, w, CLOCK_DEPENDENT);
}

proof fn lemma_gated_keeps(domain: Domain, aux: AuxSource, cycles: u64)
    ensures
        all_keep_in_reset(gated_switch(domain, aux, cycles), CLOCK_DEPENDENT),
{
    let s = gated_switch(domain, aux, cycles);
    assert forall|i: int| 0 <= i < s.len() implies keeps_in_reset(#[trigger] s[i], CLOCK_DEPENDENT)
        by {
        assert(!(s[i] is WriteReset));
    }
}

proof fn lemma_pll_keeps(pll: PllId, cfg: PllConfig)
    ensures
        all_keep_in_reset(pll_ops(pll, cfg), CLOCK_DEPENDENT),
{
    let s = pll_ops(pll, cfg);
    assert forall|i: int| 0 <= i < s.len() implies keeps_in_reset(#[trigger] s[i], CLOCK_DEPENDENT)
        by {
        assert(!(s[i] is WriteReset));
    }
}

/// Reset sequencing: in the bring-up sequence every reset-register write
/// before the last keeps the clock-dependent blocks (ADC, RTC, SPI0, SPI1,
/// UART0, UART1, USB controller) in reset, so they stay held while every
/// PLL and domain is configured; the sequence ends by releasing every block
/// and waiting for all of them.
pub proof fn lemma_reset_sequencing(
    xosc_mhz: int,
    sys_pll: PllConfig,
    usb_pll: PllConfig,
    t: DomainTargets,
    cur: DomainDivisors,
    d: DomainDivisors,
)
    ensures
        ({
            let s = plan_ops(xosc_mhz, sys_pll, usb_pll, t, cur, d);
            &&& s.len() >= 2
            &&& forall|i: int|
                0 <= i < s.len() - 2 ==> keeps_in_reset(#[trigger] s[i], CLOCK_DEPENDENT)
            &&& s[s.len() - 2] == Op::WriteReset { mask: 0 }
            &&& s[s.len() - 1] == Op::AwaitResetDone { mask: ALL_PERIPHERALS }
        }),
{
    lemma_stage_masks();
    let m = CLOCK_DEPENDENT;
    let h = hold_ops();
    assert(keeps_in_reset(h[0], m) && keeps_in_reset(h[1], m) && keeps_in_reset(h[2], m));
    assert(all_keep_in_reset(h, m));
    let w = prepare_ops(xosc_mhz as u32);
    assert(all_keep_in_reset(w, m));
    lemma_keep_concat(h, w, m);
    let x = xosc_ops(startup_delay_cycles(xosc_mhz) as u32);
    assert(all_keep_in_reset(x, m));
    let p = park_ops();
    assert(all_keep_in_reset(p, m));
    let pr = pll_reset_ops();
    assert(keeps_in_reset(pr[0], m) && keeps_in_reset(pr[1], m));
    assert(all_keep_in_reset(pr, m));
    lemma_pll_keeps(PllId::Sys, sys_pll);
    lemma_pll_keeps(PllId::Usb, usb_pll);
    let g1 = glitchless_switch(Domain::Ref, GlitchSource::Crystal, None);
    assert(all_keep_in_reset(g1, m));
    let g2 = glitchless_switch(Domain::Sys, GlitchSource::Aux, Some(AuxSource::PllSys));
    assert(all_keep_in_reset(g2, m));
    lemma_switch_keeps(Domain::Ref, cur.ref_div, d.ref_div, g1);
    lemma_switch_keeps(Domain::Sys, cur.sys_div, d.sys_div, g2);
    let sys_hz = divided_hz(pll_output_hz(xosc_mhz, sys_pll), d.sys_div as int);
    let cy = |hz: u32| settle_cycles_of(sys_hz, hz as int) as u64;
    lemma_gated_keeps(Domain::Usb, AuxSource::PllUsb, cy(t.usb_hz));
    lemma_gated_keeps(Domain::Adc, AuxSource::PllUsb, cy(t.adc_hz));
    lemma_gated_keeps(Domain::Rtc, AuxSource::PllUsb, cy(t.rtc_hz));
    lemma_gated_keeps(Domain::Peri, AuxSource::ClkSys, cy(sys_hz as u32));
    let u = gated_switch(Domain::Usb, AuxSource::PllUsb, cy(t.usb_hz));
    let a = gated_switch(Domain::Adc, AuxSource::PllUsb, cy(t.adc_hz));
    let r = gated_switch(Domain::Rtc, AuxSource::PllUsb, cy(t.rtc_hz));
    lemma_switch_keeps(Domain::Usb, cur.usb_div, d.usb_div, u);
    lemma_switch_keeps(Domain::Adc, cur.adc_div, d.adc_div, a);
    lemma_switch_keeps(Domain::Rtc, cur.rtc_div, d.rtc_div, r);
    let pieces = seq![
        pr,
        pll_ops(PllId::Sys, sys_pll),
        pll_ops(PllId::Usb, usb_pll),
        ordered_divisor_ops(Domain::Ref, cur.ref_div, d.ref_div, g1),
        ordered_divisor_ops(Domain::Sys, cur.sys_div, d.sys_div, g2),
        ordered_divisor_ops(Domain::Usb, cur.usb_div, d.usb_div, u),
        ordered_divisor_ops(Domain::Adc, cur.adc_div, d.adc_div, a),
        ordered_divisor_ops(Domain::Rtc, cur.rtc_div, d.rtc_div, r),
        gated_switch(Domain::Peri, AuxSource::ClkSys, cy(sys_hz as u32)),
    ];
    lemma_keep_concat(h + w, x, m);
    let mut acc = p;
    lemma_keep_concat(acc, pieces[0], m);
    acc = acc + pieces[0];
    lemma_keep_concat(acc, pieces[1], m);
    acc = acc + pieces[1];
    lemma_keep_concat(acc, pieces[2], m);
    acc = acc + pieces[2];
    lemma_keep_concat(acc, pieces[3], m);
    acc = acc + pieces[3];
    lemma_keep_concat(acc, pieces[4], m);
    acc = acc + pieces[4];
    lemma_keep_concat(acc, pieces[5], m);
    acc = acc + pieces[5];
    lemma_keep_concat(acc, pieces[6], m);
    acc = acc + pieces[6];
    lemma_keep_concat(acc, pieces[7], m);
    acc = acc + pieces[7];
    lemma_keep_concat(acc, pieces[8], m);
    acc = acc + pieces[8];
    assert(acc == clock_ops(sys_hz, sys_pll, usb_pll, t, cur, d));
    lemma_keep_concat(h + w + x, acc, m);
    let body = h + w + x + clock_ops(sys_hz, sys_pll, usb_pll, t, cur, d);
    let s = plan_ops(xosc_mhz, sys_pll, usb_pll, t, cur, d);
    assert(s =~= body + release_ops());
    assert forall|i: int| 0 <= i < s.len() - 2 implies keeps_in_reset(#[trigger] s[i], m) by {
        assert(s[i] == body[i]);
    }
}

} // verus!
