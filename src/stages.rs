use vstd::prelude::*;

use crate::ops::{
    append_ops, has_no_divisor_write, AuxSource, Domain, FcSource, GlitchSource, Op, PllId,
};
use crate::pll::PllConfig;

verus! {

pub const RESET_ADC: u32 = 0x0000_0001;
pub const RESET_IO_QSPI: u32 = 0x0000_0040;
pub const RESET_PADS_QSPI: u32 = 0x0000_0200;
pub const RESET_PLL_SYS: u32 = 0x0000_1000;
pub const RESET_PLL_USB: u32 = 0x0000_2000;
pub const RESET_RTC: u32 = 0x0000_8000;
pub const RESET_SPI0: u32 = 0x0001_0000;
pub const RESET_SPI1: u32 = 0x0002_0000;
pub const RESET_UART0: u32 = 0x0040_0000;
pub const RESET_UART1: u32 = 0x0080_0000;
pub const RESET_USBCTRL: u32 = 0x0100_0000;

/// Every block of the reset controller.
pub const ALL_PERIPHERALS: u32 = 0x01ff_ffff;

/// The PLLs.
pub const PLL_BLOCKS: u32 = RESET_PLL_SYS | RESET_PLL_USB;

/// Blocks whose clocks come from domains that bring-up reconfigures: they
/// stay in reset until every derived clock is set.
pub const CLOCK_DEPENDENT: u32 = RESET_ADC | RESET_RTC | RESET_SPI0 | RESET_SPI1 | RESET_UART0
    | RESET_UART1 | RESET_USBCTRL;

/// Blocks put in reset at power-on: all but the flash interface (the code
/// runs from it) and the PLLs.
pub const BOOT_RESET: u32 = ALL_PERIPHERALS & !(RESET_IO_QSPI | RESET_PADS_QSPI | PLL_BLOCKS);

/// Blocks released before the clocks are configured.
pub const EARLY_RELEASE: u32 = ALL_PERIPHERALS & !CLOCK_DEPENDENT;

pub open spec fn hold_ops() -> Seq<Op> {
    seq![
        Op::WriteReset { mask: BOOT_RESET },
        Op::WriteReset { mask: CLOCK_DEPENDENT },
        Op::AwaitResetDone { mask: EARLY_RELEASE },
    ]
}

/// Ticks for the timer (one per microsecond from a `xosc_mhz` MHz reference),
/// and no resuscitation while the system clock is switched.
pub open spec fn prepare_ops(xosc_mhz: u32) -> Seq<Op> {
    seq![Op::WatchdogTick { cycles: xosc_mhz }, Op::DisableResus]
}

pub fn make_prepare_ops(xosc_mhz: u32) -> (r: Vec<Op>)
    ensures
        r@ == prepare_ops(xosc_mhz),
{
    let mut v: Vec<Op> = Vec::new();
    v.push(Op::WatchdogTick { cycles: xosc_mhz });
    v.push(Op::DisableResus);
    assert(v@ =~= prepare_ops(xosc_mhz));
    v
}

pub open spec fn xosc_ops(delay: u32) -> Seq<Op> {
    seq![
        Op::XoscClearBadWrite,
        Op::XoscEnable,
        Op::XoscStartupDelay { delay },
        Op::AwaitXoscStable,
    ]
}

/// Moves the system clock onto the reference clock and the reference clock
/// onto the ring oscillator, so neither runs from a PLL being reconfigured.
pub open spec fn park_ops() -> Seq<Op> {
    seq![
        Op::SelectSource { domain: Domain::Sys, src: GlitchSource::Reference },
        Op::AwaitSelected { domain: Domain::Sys, src: GlitchSource::Reference },
        Op::SelectSource { domain: Domain::Ref, src: GlitchSource::RingOsc },
        Op::AwaitSelected { domain: Domain::Ref, src: GlitchSource::RingOsc },
    ]
}

pub open spec fn pll_reset_ops() -> Seq<Op> {
    seq![
        Op::WriteReset { mask: CLOCK_DEPENDENT | PLL_BLOCKS },
        Op::WriteReset { mask: CLOCK_DEPENDENT },
        Op::AwaitResetDone { mask: PLL_BLOCKS },
    ]
}

/// Programs a PLL: reset it, set the dividers, lock, and only after lock
/// enable the post dividers.
pub open spec fn pll_ops(pll: PllId, cfg: PllConfig) -> Seq<Op> {
    seq![
        Op::PllPowerDown { pll },
        Op::PllFbDiv { pll, div: 0 },
        Op::PllRefDiv { pll, div: cfg.reference_divider },
        Op::PllFbDiv { pll, div: cfg.feedback_divider },
        Op::PllPowerUpVco { pll },
        Op::AwaitPllLock { pll },
        Op::PllPostDiv {
            pll,
            post_div1: cfg.post_divider_1,
            post_div2: cfg.post_divider_2,
        },
        Op::PllPowerUpPost { pll },
    ]
}

/// Switches a glitchless domain to `src`, programming its auxiliary input
/// first where it has one.
pub open spec fn glitchless_switch(domain: Domain, src: GlitchSource, aux: Option<AuxSource>) -> Seq<
    Op,
> {
    let sel = seq![Op::SelectSource { domain, src }, Op::AwaitSelected { domain, src }];
    match aux {
        Some(a) => seq![Op::SelectAux { domain, aux: a }] + sel,
        None => sel,
    }
}

/// Switches a gated domain to `aux`: disable, settle, select, enable.
pub open spec fn gated_switch(domain: Domain, aux: AuxSource, cycles: u64) -> Seq<Op> {
    seq![
        Op::SetEnable { domain, on: false },
        Op::Settle { cycles },
        Op::SelectAux { domain, aux },
        Op::SetEnable { domain, on: true },
    ]
}

/// Places the divisor writes of `domain` around its source switch so that
/// the clock never runs faster than either its old or its new setting: a
/// larger divisor is written before the switch and again, as the final
/// write, once the switch is confirmed; a smaller or equal one only after it.
pub open spec fn ordered_divisor_ops(domain: Domain, current: u32, new: u32, switch: Seq<Op>)
    -> Seq<Op> {
    let w = seq![Op::WriteDivisor { domain, div: new }];
    if new > current {
        w + switch + w
    } else {
        switch + w
    }
}

/// Measurement interval of the frequency counter, in the counter's units.
pub const FC_INTERVAL: u32 = 10;

/// One frequency measurement: wait for any earlier one to finish, program
/// the reference and the widest bounds, start on `src`, wait until done.
pub open spec fn measure_ops(src: FcSource, reference_khz: u32) -> Seq<Op> {
    seq![
        Op::AwaitCounterIdle,
        Op::CounterSetup { reference_khz, interval: FC_INTERVAL, min_khz: 0, max_khz: u32::MAX },
        Op::CounterStart { source: src },
        Op::AwaitCounterDone,
    ]
}

pub fn make_measure_ops(src: FcSource, reference_khz: u32) -> (r: Vec<Op>)
    ensures
        r@ == measure_ops(src, reference_khz),
{
    let mut v: Vec<Op> = Vec::new();
    v.push(Op::AwaitCounterIdle);
    v.push(
        Op::CounterSetup { reference_khz, interval: FC_INTERVAL, min_khz: 0, max_khz: u32::MAX },
    );
    v.push(Op::CounterStart { source: src });
    v.push(Op::AwaitCounterDone);
    assert(v@ =~= measure_ops(src, reference_khz));
    v
}

pub open spec fn release_ops() -> Seq<Op> {
    seq![Op::WriteReset { mask: 0 }, Op::AwaitResetDone { mask: ALL_PERIPHERALS }]
}

pub fn make_hold_ops() -> (r: Vec<Op>)
    ensures
        r@ == hold_ops(),
{
    let mut v: Vec<Op> = Vec::new();
    v.push(Op::WriteReset { mask: BOOT_RESET });
    v.push(Op::WriteReset { mask: CLOCK_DEPENDENT });
    v.push(Op::AwaitResetDone { mask: EARLY_RELEASE });
    assert(v@ =~= hold_ops());
    v
}

pub fn make_xosc_ops(delay: u32) -> (r: Vec<Op>)
    ensures
        r@ == xosc_ops(delay),
{
    let mut v: Vec<Op> = Vec::new();
    v.push(Op::XoscClearBadWrite);
    v.push(Op::XoscEnable);
    v.push(Op::XoscStartupDelay { delay });
    v.push(Op::AwaitXoscStable);
    assert(v@ =~= xosc_ops(delay));
    v
}

pub fn make_park_ops() -> (r: Vec<Op>)
    ensures
        r@ == park_ops(),
{
    let mut v: Vec<Op> = Vec::new();
    v.push(Op::SelectSource { domain: Domain::Sys, src: GlitchSource::Reference });
    v.push(Op::AwaitSelected { domain: Domain::Sys, src: GlitchSource::Reference });
    v.push(Op::SelectSource { domain: Domain::Ref, src: GlitchSource::RingOsc });
    v.push(Op::AwaitSelected { domain: Domain::Ref, src: GlitchSource::RingOsc });
    assert(v@ =~= park_ops());
    v
}

pub fn make_pll_reset_ops() -> (r: Vec<Op>)
    ensures
        r@ == pll_reset_ops(),
{
    let mut v: Vec<Op> = Vec::new();
    v.push(Op::WriteReset { mask: CLOCK_DEPENDENT | PLL_BLOCKS });
    v.push(Op::WriteReset { mask: CLOCK_DEPENDENT });
    v.push(Op::AwaitResetDone { mask: PLL_BLOCKS });
    assert(v@ =~= pll_reset_ops());
    v
}

pub fn make_pll_ops(pll: PllId, cfg: PllConfig) -> (r: Vec<Op>)
    ensures
        r@ == pll_ops(pll, cfg),
{
    let mut v: Vec<Op> = Vec::new();
    v.push(Op::PllPowerDown { pll });
    v.push(Op::PllFbDiv { pll, div: 0 });
    v.push(Op::PllRefDiv { pll, div: cfg.reference_divider });
    v.push(Op::PllFbDiv { pll, div: cfg.feedback_divider });
    v.push(Op::PllPowerUpVco { pll });
    v.push(Op::AwaitPllLock { pll });
    v.push(
        Op::PllPostDiv { pll, post_div1: cfg.post_divider_1, post_div2: cfg.post_divider_2 },
    );
    v.push(Op::PllPowerUpPost { pll });
    assert(v@ =~= pll_ops(pll, cfg));
    v
}

pub fn make_glitchless_switch(domain: Domain, src: GlitchSource, aux: Option<AuxSource>) -> (r:
    Vec<Op>)
    ensures
        r@ == glitchless_switch(domain, src, aux),
{
    let mut v: Vec<Op> = Vec::new();
    if let Some(a) = aux {
        v.push(Op::SelectAux { domain, aux: a });
    }
    v.push(Op::SelectSource { domain, src });
    v.push(Op::AwaitSelected { domain, src });
    assert(v@ =~= glitchless_switch(domain, src, aux));
    v
}

pub fn make_gated_switch(domain: Domain, aux: AuxSource, cycles: u64) -> (r: Vec<Op>)
    ensures
        r@ == gated_switch(domain, aux, cycles),
{
    let mut v: Vec<Op> = Vec::new();
    v.push(Op::SetEnable { domain, on: false });
    v.push(Op::Settle { cycles });
    v.push(Op::SelectAux { domain, aux });
    v.push(Op::SetEnable { domain, on: true });
    assert(v@ =~= gated_switch(domain, aux, cycles));
    v
}

/// The source switch of `domain` with its divisor write placed so that the
/// clock does not overspeed.
pub fn divisor_and_switch(domain: Domain, current: u32, new: u32, switch: &Vec<Op>) -> (r: Vec<Op>)
    ensures
        r@ == ordered_divisor_ops(domain, current, new, switch@),
{
    let mut v: Vec<Op> = Vec::new();
    if new > current {
        v.push(Op::WriteDivisor { domain, div: new });
        append_ops(&mut v, switch);
        v.push(Op::WriteDivisor { domain, div: new });
    } else {
        append_ops(&mut v, switch);
        v.push(Op::WriteDivisor { domain, div: new });
    }
    assert(v@ =~= ordered_divisor_ops(domain, current, new, switch@));
    v
}

pub fn make_release_ops() -> (r: Vec<Op>)
    ensures
        r@ == release_ops(),
{
    let mut v: Vec<Op> = Vec::new();
    v.push(Op::WriteReset { mask: 0 });
    v.push(Op::AwaitResetDone { mask: ALL_PERIPHERALS });
    assert(v@ =~= release_ops());
    v
}

/// Anti-overspeed ordering: around a source switch that writes no divisor,
/// a growing divisor (the clock slows down) is written first, before the
/// switch, and last, after it; a shrinking or equal one (the clock speeds up)
/// is written only last. Every divisor write is of the new divisor, and the
/// switch itself stands unchanged in between.
pub proof fn lemma_divisor_order(domain: Domain, current: u32, new: u32, switch: Seq<Op>)
    requires
        has_no_divisor_write(switch),
    ensures
        ({
            let s = ordered_divisor_ops(domain, current, new, switch);
            let w = Op::WriteDivisor { domain, div: new };
            &&& s[s.len() - 1] == w
            &&& new > current ==> s.len() == switch.len() + 2 && s[0] == w && s.subrange(
                1,
                s.len() - 1,
            ) == switch
            &&& new <= current ==> s.len() == switch.len() + 1 && s.subrange(
                0,
                s.len() - 1,
            ) == switch
            &&& forall|i: int|
                0 <= i < s.len() && (#[trigger] s[i]) is WriteDivisor ==> s[i] == w && (i
                    == s.len() - 1 || (new > current && i == 0))
        }),
{
    let s = ordered_divisor_ops(domain, current, new, switch);
    if new > current {
        assert(s.subrange(1, s.len() - 1) =~= switch);
        assert forall|i: int| 0 <= i < s.len() && (#[trigger] s[i]) is WriteDivisor implies s[i]
            == (Op::WriteDivisor { domain, div: new }) && (i == s.len() - 1 || i == 0) by {
            if 0 < i < s.len() - 1 {
                assert(s[i] == switch[i - 1]);
                assert(!crate::ops::is_divisor_write(switch[i - 1]));
            }
        }
    } else {
        assert(s.subrange(0, s.len() - 1) =~= switch);
        assert forall|i: int| 0 <= i < s.len() && (#[trigger] s[i]) is WriteDivisor implies s[i]
            == (Op::WriteDivisor { domain, div: new }) && i == s.len() - 1 by {
            if i < switch.len() {
                assert(s[i] == switch[i]);
                assert(!crate::ops::is_divisor_write(switch[i]));
            }
        }
    }
}

/// An operation that leaves every block of `mask` in reset.
pub open spec fn keeps_in_reset(op: Op, mask: u32) -> bool {
    match op {
        Op::WriteReset { mask: m } => m & mask == mask,
        _ => true,
    }
}

pub open spec fn all_keep_in_reset(s: Seq<Op>, mask: u32) -> bool {
    forall|i: int| 0 <= i < s.len() ==> keeps_in_reset(#[trigger] s[i], mask)
}

pub proof fn lemma_keep_concat(a: Seq<Op>, b: Seq<Op>, mask: u32)
    requires
        all_keep_in_reset(a, mask),
        all_keep_in_reset(b, mask),
    ensures
        all_keep_in_reset(a + b, mask),
{
    assert forall|i: int| 0 <= i < (a + b).len() implies keeps_in_reset(
        #[trigger] (a + b)[i],
        mask,
    ) by {
        if i < a.len() {
            assert((a + b)[i] == a[i]);
        } else {
            assert((a + b)[i] == b[i - a.len()]);
        }
    }
}

/// The reset-register writes that come before the final release.
pub proof fn lemma_stage_masks()
    ensures
        BOOT_RESET & CLOCK_DEPENDENT == CLOCK_DEPENDENT,
        (CLOCK_DEPENDENT | PLL_BLOCKS) & CLOCK_DEPENDENT == CLOCK_DEPENDENT,
        CLOCK_DEPENDENT & CLOCK_DEPENDENT == CLOCK_DEPENDENT,
        CLOCK_DEPENDENT | EARLY_RELEASE == ALL_PERIPHERALS,
        CLOCK_DEPENDENT & EARLY_RELEASE == 0,
{
    assert(0x01ff_ffffu32 & !(0x0000_0040u32 | 0x0000_0200u32 | (0x0000_1000u32 | 0x0000_2000u32))
        & 0x01c3_8001u32 == 0x01c3_8001u32) by (bit_vector);
    assert((0x01c3_8001u32 | (0x0000_1000u32 | 0x0000_2000u32)) & 0x01c3_8001u32 == 0x01c3_8001u32)
        by (bit_vector);
    assert(0x01c3_8001u32 & 0x01c3_8001u32 == 0x01c3_8001u32) by (bit_vector);
    assert(0x01c3_8001u32 | (0x01ff_ffffu32 & !0x01c3_8001u32) == 0x01ff_ffffu32) by (bit_vector);
    assert(0x01c3_8001u32 & (0x01ff_ffffu32 & !0x01c3_8001u32) == 0u32) by (bit_vector);
    assert(CLOCK_DEPENDENT == 0x01c3_8001u32) by (bit_vector);
}

} // verus!
