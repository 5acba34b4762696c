use vstd::prelude::*;

use crate::error::{BringUpError, Stage};
use crate::freq::MHZ;
use crate::ops::{AuxSource, Domain, FcSource, GlitchSource, Op, PllId};
use crate::pll::{FBDIV_MAX, FBDIV_MIN};
use crate::stages::{make_measure_ops, measure_ops, ALL_PERIPHERALS, FC_INTERVAL};
use crate::wait::{
    poll_step, satisfied, select_bit, select_mask, stage_of, PollStep, FC_DONE_BIT, FC_RUNNING_BIT,
    STATUS_READY_BIT,
};

verus! {

/// Nominal frequency of the on-chip ring oscillator.
pub const ROSC_HZ: u32 = 6_500_000;

/// Registers of one simulated PLL.
#[derive(Debug, Clone, Copy, PartialEq, Eq, Structural)]
pub struct PllState {
    pub refdiv: u32,
    pub fbdiv: u32,
    pub vco_on: bool,
    pub post_on: bool,
    pub post_div1: u32,
    pub post_div2: u32,
}

/// Registers of one simulated clock domain.
#[derive(Debug, Clone, Copy, PartialEq, Eq, Structural)]
pub struct ClockState {
    pub div: u32,
    pub src: GlitchSource,
    pub aux: AuxSource,
    pub enabled: bool,
}

/// The register state of a simulated chip. Its status registers follow from
/// it: a block out of reset reports done, the crystal is stable once enabled
/// with a start-up delay (if one is fitted), a PLL locks once powered with a
/// feedback divider in range, a multiplexer reports the input it is set to.
#[derive(Debug, Clone, Copy, PartialEq, Eq, Structural)]
pub struct ChipState {
    /// Frequency of the fitted crystal in MHz; 0 when none is fitted.
    pub crystal_mhz: u32,
    pub reset: u32,
    pub xosc_on: bool,
    pub xosc_delay: u32,
    pub sys_pll: PllState,
    pub usb_pll: PllState,
    pub clk_ref: ClockState,
    pub clk_sys: ClockState,
    pub clk_usb: ClockState,
    pub clk_adc: ClockState,
    pub clk_rtc: ClockState,
    pub clk_peri: ClockState,
    /// Reference frequency programmed into the frequency counter, in kHz.
    pub fc_ref_khz: u32,
    /// The clock the frequency counter measures.
    pub fc_src: FcSource,
    /// Whether a measurement was started since the counter was programmed.
    pub fc_started: bool,
}

pub open spec fn pll_of(s: ChipState, id: PllId) -> PllState {
    match id {
        PllId::Sys => s.sys_pll,
        PllId::Usb => s.usb_pll,
    }
}

pub open spec fn with_pll(s: ChipState, id: PllId, p: PllState) -> ChipState {
    match id {
        PllId::Sys => ChipState { sys_pll: p, ..s },
        PllId::Usb => ChipState { usb_pll: p, ..s },
    }
}

pub open spec fn clock_of(s: ChipState, d: Domain) -> ClockState {
    match d {
        Domain::Ref => s.clk_ref,
        Domain::Sys => s.clk_sys,
        Domain::Usb => s.clk_usb,
        Domain::Adc => s.clk_adc,
        Domain::Rtc => s.clk_rtc,
        Domain::Peri => s.clk_peri,
    }
}

pub open spec fn with_clock(s: ChipState, d: Domain, c: ClockState) -> ChipState {
    match d {
        Domain::Ref => ChipState { clk_ref: c, ..s },
        Domain::Sys => ChipState { clk_sys: c, ..s },
        Domain::Usb => ChipState { clk_usb: c, ..s },
        Domain::Adc => ChipState { clk_adc: c, ..s },
        Domain::Rtc => ChipState { clk_rtc: c, ..s },
        Domain::Peri => ChipState { clk_peri: c, ..s },
    }
}

/// The register state after a write; waits and settle delays change nothing.
pub open spec fn next_state(s: ChipState, op: Op) -> ChipState {
    match op {
        Op::WriteReset { mask } => ChipState { reset: mask, ..s },
        Op::XoscEnable => ChipState { xosc_on: true, ..s },
        Op::XoscStartupDelay { delay } => ChipState { xosc_delay: delay, ..s },
        Op::PllPowerDown { pll } => with_pll(
            s,
            pll,
            PllState { vco_on: false, post_on: false, ..pll_of(s, pll) },
        ),
        Op::PllRefDiv { pll, div } => with_pll(s, pll, PllState { refdiv: div, ..pll_of(s, pll) }),
        Op::PllFbDiv { pll, div } => with_pll(s, pll, PllState { fbdiv: div, ..pll_of(s, pll) }),
        Op::PllPowerUpVco { pll } => with_pll(s, pll, PllState { vco_on: true, ..pll_of(s, pll) }),
        Op::PllPostDiv { pll, post_div1, post_div2 } => with_pll(
            s,
            pll,
            PllState { post_div1, post_div2, ..pll_of(s, pll) },
        ),
        Op::PllPowerUpPost { pll } => with_pll(
            s,
            pll,
            PllState { post_on: true, ..pll_of(s, pll) },
        ),
        Op::WriteDivisor { domain, div } => with_clock(
            s,
            domain,
            ClockState { div, ..clock_of(s, domain) },
        ),
        Op::SelectAux { domain, aux } => with_clock(
            s,
            domain,
            ClockState { aux, ..clock_of(s, domain) },
        ),
        Op::SelectSource { domain, src } => with_clock(
            s,
            domain,
            ClockState { src, ..clock_of(s, domain) },
        ),
        Op::SetEnable { domain, on } => with_clock(
            s,
            domain,
            ClockState { enabled: on, ..clock_of(s, domain) },
        ),
        Op::CounterSetup { reference_khz, .. } => ChipState {
            fc_ref_khz: reference_khz,
            fc_started: false,
            ..s
        },
        Op::CounterStart { source } => ChipState { fc_src: source, fc_started: true, ..s },
        _ => s,
    }
}

pub open spec fn xosc_stable(s: ChipState) -> bool {
    s.xosc_on && s.xosc_delay > 0 && s.crystal_mhz > 0
}

pub open spec fn pll_locked(s: ChipState, id: PllId) -> bool {
    let p = pll_of(s, id);
    xosc_stable(s) && p.vco_on && p.refdiv >= 1 && FBDIV_MIN <= p.fbdiv <= FBDIV_MAX
}

/// The status register that `op` waits on, as the simulated chip reads it.
pub open spec fn status_of(s: ChipState, op: Op) -> u32 {
    match op {
        Op::AwaitResetDone { .. } => !s.reset & ALL_PERIPHERALS,
        Op::AwaitXoscStable => if xosc_stable(s) {
            STATUS_READY_BIT
        } else {
            0
        },
        Op::AwaitPllLock { pll } => if pll_locked(s, pll) {
            STATUS_READY_BIT
        } else {
            0
        },
        Op::AwaitSelected { domain, .. } => select_mask(domain, clock_of(s, domain).src),
        Op::AwaitCounterDone => if s.fc_started && ref_clock_hz(s) != 0 {
            FC_DONE_BIT
        } else {
            0
        },
        _ => 0,
    }
}

pub open spec fn is_wait(op: Op) -> bool {
    op is AwaitResetDone || op is AwaitXoscStable || op is AwaitPllLock || op is AwaitSelected
        || op is AwaitCounterIdle || op is AwaitCounterDone
}

/// Operations that write a register (all but the waits and settle delays).
pub open spec fn is_register_write(op: Op) -> bool {
    !is_wait(op) && !(op is Settle)
}

/// What the simulated chip does with `op`. It changes only on writes, so a
/// wait that is not satisfied at once is never satisfied.
pub open spec fn apply_spec(s: ChipState, op: Op) -> Result<ChipState, BringUpError> {
    if is_wait(op) && !satisfied(op, status_of(s, op)) {
        Err(BringUpError { stage: stage_of(op), status: status_of(s, op) })
    } else {
        Ok(next_state(s, op))
    }
}

/// The state after running `ops`, or the first wait that failed.
pub open spec fn run_from(s: ChipState, ops: Seq<Op>) -> Result<ChipState, BringUpError>
    decreases ops.len(),
{
    if ops.len() == 0 {
        Ok(s)
    } else {
        match apply_spec(s, ops[0]) {
            Err(e) => Err(e),
            Ok(t) => run_from(t, ops.drop_first()),
        }
    }
}

/// The state the chip is left in by running `ops`: after the last one, or
/// as it was when a wait failed.
pub open spec fn run_end(s: ChipState, ops: Seq<Op>) -> ChipState
    decreases ops.len(),
{
    if ops.len() == 0 {
        s
    } else {
        match apply_spec(s, ops[0]) {
            Err(_) => s,
            Ok(t) => run_end(t, ops.drop_first()),
        }
    }
}

/// The register writes made by running `ops`, in order: those of the steps
/// before the first failed wait, and none after it.
pub open spec fn run_writes(s: ChipState, ops: Seq<Op>) -> Seq<Op>
    decreases ops.len(),
{
    if ops.len() == 0 {
        Seq::empty()
    } else {
        match apply_spec(s, ops[0]) {
            Err(_) => Seq::empty(),
            Ok(t) => (if is_register_write(ops[0]) {
                seq![ops[0]]
            } else {
                Seq::empty()
            }) + run_writes(t, ops.drop_first()),
        }
    }
}

/// A simulated chip that records every register write it receives.
pub struct SimChip {
    pub state: ChipState,
    pub writes: Vec<Op>,
}

impl SimChip {
    /// A chip as it comes out of power-on reset: every block in reset, the
    /// crystal and PLLs off, the reference clock on the ring oscillator, the
    /// system clock on the reference clock, the gated clocks off, every
    /// divisor 1.0.
    pub fn power_on(crystal_mhz: u32) -> (r: SimChip)
        ensures
            r.state == power_on_state(crystal_mhz),
            r.writes@ == Seq::<Op>::empty(),
    {
        let p = PllState {
            refdiv: 1,
            fbdiv: 0,
            vco_on: false,
            post_on: false,
            post_div1: 7,
            post_div2: 7,
        };
        let c = |src: GlitchSource, aux: AuxSource, enabled: bool| -> (r: ClockState)
            ensures
                r == (ClockState { div: 256, src, aux, enabled }),
            { ClockState { div: 256, src, aux, enabled } };
        SimChip {
            state: ChipState {
                crystal_mhz,
                reset: ALL_PERIPHERALS,
                xosc_on: false,
                xosc_delay: 0,
                sys_pll: p,
                usb_pll: p,
                clk_ref: c(GlitchSource::RingOsc, AuxSource::PllUsb, true),
                clk_sys: c(GlitchSource::Reference, AuxSource::PllSys, true),
                clk_usb: c(GlitchSource::Aux, AuxSource::PllSys, false),
                clk_adc: c(GlitchSource::Aux, AuxSource::PllSys, false),
                clk_rtc: c(GlitchSource::Aux, AuxSource::PllSys, false),
                clk_peri: c(GlitchSource::Aux, AuxSource::ClkSys, false),
                fc_ref_khz: 0,
                fc_src: FcSource::Ref,
                fc_started: false,
            },
            writes: Vec::new(),
        }
    }
}

pub open spec fn power_on_state(crystal_mhz: u32) -> ChipState {
    let p = PllState {
        refdiv: 1,
        fbdiv: 0,
        vco_on: false,
        post_on: false,
        post_div1: 7,
        post_div2: 7,
    };
    ChipState {
        crystal_mhz,
        reset: ALL_PERIPHERALS,
        xosc_on: false,
        xosc_delay: 0,
        sys_pll: p,
        usb_pll: p,
        clk_ref: ClockState { div: 256, src: GlitchSource::RingOsc, aux: AuxSource::PllUsb, enabled: true },
        clk_sys: ClockState { div: 256, src: GlitchSource::Reference, aux: AuxSource::PllSys, enabled: true },
        clk_usb: ClockState { div: 256, src: GlitchSource::Aux, aux: AuxSource::PllSys, enabled: false },
        clk_adc: ClockState { div: 256, src: GlitchSource::Aux, aux: AuxSource::PllSys, enabled: false },
        clk_rtc: ClockState { div: 256, src: GlitchSource::Aux, aux: AuxSource::PllSys, enabled: false },
        clk_peri: ClockState { div: 256, src: GlitchSource::Aux, aux: AuxSource::ClkSys, enabled: false },
        fc_ref_khz: 0,
        fc_src: FcSource::Ref,
        fc_started: false,
    }
}

fn get_pll(s: &ChipState, id: PllId) -> (r: PllState)
    ensures
        r == pll_of(*s, id),
{
    match id {
        PllId::Sys => s.sys_pll,
        PllId::Usb => s.usb_pll,
    }
}

fn set_pll(s: &mut ChipState, id: PllId, p: PllState)
    ensures
        *final(s) == with_pll(*old(s), id, p),
{
    match id {
        PllId::Sys => s.sys_pll = p,
        PllId::Usb => s.usb_pll = p,
    }
}

fn get_clock(s: &ChipState, d: Domain) -> (r: ClockState)
    ensures
        r == clock_of(*s, d),
{
    match d {
        Domain::Ref => s.clk_ref,
        Domain::Sys => s.clk_sys,
        Domain::Usb => s.clk_usb,
        Domain::Adc => s.clk_adc,
        Domain::Rtc => s.clk_rtc,
        Domain::Peri => s.clk_peri,
    }
}

fn set_clock(s: &mut ChipState, d: Domain, c: ClockState)
    ensures
        *final(s) == with_clock(*old(s), d, c),
{
    match d {
        Domain::Ref => s.clk_ref = c,
        Domain::Sys => s.clk_sys = c,
        Domain::Usb => s.clk_usb = c,
        Domain::Adc => s.clk_adc = c,
        Domain::Rtc => s.clk_rtc = c,
        Domain::Peri => s.clk_peri = c,
    }
}

/// Applies a register write to the simulated registers.
pub fn write_register(s: &mut ChipState, op: Op)
    ensures
        *final(s) == next_state(*old(s), op),
{
    match op {
        Op::WriteReset { mask } => s.reset = mask,
        Op::XoscEnable => s.xosc_on = true,
        Op::XoscStartupDelay { delay } => s.xosc_delay = delay,
        Op::PllPowerDown { pll } => {
            let p = get_pll(s, pll);
            set_pll(s, pll, PllState { vco_on: false, post_on: false, ..p });
        },
        Op::PllRefDiv { pll, div } => {
            let p = get_pll(s, pll);
            set_pll(s, pll, PllState { refdiv: div, ..p });
        },
        Op::PllFbDiv { pll, div } => {
            let p = get_pll(s, pll);
            set_pll(s, pll, PllState { fbdiv: div, ..p });
        },
        Op::PllPowerUpVco { pll } => {
            let p = get_pll(s, pll);
            set_pll(s, pll, PllState { vco_on: true, ..p });
        },
        Op::PllPostDiv { pll, post_div1, post_div2 } => {
            let p = get_pll(s, pll);
            set_pll(s, pll, PllState { post_div1, post_div2, ..p });
        },
        Op::PllPowerUpPost { pll } => {
            let p = get_pll(s, pll);
            set_pll(s, pll, PllState { post_on: true, ..p });
        },
        Op::WriteDivisor { domain, div } => {
            let c = get_clock(s, domain);
            set_clock(s, domain, ClockState { div, ..c });
        },
        Op::SelectAux { domain, aux } => {
            let c = get_clock(s, domain);
            set_clock(s, domain, ClockState { aux, ..c });
        },
        Op::SelectSource { domain, src } => {
            let c = get_clock(s, domain);
            set_clock(s, domain, ClockState { src, ..c });
        },
        Op::SetEnable { domain, on } => {
            let c = get_clock(s, domain);
            set_clock(s, domain, ClockState { enabled: on, ..c });
        },
        Op::CounterSetup { reference_khz, .. } => {
            s.fc_ref_khz = reference_khz;
            s.fc_started = false;
        },
        Op::CounterStart { source } => {
            s.fc_src = source;
            s.fc_started = true;
        },
        _ => {},
    }
}

/// Reads the status register that `op` waits on.
pub fn read_status(s: &ChipState, op: Op) -> (r: u32)
    requires
        crystal_fits(*s),
    ensures
        r == status_of(*s, op),
{
    let stable = s.xosc_on && s.xosc_delay > 0 && s.crystal_mhz > 0;
    match op {
        Op::AwaitResetDone { .. } => !s.reset & ALL_PERIPHERALS,
        Op::AwaitXoscStable => if stable {
            STATUS_READY_BIT
        } else {
            0
        },
        Op::AwaitPllLock { pll } => {
            let p = get_pll(s, pll);
            if stable && p.vco_on && p.refdiv >= 1 && FBDIV_MIN <= p.fbdiv && p.fbdiv <= FBDIV_MAX {
                STATUS_READY_BIT
            } else {
                0
            }
        },
        Op::AwaitSelected { domain, .. } => select_bit(domain, get_clock(s, domain).src),
        Op::AwaitCounterDone => if s.fc_started && ref_clock_freq(s) != 0 {
            FC_DONE_BIT
        } else {
            0
        },
        _ => 0,
    }
}

fn op_is_wait(op: Op) -> (r: bool)
    ensures
        r == is_wait(op),
{
    match op {
        Op::AwaitResetDone { .. } | Op::AwaitXoscStable | Op::AwaitPllLock { .. }
        | Op::AwaitSelected { .. } | Op::AwaitCounterIdle | Op::AwaitCounterDone => true,
        _ => false,
    }
}

impl SimChip {
    /// Performs one step: a wait checks its status register and fails with
    /// the stage and status when it is not satisfied; a write changes the
    /// registers and is recorded.
    pub fn apply(&mut self, op: Op) -> (r: Result<(), BringUpError>)
        requires
            crystal_fits(old(self).state),
        ensures
            final(self).state.crystal_mhz == old(self).state.crystal_mhz,
            match apply_spec(old(self).state, op) {
                Err(e) => r == Err::<(), BringUpError>(e) && final(self).state == old(self).state,
                Ok(t) => r is Ok && final(self).state == t,
            },
            final(self).writes@ == old(self).writes@ + (if r is Ok && is_register_write(op) {
                seq![op]
            } else {
                Seq::<Op>::empty()
            }),
    {
        if op_is_wait(op) {
            let status = read_status(&self.state, op);
            match poll_step(op, status, 1, 1) {
                PollStep::Fail(e) => {
                    assert(self.writes@ =~= old(self).writes@ + Seq::<Op>::empty());
                    return Err(e);
                },
                _ => {
                    assert(self.writes@ =~= old(self).writes@ + Seq::<Op>::empty());
                    return Ok(());
                },
            }
        }
        write_register(&mut self.state, op);
        if let Op::Settle { .. } = op {
            assert(self.writes@ =~= old(self).writes@ + Seq::<Op>::empty());
        } else {
            self.writes.push(op);
        }
        Ok(())
    }

    /// Runs `ops` in order and stops at the first wait that fails; nothing
    /// is written after it.
    pub fn run(&mut self, ops: &Vec<Op>) -> (r: Result<(), BringUpError>)
        requires
            crystal_fits(old(self).state),
        ensures
            match run_from(old(self).state, ops@) {
                Err(e) => r == Err::<(), BringUpError>(e),
                Ok(t) => r is Ok && t == run_end(old(self).state, ops@),
            },
            final(self).state == run_end(old(self).state, ops@),
            final(self).writes@ == old(self).writes@ + run_writes(old(self).state, ops@),
    {
        let mut i: usize = 0;
        assert(ops@.skip(0) =~= ops@);
        while i < ops.len()
            invariant
                i <= ops@.len(),
                crystal_fits(self.state),
                run_from(old(self).state, ops@) == run_from(self.state, ops@.skip(i as int)),
                run_end(old(self).state, ops@) == run_end(self.state, ops@.skip(i as int)),
                old(self).writes@ + run_writes(old(self).state, ops@) == self.writes@ + run_writes(
                    self.state,
                    ops@.skip(i as int),
                ),
            decreases ops@.len() - i,
        {
            let op = ops[i];
            let ghost rest = ops@.skip(i as int);
            assert(rest.drop_first() =~= ops@.skip(i + 1));
            assert(rest[0] == op);
            let ghost before = self.writes@;
            let ghost st = self.state;
            let res = self.apply(op);
            if let Err(e) = res {
                assert(self.writes@ =~= before + run_writes(st, rest));
                assert(self.writes@ =~= self.writes@ + Seq::<Op>::empty());
                return Err(e);
            }
            assert(before + run_writes(st, rest) =~= self.writes@ + run_writes(
                self.state,
                ops@.skip(i + 1),
            ));
            i += 1;
        }
        assert(ops@.skip(i as int) =~= Seq::<Op>::empty());
        assert(run_writes(self.state, ops@.skip(i as int)) =~= Seq::<Op>::empty());
        assert(self.writes@ + Seq::<Op>::empty() =~= self.writes@);
        Ok(())
    }
}

/// The counter's selector value for `src`.
pub open spec fn fc_code(src: FcSource) -> u8 {
    match src {
        FcSource::PllSys => 0x1,
        FcSource::PllUsb => 0x2,
        FcSource::Ref => 0x8,
        FcSource::Sys => 0x9,
        FcSource::Peri => 0xa,
        FcSource::Usb => 0xb,
        FcSource::Adc => 0xc,
        FcSource::Rtc => 0xd,
    }
}

pub fn fc_source_code(src: FcSource) -> (r: u8)
    ensures
        r == fc_code(src),
{
    match src {
        FcSource::PllSys => 0x1,
        FcSource::PllUsb => 0x2,
        FcSource::Ref => 0x8,
        FcSource::Sys => 0x9,
        FcSource::Peri => 0xa,
        FcSource::Usb => 0xb,
        FcSource::Adc => 0xc,
        FcSource::Rtc => 0xd,
    }
}

/// A frequency through a 24.8 divisor; the model passes a clock through
/// undivided when the divisor is below 1.0.
pub open spec fn divide_hz(hz: int, div: u32) -> int {
    if div < 256 {
        hz
    } else {
        hz * 256 / div as int
    }
}

pub open spec fn xosc_hz(s: ChipState) -> int {
    if xosc_stable(s) {
        s.crystal_mhz * MHZ
    } else {
        0
    }
}

pub open spec fn pll_hz(s: ChipState, id: PllId) -> int {
    let p = pll_of(s, id);
    if pll_locked(s, id) && p.post_on && p.post_div1 >= 1 && p.post_div2 >= 1 {
        (s.crystal_mhz as int / p.refdiv as int) * MHZ * p.fbdiv / (p.post_div1 * p.post_div2)
    } else {
        0
    }
}

/// A PLL picked by an auxiliary multiplexer; the system clock input reads
/// 0 here and is resolved by `gated_hz`.
pub open spec fn pll_aux_hz(s: ChipState, aux: AuxSource) -> int {
    match aux {
        AuxSource::PllSys => pll_hz(s, PllId::Sys),
        AuxSource::PllUsb => pll_hz(s, PllId::Usb),
        AuxSource::ClkSys => 0,
    }
}

pub open spec fn ref_clock_hz(s: ChipState) -> int {
    divide_hz(
        match s.clk_ref.src {
            GlitchSource::RingOsc => ROSC_HZ as int,
            GlitchSource::Crystal => xosc_hz(s),
            GlitchSource::Aux => pll_aux_hz(s, s.clk_ref.aux),
            GlitchSource::Reference => 0,
        },
        s.clk_ref.div,
    )
}

pub open spec fn sys_clock_hz(s: ChipState) -> int {
    divide_hz(
        match s.clk_sys.src {
            GlitchSource::Reference => ref_clock_hz(s),
            GlitchSource::Aux => pll_aux_hz(s, s.clk_sys.aux),
            _ => 0,
        },
        s.clk_sys.div,
    )
}

pub open spec fn gated_hz(s: ChipState, c: ClockState) -> int {
    if c.enabled {
        divide_hz(
            match c.aux {
                AuxSource::ClkSys => sys_clock_hz(s),
                _ => pll_aux_hz(s, c.aux),
            },
            c.div,
        )
    } else {
        0
    }
}

/// The frequency, in Hz, of a clock of the simulated chip.
pub open spec fn source_hz(s: ChipState, src: FcSource) -> int {
    match src {
        FcSource::PllSys => pll_hz(s, PllId::Sys),
        FcSource::PllUsb => pll_hz(s, PllId::Usb),
        FcSource::Ref => ref_clock_hz(s),
        FcSource::Sys => sys_clock_hz(s),
        FcSource::Peri => gated_hz(s, s.clk_peri),
        FcSource::Usb => gated_hz(s, s.clk_usb),
        FcSource::Adc => gated_hz(s, s.clk_adc),
        FcSource::Rtc => gated_hz(s, s.clk_rtc),
    }
}

/// The counter's result: cycles of `src` counted against the reference
/// clock, scaled by the reference frequency the caller states, capped at
/// the register's maximum.
pub open spec fn fc_result(s: ChipState, src: FcSource, reference_khz: u32) -> int {
    let k = source_hz(s, src) * reference_khz / ref_clock_hz(s);
    if k > u32::MAX {
        u32::MAX as int
    } else {
        k
    }
}

/// A bound on every frequency of a chip whose crystal frequency in Hz fits
/// in 32 bits.
pub const FREQ_BOUND: u64 = 0x200_0000_0000;

pub open spec fn crystal_fits(s: ChipState) -> bool {
    s.crystal_mhz * MHZ <= u32::MAX
}

fn divide_freq(hz: u64, div: u32) -> (r: u64)
    requires
        hz <= FREQ_BOUND,
    ensures
        r == divide_hz(hz as int, div),
        r <= hz,
{
    if div < 256 {
        hz
    } else {
        let d: u64 = div as u64;
        assert((hz * 256) / (d as int) <= hz) by (nonlinear_arith)
            requires
                d >= 256,
        ;
        hz * 256 / d
    }
}

fn pll_freq(s: &ChipState, id: PllId) -> (r: u64)
    requires
        crystal_fits(*s),
    ensures
        r == pll_hz(*s, id),
        r <= FREQ_BOUND,
{
    let p = get_pll(s, id);
    let stable = s.xosc_on && s.xosc_delay > 0 && s.crystal_mhz > 0;
    if stable && p.vco_on && p.refdiv >= 1 && FBDIV_MIN <= p.fbdiv && p.fbdiv <= FBDIV_MAX
        && p.post_on && p.post_div1 >= 1 && p.post_div2 >= 1 {
        let ref_mhz: u64 = (s.crystal_mhz / p.refdiv) as u64;
        let a: u64 = ref_mhz * (MHZ as u64);
        assert(a <= u32::MAX) by (nonlinear_arith)
            requires
                a == ref_mhz * 1_000_000,
                ref_mhz <= s.crystal_mhz,
                s.crystal_mhz * 1_000_000 <= u32::MAX,
        ;
        let fb: u64 = p.fbdiv as u64;
        assert(a * fb <= FREQ_BOUND) by (nonlinear_arith)
            requires
                a <= u32::MAX,
                fb <= 320,
        ;
        let vco: u64 = a * fb;
        let div1: u64 = p.post_div1 as u64;
        let div2: u64 = p.post_div2 as u64;
        assert(1 <= div1 * div2 <= u64::MAX) by (nonlinear_arith)
            requires
                1 <= div1 <= u32::MAX,
                1 <= div2 <= u32::MAX,
        ;
        let pd: u64 = div1 * div2;
        assert(vco / pd <= vco) by (nonlinear_arith)
            requires
                pd >= 1,
        ;
        vco / pd
    } else {
        0
    }
}

fn pll_aux_freq(s: &ChipState, aux: AuxSource) -> (r: u64)
    requires
        crystal_fits(*s),
    ensures
        r == pll_aux_hz(*s, aux),
        r <= FREQ_BOUND,
{
    match aux {
        AuxSource::PllSys => pll_freq(s, PllId::Sys),
        AuxSource::PllUsb => pll_freq(s, PllId::Usb),
        AuxSource::ClkSys => 0,
    }
}

fn ref_clock_freq(s: &ChipState) -> (r: u64)
    requires
        crystal_fits(*s),
    ensures
        r == ref_clock_hz(*s),
        r <= FREQ_BOUND,
{
    let stable = s.xosc_on && s.xosc_delay > 0 && s.crystal_mhz > 0;
    let src: u64 = match s.clk_ref.src {
        GlitchSource::RingOsc => ROSC_HZ as u64,
        GlitchSource::Crystal => if stable {
            (s.crystal_mhz as u64) * (MHZ as u64)
        } else {
            0
        },
        GlitchSource::Aux => pll_aux_freq(s, s.clk_ref.aux),
        GlitchSource::Reference => 0,
    };
    divide_freq(src, s.clk_ref.div)
}

fn sys_clock_freq(s: &ChipState) -> (r: u64)
    requires
        crystal_fits(*s),
    ensures
        r == sys_clock_hz(*s),
        r <= FREQ_BOUND,
{
    let src: u64 = match s.clk_sys.src {
        GlitchSource::Reference => ref_clock_freq(s),
        GlitchSource::Aux => pll_aux_freq(s, s.clk_sys.aux),
        _ => 0,
    };
    divide_freq(src, s.clk_sys.div)
}

fn gated_freq(s: &ChipState, c: ClockState) -> (r: u64)
    requires
        crystal_fits(*s),
    ensures
        r == gated_hz(*s, c),
        r <= FREQ_BOUND,
{
    if c.enabled {
        let src: u64 = match c.aux {
            AuxSource::ClkSys => sys_clock_freq(s),
            _ => pll_aux_freq(s, c.aux),
        };
        divide_freq(src, c.div)
    } else {
        0
    }
}

/// The frequency, in Hz, of a clock of the simulated chip.
pub fn source_freq(s: &ChipState, src: FcSource) -> (r: u64)
    requires
        crystal_fits(*s),
    ensures
        r == source_hz(*s, src),
        r <= FREQ_BOUND,
{
    match src {
        FcSource::PllSys => pll_freq(s, PllId::Sys),
        FcSource::PllUsb => pll_freq(s, PllId::Usb),
        FcSource::Ref => ref_clock_freq(s),
        FcSource::Sys => sys_clock_freq(s),
        FcSource::Peri => gated_freq(s, s.clk_peri),
        FcSource::Usb => gated_freq(s, s.clk_usb),
        FcSource::Adc => gated_freq(s, s.clk_adc),
        FcSource::Rtc => gated_freq(s, s.clk_rtc),
    }
}

/// The frequency counter's registers do not affect any clock.
proof fn lemma_counter_fields_irrelevant(s: ChipState, t: ChipState)
    requires
        t == (ChipState { fc_ref_khz: t.fc_ref_khz, fc_src: t.fc_src, fc_started: t.fc_started, ..s }),
    ensures
        ref_clock_hz(t) == ref_clock_hz(s),
        forall|c: FcSource| source_hz(t, c) == source_hz(s, c),
{
    assert(xosc_stable(t) == xosc_stable(s));
    assert(pll_hz(t, PllId::Sys) == pll_hz(s, PllId::Sys));
    assert(pll_hz(t, PllId::Usb) == pll_hz(s, PllId::Usb));
    assert forall|a: AuxSource| pll_aux_hz(t, a) == pll_aux_hz(s, a) by {}
    assert(ref_clock_hz(t) == ref_clock_hz(s));
    assert(sys_clock_hz(t) == sys_clock_hz(s));
    assert forall|c: FcSource| source_hz(t, c) == source_hz(s, c) by {}
}

/// What one measurement does to the simulated chip: it programs and starts
/// the counter, writes nothing else, and fails only with the reference clock
/// stopped.
proof fn lemma_measure_run(s0: ChipState, src: FcSource, reference_khz: u32)
    ensures
        ({
            let m = measure_ops(src, reference_khz);
            let s3 = ChipState {
                fc_ref_khz: reference_khz,
                fc_src: src,
                fc_started: true,
                ..s0
            };
            &&& run_end(s0, m) == s3
            &&& run_writes(s0, m) == seq![m[1], m[2]]
            &&& run_from(s0, m) == if ref_clock_hz(s3) != 0 {
                Ok::<ChipState, BringUpError>(s3)
            } else {
                Err(BringUpError { stage: Stage::FrequencyCounter, status: 0 })
            }
        }),
{
    assert(0u32 & FC_RUNNING_BIT == 0) by (bit_vector);
    assert(0u32 & FC_DONE_BIT == 0) by (bit_vector);
    assert(FC_DONE_BIT & FC_DONE_BIT != 0) by (bit_vector);
    let m = measure_ops(src, reference_khz);
    let s2 = ChipState { fc_ref_khz: reference_khz, fc_started: false, ..s0 };
    let s3 = ChipState { fc_ref_khz: reference_khz, fc_src: src, fc_started: true, ..s0 };
    let m1 = m.drop_first();
    let m2 = m1.drop_first();
    let m3 = m2.drop_first();
    let m4 = m3.drop_first();
    assert(m4 =~= Seq::<Op>::empty());
    assert(m1[0] == m[1] && m2[0] == m[2] && m3[0] == m[3]);
    assert(apply_spec(s0, m[0]) == Ok::<ChipState, BringUpError>(s0));
    assert(apply_spec(s0, m[1]) == Ok::<ChipState, BringUpError>(s2));
    assert(apply_spec(s2, m[2]) == Ok::<ChipState, BringUpError>(s3));
    lemma_counter_fields_irrelevant(s0, s3);
    assert(run_end(s3, m4) == s3);
    assert(run_end(s3, m3) == s3);
    assert(run_end(s2, m2) == s3);
    assert(run_end(s0, m1) == s3);
    assert(run_writes(s3, m4) == Seq::<Op>::empty());
    assert(run_writes(s3, m3) =~= Seq::<Op>::empty());
    assert(run_writes(s2, m2) =~= seq![m[2]]);
    assert(run_writes(s0, m1) =~= seq![m[1], m[2]]);
    assert(run_writes(s0, m) =~= seq![m[1], m[2]]);
    assert(run_from(s3, m4) == Ok::<ChipState, BringUpError>(s3));
    assert(run_from(s2, m2) == run_from(s3, m3));
    assert(run_from(s0, m1) == run_from(s2, m2));
    assert(run_from(s0, m) == run_from(s0, m1));
    if ref_clock_hz(s3) != 0 {
        assert(apply_spec(s3, m[3]) == Ok::<ChipState, BringUpError>(s3));
        assert(run_from(s3, m3) == Ok::<ChipState, BringUpError>(s3));
    } else {
        assert(run_from(s3, m3) == Err::<ChipState, BringUpError>(
            BringUpError { stage: Stage::FrequencyCounter, status: 0 },
        ));
    }
}

impl SimChip {
    /// Measures `src` with the frequency counter, given the frequency of the
    /// reference clock in kHz: waits for the counter to be idle, programs it,
    /// starts the measurement and waits until it is done. With the reference
    /// clock stopped the counter never reports done, an error of the counter
    /// stage. The clocks themselves are left as they were.
    pub fn frequency_count_khz(&mut self, src: FcSource, reference_khz: u32) -> (r: Result<
        u32,
        BringUpError,
    >)
        requires
            crystal_fits(old(self).state),
        ensures
            ref_clock_hz(old(self).state) == 0 <==> r == Err::<u32, BringUpError>(
                BringUpError { stage: Stage::FrequencyCounter, status: 0 },
            ),
            ref_clock_hz(old(self).state) != 0 ==> r == Ok::<u32, BringUpError>(
                fc_result(old(self).state, src, reference_khz) as u32,
            ),
            final(self).state == (ChipState {
                fc_ref_khz: reference_khz,
                fc_src: src,
                fc_started: true,
                ..old(self).state
            }),
            final(self).writes@ == old(self).writes@ + seq![
                Op::CounterSetup {
                    reference_khz,
                    interval: FC_INTERVAL,
                    min_khz: 0,
                    max_khz: u32::MAX,
                },
                Op::CounterStart { source: src },
            ],
            forall|c: FcSource| source_hz(final(self).state, c) == source_hz(old(self).state, c),
    {
        let ghost s0 = self.state;
        let ops = make_measure_ops(src, reference_khz);
        let ghost s3 = ChipState {
            fc_ref_khz: reference_khz,
            fc_src: src,
            fc_started: true,
            ..s0
        };
        proof {
            lemma_counter_fields_irrelevant(s0, s3);
            lemma_measure_run(s0, src, reference_khz);
        }
        let res = self.run(&ops);
        assert(self.state == s3);
        if let Err(e) = res {
            return Err(e);
        }
        assert(ref_clock_hz(s3) != 0);
        let refhz = ref_clock_freq(&self.state);
        let hz = source_freq(&self.state, self.state.fc_src);
        let h: u128 = hz as u128;
        let rk: u128 = self.state.fc_ref_khz as u128;
        assert(h * rk <= u128::MAX) by (nonlinear_arith)
            requires
                h <= FREQ_BOUND,
                rk <= u32::MAX,
        ;
        let k: u128 = h * rk / (refhz as u128);
        if k > u32::MAX as u128 {
            Ok(u32::MAX)
        } else {
            Ok(k as u32)
        }
    }
}

} // verus!
