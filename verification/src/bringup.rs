//! The bring-up state machine: the ordered sequence that activates every
//! configured clock node against the register image, verifies at each step
//! that the upstream source is active, and records the resulting frequency
//! of every node in the registry.
//!
//! Each `ensure_*_active` operation is idempotent: when the registry already
//! shows the node active it performs no register write and returns the same
//! frequency again. When the node is off but the configuration enables it,
//! it is activated and recorded; when the configuration does not enable it,
//! the demand fails with a bad-configuration error naming the node.

use vstd::prelude::*;

use crate::config::{
    ClkInSelect, ClockConfig, ClockOutSource, MainClockSelect, MainPll, MainPllClockSelect,
    _32kWakeClkSelect, _48_60mIrcSelect,
};
use crate::hardware::{OscRegs, OutRegs, PfdDivRegs, PllRegs, RegWrite, Registers, SysRegs, TrimRange};
use crate::registry::{ClockError, Clocks, StaticClock};

verus! {

/// The highest CPU frequency is 300 MHz, so 300 ticks always cover one
/// microsecond whatever the current clock speed.
pub const WORST_CASE_TICKS_PER_US: u32 = 300;

/// Drives bring-up: owns the configuration being applied and the registry
/// being filled. The register image is passed to each step.
#[derive(Debug)]
pub struct ClockOperator {
    /// The configuration being applied.
    pub config: ClockConfig,
    /// The registry being filled.
    pub clocks: Clocks,
}

/// Only the oscillator zone and the write record may differ.
pub open spec fn osc_zone_only(pre: Registers, post: Registers) -> bool {
    &&& post.pll == pre.pll
    &&& post.pfddiv == pre.pfddiv
    &&& post.sys == pre.sys
    &&& post.outdiv == pre.outdiv
    &&& post.flex == pre.flex
    &&& post.fclk1 == pre.fclk1
    &&& post.gates == pre.gates
    &&& post.rst == pre.rst
    &&& post.delays@ == pre.delays@
}

// --- The four root oscillators. For each: whether activation can succeed,
// --- and the registry, oscillator zone and write record after it has.

/// The 16 MHz oscillator can be made active: it already is, or the
/// configuration enables it.
pub open spec fn can_sfro(c: Clocks, cfg: ClockConfig) -> bool {
    c._16m_irc.enabled || cfg.enable_16m_irc
}

/// Registry after the 16 MHz oscillator is active.
pub open spec fn sfro_clocks(c: Clocks) -> Clocks {
    Clocks { _16m_irc: StaticClock { enabled: true }, ..c }
}

/// Oscillator zone after activating the 16 MHz oscillator: its power-down
/// bit is cleared, unless it was already active and nothing was written.
pub open spec fn sfro_osc(c: Clocks, r: OscRegs) -> OscRegs {
    if c._16m_irc.enabled {
        r
    } else {
        OscRegs { pd_sfro: false, ..r }
    }
}

/// Write record after activating the 16 MHz oscillator.
pub open spec fn sfro_log(c: Clocks, l: Seq<RegWrite>) -> Seq<RegWrite> {
    if c._16m_irc.enabled {
        l
    } else {
        l.push(RegWrite::Pdruncfg0)
    }
}

/// The 1 MHz low-power oscillator can be made active.
pub open spec fn can_lposc(c: Clocks, cfg: ClockConfig) -> bool {
    c._1m_lposc.enabled || cfg.enable_1m_lposc
}

/// Registry after the 1 MHz oscillator is active.
pub open spec fn lposc_clocks(c: Clocks) -> Clocks {
    Clocks { _1m_lposc: StaticClock { enabled: true }, ..c }
}

/// Oscillator zone after activating the 1 MHz oscillator.
pub open spec fn lposc_osc(c: Clocks, r: OscRegs) -> OscRegs {
    if c._1m_lposc.enabled {
        r
    } else {
        OscRegs { pd_lposc: false, ..r }
    }
}

/// Write record after activating the 1 MHz oscillator.
pub open spec fn lposc_log(c: Clocks, l: Seq<RegWrite>) -> Seq<RegWrite> {
    if c._1m_lposc.enabled {
        l
    } else {
        l.push(RegWrite::Pdruncfg0)
    }
}

/// The 32.768 kHz RTC oscillator can be made active.
pub open spec fn can_rtc32k(c: Clocks, cfg: ClockConfig) -> bool {
    c._32k_clk.enabled || cfg.enable_32k_clk
}

/// Registry after the RTC oscillator is active.
pub open spec fn rtc32k_clocks(c: Clocks) -> Clocks {
    Clocks { _32k_clk: StaticClock { enabled: true }, ..c }
}

/// Oscillator zone after activating the RTC oscillator.
pub open spec fn rtc32k_osc(c: Clocks, r: OscRegs) -> OscRegs {
    if c._32k_clk.enabled {
        r
    } else {
        OscRegs { osc32khzctl0_ena: true, ..r }
    }
}

/// Write record after activating the RTC oscillator.
pub open spec fn rtc32k_log(c: Clocks, l: Seq<RegWrite>) -> Seq<RegWrite> {
    if c._32k_clk.enabled {
        l
    } else {
        l.push(RegWrite::Osc32khzctl0)
    }
}

/// The 48/60 MHz oscillator can be made active.
pub open spec fn can_ffro(c: Clocks, cfg: ClockConfig) -> bool {
    c._48_60m_irc is Some || !(cfg._48_60m_irc_select is Off)
}

/// The frequency the 48/60 MHz oscillator runs at once active: the value
/// already recorded, else the one the configured trim range delivers.
pub open spec fn ffro_freq(c: Clocks, cfg: ClockConfig) -> u32 {
    match c._48_60m_irc {
        Some(f) => f,
        None => match cfg._48_60m_irc_select {
            _48_60mIrcSelect::Off => 0,
            _48_60mIrcSelect::Mhz48 => 48_000_000,
            _48_60mIrcSelect::Mhz60 => 60_000_000,
        },
    }
}

/// Registry after the 48/60 MHz oscillator is active.
pub open spec fn ffro_clocks(c: Clocks, cfg: ClockConfig) -> Clocks {
    if c._48_60m_irc is Some {
        c
    } else {
        Clocks { _48_60m_irc: cfg._48_60m_irc_select.spec_freq(), ..c }
    }
}

/// Oscillator zone after activating the 48/60 MHz oscillator: trim range
/// selected under safe mode, normal mode restored, power-down cleared.
pub open spec fn ffro_osc(c: Clocks, cfg: ClockConfig, r: OscRegs) -> OscRegs {
    if c._48_60m_irc is Some {
        r
    } else {
        OscRegs {
            ffroctl1_safe_mode: false,
            ffroctl0_trim: if cfg._48_60m_irc_select is Mhz60 {
                TrimRange::Ffro60mhz
            } else {
                TrimRange::Ffro48mhz
            },
            pd_ffro: false,
            ..r
        }
    }
}

/// Write record after activating the 48/60 MHz oscillator.
pub open spec fn ffro_log(c: Clocks, l: Seq<RegWrite>) -> Seq<RegWrite> {
    if c._48_60m_irc is Some {
        l
    } else {
        l.push(RegWrite::Ffroctl1).push(RegWrite::Ffroctl0).push(RegWrite::Ffroctl1).push(
            RegWrite::Pdruncfg0,
        )
    }
}

/// One of the four fractional output dividers of the main PLL, together
/// with its branch of the clock tree.
#[derive(Clone, Copy, Debug, PartialEq, Eq, Structural)]
pub enum PllPfd {
    /// PFD0, feeding `main_pll_clk`.
    Pfd0,
    /// PFD1, feeding `dsp_pll_clk`.
    Pfd1,
    /// PFD2, feeding `aux0_pll_clk`.
    Pfd2,
    /// PFD3, feeding `aux1_pll_clk`.
    Pfd3,
}

impl MainPll {
    /// The configured PFD divider of the given branch.
    pub open spec fn spec_pfd_div(self, w: PllPfd) -> Option<u8> {
        match w {
            PllPfd::Pfd0 => self.pfd0_div,
            PllPfd::Pfd1 => self.pfd1_div,
            PllPfd::Pfd2 => self.pfd2_div,
            PllPfd::Pfd3 => self.pfd3_div,
        }
    }

    /// The configured PFD divider of the given branch.
    pub fn pfd_div(&self, w: PllPfd) -> (r: Option<u8>)
        ensures
            r == self.spec_pfd_div(w),
    {
        match w {
            PllPfd::Pfd0 => self.pfd0_div,
            PllPfd::Pfd1 => self.pfd1_div,
            PllPfd::Pfd2 => self.pfd2_div,
            PllPfd::Pfd3 => self.pfd3_div,
        }
    }

    /// The configured output clock divider of the given branch.
    pub open spec fn spec_out_divider(self, w: PllPfd) -> u16 {
        match w {
            PllPfd::Pfd0 => self.main_pll_clock_divider,
            PllPfd::Pfd1 => self.dsp_pll_clock_divider,
            PllPfd::Pfd2 => self.aux0_pll_clock_divider,
            PllPfd::Pfd3 => self.aux1_pll_clock_divider,
        }
    }

    /// The configured output clock divider of the given branch.
    pub fn out_divider(&self, w: PllPfd) -> (r: u16)
        ensures
            r == self.spec_out_divider(w),
    {
        match w {
            PllPfd::Pfd0 => self.main_pll_clock_divider,
            PllPfd::Pfd1 => self.dsp_pll_clock_divider,
            PllPfd::Pfd2 => self.aux0_pll_clock_divider,
            PllPfd::Pfd3 => self.aux1_pll_clock_divider,
        }
    }
}

/// The error text for a PFD divider outside `12..=35`.
pub open spec fn spec_pfd_div_msg(w: PllPfd) -> &'static str {
    match w {
        PllPfd::Pfd0 => "`pfd0_div` is out of the allowed range",
        PllPfd::Pfd1 => "`pfd1_div` is out of the allowed range",
        PllPfd::Pfd2 => "`pfd2_div` is out of the allowed range",
        PllPfd::Pfd3 => "`pfd3_div` is out of the allowed range",
    }
}

/// The error text for a PFD divider outside `12..=35`.
pub fn pfd_div_msg(w: PllPfd) -> (s: &'static str)
    ensures
        s == spec_pfd_div_msg(w),
{
    match w {
        PllPfd::Pfd0 => "`pfd0_div` is out of the allowed range",
        PllPfd::Pfd1 => "`pfd1_div` is out of the allowed range",
        PllPfd::Pfd2 => "`pfd2_div` is out of the allowed range",
        PllPfd::Pfd3 => "`pfd3_div` is out of the allowed range",
    }
}

/// The error text for an output clock divider outside `1..=256`.
pub open spec fn spec_out_div_msg(w: PllPfd) -> &'static str {
    match w {
        PllPfd::Pfd0 => "`main_pll_clock_divider` is out of the allowed range",
        PllPfd::Pfd1 => "`dsp_pll_clock_divider` is out of the allowed range",
        PllPfd::Pfd2 => "`aux0_pll_clock_divider` is out of the allowed range",
        PllPfd::Pfd3 => "`aux1_pll_clock_divider` is out of the allowed range",
    }
}

/// The error text for an output clock divider outside `1..=256`.
pub fn out_div_msg(w: PllPfd) -> (s: &'static str)
    ensures
        s == spec_out_div_msg(w),
{
    match w {
        PllPfd::Pfd0 => "`main_pll_clock_divider` is out of the allowed range",
        PllPfd::Pfd1 => "`dsp_pll_clock_divider` is out of the allowed range",
        PllPfd::Pfd2 => "`aux0_pll_clock_divider` is out of the allowed range",
        PllPfd::Pfd3 => "`aux1_pll_clock_divider` is out of the allowed range",
    }
}

/// The write that programs the output clock divider of the given branch.
pub open spec fn xdiv_write(w: PllPfd) -> RegWrite {
    match w {
        PllPfd::Pfd0 => RegWrite::Mainpllclkdiv,
        PllPfd::Pfd1 => RegWrite::Dsppllclkdiv,
        PllPfd::Pfd2 => RegWrite::Aux0Pllclkdiv,
        PllPfd::Pfd3 => RegWrite::Aux1Pllclkdiv,
    }
}

/// The registry entry of the given branch.
pub open spec fn branch_of(c: Clocks, w: PllPfd) -> Option<u32> {
    match w {
        PllPfd::Pfd0 => c.main_pll_clk,
        PllPfd::Pfd1 => c.dsp_pll_clk,
        PllPfd::Pfd2 => c.aux0_pll_clk,
        PllPfd::Pfd3 => c.aux1_pll_clk,
    }
}

/// The registry with the given branch entry replaced.
pub open spec fn branch_clocks(c: Clocks, w: PllPfd, v: Option<u32>) -> Clocks {
    match w {
        PllPfd::Pfd0 => Clocks { main_pll_clk: v, ..c },
        PllPfd::Pfd1 => Clocks { dsp_pll_clk: v, ..c },
        PllPfd::Pfd2 => Clocks { aux0_pll_clk: v, ..c },
        PllPfd::Pfd3 => Clocks { aux1_pll_clk: v, ..c },
    }
}

/// The PLL zone with the given PFD gated.
pub open spec fn pll_pfd_gated(p: PllRegs, w: PllPfd) -> PllRegs {
    match w {
        PllPfd::Pfd0 => PllRegs { pfd0_gated: true, ..p },
        PllPfd::Pfd1 => PllRegs { pfd1_gated: true, ..p },
        PllPfd::Pfd2 => PllRegs { pfd2_gated: true, ..p },
        PllPfd::Pfd3 => PllRegs { pfd3_gated: true, ..p },
    }
}

/// The PLL zone with the given PFD programmed to `d` and ungated.
pub open spec fn pll_pfd_programmed(p: PllRegs, w: PllPfd, d: u8) -> PllRegs {
    match w {
        PllPfd::Pfd0 => PllRegs { pfd0_div: d, pfd0_gated: false, ..p },
        PllPfd::Pfd1 => PllRegs { pfd1_div: d, pfd1_gated: false, ..p },
        PllPfd::Pfd2 => PllRegs { pfd2_div: d, pfd2_gated: false, ..p },
        PllPfd::Pfd3 => PllRegs { pfd3_div: d, pfd3_gated: false, ..p },
    }
}

/// The PFD output dividers with the given branch halted.
pub open spec fn pfddiv_halted(p: PfdDivRegs, w: PllPfd) -> PfdDivRegs {
    match w {
        PllPfd::Pfd0 => PfdDivRegs { mainpllclkdiv_halt: true, ..p },
        PllPfd::Pfd1 => PfdDivRegs { dsppllclkdiv_halt: true, ..p },
        PllPfd::Pfd2 => PfdDivRegs { aux0pllclkdiv_halt: true, ..p },
        PllPfd::Pfd3 => PfdDivRegs { aux1pllclkdiv_halt: true, ..p },
    }
}

/// The PFD output dividers with the given branch programmed to `d` and
/// released.
pub open spec fn pfddiv_programmed(p: PfdDivRegs, w: PllPfd, d: u8) -> PfdDivRegs {
    match w {
        PllPfd::Pfd0 => PfdDivRegs { mainpllclkdiv_div: d, mainpllclkdiv_halt: false, ..p },
        PllPfd::Pfd1 => PfdDivRegs { dsppllclkdiv_div: d, dsppllclkdiv_halt: false, ..p },
        PllPfd::Pfd2 => PfdDivRegs { aux0pllclkdiv_div: d, aux0pllclkdiv_halt: false, ..p },
        PllPfd::Pfd3 => PfdDivRegs { aux1pllclkdiv_div: d, aux1pllclkdiv_halt: false, ..p },
    }
}

/// Gates the given PFD in the register image.
fn pfd_gate_close(regs: &mut Registers, w: PllPfd)
    ensures
        final(regs).pll == pll_pfd_gated(old(regs).pll, w),
        final(regs).log@ == old(regs).log@.push(RegWrite::Syspll0Pfd),
        final(regs).osc == old(regs).osc,
        final(regs).pfddiv == old(regs).pfddiv,
        final(regs).sys == old(regs).sys,
        final(regs).outdiv == old(regs).outdiv,
        final(regs).flex == old(regs).flex,
        final(regs).fclk1 == old(regs).fclk1,
        final(regs).gates == old(regs).gates,
        final(regs).rst == old(regs).rst,
        final(regs).delays@ == old(regs).delays@,
{
    match w {
        PllPfd::Pfd0 => regs.pll.pfd0_gated = true,
        PllPfd::Pfd1 => regs.pll.pfd1_gated = true,
        PllPfd::Pfd2 => regs.pll.pfd2_gated = true,
        PllPfd::Pfd3 => regs.pll.pfd3_gated = true,
    }
    regs.log.push(RegWrite::Syspll0Pfd);
}

/// Programs the given PFD divider and opens its gate.
#[verifier::rlimit(30)]
fn pfd_program(regs: &mut Registers, w: PllPfd, d: u8)
    ensures
        final(regs).pll == pll_pfd_programmed(old(regs).pll, w, d),
        final(regs).log@ == old(regs).log@.push(RegWrite::Syspll0Pfd),
        final(regs).osc == old(regs).osc,
        final(regs).pfddiv == old(regs).pfddiv,
        final(regs).sys == old(regs).sys,
        final(regs).outdiv == old(regs).outdiv,
        final(regs).flex == old(regs).flex,
        final(regs).fclk1 == old(regs).fclk1,
        final(regs).gates == old(regs).gates,
        final(regs).rst == old(regs).rst,
        final(regs).delays@ == old(regs).delays@,
{
    let cur = regs.pll;
    regs.pll = match w {
        PllPfd::Pfd0 => PllRegs { pfd0_div: d, pfd0_gated: false, ..cur },
        PllPfd::Pfd1 => PllRegs { pfd1_div: d, pfd1_gated: false, ..cur },
        PllPfd::Pfd2 => PllRegs { pfd2_div: d, pfd2_gated: false, ..cur },
        PllPfd::Pfd3 => PllRegs { pfd3_div: d, pfd3_gated: false, ..cur },
    };
    regs.log.push(RegWrite::Syspll0Pfd);
}

/// Halts the output clock divider of the given branch.
fn xdiv_halt(regs: &mut Registers, w: PllPfd)
    ensures
        final(regs).pfddiv == pfddiv_halted(old(regs).pfddiv, w),
        final(regs).log@ == old(regs).log@.push(xdiv_write(w)),
        final(regs).osc == old(regs).osc,
        final(regs).pll == old(regs).pll,
        final(regs).sys == old(regs).sys,
        final(regs).outdiv == old(regs).outdiv,
        final(regs).flex == old(regs).flex,
        final(regs).fclk1 == old(regs).fclk1,
        final(regs).gates == old(regs).gates,
        final(regs).rst == old(regs).rst,
        final(regs).delays@ == old(regs).delays@,
{
    match w {
        PllPfd::Pfd0 => {
            regs.pfddiv.mainpllclkdiv_halt = true;
            regs.log.push(RegWrite::Mainpllclkdiv);
        },
        PllPfd::Pfd1 => {
            regs.pfddiv.dsppllclkdiv_halt = true;
            regs.log.push(RegWrite::Dsppllclkdiv);
        },
        PllPfd::Pfd2 => {
            regs.pfddiv.aux0pllclkdiv_halt = true;
            regs.log.push(RegWrite::Aux0Pllclkdiv);
        },
        PllPfd::Pfd3 => {
            regs.pfddiv.aux1pllclkdiv_halt = true;
            regs.log.push(RegWrite::Aux1Pllclkdiv);
        },
    }
}

/// Programs the output clock divider of the given branch and releases it.
fn xdiv_program(regs: &mut Registers, w: PllPfd, d: u8)
    ensures
        final(regs).pfddiv == pfddiv_programmed(old(regs).pfddiv, w, d),
        final(regs).log@ == old(regs).log@.push(xdiv_write(w)),
        final(regs).osc == old(regs).osc,
        final(regs).pll == old(regs).pll,
        final(regs).sys == old(regs).sys,
        final(regs).outdiv == old(regs).outdiv,
        final(regs).flex == old(regs).flex,
        final(regs).fclk1 == old(regs).fclk1,
        final(regs).gates == old(regs).gates,
        final(regs).rst == old(regs).rst,
        final(regs).delays@ == old(regs).delays@,
{
    let cur = regs.pfddiv;
    regs.pfddiv = match w {
        PllPfd::Pfd0 => PfdDivRegs { mainpllclkdiv_div: d, mainpllclkdiv_halt: false, ..cur },
        PllPfd::Pfd1 => PfdDivRegs { dsppllclkdiv_div: d, dsppllclkdiv_halt: false, ..cur },
        PllPfd::Pfd2 => PfdDivRegs { aux0pllclkdiv_div: d, aux0pllclkdiv_halt: false, ..cur },
        PllPfd::Pfd3 => PfdDivRegs { aux1pllclkdiv_div: d, aux1pllclkdiv_halt: false, ..cur },
    };
    let w2 = match w {
        PllPfd::Pfd0 => RegWrite::Mainpllclkdiv,
        PllPfd::Pfd1 => RegWrite::Dsppllclkdiv,
        PllPfd::Pfd2 => RegWrite::Aux0Pllclkdiv,
        PllPfd::Pfd3 => RegWrite::Aux1Pllclkdiv,
    };
    regs.log.push(w2);
}

// --- The PLL input source: whether it resolves, and what it delivers.

/// The PLL input source can be resolved against the registry and the
/// configuration.
pub open spec fn pll_source_ok(c: Clocks, cfg: ClockConfig, s: MainPllClockSelect) -> bool {
    match s {
        MainPllClockSelect::_16mIrc => can_sfro(c, cfg),
        MainPllClockSelect::ClkIn => c.clk_in is Some,
        MainPllClockSelect::_48_60MIrcDiv2 => can_ffro(c, cfg),
    }
}

/// The frequency the PLL input source delivers.
pub open spec fn pll_source_freq(c: Clocks, cfg: ClockConfig, s: MainPllClockSelect) -> u32 {
    match s {
        MainPllClockSelect::_16mIrc => 16_000_000,
        MainPllClockSelect::ClkIn => match c.clk_in {
            Some(f) => f,
            None => 0,
        },
        MainPllClockSelect::_48_60MIrcDiv2 => ffro_freq(c, cfg),
    }
}

/// Registry after resolving the PLL input source.
pub open spec fn pll_source_clocks(c: Clocks, cfg: ClockConfig, s: MainPllClockSelect) -> Clocks {
    match s {
        MainPllClockSelect::_16mIrc => sfro_clocks(c),
        MainPllClockSelect::ClkIn => c,
        MainPllClockSelect::_48_60MIrcDiv2 => ffro_clocks(c, cfg),
    }
}

/// Oscillator zone after resolving the PLL input source.
pub open spec fn pll_source_osc(c: Clocks, cfg: ClockConfig, s: MainPllClockSelect, r: OscRegs) -> OscRegs {
    match s {
        MainPllClockSelect::_16mIrc => sfro_osc(c, r),
        MainPllClockSelect::ClkIn => r,
        MainPllClockSelect::_48_60MIrcDiv2 => ffro_osc(c, cfg, r),
    }
}

/// Write record after resolving the PLL input source.
pub open spec fn pll_source_log(c: Clocks, s: MainPllClockSelect, l: Seq<RegWrite>) -> Seq<
    RegWrite,
> {
    match s {
        MainPllClockSelect::_16mIrc => sfro_log(c, l),
        MainPllClockSelect::ClkIn => l,
        MainPllClockSelect::_48_60MIrcDiv2 => ffro_log(c, l),
    }
}

/// The error raised when the PLL input source cannot be resolved.
pub open spec fn pll_source_err(s: MainPllClockSelect) -> ClockError {
    match s {
        MainPllClockSelect::_16mIrc => ClockError::BadConfiguration {
            reason: "16m_irc not enabled but required",
        },
        MainPllClockSelect::ClkIn => ClockError::Programming {
            reason: "We should have set clk_in by now",
        },
        MainPllClockSelect::_48_60MIrcDiv2 => ClockError::BadConfiguration {
            reason: "48/60m_irc required but disabled",
        },
    }
}

/// The PLL zone after the PLL has been programmed for `m`: powered, fed by
/// the selected source, fractional part fixed to 0/1, integer multiplier
/// set, both lock periods over (holdringoff released).
pub open spec fn pll_programmed(p: PllRegs, m: MainPll) -> PllRegs {
    PllRegs {
        pd_syspllldo: false,
        pd_syspllana: false,
        syspll0clksel: m.clock_select.spec_bits(),
        syspll0num: 0,
        syspll0denom: 1,
        syspll0_bypass: false,
        syspll0_reset: false,
        syspll0_mult: m.multiplier,
        syspll0_holdringoff: false,
        ..p
    }
}

/// The record the PLL programming appends, after the input source is
/// resolved: input select, fractional part, the control write with
/// holdringoff enabled, power-up, the first lock wait, the control write
/// releasing holdringoff, and the second lock wait — each wait standing
/// exactly where the datasheet's two-phase lock procedure puts it.
pub open spec fn pll_prog_log(l: Seq<RegWrite>) -> Seq<RegWrite> {
    l.push(RegWrite::Syspll0Clksel).push(RegWrite::Syspll0Num).push(RegWrite::Syspll0Denom).push(
        RegWrite::Syspll0Ctl0,
    ).push(RegWrite::Pdruncfg0).push(RegWrite::LockDelay).push(RegWrite::Syspll0Ctl0).push(
        RegWrite::LockDelay,
    )
}

/// The multiply chain of the PLL and its PFDs stays within `u32` for every
/// divider the hardware accepts: the input frequency times the multiplier,
/// scaled by the steepest PFD ratio 18/12, must fit.
pub open spec fn pll_mul_fits(c: Clocks, cfg: ClockConfig, sel: Option<MainPll>) -> bool {
    match sel {
        None => true,
        Some(p) => (16 <= p.multiplier <= 22 && pll_source_ok(c, cfg, p.clock_select))
            ==> pll_source_freq(c, cfg, p.clock_select) * p.multiplier * 18 <= u32::MAX * 12,
    }
}

/// Programs the PLL for `p` once its input source is resolved: input mux,
/// fractional part pinned to 0/1, integer multiplier with the two-phase
/// holdringoff lock procedure and its two calibrated waits.
fn program_pll(regs: &mut Registers, p: MainPll)
    ensures
        final(regs).pll == pll_programmed(old(regs).pll, p),
        final(regs).log@ == pll_prog_log(old(regs).log@),
        final(regs).delays@ == old(regs).delays@.push(
            (WORST_CASE_TICKS_PER_US * old(regs).pll.syspll0locktimediv2) as u32,
        ).push((WORST_CASE_TICKS_PER_US * old(regs).pll.syspll0locktimediv2) as u32),
        final(regs).osc == old(regs).osc,
        final(regs).pfddiv == old(regs).pfddiv,
        final(regs).sys == old(regs).sys,
        final(regs).outdiv == old(regs).outdiv,
        final(regs).flex == old(regs).flex,
        final(regs).fclk1 == old(regs).fclk1,
        final(regs).gates == old(regs).gates,
        final(regs).rst == old(regs).rst,
{
    // Select the clock input, then fix the fractional part of the
    // multiplier to 0/1: only the integer multiplier applies.
    let cur = regs.pll;
    regs.pll = PllRegs { syspll0clksel: p.clock_select.bits(), ..cur };
    regs.log.push(RegWrite::Syspll0Clksel);
    let cur = regs.pll;
    regs.pll = PllRegs { syspll0num: 0, ..cur };
    regs.log.push(RegWrite::Syspll0Num);
    let cur = regs.pll;
    regs.pll = PllRegs { syspll0denom: 1, ..cur };
    regs.log.push(RegWrite::Syspll0Denom);

    // Program the multiplier with holdringoff enabled for the first lock
    // period.
    let cur = regs.pll;
    regs.pll = PllRegs {
        syspll0_bypass: false,
        syspll0_reset: false,
        syspll0_mult: p.multiplier,
        syspll0_holdringoff: true,
        ..cur
    };
    regs.log.push(RegWrite::Syspll0Ctl0);

    // Power the PLL up.
    let cur = regs.pll;
    regs.pll = PllRegs { pd_syspllldo: false, pd_syspllana: false, ..cur };
    regs.log.push(RegWrite::Pdruncfg0);

    // Both lock waits are sized against the worst-case CPU speed; each is
    // marked in the record where it elapses.
    let lock_time_div_2: u16 = regs.pll.syspll0locktimediv2;
    let ticks: u32 = WORST_CASE_TICKS_PER_US * (lock_time_div_2 as u32);
    regs.delays.push(ticks);
    regs.log.push(RegWrite::LockDelay);

    // Second lock period with holdringoff released.
    let cur = regs.pll;
    regs.pll = PllRegs { syspll0_holdringoff: false, ..cur };
    regs.log.push(RegWrite::Syspll0Ctl0);
    regs.delays.push(ticks);
    regs.log.push(RegWrite::LockDelay);
}

/// Only the oscillator and PLL zones, the write record and the delay record
/// may differ.
pub open spec fn pll_zone_only(pre: Registers, post: Registers) -> bool {
    &&& post.pfddiv == pre.pfddiv
    &&& post.sys == pre.sys
    &&& post.outdiv == pre.outdiv
    &&& post.flex == pre.flex
    &&& post.fclk1 == pre.fclk1
    &&& post.gates == pre.gates
    &&& post.rst == pre.rst
}

impl ClockOperator {
    /// Powers the main PLL down for a clean slate, then — when the
    /// configuration supplies PLL settings — validates the multiplier,
    /// resolves and selects the input source, fixes the fractional part of
    /// the multiplier to zero, programs the integer multiplier and walks
    /// the two-phase lock procedure: one calibrated wait with holdringoff
    /// enabled, then another with it released.
    ///
    /// Returns the PLL core output frequency (input × multiplier, exact)
    /// and the settings, or `None` when the PLL stays disabled.
    #[verifier::rlimit(100)]
    pub fn setup_main_pll(&mut self, regs: &mut Registers, sel: Option<MainPll>) -> (r: Result<
        Option<(u32, MainPll)>,
        ClockError,
    >)
        requires
            pll_mul_fits(old(self).clocks, old(self).config, sel),
        ensures
            final(self).config == old(self).config,
            pll_zone_only(*old(regs), *final(regs)),
            sel is None ==> {
                &&& r == Ok::<Option<(u32, MainPll)>, ClockError>(None)
                &&& final(self).clocks == old(self).clocks
                &&& final(regs).osc == old(regs).osc
                &&& final(regs).pll == (PllRegs {
                    pd_syspllldo: true,
                    pd_syspllana: true,
                    syspll0clksel: 0b111,
                    ..old(regs).pll
                })
                &&& final(regs).log@ == old(regs).log@.push(RegWrite::Pdruncfg0).push(
                    RegWrite::Syspll0Clksel,
                )
                &&& final(regs).delays@ == old(regs).delays@
            },
            sel matches Some(p) ==> (!(16 <= p.multiplier <= 22) ==> {
                &&& r == Err::<Option<(u32, MainPll)>, ClockError>(
                    ClockError::BadConfiguration {
                        reason: "main pll multiplier out of allowed range",
                    },
                )
                &&& final(self).clocks == old(self).clocks
                &&& final(regs).osc == old(regs).osc
                &&& final(regs).pll == (PllRegs {
                    pd_syspllldo: true,
                    pd_syspllana: true,
                    ..old(regs).pll
                })
                &&& final(regs).log@ == old(regs).log@.push(RegWrite::Pdruncfg0)
                &&& final(regs).delays@ == old(regs).delays@
            }),
            sel matches Some(p) ==> ((16 <= p.multiplier <= 22 && !pll_source_ok(
                old(self).clocks,
                old(self).config,
                p.clock_select,
            )) ==> {
                &&& r == Err::<Option<(u32, MainPll)>, ClockError>(pll_source_err(p.clock_select))
                &&& final(self).clocks == old(self).clocks
                &&& final(regs).pll == (PllRegs {
                    pd_syspllldo: true,
                    pd_syspllana: true,
                    ..old(regs).pll
                })
                &&& (if p.clock_select is _48_60MIrcDiv2 {
                    final(regs).osc == (OscRegs { ffroctl1_safe_mode: true, ..old(regs).osc })
                        && final(regs).log@ == old(regs).log@.push(RegWrite::Pdruncfg0).push(
                        RegWrite::Ffroctl1,
                    )
                } else {
                    final(regs).osc == old(regs).osc && final(regs).log@ == old(regs).log@.push(
                        RegWrite::Pdruncfg0,
                    )
                })
                &&& final(regs).delays@ == old(regs).delays@
            }),
            sel matches Some(p) ==> ((16 <= p.multiplier <= 22 && pll_source_ok(
                old(self).clocks,
                old(self).config,
                p.clock_select,
            )) ==> {
                let f = pll_source_freq(old(self).clocks, old(self).config, p.clock_select);
                let ticks = WORST_CASE_TICKS_PER_US * old(regs).pll.syspll0locktimediv2;
                &&& r == Ok::<Option<(u32, MainPll)>, ClockError>(
                    Some(((f * p.multiplier) as u32, p)),
                )
                &&& final(self).clocks == pll_source_clocks(
                    old(self).clocks,
                    old(self).config,
                    p.clock_select,
                )
                &&& final(regs).osc == pll_source_osc(
                    old(self).clocks,
                    old(self).config,
                    p.clock_select,
                    old(regs).osc,
                )
                &&& final(regs).pll == pll_programmed(old(regs).pll, p)
                &&& final(regs).log@ == pll_prog_log(
                    pll_source_log(
                        old(self).clocks,
                        p.clock_select,
                        old(regs).log@.push(RegWrite::Pdruncfg0),
                    ),
                )
                &&& final(regs).delays@ == old(regs).delays@.push(ticks as u32).push(ticks as u32)
            }),
    {
        // Clean slate: power the PLL's LDO and analog domains down first,
        // even when the PLL will stay disabled, so no stale state survives.
        let cur = regs.pll;
        regs.pll = PllRegs { pd_syspllldo: true, pd_syspllana: true, ..cur };
        regs.log.push(RegWrite::Pdruncfg0);

        let p = match sel {
            None => {
                let cur = regs.pll;
                regs.pll = PllRegs { syspll0clksel: 0b111, ..cur };
                regs.log.push(RegWrite::Syspll0Clksel);
                return Ok(None);
            },
            Some(p) => p,
        };

        if !(16 <= p.multiplier && p.multiplier <= 22) {
            return Err(ClockError::bad_config("main pll multiplier out of allowed range"));
        }

        let pll_input_freq: u32 = match p.clock_select {
            MainPllClockSelect::_16mIrc => self.ensure_16mhz_irc_active(regs)?,
            MainPllClockSelect::ClkIn => match self.clocks.clk_in {
                Some(f) => f,
                None => {
                    return Err(ClockError::prog_err("We should have set clk_in by now"));
                },
            },
            MainPllClockSelect::_48_60MIrcDiv2 => self.ensure_48_60mhz_irc_active(regs)?,
        };

        program_pll(regs, p);

        // The fractional part is pinned to zero, so the core output is
        // exactly the input times the integer multiplier.
        proof {
            let f = pll_input_freq as int;
            let m = p.multiplier as int;
            assert(f * m <= u32::MAX) by (nonlinear_arith)
                requires
                    f * m * 18 <= u32::MAX * 12,
                    f >= 0,
                    m >= 0,
            ;
        }
        Ok(Some((pll_input_freq * (p.multiplier as u32), p)))
    }
}

/// The PFD frequency of a branch: the PLL core output tapped at 18/div,
/// truncated (the fixed-point approximation the hardware applies).
pub open spec fn spec_pfd_freq(core: u32, d: u8) -> int {
    (core * 18) / (d as int)
}

/// The recorded frequency of a PFD branch: the PFD frequency divided by
/// (output divider − 1).
pub open spec fn spec_branch_freq(core: u32, d: u8, divider: u16) -> u32 {
    (spec_pfd_freq(core, d) / (divider - 1)) as u32
}

/// Everything but the PLL zone, the PFD output dividers and the write
/// record is untouched.
pub open spec fn pfd_zone_only(pre: Registers, post: Registers) -> bool {
    &&& post.osc == pre.osc
    &&& post.sys == pre.sys
    &&& post.outdiv == pre.outdiv
    &&& post.flex == pre.flex
    &&& post.fclk1 == pre.fclk1
    &&& post.gates == pre.gates
    &&& post.rst == pre.rst
    &&& post.delays@ == pre.delays@
}

impl ClockOperator {
    /// Writes the registry entry of the given PLL branch.
    fn set_branch(&mut self, w: PllPfd, v: Option<u32>)
        ensures
            final(self).config == old(self).config,
            final(self).clocks == branch_clocks(old(self).clocks, w, v),
    {
        match w {
            PllPfd::Pfd0 => self.clocks.main_pll_clk = v,
            PllPfd::Pfd1 => self.clocks.dsp_pll_clk = v,
            PllPfd::Pfd2 => self.clocks.aux0_pll_clk = v,
            PllPfd::Pfd3 => self.clocks.aux1_pll_clk = v,
        }
    }

    /// Halts the output divider of the given PLL branch, gates its PFD and
    /// clears its registry entry: the power-saving path when the branch is
    /// not requested.
    pub fn disable_pll_pfd(&mut self, regs: &mut Registers, w: PllPfd)
        ensures
            final(self).config == old(self).config,
            final(self).clocks == branch_clocks(old(self).clocks, w, None),
            final(regs).pfddiv == pfddiv_halted(old(regs).pfddiv, w),
            final(regs).pll == pll_pfd_gated(old(regs).pll, w),
            final(regs).log@ == old(regs).log@.push(xdiv_write(w)).push(RegWrite::Syspll0Pfd),
            pfd_zone_only(*old(regs), *final(regs)),
    {
        xdiv_halt(regs, w);
        pfd_gate_close(regs, w);
        self.set_branch(w, None);
    }

    /// Sets one fractional divider branch of the main PLL up: validates the
    /// PFD divider, programs it and waits for the ready flag, computes the
    /// PFD frequency (core × 18/div, truncated), validates the output
    /// clock divider, programs it zero-based after a halt-and-reset, and
    /// records the branch frequency.
    ///
    /// The recorded frequency divides by (divider − 1), matching the
    /// zero-based register encoding rather than the divider itself; a
    /// divider of 1 is therefore excluded.
    #[verifier::rlimit(100)]
    pub fn setup_pll_pfd(
        &mut self,
        regs: &mut Registers,
        main_pll: &MainPll,
        pll_output_freq: u32,
        w: PllPfd,
    ) -> (r: Result<(), ClockError>)
        requires
            pll_output_freq * 18 <= u32::MAX * 12,
            !(main_pll.spec_pfd_div(w) matches Some(d) && 12 <= d <= 35
                && main_pll.spec_out_divider(w) == 1),
        ensures
            final(self).config == old(self).config,
            pfd_zone_only(*old(regs), *final(regs)),
            main_pll.spec_pfd_div(w) is None ==> {
                &&& r == Ok::<(), ClockError>(())
                &&& final(self).clocks == branch_clocks(old(self).clocks, w, None)
                &&& final(regs).pfddiv == pfddiv_halted(old(regs).pfddiv, w)
                &&& final(regs).pll == pll_pfd_gated(old(regs).pll, w)
                &&& final(regs).log@ == old(regs).log@.push(xdiv_write(w)).push(
                    RegWrite::Syspll0Pfd,
                )
            },
            main_pll.spec_pfd_div(w) matches Some(d) ==> (!(12 <= d <= 35) ==> {
                &&& r == Err::<(), ClockError>(
                    ClockError::BadConfiguration { reason: spec_pfd_div_msg(w) },
                )
                &&& *final(self) == *old(self)
                &&& *final(regs) == *old(regs)
            }),
            main_pll.spec_pfd_div(w) matches Some(d) ==> ((12 <= d <= 35 && !(1
                <= main_pll.spec_out_divider(w) <= 256)) ==> {
                &&& r == Err::<(), ClockError>(
                    ClockError::BadConfiguration { reason: spec_out_div_msg(w) },
                )
                &&& final(self).clocks == old(self).clocks
                &&& final(regs).pll == pll_pfd_programmed(old(regs).pll, w, d)
                &&& final(regs).pfddiv == old(regs).pfddiv
                &&& final(regs).log@ == old(regs).log@.push(RegWrite::Syspll0Pfd)
            }),
            main_pll.spec_pfd_div(w) matches Some(d) ==> ((12 <= d <= 35 && 1
                <= main_pll.spec_out_divider(w) <= 256) ==> {
                let divider = main_pll.spec_out_divider(w);
                &&& r == Ok::<(), ClockError>(())
                &&& final(self).clocks == branch_clocks(
                    old(self).clocks,
                    w,
                    Some(spec_branch_freq(pll_output_freq, d, divider)),
                )
                &&& final(regs).pll == pll_pfd_programmed(old(regs).pll, w, d)
                &&& final(regs).pfddiv == pfddiv_programmed(
                    pfddiv_halted(old(regs).pfddiv, w),
                    w,
                    (divider - 1) as u8,
                )
                &&& final(regs).log@ == old(regs).log@.push(RegWrite::Syspll0Pfd).push(
                    xdiv_write(w),
                ).push(xdiv_write(w))
            }),
    {
        let div: u8 = match main_pll.pfd_div(w) {
            None => {
                self.disable_pll_pfd(regs, w);
                return Ok(());
            },
            Some(d) => d,
        };
        if !(12 <= div && div <= 35) {
            return Err(ClockError::bad_config(pfd_div_msg(w)));
        }

        // Program the divider, open its clock path, and wait for the hardware
        // ready flag (assumed to arrive).
        pfd_program(regs, w, div);

        proof {
            let x = pll_output_freq as int * 18;
            vstd::arithmetic::div_mod::lemma_div_is_ordered_by_denominator(x, 12, div as int);
            vstd::arithmetic::div_mod::lemma_div_is_ordered(x, u32::MAX as int * 12, 12);
            vstd::arithmetic::div_mod::lemma_div_multiples_vanish(u32::MAX as int, 12);
        }
        let pfd_freq: u32 = (((pll_output_freq as u64) * 18) / (div as u64)) as u32;

        let divider: u16 = main_pll.out_divider(w);
        if !(1 <= divider && divider <= 256) {
            return Err(ClockError::bad_config(out_div_msg(w)));
        }

        // Halt and reset the output divider, then program it zero-based
        // and wait for the request flag to clear (assumed to happen).
        xdiv_halt(regs, w);
        xdiv_program(regs, w, (divider - 1) as u8);

        let branch: u32 = pfd_freq / ((divider - 1) as u32);
        self.set_branch(w, Some(branch));
        Ok(())
    }
}

impl ClockOperator {
    /// Makes the 16 MHz internal oscillator active, or confirms it is.
    pub fn ensure_16mhz_irc_active(&mut self, regs: &mut Registers) -> (r: Result<
        u32,
        ClockError,
    >)
        ensures
            final(self).config == old(self).config,
            osc_zone_only(*old(regs), *final(regs)),
            can_sfro(old(self).clocks, old(self).config) ==> {
                &&& r == Ok::<u32, ClockError>(16_000_000)
                &&& final(self).clocks == sfro_clocks(old(self).clocks)
                &&& final(regs).osc == sfro_osc(old(self).clocks, old(regs).osc)
                &&& final(regs).log@ == sfro_log(old(self).clocks, old(regs).log@)
            },
            !can_sfro(old(self).clocks, old(self).config) ==> {
                &&& r == Err::<u32, ClockError>(
                    ClockError::BadConfiguration { reason: "16m_irc not enabled but required" },
                )
                &&& *final(self) == *old(self)
                &&& *final(regs) == *old(regs)
            },
    {
        if !self.clocks._16m_irc.enabled {
            if !self.config.enable_16m_irc {
                return Err(ClockError::bad_config("16m_irc not enabled but required"));
            }
            regs.osc.pd_sfro = false;
            regs.log.push(RegWrite::Pdruncfg0);
            self.clocks._16m_irc.enabled = true;
        }
        Ok(self.clocks._16m_irc.frequency())
    }

    /// Makes the 1 MHz low-power oscillator active, or confirms it is.
    pub fn ensure_1mhz_lposc_active(&mut self, regs: &mut Registers) -> (r: Result<
        u32,
        ClockError,
    >)
        ensures
            final(self).config == old(self).config,
            osc_zone_only(*old(regs), *final(regs)),
            can_lposc(old(self).clocks, old(self).config) ==> {
                &&& r == Ok::<u32, ClockError>(1_000_000)
                &&& final(self).clocks == lposc_clocks(old(self).clocks)
                &&& final(regs).osc == lposc_osc(old(self).clocks, old(regs).osc)
                &&& final(regs).log@ == lposc_log(old(self).clocks, old(regs).log@)
            },
            !can_lposc(old(self).clocks, old(self).config) ==> {
                &&& r == Err::<u32, ClockError>(
                    ClockError::BadConfiguration { reason: "1m_lposc disabled but required" },
                )
                &&& *final(self) == *old(self)
                &&& *final(regs) == *old(regs)
            },
    {
        if !self.clocks._1m_lposc.enabled {
            if !self.config.enable_1m_lposc {
                return Err(ClockError::bad_config("1m_lposc disabled but required"));
            }
            regs.osc.pd_lposc = false;
            regs.log.push(RegWrite::Pdruncfg0);
            self.clocks._1m_lposc.enabled = true;
        }
        Ok(self.clocks._1m_lposc.frequency())
    }

    /// Makes the 32.768 kHz RTC oscillator active, or confirms it is.
    pub fn ensure_32kclk_active(&mut self, regs: &mut Registers) -> (r: Result<u32, ClockError>)
        ensures
            final(self).config == old(self).config,
            osc_zone_only(*old(regs), *final(regs)),
            can_rtc32k(old(self).clocks, old(self).config) ==> {
                &&& r == Ok::<u32, ClockError>(32_768)
                &&& final(self).clocks == rtc32k_clocks(old(self).clocks)
                &&& final(regs).osc == rtc32k_osc(old(self).clocks, old(regs).osc)
                &&& final(regs).log@ == rtc32k_log(old(self).clocks, old(regs).log@)
            },
            !can_rtc32k(old(self).clocks, old(self).config) ==> {
                &&& r == Err::<u32, ClockError>(
                    ClockError::BadConfiguration { reason: "32k_clk required but not enabled" },
                )
                &&& *final(self) == *old(self)
                &&& *final(regs) == *old(regs)
            },
    {
        if !self.clocks._32k_clk.enabled {
            if !self.config.enable_32k_clk {
                return Err(ClockError::bad_config("32k_clk required but not enabled"));
            }
            regs.osc.osc32khzctl0_ena = true;
            regs.log.push(RegWrite::Osc32khzctl0);
            self.clocks._32k_clk.enabled = true;
        }
        Ok(self.clocks._32k_clk.frequency())
    }

    /// Makes the 48/60 MHz internal oscillator active at the configured trim
    /// range, or confirms it is active. When the node is off and the
    /// configuration disables it, the oscillator is left in safe update mode
    /// by the write that precedes the trim-range decision.
    pub fn ensure_48_60mhz_irc_active(&mut self, regs: &mut Registers) -> (r: Result<
        u32,
        ClockError,
    >)
        ensures
            final(self).config == old(self).config,
            osc_zone_only(*old(regs), *final(regs)),
            can_ffro(old(self).clocks, old(self).config) ==> {
                &&& r == Ok::<u32, ClockError>(ffro_freq(old(self).clocks, old(self).config))
                &&& final(self).clocks == ffro_clocks(old(self).clocks, old(self).config)
                &&& final(regs).osc == ffro_osc(old(self).clocks, old(self).config, old(regs).osc)
                &&& final(regs).log@ == ffro_log(old(self).clocks, old(regs).log@)
            },
            !can_ffro(old(self).clocks, old(self).config) ==> {
                &&& r == Err::<u32, ClockError>(
                    ClockError::BadConfiguration { reason: "48/60m_irc required but disabled" },
                )
                &&& *final(self) == *old(self)
                &&& final(regs).osc == (OscRegs { ffroctl1_safe_mode: true, ..old(regs).osc })
                &&& final(regs).log@ == old(regs).log@.push(RegWrite::Ffroctl1)
            },
    {
        if let Some(freq) = self.clocks._48_60m_irc {
            Ok(freq)
        } else {
            // Switch the oscillator to safe update mode before touching the
            // trim range.
            regs.osc.ffroctl1_safe_mode = true;
            regs.log.push(RegWrite::Ffroctl1);
            let selected: (TrimRange, u32) = match self.config._48_60m_irc_select {
                _48_60mIrcSelect::Off => {
                    return Err(ClockError::bad_config("48/60m_irc required but disabled"));
                },
                _48_60mIrcSelect::Mhz48 => (TrimRange::Ffro48mhz, 48_000_000),
                _48_60mIrcSelect::Mhz60 => (TrimRange::Ffro60mhz, 60_000_000),
            };
            regs.osc.ffroctl0_trim = selected.0;
            regs.log.push(RegWrite::Ffroctl0);
            regs.osc.ffroctl1_safe_mode = false;
            regs.log.push(RegWrite::Ffroctl1);
            regs.osc.pd_ffro = false;
            regs.log.push(RegWrite::Pdruncfg0);
            self.clocks._48_60m_irc = self.config._48_60m_irc_select.freq();
            Ok(selected.1)
        }
    }

    /// Frequency of the main PLL branch (`main_pll_clk`), if active.
    pub fn ensure_main_pll_clk_active(&self) -> (r: Result<u32, ClockError>)
        ensures
            r == match self.clocks.main_pll_clk {
                Some(f) => Ok::<u32, ClockError>(f),
                None => Err::<u32, ClockError>(
                    ClockError::BadConfiguration { reason: "main_pll_clk required but disabled" },
                ),
            },
    {
        match self.clocks.main_pll_clk {
            Some(f) => Ok(f),
            None => Err(ClockError::bad_config("main_pll_clk required but disabled")),
        }
    }

    /// Frequency of the external clock input, if configured.
    pub fn ensure_clk_in_active(&self) -> (r: Result<u32, ClockError>)
        ensures
            r == match self.clocks.clk_in {
                Some(f) => Ok::<u32, ClockError>(f),
                None => Err::<u32, ClockError>(
                    ClockError::BadConfiguration { reason: "clk_in required but not configured" },
                ),
            },
    {
        match self.clocks.clk_in {
            Some(f) => Ok(f),
            None => Err(ClockError::bad_config("clk_in required but not configured")),
        }
    }

    /// Routes the external clock input: either the crystal oscillator on
    /// the XTAL pads, or a clock fed in on a pin whose function is switched
    /// over. The input frequency is recorded as given.
    pub fn setup_clock_in(&mut self, regs: &mut Registers, sel: ClkInSelect)
        ensures
            final(self).config == old(self).config,
            final(self).clocks == (Clocks {
                clk_in: Some(sel.spec_freq()),
                ..old(self).clocks
            }),
            osc_zone_only(*old(regs), *final(regs)),
            sel matches ClkInSelect::Xtal { bypass, low_power, .. } ==> {
                &&& final(regs).osc == (OscRegs {
                    sysoscctl0_bypass: bypass,
                    sysoscctl0_lp: low_power,
                    ..old(regs).osc
                })
                &&& final(regs).log@ == old(regs).log@.push(RegWrite::Sysoscctl0)
            },
            !(sel matches ClkInSelect::Xtal { .. }) ==> {
                &&& final(regs).osc == old(regs).osc
                &&& final(regs).log@ == old(regs).log@.push(RegWrite::Iopctl)
            },
    {
        match sel {
            ClkInSelect::Xtal { freq, bypass, low_power } => {
                regs.osc.sysoscctl0_bypass = bypass;
                regs.osc.sysoscctl0_lp = low_power;
                regs.log.push(RegWrite::Sysoscctl0);
                self.clocks.clk_in = Some(freq);
            },
            ClkInSelect::ClkIn0_25 { freq } => {
                regs.log.push(RegWrite::Iopctl);
                self.clocks.clk_in = Some(freq);
            },
            ClkInSelect::ClkIn2_15 { freq } => {
                regs.log.push(RegWrite::Iopctl);
                self.clocks.clk_in = Some(freq);
            },
            ClkInSelect::ClkIn2_30 { freq } => {
                regs.log.push(RegWrite::Iopctl);
                self.clocks.clk_in = Some(freq);
            },
        }
    }
}

// --- Main clock selection.

/// The configured main-clock source can be resolved. The clock-in and
/// main-PLL selections are not wired up in this revision and always fail.
pub open spec fn main_sel_can(c: Clocks, cfg: ClockConfig) -> bool {
    match cfg.main_clock_select {
        MainClockSelect::_48_60MIrcDiv4 => can_ffro(c, cfg),
        MainClockSelect::ClkIn => false,
        MainClockSelect::_1mLposc => can_lposc(c, cfg),
        MainClockSelect::_48_60MIrc => can_ffro(c, cfg),
        MainClockSelect::_16mIrc => can_sfro(c, cfg),
        MainClockSelect::MainPllClk => false,
        MainClockSelect::_32kClk => can_rtc32k(c, cfg),
    }
}

/// The frequency the configured main-clock source delivers.
pub open spec fn main_sel_freq(c: Clocks, cfg: ClockConfig) -> u32 {
    match cfg.main_clock_select {
        MainClockSelect::_48_60MIrcDiv4 => (ffro_freq(c, cfg) as int / 4) as u32,
        MainClockSelect::ClkIn => 0,
        MainClockSelect::_1mLposc => 1_000_000,
        MainClockSelect::_48_60MIrc => ffro_freq(c, cfg),
        MainClockSelect::_16mIrc => 16_000_000,
        MainClockSelect::MainPllClk => 0,
        MainClockSelect::_32kClk => 32_768,
    }
}

/// Registry after resolving the main-clock source.
pub open spec fn main_sel_clocks(c: Clocks, cfg: ClockConfig) -> Clocks {
    match cfg.main_clock_select {
        MainClockSelect::_48_60MIrcDiv4 => ffro_clocks(c, cfg),
        MainClockSelect::ClkIn => c,
        MainClockSelect::_1mLposc => lposc_clocks(c),
        MainClockSelect::_48_60MIrc => ffro_clocks(c, cfg),
        MainClockSelect::_16mIrc => sfro_clocks(c),
        MainClockSelect::MainPllClk => c,
        MainClockSelect::_32kClk => rtc32k_clocks(c),
    }
}

/// Oscillator zone after resolving the main-clock source.
pub open spec fn main_sel_osc(c: Clocks, cfg: ClockConfig, r: OscRegs) -> OscRegs {
    match cfg.main_clock_select {
        MainClockSelect::_48_60MIrcDiv4 => ffro_osc(c, cfg, r),
        MainClockSelect::ClkIn => r,
        MainClockSelect::_1mLposc => lposc_osc(c, r),
        MainClockSelect::_48_60MIrc => ffro_osc(c, cfg, r),
        MainClockSelect::_16mIrc => sfro_osc(c, r),
        MainClockSelect::MainPllClk => r,
        MainClockSelect::_32kClk => rtc32k_osc(c, r),
    }
}

/// Write record after resolving the main-clock source.
pub open spec fn main_sel_log(c: Clocks, cfg: ClockConfig, l: Seq<RegWrite>) -> Seq<RegWrite> {
    match cfg.main_clock_select {
        MainClockSelect::_48_60MIrcDiv4 => ffro_log(c, l),
        MainClockSelect::ClkIn => l,
        MainClockSelect::_1mLposc => lposc_log(c, l),
        MainClockSelect::_48_60MIrc => ffro_log(c, l),
        MainClockSelect::_16mIrc => sfro_log(c, l),
        MainClockSelect::MainPllClk => l,
        MainClockSelect::_32kClk => rtc32k_log(c, l),
    }
}

/// The error raised when the main-clock source cannot be resolved.
pub open spec fn main_sel_err(cfg: ClockConfig) -> ClockError {
    match cfg.main_clock_select {
        MainClockSelect::_48_60MIrcDiv4 => ClockError::BadConfiguration {
            reason: "48/60m_irc required but disabled",
        },
        MainClockSelect::ClkIn => ClockError::BadConfiguration {
            reason: "Main clock uses clk_in, but clk_in is not active",
        },
        MainClockSelect::_1mLposc => ClockError::BadConfiguration {
            reason: "1m_lposc disabled but required",
        },
        MainClockSelect::_48_60MIrc => ClockError::BadConfiguration {
            reason: "48/60m_irc required but disabled",
        },
        MainClockSelect::_16mIrc => ClockError::BadConfiguration {
            reason: "16m_irc not enabled but required",
        },
        MainClockSelect::MainPllClk => ClockError::BadConfiguration {
            reason: "Main clock uses main_pll_clk, but main_pll_clk is not active",
        },
        MainClockSelect::_32kClk => ClockError::BadConfiguration {
            reason: "32k_clk required but not enabled",
        },
    }
}

/// Oscillator zone after a failed main-clock resolution: only a failed
/// 48/60 MHz activation leaves a trace (safe update mode).
pub open spec fn main_sel_fail_osc(cfg: ClockConfig, r: OscRegs) -> OscRegs {
    match cfg.main_clock_select {
        MainClockSelect::_48_60MIrcDiv4 => OscRegs { ffroctl1_safe_mode: true, ..r },
        MainClockSelect::_48_60MIrc => OscRegs { ffroctl1_safe_mode: true, ..r },
        _ => r,
    }
}

/// Write record after a failed main-clock resolution.
pub open spec fn main_sel_fail_log(cfg: ClockConfig, l: Seq<RegWrite>) -> Seq<RegWrite> {
    match cfg.main_clock_select {
        MainClockSelect::_48_60MIrcDiv4 => l.push(RegWrite::Ffroctl1),
        MainClockSelect::_48_60MIrc => l.push(RegWrite::Ffroctl1),
        _ => l,
    }
}

/// Only the oscillator zone, the main-clock zone and the write record may
/// differ.
pub open spec fn mainclk_zone_only(pre: Registers, post: Registers) -> bool {
    &&& post.pll == pre.pll
    &&& post.pfddiv == pre.pfddiv
    &&& post.outdiv == pre.outdiv
    &&& post.flex == pre.flex
    &&& post.fclk1 == pre.fclk1
    &&& post.gates == pre.gates
    &&& post.rst == pre.rst
    &&& post.delays@ == pre.delays@
}

/// Only the main-clock zone and the write record may differ.
pub open spec fn sys_zone_only(pre: Registers, post: Registers) -> bool {
    &&& post.osc == pre.osc
    &&& mainclk_zone_only(pre, post)
}

/// Only the CLKCTL1 divider zone and the write record may differ.
pub open spec fn out_zone_only(pre: Registers, post: Registers) -> bool {
    &&& post.osc == pre.osc
    &&& post.pll == pre.pll
    &&& post.pfddiv == pre.pfddiv
    &&& post.sys == pre.sys
    &&& post.flex == pre.flex
    &&& post.fclk1 == pre.fclk1
    &&& post.gates == pre.gates
    &&& post.rst == pre.rst
    &&& post.delays@ == pre.delays@
}

/// Only the oscillator zone, the CLKCTL1 divider zone and the write record
/// may differ.
pub open spec fn clkout_zone_only(pre: Registers, post: Registers) -> bool {
    &&& post.pll == pre.pll
    &&& post.pfddiv == pre.pfddiv
    &&& post.sys == pre.sys
    &&& post.flex == pre.flex
    &&& post.fclk1 == pre.fclk1
    &&& post.gates == pre.gates
    &&& post.rst == pre.rst
    &&& post.delays@ == pre.delays@
}

impl ClockOperator {
    /// Selects the main clock: resolves the configured source (activating
    /// it if the configuration allows), records its frequency as the main
    /// clock — always defined from here on — and programs the two-stage
    /// select.
    #[verifier::rlimit(100)]
    pub fn setup_main_clock(&mut self, regs: &mut Registers) -> (r: Result<(), ClockError>)
        ensures
            final(self).config == old(self).config,
            mainclk_zone_only(*old(regs), *final(regs)),
            main_sel_can(old(self).clocks, old(self).config) ==> {
                let b = old(self).config.main_clock_select.spec_bits();
                &&& r == Ok::<(), ClockError>(())
                &&& final(self).clocks == (Clocks {
                    main_clk: main_sel_freq(old(self).clocks, old(self).config),
                    ..main_sel_clocks(old(self).clocks, old(self).config)
                })
                &&& final(regs).osc == main_sel_osc(old(self).clocks, old(self).config, old(regs).osc)
                &&& final(regs).sys == (SysRegs {
                    mainclksela: (b & 0b1100) >> 2,
                    mainclkselb: b & 0b0011,
                    ..old(regs).sys
                })
                &&& final(regs).log@ == main_sel_log(
                    old(self).clocks,
                    old(self).config,
                    old(regs).log@,
                ).push(RegWrite::Mainclksela).push(RegWrite::Mainclkselb)
            },
            !main_sel_can(old(self).clocks, old(self).config) ==> {
                &&& r == Err::<(), ClockError>(main_sel_err(old(self).config))
                &&& final(self).clocks == old(self).clocks
                &&& final(regs).osc == main_sel_fail_osc(old(self).config, old(regs).osc)
                &&& final(regs).sys == old(regs).sys
                &&& final(regs).log@ == main_sel_fail_log(old(self).config, old(regs).log@)
            },
    {
        let freq: u32 = match self.config.main_clock_select {
            MainClockSelect::_48_60MIrcDiv4 => self.ensure_48_60mhz_irc_active(regs)? / 4,
            MainClockSelect::ClkIn => {
                return Err(
                    ClockError::bad_config("Main clock uses clk_in, but clk_in is not active"),
                );
            },
            MainClockSelect::_1mLposc => self.ensure_1mhz_lposc_active(regs)?,
            MainClockSelect::_48_60MIrc => self.ensure_48_60mhz_irc_active(regs)?,
            MainClockSelect::_16mIrc => self.ensure_16mhz_irc_active(regs)?,
            MainClockSelect::MainPllClk => {
                return Err(
                    ClockError::bad_config(
                        "Main clock uses main_pll_clk, but main_pll_clk is not active",
                    ),
                );
            },
            MainClockSelect::_32kClk => self.ensure_32kclk_active(regs)?,
        };
        self.clocks.main_clk = freq;

        // Program the two-stage select.
        let b: u8 = self.config.main_clock_select.bits();
        let cur = regs.sys;
        regs.sys = SysRegs { mainclksela: (b & 0b1100) >> 2, ..cur };
        regs.log.push(RegWrite::Mainclksela);
        let cur = regs.sys;
        regs.sys = SysRegs { mainclkselb: b & 0b0011, ..cur };
        regs.log.push(RegWrite::Mainclkselb);
        Ok(())
    }

    /// Derives the CPU/AHB clock from the main clock. The divider register
    /// is only rewritten when its current value differs from the
    /// configuration; reprogramming it while the main clock is unresolved
    /// is a programming error, since it indicates a bring-up ordering bug.
    pub fn setup_system_clock(&mut self, regs: &mut Registers) -> (r: Result<(), ClockError>)
        ensures
            final(self).config == old(self).config,
            sys_zone_only(*old(regs), *final(regs)),
            old(regs).sys.syscpuahbclkdiv_div == old(self).config.sys_cpu_ahb_div ==> {
                &&& r == Ok::<(), ClockError>(())
                &&& final(self).clocks == (Clocks {
                    sys_cpu_ahb_clk: Some(
                        (old(self).clocks.main_clk as int / (old(self).config.sys_cpu_ahb_div
                            + 1)) as u32,
                    ),
                    ..old(self).clocks
                })
                &&& *final(regs) == *old(regs)
            },
            old(regs).sys.syscpuahbclkdiv_div != old(self).config.sys_cpu_ahb_div && old(
                self,
            ).clocks.main_clk == 0 ==> {
                &&& r == Err::<(), ClockError>(
                    ClockError::Programming { reason: "main_clk not configured" },
                )
                &&& *final(self) == *old(self)
                &&& *final(regs) == *old(regs)
            },
            old(regs).sys.syscpuahbclkdiv_div != old(self).config.sys_cpu_ahb_div && old(
                self,
            ).clocks.main_clk != 0 ==> {
                &&& r == Ok::<(), ClockError>(())
                &&& final(self).clocks == (Clocks {
                    sys_cpu_ahb_clk: Some(
                        (old(self).clocks.main_clk as int / (old(self).config.sys_cpu_ahb_div
                            + 1)) as u32,
                    ),
                    ..old(self).clocks
                })
                &&& final(regs).sys == (SysRegs {
                    syscpuahbclkdiv_div: old(self).config.sys_cpu_ahb_div,
                    ..old(regs).sys
                })
                &&& final(regs).log@ == old(regs).log@.push(RegWrite::Syscpuahbclkdiv)
            },
    {
        let current_div: u8 = regs.sys.syscpuahbclkdiv_div;
        if current_div != self.config.sys_cpu_ahb_div {
            // The clock being divided must be running for the request flag
            // to clear.
            if self.clocks.main_clk == 0 {
                return Err(ClockError::prog_err("main_clk not configured"));
            }
            let cur = regs.sys;
            regs.sys = SysRegs { syscpuahbclkdiv_div: self.config.sys_cpu_ahb_div, ..cur };
            regs.log.push(RegWrite::Syscpuahbclkdiv);
        }
        self.clocks.sys_cpu_ahb_clk = Some(
            self.clocks.main_clk / (self.config.sys_cpu_ahb_div as u32 + 1),
        );
        Ok(())
    }

    /// Derives the FRG PLL clock from `main_pll_clk` through the FRG PLL
    /// divider, when the configuration asks for it. The divider register is
    /// only rewritten when its current value differs.
    pub fn setup_frg_pll_div(&mut self, regs: &mut Registers) -> (r: Result<(), ClockError>)
        ensures
            final(self).config == old(self).config,
            out_zone_only(*old(regs), *final(regs)),
            old(self).config.frg_clk_pll_div is None ==> {
                &&& r == Ok::<(), ClockError>(())
                &&& *final(self) == *old(self)
                &&& *final(regs) == *old(regs)
            },
            old(self).config.frg_clk_pll_div matches Some(d) ==> (old(
                self,
            ).clocks.main_pll_clk is None ==> {
                &&& r == Err::<(), ClockError>(
                    ClockError::BadConfiguration { reason: "main_pll_clk required but disabled" },
                )
                &&& *final(self) == *old(self)
                &&& *final(regs) == *old(regs)
            }),
            old(self).config.frg_clk_pll_div matches Some(d) ==> (old(
                self,
            ).clocks.main_pll_clk matches Some(f) ==> {
                &&& r == Ok::<(), ClockError>(())
                &&& final(self).clocks == (Clocks {
                    frg_pll_clk: Some((f as int / (d + 1)) as u32),
                    ..old(self).clocks
                })
                &&& (if old(regs).outdiv.frgpllclkdiv_div == d {
                    final(regs).outdiv == old(regs).outdiv && final(regs).log@ == old(regs).log@
                } else {
                    final(regs).outdiv == (OutRegs { frgpllclkdiv_div: d, ..old(regs).outdiv })
                        && final(regs).log@ == old(regs).log@.push(RegWrite::Frgpllclkdiv)
                })
            }),
    {
        let div: u8 = match self.config.frg_clk_pll_div {
            None => {
                return Ok(());
            },
            Some(d) => d,
        };
        let pll_freq: u32 = self.ensure_main_pll_clk_active()?;
        if regs.outdiv.frgpllclkdiv_div != div {
            let cur = regs.outdiv;
            regs.outdiv = OutRegs { frgpllclkdiv_div: div, ..cur };
            regs.log.push(RegWrite::Frgpllclkdiv);
        }
        self.clocks.frg_pll_clk = Some(pll_freq / (div as u32 + 1));
        Ok(())
    }

    /// Selects the 32 kHz wake clock: off, the RTC oscillator, or the 1 MHz
    /// oscillator divided by 32 (which is 31250 Hz, not quite 32768). The
    /// select register is written in every case; a zero frequency is
    /// recorded as an absent entry.
    pub fn setup_32k_wake_clk(&mut self, regs: &mut Registers) -> (r: Result<u32, ClockError>)
        ensures
            final(self).config == old(self).config,
            mainclk_zone_only(*old(regs), *final(regs)),
            old(self).config._32k_wake_clk_select is Off ==> {
                &&& r == Ok::<u32, ClockError>(0)
                &&& final(self).clocks == (Clocks { _32k_wake_clk: None, ..old(self).clocks })
                &&& final(regs).osc == old(regs).osc
                &&& final(regs).sys == (SysRegs { wakeclk32khzsel: 0b111, ..old(regs).sys })
                &&& final(regs).log@ == old(regs).log@.push(RegWrite::Wakeclk32khzsel)
            },
            old(self).config._32k_wake_clk_select is _32kClk ==> (if can_rtc32k(
                old(self).clocks,
                old(self).config,
            ) {
                &&& r == Ok::<u32, ClockError>(32_768)
                &&& final(self).clocks == (Clocks {
                    _32k_wake_clk: Some(32_768),
                    ..rtc32k_clocks(old(self).clocks)
                })
                &&& final(regs).osc == rtc32k_osc(old(self).clocks, old(regs).osc)
                &&& final(regs).sys == (SysRegs { wakeclk32khzsel: 0b000, ..old(regs).sys })
                &&& final(regs).log@ == rtc32k_log(old(self).clocks, old(regs).log@).push(
                    RegWrite::Wakeclk32khzsel,
                )
            } else {
                &&& r == Err::<u32, ClockError>(
                    ClockError::BadConfiguration { reason: "32k_clk required but not enabled" },
                )
                &&& *final(self) == *old(self)
                &&& *final(regs) == *old(regs)
            }),
            old(self).config._32k_wake_clk_select is Lp32k ==> (if can_lposc(
                old(self).clocks,
                old(self).config,
            ) {
                &&& r == Ok::<u32, ClockError>(31_250)
                &&& final(self).clocks == (Clocks {
                    _32k_wake_clk: Some(31_250),
                    ..lposc_clocks(old(self).clocks)
                })
                &&& final(regs).osc == lposc_osc(old(self).clocks, old(regs).osc)
                &&& final(regs).sys == (SysRegs { wakeclk32khzsel: 0b001, ..old(regs).sys })
                &&& final(regs).log@ == lposc_log(old(self).clocks, old(regs).log@).push(
                    RegWrite::Wakeclk32khzsel,
                )
            } else {
                &&& r == Err::<u32, ClockError>(
                    ClockError::BadConfiguration { reason: "1m_lposc disabled but required" },
                )
                &&& *final(self) == *old(self)
                &&& *final(regs) == *old(regs)
            }),
    {
        let freq: u32 = match self.config._32k_wake_clk_select {
            _32kWakeClkSelect::Off => 0,
            _32kWakeClkSelect::_32kClk => self.ensure_32kclk_active(regs)?,
            _32kWakeClkSelect::Lp32k => self.ensure_1mhz_lposc_active(regs)? / 32,
        };
        let b: u8 = self.config._32k_wake_clk_select.bits();
        let cur = regs.sys;
        regs.sys = SysRegs { wakeclk32khzsel: b, ..cur };
        regs.log.push(RegWrite::Wakeclk32khzsel);
        if freq != 0 {
            self.clocks._32k_wake_clk = Some(freq);
        } else {
            self.clocks._32k_wake_clk = None;
        }
        Ok(freq)
    }
}

// --- CLKOUT selection.

/// The source uses the stage-0 multiplexer (stage 1 then forwards it).
pub open spec fn clkout_uses_sel0(s: ClockOutSource) -> bool {
    match s {
        ClockOutSource::M16Irc => true,
        ClockOutSource::ClkIn => true,
        ClockOutSource::M1Lposc => true,
        ClockOutSource::M4860Irc => true,
        ClockOutSource::MainClk => true,
        _ => false,
    }
}

/// Stage-0 select encoding of the source.
pub open spec fn clkout_sel0_bits(s: ClockOutSource) -> u8 {
    match s {
        ClockOutSource::M16Irc => 0b000,
        ClockOutSource::ClkIn => 0b001,
        ClockOutSource::M1Lposc => 0b010,
        ClockOutSource::M4860Irc => 0b011,
        ClockOutSource::MainClk => 0b100,
        _ => 0b111,
    }
}

/// Stage-1 select encoding of the source.
pub open spec fn clkout_sel1_bits(s: ClockOutSource) -> u8 {
    match s {
        ClockOutSource::MainPllClk => 0b001,
        ClockOutSource::Aux0PllClk => 0b010,
        ClockOutSource::DspPllClk => 0b011,
        ClockOutSource::Aux1PllClk => 0b100,
        ClockOutSource::K32Clk => 0b110,
        ClockOutSource::Off => 0b111,
        _ => 0b000,
    }
}

/// The configured CLKOUT source can be resolved.
pub open spec fn clkout_can(c: Clocks, cfg: ClockConfig) -> bool {
    match cfg.clk_out_select {
        ClockOutSource::M16Irc => can_sfro(c, cfg),
        ClockOutSource::ClkIn => c.clk_in is Some,
        ClockOutSource::M1Lposc => can_lposc(c, cfg),
        ClockOutSource::M4860Irc => can_ffro(c, cfg),
        ClockOutSource::MainClk => true,
        ClockOutSource::DspMainClk => false,
        ClockOutSource::MainPllClk => c.main_pll_clk is Some,
        ClockOutSource::Aux0PllClk => c.aux0_pll_clk is Some,
        ClockOutSource::DspPllClk => c.dsp_pll_clk is Some,
        ClockOutSource::Aux1PllClk => c.aux1_pll_clk is Some,
        ClockOutSource::AudioPllClk => false,
        ClockOutSource::K32Clk => can_rtc32k(c, cfg),
        ClockOutSource::Off => true,
    }
}

/// The frequency the CLKOUT source delivers before the final divider.
pub open spec fn clkout_freq(c: Clocks, cfg: ClockConfig) -> u32 {
    match cfg.clk_out_select {
        ClockOutSource::M16Irc => 16_000_000,
        ClockOutSource::ClkIn => match c.clk_in {
            Some(f) => f,
            None => 0,
        },
        ClockOutSource::M1Lposc => 1_000_000,
        ClockOutSource::M4860Irc => ffro_freq(c, cfg),
        ClockOutSource::MainClk => c.main_clk,
        ClockOutSource::MainPllClk => match c.main_pll_clk {
            Some(f) => f,
            None => 0,
        },
        ClockOutSource::Aux0PllClk => match c.aux0_pll_clk {
            Some(f) => f,
            None => 0,
        },
        ClockOutSource::DspPllClk => match c.dsp_pll_clk {
            Some(f) => f,
            None => 0,
        },
        ClockOutSource::Aux1PllClk => match c.aux1_pll_clk {
            Some(f) => f,
            None => 0,
        },
        ClockOutSource::K32Clk => 32_768,
        _ => 0,
    }
}

/// Registry after resolving the CLKOUT source.
pub open spec fn clkout_clocks(c: Clocks, cfg: ClockConfig) -> Clocks {
    match cfg.clk_out_select {
        ClockOutSource::M16Irc => sfro_clocks(c),
        ClockOutSource::M1Lposc => lposc_clocks(c),
        ClockOutSource::M4860Irc => ffro_clocks(c, cfg),
        ClockOutSource::K32Clk => rtc32k_clocks(c),
        _ => c,
    }
}

/// Oscillator zone after resolving the CLKOUT source.
pub open spec fn clkout_osc(c: Clocks, cfg: ClockConfig, r: OscRegs) -> OscRegs {
    match cfg.clk_out_select {
        ClockOutSource::M16Irc => sfro_osc(c, r),
        ClockOutSource::M1Lposc => lposc_osc(c, r),
        ClockOutSource::M4860Irc => ffro_osc(c, cfg, r),
        ClockOutSource::K32Clk => rtc32k_osc(c, r),
        _ => r,
    }
}

/// Write record after resolving the CLKOUT source.
pub open spec fn clkout_src_log(c: Clocks, cfg: ClockConfig, l: Seq<RegWrite>) -> Seq<RegWrite> {
    match cfg.clk_out_select {
        ClockOutSource::M16Irc => sfro_log(c, l),
        ClockOutSource::M1Lposc => lposc_log(c, l),
        ClockOutSource::M4860Irc => ffro_log(c, l),
        ClockOutSource::K32Clk => rtc32k_log(c, l),
        _ => l,
    }
}

/// The select writes the resolved CLKOUT source performs.
pub open spec fn clkout_sel_log(s: ClockOutSource, l: Seq<RegWrite>) -> Seq<RegWrite> {
    if clkout_uses_sel0(s) {
        l.push(RegWrite::Clkoutsel0).push(RegWrite::Clkoutsel1)
    } else {
        l.push(RegWrite::Clkoutsel1)
    }
}

/// The error raised when the CLKOUT source cannot be resolved.
pub open spec fn clkout_err(s: ClockOutSource) -> ClockError {
    match s {
        ClockOutSource::M16Irc => ClockError::BadConfiguration {
            reason: "16m_irc not enabled but required",
        },
        ClockOutSource::ClkIn => ClockError::BadConfiguration {
            reason: "clk_in required but not configured",
        },
        ClockOutSource::M1Lposc => ClockError::BadConfiguration {
            reason: "1m_lposc disabled but required",
        },
        ClockOutSource::M4860Irc => ClockError::BadConfiguration {
            reason: "48/60m_irc required but disabled",
        },
        ClockOutSource::DspMainClk => ClockError::Programming {
            reason: "dsp_main_clk not implemented",
        },
        ClockOutSource::MainPllClk => ClockError::BadConfiguration {
            reason: "main_pll_clk required but disabled",
        },
        ClockOutSource::Aux0PllClk => ClockError::BadConfiguration {
            reason: "aux0 pll needed but not enabled",
        },
        ClockOutSource::DspPllClk => ClockError::BadConfiguration {
            reason: "dsp pll needed but not enabled",
        },
        ClockOutSource::Aux1PllClk => ClockError::BadConfiguration {
            reason: "aux1 pll needed but not enabled",
        },
        ClockOutSource::AudioPllClk => ClockError::Programming {
            reason: "audio_pll_clk not implemented",
        },
        ClockOutSource::K32Clk => ClockError::BadConfiguration {
            reason: "32k_clk required but not enabled",
        },
        _ => ClockError::AlreadyConfigured,
    }
}

/// Oscillator zone after a failed CLKOUT resolution: only a failed
/// 48/60 MHz activation leaves a trace.
pub open spec fn clkout_fail_osc(cfg: ClockConfig, r: OscRegs) -> OscRegs {
    match cfg.clk_out_select {
        ClockOutSource::M4860Irc => OscRegs { ffroctl1_safe_mode: true, ..r },
        _ => r,
    }
}

/// Write record after a failed CLKOUT resolution.
pub open spec fn clkout_fail_log(cfg: ClockConfig, l: Seq<RegWrite>) -> Seq<RegWrite> {
    match cfg.clk_out_select {
        ClockOutSource::M4860Irc => l.push(RegWrite::Ffroctl1),
        _ => l,
    }
}

/// The source uses the stage-0 multiplexer.
fn clkout_uses_sel0_x(s: ClockOutSource) -> (r: bool)
    ensures
        r == clkout_uses_sel0(s),
{
    matches!(
        s,
        ClockOutSource::M16Irc | ClockOutSource::ClkIn | ClockOutSource::M1Lposc
            | ClockOutSource::M4860Irc | ClockOutSource::MainClk
    )
}

/// Stage-0 select encoding of the source.
fn clkout_sel0_bits_x(s: ClockOutSource) -> (r: u8)
    ensures
        r == clkout_sel0_bits(s),
{
    match s {
        ClockOutSource::M16Irc => 0b000,
        ClockOutSource::ClkIn => 0b001,
        ClockOutSource::M1Lposc => 0b010,
        ClockOutSource::M4860Irc => 0b011,
        ClockOutSource::MainClk => 0b100,
        _ => 0b111,
    }
}

/// Stage-1 select encoding of the source.
fn clkout_sel1_bits_x(s: ClockOutSource) -> (r: u8)
    ensures
        r == clkout_sel1_bits(s),
{
    match s {
        ClockOutSource::MainPllClk => 0b001,
        ClockOutSource::Aux0PllClk => 0b010,
        ClockOutSource::DspPllClk => 0b011,
        ClockOutSource::Aux1PllClk => 0b100,
        ClockOutSource::K32Clk => 0b110,
        ClockOutSource::Off => 0b111,
        _ => 0b000,
    }
}

/// Programs the CLKOUT multiplexer stages for the given source.
fn clkout_select(regs: &mut Registers, s: ClockOutSource)
    ensures
        final(regs).outdiv == (OutRegs {
            clkoutsel0: if clkout_uses_sel0(s) {
                clkout_sel0_bits(s)
            } else {
                old(regs).outdiv.clkoutsel0
            },
            clkoutsel1: clkout_sel1_bits(s),
            ..old(regs).outdiv
        }),
        final(regs).log@ == clkout_sel_log(s, old(regs).log@),
        final(regs).osc == old(regs).osc,
        clkout_zone_only(*old(regs), *final(regs)),
{
    if clkout_uses_sel0_x(s) {
        let cur = regs.outdiv;
        regs.outdiv = OutRegs { clkoutsel0: clkout_sel0_bits_x(s), ..cur };
        regs.log.push(RegWrite::Clkoutsel0);
    }
    let cur = regs.outdiv;
    regs.outdiv = OutRegs { clkoutsel1: clkout_sel1_bits_x(s), ..cur };
    regs.log.push(RegWrite::Clkoutsel1);
}

/// Programs the CLKOUT divider under halt-and-reset, then releases it.
fn clkout_div_program(regs: &mut Registers, d: u8)
    ensures
        final(regs).outdiv == (OutRegs {
            clkoutdiv_div: d,
            clkoutdiv_halt: false,
            ..old(regs).outdiv
        }),
        final(regs).log@ == old(regs).log@.push(RegWrite::Clkoutdiv).push(RegWrite::Clkoutdiv).push(
            RegWrite::Clkoutdiv,
        ),
        final(regs).osc == old(regs).osc,
        clkout_zone_only(*old(regs), *final(regs)),
{
    let cur = regs.outdiv;
    regs.outdiv = OutRegs { clkoutdiv_halt: true, ..cur };
    regs.log.push(RegWrite::Clkoutdiv);
    let cur = regs.outdiv;
    regs.outdiv = OutRegs { clkoutdiv_div: d, ..cur };
    regs.log.push(RegWrite::Clkoutdiv);
    let cur = regs.outdiv;
    regs.outdiv = OutRegs { clkoutdiv_halt: false, ..cur };
    regs.log.push(RegWrite::Clkoutdiv);
}

impl ClockOperator {
    /// Routes a clock to the CLKOUT pin: when a divider is configured,
    /// resolves the configured source through the two-stage multiplexer
    /// (activating oscillators the configuration allows), programs the
    /// CLKOUT divider under halt-and-reset, and records the divided
    /// frequency. When no divider is configured, or the source is "off",
    /// CLKOUT is quieted instead. The DSP main clock and the audio PLL are
    /// not wired up: selecting them is a programming error.
    #[verifier::rlimit(100)]
    pub fn setup_clock_out(&mut self, regs: &mut Registers) -> (r: Result<u32, ClockError>)
        ensures
            final(self).config == old(self).config,
            clkout_zone_only(*old(regs), *final(regs)),
            old(self).config.clk_out_div is None ==> {
                &&& r == Ok::<u32, ClockError>(0)
                &&& final(self).clocks == (Clocks { clk_out: None, ..old(self).clocks })
                &&& final(regs).osc == old(regs).osc
                &&& final(regs).outdiv == (OutRegs { clkoutsel1: 0b111, ..old(regs).outdiv })
                &&& final(regs).log@ == old(regs).log@.push(RegWrite::Clkoutsel1)
            },
            old(self).config.clk_out_div matches Some(d) ==> (old(
                self,
            ).config.clk_out_select is Off ==> {
                &&& r == Ok::<u32, ClockError>(0)
                &&& final(self).clocks == old(self).clocks
                &&& final(regs).osc == old(regs).osc
                &&& final(regs).outdiv == (OutRegs { clkoutsel1: 0b111, ..old(regs).outdiv })
                &&& final(regs).log@ == old(regs).log@.push(RegWrite::Clkoutsel1)
            }),
            old(self).config.clk_out_div matches Some(d) ==> ((old(
                self,
            ).config.clk_out_select is DspMainClk || old(self).config.clk_out_select is AudioPllClk)
                ==> {
                &&& r == Err::<u32, ClockError>(clkout_err(old(self).config.clk_out_select))
                &&& *final(self) == *old(self)
                &&& *final(regs) == *old(regs)
            }),
            old(self).config.clk_out_div matches Some(d) ==> ((!(old(
                self,
            ).config.clk_out_select is Off) && !(old(self).config.clk_out_select is DspMainClk)
                && !(old(self).config.clk_out_select is AudioPllClk)) ==> (if clkout_can(
                old(self).clocks,
                old(self).config,
            ) {
                let f = clkout_freq(old(self).clocks, old(self).config);
                let out = (f as int / (1 + d)) as u32;
                let s = old(self).config.clk_out_select;
                &&& r == Ok::<u32, ClockError>(out)
                &&& final(self).clocks == (Clocks {
                    clk_out: Some(out),
                    ..clkout_clocks(old(self).clocks, old(self).config)
                })
                &&& final(regs).osc == clkout_osc(old(self).clocks, old(self).config, old(regs).osc)
                &&& final(regs).outdiv == (OutRegs {
                    clkoutsel0: if clkout_uses_sel0(s) {
                        clkout_sel0_bits(s)
                    } else {
                        old(regs).outdiv.clkoutsel0
                    },
                    clkoutsel1: clkout_sel1_bits(s),
                    clkoutdiv_div: d,
                    clkoutdiv_halt: false,
                    ..old(regs).outdiv
                })
                &&& final(regs).log@ == clkout_sel_log(
                    s,
                    clkout_src_log(old(self).clocks, old(self).config, old(regs).log@),
                ).push(RegWrite::Clkoutdiv).push(RegWrite::Clkoutdiv).push(RegWrite::Clkoutdiv)
            } else {
                &&& r == Err::<u32, ClockError>(clkout_err(old(self).config.clk_out_select))
                &&& final(self).clocks == old(self).clocks
                &&& final(regs).osc == clkout_fail_osc(old(self).config, old(regs).osc)
                &&& final(regs).outdiv == old(regs).outdiv
                &&& final(regs).log@ == clkout_fail_log(old(self).config, old(regs).log@)
            })),
    {
        let div: u8 = match self.config.clk_out_div {
            None => {
                let cur = regs.outdiv;
                regs.outdiv = OutRegs { clkoutsel1: 0b111, ..cur };
                regs.log.push(RegWrite::Clkoutsel1);
                self.clocks.clk_out = None;
                return Ok(0);
            },
            Some(d) => d,
        };

        let freq: u32 = match self.config.clk_out_select {
            ClockOutSource::M16Irc => self.ensure_16mhz_irc_active(regs)?,
            ClockOutSource::ClkIn => self.ensure_clk_in_active()?,
            ClockOutSource::M1Lposc => self.ensure_1mhz_lposc_active(regs)?,
            ClockOutSource::M4860Irc => self.ensure_48_60mhz_irc_active(regs)?,
            ClockOutSource::MainClk => self.clocks.main_clk,
            ClockOutSource::DspMainClk => {
                return Err(ClockError::prog_err("dsp_main_clk not implemented"));
            },
            ClockOutSource::MainPllClk => self.ensure_main_pll_clk_active()?,
            ClockOutSource::Aux0PllClk => self.clocks.ensure_aux0_pll()?,
            ClockOutSource::Aux1PllClk => self.clocks.ensure_aux1_pll()?,
            ClockOutSource::DspPllClk => self.clocks.ensure_dsp_pll()?,
            ClockOutSource::AudioPllClk => {
                return Err(ClockError::prog_err("audio_pll_clk not implemented"));
            },
            ClockOutSource::K32Clk => self.ensure_32kclk_active(regs)?,
            ClockOutSource::Off => {
                clkout_select(regs, ClockOutSource::Off);
                return Ok(0);
            },
        };
        clkout_select(regs, self.config.clk_out_select);

        // Program the CLKOUT divider under halt-and-reset, then release it
        // and wait for the request flag to clear (assumed to happen).
        clkout_div_program(regs, div);

        let out: u32 = freq / (1u32 + div as u32);
        self.clocks.clk_out = Some(out);
        Ok(out)
    }
}

} // verus!
