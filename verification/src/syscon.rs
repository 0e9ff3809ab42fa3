//! The system-control view: the register image plus the published registry,
//! with the one-time bring-up entry point and the registry query.
//!
//! Bring-up runs exactly once: a second call fails with
//! [`ClockError::AlreadyConfigured`] and performs no register write. On
//! success the registry is published; on failure nothing is published,
//! though registers written before the failing step keep their values
//! (bring-up is not transactional — a deliberate simplification for
//! one-time boot configuration).

use vstd::prelude::*;

use crate::bringup::{
    branch_clocks, can_lposc, can_rtc32k, clkout_can, clkout_clocks, clkout_err, clkout_freq,
    lposc_clocks, main_sel_can, main_sel_clocks, main_sel_err, main_sel_freq, pll_source_clocks,
    pll_source_err, pll_source_freq, pll_source_ok, rtc32k_clocks, spec_branch_freq,
    spec_out_div_msg, spec_pfd_div_msg, ClockOperator, PllPfd,
};
use crate::config::{ClkInSelect, ClockConfig, MainPll, _32kWakeClkSelect};
use crate::hardware::Registers;
use crate::registry::{ClockError, Clocks, StaticClock};

verus! {

/// The PFD divider and output divider of one branch are both in range, or
/// the branch is gated.
pub open spec fn pfd_ok(p: MainPll, w: PllPfd) -> bool {
    match p.spec_pfd_div(w) {
        None => true,
        Some(d) => 12 <= d <= 35 && 1 <= p.spec_out_divider(w) <= 256,
    }
}

/// The divider arithmetic of one branch divides by (divider − 1), so a
/// divider of exactly 1 cannot be brought up.
pub open spec fn pfd_no_unit_divider(p: MainPll, w: PllPfd) -> bool {
    !(p.spec_pfd_div(w) matches Some(d) && 12 <= d <= 35 && p.spec_out_divider(w) == 1)
}

/// The machine limits bring-up needs: the PLL multiply chain fits in `u32`
/// for an external input (the internal oscillators always fit), and no
/// branch divides by (1 − 1).
pub open spec fn init_fits(cfg: ClockConfig, f_in: u32) -> bool {
    match cfg.main_pll {
        None => true,
        Some(p) => {
            &&& ((p.clock_select is ClkIn && 16 <= p.multiplier <= 22) ==> f_in * p.multiplier * 18
                <= u32::MAX * 12)
            &&& pfd_no_unit_divider(p, PllPfd::Pfd0)
            &&& pfd_no_unit_divider(p, PllPfd::Pfd1)
            &&& pfd_no_unit_divider(p, PllPfd::Pfd2)
            &&& pfd_no_unit_divider(p, PllPfd::Pfd3)
        },
    }
}

/// Registry right after the clock input is routed: empty but for `clk_in`.
pub open spec fn init_c0(f_in: u32) -> Clocks {
    Clocks { clk_in: Some(f_in), ..Clocks::spec_new() }
}

/// The recorded frequency of one PLL branch during bring-up.
pub open spec fn init_branch(cfg: ClockConfig, p: MainPll, f_in: u32, w: PllPfd) -> Option<u32> {
    match p.spec_pfd_div(w) {
        None => None,
        Some(d) => Some(
            spec_branch_freq(
                (pll_source_freq(init_c0(f_in), cfg, p.clock_select) * p.multiplier) as u32,
                d,
                p.spec_out_divider(w),
            ),
        ),
    }
}

/// Registry after the PLL stage: the input source activated and the four
/// branches recorded (or everything gated when the PLL stays off).
pub open spec fn init_after_pll(cfg: ClockConfig, f_in: u32) -> Clocks {
    let c0 = init_c0(f_in);
    match cfg.main_pll {
        None => c0,
        Some(p) => {
            let c1 = pll_source_clocks(c0, cfg, p.clock_select);
            branch_clocks(
                branch_clocks(
                    branch_clocks(
                        branch_clocks(c1, PllPfd::Pfd0, init_branch(cfg, p, f_in, PllPfd::Pfd0)),
                        PllPfd::Pfd1,
                        init_branch(cfg, p, f_in, PllPfd::Pfd1),
                    ),
                    PllPfd::Pfd2,
                    init_branch(cfg, p, f_in, PllPfd::Pfd2),
                ),
                PllPfd::Pfd3,
                init_branch(cfg, p, f_in, PllPfd::Pfd3),
            )
        },
    }
}

/// The PLL stage accepts the configuration.
pub open spec fn init_pll_ok(cfg: ClockConfig, f_in: u32) -> bool {
    match cfg.main_pll {
        None => true,
        Some(p) => {
            &&& 16 <= p.multiplier <= 22
            &&& pll_source_ok(init_c0(f_in), cfg, p.clock_select)
            &&& pfd_ok(p, PllPfd::Pfd0)
            &&& pfd_ok(p, PllPfd::Pfd1)
            &&& pfd_ok(p, PllPfd::Pfd2)
            &&& pfd_ok(p, PllPfd::Pfd3)
        },
    }
}

/// The error a branch whose dividers are rejected raises: the PFD divider
/// range is checked first, the output divider range second.
pub open spec fn init_pfd_err(p: MainPll, w: PllPfd) -> ClockError {
    match p.spec_pfd_div(w) {
        None => ClockError::AlreadyConfigured,  // unreachable: a gated branch is accepted
        Some(d) => if !(12 <= d <= 35) {
            ClockError::BadConfiguration { reason: spec_pfd_div_msg(w) }
        } else {
            ClockError::BadConfiguration { reason: spec_out_div_msg(w) }
        },
    }
}

/// The error of the PLL stage when it rejects the configuration.
pub open spec fn init_pll_err(cfg: ClockConfig, f_in: u32) -> ClockError {
    match cfg.main_pll {
        None => ClockError::AlreadyConfigured,  // unreachable: the stage accepts `None`
        Some(p) => if !(16 <= p.multiplier <= 22) {
            ClockError::BadConfiguration { reason: "main pll multiplier out of allowed range" }
        } else if !pll_source_ok(init_c0(f_in), cfg, p.clock_select) {
            pll_source_err(p.clock_select)
        } else if !pfd_ok(p, PllPfd::Pfd0) {
            init_pfd_err(p, PllPfd::Pfd0)
        } else if !pfd_ok(p, PllPfd::Pfd1) {
            init_pfd_err(p, PllPfd::Pfd1)
        } else if !pfd_ok(p, PllPfd::Pfd2) {
            init_pfd_err(p, PllPfd::Pfd2)
        } else {
            init_pfd_err(p, PllPfd::Pfd3)
        },
    }
}

/// Registry after the main clock and CPU/AHB clock are derived.
pub open spec fn init_after_sysclk(cfg: ClockConfig, f_in: u32) -> Clocks {
    let c1 = init_after_pll(cfg, f_in);
    let main = main_sel_freq(c1, cfg);
    Clocks {
        main_clk: main,
        sys_cpu_ahb_clk: Some((main as int / (cfg.sys_cpu_ahb_div + 1)) as u32),
        ..main_sel_clocks(c1, cfg)
    }
}

/// Registry after the FRG PLL divider stage.
pub open spec fn init_after_frg(cfg: ClockConfig, f_in: u32) -> Clocks {
    let c = init_after_sysclk(cfg, f_in);
    match cfg.frg_clk_pll_div {
        None => c,
        Some(d) => Clocks {
            frg_pll_clk: match c.main_pll_clk {
                Some(f) => Some((f as int / (d + 1)) as u32),
                None => None,
            },
            ..c
        },
    }
}

/// The main-clock and FRG stages accept the configuration.
pub open spec fn init_clock_ok(cfg: ClockConfig, f_in: u32) -> bool {
    &&& main_sel_can(init_after_pll(cfg, f_in), cfg)
    &&& (cfg.frg_clk_pll_div is Some ==> init_after_sysclk(cfg, f_in).main_pll_clk is Some)
}

/// The error of the main-clock or FRG stage when one rejects the
/// configuration.
pub open spec fn init_clock_err(cfg: ClockConfig, f_in: u32) -> ClockError {
    if !main_sel_can(init_after_pll(cfg, f_in), cfg) {
        main_sel_err(cfg)
    } else {
        ClockError::BadConfiguration { reason: "main_pll_clk required but disabled" }
    }
}

/// Registry after the core clocks that the configuration enables are
/// switched on whether or not anything demanded them.
pub open spec fn init_after_tolerant(cfg: ClockConfig, f_in: u32) -> Clocks {
    let c = init_after_frg(cfg, f_in);
    Clocks {
        _1m_lposc: StaticClock { enabled: c._1m_lposc.enabled || cfg.enable_1m_lposc },
        _16m_irc: StaticClock { enabled: c._16m_irc.enabled || cfg.enable_16m_irc },
        _32k_clk: StaticClock { enabled: c._32k_clk.enabled || cfg.enable_32k_clk },
        _48_60m_irc: if c._48_60m_irc is Some {
            c._48_60m_irc
        } else {
            cfg._48_60m_irc_select.spec_freq()
        },
        ..c
    }
}

/// Registry after the wake-clock stage.
pub open spec fn init_after_wake(cfg: ClockConfig, f_in: u32) -> Clocks {
    let c = init_after_tolerant(cfg, f_in);
    match cfg._32k_wake_clk_select {
        _32kWakeClkSelect::Off => Clocks { _32k_wake_clk: None, ..c },
        _32kWakeClkSelect::_32kClk => Clocks { _32k_wake_clk: Some(32_768), ..rtc32k_clocks(c) },
        _32kWakeClkSelect::Lp32k => Clocks { _32k_wake_clk: Some(31_250), ..lposc_clocks(c) },
    }
}

/// The registry bring-up publishes for a configuration that goes through.
pub open spec fn spec_init_clocks(cfg: ClockConfig, f_in: u32) -> Clocks {
    let c = init_after_wake(cfg, f_in);
    match cfg.clk_out_div {
        None => Clocks { clk_out: None, ..c },
        Some(d) => if cfg.clk_out_select is Off {
            c
        } else {
            Clocks {
                clk_out: Some((clkout_freq(c, cfg) as int / (1 + d)) as u32),
                ..clkout_clocks(c, cfg)
            }
        },
    }
}

/// The wake-clock stage accepts the configuration.
pub open spec fn init_wake_ok(cfg: ClockConfig, f_in: u32) -> bool {
    match cfg._32k_wake_clk_select {
        _32kWakeClkSelect::Off => true,
        _32kWakeClkSelect::_32kClk => can_rtc32k(init_after_tolerant(cfg, f_in), cfg),
        _32kWakeClkSelect::Lp32k => can_lposc(init_after_tolerant(cfg, f_in), cfg),
    }
}

/// The wake and CLKOUT stages accept the configuration.
pub open spec fn init_tail_ok(cfg: ClockConfig, f_in: u32) -> bool {
    &&& init_wake_ok(cfg, f_in)
    &&& match cfg.clk_out_div {
        None => true,
        Some(d) => clkout_can(init_after_wake(cfg, f_in), cfg),
    }
}

/// The error of the wake or CLKOUT stage when one rejects the configuration.
pub open spec fn init_tail_err(cfg: ClockConfig, f_in: u32) -> ClockError {
    if !init_wake_ok(cfg, f_in) {
        match cfg._32k_wake_clk_select {
            _32kWakeClkSelect::_32kClk => ClockError::BadConfiguration {
                reason: "32k_clk required but not enabled",
            },
            _ => ClockError::BadConfiguration { reason: "1m_lposc disabled but required" },
        }
    } else {
        clkout_err(cfg.clk_out_select)
    }
}

/// Bring-up goes through for this configuration: every stage accepts it.
pub open spec fn init_ok(cfg: ClockConfig, f_in: u32) -> bool {
    &&& init_pll_ok(cfg, f_in)
    &&& init_clock_ok(cfg, f_in)
    &&& init_tail_ok(cfg, f_in)
}

/// The error of the first stage that rejects the configuration.
pub open spec fn spec_init_err(cfg: ClockConfig, f_in: u32) -> ClockError {
    if !init_pll_ok(cfg, f_in) {
        init_pll_err(cfg, f_in)
    } else if !init_clock_ok(cfg, f_in) {
        init_clock_err(cfg, f_in)
    } else {
        init_tail_err(cfg, f_in)
    }
}

/// Routes the clock input and runs the PLL stage: the main PLL and its four
/// fractional output dividers, or their gating when the PLL stays off.
#[verifier::rlimit(100)]
fn run_pll_stage(op: &mut ClockOperator, regs: &mut Registers, sel: ClkInSelect) -> (r: Result<
    (),
    ClockError,
>)
    requires
        old(op).clocks == Clocks::spec_new(),
        init_fits(old(op).config, sel.spec_freq()),
    ensures
        final(op).config == old(op).config,
        final(regs).sys == old(regs).sys,
        final(regs).outdiv == old(regs).outdiv,
        final(regs).flex == old(regs).flex,
        final(regs).fclk1 == old(regs).fclk1,
        final(regs).gates == old(regs).gates,
        final(regs).rst == old(regs).rst,
        init_pll_ok(old(op).config, sel.spec_freq()) ==> {
            &&& r == Ok::<(), ClockError>(())
            &&& final(op).clocks == init_after_pll(old(op).config, sel.spec_freq())
        },
        !init_pll_ok(old(op).config, sel.spec_freq()) ==> r == Err::<(), ClockError>(
            init_pll_err(old(op).config, sel.spec_freq()),
        ),
        old(op).config.main_pll is None ==> {
            &&& final(regs).pll.syspll0clksel == 0b111
            &&& final(regs).pll.pfd0_gated
            &&& final(regs).pll.pfd1_gated
            &&& final(regs).pll.pfd2_gated
            &&& final(regs).pll.pfd3_gated
            &&& final(regs).pfddiv.mainpllclkdiv_halt
            &&& final(regs).pfddiv.dsppllclkdiv_halt
            &&& final(regs).pfddiv.aux0pllclkdiv_halt
            &&& final(regs).pfddiv.aux1pllclkdiv_halt
            &&& final(regs).log@ == old(regs).log@.push(
                if sel matches ClkInSelect::Xtal { .. } {
                    crate::hardware::RegWrite::Sysoscctl0
                } else {
                    crate::hardware::RegWrite::Iopctl
                },
            ).push(crate::hardware::RegWrite::Pdruncfg0).push(
                crate::hardware::RegWrite::Syspll0Clksel,
            ).push(crate::hardware::RegWrite::Mainpllclkdiv).push(
                crate::hardware::RegWrite::Syspll0Pfd,
            ).push(crate::hardware::RegWrite::Dsppllclkdiv).push(
                crate::hardware::RegWrite::Syspll0Pfd,
            ).push(crate::hardware::RegWrite::Aux0Pllclkdiv).push(
                crate::hardware::RegWrite::Syspll0Pfd,
            ).push(crate::hardware::RegWrite::Aux1Pllclkdiv).push(
                crate::hardware::RegWrite::Syspll0Pfd,
            )
        },
{
    let config = op.config;
    op.setup_clock_in(regs, sel);

    let ghost pre_pll = op.clocks;
    let pll_output = op.setup_main_pll(regs, config.main_pll)?;
    match pll_output {
        Some((freq, main_pll)) => {
            proof {
                let f = pll_source_freq(pre_pll, config, main_pll.clock_select) as int;
                let m = main_pll.multiplier as int;
                assert(f * m <= u32::MAX) by (nonlinear_arith)
                    requires
                        f * m * 18 <= u32::MAX * 12,
                        f >= 0,
                        m >= 0,
                ;
                assert(freq == f * m);
            }
            op.setup_pll_pfd(regs, &main_pll, freq, PllPfd::Pfd0)?;
            op.setup_pll_pfd(regs, &main_pll, freq, PllPfd::Pfd1)?;
            op.setup_pll_pfd(regs, &main_pll, freq, PllPfd::Pfd2)?;
            op.setup_pll_pfd(regs, &main_pll, freq, PllPfd::Pfd3)?;
        },
        None => {
            op.disable_pll_pfd(regs, PllPfd::Pfd0);
            op.disable_pll_pfd(regs, PllPfd::Pfd1);
            op.disable_pll_pfd(regs, PllPfd::Pfd2);
            op.disable_pll_pfd(regs, PllPfd::Pfd3);
        },
    }
    Ok(())
}

/// Runs the main-clock, CPU/AHB and FRG PLL divider stages.
#[verifier::rlimit(100)]
fn run_clock_stage(op: &mut ClockOperator, regs: &mut Registers, Ghost(f_in): Ghost<u32>) -> (r:
    Result<(), ClockError>)
    requires
        old(op).clocks == init_after_pll(old(op).config, f_in),
    ensures
        final(op).config == old(op).config,
        final(regs).pll == old(regs).pll,
        final(regs).pfddiv == old(regs).pfddiv,
        final(regs).flex == old(regs).flex,
        final(regs).fclk1 == old(regs).fclk1,
        final(regs).gates == old(regs).gates,
        final(regs).rst == old(regs).rst,
        final(regs).delays@ == old(regs).delays@,
        crate::hardware::log_extends(final(regs).log@, old(regs).log@),
        init_clock_ok(old(op).config, f_in) ==> {
            &&& r == Ok::<(), ClockError>(())
            &&& final(op).clocks == init_after_frg(old(op).config, f_in)
        },
        !init_clock_ok(old(op).config, f_in) ==> r == Err::<(), ClockError>(
            init_clock_err(old(op).config, f_in),
        ),
{
    op.setup_main_clock(regs)?;
    op.setup_system_clock(regs)?;
    op.setup_frg_pll_div(regs)?;
    Ok(())
}

/// Switches on the core clocks the configuration enables, then runs the
/// wake-clock and CLKOUT stages.
#[verifier::rlimit(100)]
fn run_tail_stage(op: &mut ClockOperator, regs: &mut Registers, Ghost(f_in): Ghost<u32>) -> (r:
    Result<(), ClockError>)
    requires
        old(op).clocks == init_after_frg(old(op).config, f_in),
    ensures
        final(op).config == old(op).config,
        final(regs).pll == old(regs).pll,
        final(regs).pfddiv == old(regs).pfddiv,
        final(regs).flex == old(regs).flex,
        final(regs).fclk1 == old(regs).fclk1,
        final(regs).gates == old(regs).gates,
        final(regs).rst == old(regs).rst,
        final(regs).delays@ == old(regs).delays@,
        crate::hardware::log_extends(final(regs).log@, old(regs).log@),
        init_tail_ok(old(op).config, f_in) ==> {
            &&& r == Ok::<(), ClockError>(())
            &&& final(op).clocks == spec_init_clocks(old(op).config, f_in)
        },
        !init_tail_ok(old(op).config, f_in) ==> r == Err::<(), ClockError>(
            init_tail_err(old(op).config, f_in),
        ),
{
    // Switch on the core clocks the configuration enables, whether or not
    // anything demanded them yet: peripherals enabled later may want them.
    // Errors here only mean the configuration does not enable the clock.
    let _ = op.ensure_1mhz_lposc_active(regs);
    let _ = op.ensure_48_60mhz_irc_active(regs);
    let _ = op.ensure_16mhz_irc_active(regs);
    let _ = op.ensure_main_pll_clk_active();
    let _ = op.ensure_32kclk_active(regs);

    op.setup_32k_wake_clk(regs)?;
    op.setup_clock_out(regs)?;
    Ok(())
}

/// The register image plus the published registry. The registry slot is
/// written exactly once, by a successful [`Syscon::init`]; afterwards it is
/// only read.
#[derive(Debug)]
pub struct Syscon {
    /// The register image of the system-control block.
    pub regs: Registers,
    /// The published registry; written exactly once, by [`Syscon::init`].
    /// The platform layer keeps the whole value behind its own exclusion,
    /// so readers never observe a half-written registry.
    pub clocks: Option<Clocks>,
}

impl Syscon {
    /// A system-control view over hardware as it comes out of reset, with
    /// no registry published.
    pub fn new() -> (s: Syscon)
        ensures
            s.regs.osc == crate::hardware::spec_reset_osc(),
            s.regs.pll == crate::hardware::spec_reset_pll(),
            s.regs.pfddiv == crate::hardware::spec_reset_pfddiv(),
            s.regs.sys == crate::hardware::spec_reset_sys(),
            s.regs.outdiv == crate::hardware::spec_reset_outdiv(),
            s.regs.flex == crate::hardware::spec_reset_flex(),
            s.regs.fclk1 == crate::hardware::spec_reset_fclk1(),
            s.regs.gates == crate::hardware::spec_reset_gates(),
            s.regs.rst == crate::hardware::spec_reset_rst(),
            s.regs.log@ == Seq::<crate::hardware::RegWrite>::empty(),
            s.regs.delays@ == Seq::<u32>::empty(),
            s.clocks is None,
    {
        Syscon { regs: Registers::new(), clocks: None }
    }

    /// The published registry, or `None` when bring-up has not run.
    pub fn clocks(&self) -> (r: &Option<Clocks>)
        ensures
            r == &self.clocks,
    {
        &self.clocks
    }

    /// Brings the clock tree up in dependency order: clock input, main PLL
    /// and its four branches (or their gating), main clock, CPU/AHB clock,
    /// FRG PLL divider, the always-wanted core oscillators, the wake clock
    /// and CLKOUT — then publishes the registry. Runs at most once: a
    /// second call fails with [`ClockError::AlreadyConfigured`] and writes
    /// nothing.
    #[verifier::rlimit(100)]
    pub fn init(&mut self, config: ClockConfig, clk_in_select: ClkInSelect) -> (r: Result<
        (),
        ClockError,
    >)
        requires
            old(self).clocks is None ==> init_fits(config, clk_in_select.spec_freq()),
        ensures
            old(self).clocks is Some ==> {
                &&& r == Err::<(), ClockError>(ClockError::AlreadyConfigured)
                &&& *final(self) == *old(self)
            },
            old(self).clocks is None ==> (if init_ok(config, clk_in_select.spec_freq()) {
                &&& r == Ok::<(), ClockError>(())
                &&& final(self).clocks == Some(
                    spec_init_clocks(config, clk_in_select.spec_freq()),
                )
            } else {
                &&& r == Err::<(), ClockError>(spec_init_err(config, clk_in_select.spec_freq()))
                &&& final(self).clocks is None
            }),
            old(self).clocks is None && config.main_pll is None ==> {
                // Each branch received its divider halt write and its gate
                // write, whatever the registers held before: the PLL
                // segment of the record, right after the clock-in routing,
                // reads mux-park then halt-and-gate four times over.
                let base = old(self).regs.log@.len() as int;
                let log = final(self).regs.log@;
                &&& final(self).regs.pll.syspll0clksel == 0b111
                &&& final(self).regs.pll.pfd0_gated
                &&& final(self).regs.pll.pfd1_gated
                &&& final(self).regs.pll.pfd2_gated
                &&& final(self).regs.pll.pfd3_gated
                &&& final(self).regs.pfddiv.mainpllclkdiv_halt
                &&& final(self).regs.pfddiv.dsppllclkdiv_halt
                &&& final(self).regs.pfddiv.aux0pllclkdiv_halt
                &&& final(self).regs.pfddiv.aux1pllclkdiv_halt
                &&& log.len() >= base + 11
                &&& log[base + 1] == crate::hardware::RegWrite::Pdruncfg0
                &&& log[base + 2] == crate::hardware::RegWrite::Syspll0Clksel
                &&& log[base + 3] == crate::hardware::RegWrite::Mainpllclkdiv
                &&& log[base + 4] == crate::hardware::RegWrite::Syspll0Pfd
                &&& log[base + 5] == crate::hardware::RegWrite::Dsppllclkdiv
                &&& log[base + 6] == crate::hardware::RegWrite::Syspll0Pfd
                &&& log[base + 7] == crate::hardware::RegWrite::Aux0Pllclkdiv
                &&& log[base + 8] == crate::hardware::RegWrite::Syspll0Pfd
                &&& log[base + 9] == crate::hardware::RegWrite::Aux1Pllclkdiv
                &&& log[base + 10] == crate::hardware::RegWrite::Syspll0Pfd
            },
    {
        // A second bring-up must fail distinctly, before any register
        // write.
        if self.clocks.is_some() {
            return Err(ClockError::AlreadyConfigured);
        }

        let ghost f_in = clk_in_select.spec_freq();
        let mut op = ClockOperator { config, clocks: Clocks::new() };
        run_pll_stage(&mut op, &mut self.regs, clk_in_select)?;
        run_clock_stage(&mut op, &mut self.regs, Ghost(f_in))?;
        run_tail_stage(&mut op, &mut self.regs, Ghost(f_in))?;

        // Publish the registry; from here on it is read-only.
        self.clocks = Some(op.clocks);
        Ok(())
    }
}

} // verus!
