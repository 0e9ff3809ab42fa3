//! The load-bearing guarantees of the clock tree, stated on their own:
//! idempotent activation, the upstream-before-downstream registry
//! invariant, and the function-clock-before-reset ordering of the
//! peripheral enable protocol.

use vstd::prelude::*;

use crate::bringup::{
    ffro_clocks, ffro_log, ffro_osc, lposc_clocks, lposc_log, lposc_osc, rtc32k_clocks,
    rtc32k_log, rtc32k_osc, sfro_clocks, sfro_log, sfro_osc,
};
use crate::config::{ClockConfig, ClockOutSource, MainClockSelect, MainPllClockSelect, _32kWakeClkSelect};
use crate::hardware::{log_extends, OscRegs, RegWrite};
use crate::periph::{
    AdcConfig, CtimerConfig, FlexcommConfig, FlexcommConfig14, FlexcommConfig15, NoConfig,
    SPConfHelper, Sct0Config, UnimplementedConfig, WdtConfig,
};
use crate::registry::Clocks;
use crate::syscon::{init_ok, spec_init_clocks};

verus! {

/// Idempotence of activation: once the registry shows a node active, making
/// it active again changes neither the registry, nor the oscillator zone,
/// nor the write record — the `ensure_*_active` operations only act on the
/// first call.
pub proof fn lemma_ensure_active_idempotent(
    c: Clocks,
    cfg: ClockConfig,
    r: OscRegs,
    l: Seq<RegWrite>,
)
    ensures
        c._16m_irc.enabled ==> sfro_clocks(c) == c && sfro_osc(c, r) == r && sfro_log(c, l) == l,
        c._1m_lposc.enabled ==> lposc_clocks(c) == c && lposc_osc(c, r) == r && lposc_log(c, l)
            == l,
        c._32k_clk.enabled ==> rtc32k_clocks(c) == c && rtc32k_osc(c, r) == r && rtc32k_log(c, l)
            == l,
        c._48_60m_irc is Some ==> ffro_clocks(c, cfg) == c && ffro_osc(c, cfg, r) == r
            && ffro_log(c, l) == l,
{
}

/// Every derived node a bring-up publishes has its upstream present in the
/// registry: a downstream frequency is never reported while the node that
/// feeds it is absent.
pub open spec fn registry_orders(cfg: ClockConfig, c: Clocks) -> bool {
    // The four PLL branches demand the PLL's input source.
    &&& ((c.main_pll_clk is Some || c.dsp_pll_clk is Some || c.aux0_pll_clk is Some
        || c.aux1_pll_clk is Some) ==> (cfg.main_pll matches Some(p)
        && match p.clock_select {
        MainPllClockSelect::_16mIrc => c._16m_irc.enabled,
        MainPllClockSelect::ClkIn => c.clk_in is Some,
        MainPllClockSelect::_48_60MIrcDiv2 => c._48_60m_irc is Some,
    }))
    // The FRG PLL clock taps the main PLL branch.
    &&& (c.frg_pll_clk is Some ==> c.main_pll_clk is Some)
    // The CPU/AHB clock divides the main clock, whose own source is active.
    &&& (c.sys_cpu_ahb_clk is Some ==> match cfg.main_clock_select {
        MainClockSelect::_48_60MIrcDiv4 => c._48_60m_irc is Some,
        MainClockSelect::ClkIn => false,
        MainClockSelect::_1mLposc => c._1m_lposc.enabled,
        MainClockSelect::_48_60MIrc => c._48_60m_irc is Some,
        MainClockSelect::_16mIrc => c._16m_irc.enabled,
        MainClockSelect::MainPllClk => false,
        MainClockSelect::_32kClk => c._32k_clk.enabled,
    })
    // The wake clock divides one of two oscillators.
    &&& (c._32k_wake_clk is Some ==> match cfg._32k_wake_clk_select {
        _32kWakeClkSelect::Off => false,
        _32kWakeClkSelect::_32kClk => c._32k_clk.enabled,
        _32kWakeClkSelect::Lp32k => c._1m_lposc.enabled,
    })
    // CLKOUT divides whatever source it selected.
    &&& (c.clk_out is Some ==> match cfg.clk_out_select {
        ClockOutSource::M16Irc => c._16m_irc.enabled,
        ClockOutSource::ClkIn => c.clk_in is Some,
        ClockOutSource::M1Lposc => c._1m_lposc.enabled,
        ClockOutSource::M4860Irc => c._48_60m_irc is Some,
        ClockOutSource::MainClk => true,
        ClockOutSource::DspMainClk => false,
        ClockOutSource::MainPllClk => c.main_pll_clk is Some,
        ClockOutSource::Aux0PllClk => c.aux0_pll_clk is Some,
        ClockOutSource::DspPllClk => c.dsp_pll_clk is Some,
        ClockOutSource::Aux1PllClk => c.aux1_pll_clk is Some,
        ClockOutSource::AudioPllClk => false,
        ClockOutSource::K32Clk => c._32k_clk.enabled,
        ClockOutSource::Off => false,
    })
}

/// The ordering invariant: a registry published by a bring-up that went
/// through never reports a derived node active while its upstream is
/// absent. A configuration that disables a required upstream never gets
/// here — bring-up fails with a bad-configuration error naming the
/// upstream, as the `init` contract states.
#[verifier::rlimit(100)]
pub proof fn lemma_bring_up_orders_upstreams(cfg: ClockConfig, f_in: u32)
    requires
        init_ok(cfg, f_in),
    ensures
        registry_orders(cfg, spec_init_clocks(cfg, f_in)),
{
}

/// The write records of the configuration objects only append: whatever a
/// post-enable configuration does, the writes that stood in the record
/// before it still stand, in place, before its own.
pub proof fn lemma_config_logs_only_append(
    c: Clocks,
    fc: FlexcommConfig,
    fc14: FlexcommConfig14,
    fc15: FlexcommConfig15,
    adc: AdcConfig,
    sct: Sct0Config,
    wdt: WdtConfig,
    ct: CtimerConfig,
    no: NoConfig,
    un: UnimplementedConfig,
    l: Seq<RegWrite>,
)
    ensures
        log_extends(fc.spec_log(c, l), l),
        log_extends(fc14.spec_log(c, l), l),
        log_extends(fc15.spec_log(c, l), l),
        log_extends(adc.spec_log(c, l), l),
        log_extends(sct.spec_log(c, l), l),
        log_extends(wdt.spec_log(c, l), l),
        log_extends(ct.spec_log(c, l), l),
        log_extends(no.spec_log(c, l), l),
        log_extends(un.spec_log(c, l), l),
{
}

/// The function clock is fully selected before the reset release: after
/// `enable_and_reset`, whose record is the configuration's record with the
/// reset release pushed last, the reset release is the final entry and
/// every write of the configuration step stands strictly before it.
pub proof fn lemma_reset_release_comes_last(cfg_log: Seq<RegWrite>, rst: RegWrite)
    ensures
        ({
            let fin = cfg_log.push(rst);
            &&& fin.len() == cfg_log.len() + 1
            &&& fin[fin.len() - 1] == rst
            &&& forall|i: int| 0 <= i < cfg_log.len() ==> fin[i] == cfg_log[i]
        }),
{
}

} // verus!
