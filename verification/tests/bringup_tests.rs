//! End-to-end bring-up scenarios and the per-stage guarantees: idempotent
//! activation, range validation before register writes, single bring-up,
//! and the exact frequency arithmetic.

use syscon_clocks::bringup::ClockOperator;
use syscon_clocks::config::{
    ClkInSelect, ClockConfig, ClockOutSource, MainClockSelect, MainPll, MainPllClockSelect,
    _32kWakeClkSelect, _48_60mIrcSelect,
};
use syscon_clocks::hardware::{RegWrite, Registers};
use syscon_clocks::registry::{ClockError, Clocks, StaticClock};
use syscon_clocks::syscon::Syscon;

fn base_config() -> ClockConfig {
    ClockConfig {
        enable_32k_clk: false,
        enable_16m_irc: true,
        enable_1m_lposc: false,
        _48_60m_irc_select: _48_60mIrcSelect::Off,
        _32k_wake_clk_select: _32kWakeClkSelect::Off,
        main_pll: None,
        main_clock_select: MainClockSelect::_16mIrc,
        sys_cpu_ahb_div: 0,
        frg_clk_pll_div: None,
        clk_out_select: ClockOutSource::Off,
        clk_out_div: None,
    }
}

fn xtal(freq: u32) -> ClkInSelect {
    ClkInSelect::Xtal { freq, bypass: false, low_power: false }
}

fn pll_16m_mult18() -> MainPll {
    MainPll {
        clock_select: MainPllClockSelect::_16mIrc,
        multiplier: 18,
        pfd0_div: Some(18),
        pfd1_div: None,
        pfd2_div: None,
        pfd3_div: None,
        main_pll_clock_divider: 2,
        dsp_pll_clock_divider: 2,
        aux0_pll_clock_divider: 2,
        aux1_pll_clock_divider: 2,
    }
}

#[test]
fn scenario_16mhz_direct_main_clock() {
    // 16 MHz oscillator on, no PLL, main clock taken from it directly,
    // no CPU division.
    let mut sys = Syscon::new();
    let r = sys.init(base_config(), xtal(24_000_000));
    assert!(r.is_ok());
    let clocks = sys.clocks().as_ref().unwrap();
    assert_eq!(clocks.main_clk, 16_000_000);
    assert_eq!(clocks.sys_cpu_ahb_clk, Some(16_000_000));
    assert_eq!(clocks.main_pll_clk, None);
    assert_eq!(clocks.dsp_pll_clk, None);
    assert_eq!(clocks.aux0_pll_clk, None);
    assert_eq!(clocks.aux1_pll_clk, None);
    assert!(clocks._16m_irc.enabled);
    assert_eq!(clocks.clk_in, Some(24_000_000));
}

#[test]
fn scenario_pll_multiplier_18() {
    // 16 MHz into the PLL with multiplier 18: the core runs at exactly
    // 288 MHz; a PFD divider of 18 taps it 1:1; the output divider of 2
    // divides the bookkeeping by (2 - 1).
    let mut config = base_config();
    config.main_pll = Some(pll_16m_mult18());
    let mut sys = Syscon::new();
    let r = sys.init(config, xtal(24_000_000));
    assert!(r.is_ok());
    let clocks = sys.clocks().as_ref().unwrap();
    assert_eq!(clocks.main_pll_clk, Some(288_000_000));
    assert_eq!(clocks.dsp_pll_clk, None);
    assert_eq!(clocks.aux0_pll_clk, None);
    assert_eq!(clocks.aux1_pll_clk, None);
    assert_eq!(clocks.main_clk, 16_000_000);
}

#[test]
fn scenario_pll_disabled_gates_all_branches() {
    // With the PLL off, all four branch entries stay absent, the input
    // multiplexer is parked on "none", and all four gate/halt writes are
    // issued.
    let mut sys = Syscon::new();
    let r = sys.init(base_config(), xtal(24_000_000));
    assert!(r.is_ok());
    let clocks = sys.clocks().as_ref().unwrap();
    assert_eq!(clocks.main_pll_clk, None);
    assert_eq!(clocks.dsp_pll_clk, None);
    assert_eq!(clocks.aux0_pll_clk, None);
    assert_eq!(clocks.aux1_pll_clk, None);
    assert_eq!(sys.regs.pll.syspll0clksel, 0b111);
    assert!(sys.regs.pll.pfd0_gated);
    assert!(sys.regs.pll.pfd1_gated);
    assert!(sys.regs.pll.pfd2_gated);
    assert!(sys.regs.pll.pfd3_gated);
    assert!(sys.regs.pfddiv.mainpllclkdiv_halt);
    assert!(sys.regs.pfddiv.dsppllclkdiv_halt);
    assert!(sys.regs.pfddiv.aux0pllclkdiv_halt);
    assert!(sys.regs.pfddiv.aux1pllclkdiv_halt);
    let log = &sys.regs.log;
    let pfd_writes = log.iter().filter(|w| **w == RegWrite::Syspll0Pfd).count();
    assert_eq!(pfd_writes, 4);
    // The PLL segment of the record, right after the clock-in routing:
    // mux parked, then halt-and-gate for each of the four branches.
    assert_eq!(
        &log[1..11],
        &[
            RegWrite::Pdruncfg0,
            RegWrite::Syspll0Clksel,
            RegWrite::Mainpllclkdiv,
            RegWrite::Syspll0Pfd,
            RegWrite::Dsppllclkdiv,
            RegWrite::Syspll0Pfd,
            RegWrite::Aux0Pllclkdiv,
            RegWrite::Syspll0Pfd,
            RegWrite::Aux1Pllclkdiv,
            RegWrite::Syspll0Pfd,
        ]
    );
}

#[test]
fn second_bring_up_is_refused_without_writes() {
    let mut sys = Syscon::new();
    assert!(sys.init(base_config(), xtal(24_000_000)).is_ok());
    let writes_before = sys.regs.log.len();
    let clocks_before = sys.clocks().clone();
    let r = sys.init(base_config(), xtal(24_000_000));
    assert_eq!(r, Err(ClockError::AlreadyConfigured));
    assert_eq!(sys.regs.log.len(), writes_before);
    assert_eq!(sys.clocks().clone(), clocks_before);
}

#[test]
fn ensure_active_writes_only_once() {
    // Idempotence: the first activation writes the power bit; the second
    // call performs no write and returns the same frequency.
    let mut op = ClockOperator { config: base_config(), clocks: Clocks::new() };
    let mut regs = Registers::new();
    let first = op.ensure_16mhz_irc_active(&mut regs);
    assert_eq!(first, Ok(16_000_000));
    let writes_after_first = regs.log.len();
    assert_eq!(writes_after_first, 1);
    let second = op.ensure_16mhz_irc_active(&mut regs);
    assert_eq!(second, Ok(16_000_000));
    assert_eq!(regs.log.len(), writes_after_first);
}

#[test]
fn ensure_ffro_writes_only_once() {
    let mut config = base_config();
    config._48_60m_irc_select = _48_60mIrcSelect::Mhz60;
    let mut op = ClockOperator { config, clocks: Clocks::new() };
    let mut regs = Registers::new();
    assert_eq!(op.ensure_48_60mhz_irc_active(&mut regs), Ok(60_000_000));
    let writes = regs.log.len();
    assert_eq!(op.ensure_48_60mhz_irc_active(&mut regs), Ok(60_000_000));
    assert_eq!(regs.log.len(), writes);
}

#[test]
fn disabled_upstream_fails_naming_it() {
    // The ordering guarantee: a consumer that demands a node the
    // configuration never enabled gets a bad-configuration error naming
    // the node, never a frequency.
    let mut config = base_config();
    config.enable_16m_irc = false;
    let mut sys = Syscon::new();
    let r = sys.init(config, xtal(24_000_000));
    assert_eq!(
        r,
        Err(ClockError::BadConfiguration { reason: "16m_irc not enabled but required" })
    );
    assert!(sys.clocks().is_none());

    let mut config = base_config();
    config.main_clock_select = MainClockSelect::_32kClk;
    let mut sys = Syscon::new();
    let r = sys.init(config, xtal(24_000_000));
    assert_eq!(
        r,
        Err(ClockError::BadConfiguration { reason: "32k_clk required but not enabled" })
    );
    assert!(sys.clocks().is_none());

    let mut config = base_config();
    let mut pll = pll_16m_mult18();
    pll.clock_select = MainPllClockSelect::_48_60MIrcDiv2;
    config.main_pll = Some(pll);
    let mut sys = Syscon::new();
    let r = sys.init(config, xtal(24_000_000));
    assert_eq!(
        r,
        Err(ClockError::BadConfiguration { reason: "48/60m_irc required but disabled" })
    );
    assert!(sys.clocks().is_none());
}

#[test]
fn pll_multiplier_range_is_enforced() {
    for mult in [15u8, 23u8] {
        let mut config = base_config();
        let mut pll = pll_16m_mult18();
        pll.multiplier = mult;
        config.main_pll = Some(pll);
        let mut sys = Syscon::new();
        let r = sys.init(config, xtal(24_000_000));
        assert_eq!(
            r,
            Err(ClockError::BadConfiguration {
                reason: "main pll multiplier out of allowed range"
            })
        );
        // Rejected before the multiplier register was touched.
        assert_eq!(sys.regs.pll.syspll0_mult, 0);
    }
    // The ends of the range are accepted.
    for mult in [16u8, 22u8] {
        let mut config = base_config();
        let mut pll = pll_16m_mult18();
        pll.multiplier = mult;
        config.main_pll = Some(pll);
        let mut sys = Syscon::new();
        assert!(sys.init(config, xtal(24_000_000)).is_ok());
        assert_eq!(sys.regs.pll.syspll0_mult, mult);
    }
}

#[test]
fn pfd_divider_range_is_enforced() {
    for div in [11u8, 36u8] {
        let mut config = base_config();
        let mut pll = pll_16m_mult18();
        pll.pfd0_div = Some(div);
        config.main_pll = Some(pll);
        let mut sys = Syscon::new();
        let r = sys.init(config, xtal(24_000_000));
        assert_eq!(
            r,
            Err(ClockError::BadConfiguration {
                reason: "`pfd0_div` is out of the allowed range"
            })
        );
        // Rejected before the PFD register was touched: still at reset.
        assert_eq!(sys.regs.pll.pfd0_div, 0);
        assert!(sys.regs.pll.pfd0_gated);
    }
}

#[test]
fn pfd_output_divider_range_is_enforced() {
    for divider in [0u16, 257u16] {
        let mut config = base_config();
        let mut pll = pll_16m_mult18();
        pll.main_pll_clock_divider = divider;
        config.main_pll = Some(pll);
        let mut sys = Syscon::new();
        let r = sys.init(config, xtal(24_000_000));
        assert_eq!(
            r,
            Err(ClockError::BadConfiguration {
                reason: "`main_pll_clock_divider` is out of the allowed range"
            })
        );
        // Rejected before the output divider register was touched.
        assert!(sys.regs.pfddiv.mainpllclkdiv_halt);
        assert_eq!(sys.regs.pfddiv.mainpllclkdiv_div, 0);
    }
}

#[test]
fn pfd_arithmetic_truncates_as_the_hardware_does() {
    // A PFD divider of 20 on a 288 MHz core: floor(288e6 * 18 / 20) =
    // 259_200_000, then the output divider of 2 divides by (2 - 1).
    let mut config = base_config();
    let mut pll = pll_16m_mult18();
    pll.pfd1_div = Some(20);
    config.main_pll = Some(pll);
    let mut sys = Syscon::new();
    assert!(sys.init(config, xtal(24_000_000)).is_ok());
    let clocks = sys.clocks().as_ref().unwrap();
    assert_eq!(clocks.dsp_pll_clk, Some(259_200_000));
}

#[test]
fn divider_minus_one_bookkeeping_is_preserved() {
    // The recorded branch frequency divides by (divider - 1), mirroring
    // the zero-based register encoding: divider 3 divides 288 MHz by 2.
    let mut config = base_config();
    let mut pll = pll_16m_mult18();
    pll.main_pll_clock_divider = 3;
    config.main_pll = Some(pll);
    let mut sys = Syscon::new();
    assert!(sys.init(config, xtal(24_000_000)).is_ok());
    let clocks = sys.clocks().as_ref().unwrap();
    assert_eq!(clocks.main_pll_clk, Some(144_000_000));
    // The register itself is programmed zero-based: 3 - 1.
    assert_eq!(sys.regs.pfddiv.mainpllclkdiv_div, 2);
}

#[test]
fn ahb_divider_divides_the_main_clock() {
    let mut config = base_config();
    config._48_60m_irc_select = _48_60mIrcSelect::Mhz48;
    config.main_clock_select = MainClockSelect::_48_60MIrc;
    config.sys_cpu_ahb_div = 3;
    let mut sys = Syscon::new();
    assert!(sys.init(config, xtal(24_000_000)).is_ok());
    let clocks = sys.clocks().as_ref().unwrap();
    assert_eq!(clocks.main_clk, 48_000_000);
    assert_eq!(clocks.sys_cpu_ahb_clk, Some(12_000_000));
    assert_eq!(sys.regs.sys.syscpuahbclkdiv_div, 3);
}

#[test]
fn main_clock_div4_uses_a_quarter_of_the_ffro() {
    let mut config = base_config();
    config._48_60m_irc_select = _48_60mIrcSelect::Mhz60;
    config.main_clock_select = MainClockSelect::_48_60MIrcDiv4;
    let mut sys = Syscon::new();
    assert!(sys.init(config, xtal(24_000_000)).is_ok());
    assert_eq!(sys.clocks().as_ref().unwrap().main_clk, 15_000_000);
}

#[test]
fn unwired_main_clock_selections_fail() {
    for sel in [MainClockSelect::ClkIn, MainClockSelect::MainPllClk] {
        let mut config = base_config();
        config.main_clock_select = sel;
        let mut sys = Syscon::new();
        let r = sys.init(config, xtal(24_000_000));
        assert!(matches!(r, Err(ClockError::BadConfiguration { .. })));
        assert!(sys.clocks().is_none());
    }
}

#[test]
fn wake_clock_from_lposc_is_31250() {
    let mut config = base_config();
    config.enable_1m_lposc = true;
    config._32k_wake_clk_select = _32kWakeClkSelect::Lp32k;
    let mut sys = Syscon::new();
    assert!(sys.init(config, xtal(24_000_000)).is_ok());
    let clocks = sys.clocks().as_ref().unwrap();
    assert_eq!(clocks._32k_wake_clk, Some(31_250));
    assert!(clocks._1m_lposc.enabled);
    assert_eq!(sys.regs.sys.wakeclk32khzsel, 0b001);
}

#[test]
fn wake_clock_off_leaves_the_entry_absent() {
    let mut sys = Syscon::new();
    assert!(sys.init(base_config(), xtal(24_000_000)).is_ok());
    let clocks = sys.clocks().as_ref().unwrap();
    assert_eq!(clocks._32k_wake_clk, None);
    assert_eq!(sys.regs.sys.wakeclk32khzsel, 0b111);
}

#[test]
fn frg_pll_divider_taps_the_main_pll_branch() {
    let mut config = base_config();
    config.main_pll = Some(pll_16m_mult18());
    config.frg_clk_pll_div = Some(3);
    let mut sys = Syscon::new();
    assert!(sys.init(config, xtal(24_000_000)).is_ok());
    let clocks = sys.clocks().as_ref().unwrap();
    assert_eq!(clocks.frg_pll_clk, Some(288_000_000 / 4));
}

#[test]
fn frg_pll_divider_without_the_branch_fails() {
    let mut config = base_config();
    config.frg_clk_pll_div = Some(3);
    let mut sys = Syscon::new();
    let r = sys.init(config, xtal(24_000_000));
    assert_eq!(
        r,
        Err(ClockError::BadConfiguration { reason: "main_pll_clk required but disabled" })
    );
}

#[test]
fn clock_out_divides_its_source() {
    let mut config = base_config();
    config.clk_out_select = ClockOutSource::M16Irc;
    config.clk_out_div = Some(3);
    let mut sys = Syscon::new();
    assert!(sys.init(config, xtal(24_000_000)).is_ok());
    let clocks = sys.clocks().as_ref().unwrap();
    assert_eq!(clocks.clk_out, Some(4_000_000));
    assert_eq!(sys.regs.outdiv.clkoutsel0, 0b000);
    assert_eq!(sys.regs.outdiv.clkoutsel1, 0b000);
    assert_eq!(sys.regs.outdiv.clkoutdiv_div, 3);
}

#[test]
fn unimplemented_clock_out_sources_are_programming_errors() {
    for sel in [ClockOutSource::DspMainClk, ClockOutSource::AudioPllClk] {
        let mut config = base_config();
        config.clk_out_select = sel;
        config.clk_out_div = Some(0);
        let mut sys = Syscon::new();
        let r = sys.init(config, xtal(24_000_000));
        assert!(matches!(r, Err(ClockError::Programming { .. })));
    }
}

#[test]
fn failed_bring_up_publishes_nothing() {
    let mut config = base_config();
    config.clk_out_select = ClockOutSource::K32Clk;
    config.clk_out_div = Some(0);
    let mut sys = Syscon::new();
    let r = sys.init(config, xtal(24_000_000));
    assert_eq!(
        r,
        Err(ClockError::BadConfiguration { reason: "32k_clk required but not enabled" })
    );
    assert!(sys.clocks().is_none());
    // A later, corrected bring-up on the same hardware still goes through.
    let r = sys.init(base_config(), xtal(24_000_000));
    assert!(r.is_ok());
}

#[test]
fn selector_helpers_report_their_frequencies() {
    assert_eq!(_48_60mIrcSelect::Off.freq(), None);
    assert_eq!(_48_60mIrcSelect::Mhz48.freq(), Some(48_000_000));
    assert_eq!(_48_60mIrcSelect::Mhz60.freq(), Some(60_000_000));
    assert!(_48_60mIrcSelect::Off.is_off());
    assert!(!_48_60mIrcSelect::Mhz48.is_off());
    assert!(_32kWakeClkSelect::Off.is_off());
    assert!(!_32kWakeClkSelect::Lp32k.is_off());
}

#[test]
fn static_clock_reports_its_fixed_frequency() {
    let off: StaticClock<1_000_000> = StaticClock { enabled: false };
    let on: StaticClock<1_000_000> = StaticClock { enabled: true };
    assert_eq!(off.as_option(), None);
    assert_eq!(on.as_option(), Some(1_000_000));
    assert_eq!(on.frequency(), 1_000_000);
}

#[test]
fn registry_accessors_name_the_missing_node() {
    let empty = Clocks::new();
    assert_eq!(
        empty.ensure_1m_lposc(),
        Err(ClockError::BadConfiguration { reason: "1m_irc/lposc needed but not enabled" })
    );
    assert_eq!(
        empty.ensure_16m_sfro(),
        Err(ClockError::BadConfiguration { reason: "16m_irc/sfro needed but not enabled" })
    );
    assert_eq!(
        empty.ensure_48_60_ffro(),
        Err(ClockError::BadConfiguration { reason: "48/60m_irc/ffro needed but not enabled" })
    );
    assert_eq!(
        empty.ensure_hclk(),
        Err(ClockError::BadConfiguration { reason: "hclk needed but not enabled" })
    );
    let mut some = Clocks::new();
    some._1m_lposc.enabled = true;
    assert_eq!(some.ensure_1m_lposc(), Ok(1_000_000));
}

#[test]
fn pll_lock_procedure_waits_twice() {
    let mut config = base_config();
    config.main_pll = Some(pll_16m_mult18());
    let mut sys = Syscon::new();
    assert!(sys.init(config, xtal(24_000_000)).is_ok());
    // Two calibrated lock waits, one per holdringoff phase.
    assert_eq!(sys.regs.delays.len(), 2);
    // Both holdringoff phases are recorded as control-register writes,
    // and each lock wait stands where the two-phase procedure puts it:
    // the first between the two control writes, the second after the last.
    let log = &sys.regs.log;
    let ctl_writes = log.iter().filter(|w| **w == RegWrite::Syspll0Ctl0).count();
    assert_eq!(ctl_writes, 2);
    let first_ctl = log.iter().position(|w| *w == RegWrite::Syspll0Ctl0).unwrap();
    let last_ctl = log.iter().rposition(|w| *w == RegWrite::Syspll0Ctl0).unwrap();
    let first_wait = log.iter().position(|w| *w == RegWrite::LockDelay).unwrap();
    let last_wait = log.iter().rposition(|w| *w == RegWrite::LockDelay).unwrap();
    assert!(first_ctl < first_wait && first_wait < last_ctl && last_ctl < last_wait);
    assert!(!sys.regs.pll.syspll0_holdringoff);
    // The fractional part is pinned to 0/1.
    assert_eq!(sys.regs.pll.syspll0num, 0);
    assert_eq!(sys.regs.pll.syspll0denom, 1);
}
