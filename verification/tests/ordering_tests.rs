//! The ordering invariant, exercised over a sweep of configurations: the
//! published registry never reports a derived node active while its
//! upstream is absent, and a configuration that disables a required
//! upstream fails with a bad-configuration error instead.

use syscon_clocks::config::{
    ClkInSelect, ClockConfig, ClockOutSource, MainClockSelect, MainPll, MainPllClockSelect,
    _32kWakeClkSelect, _48_60mIrcSelect,
};
use syscon_clocks::registry::{ClockError, Clocks};
use syscon_clocks::syscon::Syscon;

fn sweep_configs() -> Vec<ClockConfig> {
    let mut out = Vec::new();
    let plls = [
        None,
        Some(MainPll {
            clock_select: MainPllClockSelect::_16mIrc,
            multiplier: 17,
            pfd0_div: Some(19),
            pfd1_div: None,
            pfd2_div: Some(24),
            pfd3_div: None,
            main_pll_clock_divider: 2,
            dsp_pll_clock_divider: 2,
            aux0_pll_clock_divider: 4,
            aux1_pll_clock_divider: 2,
        }),
        Some(MainPll {
            clock_select: MainPllClockSelect::_48_60MIrcDiv2,
            multiplier: 22,
            pfd0_div: Some(12),
            pfd1_div: Some(35),
            pfd2_div: None,
            pfd3_div: Some(18),
            main_pll_clock_divider: 256,
            dsp_pll_clock_divider: 3,
            aux0_pll_clock_divider: 2,
            aux1_pll_clock_divider: 5,
        }),
    ];
    let mains = [
        MainClockSelect::_16mIrc,
        MainClockSelect::_1mLposc,
        MainClockSelect::_48_60MIrc,
        MainClockSelect::_32kClk,
    ];
    let outs = [
        (ClockOutSource::Off, None),
        (ClockOutSource::M1Lposc, Some(1)),
        (ClockOutSource::MainPllClk, Some(0)),
        (ClockOutSource::Aux1PllClk, Some(2)),
        (ClockOutSource::K32Clk, Some(7)),
    ];
    for enable_16m in [false, true] {
        for enable_lposc in [false, true] {
            for enable_32k in [false, true] {
                for ffro in [_48_60mIrcSelect::Off, _48_60mIrcSelect::Mhz48] {
                    for pll in plls.iter() {
                        for main in mains.iter() {
                            for wake in [_32kWakeClkSelect::Off, _32kWakeClkSelect::Lp32k] {
                                for (cos, cod) in outs.iter() {
                                    out.push(ClockConfig {
                                        enable_32k_clk: enable_32k,
                                        enable_16m_irc: enable_16m,
                                        enable_1m_lposc: enable_lposc,
                                        _48_60m_irc_select: ffro,
                                        _32k_wake_clk_select: wake,
                                        main_pll: *pll,
                                        main_clock_select: *main,
                                        sys_cpu_ahb_div: 1,
                                        frg_clk_pll_div: None,
                                        clk_out_select: *cos,
                                        clk_out_div: *cod,
                                    });
                                }
                            }
                        }
                    }
                }
            }
        }
    }
    out
}

fn upstreams_present(config: &ClockConfig, c: &Clocks) {
    // A PLL branch is only ever reported with the PLL's input source
    // present in the registry.
    if c.main_pll_clk.is_some()
        || c.dsp_pll_clk.is_some()
        || c.aux0_pll_clk.is_some()
        || c.aux1_pll_clk.is_some()
    {
        let p = config.main_pll.as_ref().unwrap();
        match p.clock_select {
            MainPllClockSelect::_16mIrc => assert!(c._16m_irc.enabled),
            MainPllClockSelect::ClkIn => assert!(c.clk_in.is_some()),
            MainPllClockSelect::_48_60MIrcDiv2 => assert!(c._48_60m_irc.is_some()),
        }
    }
    if c.frg_pll_clk.is_some() {
        assert!(c.main_pll_clk.is_some());
    }
    if c._32k_wake_clk.is_some() {
        match config._32k_wake_clk_select {
            _32kWakeClkSelect::Off => panic!("wake clock reported while configured off"),
            _32kWakeClkSelect::_32kClk => assert!(c._32k_clk.enabled),
            _32kWakeClkSelect::Lp32k => assert!(c._1m_lposc.enabled),
        }
    }
    if c.clk_out.is_some() {
        match config.clk_out_select {
            ClockOutSource::M1Lposc => assert!(c._1m_lposc.enabled),
            ClockOutSource::MainPllClk => assert!(c.main_pll_clk.is_some()),
            ClockOutSource::Aux1PllClk => assert!(c.aux1_pll_clk.is_some()),
            ClockOutSource::K32Clk => assert!(c._32k_clk.enabled),
            ClockOutSource::Off => panic!("CLKOUT reported while configured off"),
            _ => {},
        }
    }
    // The main clock's own source is active.
    match config.main_clock_select {
        MainClockSelect::_16mIrc => assert!(c._16m_irc.enabled),
        MainClockSelect::_1mLposc => assert!(c._1m_lposc.enabled),
        MainClockSelect::_48_60MIrc => assert!(c._48_60m_irc.is_some()),
        MainClockSelect::_32kClk => assert!(c._32k_clk.enabled),
        _ => {},
    }
}

#[test]
fn bring_up_never_reports_a_node_with_an_absent_upstream() {
    let mut ran = 0u32;
    let mut ok = 0u32;
    for config in sweep_configs() {
        let mut sys = Syscon::new();
        let r = sys.init(
            config,
            ClkInSelect::Xtal { freq: 24_000_000, bypass: false, low_power: false },
        );
        ran += 1;
        match r {
            Ok(()) => {
                ok += 1;
                let clocks = sys.clocks().as_ref().unwrap();
                upstreams_present(&config, clocks);
            },
            Err(e) => {
                // A stage refused the configuration: nothing is published
                // and the error names a configuration problem.
                assert!(sys.clocks().is_none());
                assert!(matches!(e, ClockError::BadConfiguration { .. }));
            },
        }
    }
    // The sweep exercises both outcomes.
    assert!(ran > 500);
    assert!(ok > 50);
    assert!(ok < ran);
}

#[test]
fn wake_clock_from_rtc_oscillator() {
    let mut config = ClockConfig {
        enable_32k_clk: true,
        enable_16m_irc: true,
        enable_1m_lposc: false,
        _48_60m_irc_select: _48_60mIrcSelect::Off,
        _32k_wake_clk_select: _32kWakeClkSelect::_32kClk,
        main_pll: None,
        main_clock_select: MainClockSelect::_16mIrc,
        sys_cpu_ahb_div: 0,
        frg_clk_pll_div: None,
        clk_out_select: ClockOutSource::Off,
        clk_out_div: None,
    };
    let mut sys = Syscon::new();
    assert!(sys
        .init(config, ClkInSelect::Xtal { freq: 24_000_000, bypass: false, low_power: false })
        .is_ok());
    let clocks = sys.clocks().as_ref().unwrap();
    assert_eq!(clocks._32k_wake_clk, Some(32_768));
    assert!(clocks._32k_clk.enabled);

    // Without the oscillator, the same selection is refused by name.
    config.enable_32k_clk = false;
    let mut sys = Syscon::new();
    let r = sys.init(
        config,
        ClkInSelect::Xtal { freq: 24_000_000, bypass: false, low_power: false },
    );
    assert_eq!(
        r,
        Err(ClockError::BadConfiguration { reason: "32k_clk required but not enabled" })
    );
}

#[test]
fn clock_out_aux1_resolves_its_own_branch() {
    // The AUX1 CLKOUT selection validates the AUX1 branch itself: absent,
    // it is refused by that name; present, its frequency is the one
    // divided out, and the AUX0 branch is not consulted.
    let mut config = ClockConfig {
        enable_32k_clk: false,
        enable_16m_irc: true,
        enable_1m_lposc: false,
        _48_60m_irc_select: _48_60mIrcSelect::Off,
        _32k_wake_clk_select: _32kWakeClkSelect::Off,
        main_pll: None,
        main_clock_select: MainClockSelect::_16mIrc,
        sys_cpu_ahb_div: 0,
        frg_clk_pll_div: None,
        clk_out_select: ClockOutSource::Aux1PllClk,
        clk_out_div: Some(0),
    };
    let mut sys = Syscon::new();
    let r = sys.init(
        config,
        ClkInSelect::Xtal { freq: 24_000_000, bypass: false, low_power: false },
    );
    assert_eq!(
        r,
        Err(ClockError::BadConfiguration { reason: "aux1 pll needed but not enabled" })
    );

    // AUX1 fed by PFD3 at 18/24, output divider 3: 288 MHz * 18/24 =
    // 216 MHz, divided by (3 - 1) = 108 MHz; AUX0 stays gated.
    config.main_pll = Some(MainPll {
        clock_select: MainPllClockSelect::_16mIrc,
        multiplier: 18,
        pfd0_div: None,
        pfd1_div: None,
        pfd2_div: None,
        pfd3_div: Some(24),
        main_pll_clock_divider: 2,
        dsp_pll_clock_divider: 2,
        aux0_pll_clock_divider: 2,
        aux1_pll_clock_divider: 3,
    });
    let mut sys = Syscon::new();
    let r = sys.init(
        config,
        ClkInSelect::Xtal { freq: 24_000_000, bypass: false, low_power: false },
    );
    assert!(r.is_ok());
    let clocks = sys.clocks().as_ref().unwrap();
    assert_eq!(clocks.aux1_pll_clk, Some(108_000_000));
    assert_eq!(clocks.aux0_pll_clk, None);
    assert_eq!(clocks.clk_out, Some(108_000_000));
    // The stage-1 multiplexer carries the AUX1 encoding.
    assert_eq!(sys.regs.outdiv.clkoutsel1, 0b100);
}
