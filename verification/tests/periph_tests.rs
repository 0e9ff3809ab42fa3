//! The peripheral enable protocol: gate first, function-clock selection
//! under the published registry, reset release last.

use syscon_clocks::config::{
    ClkInSelect, ClockConfig, ClockOutSource, MainClockSelect, MainPll, MainPllClockSelect,
    _32kWakeClkSelect, _48_60mIrcSelect,
};
use syscon_clocks::hardware::{Bank, RegWrite};
use syscon_clocks::periph::{
    AdcConfig, AdcSel0, AdcSel1, CTimerInstance, CTimerSel, CtimerConfig, FlexcommConfig,
    FlexcommConfig14, FlexcommFclkSel, FlexcommFrgSel, FlexcommInstance, NoConfig, SCTClockSource,
    Sct0Config, UnimplementedConfig, WdtClkSel, WdtConfig, WdtInstance, ACMP, ADC0,
    CTIMER2_COUNT_CHANNEL0, DMA0, FLEXCOMM14, FLEXCOMM2, SCT0, WDT0, WDT1,
};
use syscon_clocks::registry::ClockError;
use syscon_clocks::syscon::Syscon;

fn base_config() -> ClockConfig {
    ClockConfig {
        enable_32k_clk: false,
        enable_16m_irc: true,
        enable_1m_lposc: true,
        _48_60m_irc_select: _48_60mIrcSelect::Off,
        _32k_wake_clk_select: _32kWakeClkSelect::Off,
        main_pll: None,
        main_clock_select: MainClockSelect::_16mIrc,
        sys_cpu_ahb_div: 0,
        frg_clk_pll_div: None,
        clk_out_select: ClockOutSource::Off,
        clk_out_div: None,
    }
}

fn brought_up() -> Syscon {
    let mut sys = Syscon::new();
    let r = sys.init(
        base_config(),
        ClkInSelect::Xtal { freq: 24_000_000, bypass: false, low_power: false },
    );
    assert!(r.is_ok());
    sys
}

fn brought_up_with_pll() -> Syscon {
    let mut config = base_config();
    config.main_pll = Some(MainPll {
        clock_select: MainPllClockSelect::_16mIrc,
        multiplier: 18,
        pfd0_div: Some(18),
        pfd1_div: None,
        pfd2_div: None,
        pfd3_div: None,
        main_pll_clock_divider: 2,
        dsp_pll_clock_divider: 2,
        aux0_pll_clock_divider: 2,
        aux1_pll_clock_divider: 2,
    });
    config.frg_clk_pll_div = Some(0);
    let mut sys = Syscon::new();
    let r = sys.init(
        config,
        ClkInSelect::Xtal { freq: 24_000_000, bypass: false, low_power: false },
    );
    assert!(r.is_ok());
    sys
}

#[test]
fn enable_before_bring_up_is_a_programming_error() {
    let mut sys = Syscon::new();
    let r = sys.enable::<DMA0>(&NoConfig);
    assert_eq!(r, Err(ClockError::Programming { reason: "didn't call init" }));
    // The clock still switched on first, as the hardware sequence does.
    assert_eq!(sys.regs.log.last(), Some(&RegWrite::PscctlSet(Bank::Ctl1, 1)));
}

#[test]
fn enable_and_reset_releases_the_reset_last() {
    let mut sys = brought_up();
    let before = sys.regs.log.len();
    let r = sys.enable_and_reset::<WDT0>(&WdtConfig {
        source: WdtClkSel::LpOsc1m,
        instance: WdtInstance::Wwdt0,
    });
    assert_eq!(r, Ok(1_000_000));
    let appended = &sys.regs.log[before..];
    // Gate first, then the function-clock selection, then the reset
    // release as the very last write.
    assert_eq!(appended.first(), Some(&RegWrite::PscctlSet(Bank::Ctl0, 2)));
    assert_eq!(appended.last(), Some(&RegWrite::PrstctlClr(Bank::Ctl0, 2)));
    let mux_at = appended.iter().position(|w| *w == RegWrite::Wdt0Fclksel).unwrap();
    assert!(mux_at < appended.len() - 1);
    // The reset bit is clear, the clock-enable bit set.
    assert_eq!(sys.regs.rst.rst0_prstctl2 & (1 << 1), 0);
    assert_ne!(sys.regs.gates.c0_pscctl2 & (1 << 1), 0);
}

#[test]
fn enable_and_reset_keeps_the_reset_on_failure() {
    let mut sys = brought_up();
    let r = sys.enable_and_reset::<ACMP>(&UnimplementedConfig);
    assert_eq!(r, Err(ClockError::Programming { reason: "not implemented" }));
    // The clock switched on, but the peripheral stays in reset.
    assert_ne!(sys.regs.gates.c0_pscctl1 & (1 << 15), 0);
    assert_ne!(sys.regs.rst.rst0_prstctl1 & (1 << 15), 0);
}

#[test]
fn disable_closes_the_gate() {
    let mut sys = brought_up();
    assert!(sys.enable::<DMA0>(&NoConfig).is_ok());
    assert_ne!(sys.regs.gates.c1_pscctl1 & (1 << 23), 0);
    sys.disable::<DMA0>();
    assert_eq!(sys.regs.gates.c1_pscctl1 & (1 << 23), 0);
}

#[test]
fn flexcomm_frg_identity_with_zero_mult() {
    // With mult = 0 the FRG is a unity divider: 256 / (256 + 0).
    let mut sys = brought_up();
    let r = sys.enable_and_reset::<FLEXCOMM2>(&FlexcommConfig {
        frg_clk_sel: FlexcommFrgSel::MainClk,
        fc_clk_sel: FlexcommFclkSel::FcnFrgClk,
        instance: FlexcommInstance::Flexcomm2,
        mult: 0,
    });
    assert_eq!(r, Ok(16_000_000));
    assert_eq!(sys.regs.flex.fc2.frg_mult, 0);
    assert_eq!(sys.regs.flex.fc2.frg_div, 0xFF);
    assert_eq!(sys.regs.flex.fc2.frgclksel, 0b000);
    assert_eq!(sys.regs.flex.fc2.fcfclksel, 0b100);
}

#[test]
fn flexcomm_frg_max_mult_scales_by_256_over_511() {
    // mult is an 8-bit field, so 255 is the largest representable value:
    // 16 MHz * 256 / 511 = 8_015_655 (truncated).
    let mut sys = brought_up();
    let r = sys.enable_and_reset::<FLEXCOMM2>(&FlexcommConfig {
        frg_clk_sel: FlexcommFrgSel::MainClk,
        fc_clk_sel: FlexcommFclkSel::FcnFrgClk,
        instance: FlexcommInstance::Flexcomm2,
        mult: 255,
    });
    assert_eq!(r, Ok(16_000_000u64.wrapping_mul(256).wrapping_div(511) as u32));
    assert_eq!(r, Ok(8_015_655));
}

#[test]
fn flexcomm_frg_from_frg_pll_demands_the_divider() {
    let mut sys = brought_up();
    let r = sys.enable_and_reset::<FLEXCOMM2>(&FlexcommConfig {
        frg_clk_sel: FlexcommFrgSel::FrgPllClk,
        fc_clk_sel: FlexcommFclkSel::FcnFrgClk,
        instance: FlexcommInstance::Flexcomm2,
        mult: 0,
    });
    assert_eq!(
        r,
        Err(ClockError::BadConfiguration { reason: "frg pll needed but not enabled" })
    );

    let mut sys = brought_up_with_pll();
    let r = sys.enable_and_reset::<FLEXCOMM2>(&FlexcommConfig {
        frg_clk_sel: FlexcommFrgSel::FrgPllClk,
        fc_clk_sel: FlexcommFclkSel::FcnFrgClk,
        instance: FlexcommInstance::Flexcomm2,
        mult: 0,
    });
    assert_eq!(r, Ok(288_000_000));
}

#[test]
fn flexcomm_unimplemented_selections_are_programming_errors() {
    let mut sys = brought_up();
    for sel in [FlexcommFclkSel::AudioPllClk, FlexcommFclkSel::MasterClk] {
        let r = sys.enable::<FLEXCOMM2>(&FlexcommConfig {
            frg_clk_sel: FlexcommFrgSel::MainClk,
            fc_clk_sel: sel,
            instance: FlexcommInstance::Flexcomm2,
            mult: 0,
        });
        assert_eq!(r, Err(ClockError::Programming { reason: "not implemented" }));
    }
}

#[test]
fn flexcomm14_uses_its_own_registers() {
    let mut sys = brought_up();
    let r = sys.enable_and_reset::<FLEXCOMM14>(&FlexcommConfig14 {
        frg_clk_sel: FlexcommFrgSel::SfroClk,
        fc_clk_sel: FlexcommFclkSel::FcnFrgClk,
        mult: 0,
    });
    assert_eq!(r, Ok(16_000_000));
    assert_eq!(sys.regs.flex.fc14.frgclksel, 0b010);
    assert!(sys.regs.log.contains(&RegWrite::FrgClkSel(14)));
}

#[test]
fn adc_two_stage_mux_parks_stage0_when_bypassed() {
    let mut sys = brought_up_with_pll();
    let r = sys.enable_and_reset::<ADC0>(&AdcConfig {
        sel0: AdcSel0::SfroClk,
        sel1: AdcSel1::Syspll0MainClk,
        div: 1,
    });
    // Stage 1 picks the main PLL clock (288 MHz through the divider of
    // 1 + 1); stage 0 is explicitly set to "none".
    assert_eq!(r, Ok(144_000_000));
    assert_eq!(sys.regs.sys.adc0fclksel0, 0b111);
    assert_eq!(sys.regs.sys.adc0fclksel1, 0b001);
    assert_eq!(sys.regs.sys.adc0fclkdiv_div, 1);
}

#[test]
fn adc_main_pll_selection_demands_the_branch() {
    let mut sys = brought_up();
    let r = sys.enable::<ADC0>(&AdcConfig {
        sel0: AdcSel0::Off,
        sel1: AdcSel1::Syspll0MainClk,
        div: 0,
    });
    assert_eq!(
        r,
        Err(ClockError::BadConfiguration { reason: "main_pll_clk required but disabled" })
    );
}

#[test]
fn adc_stage0_source_is_validated() {
    let mut sys = brought_up();
    let r = sys.enable::<ADC0>(&AdcConfig {
        sel0: AdcSel0::FfroClk,
        sel1: AdcSel1::Adc0fclksel0MuxOut,
        div: 0,
    });
    assert_eq!(
        r,
        Err(ClockError::BadConfiguration { reason: "48/60m_irc/ffro needed but not enabled" })
    );
    let r = sys.enable::<ADC0>(&AdcConfig {
        sel0: AdcSel0::XtalinClk,
        sel1: AdcSel1::Adc0fclksel0MuxOut,
        div: 0,
    });
    assert_eq!(r, Ok(24_000_000));
    assert_eq!(sys.regs.sys.adc0fclksel0, 0b001);
}

#[test]
fn sctimer_main_clock_never_fails() {
    let mut sys = brought_up();
    let r = sys.enable_and_reset::<SCT0>(&Sct0Config { source: SCTClockSource::Main, div: 1 });
    assert_eq!(r, Ok(8_000_000));
    assert_eq!(sys.regs.sys.sctfclksel, 0b000);
    assert_eq!(sys.regs.sys.sctfclkdiv_div, 1);
}

#[test]
fn sctimer_validates_pll_sources() {
    let mut sys = brought_up();
    let r = sys.enable::<SCT0>(&Sct0Config { source: SCTClockSource::MainPLL, div: 0 });
    assert_eq!(r, Err(ClockError::BadConfiguration { reason: "main_pll needed" }));
    let r = sys.enable::<SCT0>(&Sct0Config { source: SCTClockSource::AudioPLL, div: 0 });
    assert_eq!(r, Err(ClockError::Programming { reason: "audio pll not yet supported" }));

    let mut sys = brought_up_with_pll();
    let r = sys.enable::<SCT0>(&Sct0Config { source: SCTClockSource::MainPLL, div: 0 });
    assert_eq!(r, Ok(288_000_000));
}

#[test]
fn sctimer_off_skips_the_divider() {
    let mut sys = brought_up();
    let before = sys.regs.log.len();
    let r = sys.enable::<SCT0>(&Sct0Config { source: SCTClockSource::Off, div: 5 });
    assert_eq!(r, Ok(0));
    assert_eq!(sys.regs.sys.sctfclksel, 0b111);
    // One gate write plus the selection; the divider is untouched.
    assert_eq!(sys.regs.log.len(), before + 2);
    assert!(sys.regs.sys.sctfclkdiv_halt);
}

#[test]
fn watchdog_instances_program_their_own_banks() {
    let mut sys = brought_up();
    let r = sys.enable_and_reset::<WDT0>(&WdtConfig {
        source: WdtClkSel::LpOsc1m,
        instance: WdtInstance::Wwdt0,
    });
    assert_eq!(r, Ok(1_000_000));
    assert_eq!(sys.regs.sys.wdt0fclksel, 0b000);
    let r = sys.enable_and_reset::<WDT1>(&WdtConfig {
        source: WdtClkSel::Off,
        instance: WdtInstance::Wwdt1,
    });
    assert_eq!(r, Ok(0));
    assert_eq!(sys.regs.fclk1.wdt1fclksel, 0b111);
}

#[test]
fn counter_timer_selects_per_instance() {
    let mut sys = brought_up();
    let r = sys.enable_and_reset::<CTIMER2_COUNT_CHANNEL0>(&CtimerConfig {
        source: CTimerSel::Lposc,
        instance: CTimerInstance::CTimer2,
    });
    assert_eq!(r, Ok(1_000_000));
    assert_eq!(sys.regs.fclk1.ct32bitfclksel2, 0b101);
    assert!(sys.regs.log.contains(&RegWrite::Ct32BitFclksel(2)));

    let r = sys.enable::<CTIMER2_COUNT_CHANNEL0>(&CtimerConfig {
        source: CTimerSel::AudioPllClk,
        instance: CTimerInstance::CTimer2,
    });
    assert_eq!(r, Err(ClockError::Programming { reason: "not implemented" }));
}
