//! The user-supplied description of the desired clock tree.
//!
//! A [`ClockConfig`] is pure data: it says which oscillators to power, how
//! the main PLL is sourced, multiplied and divided, which source drives the
//! main clock, and how the derived dividers are set. It is validated by the
//! bring-up sequence, never executed on its own.

use vstd::prelude::*;

verus! {

/// Desired end-state of the clock tree.
#[derive(Clone, Copy, Debug, PartialEq)]
pub struct ClockConfig {
    /// Enable the 32.768 kHz RTC crystal oscillator.
    pub enable_32k_clk: bool,
    /// Enable the 16 MHz internal oscillator ("SFRO").
    pub enable_16m_irc: bool,
    /// Enable the 1 MHz low-power oscillator.
    pub enable_1m_lposc: bool,
    /// Trim range of the 48/60 MHz internal oscillator ("FFRO"), or off.
    pub _48_60m_irc_select: _48_60mIrcSelect,
    /// Source of the 32 kHz wake clock.
    pub _32k_wake_clk_select: _32kWakeClkSelect,
    /// Main PLL settings; `None` leaves the PLL powered down and all four
    /// of its fractional dividers gated.
    pub main_pll: Option<MainPll>,
    /// Source of the main clock.
    pub main_clock_select: MainClockSelect,
    /// Main clock divided by (1 + `sys_cpu_ahb_div`) gives the CPU/AHB clock.
    pub sys_cpu_ahb_div: u8,
    /// `main_pll_clk` divided by (1 + `frg_clk_pll_div`) feeds the Flexcomm
    /// fractional-rate generators; `None` leaves that divider untouched.
    pub frg_clk_pll_div: Option<u8>,
    /// Source of the CLKOUT pin.
    pub clk_out_select: ClockOutSource,
    /// CLKOUT divided by (1 + `clk_out_div`); `None` turns CLKOUT off.
    pub clk_out_div: Option<u8>,
}

/// Source selection for the CLKOUT pin: a 12-way multiplexer over the
/// oscillators, the PLL outputs, the main clock and the 32 kHz clock,
/// feeding one final divider.
#[derive(Copy, Clone, Debug, PartialEq)]
pub enum ClockOutSource {
    /// 16 MHz internal oscillator.
    M16Irc,
    /// External clock input.
    ClkIn,
    /// 1 MHz low-power oscillator.
    M1Lposc,
    /// 48/60 MHz internal oscillator.
    M4860Irc,
    /// The main clock.
    MainClk,
    /// DSP main clock; not wired up, selecting it is a programming error.
    DspMainClk,
    /// Main PLL clock (PFD0 after its divider).
    MainPllClk,
    /// AUX0 PLL clock (PFD2 after its divider).
    Aux0PllClk,
    /// DSP PLL clock (PFD1 after its divider).
    DspPllClk,
    /// AUX1 PLL clock (PFD3 after its divider).
    Aux1PllClk,
    /// Audio PLL clock; not wired up, selecting it is a programming error.
    AudioPllClk,
    /// 32.768 kHz RTC oscillator.
    K32Clk,
    /// No source: CLKOUT is quiet.
    Off,
}

/// Settings of the main PLL and its four fractional output dividers (PFDs).
///
/// Each PFD taps the PLL core output at an 18/`div` ratio and feeds its own
/// output clock divider. A `None` divider gates that PFD to save power.
///
/// The output clock dividers accept values in `1..=256`, but the recorded
/// frequency of each PFD branch is the PFD frequency divided by
/// (divider − 1), so a divider of exactly 1 is not accepted by bring-up:
/// the bookkeeping would divide by zero.
#[derive(Clone, Copy, Debug, PartialEq)]
pub struct MainPll {
    /// Which oscillator feeds the PLL.
    pub clock_select: MainPllClockSelect,
    /// Integer frequency multiplier. Allowed range: `16..=22`.
    pub multiplier: u8,
    /// PFD that feeds `main_pll_clk`; allowed range `12..=35`, applied
    /// multiplier `18/div`. `None` gates the PFD.
    pub pfd0_div: Option<u8>,
    /// PFD that feeds `dsp_pll_clk`; allowed range `12..=35`.
    pub pfd1_div: Option<u8>,
    /// PFD that feeds `aux0_pll_clk`; allowed range `12..=35`.
    pub pfd2_div: Option<u8>,
    /// PFD that feeds `aux1_pll_clk`; allowed range `12..=35`.
    pub pfd3_div: Option<u8>,
    /// Output clock divider for `main_pll_clk`. Allowed range: `1..=256`.
    pub main_pll_clock_divider: u16,
    /// Output clock divider for `dsp_pll_clk`. Allowed range: `1..=256`.
    pub dsp_pll_clock_divider: u16,
    /// Output clock divider for `aux0_pll_clk`. Allowed range: `1..=256`.
    pub aux0_pll_clock_divider: u16,
    /// Output clock divider for `aux1_pll_clk`. Allowed range: `1..=256`.
    pub aux1_pll_clock_divider: u16,
}

/// Input selection of the main PLL (SYSPLL0CLKSEL).
#[derive(Clone, Copy, Debug, PartialEq)]
pub enum MainPllClockSelect {
    /// 16 MHz internal oscillator.
    _16mIrc,
    /// External clock input.
    ClkIn,
    /// 48/60 MHz internal oscillator, divided by two.
    _48_60MIrcDiv2,
}

impl MainPllClockSelect {
    /// Hardware encoding of this selection in SYSPLL0CLKSEL.
    pub open spec fn spec_bits(self) -> u8 {
        match self {
            MainPllClockSelect::_16mIrc => 0,
            MainPllClockSelect::ClkIn => 1,
            MainPllClockSelect::_48_60MIrcDiv2 => 2,
        }
    }

    /// Hardware encoding of this selection in SYSPLL0CLKSEL.
    pub fn bits(&self) -> (b: u8)
        ensures
            b == self.spec_bits(),
    {
        match self {
            MainPllClockSelect::_16mIrc => 0,
            MainPllClockSelect::ClkIn => 1,
            MainPllClockSelect::_48_60MIrcDiv2 => 2,
        }
    }
}

/// How the external clock input is fed: by the main crystal oscillator, or
/// by a clock routed in on one of three pins. Each variant carries the
/// resulting input frequency in hertz; the pin variants stand for the pin
/// whose function is switched over to the clock input.
#[derive(Clone, Copy, Debug, PartialEq)]
pub enum ClkInSelect {
    /// Crystal on the XTALIN/XTALOUT pads.
    Xtal { freq: u32, bypass: bool, low_power: bool },
    /// Clock fed in on the first clock-in capable pin.
    ClkIn0_25 { freq: u32 },
    /// Clock fed in on the second clock-in capable pin.
    ClkIn2_15 { freq: u32 },
    /// Clock fed in on the third clock-in capable pin.
    ClkIn2_30 { freq: u32 },
}

impl ClkInSelect {
    /// The input frequency this selection delivers.
    pub open spec fn spec_freq(self) -> u32 {
        match self {
            ClkInSelect::Xtal { freq, .. } => freq,
            ClkInSelect::ClkIn0_25 { freq } => freq,
            ClkInSelect::ClkIn2_15 { freq } => freq,
            ClkInSelect::ClkIn2_30 { freq } => freq,
        }
    }

    /// The input frequency this selection delivers.
    pub fn freq(&self) -> (f: u32)
        ensures
            f == self.spec_freq(),
    {
        match self {
            ClkInSelect::Xtal { freq, .. } => *freq,
            ClkInSelect::ClkIn0_25 { freq } => *freq,
            ClkInSelect::ClkIn2_15 { freq } => *freq,
            ClkInSelect::ClkIn2_30 { freq } => *freq,
        }
    }
}

/// Source selection for the main clock. The hardware encodes it in two
/// two-bit fields (MAINCLKSELA in the upper bits, MAINCLKSELB in the lower).
#[derive(Clone, Copy, Debug, PartialEq)]
pub enum MainClockSelect {
    /// 48/60 MHz internal oscillator, divided by four.
    _48_60MIrcDiv4,
    /// External clock input; not wired up in this revision.
    ClkIn,
    /// 1 MHz low-power oscillator.
    _1mLposc,
    /// 48/60 MHz internal oscillator.
    _48_60MIrc,
    /// 16 MHz internal oscillator.
    _16mIrc,
    /// Main PLL clock; not wired up in this revision.
    MainPllClk,
    /// 32.768 kHz RTC oscillator.
    _32kClk,
}

impl MainClockSelect {
    /// Combined hardware encoding: MAINCLKSELA in bits 3:2, MAINCLKSELB in
    /// bits 1:0.
    pub open spec fn spec_bits(self) -> u8 {
        match self {
            MainClockSelect::_48_60MIrcDiv4 => 0b00_00,
            MainClockSelect::ClkIn => 0b01_00,
            MainClockSelect::_1mLposc => 0b10_00,
            MainClockSelect::_48_60MIrc => 0b11_00,
            MainClockSelect::_16mIrc => 0b00_01,
            MainClockSelect::MainPllClk => 0b00_10,
            MainClockSelect::_32kClk => 0b00_11,
        }
    }

    /// Combined hardware encoding: MAINCLKSELA in bits 3:2, MAINCLKSELB in
    /// bits 1:0.
    pub fn bits(&self) -> (b: u8)
        ensures
            b == self.spec_bits(),
    {
        match self {
            MainClockSelect::_48_60MIrcDiv4 => 0b00_00,
            MainClockSelect::ClkIn => 0b01_00,
            MainClockSelect::_1mLposc => 0b10_00,
            MainClockSelect::_48_60MIrc => 0b11_00,
            MainClockSelect::_16mIrc => 0b00_01,
            MainClockSelect::MainPllClk => 0b00_10,
            MainClockSelect::_32kClk => 0b00_11,
        }
    }
}

/// Trim-range selection of the 48/60 MHz internal oscillator.
#[derive(Clone, Copy, Debug, PartialEq)]
pub enum _48_60mIrcSelect {
    /// Oscillator stays powered down.
    Off,
    /// Trimmed to 48 MHz.
    Mhz48,
    /// Trimmed to 60 MHz.
    Mhz60,
}

impl _48_60mIrcSelect {
    /// The output frequency this trim range delivers, `None` when off.
    pub open spec fn spec_freq(self) -> Option<u32> {
        match self {
            _48_60mIrcSelect::Off => None,
            _48_60mIrcSelect::Mhz48 => Some(48_000_000),
            _48_60mIrcSelect::Mhz60 => Some(60_000_000),
        }
    }

    /// The output frequency this trim range delivers, `None` when off.
    pub fn freq(&self) -> (r: Option<u32>)
        ensures
            r == self.spec_freq(),
    {
        match self {
            _48_60mIrcSelect::Off => None,
            _48_60mIrcSelect::Mhz48 => Some(48_000_000),
            _48_60mIrcSelect::Mhz60 => Some(60_000_000),
        }
    }

    /// Returns `true` if the oscillator is configured off.
    #[must_use]
    pub fn is_off(&self) -> (r: bool)
        ensures
            r == (self is Off),
    {
        matches!(self, _48_60mIrcSelect::Off)
    }
}

/// Source selection for the 32 kHz wake clock.
#[derive(Clone, Copy, Debug, PartialEq)]
pub enum _32kWakeClkSelect {
    /// Wake clock off.
    Off,
    /// Sourced from the 32.768 kHz RTC oscillator.
    _32kClk,
    /// Sourced from the 1 MHz low-power oscillator divided by 32.
    Lp32k,
}

impl _32kWakeClkSelect {
    /// Hardware encoding of this selection in WAKECLK32KHZSEL.
    pub open spec fn spec_bits(self) -> u8 {
        match self {
            _32kWakeClkSelect::Off => 0b111,
            _32kWakeClkSelect::_32kClk => 0b000,
            _32kWakeClkSelect::Lp32k => 0b001,
        }
    }

    /// Hardware encoding of this selection in WAKECLK32KHZSEL.
    pub fn bits(&self) -> (b: u8)
        ensures
            b == self.spec_bits(),
    {
        match self {
            _32kWakeClkSelect::Off => 0b111,
            _32kWakeClkSelect::_32kClk => 0b000,
            _32kWakeClkSelect::Lp32k => 0b001,
        }
    }

    /// Returns `true` if the wake clock is configured off.
    #[must_use]
    pub fn is_off(&self) -> (r: bool)
        ensures
            r == (self is Off),
    {
        matches!(self, _32kWakeClkSelect::Off)
    }
}

} // verus!
