//! The frequency registry: the authoritative record of the current
//! frequency of every bring-up-time clock node.
//!
//! A [`Clocks`] value is created empty when bring-up starts, filled in as
//! nodes are activated, and then published read-only. Each `ensure_*`
//! accessor returns the frequency of a node that is already active, and a
//! bad-configuration error naming the node otherwise — a downstream
//! consumer can never read the frequency of an inactive upstream node.

use vstd::prelude::*;

verus! {

/// A fixed-frequency oscillator represented only by its enabled flag; the
/// frequency is the type parameter.
#[derive(Clone, Copy, Debug, PartialEq, Eq)]
pub struct StaticClock<const F: u32> {
    /// Whether the oscillator has been powered up.
    pub enabled: bool,
}

impl<const F: u32> StaticClock<F> {
    /// The frequency when enabled, `None` otherwise.
    pub open spec fn spec_as_option(self) -> Option<u32> {
        if self.enabled {
            Some(F)
        } else {
            None
        }
    }

    /// The frequency when enabled, `None` otherwise.
    pub fn as_option(self) -> (r: Option<u32>)
        ensures
            r == self.spec_as_option(),
    {
        if self.enabled {
            Some(F)
        } else {
            None
        }
    }

    /// The fixed frequency of the oscillator.
    pub fn frequency(&self) -> (r: u32)
        ensures
            r == F,
    {
        F
    }
}

/// Why a clock operation was refused.
#[derive(Clone, Copy, Debug, PartialEq, Eq)]
pub enum ClockError {
    /// The requested configuration was impossible or conflicting.
    BadConfiguration { reason: &'static str },
    /// An internal consistency violation that correct call ordering makes
    /// impossible; a defect in the calling code, not in the configuration.
    Programming { reason: &'static str },
    /// Bring-up was attempted a second time.
    AlreadyConfigured,
}

impl ClockError {
    /// A bad-configuration error naming the offending node.
    pub fn bad_config(reason: &'static str) -> (r: Self)
        ensures
            r == (ClockError::BadConfiguration { reason }),
    {
        ClockError::BadConfiguration { reason }
    }

    /// A programming error naming the violated expectation.
    pub fn prog_err(reason: &'static str) -> (r: Self)
        ensures
            r == (ClockError::Programming { reason }),
    {
        ClockError::Programming { reason }
    }
}

/// The registry itself: one entry per tracked clock node. `None` (or a
/// cleared enabled flag) means the node is deliberately off, distinct from
/// a frequency that was simply never computed — bring-up writes every
/// entry exactly once.
#[derive(Clone, Debug, PartialEq, Eq)]
pub struct Clocks {
    /// "LPOSC", a very low power 1 MHz oscillator.
    pub _1m_lposc: StaticClock<1_000_000>,
    /// "SFRO", the 16 MHz internal oscillator.
    pub _16m_irc: StaticClock<16_000_000>,
    /// The 32.768 kHz RTC crystal oscillator.
    pub _32k_clk: StaticClock<32_768>,
    /// The 32 kHz wake clock, sourced from the RTC oscillator or from the
    /// 1 MHz oscillator divided by 32.
    pub _32k_wake_clk: Option<u32>,
    /// "FFRO", the 48 or 60 MHz internal oscillator.
    pub _48_60m_irc: Option<u32>,
    /// Main PLL output through PFD0 and the main PLL clock divider.
    pub main_pll_clk: Option<u32>,
    /// Main PLL output through PFD1 and the DSP PLL clock divider.
    pub dsp_pll_clk: Option<u32>,
    /// Main PLL output through PFD2 and the AUX0 PLL clock divider.
    pub aux0_pll_clk: Option<u32>,
    /// Main PLL output through PFD3 and the AUX1 PLL clock divider.
    pub aux1_pll_clk: Option<u32>,
    /// External clock-in source.
    pub clk_in: Option<u32>,
    /// The main clock; always defined once bring-up has run, since nothing
    /// downstream can function without it.
    pub main_clk: u32,
    /// The CPU/AHB clock: main clock through the CPU clock divider.
    pub sys_cpu_ahb_clk: Option<u32>,
    /// Main PLL clock through the Flexcomm FRG divider.
    pub frg_pll_clk: Option<u32>,
    /// The CLKOUT output.
    pub clk_out: Option<u32>,
}

impl Clocks {
    /// The empty registry: every node off, the main clock not yet resolved.
    pub fn new() -> (r: Clocks)
        ensures
            r == Clocks::spec_new(),
    {
        Clocks {
            _1m_lposc: StaticClock { enabled: false },
            _16m_irc: StaticClock { enabled: false },
            _32k_clk: StaticClock { enabled: false },
            _32k_wake_clk: None,
            _48_60m_irc: None,
            main_pll_clk: None,
            dsp_pll_clk: None,
            aux0_pll_clk: None,
            aux1_pll_clk: None,
            clk_in: None,
            main_clk: 0,
            sys_cpu_ahb_clk: None,
            frg_pll_clk: None,
            clk_out: None,
        }
    }

    /// The empty registry: every node off, the main clock not yet resolved.
    pub open spec fn spec_new() -> Clocks {
        Clocks {
            _1m_lposc: StaticClock { enabled: false },
            _16m_irc: StaticClock { enabled: false },
            _32k_clk: StaticClock { enabled: false },
            _32k_wake_clk: None,
            _48_60m_irc: None,
            main_pll_clk: None,
            dsp_pll_clk: None,
            aux0_pll_clk: None,
            aux1_pll_clk: None,
            clk_in: None,
            main_clk: 0,
            sys_cpu_ahb_clk: None,
            frg_pll_clk: None,
            clk_out: None,
        }
    }

    /// Frequency of the 1 MHz low-power oscillator, if active.
    pub fn ensure_1m_lposc(&self) -> (r: Result<u32, ClockError>)
        ensures
            self._1m_lposc.enabled ==> r == Ok::<u32, ClockError>(1_000_000),
            !self._1m_lposc.enabled ==> r == Err::<u32, ClockError>(
                ClockError::BadConfiguration { reason: "1m_irc/lposc needed but not enabled" },
            ),
    {
        if self._1m_lposc.enabled {
            Ok(self._1m_lposc.frequency())
        } else {
            Err(ClockError::bad_config("1m_irc/lposc needed but not enabled"))
        }
    }

    /// Frequency of the 16 MHz internal oscillator, if active.
    pub fn ensure_16m_sfro(&self) -> (r: Result<u32, ClockError>)
        ensures
            self._16m_irc.enabled ==> r == Ok::<u32, ClockError>(16_000_000),
            !self._16m_irc.enabled ==> r == Err::<u32, ClockError>(
                ClockError::BadConfiguration { reason: "16m_irc/sfro needed but not enabled" },
            ),
    {
        if self._16m_irc.enabled {
            Ok(self._16m_irc.frequency())
        } else {
            Err(ClockError::bad_config("16m_irc/sfro needed but not enabled"))
        }
    }

    /// Frequency of the 48/60 MHz internal oscillator, if active.
    pub fn ensure_48_60_ffro(&self) -> (r: Result<u32, ClockError>)
        ensures
            r == match self._48_60m_irc {
                Some(f) => Ok::<u32, ClockError>(f),
                None => Err::<u32, ClockError>(
                    ClockError::BadConfiguration { reason: "48/60m_irc/ffro needed but not enabled" },
                ),
            },
    {
        match self._48_60m_irc {
            Some(f) => Ok(f),
            None => Err(ClockError::bad_config("48/60m_irc/ffro needed but not enabled")),
        }
    }

    /// Frequency of the DSP PLL branch, if active.
    pub fn ensure_dsp_pll(&self) -> (r: Result<u32, ClockError>)
        ensures
            r == match self.dsp_pll_clk {
                Some(f) => Ok::<u32, ClockError>(f),
                None => Err::<u32, ClockError>(
                    ClockError::BadConfiguration { reason: "dsp pll needed but not enabled" },
                ),
            },
    {
        match self.dsp_pll_clk {
            Some(f) => Ok(f),
            None => Err(ClockError::bad_config("dsp pll needed but not enabled")),
        }
    }

    /// Frequency of the AUX0 PLL branch, if active.
    pub fn ensure_aux0_pll(&self) -> (r: Result<u32, ClockError>)
        ensures
            r == match self.aux0_pll_clk {
                Some(f) => Ok::<u32, ClockError>(f),
                None => Err::<u32, ClockError>(
                    ClockError::BadConfiguration { reason: "aux0 pll needed but not enabled" },
                ),
            },
    {
        match self.aux0_pll_clk {
            Some(f) => Ok(f),
            None => Err(ClockError::bad_config("aux0 pll needed but not enabled")),
        }
    }

    /// Frequency of the AUX1 PLL branch, if active.
    pub fn ensure_aux1_pll(&self) -> (r: Result<u32, ClockError>)
        ensures
            r == match self.aux1_pll_clk {
                Some(f) => Ok::<u32, ClockError>(f),
                None => Err::<u32, ClockError>(
                    ClockError::BadConfiguration { reason: "aux1 pll needed but not enabled" },
                ),
            },
    {
        match self.aux1_pll_clk {
            Some(f) => Ok(f),
            None => Err(ClockError::bad_config("aux1 pll needed but not enabled")),
        }
    }

    /// Frequency behind the Flexcomm FRG PLL divider, if active.
    pub fn ensure_frg_pll(&self) -> (r: Result<u32, ClockError>)
        ensures
            r == match self.frg_pll_clk {
                Some(f) => Ok::<u32, ClockError>(f),
                None => Err::<u32, ClockError>(
                    ClockError::BadConfiguration { reason: "frg pll needed but not enabled" },
                ),
            },
    {
        match self.frg_pll_clk {
            Some(f) => Ok(f),
            None => Err(ClockError::bad_config("frg pll needed but not enabled")),
        }
    }

    /// Frequency of the external clock input, if configured.
    pub fn ensure_xtal_in(&self) -> (r: Result<u32, ClockError>)
        ensures
            r == match self.clk_in {
                Some(f) => Ok::<u32, ClockError>(f),
                None => Err::<u32, ClockError>(
                    ClockError::BadConfiguration { reason: "xtal_in needed but not enabled" },
                ),
            },
    {
        match self.clk_in {
            Some(f) => Ok(f),
            None => Err(ClockError::bad_config("xtal_in needed but not enabled")),
        }
    }

    /// Frequency of the 32.768 kHz RTC oscillator, if active.
    pub fn ensure_32k_clk(&self) -> (r: Result<u32, ClockError>)
        ensures
            self._32k_clk.enabled ==> r == Ok::<u32, ClockError>(32_768),
            !self._32k_clk.enabled ==> r == Err::<u32, ClockError>(
                ClockError::BadConfiguration { reason: "32k_clk needed but not enabled" },
            ),
    {
        if self._32k_clk.enabled {
            Ok(self._32k_clk.frequency())
        } else {
            Err(ClockError::bad_config("32k_clk needed but not enabled"))
        }
    }

    /// Frequency of the CPU/AHB clock, if resolved.
    pub fn ensure_hclk(&self) -> (r: Result<u32, ClockError>)
        ensures
            r == match self.sys_cpu_ahb_clk {
                Some(f) => Ok::<u32, ClockError>(f),
                None => Err::<u32, ClockError>(
                    ClockError::BadConfiguration { reason: "hclk needed but not enabled" },
                ),
            },
    {
        match self.sys_cpu_ahb_clk {
            Some(f) => Ok(f),
            None => Err(ClockError::bad_config("hclk needed but not enabled")),
        }
    }
}

} // verus!
