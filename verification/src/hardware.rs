//! The register image of the system-control block.
//!
//! The hardware is an opaque set of read/modify/write ports; this module
//! models exactly the registers and fields the clock logic touches, as plain
//! values, grouped by the zone of the clock tree they belong to. Every write
//! is also appended to [`Registers::log`], so contracts can speak about
//! *which* registers were written and in *what order* — not only about the
//! values they ended up holding. Busy waits on hardware acknowledgment flags
//! are assumed to complete (the flags are not modeled); the calibrated
//! lock waits are marked in the record in place, with their lengths in
//! [`Registers::delays`].

use vstd::prelude::*;

verus! {

/// The two clock-control / reset-control register banks.
#[derive(Clone, Copy, Debug, PartialEq, Eq, Structural)]
pub enum Bank {
    /// CLKCTL0 / RSTCTL0.
    Ctl0,
    /// CLKCTL1 / RSTCTL1.
    Ctl1,
}

/// Trim range of the 48/60 MHz oscillator as written to FFROCTL0.
#[derive(Clone, Copy, Debug, PartialEq, Eq, Structural)]
pub enum TrimRange {
    /// Trimmed to 48 MHz.
    Ffro48mhz,
    /// Trimmed to 60 MHz.
    Ffro60mhz,
}

/// Names one entry of the recorded hardware sequence — a register write,
/// or a calibrated lock wait standing in its place in the order; the
/// entries of [`Registers::log`], in the order they happened.
#[derive(Clone, Copy, Debug, PartialEq, Eq, Structural)]
pub enum RegWrite {
    /// System oscillator control (bypass / low power).
    Sysoscctl0,
    /// Pin function select routing a clock-in pin.
    Iopctl,
    /// Power-down configuration (oscillator and PLL power bits).
    Pdruncfg0,
    /// FFRO trim range.
    Ffroctl0,
    /// FFRO update mode.
    Ffroctl1,
    /// RTC 32 kHz oscillator enable.
    Osc32khzctl0,
    /// Main PLL input select.
    Syspll0Clksel,
    /// Main PLL fractional numerator.
    Syspll0Num,
    /// Main PLL fractional denominator.
    Syspll0Denom,
    /// Main PLL control (multiplier, bypass, holdringoff).
    Syspll0Ctl0,
    /// PFD dividers and gates of the main PLL.
    Syspll0Pfd,
    /// Main PLL clock divider (PFD0 branch).
    Mainpllclkdiv,
    /// DSP PLL clock divider (PFD1 branch).
    Dsppllclkdiv,
    /// AUX0 PLL clock divider (PFD2 branch).
    Aux0Pllclkdiv,
    /// AUX1 PLL clock divider (PFD3 branch).
    Aux1Pllclkdiv,
    /// Main clock select A.
    Mainclksela,
    /// Main clock select B.
    Mainclkselb,
    /// CPU/AHB clock divider.
    Syscpuahbclkdiv,
    /// PLL-to-Flexcomm FRG divider.
    Frgpllclkdiv,
    /// 32 kHz wake clock select.
    Wakeclk32khzsel,
    /// CLKOUT select stage 0.
    Clkoutsel0,
    /// CLKOUT select stage 1.
    Clkoutsel1,
    /// CLKOUT divider.
    Clkoutdiv,
    /// ADC function-clock select stage 0.
    Adc0Fclksel0,
    /// ADC function-clock select stage 1.
    Adc0Fclksel1,
    /// ADC function-clock divider.
    Adc0Fclkdiv,
    /// SCTimer/PWM function-clock select.
    Sctfclksel,
    /// SCTimer/PWM function-clock divider.
    Sctfclkdiv,
    /// Watchdog 0 function-clock select.
    Wdt0Fclksel,
    /// Watchdog 1 function-clock select.
    Wdt1Fclksel,
    /// Counter-timer function-clock select of the given instance.
    Ct32BitFclksel(u8),
    /// Flexcomm FRG clock select of the given instance.
    FrgClkSel(u8),
    /// Flexcomm function-clock select of the given instance.
    FcFclkSel(u8),
    /// Flexcomm FRG control (MULT/DIV) of the given instance.
    FrgCtl(u8),
    /// Peripheral clock gate set in the given bank and PSCCTL register.
    PscctlSet(Bank, u8),
    /// Peripheral clock gate clear in the given bank and PSCCTL register.
    PscctlClr(Bank, u8),
    /// Peripheral reset release in the given bank and PRSTCTL register.
    PrstctlClr(Bank, u8),
    /// A calibrated PLL lock wait elapsed at this point of the sequence;
    /// no register is written, and the length in CPU ticks stands in
    /// [`Registers::delays`].
    LockDelay,
}

/// Oscillator control: the system oscillator, the FFRO trim, the RTC
/// oscillator enable and the oscillator power-down bits (a power-down bit
/// is `true` when the domain is off).
#[derive(Clone, Copy, Debug, PartialEq, Eq, Structural)]
pub struct OscRegs {
    /// System oscillator bypass enable.
    pub sysoscctl0_bypass: bool,
    /// System oscillator low-power mode.
    pub sysoscctl0_lp: bool,
    /// FFRO trim range.
    pub ffroctl0_trim: TrimRange,
    /// FFRO safe update mode.
    pub ffroctl1_safe_mode: bool,
    /// RTC 32 kHz oscillator enable.
    pub osc32khzctl0_ena: bool,
    /// SFRO power down.
    pub pd_sfro: bool,
    /// FFRO power down.
    pub pd_ffro: bool,
    /// LPOSC power down.
    pub pd_lposc: bool,
}

/// Main PLL control: power, input select, multiplier and the four PFD
/// dividers with their gates.
#[derive(Clone, Copy, Debug, PartialEq, Eq, Structural)]
pub struct PllRegs {
    /// Main PLL LDO power down.
    pub pd_syspllldo: bool,
    /// Main PLL analog power down.
    pub pd_syspllana: bool,
    /// Main PLL input select (7 = none).
    pub syspll0clksel: u8,
    /// Main PLL fractional numerator.
    pub syspll0num: u32,
    /// Main PLL fractional denominator.
    pub syspll0denom: u32,
    /// Main PLL bypass.
    pub syspll0_bypass: bool,
    /// Main PLL reset.
    pub syspll0_reset: bool,
    /// Main PLL integer multiplier.
    pub syspll0_mult: u8,
    /// Main PLL holdringoff enable.
    pub syspll0_holdringoff: bool,
    /// Half the PLL lock time in microseconds; read-only, set by hardware.
    pub syspll0locktimediv2: u16,
    /// PFD0 divider.
    pub pfd0_div: u8,
    /// PFD0 gate (`true` = gated).
    pub pfd0_gated: bool,
    /// PFD1 divider.
    pub pfd1_div: u8,
    /// PFD1 gate.
    pub pfd1_gated: bool,
    /// PFD2 divider.
    pub pfd2_div: u8,
    /// PFD2 gate.
    pub pfd2_gated: bool,
    /// PFD3 divider.
    pub pfd3_div: u8,
    /// PFD3 gate.
    pub pfd3_gated: bool,
}

/// The output clock dividers of the four PFD branches.
#[derive(Clone, Copy, Debug, PartialEq, Eq, Structural)]
pub struct PfdDivRegs {
    /// PFD0 output divider value.
    pub mainpllclkdiv_div: u8,
    /// PFD0 output divider halt.
    pub mainpllclkdiv_halt: bool,
    /// PFD1 output divider value.
    pub dsppllclkdiv_div: u8,
    /// PFD1 output divider halt.
    pub dsppllclkdiv_halt: bool,
    /// PFD2 output divider value.
    pub aux0pllclkdiv_div: u8,
    /// PFD2 output divider halt.
    pub aux0pllclkdiv_halt: bool,
    /// PFD3 output divider value.
    pub aux1pllclkdiv_div: u8,
    /// PFD3 output divider halt.
    pub aux1pllclkdiv_halt: bool,
}

/// Main clock selection, the CPU/AHB divider, the wake clock select, and
/// the CLKCTL0 function clocks (ADC, SCTimer, watchdog 0).
#[derive(Clone, Copy, Debug, PartialEq, Eq, Structural)]
pub struct SysRegs {
    /// Main clock select A.
    pub mainclksela: u8,
    /// Main clock select B.
    pub mainclkselb: u8,
    /// CPU/AHB clock divider.
    pub syscpuahbclkdiv_div: u8,
    /// 32 kHz wake clock select.
    pub wakeclk32khzsel: u8,
    /// ADC function-clock select stage 0.
    pub adc0fclksel0: u8,
    /// ADC function-clock select stage 1.
    pub adc0fclksel1: u8,
    /// ADC function-clock divider.
    pub adc0fclkdiv_div: u8,
    /// ADC function-clock divider halt.
    pub adc0fclkdiv_halt: bool,
    /// SCTimer function-clock select.
    pub sctfclksel: u8,
    /// SCTimer function-clock divider.
    pub sctfclkdiv_div: u8,
    /// SCTimer function-clock divider halt.
    pub sctfclkdiv_halt: bool,
    /// Watchdog 0 function-clock select.
    pub wdt0fclksel: u8,
}

/// The FRG PLL divider and the CLKOUT path in CLKCTL1.
#[derive(Clone, Copy, Debug, PartialEq, Eq, Structural)]
pub struct OutRegs {
    /// PLL-to-Flexcomm FRG divider.
    pub frgpllclkdiv_div: u8,
    /// CLKOUT select stage 0.
    pub clkoutsel0: u8,
    /// CLKOUT select stage 1.
    pub clkoutsel1: u8,
    /// CLKOUT divider value.
    pub clkoutdiv_div: u8,
    /// CLKOUT divider halt.
    pub clkoutdiv_halt: bool,
}

/// The function-clock registers of one Flexcomm instance.
#[derive(Clone, Copy, Debug, PartialEq, Eq, Structural)]
pub struct FlexcommRegs {
    /// FRG input clock select.
    pub frgclksel: u8,
    /// Function clock select.
    pub fcfclksel: u8,
    /// FRG fractional multiplier.
    pub frg_mult: u8,
    /// FRG fractional divider (always programmed to 0xFF).
    pub frg_div: u8,
}

/// The function-clock registers of all Flexcomm instances.
#[derive(Clone, Copy, Debug, PartialEq, Eq, Structural)]
pub struct FlexRegs {
    /// Flexcomm 0.
    pub fc0: FlexcommRegs,
    /// Flexcomm 1.
    pub fc1: FlexcommRegs,
    /// Flexcomm 2.
    pub fc2: FlexcommRegs,
    /// Flexcomm 3.
    pub fc3: FlexcommRegs,
    /// Flexcomm 4.
    pub fc4: FlexcommRegs,
    /// Flexcomm 5.
    pub fc5: FlexcommRegs,
    /// Flexcomm 6.
    pub fc6: FlexcommRegs,
    /// Flexcomm 7.
    pub fc7: FlexcommRegs,
    /// Flexcomm 14 (HS SPI).
    pub fc14: FlexcommRegs,
    /// Flexcomm 15 (PMIC I2C).
    pub fc15: FlexcommRegs,
}

/// The remaining CLKCTL1 function clocks (watchdog 1 and counter-timers).
#[derive(Clone, Copy, Debug, PartialEq, Eq, Structural)]
pub struct Fclk1Regs {
    /// Watchdog 1 function-clock select.
    pub wdt1fclksel: u8,
    /// Counter-timer 0 function-clock select.
    pub ct32bitfclksel0: u8,
    /// Counter-timer 1 function-clock select.
    pub ct32bitfclksel1: u8,
    /// Counter-timer 2 function-clock select.
    pub ct32bitfclksel2: u8,
    /// Counter-timer 3 function-clock select.
    pub ct32bitfclksel3: u8,
    /// Counter-timer 4 function-clock select.
    pub ct32bitfclksel4: u8,
}

/// The peripheral clock-gate registers (PSCCTL0..2) of both clock banks.
/// A set bit lets the peripheral's bus clock run.
#[derive(Clone, Copy, Debug, PartialEq, Eq, Structural)]
pub struct GateRegs {
    /// CLKCTL0 PSCCTL0.
    pub c0_pscctl0: u32,
    /// CLKCTL0 PSCCTL1.
    pub c0_pscctl1: u32,
    /// CLKCTL0 PSCCTL2.
    pub c0_pscctl2: u32,
    /// CLKCTL1 PSCCTL0.
    pub c1_pscctl0: u32,
    /// CLKCTL1 PSCCTL1.
    pub c1_pscctl1: u32,
    /// CLKCTL1 PSCCTL2.
    pub c1_pscctl2: u32,
}

/// The peripheral reset registers of both banks; a set bit holds the
/// peripheral in reset.
#[derive(Clone, Copy, Debug, PartialEq, Eq, Structural)]
pub struct RstRegs {
    /// RSTCTL0 PRSTCTL0.
    pub rst0_prstctl0: u32,
    /// RSTCTL0 PRSTCTL1.
    pub rst0_prstctl1: u32,
    /// RSTCTL0 PRSTCTL2.
    pub rst0_prstctl2: u32,
    /// RSTCTL1 PRSTCTL0.
    pub rst1_prstctl0: u32,
    /// RSTCTL1 PRSTCTL1.
    pub rst1_prstctl1: u32,
    /// RSTCTL1 PRSTCTL2.
    pub rst1_prstctl2: u32,
}

/// The whole register image: current values plus the ordered record of the
/// writes and delays that produced them.
#[derive(Clone, Debug, PartialEq, Eq)]
pub struct Registers {
    /// Oscillator control and power.
    pub osc: OscRegs,
    /// Main PLL control.
    pub pll: PllRegs,
    /// PFD output dividers.
    pub pfddiv: PfdDivRegs,
    /// Main clock, CPU divider, wake clock and CLKCTL0 function clocks.
    pub sys: SysRegs,
    /// FRG PLL divider and CLKOUT path.
    pub outdiv: OutRegs,
    /// Flexcomm function clocks.
    pub flex: FlexRegs,
    /// Watchdog 1 and counter-timer function clocks.
    pub fclk1: Fclk1Regs,
    /// Peripheral clock gates.
    pub gates: GateRegs,
    /// Peripheral resets.
    pub rst: RstRegs,
    /// Every register write, in order.
    pub log: Vec<RegWrite>,
    /// Every calibrated busy-wait, in order, in CPU ticks.
    pub delays: Vec<u32>,
}

/// `new` extends `old`: the old record is an unchanged prefix of the new one.
pub open spec fn log_extends(new: Seq<RegWrite>, old: Seq<RegWrite>) -> bool {
    &&& new.len() >= old.len()
    &&& forall|i: int| 0 <= i < old.len() ==> new[i] == old[i]
}

/// Reset state of the oscillator zone: everything powered down.
pub open spec fn spec_reset_osc() -> OscRegs {
    OscRegs {
        sysoscctl0_bypass: false,
        sysoscctl0_lp: false,
        ffroctl0_trim: TrimRange::Ffro48mhz,
        ffroctl1_safe_mode: false,
        osc32khzctl0_ena: false,
        pd_sfro: true,
        pd_ffro: true,
        pd_lposc: true,
    }
}

/// Reset state of the PLL zone: powered down, input select "none", gated.
pub open spec fn spec_reset_pll() -> PllRegs {
    PllRegs {
        pd_syspllldo: true,
        pd_syspllana: true,
        syspll0clksel: 0b111,
        syspll0num: 0,
        syspll0denom: 0,
        syspll0_bypass: false,
        syspll0_reset: true,
        syspll0_mult: 0,
        syspll0_holdringoff: false,
        syspll0locktimediv2: 0,
        pfd0_div: 0,
        pfd0_gated: true,
        pfd1_div: 0,
        pfd1_gated: true,
        pfd2_div: 0,
        pfd2_gated: true,
        pfd3_div: 0,
        pfd3_gated: true,
    }
}

/// Reset state of the PFD output dividers: halted.
pub open spec fn spec_reset_pfddiv() -> PfdDivRegs {
    PfdDivRegs {
        mainpllclkdiv_div: 0,
        mainpllclkdiv_halt: true,
        dsppllclkdiv_div: 0,
        dsppllclkdiv_halt: true,
        aux0pllclkdiv_div: 0,
        aux0pllclkdiv_halt: true,
        aux1pllclkdiv_div: 0,
        aux1pllclkdiv_halt: true,
    }
}

/// Reset state of the main clock and CLKCTL0 function-clock zone.
pub open spec fn spec_reset_sys() -> SysRegs {
    SysRegs {
        mainclksela: 0,
        mainclkselb: 0,
        syscpuahbclkdiv_div: 0,
        wakeclk32khzsel: 0b111,
        adc0fclksel0: 0b111,
        adc0fclksel1: 0b111,
        adc0fclkdiv_div: 0,
        adc0fclkdiv_halt: true,
        sctfclksel: 0b111,
        sctfclkdiv_div: 0,
        sctfclkdiv_halt: true,
        wdt0fclksel: 0b111,
    }
}

/// Reset state of the FRG divider and CLKOUT path.
pub open spec fn spec_reset_outdiv() -> OutRegs {
    OutRegs {
        frgpllclkdiv_div: 0,
        clkoutsel0: 0b111,
        clkoutsel1: 0b111,
        clkoutdiv_div: 0,
        clkoutdiv_halt: true,
    }
}

/// Reset state of one Flexcomm instance's function-clock registers.
pub open spec fn spec_reset_fc() -> FlexcommRegs {
    FlexcommRegs { frgclksel: 0b111, fcfclksel: 0b111, frg_mult: 0, frg_div: 0 }
}

/// Reset state of the Flexcomm function clocks.
pub open spec fn spec_reset_flex() -> FlexRegs {
    FlexRegs {
        fc0: spec_reset_fc(),
        fc1: spec_reset_fc(),
        fc2: spec_reset_fc(),
        fc3: spec_reset_fc(),
        fc4: spec_reset_fc(),
        fc5: spec_reset_fc(),
        fc6: spec_reset_fc(),
        fc7: spec_reset_fc(),
        fc14: spec_reset_fc(),
        fc15: spec_reset_fc(),
    }
}

/// Reset state of the remaining CLKCTL1 function clocks.
pub open spec fn spec_reset_fclk1() -> Fclk1Regs {
    Fclk1Regs {
        wdt1fclksel: 0b111,
        ct32bitfclksel0: 0b111,
        ct32bitfclksel1: 0b111,
        ct32bitfclksel2: 0b111,
        ct32bitfclksel3: 0b111,
        ct32bitfclksel4: 0b111,
    }
}

/// Reset state of the clock gates: every gate closed.
pub open spec fn spec_reset_gates() -> GateRegs {
    GateRegs {
        c0_pscctl0: 0,
        c0_pscctl1: 0,
        c0_pscctl2: 0,
        c1_pscctl0: 0,
        c1_pscctl1: 0,
        c1_pscctl2: 0,
    }
}

/// Reset state of the peripheral reset registers: everything held in reset.
pub open spec fn spec_reset_rst() -> RstRegs {
    RstRegs {
        rst0_prstctl0: 0xFFFF_FFFF,
        rst0_prstctl1: 0xFFFF_FFFF,
        rst0_prstctl2: 0xFFFF_FFFF,
        rst1_prstctl0: 0xFFFF_FFFF,
        rst1_prstctl1: 0xFFFF_FFFF,
        rst1_prstctl2: 0xFFFF_FFFF,
    }
}

impl Registers {
    /// The register image as the hardware presents it out of reset, with an
    /// empty write record.
    pub fn new() -> (r: Registers)
        ensures
            r.osc == spec_reset_osc(),
            r.pll == spec_reset_pll(),
            r.pfddiv == spec_reset_pfddiv(),
            r.sys == spec_reset_sys(),
            r.outdiv == spec_reset_outdiv(),
            r.flex == spec_reset_flex(),
            r.fclk1 == spec_reset_fclk1(),
            r.gates == spec_reset_gates(),
            r.rst == spec_reset_rst(),
            r.log@ == Seq::<RegWrite>::empty(),
            r.delays@ == Seq::<u32>::empty(),
    {
        Registers {
            osc: OscRegs {
                sysoscctl0_bypass: false,
                sysoscctl0_lp: false,
                ffroctl0_trim: TrimRange::Ffro48mhz,
                ffroctl1_safe_mode: false,
                osc32khzctl0_ena: false,
                pd_sfro: true,
                pd_ffro: true,
                pd_lposc: true,
            },
            pll: PllRegs {
                pd_syspllldo: true,
                pd_syspllana: true,
                syspll0clksel: 0b111,
                syspll0num: 0,
                syspll0denom: 0,
                syspll0_bypass: false,
                syspll0_reset: true,
                syspll0_mult: 0,
                syspll0_holdringoff: false,
                syspll0locktimediv2: 0,
                pfd0_div: 0,
                pfd0_gated: true,
                pfd1_div: 0,
                pfd1_gated: true,
                pfd2_div: 0,
                pfd2_gated: true,
                pfd3_div: 0,
                pfd3_gated: true,
            },
            pfddiv: PfdDivRegs {
                mainpllclkdiv_div: 0,
                mainpllclkdiv_halt: true,
                dsppllclkdiv_div: 0,
                dsppllclkdiv_halt: true,
                aux0pllclkdiv_div: 0,
                aux0pllclkdiv_halt: true,
                aux1pllclkdiv_div: 0,
                aux1pllclkdiv_halt: true,
            },
            sys: SysRegs {
                mainclksela: 0,
                mainclkselb: 0,
                syscpuahbclkdiv_div: 0,
                wakeclk32khzsel: 0b111,
                adc0fclksel0: 0b111,
                adc0fclksel1: 0b111,
                adc0fclkdiv_div: 0,
                adc0fclkdiv_halt: true,
                sctfclksel: 0b111,
                sctfclkdiv_div: 0,
                sctfclkdiv_halt: true,
                wdt0fclksel: 0b111,
            },
            outdiv: OutRegs {
                frgpllclkdiv_div: 0,
                clkoutsel0: 0b111,
                clkoutsel1: 0b111,
                clkoutdiv_div: 0,
                clkoutdiv_halt: true,
            },
            flex: FlexRegs {
                fc0: FlexcommRegs { frgclksel: 0b111, fcfclksel: 0b111, frg_mult: 0, frg_div: 0 },
                fc1: FlexcommRegs { frgclksel: 0b111, fcfclksel: 0b111, frg_mult: 0, frg_div: 0 },
                fc2: FlexcommRegs { frgclksel: 0b111, fcfclksel: 0b111, frg_mult: 0, frg_div: 0 },
                fc3: FlexcommRegs { frgclksel: 0b111, fcfclksel: 0b111, frg_mult: 0, frg_div: 0 },
                fc4: FlexcommRegs { frgclksel: 0b111, fcfclksel: 0b111, frg_mult: 0, frg_div: 0 },
                fc5: FlexcommRegs { frgclksel: 0b111, fcfclksel: 0b111, frg_mult: 0, frg_div: 0 },
                fc6: FlexcommRegs { frgclksel: 0b111, fcfclksel: 0b111, frg_mult: 0, frg_div: 0 },
                fc7: FlexcommRegs { frgclksel: 0b111, fcfclksel: 0b111, frg_mult: 0, frg_div: 0 },
                fc14: FlexcommRegs { frgclksel: 0b111, fcfclksel: 0b111, frg_mult: 0, frg_div: 0 },
                fc15: FlexcommRegs { frgclksel: 0b111, fcfclksel: 0b111, frg_mult: 0, frg_div: 0 },
            },
            fclk1: Fclk1Regs {
                wdt1fclksel: 0b111,
                ct32bitfclksel0: 0b111,
                ct32bitfclksel1: 0b111,
                ct32bitfclksel2: 0b111,
                ct32bitfclksel3: 0b111,
                ct32bitfclksel4: 0b111,
            },
            gates: GateRegs {
                c0_pscctl0: 0,
                c0_pscctl1: 0,
                c0_pscctl2: 0,
                c1_pscctl0: 0,
                c1_pscctl1: 0,
                c1_pscctl2: 0,
            },
            rst: RstRegs {
                rst0_prstctl0: 0xFFFF_FFFF,
                rst0_prstctl1: 0xFFFF_FFFF,
                rst0_prstctl2: 0xFFFF_FFFF,
                rst1_prstctl0: 0xFFFF_FFFF,
                rst1_prstctl1: 0xFFFF_FFFF,
                rst1_prstctl2: 0xFFFF_FFFF,
            },
            log: Vec::new(),
            delays: Vec::new(),
        }
    }
}

/// Describes one peripheral's position in the clock-enable and reset registers:
/// which bank and PSCCTL register hold its clock gate, which bank and
/// PRSTCTL register hold its reset, and the shared bit position.
#[derive(Clone, Copy, Debug, PartialEq, Eq, Structural)]
pub struct PeriphDesc {
    /// Bank of the clock gate.
    pub cbank: Bank,
    /// PSCCTL register index of the clock gate (0..=2).
    pub creg: u8,
    /// Bank of the reset bit.
    pub rbank: Bank,
    /// PRSTCTL register index of the reset bit (0..=2).
    pub rreg: u8,
    /// Bit position of both the clock-enable bit and the reset bit.
    pub bit: u8,
}

impl PeriphDesc {
    /// The register indices are in range and the bit fits the register.
    pub open spec fn wf(self) -> bool {
        self.creg < 3 && self.rreg < 3 && self.bit < 32
    }
}

/// The PSCCTL register `i` of the given clock bank.
pub open spec fn gates_pscctl(g: GateRegs, bank: Bank, i: u8) -> u32 {
    match bank {
        Bank::Ctl0 => if i == 0 {
            g.c0_pscctl0
        } else if i == 1 {
            g.c0_pscctl1
        } else {
            g.c0_pscctl2
        },
        Bank::Ctl1 => if i == 0 {
            g.c1_pscctl0
        } else if i == 1 {
            g.c1_pscctl1
        } else {
            g.c1_pscctl2
        },
    }
}

/// `g` with the PSCCTL register `i` of the given bank replaced by `v`.
pub open spec fn gates_with_pscctl(g: GateRegs, bank: Bank, i: u8, v: u32) -> GateRegs {
    match bank {
        Bank::Ctl0 => if i == 0 {
            GateRegs { c0_pscctl0: v, ..g }
        } else if i == 1 {
            GateRegs { c0_pscctl1: v, ..g }
        } else {
            GateRegs { c0_pscctl2: v, ..g }
        },
        Bank::Ctl1 => if i == 0 {
            GateRegs { c1_pscctl0: v, ..g }
        } else if i == 1 {
            GateRegs { c1_pscctl1: v, ..g }
        } else {
            GateRegs { c1_pscctl2: v, ..g }
        },
    }
}

/// The PRSTCTL register `i` of the given reset bank.
pub open spec fn rst_prstctl(r: RstRegs, bank: Bank, i: u8) -> u32 {
    match bank {
        Bank::Ctl0 => if i == 0 {
            r.rst0_prstctl0
        } else if i == 1 {
            r.rst0_prstctl1
        } else {
            r.rst0_prstctl2
        },
        Bank::Ctl1 => if i == 0 {
            r.rst1_prstctl0
        } else if i == 1 {
            r.rst1_prstctl1
        } else {
            r.rst1_prstctl2
        },
    }
}

/// `r` with the PRSTCTL register `i` of the given bank replaced by `v`.
pub open spec fn rst_with_prstctl(r: RstRegs, bank: Bank, i: u8, v: u32) -> RstRegs {
    match bank {
        Bank::Ctl0 => if i == 0 {
            RstRegs { rst0_prstctl0: v, ..r }
        } else if i == 1 {
            RstRegs { rst0_prstctl1: v, ..r }
        } else {
            RstRegs { rst0_prstctl2: v, ..r }
        },
        Bank::Ctl1 => if i == 0 {
            RstRegs { rst1_prstctl0: v, ..r }
        } else if i == 1 {
            RstRegs { rst1_prstctl1: v, ..r }
        } else {
            RstRegs { rst1_prstctl2: v, ..r }
        },
    }
}

/// The clock-enable registers after setting (`on == true`) or clearing the bit
/// of `d`.
pub open spec fn spec_gate_written(g: GateRegs, d: PeriphDesc, on: bool) -> GateRegs {
    let v = gates_pscctl(g, d.cbank, d.creg);
    let v2 = if on {
        v | (1u32 << d.bit)
    } else {
        v & !(1u32 << d.bit)
    };
    gates_with_pscctl(g, d.cbank, d.creg, v2)
}

/// The two register zones a write never touches from peripheral-gate and
/// reset handling, and the zones bring-up never touches at all, stay equal.
pub open spec fn same_clock_zones(pre: Registers, post: Registers) -> bool {
    &&& post.osc == pre.osc
    &&& post.pll == pre.pll
    &&& post.pfddiv == pre.pfddiv
    &&& post.sys == pre.sys
    &&& post.outdiv == pre.outdiv
    &&& post.flex == pre.flex
    &&& post.fclk1 == pre.fclk1
    &&& post.delays@ == pre.delays@
}

impl GateRegs {
    /// Reads the PSCCTL register `i` of the given bank.
    fn read(&self, bank: Bank, i: u8) -> (v: u32)
        ensures
            v == gates_pscctl(*self, bank, i),
    {
        match bank {
            Bank::Ctl0 => if i == 0 {
                self.c0_pscctl0
            } else if i == 1 {
                self.c0_pscctl1
            } else {
                self.c0_pscctl2
            },
            Bank::Ctl1 => if i == 0 {
                self.c1_pscctl0
            } else if i == 1 {
                self.c1_pscctl1
            } else {
                self.c1_pscctl2
            },
        }
    }

    /// Writes the PSCCTL register `i` of the given bank.
    fn write(&mut self, bank: Bank, i: u8, v: u32)
        ensures
            *final(self) == gates_with_pscctl(*old(self), bank, i, v),
    {
        match bank {
            Bank::Ctl0 => if i == 0 {
                self.c0_pscctl0 = v;
            } else if i == 1 {
                self.c0_pscctl1 = v;
            } else {
                self.c0_pscctl2 = v;
            },
            Bank::Ctl1 => if i == 0 {
                self.c1_pscctl0 = v;
            } else if i == 1 {
                self.c1_pscctl1 = v;
            } else {
                self.c1_pscctl2 = v;
            },
        }
    }
}

impl RstRegs {
    /// Reads the PRSTCTL register `i` of the given bank.
    fn read(&self, bank: Bank, i: u8) -> (v: u32)
        ensures
            v == rst_prstctl(*self, bank, i),
    {
        match bank {
            Bank::Ctl0 => if i == 0 {
                self.rst0_prstctl0
            } else if i == 1 {
                self.rst0_prstctl1
            } else {
                self.rst0_prstctl2
            },
            Bank::Ctl1 => if i == 0 {
                self.rst1_prstctl0
            } else if i == 1 {
                self.rst1_prstctl1
            } else {
                self.rst1_prstctl2
            },
        }
    }

    /// Writes the PRSTCTL register `i` of the given bank.
    fn write(&mut self, bank: Bank, i: u8, v: u32)
        ensures
            *final(self) == rst_with_prstctl(*old(self), bank, i, v),
    {
        match bank {
            Bank::Ctl0 => if i == 0 {
                self.rst0_prstctl0 = v;
            } else if i == 1 {
                self.rst0_prstctl1 = v;
            } else {
                self.rst0_prstctl2 = v;
            },
            Bank::Ctl1 => if i == 0 {
                self.rst1_prstctl0 = v;
            } else if i == 1 {
                self.rst1_prstctl1 = v;
            } else {
                self.rst1_prstctl2 = v;
            },
        }
    }
}

impl Registers {
    /// Opens the clock gate of `d` (writes the PSCCTL set register).
    pub fn gate_set(&mut self, d: PeriphDesc)
        requires
            d.wf(),
        ensures
            final(self).gates == spec_gate_written(old(self).gates, d, true),
            final(self).rst == old(self).rst,
            same_clock_zones(*old(self), *final(self)),
            final(self).log@ == old(self).log@.push(RegWrite::PscctlSet(d.cbank, d.creg)),
    {
        let v: u32 = self.gates.read(d.cbank, d.creg);
        self.gates.write(d.cbank, d.creg, v | (1u32 << d.bit));
        self.log.push(RegWrite::PscctlSet(d.cbank, d.creg));
    }

    /// Closes the clock gate of `d` (writes the PSCCTL clear register).
    pub fn gate_clr(&mut self, d: PeriphDesc)
        requires
            d.wf(),
        ensures
            final(self).gates == spec_gate_written(old(self).gates, d, false),
            final(self).rst == old(self).rst,
            same_clock_zones(*old(self), *final(self)),
            final(self).log@ == old(self).log@.push(RegWrite::PscctlClr(d.cbank, d.creg)),
    {
        let v: u32 = self.gates.read(d.cbank, d.creg);
        self.gates.write(d.cbank, d.creg, v & !(1u32 << d.bit));
        self.log.push(RegWrite::PscctlClr(d.cbank, d.creg));
    }

    /// Releases the peripheral of `d` from reset (writes the PRSTCTL clear
    /// register).
    pub fn reset_clr(&mut self, d: PeriphDesc)
        requires
            d.wf(),
        ensures
            final(self).rst == rst_with_prstctl(
                old(self).rst,
                d.rbank,
                d.rreg,
                rst_prstctl(old(self).rst, d.rbank, d.rreg) & !(1u32 << d.bit),
            ),
            final(self).gates == old(self).gates,
            same_clock_zones(*old(self), *final(self)),
            final(self).log@ == old(self).log@.push(RegWrite::PrstctlClr(d.rbank, d.rreg)),
    {
        let v: u32 = self.rst.read(d.rbank, d.rreg);
        self.rst.write(d.rbank, d.rreg, v & !(1u32 << d.bit));
        self.log.push(RegWrite::PrstctlClr(d.rbank, d.rreg));
    }
}

} // verus!
