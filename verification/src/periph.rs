//! The peripheral clock-enable protocol: a uniform two-phase bring-up of
//! any peripheral's clocking.
//!
//! `enable` first opens the peripheral's bus-clock gate (always safe), then
//! hands the published registry to the peripheral's configuration object,
//! which selects and validates the peripheral's function-clock source and
//! returns the effective frequency. `enable_and_reset` releases the
//! peripheral from reset only after the function clock is correctly
//! selected — the ordering is part of the contract. `disable` closes the
//! gate again.

use vstd::prelude::*;

use crate::hardware::{
    spec_gate_written, Bank, Fclk1Regs, FlexRegs, FlexcommRegs, PeriphDesc, RegWrite, Registers,
    SysRegs,
};
use crate::registry::{ClockError, Clocks};
use crate::syscon::Syscon;

verus! {

/// A peripheral-specific configuration object: selects and validates the
/// peripheral's function clock against the published registry, right after
/// the bus-clock gate opens and before the reset is released.
pub trait SPConfHelper {
    /// The frequency outcome of the post-enable configuration.
    spec fn spec_post(&self, clocks: Clocks) -> Result<u32, ClockError>;

    /// The CLKCTL0 function-clock zone after the configuration.
    spec fn spec_sys(&self, clocks: Clocks, s: SysRegs) -> SysRegs;

    /// The Flexcomm zone after the configuration.
    spec fn spec_flex(&self, clocks: Clocks, f: FlexRegs) -> FlexRegs;

    /// The CLKCTL1 function-clock zone after the configuration.
    spec fn spec_fclk1(&self, clocks: Clocks, f: Fclk1Regs) -> Fclk1Regs;

    /// The write record after the configuration.
    spec fn spec_log(&self, clocks: Clocks, l: Seq<RegWrite>) -> Seq<RegWrite>;

    /// Selects the peripheral's function-clock source, validating that the
    /// chosen upstream is active in the registry, programs any local
    /// divider, and returns the effective function-clock frequency.
    fn post_enable_config(&self, clocks: &Clocks, regs: &mut Registers) -> (r: Result<
        u32,
        ClockError,
    >)
        ensures
            r == self.spec_post(*clocks),
            final(regs).sys == self.spec_sys(*clocks, old(regs).sys),
            final(regs).flex == self.spec_flex(*clocks, old(regs).flex),
            final(regs).fclk1 == self.spec_fclk1(*clocks, old(regs).fclk1),
            final(regs).log@ == self.spec_log(*clocks, old(regs).log@),
            final(regs).osc == old(regs).osc,
            final(regs).pll == old(regs).pll,
            final(regs).pfddiv == old(regs).pfddiv,
            final(regs).outdiv == old(regs).outdiv,
            final(regs).gates == old(regs).gates,
            final(regs).rst == old(regs).rst,
            final(regs).delays@ == old(regs).delays@,
    ;
}

/// Ties a peripheral to its position in the clock-enable and reset registers and to
/// its configuration type.
pub trait SealedSysconPeripheral {
    /// The peripheral's configuration object.
    type SysconPeriphConfig: SPConfHelper;

    /// Where the peripheral's gate and reset bits live.
    spec fn spec_desc() -> PeriphDesc;

    /// The description is well formed.
    proof fn desc_wf()
        ensures
            Self::spec_desc().wf(),
    ;

    /// Where the peripheral's gate and reset bits live.
    fn desc() -> (d: PeriphDesc)
        ensures
            d == Self::spec_desc(),
    ;

    /// Opens the peripheral's bus-clock gate.
    fn enable_perph_clock(regs: &mut Registers)
        ensures
            final(regs).gates == spec_gate_written(old(regs).gates, Self::spec_desc(), true),
            final(regs).rst == old(regs).rst,
            crate::hardware::same_clock_zones(*old(regs), *final(regs)),
            final(regs).log@ == old(regs).log@.push(
                RegWrite::PscctlSet(Self::spec_desc().cbank, Self::spec_desc().creg),
            ),
    {
        proof {
            Self::desc_wf();
        }
        regs.gate_set(Self::desc());
    }

    /// Releases the peripheral from reset.
    fn reset_perph(regs: &mut Registers)
        ensures
            final(regs).rst == crate::hardware::rst_with_prstctl(
                old(regs).rst,
                Self::spec_desc().rbank,
                Self::spec_desc().rreg,
                crate::hardware::rst_prstctl(
                    old(regs).rst,
                    Self::spec_desc().rbank,
                    Self::spec_desc().rreg,
                ) & !(1u32 << Self::spec_desc().bit),
            ),
            final(regs).gates == old(regs).gates,
            crate::hardware::same_clock_zones(*old(regs), *final(regs)),
            final(regs).log@ == old(regs).log@.push(
                RegWrite::PrstctlClr(Self::spec_desc().rbank, Self::spec_desc().rreg),
            ),
    {
        proof {
            Self::desc_wf();
        }
        regs.reset_clr(Self::desc());
    }

    /// Closes the peripheral's bus-clock gate.
    fn disable_perph_clock(regs: &mut Registers)
        ensures
            final(regs).gates == spec_gate_written(old(regs).gates, Self::spec_desc(), false),
            final(regs).rst == old(regs).rst,
            crate::hardware::same_clock_zones(*old(regs), *final(regs)),
            final(regs).log@ == old(regs).log@.push(
                RegWrite::PscctlClr(Self::spec_desc().cbank, Self::spec_desc().creg),
            ),
    {
        proof {
            Self::desc_wf();
        }
        regs.gate_clr(Self::desc());
    }
}

/// Clock and reset control for peripherals.
pub trait SysconPeripheral: SealedSysconPeripheral {

}

// --- Flexcomm function clocks.

/// One of the eight regular Flexcomm instances.
#[derive(Copy, Clone, Debug, PartialEq, Eq, Structural)]
pub enum FlexcommInstance {
    /// Flexcomm 0.
    Flexcomm0,
    /// Flexcomm 1.
    Flexcomm1,
    /// Flexcomm 2.
    Flexcomm2,
    /// Flexcomm 3.
    Flexcomm3,
    /// Flexcomm 4.
    Flexcomm4,
    /// Flexcomm 5.
    Flexcomm5,
    /// Flexcomm 6.
    Flexcomm6,
    /// Flexcomm 7.
    Flexcomm7,
}

impl FlexcommInstance {
    /// The instance number.
    pub open spec fn spec_index(self) -> u8 {
        match self {
            FlexcommInstance::Flexcomm0 => 0,
            FlexcommInstance::Flexcomm1 => 1,
            FlexcommInstance::Flexcomm2 => 2,
            FlexcommInstance::Flexcomm3 => 3,
            FlexcommInstance::Flexcomm4 => 4,
            FlexcommInstance::Flexcomm5 => 5,
            FlexcommInstance::Flexcomm6 => 6,
            FlexcommInstance::Flexcomm7 => 7,
        }
    }

    /// The instance number.
    pub fn index(&self) -> (r: u8)
        ensures
            r == self.spec_index(),
    {
        match self {
            FlexcommInstance::Flexcomm0 => 0,
            FlexcommInstance::Flexcomm1 => 1,
            FlexcommInstance::Flexcomm2 => 2,
            FlexcommInstance::Flexcomm3 => 3,
            FlexcommInstance::Flexcomm4 => 4,
            FlexcommInstance::Flexcomm5 => 5,
            FlexcommInstance::Flexcomm6 => 6,
            FlexcommInstance::Flexcomm7 => 7,
        }
    }
}

/// A Flexcomm index the hardware has: instances 0..=7, 14 (HS SPI) or 15
/// (PMIC I2C).
pub open spec fn fc_idx_wf(idx: u8) -> bool {
    idx < 8 || idx == 14 || idx == 15
}

/// The function-clock registers of the given Flexcomm index.
pub open spec fn fc_of(f: FlexRegs, idx: u8) -> FlexcommRegs {
    if idx == 0 {
        f.fc0
    } else if idx == 1 {
        f.fc1
    } else if idx == 2 {
        f.fc2
    } else if idx == 3 {
        f.fc3
    } else if idx == 4 {
        f.fc4
    } else if idx == 5 {
        f.fc5
    } else if idx == 6 {
        f.fc6
    } else if idx == 7 {
        f.fc7
    } else if idx == 14 {
        f.fc14
    } else {
        f.fc15
    }
}

/// `f` with the registers of the given Flexcomm index replaced.
pub open spec fn with_fc(f: FlexRegs, idx: u8, v: FlexcommRegs) -> FlexRegs {
    if idx == 0 {
        FlexRegs { fc0: v, ..f }
    } else if idx == 1 {
        FlexRegs { fc1: v, ..f }
    } else if idx == 2 {
        FlexRegs { fc2: v, ..f }
    } else if idx == 3 {
        FlexRegs { fc3: v, ..f }
    } else if idx == 4 {
        FlexRegs { fc4: v, ..f }
    } else if idx == 5 {
        FlexRegs { fc5: v, ..f }
    } else if idx == 6 {
        FlexRegs { fc6: v, ..f }
    } else if idx == 7 {
        FlexRegs { fc7: v, ..f }
    } else if idx == 14 {
        FlexRegs { fc14: v, ..f }
    } else {
        FlexRegs { fc15: v, ..f }
    }
}

impl FlexRegs {
    /// Reads the registers of the given Flexcomm index.
    fn read(&self, idx: u8) -> (v: FlexcommRegs)
        requires
            fc_idx_wf(idx),
        ensures
            v == fc_of(*self, idx),
    {
        if idx == 0 {
            self.fc0
        } else if idx == 1 {
            self.fc1
        } else if idx == 2 {
            self.fc2
        } else if idx == 3 {
            self.fc3
        } else if idx == 4 {
            self.fc4
        } else if idx == 5 {
            self.fc5
        } else if idx == 6 {
            self.fc6
        } else if idx == 7 {
            self.fc7
        } else if idx == 14 {
            self.fc14
        } else {
            self.fc15
        }
    }

    /// Writes the registers of the given Flexcomm index.
    fn write(&mut self, idx: u8, v: FlexcommRegs)
        requires
            fc_idx_wf(idx),
        ensures
            *final(self) == with_fc(*old(self), idx, v),
    {
        if idx == 0 {
            self.fc0 = v;
        } else if idx == 1 {
            self.fc1 = v;
        } else if idx == 2 {
            self.fc2 = v;
        } else if idx == 3 {
            self.fc3 = v;
        } else if idx == 4 {
            self.fc4 = v;
        } else if idx == 5 {
            self.fc5 = v;
        } else if idx == 6 {
            self.fc6 = v;
        } else if idx == 7 {
            self.fc7 = v;
        } else if idx == 14 {
            self.fc14 = v;
        } else {
            self.fc15 = v;
        }
    }
}

/// Input selection of a Flexcomm fractional rate generator.
#[derive(Copy, Clone, Debug, PartialEq, Eq, Structural)]
pub enum FlexcommFrgSel {
    /// The main clock.
    MainClk,
    /// The FRG PLL clock.
    FrgPllClk,
    /// The 16 MHz internal oscillator.
    SfroClk,
    /// The 48/60 MHz internal oscillator.
    FfroClk,
    /// No input.
    Off,
}

impl FlexcommFrgSel {
    /// Hardware encoding in FRGnCLKSEL.
    pub open spec fn spec_bits(self) -> u8 {
        match self {
            FlexcommFrgSel::MainClk => 0b000,
            FlexcommFrgSel::FrgPllClk => 0b001,
            FlexcommFrgSel::SfroClk => 0b010,
            FlexcommFrgSel::FfroClk => 0b011,
            FlexcommFrgSel::Off => 0b111,
        }
    }

    /// Hardware encoding in FRGnCLKSEL.
    pub fn bits(&self) -> (b: u8)
        ensures
            b == self.spec_bits(),
    {
        match self {
            FlexcommFrgSel::MainClk => 0b000,
            FlexcommFrgSel::FrgPllClk => 0b001,
            FlexcommFrgSel::SfroClk => 0b010,
            FlexcommFrgSel::FfroClk => 0b011,
            FlexcommFrgSel::Off => 0b111,
        }
    }
}

/// Function-clock selection of a Flexcomm instance.
#[derive(Copy, Clone, Debug, PartialEq, Eq, Structural)]
pub enum FlexcommFclkSel {
    /// The 16 MHz internal oscillator.
    SfroClk,
    /// The 48/60 MHz internal oscillator.
    FfroClk,
    /// The audio PLL; not wired up, selecting it is a programming error.
    AudioPllClk,
    /// The MCLK input; not wired up, selecting it is a programming error.
    MasterClk,
    /// The instance's own fractional rate generator.
    FcnFrgClk,
    /// No function clock.
    Off,
}

impl FlexcommFclkSel {
    /// Hardware encoding in FCnFCLKSEL.
    pub open spec fn spec_bits(self) -> u8 {
        match self {
            FlexcommFclkSel::SfroClk => 0b000,
            FlexcommFclkSel::FfroClk => 0b001,
            FlexcommFclkSel::AudioPllClk => 0b010,
            FlexcommFclkSel::MasterClk => 0b011,
            FlexcommFclkSel::FcnFrgClk => 0b100,
            FlexcommFclkSel::Off => 0b111,
        }
    }

    /// Hardware encoding in FCnFCLKSEL.
    pub fn bits(&self) -> (b: u8)
        ensures
            b == self.spec_bits(),
    {
        match self {
            FlexcommFclkSel::SfroClk => 0b000,
            FlexcommFclkSel::FfroClk => 0b001,
            FlexcommFclkSel::AudioPllClk => 0b010,
            FlexcommFclkSel::MasterClk => 0b011,
            FlexcommFclkSel::FcnFrgClk => 0b100,
            FlexcommFclkSel::Off => 0b111,
        }
    }
}

/// The FRG output: `floor((input × 256) / (256 + mult))`. The hardware
/// formula is `FOUT = CLK / (1 + MULT/DIV)`; with DIV pinned to 0xFF (256)
/// it is exact, not an approximation.
pub open spec fn frg_out(f: u32, mult: u8) -> u32 {
    ((f * 256) / (256 + mult)) as u32
}

/// The FRG input frequency for a selection, as the registry rules on it.
pub open spec fn frg_input(c: Clocks, s: FlexcommFrgSel) -> Result<u32, ClockError> {
    match s {
        FlexcommFrgSel::MainClk => Ok(c.main_clk),
        FlexcommFrgSel::FrgPllClk => match c.frg_pll_clk {
            Some(f) => Ok(f),
            None => Err(ClockError::BadConfiguration { reason: "frg pll needed but not enabled" }),
        },
        FlexcommFrgSel::SfroClk => if c._16m_irc.enabled {
            Ok(16_000_000)
        } else {
            Err(ClockError::BadConfiguration { reason: "16m_irc/sfro needed but not enabled" })
        },
        FlexcommFrgSel::FfroClk => match c._48_60m_irc {
            Some(f) => Ok(f),
            None => Err(
                ClockError::BadConfiguration { reason: "48/60m_irc/ffro needed but not enabled" },
            ),
        },
        FlexcommFrgSel::Off => Ok(0),
    }
}

/// The frequency outcome of a Flexcomm configuration.
pub open spec fn flexcomm_post(
    c: Clocks,
    frg: FlexcommFrgSel,
    fcs: FlexcommFclkSel,
    mult: u8,
) -> Result<u32, ClockError> {
    match fcs {
        FlexcommFclkSel::FcnFrgClk => match frg_input(c, frg) {
            Ok(f) => Ok(frg_out(f, mult)),
            Err(e) => Err(e),
        },
        FlexcommFclkSel::SfroClk => if c._16m_irc.enabled {
            Ok(16_000_000)
        } else {
            Err(ClockError::BadConfiguration { reason: "16m_irc/sfro needed but not enabled" })
        },
        FlexcommFclkSel::FfroClk => match c._48_60m_irc {
            Some(f) => Ok(f),
            None => Err(
                ClockError::BadConfiguration { reason: "48/60m_irc/ffro needed but not enabled" },
            ),
        },
        FlexcommFclkSel::AudioPllClk => Err(
            ClockError::Programming { reason: "not implemented" },
        ),
        FlexcommFclkSel::MasterClk => Err(ClockError::Programming { reason: "not implemented" }),
        FlexcommFclkSel::Off => Ok(0),
    }
}

/// The Flexcomm zone after a Flexcomm configuration.
pub open spec fn flexcomm_flex(
    c: Clocks,
    frg: FlexcommFrgSel,
    fcs: FlexcommFclkSel,
    mult: u8,
    idx: u8,
    f: FlexRegs,
) -> FlexRegs {
    if flexcomm_post(c, frg, fcs, mult) is Ok {
        match fcs {
            FlexcommFclkSel::FcnFrgClk => with_fc(
                f,
                idx,
                FlexcommRegs {
                    frgclksel: frg.spec_bits(),
                    fcfclksel: fcs.spec_bits(),
                    frg_mult: mult,
                    frg_div: 0xFF,
                },
            ),
            _ => with_fc(f, idx, FlexcommRegs { fcfclksel: fcs.spec_bits(), ..fc_of(f, idx) }),
        }
    } else {
        f
    }
}

/// The write record after a Flexcomm configuration.
pub open spec fn flexcomm_log(
    c: Clocks,
    frg: FlexcommFrgSel,
    fcs: FlexcommFclkSel,
    mult: u8,
    idx: u8,
    l: Seq<RegWrite>,
) -> Seq<RegWrite> {
    if flexcomm_post(c, frg, fcs, mult) is Ok {
        match fcs {
            FlexcommFclkSel::FcnFrgClk => l.push(RegWrite::FrgClkSel(idx)).push(
                RegWrite::FrgCtl(idx),
            ).push(RegWrite::FcFclkSel(idx)),
            _ => l.push(RegWrite::FcFclkSel(idx)),
        }
    } else {
        l
    }
}

/// The shared Flexcomm post-enable flow: select the FRG input when the FRG
/// feeds the function clock, program the fractional multiplier with the
/// divider pinned to 0xFF, and select the function clock.
fn flexcomm_post_enable(
    idx: u8,
    frg: FlexcommFrgSel,
    fcs: FlexcommFclkSel,
    mult: u8,
    clocks: &Clocks,
    regs: &mut Registers,
) -> (r: Result<u32, ClockError>)
    requires
        fc_idx_wf(idx),
    ensures
        r == flexcomm_post(*clocks, frg, fcs, mult),
        final(regs).flex == flexcomm_flex(*clocks, frg, fcs, mult, idx, old(regs).flex),
        final(regs).log@ == flexcomm_log(*clocks, frg, fcs, mult, idx, old(regs).log@),
        final(regs).sys == old(regs).sys,
        final(regs).fclk1 == old(regs).fclk1,
        final(regs).osc == old(regs).osc,
        final(regs).pll == old(regs).pll,
        final(regs).pfddiv == old(regs).pfddiv,
        final(regs).outdiv == old(regs).outdiv,
        final(regs).gates == old(regs).gates,
        final(regs).rst == old(regs).rst,
        final(regs).delays@ == old(regs).delays@,
{
    let freq: u32 = match fcs {
        FlexcommFclkSel::FcnFrgClk => {
            let f: u32 = match frg {
                FlexcommFrgSel::MainClk => clocks.main_clk,
                FlexcommFrgSel::FrgPllClk => clocks.ensure_frg_pll()?,
                FlexcommFrgSel::SfroClk => clocks.ensure_16m_sfro()?,
                FlexcommFrgSel::FfroClk => clocks.ensure_48_60_ffro()?,
                FlexcommFrgSel::Off => 0,
            };
            let cur = regs.flex.read(idx);
            regs.flex.write(idx, FlexcommRegs { frgclksel: frg.bits(), ..cur });
            regs.log.push(RegWrite::FrgClkSel(idx));
            let cur = regs.flex.read(idx);
            regs.flex.write(idx, FlexcommRegs { frg_mult: mult, frg_div: 0xFF, ..cur });
            regs.log.push(RegWrite::FrgCtl(idx));
            proof {
                let x = f as int * 256;
                vstd::arithmetic::div_mod::lemma_div_is_ordered_by_denominator(
                    x,
                    256,
                    256 + mult as int,
                );
                vstd::arithmetic::div_mod::lemma_div_multiples_vanish(f as int, 256);
            }
            (((f as u64) * 256) / (mult as u64 + 256)) as u32
        },
        FlexcommFclkSel::SfroClk => clocks.ensure_16m_sfro()?,
        FlexcommFclkSel::FfroClk => clocks.ensure_48_60_ffro()?,
        FlexcommFclkSel::AudioPllClk => {
            return Err(ClockError::prog_err("not implemented"));
        },
        FlexcommFclkSel::MasterClk => {
            return Err(ClockError::prog_err("not implemented"));
        },
        FlexcommFclkSel::Off => 0,
    };
    let cur = regs.flex.read(idx);
    regs.flex.write(idx, FlexcommRegs { fcfclksel: fcs.bits(), ..cur });
    regs.log.push(RegWrite::FcFclkSel(idx));
    Ok(freq)
}

/// Function-clock configuration of a regular Flexcomm instance: the FRG
/// input selection, the function-clock selection and the FRG multiplier.
#[derive(Copy, Clone, Debug)]
pub struct FlexcommConfig {
    /// FRG input selection.
    pub frg_clk_sel: FlexcommFrgSel,
    /// Function-clock selection.
    pub fc_clk_sel: FlexcommFclkSel,
    /// Which Flexcomm instance.
    pub instance: FlexcommInstance,
    /// FRG fractional multiplier (the divider is pinned to 0xFF).
    pub mult: u8,
}

impl SPConfHelper for FlexcommConfig {
    open spec fn spec_post(&self, clocks: Clocks) -> Result<u32, ClockError> {
        flexcomm_post(clocks, self.frg_clk_sel, self.fc_clk_sel, self.mult)
    }

    open spec fn spec_sys(&self, clocks: Clocks, s: SysRegs) -> SysRegs {
        s
    }

    open spec fn spec_flex(&self, clocks: Clocks, f: FlexRegs) -> FlexRegs {
        flexcomm_flex(
            clocks,
            self.frg_clk_sel,
            self.fc_clk_sel,
            self.mult,
            self.instance.spec_index(),
            f,
        )
    }

    open spec fn spec_fclk1(&self, clocks: Clocks, f: Fclk1Regs) -> Fclk1Regs {
        f
    }

    open spec fn spec_log(&self, clocks: Clocks, l: Seq<RegWrite>) -> Seq<RegWrite> {
        flexcomm_log(
            clocks,
            self.frg_clk_sel,
            self.fc_clk_sel,
            self.mult,
            self.instance.spec_index(),
            l,
        )
    }

    fn post_enable_config(&self, clocks: &Clocks, regs: &mut Registers) -> (r: Result<
        u32,
        ClockError,
    >) {
        flexcomm_post_enable(
            self.instance.index(),
            self.frg_clk_sel,
            self.fc_clk_sel,
            self.mult,
            clocks,
            regs,
        )
    }
}

/// Function-clock configuration of Flexcomm 14 (the HS SPI).
#[derive(Copy, Clone, Debug)]
pub struct FlexcommConfig14 {
    /// FRG input selection.
    pub frg_clk_sel: FlexcommFrgSel,
    /// Function-clock selection.
    pub fc_clk_sel: FlexcommFclkSel,
    /// FRG fractional multiplier (the divider is pinned to 0xFF).
    pub mult: u8,
}

impl SPConfHelper for FlexcommConfig14 {
    open spec fn spec_post(&self, clocks: Clocks) -> Result<u32, ClockError> {
        flexcomm_post(clocks, self.frg_clk_sel, self.fc_clk_sel, self.mult)
    }

    open spec fn spec_sys(&self, clocks: Clocks, s: SysRegs) -> SysRegs {
        s
    }

    open spec fn spec_flex(&self, clocks: Clocks, f: FlexRegs) -> FlexRegs {
        flexcomm_flex(clocks, self.frg_clk_sel, self.fc_clk_sel, self.mult, 14, f)
    }

    open spec fn spec_fclk1(&self, clocks: Clocks, f: Fclk1Regs) -> Fclk1Regs {
        f
    }

    open spec fn spec_log(&self, clocks: Clocks, l: Seq<RegWrite>) -> Seq<RegWrite> {
        flexcomm_log(clocks, self.frg_clk_sel, self.fc_clk_sel, self.mult, 14, l)
    }

    fn post_enable_config(&self, clocks: &Clocks, regs: &mut Registers) -> (r: Result<
        u32,
        ClockError,
    >) {
        flexcomm_post_enable(14, self.frg_clk_sel, self.fc_clk_sel, self.mult, clocks, regs)
    }
}

/// Function-clock configuration of Flexcomm 15 (the PMIC I2C).
#[derive(Copy, Clone, Debug)]
pub struct FlexcommConfig15 {
    /// FRG input selection.
    pub frg_clk_sel: FlexcommFrgSel,
    /// Function-clock selection.
    pub fc_clk_sel: FlexcommFclkSel,
    /// FRG fractional multiplier (the divider is pinned to 0xFF).
    pub mult: u8,
}

impl SPConfHelper for FlexcommConfig15 {
    open spec fn spec_post(&self, clocks: Clocks) -> Result<u32, ClockError> {
        flexcomm_post(clocks, self.frg_clk_sel, self.fc_clk_sel, self.mult)
    }

    open spec fn spec_sys(&self, clocks: Clocks, s: SysRegs) -> SysRegs {
        s
    }

    open spec fn spec_flex(&self, clocks: Clocks, f: FlexRegs) -> FlexRegs {
        flexcomm_flex(clocks, self.frg_clk_sel, self.fc_clk_sel, self.mult, 15, f)
    }

    open spec fn spec_fclk1(&self, clocks: Clocks, f: Fclk1Regs) -> Fclk1Regs {
        f
    }

    open spec fn spec_log(&self, clocks: Clocks, l: Seq<RegWrite>) -> Seq<RegWrite> {
        flexcomm_log(clocks, self.frg_clk_sel, self.fc_clk_sel, self.mult, 15, l)
    }

    fn post_enable_config(&self, clocks: &Clocks, regs: &mut Registers) -> (r: Result<
        u32,
        ClockError,
    >) {
        flexcomm_post_enable(15, self.frg_clk_sel, self.fc_clk_sel, self.mult, clocks, regs)
    }
}

// --- ADC function clock.

/// Stage-0 source selection of the ADC function clock.
#[derive(Copy, Clone, Debug, PartialEq, Eq, Structural)]
pub enum AdcSel0 {
    /// The 16 MHz internal oscillator.
    SfroClk,
    /// The external clock input.
    XtalinClk,
    /// The 1 MHz low-power oscillator.
    Lposc,
    /// The 48/60 MHz internal oscillator.
    FfroClk,
    /// No source.
    Off,
}

impl AdcSel0 {
    /// Hardware encoding in ADC0FCLKSEL0.
    pub open spec fn spec_bits(self) -> u8 {
        match self {
            AdcSel0::SfroClk => 0b000,
            AdcSel0::XtalinClk => 0b001,
            AdcSel0::Lposc => 0b010,
            AdcSel0::FfroClk => 0b011,
            AdcSel0::Off => 0b111,
        }
    }

    /// Hardware encoding in ADC0FCLKSEL0.
    pub fn bits(&self) -> (b: u8)
        ensures
            b == self.spec_bits(),
    {
        match self {
            AdcSel0::SfroClk => 0b000,
            AdcSel0::XtalinClk => 0b001,
            AdcSel0::Lposc => 0b010,
            AdcSel0::FfroClk => 0b011,
            AdcSel0::Off => 0b111,
        }
    }
}

/// Stage-1 source selection of the ADC function clock: the stage-0 output
/// or one of three PLL-derived clocks.
#[derive(Copy, Clone, Debug, PartialEq, Eq, Structural)]
pub enum AdcSel1 {
    /// The output of the stage-0 multiplexer.
    Adc0fclksel0MuxOut,
    /// The main PLL clock (`main_pll_clk`).
    Syspll0MainClk,
    /// The AUX0 PLL clock.
    Syspll0Aux0PllClock,
    /// The AUX1 PLL clock.
    Syspll0Aux1PllClock,
    /// No source.
    Off,
}

impl AdcSel1 {
    /// Hardware encoding in ADC0FCLKSEL1.
    pub open spec fn spec_bits(self) -> u8 {
        match self {
            AdcSel1::Adc0fclksel0MuxOut => 0b000,
            AdcSel1::Syspll0MainClk => 0b001,
            AdcSel1::Syspll0Aux0PllClock => 0b010,
            AdcSel1::Syspll0Aux1PllClock => 0b011,
            AdcSel1::Off => 0b111,
        }
    }

    /// Hardware encoding in ADC0FCLKSEL1.
    pub fn bits(&self) -> (b: u8)
        ensures
            b == self.spec_bits(),
    {
        match self {
            AdcSel1::Adc0fclksel0MuxOut => 0b000,
            AdcSel1::Syspll0MainClk => 0b001,
            AdcSel1::Syspll0Aux0PllClock => 0b010,
            AdcSel1::Syspll0Aux1PllClock => 0b011,
            AdcSel1::Off => 0b111,
        }
    }
}

/// What the ADC stage-0 multiplexer delivers, as the registry rules on it.
pub open spec fn adc_stage0(c: Clocks, s0: AdcSel0) -> Result<u32, ClockError> {
    match s0 {
        AdcSel0::SfroClk => if c._16m_irc.enabled {
            Ok(16_000_000)
        } else {
            Err(ClockError::BadConfiguration { reason: "16m_irc/sfro needed but not enabled" })
        },
        AdcSel0::XtalinClk => match c.clk_in {
            Some(f) => Ok(f),
            None => Err(ClockError::BadConfiguration { reason: "xtal_in needed but not enabled" }),
        },
        AdcSel0::Lposc => if c._1m_lposc.enabled {
            Ok(1_000_000)
        } else {
            Err(ClockError::BadConfiguration { reason: "1m_irc/lposc needed but not enabled" })
        },
        AdcSel0::FfroClk => match c._48_60m_irc {
            Some(f) => Ok(f),
            None => Err(
                ClockError::BadConfiguration { reason: "48/60m_irc/ffro needed but not enabled" },
            ),
        },
        AdcSel0::Off => Ok(0),
    }
}

/// What the ADC source chain delivers before the divider.
pub open spec fn adc_source(c: Clocks, s0: AdcSel0, s1: AdcSel1) -> Result<u32, ClockError> {
    match s1 {
        AdcSel1::Adc0fclksel0MuxOut => adc_stage0(c, s0),
        AdcSel1::Syspll0MainClk => match c.main_pll_clk {
            Some(f) => Ok(f),
            None => Err(
                ClockError::BadConfiguration { reason: "main_pll_clk required but disabled" },
            ),
        },
        AdcSel1::Syspll0Aux0PllClock => match c.aux0_pll_clk {
            Some(f) => Ok(f),
            None => Err(ClockError::BadConfiguration { reason: "aux0 pll needed but not enabled" }),
        },
        AdcSel1::Syspll0Aux1PllClock => match c.aux1_pll_clk {
            Some(f) => Ok(f),
            None => Err(ClockError::BadConfiguration { reason: "aux1 pll needed but not enabled" }),
        },
        AdcSel1::Off => Ok(0),
    }
}

/// Function-clock configuration of the ADC: a two-stage multiplexer (when
/// stage 1 bypasses stage 0, stage 0 is parked on "none") and an integer
/// divider.
#[derive(Copy, Clone, Debug)]
pub struct AdcConfig {
    /// Stage-0 source selection.
    pub sel0: AdcSel0,
    /// Stage-1 source selection.
    pub sel1: AdcSel1,
    /// Function clock divided by (1 + `div`).
    pub div: u8,
}

impl SPConfHelper for AdcConfig {
    open spec fn spec_post(&self, clocks: Clocks) -> Result<u32, ClockError> {
        match adc_source(clocks, self.sel0, self.sel1) {
            Ok(f) => Ok(((f as int) / (1 + self.div)) as u32),
            Err(e) => Err(e),
        }
    }

    open spec fn spec_sys(&self, clocks: Clocks, s: SysRegs) -> SysRegs {
        if adc_source(clocks, self.sel0, self.sel1) is Ok {
            SysRegs {
                adc0fclksel0: if self.sel1 is Adc0fclksel0MuxOut {
                    self.sel0.spec_bits()
                } else {
                    0b111
                },
                adc0fclksel1: self.sel1.spec_bits(),
                adc0fclkdiv_div: self.div,
                adc0fclkdiv_halt: false,
                ..s
            }
        } else {
            s
        }
    }

    open spec fn spec_flex(&self, clocks: Clocks, f: FlexRegs) -> FlexRegs {
        f
    }

    open spec fn spec_fclk1(&self, clocks: Clocks, f: Fclk1Regs) -> Fclk1Regs {
        f
    }

    open spec fn spec_log(&self, clocks: Clocks, l: Seq<RegWrite>) -> Seq<RegWrite> {
        if adc_source(clocks, self.sel0, self.sel1) is Ok {
            l.push(RegWrite::Adc0Fclksel0).push(RegWrite::Adc0Fclksel1).push(
                RegWrite::Adc0Fclkdiv,
            ).push(RegWrite::Adc0Fclkdiv).push(RegWrite::Adc0Fclkdiv)
        } else {
            l
        }
    }

    fn post_enable_config(&self, clocks: &Clocks, regs: &mut Registers) -> (r: Result<
        u32,
        ClockError,
    >) {
        let freq: u32 = match self.sel1 {
            AdcSel1::Adc0fclksel0MuxOut => {
                let f: u32 = match self.sel0 {
                    AdcSel0::SfroClk => clocks.ensure_16m_sfro()?,
                    AdcSel0::XtalinClk => clocks.ensure_xtal_in()?,
                    AdcSel0::Lposc => clocks.ensure_1m_lposc()?,
                    AdcSel0::FfroClk => clocks.ensure_48_60_ffro()?,
                    AdcSel0::Off => 0,
                };
                let cur = regs.sys;
                regs.sys = SysRegs { adc0fclksel0: self.sel0.bits(), ..cur };
                regs.log.push(RegWrite::Adc0Fclksel0);
                f
            },
            AdcSel1::Syspll0MainClk => match clocks.main_pll_clk {
                Some(f) => f,
                None => {
                    return Err(ClockError::bad_config("main_pll_clk required but disabled"));
                },
            },
            AdcSel1::Syspll0Aux0PllClock => clocks.ensure_aux0_pll()?,
            AdcSel1::Syspll0Aux1PllClock => clocks.ensure_aux1_pll()?,
            AdcSel1::Off => 0,
        };
        // When stage 1 bypasses stage 0, park stage 0 on "none" so it is
        // not left pointlessly active.
        if !matches!(self.sel1, AdcSel1::Adc0fclksel0MuxOut) {
            let cur = regs.sys;
            regs.sys = SysRegs { adc0fclksel0: 0b111, ..cur };
            regs.log.push(RegWrite::Adc0Fclksel0);
        }
        let cur = regs.sys;
        regs.sys = SysRegs { adc0fclksel1: self.sel1.bits(), ..cur };
        regs.log.push(RegWrite::Adc0Fclksel1);

        // Program the divider under halt-and-reset, release it, and wait
        // for the request flag to clear (assumed to happen).
        let cur = regs.sys;
        regs.sys = SysRegs { adc0fclkdiv_halt: true, ..cur };
        regs.log.push(RegWrite::Adc0Fclkdiv);
        let cur = regs.sys;
        regs.sys = SysRegs { adc0fclkdiv_div: self.div, ..cur };
        regs.log.push(RegWrite::Adc0Fclkdiv);
        let cur = regs.sys;
        regs.sys = SysRegs { adc0fclkdiv_halt: false, ..cur };
        regs.log.push(RegWrite::Adc0Fclkdiv);

        Ok(freq / (1u32 + self.div as u32))
    }
}

// --- SCTimer/PWM function clock.

/// Clock source selection of the SCTimer/PWM.
#[derive(Copy, Clone, Debug, PartialEq, Eq, Structural)]
pub enum SCTClockSource {
    /// The main clock; always active once bring-up has run.
    Main,
    /// The main PLL clock (`main_pll_clk`).
    MainPLL,
    /// The AUX0 PLL clock.
    AUX0PLL,
    /// The 48/60 MHz internal oscillator.
    FFRO,
    /// The AUX1 PLL clock.
    AUX1PLL,
    /// The audio PLL; not wired up, selecting it is a programming error.
    AudioPLL,
    /// Lowest-power selection: no clock.
    Off,
}

impl SCTClockSource {
    /// Hardware encoding in SCTFCLKSEL.
    pub open spec fn spec_bits(self) -> u8 {
        match self {
            SCTClockSource::Main => 0b000,
            SCTClockSource::MainPLL => 0b001,
            SCTClockSource::AUX0PLL => 0b010,
            SCTClockSource::FFRO => 0b011,
            SCTClockSource::AUX1PLL => 0b100,
            SCTClockSource::AudioPLL => 0b101,
            SCTClockSource::Off => 0b111,
        }
    }

    /// Hardware encoding in SCTFCLKSEL.
    pub fn bits(&self) -> (b: u8)
        ensures
            b == self.spec_bits(),
    {
        match self {
            SCTClockSource::Main => 0b000,
            SCTClockSource::MainPLL => 0b001,
            SCTClockSource::AUX0PLL => 0b010,
            SCTClockSource::FFRO => 0b011,
            SCTClockSource::AUX1PLL => 0b100,
            SCTClockSource::AudioPLL => 0b101,
            SCTClockSource::Off => 0b111,
        }
    }
}

/// What the SCTimer source delivers, as the registry rules on it.
pub open spec fn sct_source(c: Clocks, s: SCTClockSource) -> Result<u32, ClockError> {
    match s {
        SCTClockSource::Main => Ok(c.main_clk),
        SCTClockSource::MainPLL => match c.main_pll_clk {
            Some(f) => Ok(f),
            None => Err(ClockError::BadConfiguration { reason: "main_pll needed" }),
        },
        SCTClockSource::AUX0PLL => match c.aux0_pll_clk {
            Some(f) => Ok(f),
            None => Err(ClockError::BadConfiguration { reason: "aux0pll needed" }),
        },
        SCTClockSource::FFRO => match c._48_60m_irc {
            Some(f) => Ok(f),
            None => Err(ClockError::BadConfiguration { reason: "ffro needed" }),
        },
        SCTClockSource::AUX1PLL => match c.aux1_pll_clk {
            Some(f) => Ok(f),
            None => Err(ClockError::BadConfiguration { reason: "aux1pll needed" }),
        },
        SCTClockSource::AudioPLL => Err(
            ClockError::Programming { reason: "audio pll not yet supported" },
        ),
        SCTClockSource::Off => Ok(0),
    }
}

/// Function-clock configuration of the SCTimer/PWM: a six-way source
/// multiplexer and an integer divider.
#[derive(Copy, Clone, Debug)]
pub struct Sct0Config {
    /// Source selection.
    pub source: SCTClockSource,
    /// Function clock divided by (1 + `div`); skipped for the "off" source.
    pub div: u8,
}

impl SPConfHelper for Sct0Config {
    open spec fn spec_post(&self, clocks: Clocks) -> Result<u32, ClockError> {
        match sct_source(clocks, self.source) {
            Ok(f) => if self.source is Off {
                Ok(0)
            } else {
                Ok(((f as int) / (1 + self.div)) as u32)
            },
            Err(e) => Err(e),
        }
    }

    open spec fn spec_sys(&self, clocks: Clocks, s: SysRegs) -> SysRegs {
        if sct_source(clocks, self.source) is Ok {
            if self.source is Off {
                SysRegs { sctfclksel: 0b111, ..s }
            } else {
                SysRegs {
                    sctfclksel: self.source.spec_bits(),
                    sctfclkdiv_div: self.div,
                    sctfclkdiv_halt: false,
                    ..s
                }
            }
        } else {
            s
        }
    }

    open spec fn spec_flex(&self, clocks: Clocks, f: FlexRegs) -> FlexRegs {
        f
    }

    open spec fn spec_fclk1(&self, clocks: Clocks, f: Fclk1Regs) -> Fclk1Regs {
        f
    }

    open spec fn spec_log(&self, clocks: Clocks, l: Seq<RegWrite>) -> Seq<RegWrite> {
        if sct_source(clocks, self.source) is Ok {
            if self.source is Off {
                l.push(RegWrite::Sctfclksel)
            } else {
                l.push(RegWrite::Sctfclksel).push(RegWrite::Sctfclkdiv).push(
                    RegWrite::Sctfclkdiv,
                ).push(RegWrite::Sctfclkdiv)
            }
        } else {
            l
        }
    }

    fn post_enable_config(&self, clocks: &Clocks, regs: &mut Registers) -> (r: Result<
        u32,
        ClockError,
    >) {
        let freq: u32 = match self.source {
            SCTClockSource::Main => clocks.main_clk,
            SCTClockSource::MainPLL => match clocks.main_pll_clk {
                Some(f) => f,
                None => {
                    return Err(ClockError::bad_config("main_pll needed"));
                },
            },
            SCTClockSource::AUX0PLL => match clocks.aux0_pll_clk {
                Some(f) => f,
                None => {
                    return Err(ClockError::bad_config("aux0pll needed"));
                },
            },
            SCTClockSource::FFRO => match clocks._48_60m_irc {
                Some(f) => f,
                None => {
                    return Err(ClockError::bad_config("ffro needed"));
                },
            },
            SCTClockSource::AUX1PLL => match clocks.aux1_pll_clk {
                Some(f) => f,
                None => {
                    return Err(ClockError::bad_config("aux1pll needed"));
                },
            },
            SCTClockSource::AudioPLL => {
                return Err(ClockError::prog_err("audio pll not yet supported"));
            },
            SCTClockSource::Off => 0,
        };
        let cur = regs.sys;
        regs.sys = SysRegs { sctfclksel: self.source.bits(), ..cur };
        regs.log.push(RegWrite::Sctfclksel);
        if matches!(self.source, SCTClockSource::Off) {
            return Ok(0);
        }
        // Program the divider under halt-and-reset, release it, and wait
        // for the request flag to clear (assumed to happen).
        let cur = regs.sys;
        regs.sys = SysRegs { sctfclkdiv_halt: true, ..cur };
        regs.log.push(RegWrite::Sctfclkdiv);
        let cur = regs.sys;
        regs.sys = SysRegs { sctfclkdiv_div: self.div, ..cur };
        regs.log.push(RegWrite::Sctfclkdiv);
        let cur = regs.sys;
        regs.sys = SysRegs { sctfclkdiv_halt: false, ..cur };
        regs.log.push(RegWrite::Sctfclkdiv);
        Ok(freq / (1u32 + self.div as u32))
    }
}

// --- Watchdog function clocks.

/// Clock source selection of a watchdog timer.
#[derive(Copy, Clone, Debug, PartialEq, Eq, Structural)]
pub enum WdtClkSel {
    /// The 1 MHz low-power oscillator.
    LpOsc1m,
    /// No clock.
    Off,
}

/// Which of the two watchdog instances.
#[derive(Copy, Clone, Debug, PartialEq, Eq, Structural)]
pub enum WdtInstance {
    /// Watchdog 0.
    Wwdt0,
    /// Watchdog 1.
    Wwdt1,
}

/// Function-clock configuration of a watchdog: a binary multiplexer between
/// the 1 MHz low-power oscillator and "none".
#[derive(Copy, Clone, Debug)]
pub struct WdtConfig {
    /// Source selection.
    pub source: WdtClkSel,
    /// Which watchdog.
    pub instance: WdtInstance,
}

impl SPConfHelper for WdtConfig {
    open spec fn spec_post(&self, clocks: Clocks) -> Result<u32, ClockError> {
        match self.source {
            WdtClkSel::LpOsc1m => if clocks._1m_lposc.enabled {
                Ok(1_000_000)
            } else {
                Err(ClockError::BadConfiguration { reason: "1m_irc/lposc needed but not enabled" })
            },
            WdtClkSel::Off => Ok(0),
        }
    }

    open spec fn spec_sys(&self, clocks: Clocks, s: SysRegs) -> SysRegs {
        if self.spec_post(clocks) is Ok && self.instance is Wwdt0 {
            SysRegs {
                wdt0fclksel: if self.source is LpOsc1m {
                    0b000
                } else {
                    0b111
                },
                ..s
            }
        } else {
            s
        }
    }

    open spec fn spec_flex(&self, clocks: Clocks, f: FlexRegs) -> FlexRegs {
        f
    }

    open spec fn spec_fclk1(&self, clocks: Clocks, f: Fclk1Regs) -> Fclk1Regs {
        if self.spec_post(clocks) is Ok && self.instance is Wwdt1 {
            Fclk1Regs {
                wdt1fclksel: if self.source is LpOsc1m {
                    0b000
                } else {
                    0b111
                },
                ..f
            }
        } else {
            f
        }
    }

    open spec fn spec_log(&self, clocks: Clocks, l: Seq<RegWrite>) -> Seq<RegWrite> {
        if self.spec_post(clocks) is Ok {
            match self.instance {
                WdtInstance::Wwdt0 => l.push(RegWrite::Wdt0Fclksel),
                WdtInstance::Wwdt1 => l.push(RegWrite::Wdt1Fclksel),
            }
        } else {
            l
        }
    }

    fn post_enable_config(&self, clocks: &Clocks, regs: &mut Registers) -> (r: Result<
        u32,
        ClockError,
    >) {
        let freq: u32 = match self.source {
            WdtClkSel::LpOsc1m => clocks.ensure_1m_lposc()?,
            WdtClkSel::Off => 0,
        };
        let sel: u8 = match self.source {
            WdtClkSel::LpOsc1m => 0b000,
            WdtClkSel::Off => 0b111,
        };
        match self.instance {
            WdtInstance::Wwdt0 => {
                let cur = regs.sys;
                regs.sys = SysRegs { wdt0fclksel: sel, ..cur };
                regs.log.push(RegWrite::Wdt0Fclksel);
            },
            WdtInstance::Wwdt1 => {
                let cur = regs.fclk1;
                regs.fclk1 = Fclk1Regs { wdt1fclksel: sel, ..cur };
                regs.log.push(RegWrite::Wdt1Fclksel);
            },
        }
        Ok(freq)
    }
}

// --- Counter-timer function clocks.

/// Clock source selection of a 32-bit counter-timer.
#[derive(Copy, Clone, Debug, PartialEq, Eq, Structural)]
pub enum CTimerSel {
    /// The main clock.
    MainClk,
    /// The 16 MHz internal oscillator.
    SfroClk,
    /// The 48/60 MHz internal oscillator.
    FfroClk,
    /// The audio PLL; not wired up, selecting it is a programming error.
    AudioPllClk,
    /// The MCLK input; not wired up, selecting it is a programming error.
    MasterClk,
    /// The 1 MHz low-power oscillator.
    Lposc,
    /// No clock.
    Off,
}

impl CTimerSel {
    /// Hardware encoding in CT32BITnFCLKSEL.
    pub open spec fn spec_bits(self) -> u8 {
        match self {
            CTimerSel::MainClk => 0b000,
            CTimerSel::SfroClk => 0b001,
            CTimerSel::FfroClk => 0b010,
            CTimerSel::AudioPllClk => 0b011,
            CTimerSel::MasterClk => 0b100,
            CTimerSel::Lposc => 0b101,
            CTimerSel::Off => 0b111,
        }
    }

    /// Hardware encoding in CT32BITnFCLKSEL.
    pub fn bits(&self) -> (b: u8)
        ensures
            b == self.spec_bits(),
    {
        match self {
            CTimerSel::MainClk => 0b000,
            CTimerSel::SfroClk => 0b001,
            CTimerSel::FfroClk => 0b010,
            CTimerSel::AudioPllClk => 0b011,
            CTimerSel::MasterClk => 0b100,
            CTimerSel::Lposc => 0b101,
            CTimerSel::Off => 0b111,
        }
    }
}

/// Which of the five counter-timer instances.
#[derive(Clone, Copy, Debug, PartialEq, Eq, Structural)]
pub enum CTimerInstance {
    /// Counter-timer 0.
    CTimer0,
    /// Counter-timer 1.
    CTimer1,
    /// Counter-timer 2.
    CTimer2,
    /// Counter-timer 3.
    CTimer3,
    /// Counter-timer 4.
    CTimer4,
}

impl CTimerInstance {
    /// The instance number.
    pub open spec fn spec_index(self) -> u8 {
        match self {
            CTimerInstance::CTimer0 => 0,
            CTimerInstance::CTimer1 => 1,
            CTimerInstance::CTimer2 => 2,
            CTimerInstance::CTimer3 => 3,
            CTimerInstance::CTimer4 => 4,
        }
    }

    /// The instance number.
    pub fn index(&self) -> (r: u8)
        ensures
            r == self.spec_index(),
    {
        match self {
            CTimerInstance::CTimer0 => 0,
            CTimerInstance::CTimer1 => 1,
            CTimerInstance::CTimer2 => 2,
            CTimerInstance::CTimer3 => 3,
            CTimerInstance::CTimer4 => 4,
        }
    }
}

/// `f` with the counter-timer select of the given instance replaced.
pub open spec fn with_ct(f: Fclk1Regs, idx: u8, v: u8) -> Fclk1Regs {
    if idx == 0 {
        Fclk1Regs { ct32bitfclksel0: v, ..f }
    } else if idx == 1 {
        Fclk1Regs { ct32bitfclksel1: v, ..f }
    } else if idx == 2 {
        Fclk1Regs { ct32bitfclksel2: v, ..f }
    } else if idx == 3 {
        Fclk1Regs { ct32bitfclksel3: v, ..f }
    } else {
        Fclk1Regs { ct32bitfclksel4: v, ..f }
    }
}

/// What the counter-timer source delivers, as the registry rules on it.
pub open spec fn ct_source(c: Clocks, s: CTimerSel) -> Result<u32, ClockError> {
    match s {
        CTimerSel::MainClk => Ok(c.main_clk),
        CTimerSel::SfroClk => if c._16m_irc.enabled {
            Ok(16_000_000)
        } else {
            Err(ClockError::BadConfiguration { reason: "16m_irc/sfro needed but not enabled" })
        },
        CTimerSel::FfroClk => match c._48_60m_irc {
            Some(f) => Ok(f),
            None => Err(
                ClockError::BadConfiguration { reason: "48/60m_irc/ffro needed but not enabled" },
            ),
        },
        CTimerSel::AudioPllClk => Err(ClockError::Programming { reason: "not implemented" }),
        CTimerSel::MasterClk => Err(ClockError::Programming { reason: "not implemented" }),
        CTimerSel::Lposc => if c._1m_lposc.enabled {
            Ok(1_000_000)
        } else {
            Err(ClockError::BadConfiguration { reason: "1m_irc/lposc needed but not enabled" })
        },
        CTimerSel::Off => Ok(0),
    }
}

/// Function-clock configuration of a 32-bit counter-timer: a seven-way
/// source multiplexer, instance-indexed.
#[derive(Copy, Clone, Debug)]
pub struct CtimerConfig {
    /// Source selection.
    pub source: CTimerSel,
    /// Which counter-timer.
    pub instance: CTimerInstance,
}

impl SPConfHelper for CtimerConfig {
    open spec fn spec_post(&self, clocks: Clocks) -> Result<u32, ClockError> {
        ct_source(clocks, self.source)
    }

    open spec fn spec_sys(&self, clocks: Clocks, s: SysRegs) -> SysRegs {
        s
    }

    open spec fn spec_flex(&self, clocks: Clocks, f: FlexRegs) -> FlexRegs {
        f
    }

    open spec fn spec_fclk1(&self, clocks: Clocks, f: Fclk1Regs) -> Fclk1Regs {
        if ct_source(clocks, self.source) is Ok {
            with_ct(f, self.instance.spec_index(), self.source.spec_bits())
        } else {
            f
        }
    }

    open spec fn spec_log(&self, clocks: Clocks, l: Seq<RegWrite>) -> Seq<RegWrite> {
        if ct_source(clocks, self.source) is Ok {
            l.push(RegWrite::Ct32BitFclksel(self.instance.spec_index()))
        } else {
            l
        }
    }

    fn post_enable_config(&self, clocks: &Clocks, regs: &mut Registers) -> (r: Result<
        u32,
        ClockError,
    >) {
        let freq: u32 = match self.source {
            CTimerSel::MainClk => clocks.main_clk,
            CTimerSel::SfroClk => clocks.ensure_16m_sfro()?,
            CTimerSel::FfroClk => clocks.ensure_48_60_ffro()?,
            CTimerSel::AudioPllClk => {
                return Err(ClockError::prog_err("not implemented"));
            },
            CTimerSel::MasterClk => {
                return Err(ClockError::prog_err("not implemented"));
            },
            CTimerSel::Lposc => clocks.ensure_1m_lposc()?,
            CTimerSel::Off => 0,
        };
        let idx: u8 = self.instance.index();
        let b: u8 = self.source.bits();
        let cur = regs.fclk1;
        regs.fclk1 = if idx == 0 {
            Fclk1Regs { ct32bitfclksel0: b, ..cur }
        } else if idx == 1 {
            Fclk1Regs { ct32bitfclksel1: b, ..cur }
        } else if idx == 2 {
            Fclk1Regs { ct32bitfclksel2: b, ..cur }
        } else if idx == 3 {
            Fclk1Regs { ct32bitfclksel3: b, ..cur }
        } else {
            Fclk1Regs { ct32bitfclksel4: b, ..cur }
        };
        regs.log.push(RegWrite::Ct32BitFclksel(idx));
        Ok(freq)
    }
}

// --- Peripherals without an upstream clock concern.

/// Configuration for a peripheral with no independent upstream clock (pure
/// AHB/APB peripherals): does nothing and reports a frequency of 0.
#[derive(Copy, Clone, Debug)]
pub struct NoConfig;

impl SPConfHelper for NoConfig {
    open spec fn spec_post(&self, clocks: Clocks) -> Result<u32, ClockError> {
        Ok(0)
    }

    open spec fn spec_sys(&self, clocks: Clocks, s: SysRegs) -> SysRegs {
        s
    }

    open spec fn spec_flex(&self, clocks: Clocks, f: FlexRegs) -> FlexRegs {
        f
    }

    open spec fn spec_fclk1(&self, clocks: Clocks, f: Fclk1Regs) -> Fclk1Regs {
        f
    }

    open spec fn spec_log(&self, clocks: Clocks, l: Seq<RegWrite>) -> Seq<RegWrite> {
        l
    }

    fn post_enable_config(&self, clocks: &Clocks, regs: &mut Registers) -> (r: Result<
        u32,
        ClockError,
    >) {
        Ok(0)
    }
}

/// Placeholder for peripherals whose upstream clocking has not been written
/// yet: enabling them is a programming error until it is.
#[derive(Copy, Clone, Debug)]
pub struct UnimplementedConfig;

impl SPConfHelper for UnimplementedConfig {
    open spec fn spec_post(&self, clocks: Clocks) -> Result<u32, ClockError> {
        Err(ClockError::Programming { reason: "not implemented" })
    }

    open spec fn spec_sys(&self, clocks: Clocks, s: SysRegs) -> SysRegs {
        s
    }

    open spec fn spec_flex(&self, clocks: Clocks, f: FlexRegs) -> FlexRegs {
        f
    }

    open spec fn spec_fclk1(&self, clocks: Clocks, f: Fclk1Regs) -> Fclk1Regs {
        f
    }

    open spec fn spec_log(&self, clocks: Clocks, l: Seq<RegWrite>) -> Seq<RegWrite> {
        l
    }

    fn post_enable_config(&self, clocks: &Clocks, regs: &mut Registers) -> (r: Result<
        u32,
        ClockError,
    >) {
        Err(ClockError::prog_err("not implemented"))
    }
}

impl Syscon {
    /// Enables peripheral `T`: opens its bus-clock gate, then — under the
    /// published registry — runs the peripheral configuration, which
    /// selects and validates the function clock and returns its frequency.
    /// Enabling before bring-up has run is a programming error (the clock
    /// still opens first, as the hardware sequence does).
    ///
    /// The peripheral must not be in use.
    pub fn enable<T: SysconPeripheral>(&mut self, cfg: &T::SysconPeriphConfig) -> (r: Result<
        u32,
        ClockError,
    >)
        ensures
            final(self).clocks == old(self).clocks,
            final(self).regs.gates == spec_gate_written(
                old(self).regs.gates,
                T::spec_desc(),
                true,
            ),
            final(self).regs.rst == old(self).regs.rst,
            final(self).regs.osc == old(self).regs.osc,
            final(self).regs.pll == old(self).regs.pll,
            final(self).regs.pfddiv == old(self).regs.pfddiv,
            final(self).regs.outdiv == old(self).regs.outdiv,
            final(self).regs.delays@ == old(self).regs.delays@,
            old(self).clocks is None ==> {
                &&& r == Err::<u32, ClockError>(
                    ClockError::Programming { reason: "didn't call init" },
                )
                &&& final(self).regs.sys == old(self).regs.sys
                &&& final(self).regs.flex == old(self).regs.flex
                &&& final(self).regs.fclk1 == old(self).regs.fclk1
                &&& final(self).regs.log@ == old(self).regs.log@.push(
                    RegWrite::PscctlSet(T::spec_desc().cbank, T::spec_desc().creg),
                )
            },
            old(self).clocks matches Some(c) ==> {
                &&& r == cfg.spec_post(c)
                &&& final(self).regs.sys == cfg.spec_sys(c, old(self).regs.sys)
                &&& final(self).regs.flex == cfg.spec_flex(c, old(self).regs.flex)
                &&& final(self).regs.fclk1 == cfg.spec_fclk1(c, old(self).regs.fclk1)
                &&& final(self).regs.log@ == cfg.spec_log(
                    c,
                    old(self).regs.log@.push(
                        RegWrite::PscctlSet(T::spec_desc().cbank, T::spec_desc().creg),
                    ),
                )
            },
    {
        T::enable_perph_clock(&mut self.regs);
        let clocks = match &self.clocks {
            Some(c) => c,
            None => {
                return Err(ClockError::prog_err("didn't call init"));
            },
        };
        cfg.post_enable_config(clocks, &mut self.regs)
    }

    /// Enables peripheral `T` and releases it from reset. The reset release
    /// is the last write: it happens only after the function clock has been
    /// fully selected by the configuration, and only when the configuration
    /// succeeded.
    ///
    /// The peripheral must not be in use.
    pub fn enable_and_reset<T: SysconPeripheral>(&mut self, cfg: &T::SysconPeriphConfig) -> (r:
        Result<u32, ClockError>)
        ensures
            final(self).clocks == old(self).clocks,
            final(self).regs.gates == spec_gate_written(
                old(self).regs.gates,
                T::spec_desc(),
                true,
            ),
            final(self).regs.osc == old(self).regs.osc,
            final(self).regs.pll == old(self).regs.pll,
            final(self).regs.pfddiv == old(self).regs.pfddiv,
            final(self).regs.outdiv == old(self).regs.outdiv,
            final(self).regs.delays@ == old(self).regs.delays@,
            old(self).clocks is None ==> {
                &&& r == Err::<u32, ClockError>(
                    ClockError::Programming { reason: "didn't call init" },
                )
                &&& final(self).regs.rst == old(self).regs.rst
            },
            old(self).clocks matches Some(c) ==> {
                &&& r == cfg.spec_post(c)
                &&& final(self).regs.sys == cfg.spec_sys(c, old(self).regs.sys)
                &&& final(self).regs.flex == cfg.spec_flex(c, old(self).regs.flex)
                &&& final(self).regs.fclk1 == cfg.spec_fclk1(c, old(self).regs.fclk1)
                &&& (if cfg.spec_post(c) is Ok {
                    // Every write of the configuration step stands in the
                    // record before the reset release, which comes last.
                    final(self).regs.log@ == cfg.spec_log(
                        c,
                        old(self).regs.log@.push(
                            RegWrite::PscctlSet(T::spec_desc().cbank, T::spec_desc().creg),
                        ),
                    ).push(RegWrite::PrstctlClr(T::spec_desc().rbank, T::spec_desc().rreg))
                        && final(self).regs.rst == crate::hardware::rst_with_prstctl(
                        old(self).regs.rst,
                        T::spec_desc().rbank,
                        T::spec_desc().rreg,
                        crate::hardware::rst_prstctl(
                            old(self).regs.rst,
                            T::spec_desc().rbank,
                            T::spec_desc().rreg,
                        ) & !(1u32 << T::spec_desc().bit),
                    )
                } else {
                    final(self).regs.rst == old(self).regs.rst && final(self).regs.log@
                        == cfg.spec_log(
                        c,
                        old(self).regs.log@.push(
                            RegWrite::PscctlSet(T::spec_desc().cbank, T::spec_desc().creg),
                        ),
                    )
                })
            },
    {
        let freq = self.enable::<T>(cfg)?;
        T::reset_perph(&mut self.regs);
        Ok(freq)
    }

    /// Disables peripheral `T`: closes its bus-clock gate. No frequency
    /// bookkeeping is needed — function-clock frequencies are derived, not
    /// cached per peripheral.
    ///
    /// The peripheral must not be in use.
    pub fn disable<T: SysconPeripheral>(&mut self)
        ensures
            final(self).clocks == old(self).clocks,
            final(self).regs.gates == spec_gate_written(
                old(self).regs.gates,
                T::spec_desc(),
                false,
            ),
            final(self).regs.rst == old(self).regs.rst,
            crate::hardware::same_clock_zones(old(self).regs, final(self).regs),
            final(self).regs.log@ == old(self).regs.log@.push(
                RegWrite::PscctlClr(T::spec_desc().cbank, T::spec_desc().creg),
            ),
    {
        T::disable_perph_clock(&mut self.regs);
    }
}

// --- The peripherals themselves: where each one's gate and reset bits
// --- live, and which configuration object it takes.

/// The pin interrupt multiplexer.
pub struct PIMCTL;

impl SealedSysconPeripheral for PIMCTL {
    type SysconPeriphConfig = NoConfig;

    open spec fn spec_desc() -> PeriphDesc {
        PeriphDesc { cbank: Bank::Ctl1, creg: 2, rbank: Bank::Ctl1, rreg: 2, bit: 31 }
    }

    proof fn desc_wf() {
    }

    fn desc() -> PeriphDesc {
        PeriphDesc { cbank: Bank::Ctl1, creg: 2, rbank: Bank::Ctl1, rreg: 2, bit: 31 }
    }
}

impl SysconPeripheral for PIMCTL {

}

/// The analog comparator; its upstream clocking is not written yet.
pub struct ACMP;

impl SealedSysconPeripheral for ACMP {
    type SysconPeriphConfig = UnimplementedConfig;

    open spec fn spec_desc() -> PeriphDesc {
        PeriphDesc { cbank: Bank::Ctl0, creg: 1, rbank: Bank::Ctl0, rreg: 1, bit: 15 }
    }

    proof fn desc_wf() {
    }

    fn desc() -> PeriphDesc {
        PeriphDesc { cbank: Bank::Ctl0, creg: 1, rbank: Bank::Ctl0, rreg: 1, bit: 15 }
    }
}

impl SysconPeripheral for ACMP {

}

/// The analog-to-digital converter.
pub struct ADC0;

impl SealedSysconPeripheral for ADC0 {
    type SysconPeriphConfig = AdcConfig;

    open spec fn spec_desc() -> PeriphDesc {
        PeriphDesc { cbank: Bank::Ctl0, creg: 1, rbank: Bank::Ctl0, rreg: 1, bit: 16 }
    }

    proof fn desc_wf() {
    }

    fn desc() -> PeriphDesc {
        PeriphDesc { cbank: Bank::Ctl0, creg: 1, rbank: Bank::Ctl0, rreg: 1, bit: 16 }
    }
}

impl SysconPeripheral for ADC0 {

}

/// The crypto accelerator; its upstream clocking is not written yet.
pub struct CASPER;

impl SealedSysconPeripheral for CASPER {
    type SysconPeriphConfig = UnimplementedConfig;

    open spec fn spec_desc() -> PeriphDesc {
        PeriphDesc { cbank: Bank::Ctl0, creg: 0, rbank: Bank::Ctl0, rreg: 0, bit: 9 }
    }

    proof fn desc_wf() {
    }

    fn desc() -> PeriphDesc {
        PeriphDesc { cbank: Bank::Ctl0, creg: 0, rbank: Bank::Ctl0, rreg: 0, bit: 9 }
    }
}

impl SysconPeripheral for CASPER {

}

/// The CRC engine.
pub struct CRC;

impl SealedSysconPeripheral for CRC {
    type SysconPeriphConfig = NoConfig;

    open spec fn spec_desc() -> PeriphDesc {
        PeriphDesc { cbank: Bank::Ctl1, creg: 1, rbank: Bank::Ctl1, rreg: 1, bit: 16 }
    }

    proof fn desc_wf() {
    }

    fn desc() -> PeriphDesc {
        PeriphDesc { cbank: Bank::Ctl1, creg: 1, rbank: Bank::Ctl1, rreg: 1, bit: 16 }
    }
}

impl SysconPeripheral for CRC {

}

/// Counter-timer 0.
pub struct CTIMER0_COUNT_CHANNEL0;

impl SealedSysconPeripheral for CTIMER0_COUNT_CHANNEL0 {
    type SysconPeriphConfig = CtimerConfig;

    open spec fn spec_desc() -> PeriphDesc {
        PeriphDesc { cbank: Bank::Ctl1, creg: 2, rbank: Bank::Ctl1, rreg: 2, bit: 0 }
    }

    proof fn desc_wf() {
    }

    fn desc() -> PeriphDesc {
        PeriphDesc { cbank: Bank::Ctl1, creg: 2, rbank: Bank::Ctl1, rreg: 2, bit: 0 }
    }
}

impl SysconPeripheral for CTIMER0_COUNT_CHANNEL0 {

}

/// Counter-timer 1.
pub struct CTIMER1_COUNT_CHANNEL0;

impl SealedSysconPeripheral for CTIMER1_COUNT_CHANNEL0 {
    type SysconPeriphConfig = CtimerConfig;

    open spec fn spec_desc() -> PeriphDesc {
        PeriphDesc { cbank: Bank::Ctl1, creg: 2, rbank: Bank::Ctl1, rreg: 2, bit: 1 }
    }

    proof fn desc_wf() {
    }

    fn desc() -> PeriphDesc {
        PeriphDesc { cbank: Bank::Ctl1, creg: 2, rbank: Bank::Ctl1, rreg: 2, bit: 1 }
    }
}

impl SysconPeripheral for CTIMER1_COUNT_CHANNEL0 {

}

/// Counter-timer 2.
pub struct CTIMER2_COUNT_CHANNEL0;

impl SealedSysconPeripheral for CTIMER2_COUNT_CHANNEL0 {
    type SysconPeriphConfig = CtimerConfig;

    open spec fn spec_desc() -> PeriphDesc {
        PeriphDesc { cbank: Bank::Ctl1, creg: 2, rbank: Bank::Ctl1, rreg: 2, bit: 2 }
    }

    proof fn desc_wf() {
    }

    fn desc() -> PeriphDesc {
        PeriphDesc { cbank: Bank::Ctl1, creg: 2, rbank: Bank::Ctl1, rreg: 2, bit: 2 }
    }
}

impl SysconPeripheral for CTIMER2_COUNT_CHANNEL0 {

}

/// Counter-timer 3.
pub struct CTIMER3_COUNT_CHANNEL0;

impl SealedSysconPeripheral for CTIMER3_COUNT_CHANNEL0 {
    type SysconPeriphConfig = CtimerConfig;

    open spec fn spec_desc() -> PeriphDesc {
        PeriphDesc { cbank: Bank::Ctl1, creg: 2, rbank: Bank::Ctl1, rreg: 2, bit: 3 }
    }

    proof fn desc_wf() {
    }

    fn desc() -> PeriphDesc {
        PeriphDesc { cbank: Bank::Ctl1, creg: 2, rbank: Bank::Ctl1, rreg: 2, bit: 3 }
    }
}

impl SysconPeripheral for CTIMER3_COUNT_CHANNEL0 {

}

/// Counter-timer 4.
pub struct CTIMER4_COUNT_CHANNEL0;

impl SealedSysconPeripheral for CTIMER4_COUNT_CHANNEL0 {
    type SysconPeriphConfig = CtimerConfig;

    open spec fn spec_desc() -> PeriphDesc {
        PeriphDesc { cbank: Bank::Ctl1, creg: 2, rbank: Bank::Ctl1, rreg: 2, bit: 4 }
    }

    proof fn desc_wf() {
    }

    fn desc() -> PeriphDesc {
        PeriphDesc { cbank: Bank::Ctl1, creg: 2, rbank: Bank::Ctl1, rreg: 2, bit: 4 }
    }
}

impl SysconPeripheral for CTIMER4_COUNT_CHANNEL0 {

}

/// DMA controller 0.
pub struct DMA0;

impl SealedSysconPeripheral for DMA0 {
    type SysconPeriphConfig = NoConfig;

    open spec fn spec_desc() -> PeriphDesc {
        PeriphDesc { cbank: Bank::Ctl1, creg: 1, rbank: Bank::Ctl1, rreg: 1, bit: 23 }
    }

    proof fn desc_wf() {
    }

    fn desc() -> PeriphDesc {
        PeriphDesc { cbank: Bank::Ctl1, creg: 1, rbank: Bank::Ctl1, rreg: 1, bit: 23 }
    }
}

impl SysconPeripheral for DMA0 {

}

/// DMA controller 1.
pub struct DMA1;

impl SealedSysconPeripheral for DMA1 {
    type SysconPeriphConfig = NoConfig;

    open spec fn spec_desc() -> PeriphDesc {
        PeriphDesc { cbank: Bank::Ctl1, creg: 1, rbank: Bank::Ctl1, rreg: 1, bit: 24 }
    }

    proof fn desc_wf() {
    }

    fn desc() -> PeriphDesc {
        PeriphDesc { cbank: Bank::Ctl1, creg: 1, rbank: Bank::Ctl1, rreg: 1, bit: 24 }
    }
}

impl SysconPeripheral for DMA1 {

}

/// The digital microphone subsystem; its upstream clocking is not written yet.
pub struct DMIC0;

impl SealedSysconPeripheral for DMIC0 {
    type SysconPeriphConfig = UnimplementedConfig;

    open spec fn spec_desc() -> PeriphDesc {
        PeriphDesc { cbank: Bank::Ctl1, creg: 0, rbank: Bank::Ctl1, rreg: 0, bit: 24 }
    }

    proof fn desc_wf() {
    }

    fn desc() -> PeriphDesc {
        PeriphDesc { cbank: Bank::Ctl1, creg: 0, rbank: Bank::Ctl1, rreg: 0, bit: 24 }
    }
}

impl SysconPeripheral for DMIC0 {

}

/// Flexcomm 0.
pub struct FLEXCOMM0;

impl SealedSysconPeripheral for FLEXCOMM0 {
    type SysconPeriphConfig = FlexcommConfig;

    open spec fn spec_desc() -> PeriphDesc {
        PeriphDesc { cbank: Bank::Ctl1, creg: 0, rbank: Bank::Ctl1, rreg: 0, bit: 8 }
    }

    proof fn desc_wf() {
    }

    fn desc() -> PeriphDesc {
        PeriphDesc { cbank: Bank::Ctl1, creg: 0, rbank: Bank::Ctl1, rreg: 0, bit: 8 }
    }
}

impl SysconPeripheral for FLEXCOMM0 {

}

/// Flexcomm 1.
pub struct FLEXCOMM1;

impl SealedSysconPeripheral for FLEXCOMM1 {
    type SysconPeriphConfig = FlexcommConfig;

    open spec fn spec_desc() -> PeriphDesc {
        PeriphDesc { cbank: Bank::Ctl1, creg: 0, rbank: Bank::Ctl1, rreg: 0, bit: 9 }
    }

    proof fn desc_wf() {
    }

    fn desc() -> PeriphDesc {
        PeriphDesc { cbank: Bank::Ctl1, creg: 0, rbank: Bank::Ctl1, rreg: 0, bit: 9 }
    }
}

impl SysconPeripheral for FLEXCOMM1 {

}

/// Flexcomm 2.
pub struct FLEXCOMM2;

impl SealedSysconPeripheral for FLEXCOMM2 {
    type SysconPeriphConfig = FlexcommConfig;

    open spec fn spec_desc() -> PeriphDesc {
        PeriphDesc { cbank: Bank::Ctl1, creg: 0, rbank: Bank::Ctl1, rreg: 0, bit: 10 }
    }

    proof fn desc_wf() {
    }

    fn desc() -> PeriphDesc {
        PeriphDesc { cbank: Bank::Ctl1, creg: 0, rbank: Bank::Ctl1, rreg: 0, bit: 10 }
    }
}

impl SysconPeripheral for FLEXCOMM2 {

}

/// Flexcomm 3.
pub struct FLEXCOMM3;

impl SealedSysconPeripheral for FLEXCOMM3 {
    type SysconPeriphConfig = FlexcommConfig;

    open spec fn spec_desc() -> PeriphDesc {
        PeriphDesc { cbank: Bank::Ctl1, creg: 0, rbank: Bank::Ctl1, rreg: 0, bit: 11 }
    }

    proof fn desc_wf() {
    }

    fn desc() -> PeriphDesc {
        PeriphDesc { cbank: Bank::Ctl1, creg: 0, rbank: Bank::Ctl1, rreg: 0, bit: 11 }
    }
}

impl SysconPeripheral for FLEXCOMM3 {

}

/// Flexcomm 4.
pub struct FLEXCOMM4;

impl SealedSysconPeripheral for FLEXCOMM4 {
    type SysconPeriphConfig = FlexcommConfig;

    open spec fn spec_desc() -> PeriphDesc {
        PeriphDesc { cbank: Bank::Ctl1, creg: 0, rbank: Bank::Ctl1, rreg: 0, bit: 12 }
    }

    proof fn desc_wf() {
    }

    fn desc() -> PeriphDesc {
        PeriphDesc { cbank: Bank::Ctl1, creg: 0, rbank: Bank::Ctl1, rreg: 0, bit: 12 }
    }
}

impl SysconPeripheral for FLEXCOMM4 {

}

/// Flexcomm 5.
pub struct FLEXCOMM5;

impl SealedSysconPeripheral for FLEXCOMM5 {
    type SysconPeriphConfig = FlexcommConfig;

    open spec fn spec_desc() -> PeriphDesc {
        PeriphDesc { cbank: Bank::Ctl1, creg: 0, rbank: Bank::Ctl1, rreg: 0, bit: 13 }
    }

    proof fn desc_wf() {
    }

    fn desc() -> PeriphDesc {
        PeriphDesc { cbank: Bank::Ctl1, creg: 0, rbank: Bank::Ctl1, rreg: 0, bit: 13 }
    }
}

impl SysconPeripheral for FLEXCOMM5 {

}

/// Flexcomm 6.
pub struct FLEXCOMM6;

impl SealedSysconPeripheral for FLEXCOMM6 {
    type SysconPeriphConfig = FlexcommConfig;

    open spec fn spec_desc() -> PeriphDesc {
        PeriphDesc { cbank: Bank::Ctl1, creg: 0, rbank: Bank::Ctl1, rreg: 0, bit: 14 }
    }

    proof fn desc_wf() {
    }

    fn desc() -> PeriphDesc {
        PeriphDesc { cbank: Bank::Ctl1, creg: 0, rbank: Bank::Ctl1, rreg: 0, bit: 14 }
    }
}

impl SysconPeripheral for FLEXCOMM6 {

}

/// Flexcomm 7.
pub struct FLEXCOMM7;

impl SealedSysconPeripheral for FLEXCOMM7 {
    type SysconPeriphConfig = FlexcommConfig;

    open spec fn spec_desc() -> PeriphDesc {
        PeriphDesc { cbank: Bank::Ctl1, creg: 0, rbank: Bank::Ctl1, rreg: 0, bit: 15 }
    }

    proof fn desc_wf() {
    }

    fn desc() -> PeriphDesc {
        PeriphDesc { cbank: Bank::Ctl1, creg: 0, rbank: Bank::Ctl1, rreg: 0, bit: 15 }
    }
}

impl SysconPeripheral for FLEXCOMM7 {

}

/// Flexcomm 14, the HS SPI.
pub struct FLEXCOMM14;

impl SealedSysconPeripheral for FLEXCOMM14 {
    type SysconPeriphConfig = FlexcommConfig14;

    open spec fn spec_desc() -> PeriphDesc {
        PeriphDesc { cbank: Bank::Ctl1, creg: 0, rbank: Bank::Ctl1, rreg: 0, bit: 22 }
    }

    proof fn desc_wf() {
    }

    fn desc() -> PeriphDesc {
        PeriphDesc { cbank: Bank::Ctl1, creg: 0, rbank: Bank::Ctl1, rreg: 0, bit: 22 }
    }
}

impl SysconPeripheral for FLEXCOMM14 {

}

/// Flexcomm 15, the PMIC I2C.
pub struct FLEXCOMM15;

impl SealedSysconPeripheral for FLEXCOMM15 {
    type SysconPeriphConfig = FlexcommConfig15;

    open spec fn spec_desc() -> PeriphDesc {
        PeriphDesc { cbank: Bank::Ctl1, creg: 0, rbank: Bank::Ctl1, rreg: 0, bit: 23 }
    }

    proof fn desc_wf() {
    }

    fn desc() -> PeriphDesc {
        PeriphDesc { cbank: Bank::Ctl1, creg: 0, rbank: Bank::Ctl1, rreg: 0, bit: 23 }
    }
}

impl SysconPeripheral for FLEXCOMM15 {

}

/// The FlexSPI interface; its function clock is configured by its own driver.
pub struct FLEXSPI;

impl SealedSysconPeripheral for FLEXSPI {
    type SysconPeriphConfig = NoConfig;

    open spec fn spec_desc() -> PeriphDesc {
        PeriphDesc { cbank: Bank::Ctl0, creg: 0, rbank: Bank::Ctl0, rreg: 0, bit: 16 }
    }

    proof fn desc_wf() {
    }

    fn desc() -> PeriphDesc {
        PeriphDesc { cbank: Bank::Ctl0, creg: 0, rbank: Bank::Ctl0, rreg: 0, bit: 16 }
    }
}

impl SysconPeripheral for FLEXSPI {

}

/// The frequency measurement unit; its reference selection is not written yet.
pub struct FREQME;

impl SealedSysconPeripheral for FREQME {
    type SysconPeriphConfig = UnimplementedConfig;

    open spec fn spec_desc() -> PeriphDesc {
        PeriphDesc { cbank: Bank::Ctl1, creg: 1, rbank: Bank::Ctl1, rreg: 1, bit: 31 }
    }

    proof fn desc_wf() {
    }

    fn desc() -> PeriphDesc {
        PeriphDesc { cbank: Bank::Ctl1, creg: 1, rbank: Bank::Ctl1, rreg: 1, bit: 31 }
    }
}

impl SysconPeripheral for FREQME {

}

/// The hash and crypto engine.
pub struct HASHCRYPT;

impl SealedSysconPeripheral for HASHCRYPT {
    type SysconPeriphConfig = NoConfig;

    open spec fn spec_desc() -> PeriphDesc {
        PeriphDesc { cbank: Bank::Ctl0, creg: 0, rbank: Bank::Ctl0, rreg: 0, bit: 10 }
    }

    proof fn desc_wf() {
    }

    fn desc() -> PeriphDesc {
        PeriphDesc { cbank: Bank::Ctl0, creg: 0, rbank: Bank::Ctl0, rreg: 0, bit: 10 }
    }
}

impl SysconPeripheral for HASHCRYPT {

}

/// High-speed GPIO port 0.
pub struct HSGPIO0;

impl SealedSysconPeripheral for HSGPIO0 {
    type SysconPeriphConfig = NoConfig;

    open spec fn spec_desc() -> PeriphDesc {
        PeriphDesc { cbank: Bank::Ctl1, creg: 1, rbank: Bank::Ctl1, rreg: 1, bit: 0 }
    }

    proof fn desc_wf() {
    }

    fn desc() -> PeriphDesc {
        PeriphDesc { cbank: Bank::Ctl1, creg: 1, rbank: Bank::Ctl1, rreg: 1, bit: 0 }
    }
}

impl SysconPeripheral for HSGPIO0 {

}

/// High-speed GPIO port 1.
pub struct HSGPIO1;

impl SealedSysconPeripheral for HSGPIO1 {
    type SysconPeriphConfig = NoConfig;

    open spec fn spec_desc() -> PeriphDesc {
        PeriphDesc { cbank: Bank::Ctl1, creg: 1, rbank: Bank::Ctl1, rreg: 1, bit: 1 }
    }

    proof fn desc_wf() {
    }

    fn desc() -> PeriphDesc {
        PeriphDesc { cbank: Bank::Ctl1, creg: 1, rbank: Bank::Ctl1, rreg: 1, bit: 1 }
    }
}

impl SysconPeripheral for HSGPIO1 {

}

/// High-speed GPIO port 2.
pub struct HSGPIO2;

impl SealedSysconPeripheral for HSGPIO2 {
    type SysconPeriphConfig = NoConfig;

    open spec fn spec_desc() -> PeriphDesc {
        PeriphDesc { cbank: Bank::Ctl1, creg: 1, rbank: Bank::Ctl1, rreg: 1, bit: 2 }
    }

    proof fn desc_wf() {
    }

    fn desc() -> PeriphDesc {
        PeriphDesc { cbank: Bank::Ctl1, creg: 1, rbank: Bank::Ctl1, rreg: 1, bit: 2 }
    }
}

impl SysconPeripheral for HSGPIO2 {

}

/// High-speed GPIO port 3.
pub struct HSGPIO3;

impl SealedSysconPeripheral for HSGPIO3 {
    type SysconPeriphConfig = NoConfig;

    open spec fn spec_desc() -> PeriphDesc {
        PeriphDesc { cbank: Bank::Ctl1, creg: 1, rbank: Bank::Ctl1, rreg: 1, bit: 3 }
    }

    proof fn desc_wf() {
    }

    fn desc() -> PeriphDesc {
        PeriphDesc { cbank: Bank::Ctl1, creg: 1, rbank: Bank::Ctl1, rreg: 1, bit: 3 }
    }
}

impl SysconPeripheral for HSGPIO3 {

}

/// High-speed GPIO port 4.
pub struct HSGPIO4;

impl SealedSysconPeripheral for HSGPIO4 {
    type SysconPeriphConfig = NoConfig;

    open spec fn spec_desc() -> PeriphDesc {
        PeriphDesc { cbank: Bank::Ctl1, creg: 1, rbank: Bank::Ctl1, rreg: 1, bit: 4 }
    }

    proof fn desc_wf() {
    }

    fn desc() -> PeriphDesc {
        PeriphDesc { cbank: Bank::Ctl1, creg: 1, rbank: Bank::Ctl1, rreg: 1, bit: 4 }
    }
}

impl SysconPeripheral for HSGPIO4 {

}

/// High-speed GPIO port 5.
pub struct HSGPIO5;

impl SealedSysconPeripheral for HSGPIO5 {
    type SysconPeriphConfig = NoConfig;

    open spec fn spec_desc() -> PeriphDesc {
        PeriphDesc { cbank: Bank::Ctl1, creg: 1, rbank: Bank::Ctl1, rreg: 1, bit: 5 }
    }

    proof fn desc_wf() {
    }

    fn desc() -> PeriphDesc {
        PeriphDesc { cbank: Bank::Ctl1, creg: 1, rbank: Bank::Ctl1, rreg: 1, bit: 5 }
    }
}

impl SysconPeripheral for HSGPIO5 {

}

/// High-speed GPIO port 6.
pub struct HSGPIO6;

impl SealedSysconPeripheral for HSGPIO6 {
    type SysconPeriphConfig = NoConfig;

    open spec fn spec_desc() -> PeriphDesc {
        PeriphDesc { cbank: Bank::Ctl1, creg: 1, rbank: Bank::Ctl1, rreg: 1, bit: 6 }
    }

    proof fn desc_wf() {
    }

    fn desc() -> PeriphDesc {
        PeriphDesc { cbank: Bank::Ctl1, creg: 1, rbank: Bank::Ctl1, rreg: 1, bit: 6 }
    }
}

impl SysconPeripheral for HSGPIO6 {

}

/// High-speed GPIO port 7.
pub struct HSGPIO7;

impl SealedSysconPeripheral for HSGPIO7 {
    type SysconPeriphConfig = NoConfig;

    open spec fn spec_desc() -> PeriphDesc {
        PeriphDesc { cbank: Bank::Ctl1, creg: 1, rbank: Bank::Ctl1, rreg: 1, bit: 7 }
    }

    proof fn desc_wf() {
    }

    fn desc() -> PeriphDesc {
        PeriphDesc { cbank: Bank::Ctl1, creg: 1, rbank: Bank::Ctl1, rreg: 1, bit: 7 }
    }
}

impl SysconPeripheral for HSGPIO7 {

}

/// The I3C interface; its clock dividers are not written yet.
pub struct I3C0;

impl SealedSysconPeripheral for I3C0 {
    type SysconPeriphConfig = UnimplementedConfig;

    open spec fn spec_desc() -> PeriphDesc {
        PeriphDesc { cbank: Bank::Ctl1, creg: 2, rbank: Bank::Ctl1, rreg: 2, bit: 16 }
    }

    proof fn desc_wf() {
    }

    fn desc() -> PeriphDesc {
        PeriphDesc { cbank: Bank::Ctl1, creg: 2, rbank: Bank::Ctl1, rreg: 2, bit: 16 }
    }
}

impl SysconPeripheral for I3C0 {

}

/// The multi-rate timer.
pub struct MRT0;

impl SealedSysconPeripheral for MRT0 {
    type SysconPeriphConfig = NoConfig;

    open spec fn spec_desc() -> PeriphDesc {
        PeriphDesc { cbank: Bank::Ctl1, creg: 2, rbank: Bank::Ctl1, rreg: 2, bit: 8 }
    }

    proof fn desc_wf() {
    }

    fn desc() -> PeriphDesc {
        PeriphDesc { cbank: Bank::Ctl1, creg: 2, rbank: Bank::Ctl1, rreg: 2, bit: 8 }
    }
}

impl SysconPeripheral for MRT0 {

}

/// The messaging unit.
pub struct MU_A;

impl SealedSysconPeripheral for MU_A {
    type SysconPeriphConfig = NoConfig;

    open spec fn spec_desc() -> PeriphDesc {
        PeriphDesc { cbank: Bank::Ctl1, creg: 1, rbank: Bank::Ctl1, rreg: 1, bit: 28 }
    }

    proof fn desc_wf() {
    }

    fn desc() -> PeriphDesc {
        PeriphDesc { cbank: Bank::Ctl1, creg: 1, rbank: Bank::Ctl1, rreg: 1, bit: 28 }
    }
}

impl SysconPeripheral for MU_A {

}

/// The OS event timer; its clock selection is not written yet.
pub struct OS_EVENT;

impl SealedSysconPeripheral for OS_EVENT {
    type SysconPeriphConfig = UnimplementedConfig;

    open spec fn spec_desc() -> PeriphDesc {
        PeriphDesc { cbank: Bank::Ctl1, creg: 0, rbank: Bank::Ctl1, rreg: 0, bit: 27 }
    }

    proof fn desc_wf() {
    }

    fn desc() -> PeriphDesc {
        PeriphDesc { cbank: Bank::Ctl1, creg: 0, rbank: Bank::Ctl1, rreg: 0, bit: 27 }
    }
}

impl SysconPeripheral for OS_EVENT {

}

/// The PowerQuad coprocessor.
pub struct POWERQUAD;

impl SealedSysconPeripheral for POWERQUAD {
    type SysconPeriphConfig = NoConfig;

    open spec fn spec_desc() -> PeriphDesc {
        PeriphDesc { cbank: Bank::Ctl0, creg: 0, rbank: Bank::Ctl0, rreg: 0, bit: 8 }
    }

    proof fn desc_wf() {
    }

    fn desc() -> PeriphDesc {
        PeriphDesc { cbank: Bank::Ctl0, creg: 0, rbank: Bank::Ctl0, rreg: 0, bit: 8 }
    }
}

impl SysconPeripheral for POWERQUAD {

}

/// The physical unclonable function; its SRAM handling is not written yet.
pub struct PUF;

impl SealedSysconPeripheral for PUF {
    type SysconPeriphConfig = UnimplementedConfig;

    open spec fn spec_desc() -> PeriphDesc {
        PeriphDesc { cbank: Bank::Ctl0, creg: 0, rbank: Bank::Ctl0, rreg: 0, bit: 11 }
    }

    proof fn desc_wf() {
    }

    fn desc() -> PeriphDesc {
        PeriphDesc { cbank: Bank::Ctl0, creg: 0, rbank: Bank::Ctl0, rreg: 0, bit: 11 }
    }
}

impl SysconPeripheral for PUF {

}

/// The true random number generator.
pub struct RNG;

impl SealedSysconPeripheral for RNG {
    type SysconPeriphConfig = NoConfig;

    open spec fn spec_desc() -> PeriphDesc {
        PeriphDesc { cbank: Bank::Ctl0, creg: 0, rbank: Bank::Ctl0, rreg: 0, bit: 12 }
    }

    proof fn desc_wf() {
    }

    fn desc() -> PeriphDesc {
        PeriphDesc { cbank: Bank::Ctl0, creg: 0, rbank: Bank::Ctl0, rreg: 0, bit: 12 }
    }
}

impl SysconPeripheral for RNG {

}

/// The real-time clock; its oscillator handling is not written yet.
pub struct RTC;

impl SealedSysconPeripheral for RTC {
    type SysconPeriphConfig = UnimplementedConfig;

    open spec fn spec_desc() -> PeriphDesc {
        PeriphDesc { cbank: Bank::Ctl1, creg: 2, rbank: Bank::Ctl1, rreg: 2, bit: 7 }
    }

    proof fn desc_wf() {
    }

    fn desc() -> PeriphDesc {
        PeriphDesc { cbank: Bank::Ctl1, creg: 2, rbank: Bank::Ctl1, rreg: 2, bit: 7 }
    }
}

impl SysconPeripheral for RTC {

}

/// The SCTimer/PWM.
pub struct SCT0;

impl SealedSysconPeripheral for SCT0 {
    type SysconPeriphConfig = Sct0Config;

    open spec fn spec_desc() -> PeriphDesc {
        PeriphDesc { cbank: Bank::Ctl0, creg: 0, rbank: Bank::Ctl0, rreg: 0, bit: 24 }
    }

    proof fn desc_wf() {
    }

    fn desc() -> PeriphDesc {
        PeriphDesc { cbank: Bank::Ctl0, creg: 0, rbank: Bank::Ctl0, rreg: 0, bit: 24 }
    }
}

impl SysconPeripheral for SCT0 {

}

/// The secure GPIO port.
pub struct SECGPIO;

impl SealedSysconPeripheral for SECGPIO {
    type SysconPeriphConfig = NoConfig;

    open spec fn spec_desc() -> PeriphDesc {
        PeriphDesc { cbank: Bank::Ctl0, creg: 1, rbank: Bank::Ctl0, rreg: 1, bit: 24 }
    }

    proof fn desc_wf() {
    }

    fn desc() -> PeriphDesc {
        PeriphDesc { cbank: Bank::Ctl0, creg: 1, rbank: Bank::Ctl0, rreg: 1, bit: 24 }
    }
}

impl SysconPeripheral for SECGPIO {

}

/// The hardware semaphore.
pub struct SEMA42;

impl SealedSysconPeripheral for SEMA42 {
    type SysconPeriphConfig = NoConfig;

    open spec fn spec_desc() -> PeriphDesc {
        PeriphDesc { cbank: Bank::Ctl1, creg: 1, rbank: Bank::Ctl1, rreg: 1, bit: 29 }
    }

    proof fn desc_wf() {
    }

    fn desc() -> PeriphDesc {
        PeriphDesc { cbank: Bank::Ctl1, creg: 1, rbank: Bank::Ctl1, rreg: 1, bit: 29 }
    }
}

impl SysconPeripheral for SEMA42 {

}

/// The USB device controller; its clock setup is not written yet.
pub struct USBHSD;

impl SealedSysconPeripheral for USBHSD {
    type SysconPeriphConfig = UnimplementedConfig;

    open spec fn spec_desc() -> PeriphDesc {
        PeriphDesc { cbank: Bank::Ctl0, creg: 0, rbank: Bank::Ctl0, rreg: 0, bit: 21 }
    }

    proof fn desc_wf() {
    }

    fn desc() -> PeriphDesc {
        PeriphDesc { cbank: Bank::Ctl0, creg: 0, rbank: Bank::Ctl0, rreg: 0, bit: 21 }
    }
}

impl SysconPeripheral for USBHSD {

}

/// The USB host controller; its clock setup is not written yet.
pub struct USBHSH;

impl SealedSysconPeripheral for USBHSH {
    type SysconPeriphConfig = UnimplementedConfig;

    open spec fn spec_desc() -> PeriphDesc {
        PeriphDesc { cbank: Bank::Ctl0, creg: 0, rbank: Bank::Ctl0, rreg: 0, bit: 22 }
    }

    proof fn desc_wf() {
    }

    fn desc() -> PeriphDesc {
        PeriphDesc { cbank: Bank::Ctl0, creg: 0, rbank: Bank::Ctl0, rreg: 0, bit: 22 }
    }
}

impl SysconPeripheral for USBHSH {

}

/// The USB PHY; its clock setup is not written yet.
pub struct USBPHY;

impl SealedSysconPeripheral for USBPHY {
    type SysconPeriphConfig = UnimplementedConfig;

    open spec fn spec_desc() -> PeriphDesc {
        PeriphDesc { cbank: Bank::Ctl0, creg: 0, rbank: Bank::Ctl0, rreg: 0, bit: 20 }
    }

    proof fn desc_wf() {
    }

    fn desc() -> PeriphDesc {
        PeriphDesc { cbank: Bank::Ctl0, creg: 0, rbank: Bank::Ctl0, rreg: 0, bit: 20 }
    }
}

impl SysconPeripheral for USBPHY {

}

/// SD/MMC host 0; its clock setup is not written yet.
pub struct USDHC0;

impl SealedSysconPeripheral for USDHC0 {
    type SysconPeriphConfig = UnimplementedConfig;

    open spec fn spec_desc() -> PeriphDesc {
        PeriphDesc { cbank: Bank::Ctl0, creg: 1, rbank: Bank::Ctl0, rreg: 1, bit: 2 }
    }

    proof fn desc_wf() {
    }

    fn desc() -> PeriphDesc {
        PeriphDesc { cbank: Bank::Ctl0, creg: 1, rbank: Bank::Ctl0, rreg: 1, bit: 2 }
    }
}

impl SysconPeripheral for USDHC0 {

}

/// SD/MMC host 1; its clock setup is not written yet.
pub struct USDHC1;

impl SealedSysconPeripheral for USDHC1 {
    type SysconPeriphConfig = UnimplementedConfig;

    open spec fn spec_desc() -> PeriphDesc {
        PeriphDesc { cbank: Bank::Ctl0, creg: 1, rbank: Bank::Ctl0, rreg: 1, bit: 3 }
    }

    proof fn desc_wf() {
    }

    fn desc() -> PeriphDesc {
        PeriphDesc { cbank: Bank::Ctl0, creg: 1, rbank: Bank::Ctl0, rreg: 1, bit: 3 }
    }
}

impl SysconPeripheral for USDHC1 {

}

/// The micro-tick timer; its clock selection is not written yet.
pub struct UTICK0;

impl SealedSysconPeripheral for UTICK0 {
    type SysconPeriphConfig = UnimplementedConfig;

    open spec fn spec_desc() -> PeriphDesc {
        PeriphDesc { cbank: Bank::Ctl0, creg: 2, rbank: Bank::Ctl0, rreg: 2, bit: 0 }
    }

    proof fn desc_wf() {
    }

    fn desc() -> PeriphDesc {
        PeriphDesc { cbank: Bank::Ctl0, creg: 2, rbank: Bank::Ctl0, rreg: 2, bit: 0 }
    }
}

impl SysconPeripheral for UTICK0 {

}

/// Watchdog 0.
pub struct WDT0;

impl SealedSysconPeripheral for WDT0 {
    type SysconPeriphConfig = WdtConfig;

    open spec fn spec_desc() -> PeriphDesc {
        PeriphDesc { cbank: Bank::Ctl0, creg: 2, rbank: Bank::Ctl0, rreg: 2, bit: 1 }
    }

    proof fn desc_wf() {
    }

    fn desc() -> PeriphDesc {
        PeriphDesc { cbank: Bank::Ctl0, creg: 2, rbank: Bank::Ctl0, rreg: 2, bit: 1 }
    }
}

impl SysconPeripheral for WDT0 {

}

/// Watchdog 1.
pub struct WDT1;

impl SealedSysconPeripheral for WDT1 {
    type SysconPeriphConfig = WdtConfig;

    open spec fn spec_desc() -> PeriphDesc {
        PeriphDesc { cbank: Bank::Ctl1, creg: 2, rbank: Bank::Ctl1, rreg: 2, bit: 10 }
    }

    proof fn desc_wf() {
    }

    fn desc() -> PeriphDesc {
        PeriphDesc { cbank: Bank::Ctl1, creg: 2, rbank: Bank::Ctl1, rreg: 2, bit: 10 }
    }
}

impl SysconPeripheral for WDT1 {

}

} // verus!
