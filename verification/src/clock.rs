//! The board's clock tree. The HSE is a 6.144 MHz crystal, chosen for clean
//! audio divisors:
//!   * PLL1 P gives the 399.36 MHz system clock (voltage scale 1),
//!   * PLL2 P gives the 12.288 MHz (256 x 48 kHz) SAI1 kernel clock,
//!   * PLL3 R gives the 6.4 MHz LTDC pixel clock (a refresh of about 59 Hz),
//!   * AHB / 2 gives HCLK at 199.68 MHz, and the SDRAM clock is HCLK / 2,
//!   * the ADC kernel clock is PER, and PER is the 64 MHz HSI.

use vstd::prelude::*;
use crate::audio::{FRAME_LENGTH, MASTER_CLOCK_DIVIDER, SAMPLE_RATE};
use crate::display::{
    HEIGHT, H_BACK_PORCH, H_FRONT_PORCH, H_SYNC, V_BACK_PORCH, V_FRONT_PORCH, V_SYNC, WIDTH,
};
use crate::sdram::MAX_SD_CLOCK_HZ;

verus! {

/// Frequency of the HSE crystal.
pub const HSE_HZ: u32 = 6_144_000;

/// Frequency of the internal HSI oscillator before its divider.
pub const HSI_HZ: u32 = 64_000_000;

/// Frequency of the internal CSI oscillator.
pub const CSI_HZ: u32 = 4_000_000;

/// Highest system clock at voltage scale 1 (silicon revision Y).
pub const MAX_SYSCLK_VOS1_HZ: u32 = 400_000_000;

/// Highest HCLK at voltage scale 1 (silicon revision Y).
pub const MAX_HCLK_VOS1_HZ: u32 = 200_000_000;

/// How the HSE is driven.
#[derive(Clone, Copy, Debug, PartialEq, Eq, Structural)]
pub enum HseMode {
    /// A crystal or ceramic resonator on the oscillator pins.
    Oscillator,
    /// An external clock fed in.
    Bypass,
}

/// Oscillator feeding a PLL.
#[derive(Clone, Copy, Debug, PartialEq, Eq, Structural)]
pub enum PllSource {
    Hsi,
    Csi,
    Hse,
}

/// System clock source.
#[derive(Clone, Copy, Debug, PartialEq, Eq, Structural)]
pub enum SysclkSource {
    Hsi,
    Csi,
    Hse,
    Pll1P,
}

/// Core voltage scale (VOS).
#[derive(Clone, Copy, Debug, PartialEq, Eq, Structural)]
pub enum VoltageScale {
    Scale0,
    Scale1,
    Scale2,
    Scale3,
}

/// SAI1 kernel clock source (the external I2S_CKIN pin is not used on this
/// board).
#[derive(Clone, Copy, Debug, PartialEq, Eq, Structural)]
pub enum SaiClockSource {
    Pll1Q,
    Pll2P,
    Pll3P,
    Per,
}

/// ADC kernel clock source.
#[derive(Clone, Copy, Debug, PartialEq, Eq, Structural)]
pub enum AdcClockSource {
    Pll2P,
    Pll3R,
    Per,
}

/// Source of the PER peripheral clock.
#[derive(Clone, Copy, Debug, PartialEq, Eq, Structural)]
pub enum PerClockSource {
    Hsi,
    Csi,
    Hse,
}

/// One PLL: its oscillator, input prescaler, VCO multiplier and the
/// dividers of its P, Q and R outputs (`None`: output off). The fractional
/// multiplier is not used.
#[derive(Clone, Copy, Debug, PartialEq, Eq, Structural)]
pub struct Pll {
    pub source: PllSource,
    pub prediv: u32,
    pub mul: u32,
    pub divp: Option<u32>,
    pub divq: Option<u32>,
    pub divr: Option<u32>,
}

/// The clock configuration: oscillators, the three PLLs, the system clock
/// source and bus prescalers, the voltage scale and the kernel-clock
/// selections of SAI1, the ADC and PER. The LTDC pixel clock is PLL3 R.
#[derive(Clone, Copy, Debug, PartialEq, Eq, Structural)]
pub struct ClockPlan {
    pub hse_hz: u32,
    pub hse_mode: HseMode,
    pub hsi_div: u32,
    pub pll1: Pll,
    pub pll2: Pll,
    pub pll3: Pll,
    pub sys: SysclkSource,
    pub d1c_div: u32,
    pub ahb_div: u32,
    pub apb1_div: u32,
    pub apb2_div: u32,
    pub apb3_div: u32,
    pub apb4_div: u32,
    pub voltage_scale: VoltageScale,
    pub sai1_source: SaiClockSource,
    pub adc_source: AdcClockSource,
    pub per_source: PerClockSource,
}

/// The board's clock configuration.
pub open spec fn board_plan() -> ClockPlan {
    ClockPlan {
        hse_hz: HSE_HZ,
        hse_mode: HseMode::Oscillator,
        hsi_div: 1,
        pll1: Pll {
            source: PllSource::Hse,
            prediv: 2,
            mul: 260,
            divp: Some(2),
            divq: Some(18),
            divr: None,
        },
        pll2: Pll {
            source: PllSource::Hse,
            prediv: 4,
            mul: 272,
            divp: Some(34),
            divq: None,
            divr: None,
        },
        pll3: Pll {
            source: PllSource::Hse,
            prediv: 4,
            mul: 125,
            divp: None,
            divq: None,
            divr: Some(30),
        },
        sys: SysclkSource::Pll1P,
        d1c_div: 1,
        ahb_div: 2,
        apb1_div: 2,
        apb2_div: 2,
        apb3_div: 2,
        apb4_div: 2,
        voltage_scale: VoltageScale::Scale1,
        sai1_source: SaiClockSource::Pll2P,
        adc_source: AdcClockSource::Per,
        per_source: PerClockSource::Hsi,
    }
}

/// The HSI after its divider.
pub open spec fn spec_hsi(p: ClockPlan) -> int {
    HSI_HZ as int / p.hsi_div as int
}

/// Frequency of the oscillator feeding `pll`.
pub open spec fn spec_pll_in(p: ClockPlan, pll: Pll) -> int {
    match pll.source {
        PllSource::Hsi => spec_hsi(p),
        PllSource::Csi => CSI_HZ as int,
        PllSource::Hse => p.hse_hz as int,
    }
}

/// The PLL's reference: its input over the prescaler.
pub open spec fn spec_pll_ref(p: ClockPlan, pll: Pll) -> int {
    spec_pll_in(p, pll) / pll.prediv as int
}

/// The PLL's VCO: the reference times the multiplier.
pub open spec fn spec_vco(p: ClockPlan, pll: Pll) -> int {
    spec_pll_ref(p, pll) * pll.mul
}

/// A PLL output: the VCO over the output's divider.
pub open spec fn spec_pll_out(p: ClockPlan, pll: Pll, div: Option<u32>) -> int {
    spec_vco(p, pll) / div->0 as int
}

/// Whether a PLL output is on with a nonzero divider.
pub open spec fn output_on(div: Option<u32>) -> bool {
    div matches Some(d) && d > 0
}

/// Whether every clock below is defined: no zero divider or prescaler, and
/// every selected PLL output is on.
pub open spec fn plan_wf(p: ClockPlan) -> bool {
    &&& p.hsi_div > 0
    &&& p.pll1.prediv > 0
    &&& p.pll2.prediv > 0
    &&& p.pll3.prediv > 0
    &&& p.d1c_div > 0
    &&& p.ahb_div > 0
    &&& output_on(p.pll3.divr)
    &&& p.sys == SysclkSource::Pll1P ==> output_on(p.pll1.divp)
    &&& p.sai1_source == SaiClockSource::Pll1Q ==> output_on(p.pll1.divq)
    &&& p.sai1_source == SaiClockSource::Pll2P ==> output_on(p.pll2.divp)
    &&& p.sai1_source == SaiClockSource::Pll3P ==> output_on(p.pll3.divp)
    &&& p.adc_source == AdcClockSource::Pll2P ==> output_on(p.pll2.divp)
}

/// The PER clock.
pub open spec fn spec_per(p: ClockPlan) -> int {
    match p.per_source {
        PerClockSource::Hsi => spec_hsi(p),
        PerClockSource::Csi => CSI_HZ as int,
        PerClockSource::Hse => p.hse_hz as int,
    }
}

/// The system clock, from the selected source.
pub open spec fn spec_sysclk(p: ClockPlan) -> int {
    match p.sys {
        SysclkSource::Hsi => spec_hsi(p),
        SysclkSource::Csi => CSI_HZ as int,
        SysclkSource::Hse => p.hse_hz as int,
        SysclkSource::Pll1P => spec_pll_out(p, p.pll1, p.pll1.divp),
    }
}

/// The SAI1 kernel clock, from the selected source.
pub open spec fn spec_sai_kernel(p: ClockPlan) -> int {
    match p.sai1_source {
        SaiClockSource::Pll1Q => spec_pll_out(p, p.pll1, p.pll1.divq),
        SaiClockSource::Pll2P => spec_pll_out(p, p.pll2, p.pll2.divp),
        SaiClockSource::Pll3P => spec_pll_out(p, p.pll3, p.pll3.divp),
        SaiClockSource::Per => spec_per(p),
    }
}

/// The ADC kernel clock, from the selected source.
pub open spec fn spec_adc_kernel(p: ClockPlan) -> int {
    match p.adc_source {
        AdcClockSource::Pll2P => spec_pll_out(p, p.pll2, p.pll2.divp),
        AdcClockSource::Pll3R => spec_pll_out(p, p.pll3, p.pll3.divr),
        AdcClockSource::Per => spec_per(p),
    }
}

/// The LTDC pixel clock (PLL3 R).
pub open spec fn spec_pixel_clock(p: ClockPlan) -> int {
    spec_pll_out(p, p.pll3, p.pll3.divr)
}

pub open spec fn spec_hclk(p: ClockPlan) -> int {
    spec_sysclk(p) / (p.d1c_div as int) / (p.ahb_div as int)
}

/// The SDRAM clock: the FMC kernel clock (HCLK3) over two.
pub open spec fn spec_sdclk(p: ClockPlan) -> int {
    spec_hclk(p) / 2
}

/// Whether a PLL's reference is within 1 to 16 MHz and its VCO within the
/// band its reference allows: 150 to 420 MHz, or 192 to 836 MHz once the
/// reference is at least 2 MHz.
pub open spec fn pll_in_range(p: ClockPlan, pll: Pll) -> bool {
    let r = spec_pll_ref(p, pll);
    let v = spec_vco(p, pll);
    &&& 1_000_000 <= r <= 16_000_000
    &&& (150_000_000 <= v <= 420_000_000) || (r >= 2_000_000 && 192_000_000 <= v <= 836_000_000)
}

/// Pixel clocks per frame: the horizontal total times the vertical total.
pub open spec fn frame_clocks() -> int {
    (H_SYNC + H_BACK_PORCH + WIDTH + H_FRONT_PORCH) * (V_SYNC + V_BACK_PORCH + HEIGHT
        + V_FRONT_PORCH)
}

/// Output of a PLL fed by `ref_hz` with prescaler `prediv`, multiplier
/// `mul` and output divider `div`.
pub fn pll_output_hz(ref_hz: u32, prediv: u32, mul: u32, div: u32) -> (r: u64)
    requires
        prediv > 0,
        div > 0,
    ensures
        r == ref_hz as int / prediv as int * mul as int / div as int,
{
    let input: u32 = ref_hz / prediv;
    assert(input as int * mul as int <= u32::MAX as int * u32::MAX as int) by (nonlinear_arith)
        requires
            input <= u32::MAX,
            mul <= u32::MAX,
    ;
    let vco: u64 = input as u64 * mul as u64;
    vco / div as u64
}

fn output_div(div: Option<u32>) -> (r: u32)
    requires
        output_on(div),
    ensures
        r == div->0,
{
    match div {
        Some(d) => d,
        None => 1,
    }
}

impl ClockPlan {
    /// The board's clock configuration.
    pub fn board() -> (r: ClockPlan)
        ensures
            r == board_plan(),
    {
        ClockPlan {
            hse_hz: HSE_HZ,
            hse_mode: HseMode::Oscillator,
            hsi_div: 1,
            pll1: Pll {
                source: PllSource::Hse,
                prediv: 2,
                mul: 260,
                divp: Some(2),
                divq: Some(18),
                divr: None,
            },
            pll2: Pll {
                source: PllSource::Hse,
                prediv: 4,
                mul: 272,
                divp: Some(34),
                divq: None,
                divr: None,
            },
            pll3: Pll {
                source: PllSource::Hse,
                prediv: 4,
                mul: 125,
                divp: None,
                divq: None,
                divr: Some(30),
            },
            sys: SysclkSource::Pll1P,
            d1c_div: 1,
            ahb_div: 2,
            apb1_div: 2,
            apb2_div: 2,
            apb3_div: 2,
            apb4_div: 2,
            voltage_scale: VoltageScale::Scale1,
            sai1_source: SaiClockSource::Pll2P,
            adc_source: AdcClockSource::Per,
            per_source: PerClockSource::Hsi,
        }
    }

    /// The HSI after its divider.
    pub fn hsi_hz(&self) -> (r: u32)
        requires
            self.hsi_div > 0,
        ensures
            r == spec_hsi(*self),
    {
        HSI_HZ / self.hsi_div
    }

    /// Frequency of the oscillator feeding `pll`.
    pub fn pll_input_hz(&self, pll: &Pll) -> (r: u32)
        requires
            self.hsi_div > 0,
        ensures
            r == spec_pll_in(*self, *pll),
    {
        match pll.source {
            PllSource::Hsi => self.hsi_hz(),
            PllSource::Csi => CSI_HZ,
            PllSource::Hse => self.hse_hz,
        }
    }

    /// The output of `pll` through divider `div`.
    fn pll_out_hz(&self, pll: &Pll, div: Option<u32>) -> (r: u64)
        requires
            self.hsi_div > 0,
            pll.prediv > 0,
            output_on(div),
        ensures
            r == spec_pll_out(*self, *pll, div),
    {
        pll_output_hz(self.pll_input_hz(pll), pll.prediv, pll.mul, output_div(div))
    }

    /// The PER clock.
    pub fn per_hz(&self) -> (r: u32)
        requires
            self.hsi_div > 0,
        ensures
            r == spec_per(*self),
    {
        match self.per_source {
            PerClockSource::Hsi => self.hsi_hz(),
            PerClockSource::Csi => CSI_HZ,
            PerClockSource::Hse => self.hse_hz,
        }
    }

    /// The system clock.
    pub fn sysclk_hz(&self) -> (r: u64)
        requires
            plan_wf(*self),
        ensures
            r == spec_sysclk(*self),
    {
        match self.sys {
            SysclkSource::Hsi => self.hsi_hz() as u64,
            SysclkSource::Csi => CSI_HZ as u64,
            SysclkSource::Hse => self.hse_hz as u64,
            SysclkSource::Pll1P => self.pll_out_hz(&self.pll1, self.pll1.divp),
        }
    }

    /// The SAI1 kernel clock.
    pub fn sai_kernel_hz(&self) -> (r: u64)
        requires
            plan_wf(*self),
        ensures
            r == spec_sai_kernel(*self),
    {
        match self.sai1_source {
            SaiClockSource::Pll1Q => self.pll_out_hz(&self.pll1, self.pll1.divq),
            SaiClockSource::Pll2P => self.pll_out_hz(&self.pll2, self.pll2.divp),
            SaiClockSource::Pll3P => self.pll_out_hz(&self.pll3, self.pll3.divp),
            SaiClockSource::Per => self.per_hz() as u64,
        }
    }

    /// The ADC kernel clock.
    pub fn adc_kernel_hz(&self) -> (r: u64)
        requires
            plan_wf(*self),
        ensures
            r == spec_adc_kernel(*self),
    {
        match self.adc_source {
            AdcClockSource::Pll2P => self.pll_out_hz(&self.pll2, self.pll2.divp),
            AdcClockSource::Pll3R => self.pll_out_hz(&self.pll3, self.pll3.divr),
            AdcClockSource::Per => self.per_hz() as u64,
        }
    }

    /// The LTDC pixel clock (PLL3 R).
    pub fn pixel_clock_hz(&self) -> (r: u64)
        requires
            plan_wf(*self),
        ensures
            r == spec_pixel_clock(*self),
    {
        self.pll_out_hz(&self.pll3, self.pll3.divr)
    }

    /// HCLK: the system clock over the D1 core and AHB prescalers.
    pub fn hclk_hz(&self) -> (r: u64)
        requires
            plan_wf(*self),
        ensures
            r == spec_hclk(*self),
    {
        self.sysclk_hz() / self.d1c_div as u64 / self.ahb_div as u64
    }

    /// The SDRAM clock.
    pub fn sdclk_hz(&self) -> (r: u64)
        requires
            plan_wf(*self),
        ensures
            r == spec_sdclk(*self),
    {
        self.hclk_hz() / 2
    }
}

/// The board's clock configuration gives the design frequencies: the system
/// clock is PLL1 P at 399.36 MHz, within the 400 MHz of voltage scale 1, which
/// is the scale selected; the SAI1 kernel clock is taken from PLL2 P at
/// 12.288 MHz, 256 times the sample rate, so the master-clock divider of 1
/// gives MCLK = 256 fs, four times the bit clock of a 64-bit frame; the
/// 6.4 MHz pixel clock refreshes the panel between 59 and 60 times a second;
/// HCLK is 199.68 MHz, within 200 MHz; the SDRAM clock is within the chip's
/// 100 MHz; the ADC kernel clock is PER, which is the 64 MHz HSI.
pub proof fn lemma_board_clocks()
    ensures
        plan_wf(board_plan()),
        board_plan().sys == SysclkSource::Pll1P,
        board_plan().voltage_scale == VoltageScale::Scale1,
        spec_sysclk(board_plan()) == 399_360_000,
        spec_sysclk(board_plan()) <= MAX_SYSCLK_VOS1_HZ,
        board_plan().sai1_source == SaiClockSource::Pll2P,
        spec_sai_kernel(board_plan()) == 12_288_000,
        spec_sai_kernel(board_plan()) / (MASTER_CLOCK_DIVIDER as int) == 256 * SAMPLE_RATE,
        spec_sai_kernel(board_plan()) == 4 * (FRAME_LENGTH * SAMPLE_RATE),
        spec_pixel_clock(board_plan()) == 6_400_000,
        59 * frame_clocks() <= spec_pixel_clock(board_plan()) < 60 * frame_clocks(),
        spec_hclk(board_plan()) == 199_680_000,
        spec_hclk(board_plan()) <= MAX_HCLK_VOS1_HZ,
        spec_sdclk(board_plan()) == 99_840_000,
        spec_sdclk(board_plan()) <= MAX_SD_CLOCK_HZ,
        board_plan().adc_source == AdcClockSource::Per,
        board_plan().per_source == PerClockSource::Hsi,
        spec_adc_kernel(board_plan()) == 64_000_000,
{
    assert(H_SYNC + H_BACK_PORCH + WIDTH + H_FRONT_PORCH == 408);
    assert(V_SYNC + V_BACK_PORCH + HEIGHT + V_FRONT_PORCH == 263);
    assert(frame_clocks() == 408 * 263);
}

/// Every PLL of the board runs from the HSE within its operating ranges:
/// references of 3.072, 1.536 and 1.536 MHz, and VCOs of 798.72, 417.792
/// and 192 MHz; PLL1's P divider is even, as PLL1 P requires.
pub proof fn lemma_board_plls_in_range()
    ensures
        board_plan().pll1.source == PllSource::Hse,
        board_plan().pll2.source == PllSource::Hse,
        board_plan().pll3.source == PllSource::Hse,
        spec_pll_ref(board_plan(), board_plan().pll1) == 3_072_000,
        spec_pll_ref(board_plan(), board_plan().pll2) == 1_536_000,
        spec_pll_ref(board_plan(), board_plan().pll3) == 1_536_000,
        spec_vco(board_plan(), board_plan().pll1) == 798_720_000,
        spec_vco(board_plan(), board_plan().pll2) == 417_792_000,
        spec_vco(board_plan(), board_plan().pll3) == 192_000_000,
        pll_in_range(board_plan(), board_plan().pll1),
        pll_in_range(board_plan(), board_plan().pll2),
        pll_in_range(board_plan(), board_plan().pll3),
        board_plan().pll1.divp->0 % 2 == 0,
{
}

/// The board's settings, field by field: the 6.144 MHz HSE driven as a
/// crystal oscillator, HSI undivided, all three PLLs fed by the HSE (PLL1:
/// /2 x260, P /2, Q /18, R off; PLL2: /4 x272, P /34, Q and R off; PLL3:
/// /4 x125, P and Q off, R /30), the system clock on PLL1 P, D1 core
/// undivided, AHB and all four APB buses divided by 2, voltage scale 1,
/// SAI1 on PLL2 P, the ADC on PER and PER on HSI.
pub proof fn lemma_board_settings()
    ensures
        board_plan().hse_hz == 6_144_000,
        board_plan().hse_mode == HseMode::Oscillator,
        board_plan().hsi_div == 1,
        board_plan().pll1.source == PllSource::Hse,
        board_plan().pll1.prediv == 2,
        board_plan().pll1.mul == 260,
        board_plan().pll1.divp == Some(2u32),
        board_plan().pll1.divq == Some(18u32),
        board_plan().pll1.divr is None,
        board_plan().pll2.source == PllSource::Hse,
        board_plan().pll2.prediv == 4,
        board_plan().pll2.mul == 272,
        board_plan().pll2.divp == Some(34u32),
        board_plan().pll2.divq is None,
        board_plan().pll2.divr is None,
        board_plan().pll3.source == PllSource::Hse,
        board_plan().pll3.prediv == 4,
        board_plan().pll3.mul == 125,
        board_plan().pll3.divp is None,
        board_plan().pll3.divq is None,
        board_plan().pll3.divr == Some(30u32),
        board_plan().sys == SysclkSource::Pll1P,
        board_plan().d1c_div == 1,
        board_plan().ahb_div == 2,
        board_plan().apb1_div == 2,
        board_plan().apb2_div == 2,
        board_plan().apb3_div == 2,
        board_plan().apb4_div == 2,
        board_plan().voltage_scale == VoltageScale::Scale1,
        board_plan().sai1_source == SaiClockSource::Pll2P,
        board_plan().adc_source == AdcClockSource::Per,
        board_plan().per_source == PerClockSource::Hsi,
{
}

/// A PLL output is its oscillator's frequency over the prescaler, times the
/// multiplier, over the output's divider; the system clock on PLL1 P and the
/// SAI1 kernel clock on PLL2 P are those PLL outputs, and on PER they are
/// the PER clock.
pub proof fn lemma_clock_sources(p: ClockPlan)
    ensures
        p.pll1.source == PllSource::Hse ==> spec_pll_out(p, p.pll1, p.pll1.divp) == p.hse_hz
            as int / p.pll1.prediv as int * p.pll1.mul as int / p.pll1.divp->0 as int,
        p.sys == SysclkSource::Pll1P ==> spec_sysclk(p) == spec_pll_out(p, p.pll1, p.pll1.divp),
        p.sys == SysclkSource::Hse ==> spec_sysclk(p) == p.hse_hz,
        p.sai1_source == SaiClockSource::Pll2P ==> spec_sai_kernel(p) == spec_pll_out(
            p,
            p.pll2,
            p.pll2.divp,
        ),
        p.sai1_source == SaiClockSource::Per ==> spec_sai_kernel(p) == spec_per(p),
        p.adc_source == AdcClockSource::Per ==> spec_adc_kernel(p) == spec_per(p),
        p.per_source == PerClockSource::Hsi ==> spec_per(p) == HSI_HZ as int / p.hsi_div as int,
{
}

} // verus!
