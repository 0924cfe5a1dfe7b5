//! Clocking from the PLL: the core runs from the crystal multiplied up.

use vstd::prelude::*;

verus! {

/// The divider of the PLL's system clock output.
#[derive(Copy, Clone, Debug, PartialEq, Eq, Structural)]
pub enum PllDivider {
    Div2,
    Div4,
    Div6,
    Div8,
}

pub open spec fn spec_pll_divider(v: u32) -> PllDivider {
    if v == 2 {
        PllDivider::Div2
    } else if v == 4 {
        PllDivider::Div4
    } else if v == 6 {
        PllDivider::Div6
    } else {
        PllDivider::Div8
    }
}

/// The divider for `v`, one of 2, 4, 6 and 8.
pub fn to_pll_devider(v: u32) -> (r: PllDivider)
    requires
        v == 2 || v == 4 || v == 6 || v == 8,
    ensures
        r == spec_pll_divider(v),
{
    match v {
        2 => PllDivider::Div2,
        4 => PllDivider::Div4,
        6 => PllDivider::Div6,
        _ => PllDivider::Div8,
    }
}

/// The main PLL's settings: input divider, multiplier and system clock divider.
#[derive(Copy, Clone, Debug, PartialEq, Eq, Structural)]
pub struct PllConfig {
    pub m: u8,
    pub n: u8,
    pub r: PllDivider,
}

/// The register code of a SAI PLL divider.
pub open spec fn spec_sai_divider(v: u8) -> u8 {
    if v == 2 {
        0b00
    } else if v == 4 {
        0b01
    } else if v == 8 {
        0b10
    } else {
        0b11
    }
}

/// The code for `v`, one of 2, 4, 8 and 16.
pub fn to_sai_divider(v: u8) -> (r: u8)
    requires
        v == 2 || v == 4 || v == 8 || v == 16,
    ensures
        r == spec_sai_divider(v),
{
    match v {
        2 => 0b00,
        4 => 0b01,
        8 => 0b10,
        _ => 0b11,
    }
}

/// The PLL settings of a board: input divider, multiplier, output divider, and
/// the SAI PLL's multiplier and divider code.
pub trait PllConfigProvider {
    spec fn spec_pd() -> u32;

    spec fn spec_m() -> u32;

    spec fn spec_ad() -> u32;

    fn pd() -> (r: u32)
        ensures
            r == Self::spec_pd(),
    ;

    fn m() -> (r: u32)
        ensures
            r == Self::spec_m(),
    ;

    fn ad() -> (r: u32)
        ensures
            r == Self::spec_ad(),
    ;

    fn sai_mul() -> u32;

    fn sai_div_code() -> u32;
}

/// The core frequency from the crystal: crystal times multiplier over both
/// dividers.
pub open spec fn spec_pll_core_frequency(xtal: u32, pd: u32, m: u32, ad: u32) -> int {
    (xtal * m) / (pd * ad)
}

/// The frequency of the timers on APB1: the bus frequency, doubled where the
/// bus is divided down.
pub open spec fn spec_master_counter_frequency(core: int, apb1_devider: u32) -> int {
    if apb1_devider > 1 {
        core / (apb1_devider as int) * 2
    } else {
        core / (apb1_devider as int)
    }
}

/// Clock frequencies of a board clocked from the PLL.
pub struct HighPerformanceClockConfigProvider<PLL, const XTAL_FREQ: u32, const CPU_FREQ: u32, const APB1_DEVIDER: u32, const APB2_DEVIDER: u32> {
    pll: core::marker::PhantomData<PLL>,
}

impl<
    PLL: PllConfigProvider,
    const XTAL_FREQ: u32,
    const CPU_FREQ: u32,
    const APB1_DEVIDER: u32,
    const APB2_DEVIDER: u32,
> HighPerformanceClockConfigProvider<PLL, XTAL_FREQ, CPU_FREQ, APB1_DEVIDER, APB2_DEVIDER> {
    /// The settings fit: no product overflows, no divider is zero.
    pub open spec fn settings_ok() -> bool {
        &&& XTAL_FREQ * PLL::spec_m() <= u32::MAX
        &&& 0 < PLL::spec_pd() * PLL::spec_ad() <= u32::MAX
        &&& APB1_DEVIDER > 0
        &&& APB2_DEVIDER > 0
        &&& spec_pll_core_frequency(XTAL_FREQ, PLL::spec_pd(), PLL::spec_m(), PLL::spec_ad()) / (
        APB1_DEVIDER as int) * 2 <= u32::MAX
    }

    pub open spec fn spec_core_frequency() -> int {
        spec_pll_core_frequency(XTAL_FREQ, PLL::spec_pd(), PLL::spec_m(), PLL::spec_ad())
    }

    pub fn core_frequency() -> (r: u32)
        requires
            Self::settings_ok(),
        ensures
            r == Self::spec_core_frequency(),
    {
        XTAL_FREQ * PLL::m() / (PLL::pd() * PLL::ad())
    }

    pub fn apb1_frequency() -> (r: u32)
        requires
            Self::settings_ok(),
        ensures
            r == Self::spec_core_frequency() / (APB1_DEVIDER as int),
    {
        Self::core_frequency() / APB1_DEVIDER
    }

    pub fn apb2_frequency() -> (r: u32)
        requires
            Self::settings_ok(),
        ensures
            r == Self::spec_core_frequency() / (APB2_DEVIDER as int),
    {
        Self::core_frequency() / APB2_DEVIDER
    }

    /// The PLL settings of the board, for an output divider of 2, 4, 6 or 8.
    pub fn pll_config() -> (r: PllConfig)
        requires
            PLL::spec_pd() <= u8::MAX,
            PLL::spec_m() <= u8::MAX,
            PLL::spec_ad() == 2 || PLL::spec_ad() == 4 || PLL::spec_ad() == 6 || PLL::spec_ad() == 8,
        ensures
            r == (PllConfig {
                m: PLL::spec_pd() as u8,
                n: PLL::spec_m() as u8,
                r: spec_pll_divider(PLL::spec_ad()),
            }),
    {
        PllConfig { m: PLL::pd() as u8, n: PLL::m() as u8, r: to_pll_devider(PLL::ad()) }
    }

    pub fn master_counter_frequency() -> (r: u32)
        requires
            Self::settings_ok(),
        ensures
            r == spec_master_counter_frequency(Self::spec_core_frequency(), APB1_DEVIDER),
    {
        if APB1_DEVIDER > 1 {
            Self::core_frequency() / APB1_DEVIDER * 2
        } else {
            Self::core_frequency() / APB1_DEVIDER
        }
    }
}

} // verus!
