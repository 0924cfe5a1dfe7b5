//! Low-power clocking: the core runs from the crystal directly, and the bus
//! prescalers and flash wait states are chosen for the requested frequencies.

use vstd::prelude::*;

use super::high_performance_clocking::spec_master_counter_frequency;

verus! {

/// Clock frequencies of a board clocked from the crystal.
pub struct RecorderClockConfigProvider<const XTAL_FREQ: u32, const CPU_FREQ: u32, const APB1_DEVIDER: u32, const APB2_DEVIDER: u32>;

impl<
    const XTAL_FREQ: u32,
    const CPU_FREQ: u32,
    const APB1_DEVIDER: u32,
    const APB2_DEVIDER: u32,
> RecorderClockConfigProvider<XTAL_FREQ, CPU_FREQ, APB1_DEVIDER, APB2_DEVIDER> {
    /// No divider is zero and the doubled timer clock fits.
    pub open spec fn settings_ok() -> bool {
        &&& APB1_DEVIDER > 0
        &&& APB2_DEVIDER > 0
        &&& (CPU_FREQ as int) / (APB1_DEVIDER as int) * 2 <= u32::MAX
    }

    pub fn core_frequency() -> (r: u32)
        ensures
            r == CPU_FREQ,
    {
        CPU_FREQ
    }

    pub fn apb1_frequency() -> (r: u32)
        requires
            Self::settings_ok(),
        ensures
            r == CPU_FREQ / APB1_DEVIDER,
    {
        Self::core_frequency() / APB1_DEVIDER
    }

    pub fn apb2_frequency() -> (r: u32)
        requires
            Self::settings_ok(),
        ensures
            r == CPU_FREQ / APB2_DEVIDER,
    {
        Self::core_frequency() / APB2_DEVIDER
    }

    pub fn master_counter_frequency() -> (r: u32)
        requires
            Self::settings_ok(),
        ensures
            r == spec_master_counter_frequency(CPU_FREQ as int, APB1_DEVIDER),
    {
        if APB1_DEVIDER > 1 {
            Self::apb1_frequency() * 2
        } else {
            Self::apb1_frequency()
        }
    }
}

/// Whether the crystal oscillator circuit is bypassed by an external clock.
#[derive(Copy, Clone, Debug, PartialEq, Eq, Structural)]
pub enum CrystalBypass {
    Enable,
    Disable,
}

/// Whether the clock security system watches the crystal.
#[derive(Copy, Clone, Debug, PartialEq, Eq, Structural)]
pub enum ClockSecuritySystem {
    Enable,
    Disable,
}

/// The external crystal: its frequency and circuit settings.
#[derive(Copy, Clone, Debug, PartialEq, Eq, Structural)]
pub struct HseConfig {
    pub speed: u32,
    pub bypass: CrystalBypass,
    pub css: ClockSecuritySystem,
}

/// Requested clock frequencies, from which `freeze` chooses the prescalers.
#[derive(Copy, Clone, Debug, PartialEq, Eq, Structural)]
pub struct MyCFGR {
    pub hse: HseConfig,
    pub hclk: Option<u32>,
    pub pclk1: Option<u32>,
    pub pclk2: Option<u32>,
    pub sysclk: u32,
}

/// The prescaler settings and resulting frequencies that `freeze` programs.
#[derive(Copy, Clone, Debug, PartialEq, Eq, Structural)]
pub struct ClockPlan {
    pub hpre_bits: u8,
    pub hclk: u32,
    pub ppre1_bits: u8,
    pub ppre1: u8,
    pub pclk1: u32,
    pub ppre2_bits: u8,
    pub ppre2: u8,
    pub pclk2: u32,
    pub latency: u8,
    pub sysclk: u32,
}

/// The AHB prescaler code and divider for a ratio of system to bus clock of
/// at least 1: the largest divider that does not exceed the ratio, as the
/// prescaler's table lists them.
pub open spec fn spec_hpre(ratio: u32) -> (u8, u32) {
    if ratio == 1 {
        (0b0000, 1)
    } else if ratio == 2 {
        (0b1000, 2)
    } else if ratio <= 5 {
        (0b1001, 4)
    } else if ratio <= 11 {
        (0b1010, 8)
    } else if ratio <= 39 {
        (0b1011, 16)
    } else if ratio <= 95 {
        (0b1100, 64)
    } else if ratio <= 191 {
        (0b1101, 128)
    } else if ratio <= 383 {
        (0b1110, 256)
    } else {
        (0b1111, 512)
    }
}

/// The APB prescaler code and divider for a ratio of at least 1.
pub open spec fn spec_ppre(ratio: u32) -> (u8, u8) {
    if ratio == 1 {
        (0b000, 1)
    } else if ratio == 2 {
        (0b100, 2)
    } else if ratio <= 5 {
        (0b101, 4)
    } else if ratio <= 11 {
        (0b110, 8)
    } else {
        (0b111, 16)
    }
}

/// Flash wait states for an AHB clock of `hclk` hertz.
pub open spec fn spec_latency(hclk: u32) -> u8 {
    if hclk <= 16_000_000 {
        0b000
    } else if hclk <= 32_000_000 {
        0b001
    } else if hclk <= 48_000_000 {
        0b010
    } else if hclk <= 64_000_000 {
        0b011
    } else {
        0b100
    }
}

fn hpre(ratio: u32) -> (r: (u8, u32))
    requires
        ratio >= 1,
    ensures
        r == spec_hpre(ratio),
{
    if ratio == 1 {
        (0b0000, 1)
    } else if ratio == 2 {
        (0b1000, 2)
    } else if ratio <= 5 {
        (0b1001, 4)
    } else if ratio <= 11 {
        (0b1010, 8)
    } else if ratio <= 39 {
        (0b1011, 16)
    } else if ratio <= 95 {
        (0b1100, 64)
    } else if ratio <= 191 {
        (0b1101, 128)
    } else if ratio <= 383 {
        (0b1110, 256)
    } else {
        (0b1111, 512)
    }
}

fn ppre(ratio: u32) -> (r: (u8, u8))
    requires
        ratio >= 1,
    ensures
        r == spec_ppre(ratio),
{
    if ratio == 1 {
        (0b000, 1)
    } else if ratio == 2 {
        (0b100, 2)
    } else if ratio <= 5 {
        (0b101, 4)
    } else if ratio <= 11 {
        (0b110, 8)
    } else {
        (0b111, 16)
    }
}

pub fn latency(hclk: u32) -> (r: u8)
    ensures
        r == spec_latency(hclk),
        r as int == if hclk == 0 {
            0
        } else if (hclk - 1) / 16_000_000 >= 4 {
            4
        } else {
            (hclk - 1) / 16_000_000
        },
{
    if hclk <= 16_000_000 {
        0b000
    } else if hclk <= 32_000_000 {
        0b001
    } else if hclk <= 48_000_000 {
        0b010
    } else if hclk <= 64_000_000 {
        0b011
    } else {
        0b100
    }
}

impl MyCFGR {
    /// The AHB clock: the system clock divided by the chosen prescaler.
    pub open spec fn spec_hclk(self) -> u32 {
        match self.hclk {
            Some(h) => (self.sysclk / spec_hpre((self.sysclk / h) as u32).1) as u32,
            None => self.sysclk,
        }
    }

    /// What `freeze` demands: a system clock of at most 80 MHz and requested
    /// bus clocks that do not exceed the clock they divide.
    pub open spec fn freezable(self) -> bool {
        &&& self.sysclk <= 80_000_000
        &&& self.hclk matches Some(h) ==> 0 < h <= self.sysclk
        &&& self.pclk1 matches Some(p) ==> 0 < p <= self.spec_hclk()
        &&& self.pclk2 matches Some(p) ==> 0 < p <= self.spec_hclk()
    }

    /// Nothing requested: no crystal, system clock 0.
    pub fn new() -> (r: Self)
        ensures
            r == (MyCFGR {
                hse: HseConfig {
                    speed: 0,
                    bypass: CrystalBypass::Disable,
                    css: ClockSecuritySystem::Enable,
                },
                hclk: None,
                pclk1: None,
                pclk2: None,
                sysclk: 0,
            }),
    {
        MyCFGR {
            hse: HseConfig {
                speed: 0,
                bypass: CrystalBypass::Disable,
                css: ClockSecuritySystem::Enable,
            },
            hclk: None,
            pclk1: None,
            pclk2: None,
            sysclk: 0,
        }
    }

    /// Adds a crystal of `freq_hz` hertz.
    pub fn hse(self, freq_hz: u32, bypass: CrystalBypass, css: ClockSecuritySystem) -> (r: Self)
        ensures
            r == (MyCFGR { hse: HseConfig { speed: freq_hz, bypass, css }, ..self }),
    {
        MyCFGR { hse: HseConfig { speed: freq_hz, bypass, css }, ..self }
    }

    /// Requests an AHB bus frequency.
    pub fn hclk(self, freq_hz: u32) -> (r: Self)
        ensures
            r == (MyCFGR { hclk: Some(freq_hz), ..self }),
    {
        MyCFGR { hclk: Some(freq_hz), ..self }
    }

    /// Sets the system (core) frequency.
    pub fn sysclk(self, freq_hz: u32) -> (r: Self)
        ensures
            r == (MyCFGR { sysclk: freq_hz, ..self }),
    {
        MyCFGR { sysclk: freq_hz, ..self }
    }

    /// Requests an APB1 bus frequency.
    pub fn pclk1(self, freq_hz: u32) -> (r: Self)
        ensures
            r == (MyCFGR { pclk1: Some(freq_hz), ..self }),
    {
        MyCFGR { pclk1: Some(freq_hz), ..self }
    }

    /// Requests an APB2 bus frequency.
    pub fn pclk2(self, freq_hz: u32) -> (r: Self)
        ensures
            r == (MyCFGR { pclk2: Some(freq_hz), ..self }),
    {
        MyCFGR { pclk2: Some(freq_hz), ..self }
    }

    /// The prescalers, frequencies and flash wait states for the request: each
    /// bus clock is the clock above it divided by the prescaler for their
    /// ratio; a bus clock not requested runs undivided.
    pub fn freeze(&self) -> (r: ClockPlan)
        requires
            self.freezable(),
        ensures
            r.sysclk == self.sysclk,
            r.hclk == self.spec_hclk(),
            r.hpre_bits == match self.hclk {
                Some(h) => spec_hpre((self.sysclk / h) as u32).0,
                None => 0,
            },
            (r.ppre1_bits, r.ppre1) == match self.pclk1 {
                Some(p) => spec_ppre((r.hclk / p) as u32),
                None => (0u8, 1u8),
            },
            r.pclk1 == r.hclk / (r.ppre1 as u32),
            (r.ppre2_bits, r.ppre2) == match self.pclk2 {
                Some(p) => spec_ppre((r.hclk / p) as u32),
                None => (0u8, 1u8),
            },
            r.pclk2 == r.hclk / (r.ppre2 as u32),
            r.latency == spec_latency(r.hclk),
            r.hclk <= r.sysclk,
            r.pclk1 <= r.sysclk,
            r.pclk2 <= r.sysclk,
    {
        let (hpre_bits, hpre_div) = match self.hclk {
            Some(h) => {
                proof {
                    lemma_ratio_at_least_one(self.sysclk, h);
                }
                hpre(self.sysclk / h)
            },
            None => (0b0000u8, 1u32),
        };
        let hclk = self.sysclk / hpre_div;
        proof {
            lemma_div_le(self.sysclk, hpre_div);
        }
        let (ppre1_bits, ppre1) = match self.pclk1 {
            Some(p) => {
                proof {
                    lemma_ratio_at_least_one(hclk, p);
                }
                ppre(hclk / p)
            },
            None => (0b000u8, 1u8),
        };
        let pclk1 = hclk / ppre1 as u32;
        proof {
            lemma_div_le(hclk, ppre1 as u32);
        }
        let (ppre2_bits, ppre2) = match self.pclk2 {
            Some(p) => {
                proof {
                    lemma_ratio_at_least_one(hclk, p);
                }
                ppre(hclk / p)
            },
            None => (0b000u8, 1u8),
        };
        let pclk2 = hclk / ppre2 as u32;
        proof {
            lemma_div_le(hclk, ppre2 as u32);
        }
        ClockPlan {
            hpre_bits,
            hclk,
            ppre1_bits,
            ppre1,
            pclk1,
            ppre2_bits,
            ppre2,
            pclk2,
            latency: latency(hclk),
            sysclk: self.sysclk,
        }
    }
}

proof fn lemma_ratio_at_least_one(a: u32, b: u32)
    requires
        0 < b <= a,
    ensures
        a / b >= 1,
{
    vstd::arithmetic::div_mod::lemma_div_is_ordered(b as int, a as int, b as int);
    vstd::arithmetic::div_mod::lemma_div_by_self(b as int);
}

proof fn lemma_div_le(a: u32, d: u32)
    requires
        d >= 1,
    ensures
        a / d <= a,
{
    vstd::arithmetic::div_mod::lemma_div_is_ordered_by_denominator(a as int, 1, d as int);
}

} // verus!
