//! The device settings. Calibration values that the device stores as IEEE-754
//! single precision numbers are held here by their bit patterns.
#![allow(non_snake_case)]
#![allow(non_camel_case_types)]

use vstd::prelude::*;

verus! {

pub const P_COEFFS_COUNT: usize = 16;

pub const T_COEFFS_COUNT: usize = 5;

pub const PASSWORD_SIZE: usize = 10;

/// Pressure polynomial coefficients (bit patterns of single precision numbers).
#[derive(Debug, Clone, Copy)]
pub struct P16Coeffs {
    pub Fp0: u32,
    pub Ft0: u32,
    pub A: [u32; 16],
}

/// Temperature polynomial coefficients (bit patterns of single precision numbers).
#[derive(Debug, Clone, Copy)]
pub struct T5Coeffs {
    pub F0: u32,
    pub T0: u32,
    pub C: [u32; 5],
}

/// Working range of a channel (bit patterns of single precision numbers).
#[derive(Debug, Clone, Copy, PartialEq, Eq, Structural)]
pub struct WorkRange {
    pub minimum: u32,
    pub maximum: u32,
    pub absolute_maximum: u32,
}

#[derive(Debug, Clone, Copy, PartialEq, Eq, Structural)]
pub struct CalibrationDate {
    pub Day: u32,
    pub Month: u32,
    pub Year: u32,
}

#[derive(Debug, Clone, Copy, PartialEq, Eq, Structural)]
pub struct WriteConfig {
    pub BaseInterval_ms: u32,
    pub PWriteDevider: u32,
    pub TWriteDevider: u32,
}

/// Flags raised when a measured value left its working range.
#[derive(Debug, Clone, Copy, PartialEq, Eq, Structural)]
pub struct Monitoring {
    pub Ovarpress: bool,
    pub Ovarheat: bool,
    pub CPUOvarheat: bool,
    pub OverPower: bool,
}

impl Monitoring {
    pub open spec fn spec_is_set(self) -> bool {
        self.Ovarpress || self.Ovarheat || self.CPUOvarheat || self.OverPower
    }

    /// Whether any flag is raised.
    pub fn is_set(&self) -> (r: bool)
        ensures
            r == self.spec_is_set(),
    {
        self.Ovarpress || self.Ovarheat || self.CPUOvarheat || self.OverPower
    }
}

impl Default for Monitoring {
    fn default() -> (r: Self)
        ensures
            !r.spec_is_set(),
    {
        Monitoring { Ovarpress: false, Ovarheat: false, CPUOvarheat: false, OverPower: false }
    }
}

/// Units in which pressure is reported.
#[derive(Debug, Clone, Copy, PartialEq, Eq, Structural)]
pub enum PressureMeassureUnits {
    INVALID_ZERO,
    /// Pascal
    Pa,
    /// Bar
    Bar,
    /// Technical atmosphere (kgf/cm2)
    At,
    /// Millimetre of water
    mmH20,
    /// Metre of mercury
    mHg,
    /// Standard atmosphere
    Atm,
    /// Pound per square inch
    PSI,
}

impl PressureMeassureUnits {
    /// The code of each unit on the wire.
    pub open spec fn spec_code(self) -> i32 {
        match self {
            PressureMeassureUnits::INVALID_ZERO => 0,
            PressureMeassureUnits::Pa => 0x00220000,
            PressureMeassureUnits::Bar => 0x004E0000,
            PressureMeassureUnits::At => 0x00A10000,
            PressureMeassureUnits::mmH20 => 0x00A20000,
            PressureMeassureUnits::mHg => 0x00A30000,
            PressureMeassureUnits::Atm => 0x00A40000,
            PressureMeassureUnits::PSI => 0x00AB0000,
        }
    }

    pub fn code(self) -> (r: i32)
        ensures
            r == self.spec_code(),
    {
        match self {
            PressureMeassureUnits::INVALID_ZERO => 0,
            PressureMeassureUnits::Pa => 0x00220000,
            PressureMeassureUnits::Bar => 0x004E0000,
            PressureMeassureUnits::At => 0x00A10000,
            PressureMeassureUnits::mmH20 => 0x00A20000,
            PressureMeassureUnits::mHg => 0x00A30000,
            PressureMeassureUnits::Atm => 0x00A40000,
            PressureMeassureUnits::PSI => 0x00AB0000,
        }
    }

    /// The unit with the given code, if there is one.
    pub fn from_i32(code: i32) -> (r: Option<Self>)
        ensures
            r matches Some(u) ==> u.spec_code() == code,
            r is None ==> forall|u: PressureMeassureUnits| #[trigger] u.spec_code() != code,
    {
        if code == 0 {
            Some(PressureMeassureUnits::INVALID_ZERO)
        } else if code == 0x00220000 {
            Some(PressureMeassureUnits::Pa)
        } else if code == 0x004E0000 {
            Some(PressureMeassureUnits::Bar)
        } else if code == 0x00A10000 {
            Some(PressureMeassureUnits::At)
        } else if code == 0x00A20000 {
            Some(PressureMeassureUnits::mmH20)
        } else if code == 0x00A30000 {
            Some(PressureMeassureUnits::mHg)
        } else if code == 0x00A40000 {
            Some(PressureMeassureUnits::Atm)
        } else if code == 0x00AB0000 {
            Some(PressureMeassureUnits::PSI)
        } else {
            None
        }
    }
}

/// Settings that live in memory only.
#[derive(Debug, Clone, Copy)]
pub struct NonStoreSettings {
    pub current_password: [u8; 10],
}

/// The settings stored in flash.
#[derive(Debug, Clone, Copy)]
pub struct AppSettings {
    pub Serial: u32,
    pub PMesureTime_ms: u32,
    pub T1MesureTime_ms: u32,
    pub T2MesureTime_ms: u32,
    pub Fref: u32,
    pub P_enabled: bool,
    pub T1_enabled: bool,
    pub T2_enabled: bool,
    pub TCPUEnabled: bool,
    pub VBatEnabled: bool,
    pub P_Coefficients: P16Coeffs,
    pub T1_Coefficients: T5Coeffs,
    pub T2_Coefficients: T5Coeffs,
    pub PWorkRange: WorkRange,
    pub TWorkRange: WorkRange,
    pub TCPUWorkRange: WorkRange,
    pub VbatWorkRange: WorkRange,
    pub PZeroCorrection: u32,
    pub TZeroCorrection: u32,
    pub calibration_date: CalibrationDate,
    pub writeConfig: WriteConfig,
    pub startDelay: u32,
    pub pressureMeassureUnits: PressureMeassureUnits,
    pub password: [u8; 10],
    pub monitoring: Monitoring,
}

} // verus!
