use vstd::prelude::*;

use super::types::{AddressSize, ClockMode, SampleShift};

verus! {

/// Settings of the QSPI peripheral.
#[derive(Copy, Clone, Debug, PartialEq, Eq, Structural)]
pub struct QspiConfig {
    /// The clock is the AHB clock divided by this value plus one.
    clock_prescaler: u8,
    /// The flash holds 2^(flash_size + 1) bytes.
    flash_size: u8,
    address_size: AddressSize,
    /// Level of the clock between commands: low (mode 0) or high (mode 3).
    clock_mode: ClockMode,
    /// FIFO threshold level, 0 to 15.
    fifo_threshold: u8,
    sample_shift: SampleShift,
    /// Chip select stays high for at least this value plus one clock cycles between commands.
    chip_select_high_time: u8,
    qpi_mode: bool,
}

/// The settings as values.
pub struct QspiConfigView {
    pub clock_prescaler: u8,
    pub flash_size: u8,
    pub address_size: AddressSize,
    pub clock_mode: ClockMode,
    pub fifo_threshold: u8,
    pub sample_shift: SampleShift,
    pub chip_select_high_time: u8,
    pub qpi_mode: bool,
}

impl View for QspiConfig {
    type V = QspiConfigView;

    closed spec fn view(&self) -> QspiConfigView {
        QspiConfigView {
            clock_prescaler: self.clock_prescaler,
            flash_size: self.flash_size,
            address_size: self.address_size,
            clock_mode: self.clock_mode,
            fifo_threshold: self.fifo_threshold,
            sample_shift: self.sample_shift,
            chip_select_high_time: self.chip_select_high_time,
            qpi_mode: self.qpi_mode,
        }
    }
}

impl Default for QspiConfig {
    /// No prescaling, an 8 MiB flash with 24-bit addresses, clock mode 0, FIFO
    /// threshold 1, half-cycle sample shift, chip select high for two cycles,
    /// no QPI mode.
    fn default() -> (r: QspiConfig)
        ensures
            r@ == (QspiConfigView {
                clock_prescaler: 0,
                flash_size: 22,
                address_size: AddressSize::Addr24Bit,
                clock_mode: ClockMode::Mode0,
                fifo_threshold: 1,
                sample_shift: SampleShift::HalfACycle,
                chip_select_high_time: 1,
                qpi_mode: false,
            }),
    {
        QspiConfig {
            clock_prescaler: 0,
            flash_size: 22,
            address_size: AddressSize::Addr24Bit,
            clock_mode: ClockMode::Mode0,
            fifo_threshold: 1,
            sample_shift: SampleShift::HalfACycle,
            chip_select_high_time: 1,
            qpi_mode: false,
        }
    }
}

impl QspiConfig {
    pub fn clock_prescaler(self, clk_pre: u8) -> (r: Self)
        ensures
            r@ == (QspiConfigView { clock_prescaler: clk_pre, ..self@ }),
    {
        QspiConfig { clock_prescaler: clk_pre, ..self }
    }

    pub fn flash_size(self, fl_size: u8) -> (r: Self)
        ensures
            r@ == (QspiConfigView { flash_size: fl_size, ..self@ }),
    {
        QspiConfig { flash_size: fl_size, ..self }
    }

    pub fn address_size(self, add_size: AddressSize) -> (r: Self)
        ensures
            r@ == (QspiConfigView { address_size: add_size, ..self@ }),
    {
        QspiConfig { address_size: add_size, ..self }
    }

    pub fn clock_mode(self, clk_mode: ClockMode) -> (r: Self)
        ensures
            r@ == (QspiConfigView { clock_mode: clk_mode, ..self@ }),
    {
        QspiConfig { clock_mode: clk_mode, ..self }
    }

    pub fn fifo_threshold(self, fifo_thres: u8) -> (r: Self)
        ensures
            r@ == (QspiConfigView { fifo_threshold: fifo_thres, ..self@ }),
    {
        QspiConfig { fifo_threshold: fifo_thres, ..self }
    }

    pub fn sample_shift(self, shift: SampleShift) -> (r: Self)
        ensures
            r@ == (QspiConfigView { sample_shift: shift, ..self@ }),
    {
        QspiConfig { sample_shift: shift, ..self }
    }

    pub fn chip_select_high_time(self, csht: u8) -> (r: Self)
        ensures
            r@ == (QspiConfigView { chip_select_high_time: csht, ..self@ }),
    {
        QspiConfig { chip_select_high_time: csht, ..self }
    }

    pub fn qpi_mode(self, qpi: bool) -> (r: Self)
        ensures
            r@ == (QspiConfigView { qpi_mode: qpi, ..self@ }),
    {
        QspiConfig { qpi_mode: qpi, ..self }
    }

    pub fn get_clock_prescaler(&self) -> (r: u8)
        ensures
            r == self@.clock_prescaler,
    {
        self.clock_prescaler
    }

    pub fn get_flash_size(&self) -> (r: u8)
        ensures
            r == self@.flash_size,
    {
        self.flash_size
    }

    pub fn get_address_size(&self) -> (r: AddressSize)
        ensures
            r == self@.address_size,
    {
        self.address_size
    }

    pub fn get_clock_mode(&self) -> (r: ClockMode)
        ensures
            r == self@.clock_mode,
    {
        self.clock_mode
    }

    pub fn get_fifo_threshold(&self) -> (r: u8)
        ensures
            r == self@.fifo_threshold,
    {
        self.fifo_threshold
    }

    pub fn get_sample_shift(&self) -> (r: SampleShift)
        ensures
            r == self@.sample_shift,
    {
        self.sample_shift
    }

    pub fn get_chip_select_high_time(&self) -> (r: u8)
        ensures
            r == self@.chip_select_high_time,
    {
        self.chip_select_high_time
    }

    pub fn get_qpi_mode(&self) -> (r: bool)
        ensures
            r == self@.qpi_mode,
    {
        self.qpi_mode
    }
}

} // verus!
