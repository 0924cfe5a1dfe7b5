use vstd::prelude::*;

verus! {

/// Number of lines a phase of a QSPI command uses.
#[derive(Copy, Clone, Debug, PartialEq, Eq, Structural)]
pub enum QspiMode {
    SingleChannel,
    DualChannel,
    QuadChannel,
}

impl QspiMode {
    /// The register code of the mode.
    pub open spec fn spec_bits(self) -> u8 {
        match self {
            QspiMode::SingleChannel => 0b01,
            QspiMode::DualChannel => 0b10,
            QspiMode::QuadChannel => 0b11,
        }
    }

    pub fn bits(self) -> (r: u8)
        ensures
            r == self.spec_bits(),
    {
        match self {
            QspiMode::SingleChannel => 0b01,
            QspiMode::DualChannel => 0b10,
            QspiMode::QuadChannel => 0b11,
        }
    }
}

#[derive(Copy, Clone, Debug, PartialEq, Eq, Structural)]
pub enum AddressSize {
    Addr8Bit,
    Addr16Bit,
    Addr24Bit,
    Addr32Bit,
}

impl AddressSize {
    /// The register code of the size.
    pub open spec fn spec_bits(self) -> u8 {
        match self {
            AddressSize::Addr8Bit => 0b00,
            AddressSize::Addr16Bit => 0b01,
            AddressSize::Addr24Bit => 0b10,
            AddressSize::Addr32Bit => 0b11,
        }
    }

    pub fn bits(self) -> (r: u8)
        ensures
            r == self.spec_bits(),
    {
        match self {
            AddressSize::Addr8Bit => 0b00,
            AddressSize::Addr16Bit => 0b01,
            AddressSize::Addr24Bit => 0b10,
            AddressSize::Addr32Bit => 0b11,
        }
    }
}

#[derive(Copy, Clone, Debug, PartialEq, Eq, Structural)]
pub enum SampleShift {
    NoShift,
    HalfACycle,
}

#[derive(Copy, Clone, Debug, PartialEq, Eq, Structural)]
pub enum ClockMode {
    Mode0,
    Mode3,
}

#[derive(Copy, Clone, Debug, PartialEq, Eq, Structural)]
pub enum QspiError {
    Busy,
    Address,
    Unknown,
}

/// Which flash chip a channel talks to.
#[derive(Copy, Clone, Debug, PartialEq, Eq, Structural)]
pub enum FlashBank {
    Bank1,
    Bank2,
    Both,
}

impl FlashBank {
    /// The flash-select bit: set for the second bank and for both.
    pub fn to_bank_bit(&self) -> (r: bool)
        ensures
            r == (*self != FlashBank::Bank1),
    {
        match self {
            FlashBank::Bank1 => false,
            _ => true,
        }
    }

    /// The dual-flash bit: set for both banks.
    pub fn is_dual(&self) -> (r: bool)
        ensures
            r == (*self == FlashBank::Both),
    {
        match self {
            FlashBank::Both => true,
            _ => false,
        }
    }
}

/// A command that sends: instruction, address, alternative bytes and data, each optional.
#[derive(Copy, Clone, Debug, PartialEq, Eq)]
pub struct QspiWriteCommand<'a> {
    pub instruction: Option<(u8, QspiMode)>,
    pub address: Option<(u32, QspiMode)>,
    pub alternative_bytes: Option<(&'a [u8], QspiMode)>,
    pub dummy_cycles: u8,
    pub data: Option<(&'a [u8], QspiMode)>,
    pub double_data_rate: bool,
}

/// A command that receives `receive_length` bytes.
#[derive(Copy, Clone, Debug, PartialEq, Eq)]
pub struct QspiReadCommand<'a> {
    pub instruction: Option<(u8, QspiMode)>,
    pub address: Option<(u32, QspiMode)>,
    pub alternative_bytes: Option<(&'a [u8], QspiMode)>,
    pub dummy_cycles: u8,
    pub data_mode: QspiMode,
    pub receive_length: u32,
    pub double_data_rate: bool,
}

/// A sending command as a value: its byte slices taken as sequences.
pub struct WriteCommandView {
    pub instruction: Option<(u8, QspiMode)>,
    pub address: Option<(u32, QspiMode)>,
    pub alternative_bytes: Option<(Seq<u8>, QspiMode)>,
    pub dummy_cycles: u8,
    pub data: Option<(Seq<u8>, QspiMode)>,
    pub double_data_rate: bool,
}

/// A receiving command as a value: its byte slices taken as sequences.
pub struct ReadCommandView {
    pub instruction: Option<(u8, QspiMode)>,
    pub address: Option<(u32, QspiMode)>,
    pub alternative_bytes: Option<(Seq<u8>, QspiMode)>,
    pub dummy_cycles: u8,
    pub data_mode: QspiMode,
    pub receive_length: u32,
    pub double_data_rate: bool,
}

/// Optional bytes with their mode, the bytes as a sequence.
pub open spec fn spec_bytes_view(b: Option<(&[u8], QspiMode)>) -> Option<(Seq<u8>, QspiMode)> {
    match b {
        Some((d, m)) => Some((d@, m)),
        None => None,
    }
}

pub open spec fn spec_write_view(c: QspiWriteCommand) -> WriteCommandView {
    WriteCommandView {
        instruction: c.instruction,
        address: c.address,
        alternative_bytes: spec_bytes_view(c.alternative_bytes),
        dummy_cycles: c.dummy_cycles,
        data: spec_bytes_view(c.data),
        double_data_rate: c.double_data_rate,
    }
}

pub open spec fn spec_read_view(c: QspiReadCommand) -> ReadCommandView {
    ReadCommandView {
        instruction: c.instruction,
        address: c.address,
        alternative_bytes: spec_bytes_view(c.alternative_bytes),
        dummy_cycles: c.dummy_cycles,
        data_mode: c.data_mode,
        receive_length: c.receive_length,
        double_data_rate: c.double_data_rate,
    }
}

impl<'a> QspiWriteCommand<'a> {
    pub fn address(self, addr: u32, mode: QspiMode) -> (r: Self)
        ensures
            r == (QspiWriteCommand { address: Some((addr, mode)), ..self }),
    {
        QspiWriteCommand { address: Some((addr, mode)), ..self }
    }

    pub fn alternative_bytes(self, bytes: &'a [u8], mode: QspiMode) -> (r: Self)
        ensures
            r == (QspiWriteCommand { alternative_bytes: Some((bytes, mode)), ..self }),
    {
        QspiWriteCommand { alternative_bytes: Some((bytes, mode)), ..self }
    }

    pub fn dummy_cycles(self, n: u8) -> (r: Self)
        ensures
            r == (QspiWriteCommand { dummy_cycles: n, ..self }),
    {
        QspiWriteCommand { dummy_cycles: n, ..self }
    }

    pub fn data(self, bytes: &'a [u8], mode: QspiMode) -> (r: Self)
        ensures
            r == (QspiWriteCommand { data: Some((bytes, mode)), ..self }),
    {
        QspiWriteCommand { data: Some((bytes, mode)), ..self }
    }
}

impl<'a> QspiReadCommand<'a> {
    pub fn address(self, addr: u32, mode: QspiMode) -> (r: Self)
        ensures
            r == (QspiReadCommand { address: Some((addr, mode)), ..self }),
    {
        QspiReadCommand { address: Some((addr, mode)), ..self }
    }

    pub fn alternative_bytes(self, bytes: &'a [u8], mode: QspiMode) -> (r: Self)
        ensures
            r == (QspiReadCommand { alternative_bytes: Some((bytes, mode)), ..self }),
    {
        QspiReadCommand { alternative_bytes: Some((bytes, mode)), ..self }
    }

    pub fn dummy_cycles(self, n: u8) -> (r: Self)
        ensures
            r == (QspiReadCommand { dummy_cycles: n, ..self }),
    {
        QspiReadCommand { dummy_cycles: n, ..self }
    }

    pub fn receive_length(self, length: u32) -> (r: Self)
        ensures
            r == (QspiReadCommand { receive_length: length, ..self }),
    {
        QspiReadCommand { receive_length: length, ..self }
    }
}

} // verus!
