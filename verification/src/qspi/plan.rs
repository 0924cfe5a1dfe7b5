//! What the QSPI driver writes to the peripheral's registers for a configuration
//! or a command.

use vstd::prelude::*;

use super::config::{QspiConfig, QspiConfigView};
use super::types::{ClockMode, FlashBank, QspiMode, QspiReadCommand, QspiWriteCommand, SampleShift};

verus! {

/// Functional mode: indirect write.
pub const FMODE_INDIRECT_WRITE: u8 = 0b00;

/// Functional mode: indirect read.
pub const FMODE_INDIRECT_READ: u8 = 0b01;

/// Functional mode: memory mapped.
pub const FMODE_MEMORY_MAPPED: u8 = 0b11;

/// Register fields that a configuration sets.
#[derive(Copy, Clone, Debug, PartialEq, Eq, Structural)]
pub struct ConfigRegisters {
    pub fthres: u8,
    pub prescaler: u8,
    pub fsel: bool,
    pub dfm: bool,
    pub sshift: bool,
    pub fsize: u8,
    pub csht: u8,
    pub ckmode: bool,
}

/// Fields of the communication configuration register.
#[derive(Copy, Clone, Debug, PartialEq, Eq, Structural)]
pub struct CcrFields {
    pub fmode: u8,
    pub imode: u8,
    pub instruction: u8,
    pub admode: u8,
    pub adsize: u8,
    pub abmode: u8,
    pub absize: u8,
    pub ddrm: bool,
    pub dcyc: u8,
    pub dmode: u8,
}

/// The register writes of one command: data length, alternative bytes, the
/// communication configuration and the address that starts the command.
#[derive(Copy, Clone, Debug, PartialEq, Eq, Structural)]
pub struct CommandPlan {
    pub dlr: Option<u32>,
    pub abr: Option<u32>,
    pub ccr: CcrFields,
    pub ar: Option<u32>,
    /// The sample shift is switched off for the command (double data rate).
    pub sshift_off: bool,
    /// The send-instruction-only-once bit is cleared.
    pub sioo_cleared: bool,
}

/// The register fields for `config` on `bank`.
pub open spec fn spec_plan_config(c: QspiConfigView, bank: FlashBank) -> ConfigRegisters {
    ConfigRegisters {
        fthres: c.fifo_threshold,
        prescaler: c.clock_prescaler,
        fsel: bank != FlashBank::Bank1,
        dfm: bank == FlashBank::Both,
        sshift: c.sample_shift == SampleShift::HalfACycle,
        fsize: c.flash_size,
        csht: c.chip_select_high_time,
        ckmode: c.clock_mode == ClockMode::Mode3,
    }
}

pub fn plan_config(config: &QspiConfig, bank: FlashBank) -> (r: ConfigRegisters)
    ensures
        r == spec_plan_config(config@, bank),
{
    ConfigRegisters {
        fthres: config.get_fifo_threshold(),
        prescaler: config.get_clock_prescaler(),
        fsel: bank.to_bank_bit(),
        dfm: bank.is_dual(),
        sshift: config.get_sample_shift() == SampleShift::HalfACycle,
        fsize: config.get_flash_size(),
        csht: config.get_chip_select_high_time(),
        ckmode: config.get_clock_mode() == ClockMode::Mode3,
    }
}

/// The mode code of a phase: all four lines in QPI mode, else the phase's own mode.
pub open spec fn spec_phase_mode(qpi: bool, mode: QspiMode) -> u8 {
    if qpi {
        QspiMode::QuadChannel.spec_bits()
    } else {
        mode.spec_bits()
    }
}

fn phase_mode(qpi: bool, mode: QspiMode) -> (r: u8)
    ensures
        r == spec_phase_mode(qpi, mode),
{
    if qpi {
        QspiMode::QuadChannel.bits()
    } else {
        mode.bits()
    }
}

/// The number whose big-endian bytes are `s`.
pub open spec fn be_value(s: Seq<u8>) -> nat
    decreases s.len(),
{
    if s.len() == 0 {
        0
    } else {
        be_value(s.drop_last()) * 256 + s.last() as nat
    }
}

proof fn lemma_be_value_bound(s: Seq<u8>)
    ensures
        be_value(s) < vstd::arithmetic::power::pow(256, s.len()),
    decreases s.len(),
{
    vstd::arithmetic::power::lemma_pow0(256);
    if s.len() > 0 {
        lemma_be_value_bound(s.drop_last());
        vstd::arithmetic::power::lemma_pow_adds(256, s.drop_last().len(), 1);
        vstd::arithmetic::power::lemma_pow1(256);
    }
}

/// The alternative bytes as the register holds them: the first byte highest.
pub fn pack_alternate_bytes(bytes: &[u8]) -> (r: u32)
    requires
        bytes@.len() <= 4,
    ensures
        r == be_value(bytes@),
{
    let mut reg: u32 = 0;
    let mut i: usize = 0;
    while i < bytes.len()
        invariant
            i <= bytes@.len() <= 4,
            reg == be_value(bytes@.subrange(0, i as int)),
        decreases bytes@.len() - i,
    {
        proof {
            assert(bytes@.subrange(0, i + 1).drop_last() =~= bytes@.subrange(0, i as int));
            lemma_be_value_bound(bytes@.subrange(0, i as int));
            vstd::arithmetic::power::lemma_pow_increases(256, i as nat, 3);
            vstd::arithmetic::power::lemma_pow_positive(256, 3);
            reveal_with_fuel(vstd::arithmetic::power::pow, 4);
        }
        reg = reg * 256 + bytes[i] as u32;
        i = i + 1;
    }
    assert(bytes@.subrange(0, bytes@.len() as int) =~= bytes@);
    reg
}

/// The alternative-bytes phase is absent, or has one to four bytes.
pub open spec fn alternative_bytes_ok(a: Option<(&[u8], QspiMode)>) -> bool {
    a matches Some((b, _)) ==> 1 <= b@.len() <= 4
}

/// Fields of a command's configuration register, given its functional mode and
/// data-phase mode code.
pub open spec fn spec_ccr(
    c: QspiConfigView,
    fmode: u8,
    instruction: Option<(u8, QspiMode)>,
    address: Option<(u32, QspiMode)>,
    alternative_bytes: Option<(&[u8], QspiMode)>,
    dummy_cycles: u8,
    dmode: u8,
    ddr: bool,
) -> CcrFields {
    CcrFields {
        fmode,
        imode: match instruction {
            Some((_, m)) => spec_phase_mode(c.qpi_mode, m),
            None => 0,
        },
        instruction: match instruction {
            Some((i, _)) => i,
            None => 0,
        },
        admode: match address {
            Some((_, m)) => spec_phase_mode(c.qpi_mode, m),
            None => 0,
        },
        adsize: match address {
            Some(_) => c.address_size.spec_bits(),
            None => 0,
        },
        abmode: match alternative_bytes {
            Some((_, m)) => spec_phase_mode(c.qpi_mode, m),
            None => 0,
        },
        absize: match alternative_bytes {
            Some((b, _)) => (b@.len() - 1) as u8,
            None => 0,
        },
        ddrm: ddr,
        dcyc: dummy_cycles,
        dmode,
    }
}

/// The alternative-bytes register value of a command.
pub open spec fn spec_abr(alternative_bytes: Option<(&[u8], QspiMode)>) -> Option<u32> {
    match alternative_bytes {
        Some((b, _)) => Some(be_value(b@) as u32),
        None => None,
    }
}

fn ccr_of(
    config: &QspiConfig,
    fmode: u8,
    instruction: Option<(u8, QspiMode)>,
    address: Option<(u32, QspiMode)>,
    alternative_bytes: Option<(&[u8], QspiMode)>,
    dummy_cycles: u8,
    dmode: u8,
    ddr: bool,
) -> (r: (CcrFields, Option<u32>))
    requires
        alternative_bytes_ok(alternative_bytes),
    ensures
        r.0 == spec_ccr(
            config@,
            fmode,
            instruction,
            address,
            alternative_bytes,
            dummy_cycles,
            dmode,
            ddr,
        ),
        r.1 == spec_abr(alternative_bytes),
{
    let qpi = config.get_qpi_mode();
    let (imode, inst) = match instruction {
        Some((i, m)) => (phase_mode(qpi, m), i),
        None => (0u8, 0u8),
    };
    let (admode, adsize) = match address {
        Some((_, m)) => (phase_mode(qpi, m), config.get_address_size().bits()),
        None => (0u8, 0u8),
    };
    let (abmode, absize, abr) = match alternative_bytes {
        Some((b, m)) => (phase_mode(qpi, m), (b.len() - 1) as u8, Some(pack_alternate_bytes(b))),
        None => (0u8, 0u8, None),
    };
    (
        CcrFields {
            fmode,
            imode,
            instruction: inst,
            admode,
            adsize,
            abmode,
            absize,
            ddrm: ddr,
            dcyc: dummy_cycles,
            dmode,
        },
        abr,
    )
}

/// The register writes of an indirect read: the data length is the receive
/// length less one, when there is data to receive.
pub open spec fn spec_plan_transfer(c: QspiConfigView, cmd: QspiReadCommand) -> CommandPlan {
    CommandPlan {
        dlr: if cmd.receive_length > 0 {
            Some((cmd.receive_length - 1) as u32)
        } else {
            None
        },
        abr: spec_abr(cmd.alternative_bytes),
        ccr: spec_ccr(
            c,
            FMODE_INDIRECT_READ,
            cmd.instruction,
            cmd.address,
            cmd.alternative_bytes,
            cmd.dummy_cycles,
            if cmd.receive_length > 0 {
                spec_phase_mode(c.qpi_mode, cmd.data_mode)
            } else {
                0
            },
            cmd.double_data_rate,
        ),
        ar: match cmd.address {
            Some((a, _)) => Some(a),
            None => None,
        },
        sshift_off: cmd.double_data_rate,
        sioo_cleared: false,
    }
}

pub fn plan_transfer(config: &QspiConfig, command: &QspiReadCommand) -> (r: CommandPlan)
    requires
        alternative_bytes_ok(command.alternative_bytes),
    ensures
        r == spec_plan_transfer(config@, *command),
{
    let (dlr, dmode) = if command.receive_length > 0 {
        (Some(command.receive_length - 1), phase_mode(config.get_qpi_mode(), command.data_mode))
    } else {
        (None, 0u8)
    };
    let (ccr, abr) = ccr_of(
        config,
        FMODE_INDIRECT_READ,
        command.instruction,
        command.address,
        command.alternative_bytes,
        command.dummy_cycles,
        dmode,
        command.double_data_rate,
    );
    let ar = match command.address {
        Some((a, _)) => Some(a),
        None => None,
    };
    CommandPlan { dlr, abr, ccr, ar, sshift_off: command.double_data_rate, sioo_cleared: false }
}

/// The data phase of a write is absent or holds one byte up to `u32::MAX` bytes.
pub open spec fn write_data_ok(d: Option<(&[u8], QspiMode)>) -> bool {
    d matches Some((b, _)) ==> 1 <= b@.len() <= u32::MAX
}

/// The register writes of an indirect write: the data length is the number of
/// data bytes less one.
pub open spec fn spec_plan_write(c: QspiConfigView, cmd: QspiWriteCommand) -> CommandPlan {
    CommandPlan {
        dlr: match cmd.data {
            Some((d, _)) => Some((d@.len() - 1) as u32),
            None => None,
        },
        abr: spec_abr(cmd.alternative_bytes),
        ccr: spec_ccr(
            c,
            FMODE_INDIRECT_WRITE,
            cmd.instruction,
            cmd.address,
            cmd.alternative_bytes,
            cmd.dummy_cycles,
            match cmd.data {
                Some((_, m)) => spec_phase_mode(c.qpi_mode, m),
                None => 0,
            },
            cmd.double_data_rate,
        ),
        ar: match cmd.address {
            Some((a, _)) => Some(a),
            None => None,
        },
        sshift_off: cmd.double_data_rate,
        sioo_cleared: false,
    }
}

pub fn plan_write(config: &QspiConfig, command: &QspiWriteCommand) -> (r: CommandPlan)
    requires
        alternative_bytes_ok(command.alternative_bytes),
        write_data_ok(command.data),
    ensures
        r == spec_plan_write(config@, *command),
{
    let (dlr, dmode) = match command.data {
        Some((d, m)) => (Some((d.len() - 1) as u32), phase_mode(config.get_qpi_mode(), m)),
        None => (None, 0u8),
    };
    let (ccr, abr) = ccr_of(
        config,
        FMODE_INDIRECT_WRITE,
        command.instruction,
        command.address,
        command.alternative_bytes,
        command.dummy_cycles,
        dmode,
        command.double_data_rate,
    );
    let ar = match command.address {
        Some((a, _)) => Some(a),
        None => None,
    };
    CommandPlan { dlr, abr, ccr, ar, sshift_off: command.double_data_rate, sioo_cleared: false }
}

/// The register writes that start memory-mapped mode: the data length is the
/// largest, and no address is written, since addresses come from the bus.
pub open spec fn spec_plan_memory_mapping(c: QspiConfigView, cmd: QspiWriteCommand) -> CommandPlan {
    CommandPlan {
        dlr: Some(u32::MAX),
        abr: spec_abr(cmd.alternative_bytes),
        ccr: spec_ccr(
            c,
            FMODE_MEMORY_MAPPED,
            cmd.instruction,
            cmd.address,
            cmd.alternative_bytes,
            cmd.dummy_cycles,
            match cmd.data {
                Some((_, m)) => spec_phase_mode(c.qpi_mode, m),
                None => 0,
            },
            cmd.double_data_rate,
        ),
        ar: None,
        sshift_off: cmd.double_data_rate,
        sioo_cleared: true,
    }
}

pub fn plan_memory_mapping(config: &QspiConfig, command: &QspiWriteCommand) -> (r: CommandPlan)
    requires
        alternative_bytes_ok(command.alternative_bytes),
    ensures
        r == spec_plan_memory_mapping(config@, *command),
{
    let dmode = match command.data {
        Some((_, m)) => phase_mode(config.get_qpi_mode(), m),
        None => 0u8,
    };
    let (ccr, abr) = ccr_of(
        config,
        FMODE_MEMORY_MAPPED,
        command.instruction,
        command.address,
        command.alternative_bytes,
        command.dummy_cycles,
        dmode,
        command.double_data_rate,
    );
    CommandPlan {
        dlr: Some(u32::MAX),
        abr,
        ccr,
        ar: None,
        sshift_off: command.double_data_rate,
        sioo_cleared: true,
    }
}

/// Whether the peripheral is memory mapped for `bank`: its flash-select and
/// dual-flash bits belong to the bank and the functional mode is memory mapped.
pub fn is_memory_mapped_state(bank: FlashBank, fsel: bool, dfm: bool, fmode: u8) -> (r: bool)
    ensures
        r == (fsel == (bank != FlashBank::Bank1) && dfm == (bank == FlashBank::Both) && fmode
            == FMODE_MEMORY_MAPPED),
{
    fsel == bank.to_bank_bit() && dfm == bank.is_dual() && fmode == FMODE_MEMORY_MAPPED
}

} // verus!
