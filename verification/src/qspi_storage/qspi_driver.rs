//! The flash chip driver: the commands it sends over a QSPI channel.

use vstd::prelude::*;

use crate::qspi::config::QspiConfig;
use crate::qspi::iqspi::{IQspi, QspiOp};
use crate::qspi::plan::FMODE_MEMORY_MAPPED;
use crate::qspi::types::{
    spec_read_view, spec_write_view, QspiError, QspiMode, QspiReadCommand, QspiWriteCommand,
    WriteCommandView,
};

use super::flash_config::{address_bytes, spec_address_bytes, FlashConfig};
use super::flash_log::FlashOp;
use super::identification::Identification;

verus! {

/// Instruction codes of serial NOR flash chips.
#[derive(Copy, Clone, Debug, PartialEq, Eq, Structural)]
pub enum Opcode {
    /// Read the 8-bit legacy device ID.
    ReadDeviceId,
    /// Read the 8-bit manufacturer and device IDs.
    ReadMfDId,
    /// Read 16-bit manufacturer ID and 8-bit device ID.
    ReadJedecId,
    /// Set the write enable latch.
    WriteEnable,
    /// Clear the write enable latch.
    WriteDisable,
    /// Read the 8-bit status register.
    ReadStatus,
    /// Write the 8-bit status register. Not all bits are writeable.
    WriteStatus,
    Read,
    PageProg,
    SectorErase,
    BlockErase,
    ChipErase,
    /// Read 16-bit manufacturer ID and 8-bit device ID over four lines.
    ReadJedecIdMIO,
    /// Read the flag status register.
    ReadFlagStatus,
    /// Quad I/O fast read, 3-byte address.
    QIOFastRead,
    /// Quad I/O fast program, 3-byte address, 1 to 256 bytes.
    QIOFastProgramm,
    /// Write the address extender register.
    WriteAddrExtanderReg,
}

impl Opcode {
    pub open spec fn spec_code(self) -> u8 {
        match self {
            Opcode::ReadDeviceId => 0xAB,
            Opcode::ReadMfDId => 0x90,
            Opcode::ReadJedecId => 0x9F,
            Opcode::WriteEnable => 0x06,
            Opcode::WriteDisable => 0x04,
            Opcode::ReadStatus => 0x05,
            Opcode::WriteStatus => 0x01,
            Opcode::Read => 0x03,
            Opcode::PageProg => 0x02,
            Opcode::SectorErase => 0x20,
            Opcode::BlockErase => 0xD8,
            Opcode::ChipErase => 0xC7,
            Opcode::ReadJedecIdMIO => 0xAF,
            Opcode::ReadFlagStatus => 0x70,
            Opcode::QIOFastRead => 0xEB,
            Opcode::QIOFastProgramm => 0x32,
            Opcode::WriteAddrExtanderReg => 0xC5,
        }
    }

    pub fn code(self) -> (r: u8)
        ensures
            r == self.spec_code(),
    {
        match self {
            Opcode::ReadDeviceId => 0xAB,
            Opcode::ReadMfDId => 0x90,
            Opcode::ReadJedecId => 0x9F,
            Opcode::WriteEnable => 0x06,
            Opcode::WriteDisable => 0x04,
            Opcode::ReadStatus => 0x05,
            Opcode::WriteStatus => 0x01,
            Opcode::Read => 0x03,
            Opcode::PageProg => 0x02,
            Opcode::SectorErase => 0x20,
            Opcode::BlockErase => 0xD8,
            Opcode::ChipErase => 0xC7,
            Opcode::ReadJedecIdMIO => 0xAF,
            Opcode::ReadFlagStatus => 0x70,
            Opcode::QIOFastRead => 0xEB,
            Opcode::QIOFastProgramm => 0x32,
            Opcode::WriteAddrExtanderReg => 0xC5,
        }
    }
}

/// A command of only an instruction, sent on one line.
pub open spec fn spec_instruction_only(code: u8) -> QspiWriteCommand<'static> {
    QspiWriteCommand {
        instruction: Some((code, QspiMode::SingleChannel)),
        address: None,
        alternative_bytes: None,
        dummy_cycles: 0,
        data: None,
        double_data_rate: false,
    }
}

pub fn instruction_only(code: u8) -> (r: QspiWriteCommand<'static>)
    ensures
        r == spec_instruction_only(code),
{
    QspiWriteCommand {
        instruction: Some((code, QspiMode::SingleChannel)),
        address: None,
        alternative_bytes: None,
        dummy_cycles: 0,
        data: None,
        double_data_rate: false,
    }
}

/// The quad fast read of `len` bytes from `start_address`.
pub open spec fn spec_read_command(cfg: FlashConfig, start_address: u32, len: u32) -> QspiReadCommand<
    'static,
> {
    QspiReadCommand {
        instruction: Some((Opcode::QIOFastRead.spec_code(), QspiMode::QuadChannel)),
        address: Some((start_address, QspiMode::QuadChannel)),
        alternative_bytes: None,
        dummy_cycles: cfg.read_dumy_cycles,
        double_data_rate: false,
        data_mode: QspiMode::QuadChannel,
        receive_length: len,
    }
}

pub fn read_command(cfg: &FlashConfig, start_address: u32, len: u32) -> (r: QspiReadCommand<
    'static,
>)
    ensures
        r == spec_read_command(*cfg, start_address, len),
{
    QspiReadCommand {
        instruction: Some((Opcode::QIOFastRead.code(), QspiMode::QuadChannel)),
        address: Some((start_address, QspiMode::QuadChannel)),
        alternative_bytes: None,
        dummy_cycles: cfg.read_dumy_cycles,
        double_data_rate: false,
        data_mode: QspiMode::QuadChannel,
        receive_length: len,
    }
}

/// The quad fast program of `block` at `address`.
pub open spec fn spec_program_command<'a>(cfg: FlashConfig, address: u32, block: &'a [u8]) -> QspiWriteCommand<'a> {
    QspiWriteCommand {
        instruction: Some((Opcode::QIOFastProgramm.spec_code(), QspiMode::QuadChannel)),
        address: Some((address, QspiMode::QuadChannel)),
        alternative_bytes: None,
        dummy_cycles: cfg.write_dumy_cycles,
        data: Some((block, QspiMode::QuadChannel)),
        double_data_rate: false,
    }
}

pub fn program_command<'a>(cfg: &FlashConfig, address: u32, block: &'a [u8]) -> (r: QspiWriteCommand<'a>)
    ensures
        r == spec_program_command(*cfg, address, block),
{
    QspiWriteCommand {
        instruction: Some((Opcode::QIOFastProgramm.code(), QspiMode::QuadChannel)),
        address: Some((address, QspiMode::QuadChannel)),
        alternative_bytes: None,
        dummy_cycles: cfg.write_dumy_cycles,
        data: Some((block, QspiMode::QuadChannel)),
        double_data_rate: false,
    }
}

/// The JEDEC ID read: on four lines or on one.
pub open spec fn spec_jedec_id_command(use_qspi: bool) -> QspiReadCommand<'static> {
    QspiReadCommand {
        instruction: if use_qspi {
            Some((Opcode::ReadJedecIdMIO.spec_code(), QspiMode::QuadChannel))
        } else {
            Some((Opcode::ReadJedecId.spec_code(), QspiMode::SingleChannel))
        },
        address: None,
        alternative_bytes: None,
        dummy_cycles: 0,
        data_mode: if use_qspi {
            QspiMode::QuadChannel
        } else {
            QspiMode::SingleChannel
        },
        receive_length: 3,
        double_data_rate: false,
    }
}

pub fn jedec_id_command(use_qspi: bool) -> (r: QspiReadCommand<'static>)
    ensures
        r == spec_jedec_id_command(use_qspi),
{
    QspiReadCommand {
        instruction: if use_qspi {
            Some((Opcode::ReadJedecIdMIO.code(), QspiMode::QuadChannel))
        } else {
            Some((Opcode::ReadJedecId.code(), QspiMode::SingleChannel))
        },
        address: None,
        alternative_bytes: None,
        dummy_cycles: 0,
        data_mode: if use_qspi {
            QspiMode::QuadChannel
        } else {
            QspiMode::SingleChannel
        },
        receive_length: 3,
        double_data_rate: false,
    }
}

/// Whether three ID bytes are what an absent chip answers: all low or all high.
pub open spec fn spec_no_chip(id: Seq<u8>) -> bool {
    id =~= seq![0u8, 0u8, 0u8] || id =~= seq![0xffu8, 0xffu8, 0xffu8]
}

/// The identification in a JEDEC ID answer, `Unknown` where no chip answered.
pub fn identify(id: &[u8; 3]) -> (r: Result<Identification, QspiError>)
    ensures
        spec_no_chip(id@) ==> r == Err::<Identification, QspiError>(QspiError::Unknown),
        !spec_no_chip(id@) ==> (r matches Ok(i) && i.mfr == id@[0] && i.memory_type == id@[1]
            && i.capacity == id@[2]),
{
    if (id[0] == 0 && id[1] == 0 && id[2] == 0) || (id[0] == 0xff && id[1] == 0xff && id[2]
        == 0xff) {
        proof {
            if id[0] == 0 {
                assert(id@ =~= seq![0u8, 0u8, 0u8]);
            } else {
                assert(id@ =~= seq![0xffu8, 0xffu8, 0xffu8]);
            }
        }
        Err(QspiError::Unknown)
    } else {
        proof {
            if id@ =~= seq![0u8, 0u8, 0u8] {
                assert(id@[0] == 0 && id@[1] == 0 && id@[2] == 0);
            }
            if id@ =~= seq![0xffu8, 0xffu8, 0xffu8] {
                assert(id@[0] == 0xff && id@[1] == 0xff && id@[2] == 0xff);
            }
        }
        Ok(Identification::from_jedec_id(id))
    }
}

/// What reading a JEDEC ID gives where the channel received `bytes` with
/// outcome `t`: the channel's error, `Unknown` where no chip answered, else the
/// identification in the bytes.
pub open spec fn spec_jedec_answer(
    bytes: Seq<u8>,
    t: Result<(), QspiError>,
    r: Result<Identification, QspiError>,
) -> bool {
    match t {
        Err(e) => r == Err::<Identification, QspiError>(e),
        Ok(_) => if spec_no_chip(bytes) {
            r == Err::<Identification, QspiError>(QspiError::Unknown)
        } else {
            r matches Ok(i) && i.mfr == bytes[0] && i.memory_type == bytes[1] && i.capacity
                == bytes[2]
        },
    }
}

/// `n` is `o` followed by the JEDEC ID read of `use_qspi`, which received three
/// bytes, and `r` is what those bytes and the channel's answer give.
pub open spec fn spec_jedec_read(
    o: Seq<QspiOp>,
    n: Seq<QspiOp>,
    use_qspi: bool,
    r: Result<Identification, QspiError>,
) -> bool {
    &&& n.len() == o.len() + 1
    &&& n.drop_last() == o
    &&& n.last() matches QspiOp::Transfer(cmd, bytes, t) && cmd == spec_read_view(
        spec_jedec_id_command(use_qspi),
    ) && bytes.len() == 3 && spec_jedec_answer(bytes, t, r)
}

/// Reads the JEDEC ID of the chip on `qspi`; fails as the transfer failed, or
/// with `Unknown` where no chip answered.
pub fn get_jedec_id_cfg<Q: IQspi>(qspi: &mut Q, use_qspi: bool) -> (r: Result<
    Identification,
    QspiError,
>)
    ensures
        spec_jedec_read(old(qspi).spec_requests(), final(qspi).spec_requests(), use_qspi, r),
        r matches Ok(i) ==> !spec_no_chip(seq![i.mfr, i.memory_type, i.capacity]),
{
    let ghost o = qspi.spec_requests();
    let mut id_arr: [u8; 3] = [0, 0, 0];
    let cmd = jedec_id_command(use_qspi);
    let t = qspi.transfer(cmd, &mut id_arr);
    let ghost n = qspi.spec_requests();
    proof {
        assert(n.drop_last() =~= o);
        assert(n.last() == QspiOp::Transfer(spec_read_view(cmd), id_arr@, t));
    }
    match t {
        Ok(()) => {},
        Err(e) => {
            return Err(e);
        },
    }
    let r = identify(&id_arr);
    proof {
        if r is Ok {
            assert(seq![r->Ok_0.mfr, r->Ok_0.memory_type, r->Ok_0.capacity] =~= id_arr@);
        }
    }
    r
}

/// The first configuration in `configs` for the chip that `id` names: same
/// manufacturer, same capacity code.
pub fn select_flash_config(configs: &[FlashConfig], id: &Identification) -> (r: Option<FlashConfig>)
    ensures
        r matches Some(c) ==> exists|i: int|
            0 <= i < configs@.len() && configs@[i] == c && c.vendor_id == id.mfr && c.capacity_code
                == id.capacity && forall|j: int|
                0 <= j < i ==> !(configs@[j].vendor_id == id.mfr && configs@[j].capacity_code
                    == id.capacity),
        r is None ==> forall|j: int|
            0 <= j < configs@.len() ==> !(configs@[j].vendor_id == id.mfr
                && configs@[j].capacity_code == id.capacity),
{
    let mut i: usize = 0;
    while i < configs.len()
        invariant
            i <= configs@.len(),
            forall|j: int|
                0 <= j < i ==> !(configs@[j].vendor_id == id.mfr && configs@[j].capacity_code
                    == id.capacity),
        decreases configs@.len() - i,
    {
        let c = configs[i];
        if c.vendor_id == id.mfr_code() && c.capacity_code == id.device_id()[1] {
            return Some(c);
        }
        i = i + 1;
    }
    None
}

/// The pieces of a write of `len` bytes, at most `max` bytes each: the
/// half-open ranges `[k * max, min((k + 1) * max, len))`.
pub fn write_chunks(len: usize, max: usize) -> (r: Vec<(usize, usize)>)
    requires
        max > 0,
    ensures
        r@.len() == (if len == 0 { 0 } else { (len - 1) / (max as int) + 1 }),
        forall|k: int|
            0 <= k < r@.len() ==> {
                &&& r@[k].0 == k * max
                &&& r@[k].1 == if len - k * max >= max { k * max + max } else { len as int }
            },
{
    let mut r: Vec<(usize, usize)> = Vec::new();
    let mut start: usize = 0;
    let ghost mut k: int = 0;
    while start < len
        invariant
            max > 0,
            0 <= k,
            start <= len,
            r@.len() == k,
            start < len ==> start == k * max,
            start == len && k > 0 ==> (k - 1) * max < len <= k * max,
            k == 0 ==> start == 0,
            forall|j: int|
                0 <= j < r@.len() ==> {
                    &&& r@[j].0 == j * max
                    &&& r@[j].1 == if len - j * max >= max { j * max + max } else { len as int }
                },
        decreases len - start,
    {
        let end = if len - start >= max {
            start + max
        } else {
            len
        };
        r.push((start, end));
        proof {
            k = k + 1;
            assert(start == (k - 1) * max);
            assert((k - 1) * max + max == k * max) by (nonlinear_arith);
        }
        start = end;
    }
    proof {
        if len > 0 {
            assert(k > 0);
            assert((len - 1) / (max as int) + 1 == k) by (nonlinear_arith)
                requires
                    (k - 1) * max < len,
                    len <= k * max,
                    max > 0,
                    k >= 1,
            ;
        }
    }
    r
}

/// Whether the chip is asleep, about to sleep, or awake.
#[derive(Copy, Clone, Debug, PartialEq, Eq, Structural)]
pub enum SleepState {
    Slepping,
    Working,
}

/// The command that starts memory-mapped reads: the quad fast read from
/// address 0 with the chip's dummy cycles, one data byte as placeholder.
pub open spec fn spec_memory_mapping_view(cfg: FlashConfig) -> WriteCommandView {
    WriteCommandView {
        instruction: Some((Opcode::QIOFastRead.spec_code(), QspiMode::QuadChannel)),
        address: Some((0, QspiMode::QuadChannel)),
        alternative_bytes: None,
        dummy_cycles: cfg.read_dumy_cycles,
        data: Some((seq![0u8], QspiMode::QuadChannel)),
        double_data_rate: false,
    }
}

/// A flash chip on a QSPI channel.
pub struct QSpiDriver<Q> {
    qspi: Q,
    config: FlashConfig,
    extender_value: u32,
    sleep_state: SleepState,
    dual: bool,
}

impl<Q: IQspi> QSpiDriver<Q> {
    pub closed spec fn spec_config(&self) -> FlashConfig {
        self.config
    }

    pub closed spec fn spec_extender_value(&self) -> u32 {
        self.extender_value
    }

    pub closed spec fn spec_sleep_state(&self) -> SleepState {
        self.sleep_state
    }

    pub closed spec fn spec_dual(&self) -> bool {
        self.dual
    }

    /// The requests made of the driver's channel, oldest first, with the
    /// channel's answers.
    pub closed spec fn requests(&self) -> Seq<QspiOp> {
        self.qspi.spec_requests()
    }

    /// A driver for a chip of `config`, asleep, with the extender register at a
    /// value that no segment has, so that the first access sets it.
    pub fn new(qspi: Q, config: FlashConfig, dual: bool) -> (r: Self)
        ensures
            r.spec_config() == config,
            r.spec_extender_value() == 0xff,
            r.spec_sleep_state() == SleepState::Slepping,
            r.spec_dual() == dual,
            r.requests() == qspi.spec_requests(),
    {
        QSpiDriver { qspi, config, extender_value: 0xff, sleep_state: SleepState::Slepping, dual }
    }

    /// A driver for the chip that `id` names on `qspi`: the channel is set to
    /// the fail-safe settings, the chip's kind is looked up in `configs`, and
    /// the chip is woken. Fails with `Unknown` for a chip of no known kind.
    pub fn init(qspi: Q, id: &Identification, configs: &[FlashConfig], dual: bool, sys_clk_hz: u32) -> (r:
        Result<Self, QspiError>)
        ensures
            r matches Ok(d) ==> d.spec_sleep_state() == SleepState::Working && d.spec_dual() == dual
                && d.spec_extender_value() == 0xff && d.spec_config().vendor_id == id.mfr
                && d.spec_config().capacity_code == id.capacity
                && d.requests().drop_last() == qspi.spec_requests()
                && d.requests().last() is ApplyConfig
                && d.requests().last()->ApplyConfig_0@ == super::spec_failsafe_view(sys_clk_hz),
            r is Err ==> forall|j: int|
                0 <= j < configs@.len() ==> !(configs@[j].vendor_id == id.mfr
                    && configs@[j].capacity_code == id.capacity),
    {
        let mut qspi = qspi;
        let cfg = super::failsafe_config(sys_clk_hz);
        qspi.apply_config(cfg);
        let config = match select_flash_config(configs, id) {
            Some(c) => c,
            None => {
                return Err(QspiError::Unknown);
            },
        };
        let mut res = QSpiDriver {
            qspi,
            config,
            extender_value: 0xff,
            sleep_state: SleepState::Slepping,
            dual,
        };
        res.wake_up()?;
        Ok(res)
    }

    /// Whether the channel is in memory-mapped mode, as its mode field says.
    pub fn is_memory_mapped(&self) -> bool {
        self.qspi.fmode() == FMODE_MEMORY_MAPPED
    }

    /// Stops memory-mapped mode: the channel's transfer is aborted.
    pub fn cancel_memory_mapping(&mut self) -> (r: Result<(), QspiError>)
        ensures
            r is Ok,
            final(self).requests() == old(self).requests().push(QspiOp::Abort),
            final(self).spec_config() == old(self).spec_config(),
            final(self).spec_extender_value() == old(self).spec_extender_value(),
            final(self).spec_sleep_state() == old(self).spec_sleep_state(),
            final(self).spec_dual() == old(self).spec_dual(),
    {
        self.set_memory_mapping_mode(false)
    }

    /// Stops memory-mapped mode, or starts it where the channel is not in it
    /// yet.
    pub fn set_memory_mapping_mode(&mut self, enable: bool) -> (r: Result<(), QspiError>)
        ensures
            !enable ==> r is Ok && final(self).requests() == old(self).requests().push(
                QspiOp::Abort,
            ),
            enable ==> (r is Ok && final(self).requests() == old(self).requests())
                || final(self).requests() == old(self).requests().push(
                QspiOp::MemoryMapping(spec_memory_mapping_view(old(self).spec_config()), r),
            ),
            final(self).spec_config() == old(self).spec_config(),
            final(self).spec_extender_value() == old(self).spec_extender_value(),
            final(self).spec_sleep_state() == old(self).spec_sleep_state(),
            final(self).spec_dual() == old(self).spec_dual(),
    {
        if enable {
            if self.is_memory_mapped() {
                return Ok(());
            }
            let dummy: [u8; 1] = [0];
            let cmd = QspiWriteCommand {
                instruction: Some((Opcode::QIOFastRead.code(), QspiMode::QuadChannel)),
                address: Some((0, QspiMode::QuadChannel)),
                alternative_bytes: None,
                dummy_cycles: self.config.read_dumy_cycles,
                data: Some((dummy.as_slice(), QspiMode::QuadChannel)),
                double_data_rate: false,
            };
            proof {
                assert(dummy@ =~= seq![0u8]);
                assert(spec_write_view(cmd) == spec_memory_mapping_view(self.config));
            }
            self.qspi.start_memory_mapping(cmd)
        } else {
            self.qspi.abort_transmission();
            Ok(())
        }
    }

    /// Sends the deep-sleep command after stopping memory-mapped mode; the chip
    /// counts as asleep once the command went out.
    pub fn enter_sleep(&mut self) -> (r: Result<(), QspiError>)
        ensures
            final(self).requests() == old(self).requests().push(QspiOp::Abort).push(
                QspiOp::Write(
                    spec_write_view(
                        spec_instruction_only(old(self).spec_config().enter_deep_sleep_command_code),
                    ),
                    r,
                ),
            ),
            r is Ok ==> final(self).spec_sleep_state() == SleepState::Slepping,
            r is Err ==> final(self).spec_sleep_state() == old(self).spec_sleep_state(),
            final(self).spec_config() == old(self).spec_config(),
            final(self).spec_extender_value() == old(self).spec_extender_value(),
            final(self).spec_dual() == old(self).spec_dual(),
    {
        self.cancel_memory_mapping()?;
        let cmd = instruction_only(self.config.enter_deep_sleep_command_code);
        self.qspi.write(cmd)?;
        self.sleep_state = SleepState::Slepping;
        Ok(())
    }

    /// Bytes that the driver sees.
    pub fn get_capacity(&self) -> (r: usize)
        requires
            self.spec_config().spec_capacity(self.spec_dual()) <= usize::MAX,
        ensures
            r == self.spec_config().spec_capacity(self.spec_dual()),
    {
        self.config.capacity(self.dual)
    }

    pub fn config(&self) -> (r: &FlashConfig)
        ensures
            *r == self.spec_config(),
    {
        &self.config
    }

    /// Hands `cfg` to the channel.
    pub fn apply_qspi_config(&mut self, cfg: QspiConfig)
        ensures
            final(self).requests() == old(self).requests().push(QspiOp::ApplyConfig(cfg)),
            final(self).spec_config() == old(self).spec_config(),
            final(self).spec_extender_value() == old(self).spec_extender_value(),
            final(self).spec_sleep_state() == old(self).spec_sleep_state(),
            final(self).spec_dual() == old(self).spec_dual(),
    {
        self.qspi.apply_config(cfg);
    }

    /// Sets the write enable latch; run before each program or erase.
    pub fn write_enable(&mut self) -> (r: Result<(), QspiError>)
        ensures
            final(self).requests() == old(self).requests().push(
                QspiOp::Write(spec_write_view(spec_instruction_only(Opcode::WriteEnable.spec_code())), r),
            ),
            final(self).spec_config() == old(self).spec_config(),
            final(self).spec_extender_value() == old(self).spec_extender_value(),
            final(self).spec_sleep_state() == old(self).spec_sleep_state(),
            final(self).spec_dual() == old(self).spec_dual(),
    {
        let cmd = instruction_only(Opcode::WriteEnable.code());
        self.qspi.write(cmd)
    }

    /// Runs `command` and receives into `buffer`.
    pub fn raw_read(&mut self, command: QspiReadCommand, buffer: &mut [u8]) -> (r: Result<
        (),
        QspiError,
    >)
        ensures
            final(buffer)@.len() == old(buffer)@.len(),
            final(self).requests() == old(self).requests().push(
                QspiOp::Transfer(spec_read_view(command), final(buffer)@, r),
            ),
            final(self).spec_config() == old(self).spec_config(),
            final(self).spec_extender_value() == old(self).spec_extender_value(),
            final(self).spec_sleep_state() == old(self).spec_sleep_state(),
            final(self).spec_dual() == old(self).spec_dual(),
    {
        self.qspi.transfer(command, buffer)
    }

    /// Sends `command`.
    pub fn raw_write(&mut self, command: QspiWriteCommand) -> (r: Result<(), QspiError>)
        ensures
            final(self).requests() == old(self).requests().push(
                QspiOp::Write(spec_write_view(command), r),
            ),
            final(self).spec_config() == old(self).spec_config(),
            final(self).spec_extender_value() == old(self).spec_extender_value(),
            final(self).spec_sleep_state() == old(self).spec_sleep_state(),
            final(self).spec_dual() == old(self).spec_dual(),
    {
        self.qspi.write(command)
    }

    /// Reads `dest.len()` bytes from `start_address` of the current segment
    /// with the quad fast read, after stopping memory-mapped mode.
    pub fn read_direct(&mut self, start_address: u32, dest: &mut [u8]) -> (r: Result<
        (),
        QspiError,
    >)
        ensures
            final(dest)@.len() == old(dest)@.len(),
            final(self).requests() == old(self).requests().push(QspiOp::Abort).push(
                QspiOp::Transfer(
                    spec_read_view(
                        spec_read_command(
                            old(self).spec_config(),
                            start_address,
                            old(dest)@.len() as u32,
                        ),
                    ),
                    final(dest)@,
                    r,
                ),
            ),
            final(self).spec_config() == old(self).spec_config(),
            final(self).spec_extender_value() == old(self).spec_extender_value(),
            final(self).spec_sleep_state() == old(self).spec_sleep_state(),
            final(self).spec_dual() == old(self).spec_dual(),
    {
        self.cancel_memory_mapping()?;
        let cmd = read_command(&self.config, start_address, dest.len() as u32);
        self.raw_read(cmd, dest)
    }

    /// Selects address segment `extender_value`. The register is written only
    /// where it holds another value; the driver remembers the value once the
    /// write went out.
    pub fn set_addr_extender(&mut self, extender_value: u32) -> (r: Result<(), QspiError>)
        ensures
            old(self).spec_extender_value() == extender_value ==> r is Ok && *final(self)
                == *old(self),
            r is Ok ==> final(self).spec_extender_value() == extender_value,
            r is Err ==> final(self).spec_extender_value() == old(self).spec_extender_value(),
            final(self).spec_config() == old(self).spec_config(),
            final(self).spec_sleep_state() == old(self).spec_sleep_state(),
            final(self).spec_dual() == old(self).spec_dual(),
    {
        if self.extender_value != extender_value {
            self.cancel_memory_mapping()?;
            let n = address_bytes(self.config.address_size);
            let bytes: [u8; 4] = [
                (extender_value % 256) as u8,
                ((extender_value / 256) % 256) as u8,
                ((extender_value / 65536) % 256) as u8,
                (extender_value / 16777216) as u8,
            ];
            let (data, _) = bytes.as_slice().split_at(n);
            let cmd = QspiWriteCommand {
                instruction: Some((Opcode::WriteAddrExtanderReg.code(), QspiMode::QuadChannel)),
                address: None,
                alternative_bytes: None,
                dummy_cycles: 0,
                data: Some((data, QspiMode::QuadChannel)),
                double_data_rate: false,
            };
            self.raw_write(cmd)?;
            self.extender_value = extender_value;
        }
        Ok(())
    }

    /// Wakes the chip; it counts as working afterwards.
    pub fn wake_up(&mut self) -> (r: Result<(), QspiError>)
        ensures
            r is Ok,
            final(self).spec_sleep_state() == SleepState::Working,
            final(self).spec_config() == old(self).spec_config(),
            final(self).spec_extender_value() == old(self).spec_extender_value(),
            final(self).spec_dual() == old(self).spec_dual(),
            final(self).requests() == old(self).requests(),
    {
        self.sleep_state = SleepState::Working;
        Ok(())
    }

    /// Marks the chip as free to sleep; the chip is kept awake.
    pub fn want_sleep(&mut self)
        ensures
            *final(self) == *old(self),
    {
    }
}

/// A flash chip as the storage uses it. The requests that the storage makes
/// of the chip are described by what they add to `spec_ops`.
pub trait FlashDriver {
    /// The requests made of the chip so far, oldest first, with its answers.
    /// A driver that Verus checks gives its own; the default only lets a
    /// driver outside the proofs be written without one.
    open spec fn spec_ops(&self) -> Seq<FlashOp> {
        Seq::empty()
    }

    fn get_capacity(&self) -> usize;

    fn erase(&mut self) -> (r: Result<(), QspiError>)
        ensures
            final(self).spec_ops() == old(self).spec_ops().push(FlashOp::Erase(r)),
    ;

    /// Run this before any write operation.
    fn write_enable(&mut self) -> Result<(), QspiError>;

    /// A slice behind `&mut` keeps its length.
    fn raw_read(&mut self, command: QspiReadCommand, buffer: &mut [u8]) -> (r: Result<
        (),
        QspiError,
    >)
        ensures
            final(buffer)@.len() == old(buffer)@.len(),
    ;

    fn raw_write(&mut self, command: QspiWriteCommand) -> Result<(), QspiError>;

    /// Reads `dest.len()` bytes at `start_address` of the current segment.
    fn read_direct(&mut self, start_address: u32, dest: &mut [u8]) -> (r: Result<(), QspiError>)
        ensures
            final(dest)@.len() == old(dest)@.len(),
            final(self).spec_ops() == old(self).spec_ops().push(
                FlashOp::ReadDirect(start_address, final(dest)@, r),
            ),
    ;

    /// Writes `data` at `start_address` of the current segment.
    fn write_block(&mut self, start_address: u32, data: &[u8]) -> (r: Result<(), QspiError>)
        ensures
            final(self).spec_ops() == old(self).spec_ops().push(
                FlashOp::WriteBlock(start_address, data@, r),
            ),
    ;

    /// Whether `c` is what `config` answers for this chip. A driver that does
    /// not describe it keeps this open.
    open spec fn spec_config_is(&self, c: FlashConfig) -> bool {
        true
    }

    fn config(&self) -> (r: FlashConfig)
        ensures
            self.spec_config_is(r),
    ;

    fn apply_qspi_config(&mut self, cfg: QspiConfig);

    fn set_memory_mapping_mode(&mut self, enable: bool) -> Result<(), QspiError>;

    /// Selects address segment `extender_value`.
    fn set_addr_extender(&mut self, extender_value: u32) -> (r: Result<(), QspiError>)
        ensures
            final(self).spec_ops() == old(self).spec_ops().push(
                FlashOp::SetExtender(extender_value, r),
            ),
    ;

    fn wake_up(&mut self) -> (r: Result<(), QspiError>)
        ensures
            final(self).spec_ops() == old(self).spec_ops().push(FlashOp::WakeUp(r)),
    ;

    fn want_sleep(&mut self)
        ensures
            final(self).spec_ops() == old(self).spec_ops().push(FlashOp::WantSleep),
    ;
}

} // verus!
