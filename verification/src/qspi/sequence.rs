//! The order of the register operations of each QSPI operation, for a channel
//! that owns the peripheral and for one that shares it with the other bank.
//!
//! The values written come from the register plans; the operations that wait
//! on or test a status flag are carried out by the caller, which owns the
//! registers.

use vstd::prelude::*;

use super::config::QspiConfig;
use super::plan::{
    alternative_bytes_ok, plan_config, plan_memory_mapping, plan_transfer, plan_write,
    spec_plan_config, spec_plan_memory_mapping, spec_plan_transfer, spec_plan_write, write_data_ok,
    CcrFields, CommandPlan, FMODE_INDIRECT_READ,
};
use super::types::{FlashBank, QspiError, QspiReadCommand, QspiWriteCommand, SampleShift};

verus! {

/// One step of an operation on the peripheral's registers.
#[derive(Copy, Clone, Debug, PartialEq, Eq, Structural)]
pub enum RegOp {
    /// Select the bank: the flash-select and dual-flash bits.
    SelectBank { fsel: bool, dfm: bool },
    /// Stop with `Busy` when the peripheral is busy.
    FailIfBusy,
    /// Abort the running transfer when the peripheral is busy.
    AbortIfBusy,
    /// Wait while the peripheral is busy.
    WaitNotBusy,
    /// Set the sample shift bit.
    SetSampleShift(bool),
    /// Clear the transfer-complete flag.
    ClearTransferComplete,
    /// Write the data length register.
    WriteDlr(u32),
    /// Write the alternate-bytes register.
    WriteAbr(u32),
    /// Write the communication configuration register; `clear_sioo` clears
    /// the send-instruction-only-once bit.
    WriteCcr { ccr: CcrFields, clear_sioo: bool },
    /// Set the functional mode field alone.
    SetFmode(u8),
    /// Write the address register, which starts the command.
    WriteAr(u32),
    /// Stop with the error when the transfer-error flag is set.
    FailIfTransferError(QspiError),
    /// Take the received bytes into the buffer until the transfer completes,
    /// then empty the FIFO.
    ReceiveData,
    /// Put each data byte into the FIFO when it has room.
    SendData,
    /// Wait until the transfer completes.
    WaitTransferComplete,
    /// Set or clear the enable bit.
    Enable(bool),
    /// Set the FIFO threshold.
    SetFifoThreshold(u8),
    /// Write prescaler, flash select, dual flash and sample shift.
    WriteCr { prescaler: u8, fsel: bool, dfm: bool, sshift: bool },
    /// Write flash size, chip-select high time and clock mode.
    WriteDcr { fsize: u8, csht: u8, ckmode: bool },
}

pub open spec fn when(c: bool, s: Seq<RegOp>) -> Seq<RegOp> {
    if c {
        s
    } else {
        Seq::empty()
    }
}

pub open spec fn spec_select(bank: Option<FlashBank>) -> Seq<RegOp> {
    match bank {
        Some(b) => seq![RegOp::SelectBank { fsel: b != FlashBank::Bank1, dfm: b == FlashBank::Both }],
        None => Seq::empty(),
    }
}

/// The sample shift of the settings.
pub open spec fn spec_sshift(c: QspiConfig) -> bool {
    c@.sample_shift == SampleShift::HalfACycle
}

/// The steps of an indirect read. A shared channel (`bank` present) first
/// selects its bank.
pub open spec fn spec_transfer_ops(c: QspiConfig, bank: Option<FlashBank>, p: CommandPlan) -> Seq<
    RegOp,
> {
    spec_select(bank) + seq![RegOp::FailIfBusy] + when(
        p.sshift_off,
        seq![RegOp::SetSampleShift(false)],
    ) + seq![RegOp::WaitNotBusy, RegOp::ClearTransferComplete] + when(
        p.dlr is Some,
        seq![RegOp::WriteDlr(p.dlr->0)],
    ) + when(p.abr is Some, seq![RegOp::WriteAbr(p.abr->0)]) + seq![
        RegOp::WriteCcr { ccr: p.ccr, clear_sioo: false },
    ] + when(
        p.ar is Some,
        seq![RegOp::WriteAr(p.ar->0), RegOp::FailIfTransferError(QspiError::Address)],
    ) + seq![RegOp::FailIfTransferError(QspiError::Unknown), RegOp::ReceiveData] + when(
        p.sshift_off,
        seq![RegOp::AbortIfBusy, RegOp::SetSampleShift(spec_sshift(c))],
    ) + seq![RegOp::WaitNotBusy, RegOp::ClearTransferComplete]
}

/// The steps of an indirect write.
pub open spec fn spec_write_ops(c: QspiConfig, bank: Option<FlashBank>, p: CommandPlan, has_data: bool) -> Seq<
    RegOp,
> {
    spec_select(bank) + seq![RegOp::FailIfBusy, RegOp::ClearTransferComplete] + when(
        p.dlr is Some,
        seq![RegOp::WriteDlr(p.dlr->0)],
    ) + when(p.abr is Some, seq![RegOp::WriteAbr(p.abr->0)]) + when(
        p.sshift_off,
        seq![RegOp::SetSampleShift(false)],
    ) + seq![RegOp::WriteCcr { ccr: p.ccr, clear_sioo: false }] + when(
        p.ar is Some,
        seq![RegOp::WriteAr(p.ar->0)],
    ) + seq![RegOp::FailIfTransferError(QspiError::Unknown)] + when(
        has_data,
        seq![RegOp::SendData],
    ) + seq![RegOp::WaitTransferComplete, RegOp::ClearTransferComplete] + when(
        p.sshift_off,
        seq![RegOp::SetSampleShift(spec_sshift(c))],
    )
}

/// The steps that start memory-mapped mode. A channel that owns the
/// peripheral refuses while busy; a shared one selects its bank after
/// switching the peripheral off.
pub open spec fn spec_memory_mapping_ops(c: QspiConfig, bank: Option<FlashBank>, p: CommandPlan) -> Seq<
    RegOp,
> {
    (match bank {
        None => seq![RegOp::FailIfBusy, RegOp::Enable(false)],
        Some(_) => seq![RegOp::Enable(false), RegOp::SetFmode(FMODE_INDIRECT_READ)],
    }) + spec_select(bank) + seq![RegOp::ClearTransferComplete, RegOp::WriteDlr(p.dlr->0)]
        + when(p.abr is Some, seq![RegOp::WriteAbr(p.abr->0)]) + when(
        p.sshift_off,
        seq![RegOp::SetSampleShift(false)],
    ) + seq![RegOp::WriteCcr { ccr: p.ccr, clear_sioo: true }] + when(
        p.sshift_off,
        seq![RegOp::SetSampleShift(spec_sshift(c))],
    ) + seq![RegOp::Enable(true)]
}

/// The steps that apply settings for `bank`.
pub open spec fn spec_config_ops(c: QspiConfig, bank: FlashBank) -> Seq<RegOp> {
    let r = spec_plan_config(c@, bank);
    seq![
        RegOp::AbortIfBusy,
        RegOp::SetFifoThreshold(r.fthres),
        RegOp::WaitNotBusy,
        RegOp::WriteCr { prescaler: r.prescaler, fsel: r.fsel, dfm: r.dfm, sshift: r.sshift },
        RegOp::WaitNotBusy,
        RegOp::WriteDcr { fsize: r.fsize, csht: r.csht, ckmode: r.ckmode },
        RegOp::WaitNotBusy,
        RegOp::Enable(true),
        RegOp::WaitNotBusy,
    ]
}

fn push_select(ops: &mut Vec<RegOp>, bank: Option<FlashBank>)
    ensures
        final(ops)@ == old(ops)@ + spec_select(bank),
{
    if let Some(b) = bank {
        ops.push(RegOp::SelectBank { fsel: b.to_bank_bit(), dfm: b.is_dual() });
    }
    assert(final(ops)@ =~= old(ops)@ + spec_select(bank));
}

fn sample_shift(c: &QspiConfig) -> (r: bool)
    ensures
        r == spec_sshift(*c),
{
    c.get_sample_shift() == SampleShift::HalfACycle
}

fn push_one(ops: &mut Vec<RegOp>, op: RegOp)
    ensures
        final(ops)@ == old(ops)@ + seq![op],
{
    ops.push(op);
    assert(final(ops)@ =~= old(ops)@ + seq![op]);
}

fn push_two(ops: &mut Vec<RegOp>, a: RegOp, b: RegOp)
    ensures
        final(ops)@ == old(ops)@ + seq![a, b],
{
    ops.push(a);
    ops.push(b);
    assert(final(ops)@ =~= old(ops)@ + seq![a, b]);
}

fn push_when(ops: &mut Vec<RegOp>, c: bool, op: RegOp)
    ensures
        final(ops)@ == old(ops)@ + when(c, seq![op]),
{
    if c {
        ops.push(op);
    }
    assert(final(ops)@ =~= old(ops)@ + when(c, seq![op]));
}

fn push_when_two(ops: &mut Vec<RegOp>, c: bool, a: RegOp, b: RegOp)
    ensures
        final(ops)@ == old(ops)@ + when(c, seq![a, b]),
{
    if c {
        ops.push(a);
        ops.push(b);
    }
    assert(final(ops)@ =~= old(ops)@ + when(c, seq![a, b]));
}

/// The steps of an indirect read of `command`.
pub fn transfer_ops(config: &QspiConfig, bank: Option<FlashBank>, command: &QspiReadCommand) -> (r:
    Vec<RegOp>)
    requires
        alternative_bytes_ok(command.alternative_bytes),
    ensures
        r@ == spec_transfer_ops(*config, bank, spec_plan_transfer(config@, *command)),
{
    let p = plan_transfer(config, command);
    let mut ops: Vec<RegOp> = Vec::new();
    push_select(&mut ops, bank);
    assert(ops@ =~= spec_select(bank));
    push_one(&mut ops, RegOp::FailIfBusy);
    push_when(&mut ops, p.sshift_off, RegOp::SetSampleShift(false));
    push_two(&mut ops, RegOp::WaitNotBusy, RegOp::ClearTransferComplete);
    push_when(&mut ops, p.dlr.is_some(), RegOp::WriteDlr(match p.dlr { Some(d) => d, None => 0 }));
    push_when(&mut ops, p.abr.is_some(), RegOp::WriteAbr(match p.abr { Some(a) => a, None => 0 }));
    push_one(&mut ops, RegOp::WriteCcr { ccr: p.ccr, clear_sioo: false });
    push_when_two(
        &mut ops,
        p.ar.is_some(),
        RegOp::WriteAr(match p.ar { Some(a) => a, None => 0 }),
        RegOp::FailIfTransferError(QspiError::Address),
    );
    push_two(&mut ops, RegOp::FailIfTransferError(QspiError::Unknown), RegOp::ReceiveData);
    push_when_two(
        &mut ops,
        p.sshift_off,
        RegOp::AbortIfBusy,
        RegOp::SetSampleShift(sample_shift(config)),
    );
    push_two(&mut ops, RegOp::WaitNotBusy, RegOp::ClearTransferComplete);
    ops
}

/// The steps of an indirect write of `command`.
pub fn write_ops(config: &QspiConfig, bank: Option<FlashBank>, command: &QspiWriteCommand) -> (r: Vec<
    RegOp,
>)
    requires
        alternative_bytes_ok(command.alternative_bytes),
        write_data_ok(command.data),
    ensures
        r@ == spec_write_ops(*config, bank, spec_plan_write(config@, *command), command.data is Some),
{
    let p = plan_write(config, command);
    let mut ops: Vec<RegOp> = Vec::new();
    push_select(&mut ops, bank);
    assert(ops@ =~= spec_select(bank));
    push_two(&mut ops, RegOp::FailIfBusy, RegOp::ClearTransferComplete);
    push_when(&mut ops, p.dlr.is_some(), RegOp::WriteDlr(match p.dlr { Some(d) => d, None => 0 }));
    push_when(&mut ops, p.abr.is_some(), RegOp::WriteAbr(match p.abr { Some(a) => a, None => 0 }));
    push_when(&mut ops, p.sshift_off, RegOp::SetSampleShift(false));
    push_one(&mut ops, RegOp::WriteCcr { ccr: p.ccr, clear_sioo: false });
    push_when(&mut ops, p.ar.is_some(), RegOp::WriteAr(match p.ar { Some(a) => a, None => 0 }));
    push_one(&mut ops, RegOp::FailIfTransferError(QspiError::Unknown));
    push_when(&mut ops, command.data.is_some(), RegOp::SendData);
    push_two(&mut ops, RegOp::WaitTransferComplete, RegOp::ClearTransferComplete);
    push_when(&mut ops, p.sshift_off, RegOp::SetSampleShift(sample_shift(config)));
    ops
}

/// The steps that start memory-mapped mode with `command`.
pub fn memory_mapping_ops(config: &QspiConfig, bank: Option<FlashBank>, command: &QspiWriteCommand) -> (r:
    Vec<RegOp>)
    requires
        alternative_bytes_ok(command.alternative_bytes),
    ensures
        r@ == spec_memory_mapping_ops(*config, bank, spec_plan_memory_mapping(config@, *command)),
{
    let p = plan_memory_mapping(config, command);
    let mut ops: Vec<RegOp> = Vec::new();
    match bank {
        None => {
            ops.push(RegOp::FailIfBusy);
            ops.push(RegOp::Enable(false));
        },
        Some(_) => {
            ops.push(RegOp::Enable(false));
            ops.push(RegOp::SetFmode(FMODE_INDIRECT_READ));
        },
    }
    let ghost head = ops@;
    push_select(&mut ops, bank);
    ops.push(RegOp::ClearTransferComplete);
    ops.push(RegOp::WriteDlr(u32::MAX));
    if let Some(a) = p.abr {
        ops.push(RegOp::WriteAbr(a));
    }
    if p.sshift_off {
        ops.push(RegOp::SetSampleShift(false));
    }
    ops.push(RegOp::WriteCcr { ccr: p.ccr, clear_sioo: true });
    if p.sshift_off {
        ops.push(RegOp::SetSampleShift(sample_shift(config)));
    }
    ops.push(RegOp::Enable(true));
    assert(ops@ =~= spec_memory_mapping_ops(*config, bank, p));
    ops
}

/// The steps that apply `config` for `bank`.
pub fn config_ops(config: &QspiConfig, bank: FlashBank) -> (r: Vec<RegOp>)
    ensures
        r@ == spec_config_ops(*config, bank),
{
    let r = plan_config(config, bank);
    let mut ops: Vec<RegOp> = Vec::new();
    ops.push(RegOp::AbortIfBusy);
    ops.push(RegOp::SetFifoThreshold(r.fthres));
    ops.push(RegOp::WaitNotBusy);
    ops.push(RegOp::WriteCr { prescaler: r.prescaler, fsel: r.fsel, dfm: r.dfm, sshift: r.sshift });
    ops.push(RegOp::WaitNotBusy);
    ops.push(RegOp::WriteDcr { fsize: r.fsize, csht: r.csht, ckmode: r.ckmode });
    ops.push(RegOp::WaitNotBusy);
    ops.push(RegOp::Enable(true));
    ops.push(RegOp::WaitNotBusy);
    assert(ops@ =~= spec_config_ops(*config, bank));
    ops
}

} // verus!
