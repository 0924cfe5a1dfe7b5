//! What a driver asks of a QSPI channel.

use vstd::prelude::*;

use super::config::QspiConfig;
use super::types::{
    spec_read_view, spec_write_view, QspiError, QspiReadCommand, QspiWriteCommand, ReadCommandView,
    WriteCommandView,
};

verus! {

/// One request a driver made of its channel, with the channel's answer.
pub enum QspiOp {
    ApplyConfig(QspiConfig),
    Abort,
    /// A receiving command, the bytes received, and the outcome.
    Transfer(ReadCommandView, Seq<u8>, Result<(), QspiError>),
    Write(WriteCommandView, Result<(), QspiError>),
    MemoryMapping(WriteCommandView, Result<(), QspiError>),
}

/// A QSPI channel: a peripheral, or one bank of a shared peripheral. Each
/// request a driver makes of it is described by what it adds to
/// `spec_requests`.
pub trait IQspi {
    /// The requests made of the channel so far, oldest first, with its
    /// answers. A channel that Verus checks gives its own; the default only
    /// lets a channel outside the proofs be written without one.
    open spec fn spec_requests(&self) -> Seq<QspiOp> {
        Seq::empty()
    }

    /// The functional mode field of the peripheral.
    fn fmode(&self) -> u8;

    fn is_busy(&self) -> bool;

    fn abort_transmission(&mut self)
        ensures
            final(self).spec_requests() == old(self).spec_requests().push(QspiOp::Abort),
    ;

    fn get_config(&self) -> QspiConfig;

    fn apply_config(&mut self, config: QspiConfig)
        ensures
            final(self).spec_requests() == old(self).spec_requests().push(
                QspiOp::ApplyConfig(config),
            ),
    ;

    /// Runs `command` and receives into `buffer`. A slice behind `&mut` keeps
    /// its length, so the buffer's length after the call is its length before.
    fn transfer(&mut self, command: QspiReadCommand, buffer: &mut [u8]) -> (r: Result<(), QspiError>)
        ensures
            final(buffer)@.len() == old(buffer)@.len(),
            final(self).spec_requests() == old(self).spec_requests().push(
                QspiOp::Transfer(spec_read_view(command), final(buffer)@, r),
            ),
    ;

    fn write(&mut self, command: QspiWriteCommand) -> (r: Result<(), QspiError>)
        ensures
            final(self).spec_requests() == old(self).spec_requests().push(
                QspiOp::Write(spec_write_view(command), r),
            ),
    ;

    fn start_memory_mapping(&mut self, command: QspiWriteCommand) -> (r: Result<(), QspiError>)
        ensures
            final(self).spec_requests() == old(self).spec_requests().push(
                QspiOp::MemoryMapping(spec_write_view(command), r),
            ),
    ;
}

} // verus!
