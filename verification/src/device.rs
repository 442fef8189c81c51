//! The device: the bus operations that the driver needs from the
//! transceiver, and the history of what was done with it.
//!
//! The driver never touches the bus itself. It works on any type that
//! implements [`Device`], and every contract of the driver is stated over
//! that type's history.

use crate::registers::{Register, Status};
use vstd::prelude::*;

verus! {

/// A command that returns nothing but the status byte.
#[derive(Clone, Copy, Debug, PartialEq, Eq)]
pub enum Command {
    /// Discard what the receive FIFO holds.
    FlushRx,
    /// Discard what the transmit FIFO holds.
    FlushTx,
    /// Do nothing.
    Nop,
}

/// What one bus transaction asks of the device.
pub enum Request {
    /// Read a one-byte register.
    ReadRegister(Register),
    /// Write a one-byte register.
    WriteRegister(Register, u8),
    /// Write an address to an address register.
    WriteAddress(Register, Seq<u8>),
    /// Issue a command.
    Command(Command),
    /// Read the width of the payload at the head of the receive FIFO.
    ReadRxPayloadWidth,
    /// Read that many bytes of payload from the receive FIFO.
    ReadRxPayload(u8),
    /// Put a payload into the transmit FIFO.
    WriteTxPayload(Seq<u8>),
}

/// What a transaction that went through returned: the status byte, which
/// the chip shifts out before it carries the request out, and the data that
/// the request asked for, if any.
pub struct Reply {
    pub status: Status,
    pub data: Seq<u8>,
}

/// One thing that was done with the device.
pub enum Event<E> {
    /// A bus transaction and how it ended.
    Exchange { request: Request, reply: Result<Reply, E> },
    /// The chip-enable line was driven high (`true`) or low (`false`).
    ChipEnable(bool),
}

/// Everything that was done with a device, oldest first.
pub type History<E> = Seq<Event<E>>;

/// The reply of a transaction that returns only the status byte.
pub open spec fn status_reply<E>(result: Result<Status, E>) -> Result<Reply, E> {
    match result {
        Ok(status) => Ok(Reply { status, data: Seq::empty() }),
        Err(error) => Err(error),
    }
}

/// The reply of a transaction that returns the status byte and one byte.
pub open spec fn byte_reply<E>(result: Result<(Status, u8), E>) -> Result<Reply, E> {
    match result {
        Ok((status, byte)) => Ok(Reply { status, data: seq![byte] }),
        Err(error) => Err(error),
    }
}

/// The reply of a transaction that returns the status byte and a payload.
pub open spec fn payload_reply<E>(result: Result<(Status, Vec<u8>), E>) -> Result<Reply, E> {
    match result {
        Ok((status, payload)) => Ok(Reply { status, data: payload@ }),
        Err(error) => Err(error),
    }
}

/// The bus operations of the transceiver.
///
/// An implementation carries each request out on the bus and returns what
/// the chip answered or the bus's own error. Its `history` is the record of
/// the calls made on it: each call adds exactly one event, which holds what
/// was asked and what the call returned, whether the transaction went
/// through or not. The driver's contracts rest on that record and on
/// nothing else: no method promises that a transaction goes through, nor
/// anything of what the chip answers.
pub trait Device: Sized {
    /// The bus's error.
    type Error;

    /// Everything that was done with this device, oldest first.
    ///
    /// The history exists for contracts alone and no code ever calls it. An
    /// implementation that is not itself verified gives it a body that never
    /// returns.
    spec fn history(&self) -> History<Self::Error>;

    /// Reads a one-byte register.
    fn read_register(&mut self, register: Register) -> (result: Result<(Status, u8), Self::Error>)
        ensures
            final(self).history() == old(self).history().push(
                Event::Exchange {
                    request: Request::ReadRegister(register),
                    reply: byte_reply(result),
                },
            ),
    ;

    /// Writes a one-byte register.
    fn write_register(&mut self, register: Register, value: u8) -> (result: Result<
        Status,
        Self::Error,
    >)
        ensures
            final(self).history() == old(self).history().push(
                Event::Exchange {
                    request: Request::WriteRegister(register, value),
                    reply: status_reply(result),
                },
            ),
    ;

    /// Writes an address to an address register.
    fn write_address(&mut self, register: Register, address: &[u8]) -> (result: Result<
        Status,
        Self::Error,
    >)
        ensures
            final(self).history() == old(self).history().push(
                Event::Exchange {
                    request: Request::WriteAddress(register, address@),
                    reply: status_reply(result),
                },
            ),
    ;

    /// Issues a command that returns nothing but the status byte.
    fn send_command(&mut self, command: Command) -> (result: Result<Status, Self::Error>)
        ensures
            final(self).history() == old(self).history().push(
                Event::Exchange {
                    request: Request::Command(command),
                    reply: status_reply(result),
                },
            ),
    ;

    /// Reads the width of the payload at the head of the receive FIFO.
    fn read_rx_payload_width(&mut self) -> (result: Result<(Status, u8), Self::Error>)
        ensures
            final(self).history() == old(self).history().push(
                Event::Exchange {
                    request: Request::ReadRxPayloadWidth,
                    reply: byte_reply(result),
                },
            ),
    ;

    /// Reads `width` bytes of payload from the receive FIFO.
    fn read_rx_payload(&mut self, width: u8) -> (result: Result<(Status, Vec<u8>), Self::Error>)
        ensures
            final(self).history() == old(self).history().push(
                Event::Exchange {
                    request: Request::ReadRxPayload(width),
                    reply: payload_reply(result),
                },
            ),
    ;

    /// Puts a payload into the transmit FIFO.
    fn write_tx_payload(&mut self, payload: &[u8]) -> (result: Result<Status, Self::Error>)
        ensures
            final(self).history() == old(self).history().push(
                Event::Exchange {
                    request: Request::WriteTxPayload(payload@),
                    reply: status_reply(result),
                },
            ),
    ;

    /// Drives the chip-enable line high.
    fn ce_enable(&mut self)
        ensures
            final(self).history() == old(self).history().push(Event::ChipEnable(true)),
    ;

    /// Drives the chip-enable line low.
    fn ce_disable(&mut self)
        ensures
            final(self).history() == old(self).history().push(Event::ChipEnable(false)),
    ;
}

/// What holds a device: every mode of the chip.
pub trait Holder<D: Device> {
    /// The device that is held.
    spec fn held(&self) -> D;
}

} // verus!
