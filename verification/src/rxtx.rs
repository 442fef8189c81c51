//! What one cycle of transceive mode yields.

use vstd::prelude::*;

verus! {

/// A payload that was received, with the pipe it came in on.
#[derive(Debug, PartialEq, Eq)]
pub struct Received {
    pub pipe: u8,
    pub payload: Vec<u8>,
}

/// A received payload as a plain value.
pub struct ReceivedView {
    pub pipe: u8,
    pub payload: Seq<u8>,
}

impl View for Received {
    type V = ReceivedView;

    open spec fn view(&self) -> ReceivedView {
        ReceivedView { pipe: self.pipe, payload: self.payload@ }
    }
}

/// What one send and receive cycle did.
#[derive(Debug, PartialEq, Eq)]
pub struct SendReceiveResult {
    /// The payload that was waiting in the receive FIFO, if any.
    pub received: Option<Received>,
    /// Whether the outgoing payload was handed to the chip.
    pub sent: bool,
    /// When a packet is unacknowledged after its maximum retries, this flag
    /// is set: the packet was dropped.
    pub dropped: bool,
}

/// The result of a cycle as a plain value.
pub struct SendReceiveResultView {
    pub received: Option<ReceivedView>,
    pub sent: bool,
    pub dropped: bool,
}

impl View for SendReceiveResult {
    type V = SendReceiveResultView;

    open spec fn view(&self) -> SendReceiveResultView {
        SendReceiveResultView {
            received: match self.received {
                Some(received) => Some(received@),
                None => None,
            },
            sent: self.sent,
            dropped: self.dropped,
        }
    }
}

} // verus!
