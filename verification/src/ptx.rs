//! Transceive mode and its send and receive cycle.

use crate::config::Configuration;
use crate::device::{Command, Device, Holder, Request};
use crate::holder::UsingDevice;
use crate::registers::{FifoStatus, Register, Status};
use crate::rxtx::{Received, ReceivedView, SendReceiveResult, SendReceiveResultView};
use crate::script::{
    byte_of, data_of, lemma_finish, lemma_start, lemma_step, ran, single, status_of,
    step_chip_enable, step_command, step_read_payload, step_read_width, step_write,
    step_write_payload, verdict, Step,
};
use vstd::prelude::*;

verus! {

/// In PTX mode, the device transmits packets immediately, and receives
/// packets only as acknowledge payloads. It's the complement to PRX mode
#[derive(Debug)]
pub struct PtxMode<D: Device> {
    device: D,
}

impl<D: Device> Holder<D> for PtxMode<D> {
    closed spec fn held(&self) -> D {
        self.device
    }
}

impl<D: Device> UsingDevice<D> for PtxMode<D> {
    fn device(&mut self) -> (device: &mut D) {
        &mut self.device
    }
}

impl<D: Device> Configuration<D> for PtxMode<D> {}

/// The payload to send as a plain value.
pub open spec fn payload_of(send: Option<&[u8]>) -> Option<Seq<u8>> {
    match send {
        Some(payload) => Some(payload@),
        None => None,
    }
}

/// Whether a cycle drops the packet at the head of the transmit FIFO: when
/// it has reached the retransmit limit.
pub open spec fn drops(status: Status) -> bool {
    status.max_rt()
}

/// Whether a cycle sends: when there is a payload to send and the transmit
/// FIFO has room for it.
pub open spec fn sends(send: Option<Seq<u8>>, fifo_status: FifoStatus) -> bool {
    !fifo_status.tx_full() && send is Some
}

/// Whether a cycle receives: when the receive FIFO holds a payload.
pub open spec fn receives(fifo_status: FifoStatus) -> bool {
    !fifo_status.rx_empty()
}

/// The script of one cycle, given the status and the FIFO status that its
/// first step read.
///
/// A packet that has reached the retransmit limit is flushed and its flag
/// cleared before anything is sent: it would block the transmit FIFO
/// otherwise. Then the payload is written and the chip-enable line driven
/// high, and last the waiting payload is read: its width, then that many
/// bytes.
pub open spec fn send_receive_steps(
    send: Option<Seq<u8>>,
    status: Status,
    fifo_status: FifoStatus,
) -> Seq<Step> {
    single(Request::ReadRegister(Register::FifoStatus)) + (if drops(status) {
        seq![
            Step::Request(Request::Command(Command::FlushTx)),
            Step::Request(Request::WriteRegister(Register::Status, 0x10)),
        ]
    } else {
        Seq::empty()
    }) + (if sends(send, fifo_status) {
        seq![Step::Request(Request::WriteTxPayload(send->0)), Step::ChipEnable(true)]
    } else {
        Seq::empty()
    }) + (if receives(fifo_status) {
        seq![Step::Request(Request::ReadRxPayloadWidth), Step::ReadReportedPayload]
    } else {
        Seq::empty()
    })
}

/// What a cycle that ran to its end returns, given the status and the FIFO
/// status that its first step read and the data that its last step
/// returned.
pub open spec fn send_receive_result(
    send: Option<Seq<u8>>,
    status: Status,
    fifo_status: FifoStatus,
    data: Seq<u8>,
) -> SendReceiveResultView {
    SendReceiveResultView {
        received: if receives(fifo_status) {
            Some(ReceivedView { pipe: status.rx_p_no(), payload: data })
        } else {
            None
        },
        sent: sends(send, fifo_status),
        dropped: drops(status),
    }
}

/// Whether `step` puts a payload into the transmit FIFO.
pub open spec fn writes_payload(step: Step) -> bool {
    step matches Step::Request(Request::WriteTxPayload(_))
}

/// A packet that has reached the retransmit limit is dropped before
/// anything else is done: right after the first read the transmit FIFO is
/// flushed and the flag cleared, and the result reports the drop. Without a
/// payload to send nothing is sent.
pub proof fn lemma_drop_comes_first(
    send: Option<Seq<u8>>,
    status: Status,
    fifo_status: FifoStatus,
    data: Seq<u8>,
)
    requires
        status.max_rt(),
    ensures
        send_receive_steps(send, status, fifo_status).len() >= 3,
        send_receive_steps(send, status, fifo_status)[1] == Step::Request(
            Request::Command(Command::FlushTx),
        ),
        send_receive_steps(send, status, fifo_status)[2] == Step::Request(
            Request::WriteRegister(Register::Status, 0x10),
        ),
        send_receive_result(send, status, fifo_status, data).dropped,
        send is None ==> !send_receive_result(send, status, fifo_status, data).sent,
{
}

/// While the transmit FIFO is full no payload is written, whatever was to
/// be sent, and the result reports that nothing was sent.
pub proof fn lemma_full_fifo_takes_no_payload(
    send: Option<Seq<u8>>,
    status: Status,
    fifo_status: FifoStatus,
    data: Seq<u8>,
)
    requires
        fifo_status.tx_full(),
    ensures
        forall|i: int|
            0 <= i < send_receive_steps(send, status, fifo_status).len() ==> !writes_payload(
                #[trigger] send_receive_steps(send, status, fifo_status)[i],
            ),
        !send_receive_result(send, status, fifo_status, data).sent,
{
}

/// Whether `step` drives the chip-enable line low.
pub open spec fn lowers_chip_enable(step: Step) -> bool {
    step == Step::ChipEnable(false)
}

/// No cycle drives the chip-enable line low: once high for a payload, it
/// stays high.
pub proof fn lemma_chip_enable_is_never_lowered(
    send: Option<Seq<u8>>,
    status: Status,
    fifo_status: FifoStatus,
)
    ensures
        forall|i: int|
            0 <= i < send_receive_steps(send, status, fifo_status).len() ==> !lowers_chip_enable(
                #[trigger] send_receive_steps(send, status, fifo_status)[i],
            ),
{
}

/// With nothing to drop, nothing to send and nothing to receive, a cycle
/// only reads the status.
pub proof fn lemma_idle_cycle_only_reads(status: Status, fifo_status: FifoStatus, data: Seq<u8>)
    requires
        !status.max_rt(),
        fifo_status.rx_empty(),
    ensures
        send_receive_steps(None, status, fifo_status) == single(
            Request::ReadRegister(Register::FifoStatus),
        ),
        send_receive_result(None, status, fifo_status, data) == (SendReceiveResultView {
            received: None,
            sent: false,
            dropped: false,
        }),
{
}

impl<D: Device> PtxMode<D> {
    /// Runs one cycle: drops a packet that has reached the retransmit
    /// limit, sends `send` if the transmit FIFO has room, and receives what
    /// waits in the receive FIFO.
    ///
    /// The chip-enable line, once driven high for a payload, is left high.
    pub fn send_receive(&mut self, send: Option<&[u8]>) -> (result: Result<
        SendReceiveResult,
        D::Error,
    >)
        ensures
            ({
                let before = old(self).held().history();
                let after = final(self).held().history();
                let first = after[before.len() as int];
                let status = status_of(first);
                let fifo_status = FifoStatus(byte_of(first));
                &&& ran(before, after, send_receive_steps(payload_of(send), status, fifo_status))
                &&& match result {
                    Ok(outcome) => verdict(before, after) is Ok && outcome@ == send_receive_result(
                        payload_of(send),
                        status,
                        fifo_status,
                        data_of(after.last()),
                    ),
                    Err(error) => verdict(before, after) == Err::<(), D::Error>(error),
                }
            }),
    {
        let ghost before = self.device.history();
        let first = self.device.read_register(Register::FifoStatus);
        let ghost status = status_of(self.device.history().last());
        let ghost fifo_status = FifoStatus(byte_of(self.device.history().last()));
        let ghost steps = send_receive_steps(payload_of(send), status, fifo_status);
        proof {
            lemma_start(before, steps);
            lemma_step(before, before, self.device.history().last(), steps);
        }
        let (status, byte) = first?;
        let fifo_status = FifoStatus(byte);
        let dropped = match status.max_rt() {
            true => {
                step_command(&mut self.device, Command::FlushTx, Ghost(before), Ghost(steps))?;
                let mut clear_max_rt = Status(0);
                clear_max_rt.set_max_rt(true);
                step_write(
                    &mut self.device,
                    Register::Status,
                    clear_max_rt.0,
                    Ghost(before),
                    Ghost(steps),
                )?;
                true
            },
            false => false,
        };
        let sent = match (fifo_status.tx_full(), send) {
            (true, _) => false,
            (false, None) => false,
            (false, Some(payload)) => {
                step_write_payload(&mut self.device, payload, Ghost(before), Ghost(steps))?;
                step_chip_enable(&mut self.device, true, Ghost(before), Ghost(steps));
                true
            },
        };
        let received = match fifo_status.rx_empty() {
            true => None,
            false => {
                let (_, payload_width) = step_read_width(
                    &mut self.device,
                    Ghost(before),
                    Ghost(steps),
                )?;
                let (_, payload) = step_read_payload(
                    &mut self.device,
                    payload_width,
                    Ghost(before),
                    Ghost(steps),
                )?;
                Some(Received { pipe: status.rx_p_no(), payload })
            },
        };
        proof {
            lemma_finish(before, self.device.history(), steps);
        }
        Ok(SendReceiveResult { sent, received, dropped })
    }

    /// Relies on everything being set up by `StandbyMode::ptx()`, from
    /// which it is called.
    pub(crate) fn new(device: D) -> (mode: Self)
        ensures
            mode.held() == device,
    {
        PtxMode { device }
    }
}

} // verus!
