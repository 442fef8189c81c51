//! Standby mode and the transitions out of it.
//!
//! A transition consumes the mode it starts from. It yields the next mode,
//! or, where a bus transaction fails, the device with the bus's error: what
//! was written before the failure stays written.

use crate::config::{auto_ack, auto_retransmit, auto_retransmit_value, Configuration};
use crate::device::{Device, Event, History, Holder, Request};
use crate::holder::UsingDevice;
use crate::ptx::PtxMode;
use crate::registers::{Config, Dynpd, Feature, Register};
use crate::rx::RxMode;
use crate::script::{
    lemma_finish, lemma_start, ran, read_modify_write, single, step_chip_enable, step_read,
    step_write, underway, verdict, Step,
};
use crate::tx::TxMode;
use crate::PIPES_COUNT;
use vstd::prelude::*;

verus! {

/// Represents **Standby-I** mode
///
/// This represents the state the device is in inbetween TX or RX
/// mode.
#[derive(Debug)]
pub struct StandbyMode<D: Device> {
    device: D,
}

impl<D: Device> Holder<D> for StandbyMode<D> {
    closed spec fn held(&self) -> D {
        self.device
    }
}

impl<D: Device> UsingDevice<D> for StandbyMode<D> {
    fn device(&mut self) -> (device: &mut D) {
        &mut self.device
    }
}

impl<D: Device> Configuration<D> for StandbyMode<D> {}

/// The script that powers the chip up: a read-modify-write of CONFIG that
/// sets the power-up bit.
pub open spec fn power_up_steps() -> Seq<Step> {
    read_modify_write(Register::Config, |byte: u8| Config(byte).with_pwr_up(true).0)
}

/// The script that makes the chip the primary receiver or transmitter: a
/// read-modify-write of CONFIG that sets or clears the primary-receiver
/// bit.
pub open spec fn prim_rx_steps(prim_rx: bool) -> Seq<Step> {
    read_modify_write(Register::Config, |byte: u8| Config(byte).with_prim_rx(prim_rx).0)
}

/// The script that enters receive mode: the chip becomes the primary
/// receiver, then the chip-enable line goes high.
pub open spec fn rx_steps() -> Seq<Step> {
    prim_rx_steps(true).push(Step::ChipEnable(true))
}

/// The script that enters transmit mode: the chip becomes the primary
/// transmitter. The chip-enable line stays as it is.
pub open spec fn tx_steps() -> Seq<Step> {
    prim_rx_steps(false)
}

/// The script that enters transceive mode: automatic acknowledgement on all
/// pipes, the retransmit delay and count, the acknowledgement payload and
/// dynamic payload features, dynamic payload on all pipes, and last the
/// chip becomes the primary transmitter.
pub open spec fn ptx_steps(delay: u8, retries: u8) -> Seq<Step> {
    single(Request::WriteRegister(Register::EnAa, 0x3F)) + single(
        Request::WriteRegister(Register::SetupRetr, auto_retransmit_value(delay, retries)),
    ) + read_modify_write(
        Register::Feature,
        |byte: u8| Feature(byte).with_en_ack_pay(true).with_en_dpl(true).0,
    ) + single(Request::WriteRegister(Register::Dynpd, 0x3F)) + prim_rx_steps(false)
}

/// Whether a transition that started with a device whose history was
/// `before` ran `steps` and ended as `result` says: well, with the next
/// mode, or at a transaction that failed, with the device and the bus's
/// error.
pub open spec fn transition<D: Device, M: Holder<D>>(
    before: History<D::Error>,
    steps: Seq<Step>,
    result: Result<M, (D, D::Error)>,
) -> bool {
    match result {
        Ok(mode) => ran(before, mode.held().history(), steps) && verdict(
            before,
            mode.held().history(),
        ) is Ok,
        Err((device, error)) => ran(before, device.history(), steps) && verdict(
            before,
            device.history(),
        ) == Err::<(), D::Error>(error),
    }
}

/// Takes the next two steps of a run: a read-modify-write of CONFIG that
/// sets or clears the primary-receiver bit.
fn step_prim_rx<D: Device>(
    device: &mut D,
    prim_rx: bool,
    Ghost(before): Ghost<History<D::Error>>,
    Ghost(steps): Ghost<Seq<Step>>,
) -> (result: Result<(), D::Error>)
    requires
        underway(before, old(device).history(), steps),
        old(device).history().len() - before.len() + 2 <= steps.len(),
        steps[old(device).history().len() - before.len()] == prim_rx_steps(prim_rx)[0],
        steps[old(device).history().len() - before.len() + 1] == prim_rx_steps(prim_rx)[1],
    ensures
        result is Ok ==> underway(before, final(device).history(), steps),
        result is Ok ==> final(device).history().len() == old(device).history().len() + 2,
        result matches Err(error) ==> ran(before, final(device).history(), steps) && verdict(
            before,
            final(device).history(),
        ) == Err::<(), D::Error>(error),
{
    let (_, byte) = step_read(device, Register::Config, Ghost(before), Ghost(steps))?;
    let mut config = Config(byte);
    config.set_prim_rx(prim_rx);
    step_write(device, Register::Config, config.0, Ghost(before), Ghost(steps))?;
    Ok(())
}

/// Runs the script that powers the chip up.
fn run_power_up<D: Device>(device: &mut D) -> (result: Result<(), D::Error>)
    ensures
        ran(old(device).history(), final(device).history(), power_up_steps()),
        result == verdict(old(device).history(), final(device).history()),
{
    let ghost before = device.history();
    let ghost steps = power_up_steps();
    proof {
        lemma_start(before, steps);
    }
    let (_, byte) = step_read(device, Register::Config, Ghost(before), Ghost(steps))?;
    let mut config = Config(byte);
    config.set_pwr_up(true);
    step_write(device, Register::Config, config.0, Ghost(before), Ghost(steps))?;
    proof {
        lemma_finish(before, device.history(), steps);
    }
    Ok(())
}

/// Runs the script that enters receive mode.
fn run_rx<D: Device>(device: &mut D) -> (result: Result<(), D::Error>)
    ensures
        ran(old(device).history(), final(device).history(), rx_steps()),
        result == verdict(old(device).history(), final(device).history()),
{
    let ghost before = device.history();
    let ghost steps = rx_steps();
    proof {
        lemma_start(before, steps);
    }
    step_prim_rx(device, true, Ghost(before), Ghost(steps))?;
    step_chip_enable(device, true, Ghost(before), Ghost(steps));
    proof {
        lemma_finish(before, device.history(), steps);
    }
    Ok(())
}

/// Runs the script that enters transmit mode.
fn run_tx<D: Device>(device: &mut D) -> (result: Result<(), D::Error>)
    ensures
        ran(old(device).history(), final(device).history(), tx_steps()),
        result == verdict(old(device).history(), final(device).history()),
{
    let ghost before = device.history();
    let ghost steps = tx_steps();
    proof {
        lemma_start(before, steps);
    }
    step_prim_rx(device, false, Ghost(before), Ghost(steps))?;
    proof {
        lemma_finish(before, device.history(), steps);
    }
    Ok(())
}

/// Runs the script that enters transceive mode.
fn run_ptx<D: Device>(device: &mut D, delay: u8, retries: u8) -> (result: Result<(), D::Error>)
    ensures
        ran(old(device).history(), final(device).history(), ptx_steps(delay, retries)),
        result == verdict(old(device).history(), final(device).history()),
{
    let ghost before = device.history();
    let ghost steps = ptx_steps(delay, retries);
    proof {
        lemma_start(before, steps);
    }
    let all_pipes = [true;PIPES_COUNT];
    step_write(device, Register::EnAa, auto_ack(&all_pipes).0, Ghost(before), Ghost(steps))?;
    step_write(
        device,
        Register::SetupRetr,
        auto_retransmit(delay, retries).0,
        Ghost(before),
        Ghost(steps),
    )?;
    // Enable ack payload and dynamic payload features
    let (_, byte) = step_read(device, Register::Feature, Ghost(before), Ghost(steps))?;
    let mut feature = Feature(byte);
    feature.set_en_ack_pay(true);
    feature.set_en_dpl(true);
    step_write(device, Register::Feature, feature.0, Ghost(before), Ghost(steps))?;
    // Enable dynamic payload on all pipes
    step_write(
        device,
        Register::Dynpd,
        Dynpd::from_bools(&all_pipes).0,
        Ghost(before),
        Ghost(steps),
    )?;
    step_prim_rx(device, false, Ghost(before), Ghost(steps))?;
    proof {
        lemma_finish(before, device.history(), steps);
    }
    Ok(())
}

impl<D: Device> StandbyMode<D> {
    /// Powers the chip up and takes the device into standby.
    pub fn power_up(device: D) -> (result: Result<Self, (D, D::Error)>)
        ensures
            transition(device.history(), power_up_steps(), result),
    {
        let mut device = device;
        match run_power_up(&mut device) {
            Ok(()) => Ok(StandbyMode { device }),
            Err(e) => Err((device, e)),
        }
    }

    /// Comes back to standby from receive or transmit mode. Only the
    /// chip-enable line is driven low, so this cannot fail.
    pub(crate) fn from_rx_tx(device: D) -> (standby: Self)
        ensures
            standby.held().history() == device.history().push(Event::ChipEnable(false)),
    {
        let mut device = device;
        device.ce_disable();
        StandbyMode { device }
    }

    /// Go into RX mode
    pub fn rx(self) -> (result: Result<RxMode<D>, (D, D::Error)>)
        ensures
            transition(self.held().history(), rx_steps(), result),
    {
        let mut device = self.device;
        match run_rx(&mut device) {
            Ok(()) => Ok(RxMode::new(device)),
            Err(e) => Err((device, e)),
        }
    }

    /// Go into TX mode
    pub fn tx(self) -> (result: Result<TxMode<D>, (D, D::Error)>)
        ensures
            transition(self.held().history(), tx_steps(), result),
    {
        let mut device = self.device;
        match run_tx(&mut device) {
            // No need to device.ce_enable(); yet
            Ok(()) => Ok(TxMode::new(device)),
            Err(e) => Err((device, e)),
        }
    }

    /// Go into transceive mode, with this delay between retransmissions
    /// and this many of them.
    pub fn ptx(self, delay: u8, retries: u8) -> (result: Result<PtxMode<D>, (D, D::Error)>)
        ensures
            transition(self.held().history(), ptx_steps(delay, retries), result),
    {
        let mut device = self.device;
        match run_ptx(&mut device, delay, retries) {
            // No need to device.ce_enable(); yet
            Ok(()) => Ok(PtxMode::new(device)),
            Err(e) => Err((device, e)),
        }
    }
}

} // verus!
