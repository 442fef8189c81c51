//! Receive mode: the chip listens with the chip-enable line high.

use crate::config::Configuration;
use crate::device::{Device, Event, Holder};
use crate::holder::UsingDevice;
use crate::standby::StandbyMode;
use vstd::prelude::*;

verus! {

/// Represents **RX Mode**: the chip is the primary receiver and listens.
#[derive(Debug)]
pub struct RxMode<D: Device> {
    device: D,
}

impl<D: Device> Holder<D> for RxMode<D> {
    closed spec fn held(&self) -> D {
        self.device
    }
}

impl<D: Device> UsingDevice<D> for RxMode<D> {
    fn device(&mut self) -> (device: &mut D) {
        &mut self.device
    }
}

impl<D: Device> Configuration<D> for RxMode<D> {}

impl<D: Device> RxMode<D> {
    /// Relies on everything being set up by `StandbyMode::rx()`, from which
    /// it is called.
    pub(crate) fn new(device: D) -> (mode: Self)
        ensures
            mode.held() == device,
    {
        RxMode { device }
    }

    /// Stops listening and goes back to standby. Only the chip-enable line
    /// is driven low, so this cannot fail.
    pub fn standby(self) -> (standby: StandbyMode<D>)
        ensures
            standby.held().history() == self.held().history().push(Event::ChipEnable(false)),
    {
        StandbyMode::from_rx_tx(self.device)
    }
}

} // verus!
