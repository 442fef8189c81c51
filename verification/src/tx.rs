//! Transmit mode: the chip is the primary transmitter.

use crate::config::Configuration;
use crate::device::{Device, Event, Holder};
use crate::holder::UsingDevice;
use crate::standby::StandbyMode;
use vstd::prelude::*;

verus! {

/// Represents **TX Mode**: the chip is the primary transmitter.
#[derive(Debug)]
pub struct TxMode<D: Device> {
    device: D,
}

impl<D: Device> Holder<D> for TxMode<D> {
    closed spec fn held(&self) -> D {
        self.device
    }
}

impl<D: Device> UsingDevice<D> for TxMode<D> {
    fn device(&mut self) -> (device: &mut D) {
        &mut self.device
    }
}

impl<D: Device> Configuration<D> for TxMode<D> {}

impl<D: Device> TxMode<D> {
    /// Relies on everything being set up by `StandbyMode::tx()`, from which
    /// it is called.
    pub(crate) fn new(device: D) -> (mode: Self)
        ensures
            mode.held() == device,
    {
        TxMode { device }
    }

    /// Goes back to standby. Only the chip-enable line
    /// is driven low, so this cannot fail.
    pub fn standby(self) -> (standby: StandbyMode<D>)
        ensures
            standby.held().history() == self.held().history().push(Event::ChipEnable(false)),
    {
        StandbyMode::from_rx_tx(self.device)
    }
}

} // verus!
