//! Access to the device that a mode holds, for this crate alone.

use crate::device::{Device, Holder};
use vstd::prelude::*;

verus! {

/// What lends its device to the operations of this crate. No code outside
/// it can name this trait, so nothing else reaches the device of a mode.
pub trait UsingDevice<D: Device>: Holder<D> {
    /// Lends the device that is held.
    fn device(&mut self) -> (device: &mut D)
        ensures
            *device == old(self).held(),
            final(self).held() == *final(device),
    ;
}

} // verus!
