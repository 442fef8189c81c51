//! Control core of a driver for nRF24L01-class packet radio transceivers.
//!
//! The chip's operating modes are types: a mode owns the device, and a
//! transition consumes one mode and yields the next, or hands the device
//! back together with the bus error. Every mode shares the configuration
//! operations, which turn an intent (data rate, CRC width, pipe addresses,
//! payload lengths) into register exchanges.
//!
//! Contracts are stated over the device's history, the sequence of
//! exchanges made on it so far: an operation runs a script on the device,
//! and its contract says which.

pub mod bits;
pub mod config;
pub mod device;
mod holder;
pub mod ptx;
pub mod registers;
pub mod rx;
pub mod rxtx;
pub mod script;
pub mod standby;
pub mod tx;

use vstd::prelude::*;

verus! {

/// The number of receive pipes.
pub const PIPES_COUNT: usize = 6;

} // verus!
