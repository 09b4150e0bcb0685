//! A driver for the nRF24L01 family of 2.4 GHz transceivers, together with a
//! fake BLE (Bluetooth Low Energy) advertiser built on top of it.
//!
//! The radio logic is written as a resumable machine: every operation of the
//! driver is an ordinary function that talks to the hardware through a
//! [`transcript::Transcript`]. The transcript replays the exchanges that the
//! caller already performed with the hardware and stops at the first action
//! that still has to be performed. The caller performs that action (an SPI
//! transfer, a change of the CE pin, or a delay), records the result, and runs
//! the operation again until it completes. The operations are grouped by
//! feature in the traits of [`prelude`], which [`rf24::Rf24`] implements.
use vstd::prelude::*;

pub mod bit_fields;
pub mod ble;
pub mod bits;
pub mod commands;
pub mod config;
pub mod hardware;
pub mod mnemonics;
pub mod prelude;
pub mod registers;
pub mod rf24;
pub mod transcript;
pub mod types;

verus! {

} // verus!
