//! A fake BLE (Bluetooth Low Energy) advertiser built on the nRF24L01.
//!
//! The nRF24L01 was not made for BLE, so it can only take part in a subset:
//!
//! 1. An advertisement holds at most 18 bytes of data when it carries
//!    neither a device name nor the PA level: 32 bytes (the radio's limit)
//!    less 6 (MAC address), 5 (required flags) and 3 (CRC checksum). See
//!    [`radio::FakeBle::len_available`].
//! 2. Only the three BLE advertising channels are used: 2.402 GHz,
//!    2.426 GHz and 2.480 GHz (see [`radio::FakeBle::hop_channel`]).
//! 3. The radio's CRC is disabled, because BLE needs 3 bytes of it and the
//!    radio does at most 2; the CRC24 is appended to the payload instead.
//! 4. BLE addresses are 4 bytes long.
//! 5. Auto-ack, and with it auto-retries and ACK payloads, is useless with
//!    BLE devices.
//! 6. Dynamic payloads are not compatible with BLE.
//! 7. BLE only allows the 1 Mbps data rate.
//! 8. Only the "data sent" and "data ready" events affect the IRQ pin.
use vstd::prelude::*;

pub mod data;
pub mod radio;
pub mod round_trip;
pub mod services;

verus! {

} // verus!
