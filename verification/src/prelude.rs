//! The operations of an ESB (Enhanced ShockBurst) transceiver, grouped by
//! feature. [`Rf24`](crate::rf24::Rf24) implements them all; each operation
//! talks to the hardware through a [`Transcript`], and stops when the
//! transcript has no exchange left for it (see the crate's documentation).
use vstd::prelude::*;

use crate::config::RadioConfig;
use crate::transcript::{Stop, Transcript};
use crate::types::{CrcLength, DataRate, FifoState, PaLevel, StatusFlags};

verus! {

/// The data pipes of a transceiver.
pub trait EsbPipe {
    /// An address of `len` bytes for `pipe` fits what the driver holds.
    spec fn pipe_address_fits(&self, pipe: u8, len: int) -> bool;

    /// Open `pipe` (0 to 5; any other does nothing) for receiving with
    /// `address`. Pipes 0 and 1 take a full address; pipes 2 to 5 take the
    /// first byte of `address` and share the rest of pipe 1's. Pipe 0's
    /// address is restored on every entry to RX mode.
    fn open_rx_pipe(&mut self, t: &mut Transcript, pipe: u8, address: &[u8]) -> Result<(), Stop>
        requires
            old(self).pipe_address_fits(pipe, address@.len() as int),
    ;

    /// Close `pipe` for receiving.
    fn close_rx_pipe(&mut self, t: &mut Transcript, pipe: u8) -> Result<(), Stop>;

    /// Set the address length of all pipes, clamped to [2, 5].
    fn set_address_length(&mut self, t: &mut Transcript, length: u8) -> Result<(), Stop>;

    /// Read the address length of all pipes.
    fn get_address_length(&mut self, t: &mut Transcript) -> Result<u8, Stop>;
}

/// The channel (frequency) of a transceiver.
pub trait EsbChannel {
    /// Select the channel.
    fn set_channel(&mut self, t: &mut Transcript, channel: u8) -> Result<(), Stop>;

    /// Read the selected channel.
    fn get_channel(&mut self, t: &mut Transcript) -> Result<u8, Stop>;
}

/// The IRQ events of a transceiver.
pub trait EsbStatus {
    /// The events of the last STATUS byte received (as cached).
    fn get_status_flags(&self, flags: &mut StatusFlags);

    /// Select the events that trigger the IRQ pin: those set in `flags`.
    fn set_status_flags(&mut self, t: &mut Transcript, flags: StatusFlags) -> Result<(), Stop>;

    /// Clear the events set in `flags`.
    fn clear_status_flags(&mut self, t: &mut Transcript, flags: StatusFlags) -> Result<(), Stop>;

    /// Fetch the STATUS byte.
    fn update(&mut self, t: &mut Transcript) -> Result<(), Stop>;
}

/// The RX and TX FIFOs of a transceiver.
pub trait EsbFifo {
    /// Discard the payloads of the RX FIFO.
    fn flush_rx(&mut self, t: &mut Transcript) -> Result<(), Stop>;

    /// Discard the payloads of the TX FIFO.
    fn flush_tx(&mut self, t: &mut Transcript) -> Result<(), Stop>;

    /// The state of the TX FIFO (`about_tx`) or of the RX FIFO.
    fn get_fifo_state(&mut self, t: &mut Transcript, about_tx: bool) -> Result<FifoState, Stop>;

    /// Is a payload waiting in the RX FIFO?
    fn available(&mut self, t: &mut Transcript) -> Result<bool, Stop>;

    /// Is a payload waiting in the RX FIFO? If so `pipe` is set to the pipe
    /// that received it.
    fn available_pipe(&mut self, t: &mut Transcript, pipe: &mut u8) -> Result<bool, Stop>;
}

/// The payload lengths (static or dynamic) of a transceiver.
pub trait EsbPayloadLength {
    /// Set the static payload length; it has no effect with dynamic
    /// payloads.
    fn set_payload_length(&mut self, t: &mut Transcript, length: u8) -> Result<(), Stop>;

    /// Read the static payload length of pipe 0.
    fn get_payload_length(&mut self, t: &mut Transcript) -> Result<u8, Stop>;

    /// Enable or disable dynamic payloads on all pipes; ACK payloads need
    /// them.
    fn set_dynamic_payloads(&mut self, t: &mut Transcript, enable: bool) -> Result<(), Stop>;

    /// Are dynamic payloads enabled?
    fn get_dynamic_payloads(&self) -> bool;

    /// Read the length of the next payload in the RX FIFO (meaningless
    /// without dynamic payloads or without a payload waiting).
    fn get_dynamic_payload_length(&mut self, t: &mut Transcript) -> Result<u8, Stop>;
}

/// Automatic acknowledgement (and its payloads and retries) of a
/// transceiver.
pub trait EsbAutoAck: EsbPayloadLength {
    /// Enable or disable payloads in auto-ack packets (off by default);
    /// enabling them enables dynamic payloads on pipes 0 and 1.
    fn set_ack_payloads(&mut self, t: &mut Transcript, enable: bool) -> Result<(), Stop>;

    /// Are ACK payloads enabled?
    fn get_ack_payloads(&self) -> bool;

    /// Load `buf` into the TX FIFO as the payload of the next auto-ack
    /// packet on `pipe`; `false` if the TX FIFO is full, `pipe` is not in
    /// [0, 5] or ACK payloads are disabled.
    fn write_ack_payload(&mut self, t: &mut Transcript, pipe: u8, buf: &[u8]) -> Result<bool, Stop>;

    /// Enable or disable auto-ack on all pipes (on by default); disabling
    /// it disables ACK payloads too.
    fn set_auto_ack(&mut self, t: &mut Transcript, enable: bool) -> Result<(), Stop>;

    /// Enable or disable auto-ack on `pipe`; disabling it on pipe 0
    /// disables ACK payloads too.
    fn set_auto_ack_pipe(&mut self, t: &mut Transcript, enable: bool, pipe: u8) -> Result<(), Stop>;

    /// Set the delay between retries (in steps of 250 microseconds past
    /// 250) and their number, each clamped to [0, 15].
    fn set_auto_retries(&mut self, t: &mut Transcript, delay: u8, count: u8) -> Result<(), Stop>;

    /// Allow (or not) payloads that ask for no acknowledgement.
    fn allow_ask_no_ack(&mut self, t: &mut Transcript, enable: bool) -> Result<(), Stop>;
}

/// The power amplifier level of a transceiver.
pub trait EsbPaLevel {
    /// Read the PA level.
    fn get_pa_level(&mut self, t: &mut Transcript) -> Result<PaLevel, Stop>;

    /// Set the PA level.
    fn set_pa_level(&mut self, t: &mut Transcript, level: PaLevel) -> Result<(), Stop>;
}

/// The power state of a transceiver.
pub trait EsbPower {
    /// Power down; the radio then neither receives nor transmits.
    fn power_down(&mut self, t: &mut Transcript) -> Result<(), Stop>;

    /// Power up, and then wait `delay` microseconds (5 ms if none).
    fn power_up(&mut self, t: &mut Transcript, delay: Option<u32>) -> Result<(), Stop>;

    /// Is the radio powered up (as cached)?
    fn is_powered(&self) -> bool;
}

/// The CRC (Cyclical Redundancy Checksum) length of a transceiver.
pub trait EsbCrcLength {
    /// Read the CRC length.
    fn get_crc_length(&mut self, t: &mut Transcript) -> Result<CrcLength, Stop>;

    /// Set the CRC length.
    fn set_crc_length(&mut self, t: &mut Transcript, length: CrcLength) -> Result<(), Stop>;
}

/// The data rate of a transceiver.
pub trait EsbDataRate {
    /// Read the data rate.
    fn get_data_rate(&mut self, t: &mut Transcript) -> Result<DataRate, Stop>;

    /// Set the data rate.
    fn set_data_rate(&mut self, t: &mut Transcript, data_rate: DataRate) -> Result<(), Stop>;
}

/// The initialization of a transceiver.
pub trait EsbInit {
    /// Initialize the radio and apply the default configuration.
    fn init(&mut self, t: &mut Transcript) -> Result<(), Stop>;

    /// Apply the configuration `config`.
    fn with_config(&mut self, t: &mut Transcript, config: &RadioConfig) -> Result<(), Stop>;
}

/// Transmitting and receiving.
pub trait EsbRadio {
    /// The driver can enter RX mode.
    spec fn rx_ready(&self) -> bool;

    /// The driver can enter TX mode.
    spec fn tx_ready(&self) -> bool;

    /// The driver can upload a payload.
    spec fn upload_ready(&self) -> bool;

    /// Enter RX mode: the radio listens on its open pipes.
    fn as_rx(&mut self, t: &mut Transcript) -> Result<(), Stop>
        requires
            old(self).rx_ready(),
    ;

    /// Enter TX mode (with a new TX address if one is given).
    fn as_tx(&mut self, t: &mut Transcript, tx_address: Option<&[u8]>) -> Result<(), Stop>
        requires
            old(self).tx_ready(),
    ;

    /// Is the radio in RX mode (as cached)?
    fn is_rx(&self) -> bool;

    /// Send `buf` and wait for the outcome: `true` if it was delivered
    /// (or sent, without auto-ack).
    fn send(&mut self, t: &mut Transcript, buf: &[u8], ask_no_ack: bool) -> Result<bool, Stop>
        requires
            old(self).upload_ready(),
    ;

    /// Upload `buf` to the TX FIFO, and start transmitting if `start_tx`.
    fn write(&mut self, t: &mut Transcript, buf: &[u8], ask_no_ack: bool, start_tx: bool) -> Result<bool, Stop>
        requires
            old(self).upload_ready(),
    ;

    /// Send the payload at the top of the TX FIFO again, and wait for the
    /// outcome.
    fn resend(&mut self, t: &mut Transcript) -> Result<bool, Stop>;

    /// Start sending the payload at the top of the TX FIFO again.
    fn rewrite(&mut self, t: &mut Transcript) -> Result<(), Stop>;

    /// The number of retries of the last transmission.
    fn get_last_arc(&mut self, t: &mut Transcript) -> Result<u8, Stop>;

    /// Read the next payload of the RX FIFO into `buf` (at most `len`
    /// bytes); the result is the number of bytes read.
    fn read(&mut self, t: &mut Transcript, buf: &mut [u8], len: Option<u8>) -> Result<u8, Stop>;
}

} // verus!
