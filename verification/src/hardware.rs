//! Plain settings for the host that drives the radio.
use vstd::prelude::*;

verus! {

/// Where the host reaches the radio.
#[derive(Clone, Copy, Debug, PartialEq, Eq)]
pub struct HardwareConfig {
    /// The GPIO chip number (`/dev/gpiochipN`); 0 by default, but 4 on a
    /// Raspberry Pi 5 or newer.
    pub dev_gpio_chip: Option<u8>,
    /// The SPI bus number (`/dev/spidevX.Y`, with `Y` the CSN pin); 0 by
    /// default.
    pub dev_spi_bus: Option<u8>,
    /// The SPI clock in Hz; 10 MHz by default (the radio's maximum). Lower it
    /// to 6 or 4 MHz for long wires or weak pull-up resistors.
    pub spi_speed: Option<u32>,
}

impl Default for HardwareConfig {
    fn default() -> (r: HardwareConfig)
        ensures
            r.dev_gpio_chip == Some(0u8),
            r.dev_spi_bus == Some(0u8),
            r.spi_speed == Some(10_000_000u32),
    {
        HardwareConfig { dev_gpio_chip: Some(0), dev_spi_bus: Some(0), spi_speed: Some(10_000_000) }
    }
}

/// How a payload is written to the TX FIFO.
#[derive(Clone, Copy, Debug, PartialEq, Eq)]
pub struct WriteConfig {
    /// Ask the receiver not to acknowledge this payload (allow it with
    /// [`Rf24::allow_ask_no_ack`](crate::rf24::Rf24::allow_ask_no_ack)
    /// first); `false` by default.
    pub ask_no_ack: Option<bool>,
    /// Drive CE high (active TX mode) after the upload; `true` by default.
    /// Set it to `false` to fill the TX FIFO first; it never drives CE low.
    pub start_tx: Option<bool>,
}

impl Default for WriteConfig {
    fn default() -> (r: WriteConfig)
        ensures
            r.ask_no_ack == Some(false),
            r.start_tx == Some(true),
    {
        WriteConfig { ask_no_ack: Some(false), start_tx: Some(true) }
    }
}

/// Whether a payload waits in the RX FIFO, and the pipe that received it
/// (meaningless when none waits).
#[derive(Clone, Copy, Debug, PartialEq, Eq)]
pub struct AvailablePipe {
    pub available: bool,
    pub pipe: u8,
}

} // verus!
