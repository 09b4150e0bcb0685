//! The data rate.
use vstd::prelude::*;

use crate::prelude::EsbDataRate;

use super::{
    advanced, corrupt, done, failed, no_fail, ran, read_run, replayed, reply, write_run, History, Rf24, Rf24View,
    Run,
};
use crate::registers::RF_SETUP;
use crate::transcript::{Stop, Transcript};
use crate::types::{data_rate_bits, data_rate_of, DataRate, Nrf24Error, DATA_RATE_MASK};

verus! {

/// The delay (in microseconds) to wait for ACK packets at a data rate.
pub open spec fn tx_delay_for(data_rate: DataRate) -> u32 {
    match data_rate {
        DataRate::Mbps1 => 280,
        DataRate::Mbps2 => 240,
        DataRate::Kbps250 => 505,
    }
}

/// The delay (in microseconds) to wait for ACK packets at a data rate.
pub fn set_tx_delay(data_rate: DataRate) -> (r: u32)
    ensures
        r == tx_delay_for(data_rate),
{
    match data_rate {
        DataRate::Mbps1 => 280,
        DataRate::Mbps2 => 240,
        DataRate::Kbps250 => 505,
    }
}

/// How [`Rf24::set_data_rate`] runs: it sets the delay for ACK packets to
/// suit the data rate, reads RF_SETUP and writes it back with the data rate
/// bits replaced.
pub open spec fn set_data_rate_run(s: Rf24View, h: History, c: int, data_rate: DataRate) -> Run {
    read_run(Rf24View { tx_delay: tx_delay_for(data_rate), ..s }, h, c, RF_SETUP, 1).and_then(
        |s1: Rf24View, c1: int|
            write_run(
                s1,
                h,
                c1,
                RF_SETUP,
                (s1.io.buf[1] & !DATA_RATE_MASK) | data_rate_bits(data_rate),
            ),
    )
}

/// How [`Rf24::get_data_rate`] runs: it reads RF_SETUP; both data rate bits
/// set are corrupt.
pub open spec fn get_data_rate_run(s: Rf24View, h: History, c: int) -> Run {
    read_run(s, h, c, RF_SETUP, 1).and_then(
        |s1: Rf24View, c1: int|
            if s1.io.buf[1] & DATA_RATE_MASK == DATA_RATE_MASK {
                corrupt(s1, c1)
            } else {
                done(s1, c1)
            },
    )
}

impl EsbDataRate for Rf24 {
    /// Read the data rate from the RF_SETUP register. Both data rate bits
    /// set fail with [`Nrf24Error::BinaryCorruption`].
    fn get_data_rate(&mut self, t: &mut Transcript) -> (r: Result<DataRate, Stop>)
        ensures
            advanced(r, old(t)@, final(t)@),
            no_fail(r) || failed(r, Nrf24Error::BinaryCorruption),
            ran(r, final(t)@, final(self)@, get_data_rate_run(old(self)@, old(t)@.history, old(t)@.cursor)),
            r is Ok ==> r->Ok_0 == data_rate_of(reply(old(t)@.history, old(t)@.cursor)[1] & DATA_RATE_MASK),
    {
        proof {
            reveal_with_fuel(replayed, 2);
        }
        self.spi_read(t, 1, RF_SETUP)?;
        let bits = self.buf[1] & DATA_RATE_MASK;
        if bits == DATA_RATE_MASK {
            return Err(Stop::Fail(Nrf24Error::BinaryCorruption));
        }
        Ok(DataRate::from_bits(bits))
    }

    /// Set the data rate (see [`set_data_rate_run`]).
    fn set_data_rate(&mut self, t: &mut Transcript, data_rate: DataRate) -> (r: Result<
        (),
        Stop,
    >)
        ensures
            advanced(r, old(t)@, final(t)@),
            no_fail(r),
            ran(
                r,
                final(t)@,
                final(self)@,
                set_data_rate_run(old(self)@, old(t)@.history, old(t)@.cursor, data_rate),
            ),
    {
        self.tx_delay = set_tx_delay(data_rate);
        self.spi_read(t, 1, RF_SETUP)?;
        let out = self.buf[1] & !DATA_RATE_MASK | data_rate.into_bits();
        self.spi_write_byte(t, RF_SETUP, out)
    }
}

} // verus!
