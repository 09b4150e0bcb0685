//! The length of the CRC checksum.
use vstd::prelude::*;

use crate::prelude::EsbCrcLength;

use super::{
    advanced, corrupt, done, failed, no_fail, ran, read_run, replayed, reply, sent, write_run, History, Rf24,
    Rf24View, Run,
};
use crate::bit_fields::{Config, CRC_MASK};
use crate::registers::CONFIG;
use crate::transcript::{Stop, Transcript};
use crate::types::{crc_length_bits, crc_length_of, CrcLength, Nrf24Error};

verus! {

/// How [`Rf24::set_crc_length`] runs: it reads CONFIG, then writes the
/// cached CONFIG register with the CRC bits replaced, and caches that.
pub open spec fn set_crc_length_run(s: Rf24View, h: History, c: int, length: CrcLength) -> Run {
    read_run(s, h, c, CONFIG, 1).and_then(
        |s1: Rf24View, c1: int|
            {
                let v = (s1.config_reg & !CRC_MASK) | crc_length_bits(length);
                write_run(Rf24View { config_reg: v, ..s1 }, h, c1, CONFIG, v)
            },
    )
}

/// How [`Rf24::get_crc_length`] runs: it reads CONFIG; the CRC bits `0b01`
/// are corrupt, else the value read is cached.
pub open spec fn get_crc_length_run(s: Rf24View, h: History, c: int) -> Run {
    read_run(s, h, c, CONFIG, 1).and_then(
        |s1: Rf24View, c1: int|
            if s1.io.buf[1] & CRC_MASK == 4 {
                corrupt(s1, c1)
            } else {
                done(Rf24View { config_reg: s1.io.buf[1], ..s1 }, c1)
            },
    )
}

impl EsbCrcLength for Rf24 {
    /// Read the CRC length from the CONFIG register, which the driver then
    /// caches. The CRC bits `0b01` (CRC disabled while its "enable" bit is
    /// clear) fail with [`Nrf24Error::BinaryCorruption`].
    fn get_crc_length(&mut self, t: &mut Transcript) -> (r: Result<CrcLength, Stop>)
        ensures
            advanced(r, old(t)@, final(t)@),
            no_fail(r) || failed(r, Nrf24Error::BinaryCorruption),
            ran(r, final(t)@, final(self)@, get_crc_length_run(old(self)@, old(t)@.history, old(t)@.cursor)),
            r is Ok ==> r->Ok_0 == crc_length_of(reply(old(t)@.history, old(t)@.cursor)[1] & CRC_MASK),
    {
        proof {
            reveal_with_fuel(replayed, 2);
        }
        self.spi_read(t, 1, CONFIG)?;
        if self.buf[1] & CRC_MASK == 4 {
            return Err(Stop::Fail(Nrf24Error::BinaryCorruption));
        }
        self.config_reg = Config::from_bits(self.buf[1]);
        Ok(self.config_reg.crc_length())
    }

    /// Set the CRC length (see [`set_crc_length_run`]).
    fn set_crc_length(&mut self, t: &mut Transcript, length: CrcLength) -> (r: Result<
        (),
        Stop,
    >)
        ensures
            advanced(r, old(t)@, final(t)@),
            no_fail(r),
            ran(
                r,
                final(t)@,
                final(self)@,
                set_crc_length_run(old(self)@, old(t)@.history, old(t)@.cursor, length),
            ),
    {
        self.spi_read(t, 1, CONFIG)?;
        self.config_reg = self.config_reg.with_crc_length(length);
        self.spi_write_byte(t, CONFIG, self.config_reg.into_bits())
    }
}

} // verus!
