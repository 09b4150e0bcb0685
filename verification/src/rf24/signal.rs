//! Signal tests: the received power detector, the constant carrier wave and
//! the LNA.
use vstd::prelude::*;

use crate::prelude::{EsbAutoAck, EsbChannel, EsbCrcLength, EsbFifo, EsbPaLevel, EsbPower, EsbRadio};

use super::auto_ack::{auto_retries_byte, set_auto_ack_run};
use super::channel::set_channel_run;
use super::crc_length::set_crc_length_run;
use super::pa_level::set_pa_level_run;
use super::power::power_down_run;
use super::radio::{address_frame, as_tx_run, rewrite_run};
use super::{
    act_run, advanced, done, no_fail, ran, read_run, replayed, reply, write_run, xfer_run, History,
    Rf24, Rf24View, Run,
};
use crate::bit_fields::PLUS_VARIANT_BIT;
use crate::commands::{FLUSH_TX, W_TX_PAYLOAD};
use crate::registers::{RF_SETUP, RPD, SETUP_RETR, TX_ADDR};
use crate::transcript::{ActionView, Stop, Transcript};
use crate::types::{CrcLength, PaLevel};

verus! {

/// The steps of [`Rf24::start_carrier_wave`] for a plus variant: auto-ack and
/// auto-retries disabled, the TX address set to `[0xFF; 5]`, the TX FIFO
/// flushed, a payload of 32 bytes `0xFF` uploaded and the CRC disabled.
pub open spec fn carrier_plus_run(s: Rf24View, h: History, c: int) -> Run {
    set_auto_ack_run(s, h, c, false).and_then(
        |s1: Rf24View, c1: int| write_run(s1, h, c1, SETUP_RETR, auto_retries_byte(0, 0)),
    ).and_then(
        |s2: Rf24View, c2: int| xfer_run(s2, h, c2, address_frame(TX_ADDR, seq![0xFFu8; 5], 5)),
    ).and_then(|s3: Rf24View, c3: int| xfer_run(s3, h, c3, seq![FLUSH_TX])).and_then(
        |s4: Rf24View, c4: int| xfer_run(s4, h, c4, address_frame(W_TX_PAYLOAD, seq![0xFFu8; 32], 32)),
    ).and_then(|s5: Rf24View, c5: int| set_crc_length_run(s5, h, c5, CrcLength::Disabled))
}

/// How [`Rf24::start_carrier_wave`] runs: TX mode (no new address), RF_SETUP
/// read and written back with the carrier and PLL lock bits (`0x90`) set,
/// [`carrier_plus_run`] on a plus variant, the PA level and channel set, CE
/// high, and on a plus variant a 1 ms wait and [`rewrite_run`].
pub open spec fn start_carrier_wave_run(
    s: Rf24View,
    h: History,
    c: int,
    level: PaLevel,
    channel: u8,
) -> Run {
    as_tx_run(s, h, c, None).and_then(|s1: Rf24View, c1: int| read_run(s1, h, c1, RF_SETUP, 1)).and_then(
        |s2: Rf24View, c2: int| write_run(s2, h, c2, RF_SETUP, s2.io.buf[1] | 0x90),
    ).and_then(
        |s3: Rf24View, c3: int|
            if s3.feature & PLUS_VARIANT_BIT != 0 {
                carrier_plus_run(s3, h, c3)
            } else {
                done(s3, c3)
            },
    ).and_then(|s4: Rf24View, c4: int| set_pa_level_run(s4, h, c4, level)).and_then(
        |s5: Rf24View, c5: int| set_channel_run(s5, h, c5, channel),
    ).and_then(|s6: Rf24View, c6: int| act_run(s6, h, c6, ActionView::SetCe(true))).and_then(
        |s7: Rf24View, c7: int|
            if s7.feature & PLUS_VARIANT_BIT != 0 {
                act_run(s7, h, c7, ActionView::DelayNs(1000000)).and_then(
                    |s8: Rf24View, c8: int| rewrite_run(s8, h, c8),
                )
            } else {
                done(s7, c7)
            },
    )
}

/// How [`Rf24::stop_carrier_wave`] runs: the radio powered down, RF_SETUP
/// read and written back with the bits `0x90` cleared, CE low.
pub open spec fn stop_carrier_wave_run(s: Rf24View, h: History, c: int) -> Run {
    power_down_run(s, h, c).and_then(|s1: Rf24View, c1: int| read_run(s1, h, c1, RF_SETUP, 1)).and_then(
        |s2: Rf24View, c2: int| write_run(s2, h, c2, RF_SETUP, s2.io.buf[1] & !0x90u8),
    ).and_then(|s3: Rf24View, c3: int| act_run(s3, h, c3, ActionView::SetCe(false)))
}

/// How [`Rf24::set_lna`] runs: RF_SETUP read and written back with bit 0
/// (LNA) replaced.
pub open spec fn set_lna_run(s: Rf24View, h: History, c: int, enable: bool) -> Run {
    read_run(s, h, c, RF_SETUP, 1).and_then(
        |s1: Rf24View, c1: int|
            write_run(
                s1,
                h,
                c1,
                RF_SETUP,
                (s1.io.buf[1] & !1u8) | (if enable {
                    1u8
                } else {
                    0u8
                }),
            ),
    )
}

impl Rf24 {
    /// Is the radio a plus variant (as found by [`Rf24::init`])?
    pub fn is_plus_variant(&self) -> (r: bool)
        ensures
            r == (self@.feature & PLUS_VARIANT_BIT != 0),
    {
        self.feature.is_plus_variant()
    }

    /// Did the radio detect a signal of -64 dBm or more on the channel (the
    /// RPD register)?
    pub fn rpd(&mut self, t: &mut Transcript) -> (r: Result<bool, Stop>)
        ensures
            advanced(r, old(t)@, final(t)@),
            no_fail(r),
            ran(r, final(t)@, final(self)@, read_run(old(self)@, old(t)@.history, old(t)@.cursor, RPD, 1)),
            r is Ok ==> r->Ok_0 == (reply(old(t)@.history, old(t)@.cursor)[1] & 1 == 1),
    {
        proof {
            reveal_with_fuel(replayed, 2);
        }
        self.spi_read(t, 1, RPD)?;
        Ok(self.buf[1] & 1 == 1)
    }

    /// Transmit a constant carrier wave at `level` on `channel` (see
    /// [`start_carrier_wave_run`]), as used for hardware tests.
    pub fn start_carrier_wave(
        &mut self,
        t: &mut Transcript,
        level: PaLevel,
        channel: u8,
    ) -> (r: Result<(), Stop>)
        requires
            old(self)@.address_length() <= 5,
        ensures
            advanced(r, old(t)@, final(t)@),
            no_fail(r),
            ran(
                r,
                final(t)@,
                final(self)@,
                start_carrier_wave_run(old(self)@, old(t)@.history, old(t)@.cursor, level, channel),
            ),
    {
        self.as_tx(t, None)?;
        self.spi_read(t, 1, RF_SETUP)?;
        let out = self.buf[1] | 0x90;
        self.spi_write_byte(t, RF_SETUP, out)?;
        if self.feature.is_plus_variant() {
            self.set_auto_ack(t, false)?;
            self.set_auto_retries(t, 0, 0)?;
            let buf = [0xFFu8; 32];
            assert(buf@.take(5) =~= seq![0xFFu8; 5].take(5));
            assert(buf@.take(32) =~= seq![0xFFu8; 32].take(32));
            self.spi_write_buf(t, TX_ADDR, &buf, 5)?;
            self.flush_tx(t)?;
            self.spi_write_buf(t, W_TX_PAYLOAD, &buf, 32)?;
            self.set_crc_length(t, CrcLength::Disabled)?;
        }
        self.set_pa_level(t, level)?;
        self.set_channel(t, channel)?;
        self.set_ce(t, true)?;
        if self.feature.is_plus_variant() {
            self.delay_ns(t, 1000000)?;
            self.rewrite(t)?;
        }
        Ok(())
    }

    /// Stop the constant carrier wave (see [`stop_carrier_wave_run`]).
    pub fn stop_carrier_wave(&mut self, t: &mut Transcript) -> (r: Result<(), Stop>)
        ensures
            advanced(r, old(t)@, final(t)@),
            no_fail(r),
            ran(r, final(t)@, final(self)@, stop_carrier_wave_run(old(self)@, old(t)@.history, old(t)@.cursor)),
    {
        self.power_down(t)?;
        self.spi_read(t, 1, RF_SETUP)?;
        let out = self.buf[1] & !0x90u8;
        self.spi_write_byte(t, RF_SETUP, out)?;
        self.set_ce(t, false)
    }

    /// Enable or disable the LNA of older (non-plus) variants and Si24R1
    /// clones (see [`set_lna_run`]); plus variants ignore it.
    pub fn set_lna(&mut self, t: &mut Transcript, enable: bool) -> (r: Result<(), Stop>)
        ensures
            advanced(r, old(t)@, final(t)@),
            no_fail(r),
            ran(r, final(t)@, final(self)@, set_lna_run(old(self)@, old(t)@.history, old(t)@.cursor, enable)),
    {
        self.spi_read(t, 1, RF_SETUP)?;
        let bit: u8 = if enable {
            1
        } else {
            0
        };
        self.spi_write_byte(t, RF_SETUP, self.buf[1] & !1u8 | bit)
    }
}

} // verus!
