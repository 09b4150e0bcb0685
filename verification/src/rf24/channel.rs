//! The radio's channel (frequency).
use vstd::prelude::*;

use super::{advanced, no_fail, ran, read_run, replayed, reply, write_run, History, Rf24, Rf24View, Run};
use crate::prelude::EsbChannel;
use crate::registers::RF_CH;
use crate::transcript::{Stop, Transcript};

verus! {

/// The channel that [`Rf24::set_channel`] selects: at most 125.
pub open spec fn channel_of(channel: u8) -> u8 {
    if channel < 125 {
        channel
    } else {
        125
    }
}

/// How [`Rf24::set_channel`] runs: it writes the channel to RF_CH.
pub open spec fn set_channel_run(s: Rf24View, h: History, c: int, channel: u8) -> Run {
    write_run(s, h, c, RF_CH, channel_of(channel))
}

impl EsbChannel for Rf24 {
    /// Select the channel, clamped to the range [0, 125]; the frequency is
    /// 2400 MHz plus the channel (in MHz).
    fn set_channel(&mut self, t: &mut Transcript, channel: u8) -> (r: Result<(), Stop>)
        ensures
            advanced(r, old(t)@, final(t)@),
            no_fail(r),
            ran(
                r,
                final(t)@,
                final(self)@,
                set_channel_run(old(self)@, old(t)@.history, old(t)@.cursor, channel),
            ),
    {
        let ch = if channel < 125 {
            channel
        } else {
            125
        };
        self.spi_write_byte(t, RF_CH, ch)
    }

    /// Read the selected channel.
    fn get_channel(&mut self, t: &mut Transcript) -> (r: Result<u8, Stop>)
        ensures
            advanced(r, old(t)@, final(t)@),
            no_fail(r),
            ran(r, final(t)@, final(self)@, read_run(old(self)@, old(t)@.history, old(t)@.cursor, RF_CH, 1)),
            r is Ok ==> r->Ok_0 == reply(old(t)@.history, old(t)@.cursor)[1],
    {
        proof {
            reveal_with_fuel(replayed, 2);
        }
        self.spi_read(t, 1, RF_CH)?;
        Ok(self.buf[1])
    }
}

} // verus!
