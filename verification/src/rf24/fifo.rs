//! The RX and TX FIFOs.
use vstd::prelude::*;

use crate::prelude::EsbFifo;

use super::{
    advanced, corrupt, done, failed, lemma_replay_join, History, Run, read_run, no_fail, ran, xfer_run, read_frame, replayed, reply, sent, Rf24, Rf24View,
};
use crate::commands::{FLUSH_RX, FLUSH_TX, NOP};
use crate::registers::FIFO_STATUS;
use crate::transcript::{ActionView, Stop, Transcript};
use crate::types::{FifoState, Nrf24Error};

verus! {

/// The state that the two bits of a FIFO in the FIFO_STATUS register encode
/// (`None` for the value that no radio reports).
pub open spec fn fifo_state_of(bits: u8) -> Option<FifoState> {
    if bits == 0 {
        Some(FifoState::Occupied)
    } else if bits == 1 {
        Some(FifoState::Empty)
    } else if bits == 2 {
        Some(FifoState::Full)
    } else {
        None
    }
}

/// The two bits of the TX FIFO (`about_tx`) or of the RX FIFO in the
/// FIFO_STATUS register `reg`.
pub open spec fn fifo_bits(reg: u8, about_tx: bool) -> u8 {
    if about_tx {
        (reg >> 4u8) & 3
    } else {
        reg & 3
    }
}

/// How [`Rf24::get_fifo_state`] runs: it reads FIFO_STATUS; the value `3`
/// for the FIFO is corrupt.
pub open spec fn get_fifo_state_run(s: Rf24View, h: History, c: int, about_tx: bool) -> Run {
    read_run(s, h, c, FIFO_STATUS, 1).and_then(
        |s1: Rf24View, c1: int|
            if fifo_state_of(fifo_bits(s1.io.buf[1], about_tx)) is None {
                corrupt(s1, c1)
            } else {
                done(s1, c1)
            },
    )
}

impl EsbFifo for Rf24 {
    /// Is there a payload in the RX FIFO?
    fn available(&mut self, t: &mut Transcript) -> (r: Result<bool, Stop>)
        ensures
            advanced(r, old(t)@, final(t)@),
            no_fail(r),
            ({
                let (h, c, s) = (old(t)@.history, old(t)@.cursor, old(self)@);
                &&& r is Ok <==> sent(h, c, read_frame(s.io.buf, FIFO_STATUS, 1))
                &&& r is Ok ==> final(t)@.cursor == c + 1 && final(self)@ == s.replay(h, c, c + 1)
                    && r->Ok_0 == (reply(h, c)[1] & 1 == 0)
                &&& r matches Err(Stop::Suspend) ==> final(t)@.pending == Some(
                    ActionView::Transfer(read_frame(s.io.buf, FIFO_STATUS, 1)),
                )
            }),
    {
        proof {
            reveal_with_fuel(replayed, 2);
        }
        self.spi_read(t, 1, FIFO_STATUS)?;
        Ok(self.buf[1] & 1 == 0)
    }

    /// Is there a payload in the RX FIFO? If so, `pipe` receives the number
    /// of the pipe that received it (from a fresh STATUS byte).
    fn available_pipe(&mut self, t: &mut Transcript, pipe: &mut u8) -> (r: Result<bool, Stop>)
        ensures
            advanced(r, old(t)@, final(t)@),
            no_fail(r),
            ({
                let (h, c, s) = (old(t)@.history, old(t)@.cursor, old(self)@);
                let avail = reply(h, c)[1] & 1 == 0;
                &&& r is Ok <==> sent(h, c, read_frame(s.io.buf, FIFO_STATUS, 1)) && (avail ==> sent(
                    h,
                    c + 1,
                    seq![NOP],
                ))
                &&& r is Ok ==> r->Ok_0 == avail
                &&& r is Ok && avail ==> final(t)@.cursor == c + 2 && final(self)@ == s.replay(
                    h,
                    c,
                    c + 2,
                ) && *final(pipe) == (reply(h, c + 1)[0] >> 1u8) & 7
                &&& r is Ok && !avail ==> final(t)@.cursor == c + 1 && final(self)@ == s.replay(
                    h,
                    c,
                    c + 1,
                ) && *final(pipe) == *old(pipe)
                &&& r matches Err(Stop::Suspend) ==> final(t)@.pending == Some(
                    if sent(h, c, read_frame(s.io.buf, FIFO_STATUS, 1)) {
                        ActionView::Transfer(seq![NOP])
                    } else {
                        ActionView::Transfer(read_frame(s.io.buf, FIFO_STATUS, 1))
                    },
                )
            }),
    {
        proof {
            reveal_with_fuel(replayed, 2);
        }
        let ghost (h, c, s) = (t@.history, t@.cursor, self@);
        if self.available(t)? {
            let r = self.spi_command(t, NOP);
            proof {
                lemma_replay_join(s, h, c, c + 1, c + 2);
            }
            r?;
            *pipe = self.status.rx_pipe();
            return Ok(true);
        }
        Ok(false)
    }

    /// Discard all payloads in the RX FIFO.
    fn flush_rx(&mut self, t: &mut Transcript) -> (r: Result<(), Stop>)
        ensures
            advanced(r, old(t)@, final(t)@),
            no_fail(r),
            ran(r, final(t)@, final(self)@, xfer_run(old(self)@, old(t)@.history, old(t)@.cursor, seq![FLUSH_RX])),
    {
        self.spi_command(t, FLUSH_RX)
    }

    /// Discard all payloads in the TX FIFO.
    fn flush_tx(&mut self, t: &mut Transcript) -> (r: Result<(), Stop>)
        ensures
            advanced(r, old(t)@, final(t)@),
            no_fail(r),
            ran(r, final(t)@, final(self)@, xfer_run(old(self)@, old(t)@.history, old(t)@.cursor, seq![FLUSH_TX])),
    {
        self.spi_command(t, FLUSH_TX)
    }

    /// The state of the TX FIFO (`about_tx`) or of the RX FIFO. A value that
    /// no radio reports fails with [`Nrf24Error::BinaryCorruption`].
    fn get_fifo_state(&mut self, t: &mut Transcript, about_tx: bool) -> (r: Result<
        FifoState,
        Stop,
    >)
        ensures
            advanced(r, old(t)@, final(t)@),
            no_fail(r) || failed(r, Nrf24Error::BinaryCorruption),
            ran(
                r,
                final(t)@,
                final(self)@,
                get_fifo_state_run(old(self)@, old(t)@.history, old(t)@.cursor, about_tx),
            ),
            r is Ok ==> Some(r->Ok_0) == fifo_state_of(
                fifo_bits(reply(old(t)@.history, old(t)@.cursor)[1], about_tx),
            ),
    {
        proof {
            reveal_with_fuel(replayed, 2);
        }
        self.spi_read(t, 1, FIFO_STATUS)?;
        let bits = if about_tx {
            (self.buf[1] >> 4u8) & 3
        } else {
            self.buf[1] & 3
        };
        if bits == 0 {
            Ok(FifoState::Occupied)
        } else if bits == 1 {
            Ok(FifoState::Empty)
        } else if bits == 2 {
            Ok(FifoState::Full)
        } else {
            Err(Stop::Fail(Nrf24Error::BinaryCorruption))
        }
    }
}

} // verus!
