//! Static and dynamic payload lengths.
use vstd::prelude::*;

use crate::prelude::EsbPayloadLength;

use super::{
    advanced, done, failed, no_fail, ran, read_run, replayed, reply, write_run, History, Rf24,
    Rf24View, Run,
};
use crate::bit_fields::{
    clamp, clamp_u8, Feature, ACK_PAYLOADS_BIT, DYNAMIC_PAYLOADS_BIT, FEATURE_REG_MASK,
};
use crate::commands::R_RX_PL_WID;
use crate::registers::{DYNPD, FEATURE, RX_PW_P0};
use crate::transcript::{Stop, Transcript};
use crate::types::Nrf24Error;

verus! {

/// The run that writes the static payload length `len` to the first `n`
/// pipes, in order.
pub open spec fn pipe_lengths_run(s: Rf24View, h: History, c: int, len: u8, n: int) -> Run
    decreases n,
{
    if n <= 0 {
        done(s, c)
    } else {
        pipe_lengths_run(s, h, c, len, n - 1).and_then(
            |s1: Rf24View, c1: int| write_run(s1, h, c1, (RX_PW_P0 + n - 1) as u8, len),
        )
    }
}

/// A run of pipe length writes that did not get through ends where it stopped.
proof fn lemma_pipe_lengths_stuck(s: Rf24View, h: History, c: int, len: u8, i: int, n: int)
    requires
        0 <= i <= n,
        !pipe_lengths_run(s, h, c, len, i).ok,
    ensures
        pipe_lengths_run(s, h, c, len, n) == pipe_lengths_run(s, h, c, len, i),
    decreases n - i,
{
    if n > i {
        lemma_pipe_lengths_stuck(s, h, c, len, i, n - 1);
    }
}

/// How [`Rf24::set_payload_length`] runs: the length, clamped to [1, 32], is
/// written for each of the 6 pipes and cached.
pub open spec fn set_payload_length_run(s: Rf24View, h: History, c: int, length: u8) -> Run {
    let len = clamp(length, 1, 32);
    pipe_lengths_run(s, h, c, len, 6).map(|s1: Rf24View| Rf24View { payload_length: len, ..s1 })
}

/// The cached FEATURE byte `feature` with the register bits read back
/// (`reg`) and dynamic payloads enabled or not (disabling them disables ACK
/// payloads too).
pub open spec fn with_dynamic_payloads_read(feature: u8, reg: u8, enable: bool) -> u8 {
    let f = (feature & !FEATURE_REG_MASK) | reg;
    if enable {
        f | DYNAMIC_PAYLOADS_BIT
    } else {
        f & !DYNAMIC_PAYLOADS_BIT & !ACK_PAYLOADS_BIT
    }
}

/// How [`Rf24::set_dynamic_payloads`] runs: it reads FEATURE, caches it with
/// dynamic payloads enabled or not and writes it back, then writes DYNPD
/// (all pipes or none).
pub open spec fn set_dynamic_payloads_run(s: Rf24View, h: History, c: int, enable: bool) -> Run {
    read_run(s, h, c, FEATURE, 1).and_then(
        |s1: Rf24View, c1: int|
            {
                let f = with_dynamic_payloads_read(s1.feature, s1.io.buf[1], enable);
                write_run(Rf24View { feature: f, ..s1 }, h, c1, FEATURE, f & FEATURE_REG_MASK)
            },
    ).and_then(
        |s2: Rf24View, c2: int|
            write_run(
                s2,
                h,
                c2,
                DYNPD,
                if enable {
                    0x3Fu8
                } else {
                    0u8
                },
            ),
    )
}

impl EsbPayloadLength for Rf24 {
    /// Set the static payload length of all pipes (clamped to [1, 32]).
    fn set_payload_length(&mut self, t: &mut Transcript, length: u8) -> (r: Result<(), Stop>)
        ensures
            advanced(r, old(t)@, final(t)@),
            no_fail(r),
            ran(
                r,
                final(t)@,
                final(self)@,
                set_payload_length_run(old(self)@, old(t)@.history, old(t)@.cursor, length),
            ),
    {
        let ghost (h, c, s) = (t@.history, t@.cursor, self@);
        let len = clamp_u8(length, 1, 32);
        let mut i: u8 = 0;
        while i < 6
            invariant
                i <= 6,
                len == clamp(length, 1, 32),
                t@.history == h,
                s == old(self)@,
                h == old(t)@.history,
                c == old(t)@.cursor,
                pipe_lengths_run(s, h, c, len, i as int).ok,
                !pipe_lengths_run(s, h, c, len, i as int).corrupt,
                t@.cursor == pipe_lengths_run(s, h, c, len, i as int).end,
                self@ == pipe_lengths_run(s, h, c, len, i as int).state,
                advanced(Ok::<(), Stop>(()), old(t)@, t@),
            decreases 6 - i,
        {
            let r = self.spi_write_byte(t, RX_PW_P0 + i, len);
            if r.is_err() {
                proof {
                    lemma_pipe_lengths_stuck(s, h, c, len, i + 1, 6);
                }
                return r;
            }
            i = i + 1;
        }
        self.payload_length = len;
        Ok(())
    }

    /// Read the static payload length of pipe 0.
    fn get_payload_length(&mut self, t: &mut Transcript) -> (r: Result<u8, Stop>)
        ensures
            advanced(r, old(t)@, final(t)@),
            no_fail(r),
            ran(r, final(t)@, final(self)@, read_run(old(self)@, old(t)@.history, old(t)@.cursor, RX_PW_P0, 1)),
            r is Ok ==> r->Ok_0 == reply(old(t)@.history, old(t)@.cursor)[1],
    {
        proof {
            reveal_with_fuel(replayed, 2);
        }
        self.spi_read(t, 1, RX_PW_P0)?;
        Ok(self.buf[1])
    }

    /// Enable or disable dynamic payloads on all pipes (see
    /// [`set_dynamic_payloads_run`]).
    fn set_dynamic_payloads(&mut self, t: &mut Transcript, enable: bool) -> (r: Result<
        (),
        Stop,
    >)
        ensures
            advanced(r, old(t)@, final(t)@),
            no_fail(r),
            ran(
                r,
                final(t)@,
                final(self)@,
                set_dynamic_payloads_run(old(self)@, old(t)@.history, old(t)@.cursor, enable),
            ),
    {
        self.spi_read(t, 1, FEATURE)?;
        self.feature = Feature::from_bits(
            self.feature.into_bits() & !FEATURE_REG_MASK | self.buf[1],
        ).with_dynamic_payloads(enable);
        self.spi_write_byte(t, FEATURE, self.feature.into_bits() & FEATURE_REG_MASK)?;
        let dynpd: u8 = if enable {
            0x3F
        } else {
            0
        };
        self.spi_write_byte(t, DYNPD, dynpd)
    }

    /// Are dynamic payloads enabled (as cached)?
    fn get_dynamic_payloads(&self) -> (r: bool)
        ensures
            r == (self@.feature & DYNAMIC_PAYLOADS_BIT != 0),
    {
        self.feature.dynamic_payloads()
    }

    /// Read the length of the next payload in the RX FIFO. A length over 32
    /// fails with [`Nrf24Error::BinaryCorruption`].
    fn get_dynamic_payload_length(&mut self, t: &mut Transcript) -> (r: Result<u8, Stop>)
        ensures
            advanced(r, old(t)@, final(t)@),
            no_fail(r) || failed(r, Nrf24Error::BinaryCorruption),
            ({
                let (h, c, s) = (old(t)@.history, old(t)@.cursor, old(self)@);
                let read = read_run(s, h, c, R_RX_PL_WID, 1);
                let b = reply(h, c)[1];
                &&& r is Ok <==> read.ok && b <= 32
                &&& failed(r, Nrf24Error::BinaryCorruption) <==> read.ok && b > 32
                &&& r is Ok ==> r->Ok_0 == b
                &&& read.ok ==> final(t)@.cursor == c + 1 && final(self)@ == read.state
                &&& r matches Err(Stop::Suspend) ==> final(t)@.pending == Some(read.asked)
            }),
    {
        proof {
            reveal_with_fuel(replayed, 2);
        }
        self.spi_read(t, 1, R_RX_PL_WID)?;
        if self.buf[1] > 32 {
            return Err(Stop::Fail(Nrf24Error::BinaryCorruption));
        }
        Ok(self.buf[1])
    }
}

} // verus!
