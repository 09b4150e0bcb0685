//! Automatic acknowledgement, ACK payloads and automatic retries.
use vstd::prelude::*;

use crate::prelude::EsbAutoAck;

use super::{
    advanced, done, no_fail, ran, read_run, write_run, xfer_run, History, Rf24, Rf24View, Run,
};
use crate::bit_fields::{Feature, SetupRetry, ACK_PAYLOADS_BIT, DYNAMIC_PAYLOADS_BIT, FEATURE_REG_MASK};
use crate::commands::{W_ACK_PAYLOAD, W_REGISTER};
use crate::registers::{DYNPD, EN_AA, FEATURE, SETUP_RETR};
use crate::transcript::{Stop, Transcript};

verus! {

/// The cached FEATURE byte `feature` with the register bits read back
/// (`reg`) and ACK payloads enabled or not (enabling them enables dynamic
/// payloads too).
pub open spec fn with_ack_payloads_read(feature: u8, reg: u8, enable: bool) -> u8 {
    let f = (feature & !FEATURE_REG_MASK) | reg;
    if enable {
        f | ACK_PAYLOADS_BIT | DYNAMIC_PAYLOADS_BIT
    } else {
        f & !ACK_PAYLOADS_BIT
    }
}

/// All pipes (`0x3F`) or none.
pub open spec fn all_pipes(enable: bool) -> u8 {
    if enable {
        0x3F
    } else {
        0
    }
}

/// How [`Rf24::set_ack_payloads`] runs: nothing if the cached setting is
/// already `enable`. Else it reads FEATURE, caches it with ACK payloads
/// enabled or not and writes it back; enabling also writes DYNPD (dynamic
/// payloads on all pipes).
pub open spec fn set_ack_payloads_run(s: Rf24View, h: History, c: int, enable: bool) -> Run {
    if (s.feature & ACK_PAYLOADS_BIT != 0) == enable {
        done(s, c)
    } else {
        read_run(s, h, c, FEATURE, 1).and_then(
            |s1: Rf24View, c1: int|
                {
                    let f = with_ack_payloads_read(s1.feature, s1.io.buf[1], enable);
                    write_run(Rf24View { feature: f, ..s1 }, h, c1, FEATURE, f & FEATURE_REG_MASK)
                },
        ).and_then(
            |s2: Rf24View, c2: int|
                if enable {
                    write_run(s2, h, c2, DYNPD, 0x3F)
                } else {
                    done(s2, c2)
                },
        )
    }
}

/// How [`Rf24::set_auto_ack`] runs: it writes EN_AA (all pipes or none);
/// disabling auto-ack while ACK payloads are enabled then disables them.
pub open spec fn set_auto_ack_run(s: Rf24View, h: History, c: int, enable: bool) -> Run {
    write_run(s, h, c, EN_AA, all_pipes(enable)).and_then(
        |s1: Rf24View, c1: int|
            if !enable && s1.feature & ACK_PAYLOADS_BIT != 0 {
                set_ack_payloads_run(s1, h, c1, false)
            } else {
                done(s1, c1)
            },
    )
}

/// How [`Rf24::set_auto_ack_pipe`] runs: nothing for a pipe over 5. Else it
/// reads EN_AA; disabling auto-ack on pipe 0 while ACK payloads are enabled
/// disables them; then it writes EN_AA back with the pipe's bit replaced.
pub open spec fn set_auto_ack_pipe_run(
    s: Rf24View,
    h: History,
    c: int,
    enable: bool,
    pipe: u8,
) -> Run {
    if pipe > 5 {
        done(s, c)
    } else {
        read_run(s, h, c, EN_AA, 1).and_then(
            |s1: Rf24View, c1: int|
                {
                    let reg = s1.io.buf[1];
                    let mask = 1u8 << pipe;
                    (if !enable && s1.feature & ACK_PAYLOADS_BIT != 0 && pipe == 0 {
                        set_ack_payloads_run(s1, h, c1, false)
                    } else {
                        done(s1, c1)
                    }).and_then(
                        |s2: Rf24View, c2: int|
                            write_run(
                                s2,
                                h,
                                c2,
                                EN_AA,
                                (reg & !mask) | (if enable {
                                    mask
                                } else {
                                    0u8
                                }),
                            ),
                    )
                },
        )
    }
}

/// How [`Rf24::allow_ask_no_ack`] runs: it reads FEATURE and writes it back
/// with bit 0 ("ask no ACK") replaced.
pub open spec fn allow_ask_no_ack_run(s: Rf24View, h: History, c: int, enable: bool) -> Run {
    read_run(s, h, c, FEATURE, 1).and_then(
        |s1: Rf24View, c1: int|
            write_run(
                s1,
                h,
                c1,
                FEATURE,
                (s1.io.buf[1] & !1u8) | (if enable {
                    1u8
                } else {
                    0u8
                }),
            ),
    )
}

/// The frame that [`Rf24::write_ack_payload`] transfers: the command for
/// `pipe` and at most 32 bytes of `buf`.
pub open spec fn ack_payload_frame(pipe: u8, buf: Seq<u8>) -> Seq<u8> {
    seq![(W_ACK_PAYLOAD | pipe) | W_REGISTER] + buf.take(
        if buf.len() < 32 {
            buf.len() as int
        } else {
            32
        },
    )
}

/// How [`Rf24::write_ack_payload`] runs: with ACK payloads enabled (as
/// cached) and a pipe in [0, 5], it transfers the payload; else nothing.
pub open spec fn write_ack_payload_run(s: Rf24View, h: History, c: int, pipe: u8, buf: Seq<u8>) -> Run {
    if s.feature & ACK_PAYLOADS_BIT != 0 && pipe <= 5 {
        xfer_run(s, h, c, ack_payload_frame(pipe, buf))
    } else {
        done(s, c)
    }
}

/// The SETUP_RETR byte for an auto-retry `delay` and `count` (each clamped
/// to 15).
pub open spec fn auto_retries_byte(delay: u8, count: u8) -> u8 {
    (if count < 15 {
        count
    } else {
        15u8
    }) | ((if delay < 15 {
        delay
    } else {
        15u8
    }) << 4u8)
}

/// The SETUP_RETR byte holds the delay, clamped to 15, in bits 7 to 4 (the
/// ARD field) and the count, clamped to 15, in bits 3 to 0 (the ARC field):
/// a [`SetupRetry`] holding it reads them back.
pub proof fn law_auto_retries_fields(delay: u8, count: u8)
    ensures
        (auto_retries_byte(delay, count) >> 4u8) as int == vstd::math::min(delay as int, 15),
        (auto_retries_byte(delay, count) & 0xF) as int == vstd::math::min(count as int, 15),
        forall|r: SetupRetry|
            #![trigger r@]
            r@ == auto_retries_byte(delay, count) ==> r.ard() as int == vstd::math::min(
                delay as int,
                15,
            ) && r.arc() as int == vstd::math::min(count as int, 15),
{
    let d: u8 = if delay < 15 {
        delay
    } else {
        15
    };
    let n: u8 = if count < 15 {
        count
    } else {
        15
    };
    assert((n | (d << 4u8)) >> 4u8 == d && (n | (d << 4u8)) & 0xF == n) by (bit_vector)
        requires
            d <= 15,
            n <= 15,
    ;
}

impl EsbAutoAck for Rf24 {
    /// Enable or disable ACK payloads (see [`set_ack_payloads_run`]).
    fn set_ack_payloads(&mut self, t: &mut Transcript, enable: bool) -> (r: Result<(), Stop>)
        ensures
            advanced(r, old(t)@, final(t)@),
            no_fail(r),
            ran(
                r,
                final(t)@,
                final(self)@,
                set_ack_payloads_run(old(self)@, old(t)@.history, old(t)@.cursor, enable),
            ),
    {
        if self.feature.ack_payloads() != enable {
            self.spi_read(t, 1, FEATURE)?;
            self.feature = Feature::from_bits(
                self.feature.into_bits() & !FEATURE_REG_MASK | self.buf[1],
            ).with_ack_payloads(enable);
            self.spi_write_byte(t, FEATURE, self.feature.into_bits() & FEATURE_REG_MASK)?;
            if enable {
                self.spi_write_byte(t, DYNPD, 0x3F)?;
            }
        }
        Ok(())
    }

    /// Are ACK payloads enabled (as cached)?
    fn get_ack_payloads(&self) -> (r: bool)
        ensures
            r == (self@.feature & ACK_PAYLOADS_BIT != 0),
    {
        self.feature.ack_payloads()
    }

    /// Enable or disable auto-ack on all pipes (see [`set_auto_ack_run`]).
    fn set_auto_ack(&mut self, t: &mut Transcript, enable: bool) -> (r: Result<(), Stop>)
        ensures
            advanced(r, old(t)@, final(t)@),
            no_fail(r),
            ran(
                r,
                final(t)@,
                final(self)@,
                set_auto_ack_run(old(self)@, old(t)@.history, old(t)@.cursor, enable),
            ),
    {
        let v: u8 = if enable {
            0x3F
        } else {
            0
        };
        self.spi_write_byte(t, EN_AA, v)?;
        if !enable && self.feature.ack_payloads() {
            self.set_ack_payloads(t, false)?;
        }
        Ok(())
    }

    /// Enable or disable auto-ack on one pipe (see [`set_auto_ack_pipe_run`]).
    fn set_auto_ack_pipe(&mut self, t: &mut Transcript, enable: bool, pipe: u8) -> (r: Result<
        (),
        Stop,
    >)
        ensures
            advanced(r, old(t)@, final(t)@),
            no_fail(r),
            ran(
                r,
                final(t)@,
                final(self)@,
                set_auto_ack_pipe_run(old(self)@, old(t)@.history, old(t)@.cursor, enable, pipe),
            ),
    {
        if pipe > 5 {
            return Ok(());
        }
        self.spi_read(t, 1, EN_AA)?;
        let mask = 1u8 << pipe;
        let reg_val = self.buf[1];
        if !enable && self.feature.ack_payloads() && pipe == 0 {
            self.set_ack_payloads(t, enable)?;
        }
        let bit: u8 = if enable {
            mask
        } else {
            0
        };
        self.spi_write_byte(t, EN_AA, reg_val & !mask | bit)
    }

    /// Allow (or not) payloads that ask for no ACK (see
    /// [`allow_ask_no_ack_run`]).
    fn allow_ask_no_ack(&mut self, t: &mut Transcript, enable: bool) -> (r: Result<(), Stop>)
        ensures
            advanced(r, old(t)@, final(t)@),
            no_fail(r),
            ran(
                r,
                final(t)@,
                final(self)@,
                allow_ask_no_ack_run(old(self)@, old(t)@.history, old(t)@.cursor, enable),
            ),
    {
        self.spi_read(t, 1, FEATURE)?;
        let bit: u8 = if enable {
            1
        } else {
            0
        };
        self.spi_write_byte(t, FEATURE, self.buf[1] & !1u8 | bit)
    }

    /// Load a payload for the next ACK that pipe `pipe` sends (see
    /// [`write_ack_payload_run`]). The result tells whether the TX FIFO has
    /// room left; it is `false` when nothing was loaded.
    fn write_ack_payload(&mut self, t: &mut Transcript, pipe: u8, buf: &[u8]) -> (r: Result<
        bool,
        Stop,
    >)
        ensures
            advanced(r, old(t)@, final(t)@),
            no_fail(r),
            ({
                let run = write_ack_payload_run(old(self)@, old(t)@.history, old(t)@.cursor, pipe, buf@);
                &&& ran(r, final(t)@, final(self)@, run)
                &&& r is Ok ==> r->Ok_0 == (old(self)@.feature & ACK_PAYLOADS_BIT != 0 && pipe <= 5
                    && run.state.io.status & 1 == 0)
            }),
    {
        if self.feature.ack_payloads() && pipe <= 5 {
            let len = if buf.len() < 32 {
                buf.len()
            } else {
                32
            };
            self.spi_write_buf(t, W_ACK_PAYLOAD | pipe, buf, len)?;
            return Ok(!self.status.tx_full());
        }
        Ok(false)
    }

    /// Set the auto-retry delay (in steps of 250 microseconds past 250) and
    /// count, each clamped to 15.
    fn set_auto_retries(&mut self, t: &mut Transcript, delay: u8, count: u8) -> (r: Result<
        (),
        Stop,
    >)
        ensures
            advanced(r, old(t)@, final(t)@),
            no_fail(r),
            ran(
                r,
                final(t)@,
                final(self)@,
                write_run(
                    old(self)@,
                    old(t)@.history,
                    old(t)@.cursor,
                    SETUP_RETR,
                    auto_retries_byte(delay, count),
                ),
            ),
    {
        let c = if count < 15 {
            count
        } else {
            15
        };
        let d = if delay < 15 {
            delay
        } else {
            15
        };
        self.spi_write_byte(t, SETUP_RETR, c | (d << 4u8))
    }
}

} // verus!
