//! RX and TX mode, and moving payloads.
use vstd::prelude::*;

use crate::prelude::{EsbFifo, EsbPayloadLength, EsbPipe, EsbRadio, EsbStatus};

use super::pipe::close_rx_pipe_run;
use super::status::clear_status_flags_run;
use super::{
    act_run, advanced, done, failed, no_fail, opt_bytes, ran, read_run, replayed, reply, stopped,
    write_run, xfer_run, zeros, History, Rf24, Rf24View, Run,
};
use crate::bit_fields::{ACK_PAYLOADS_BIT, DYNAMIC_PAYLOADS_BIT};
use crate::commands::{
    FLUSH_TX, NOP, REUSE_TX_PL, R_RX_PAYLOAD, R_RX_PL_WID, W_REGISTER, W_TX_PAYLOAD, W_TX_PAYLOAD_NO_ACK,
};
use crate::config::{copy_prefix5, overwrite};
use crate::mnemonics::{MASK_MAX_RT, MASK_RX_DR, MASK_TX_DS};
use crate::registers::{CONFIG, EN_RXADDR, OBSERVE_TX, RX_ADDR_P0, TX_ADDR};
use crate::transcript::{ActionView, Stop, Transcript, TranscriptView};
use crate::types::{Nrf24Error, StatusFlags, IRQ_MASK};

verus! {

/// The bytes that write the first `n` bytes of `address` to register `reg`.
pub open spec fn address_frame(reg: u8, address: Seq<u8>, n: int) -> Seq<u8> {
    seq![reg | W_REGISTER] + address.take(n)
}

/// How [`Rf24::as_rx`] runs: it writes CONFIG with the RX bit set (and
/// caches it), clears the IRQ events, drives CE high, then writes the
/// cached pipe 0 address (cut to the cached address length) or, with none
/// cached, closes pipe 0.
pub open spec fn as_rx_run(s: Rf24View, h: History, c: int) -> Run {
    let v = s.config_reg | 1;
    write_run(Rf24View { config_reg: v, ..s }, h, c, CONFIG, v).and_then(
        |s1: Rf24View, c1: int| clear_status_flags_run(s1, h, c1, IRQ_MASK),
    ).and_then(|s2: Rf24View, c2: int| act_run(s2, h, c2, ActionView::SetCe(true))).and_then(
        |s3: Rf24View, c3: int|
            match s3.pipe0_rx_addr {
                Some(a) => xfer_run(s3, h, c3, address_frame(RX_ADDR_P0, a, s3.address_length() as int)),
                None => close_rx_pipe_run(s3, h, c3, 0),
            },
    )
}

/// How [`Rf24::as_tx`] runs: it drives CE low, waits the delay for ACK
/// packets, flushes the TX FIFO if ACK payloads are enabled, and writes
/// CONFIG with the RX bit cleared (and caches it). A new TX address is
/// cached (at most the cached address length of it) and written to
/// TX_ADDR. The TX address is then written to pipe 0 (for auto-ack), and
/// EN_RXADDR is read and written back with pipe 0 open.
pub open spec fn as_tx_run(s: Rf24View, h: History, c: int, tx_address: Option<Seq<u8>>) -> Run {
    let al = s.address_length() as int;
    act_run(s, h, c, ActionView::SetCe(false)).and_then(
        |s1: Rf24View, c1: int| act_run(s1, h, c1, ActionView::DelayUs(s1.tx_delay)),
    ).and_then(
        |s2: Rf24View, c2: int|
            if s2.feature & ACK_PAYLOADS_BIT != 0 {
                xfer_run(s2, h, c2, seq![FLUSH_TX])
            } else {
                done(s2, c2)
            },
    ).and_then(
        |s3: Rf24View, c3: int|
            {
                let v = s3.config_reg & !1u8;
                write_run(Rf24View { config_reg: v, ..s3 }, h, c3, CONFIG, v)
            },
    ).and_then(
        |s4: Rf24View, c4: int|
            match tx_address {
                Some(a) => {
                    let n = if a.len() < al {
                        a.len() as int
                    } else {
                        al
                    };
                    let s5 = Rf24View { tx_address: overwrite(s4.tx_address, a, n), ..s4 };
                    xfer_run(s5, h, c4, address_frame(TX_ADDR, s5.tx_address, al))
                },
                None => done(s4, c4),
            },
    ).and_then(
        |s6: Rf24View, c6: int| xfer_run(s6, h, c6, address_frame(RX_ADDR_P0, s6.tx_address, al)),
    ).and_then(|s7: Rf24View, c7: int| read_run(s7, h, c7, EN_RXADDR, 1)).and_then(
        |s8: Rf24View, c8: int| write_run(s8, h, c8, EN_RXADDR, s8.io.buf[1] | 1),
    )
}

/// The bytes that [`Rf24::write`] transfers: the command (asking for an ACK
/// or not) and at most 32 bytes of `buf`, padded with zeros to the static
/// payload length unless dynamic payloads are enabled.
pub open spec fn payload_frame(s: Rf24View, buf: Seq<u8>, ask_no_ack: bool) -> Seq<u8> {
    let n = if buf.len() < 32 {
        buf.len() as int
    } else {
        32
    };
    let cmd = if ask_no_ack {
        W_TX_PAYLOAD_NO_ACK
    } else {
        W_TX_PAYLOAD
    };
    let len = if s.feature & DYNAMIC_PAYLOADS_BIT == 0 && n < s.payload_length {
        s.payload_length as int
    } else {
        n
    };
    seq![cmd] + buf.take(n) + zeros(len - n)
}

/// How [`Rf24::write`] runs in TX mode: it clears the "TX Data Sent" and
/// "TX Data Failed" events, transfers the payload, and drives CE high if
/// `start_tx`.
pub open spec fn write_payload_run(
    s: Rf24View,
    h: History,
    c: int,
    buf: Seq<u8>,
    ask_no_ack: bool,
    start_tx: bool,
) -> Run {
    clear_status_flags_run(s, h, c, MASK_MAX_RT | MASK_TX_DS).and_then(
        |s1: Rf24View, c1: int| xfer_run(s1, h, c1, payload_frame(s1, buf, ask_no_ack)),
    ).and_then(
        |s2: Rf24View, c2: int|
            if start_tx {
                act_run(s2, h, c2, ActionView::SetCe(true))
            } else {
                done(s2, c2)
            },
    )
}

/// How waiting for the end of a transmission runs: while the STATUS byte
/// shows neither "TX Data Sent" nor "TX Data Failed", fetch it again (NOP).
pub open spec fn poll_run(s: Rf24View, h: History, c: int) -> Run
    decreases h.len() - c,
{
    if s.io.status & (MASK_MAX_RT | MASK_TX_DS) != 0 {
        done(s, c)
    } else {
        let r1 = xfer_run(s, h, c, seq![NOP]);
        if r1.ok && c < h.len() {
            poll_run(r1.state, h, r1.end)
        } else {
            r1
        }
    }
}

/// The first steps of [`Rf24::send`]: CE driven low and the TX FIFO flushed.
pub open spec fn send_start_run(s: Rf24View, h: History, c: int) -> Run {
    act_run(s, h, c, ActionView::SetCe(false)).and_then(
        |s1: Rf24View, c1: int| xfer_run(s1, h, c1, seq![FLUSH_TX]),
    )
}

/// [`Rf24::send`] up to the payload's upload (in TX mode).
pub open spec fn send_upload_run(s: Rf24View, h: History, c: int, buf: Seq<u8>, ask_no_ack: bool) -> Run {
    send_start_run(s, h, c).and_then(
        |s2: Rf24View, c2: int| write_payload_run(s2, h, c2, buf, ask_no_ack, true),
    )
}

/// How [`Rf24::send`] runs in TX mode: after the upload, unless the TX FIFO
/// is full, it waits 10 microseconds and then for the end of the
/// transmission.
pub open spec fn send_run(s: Rf24View, h: History, c: int, buf: Seq<u8>, ask_no_ack: bool) -> Run {
    send_upload_run(s, h, c, buf, ask_no_ack).and_then(
        |s3: Rf24View, c3: int|
            if s3.io.status & 1 != 0 {
                done(s3, c3)
            } else {
                act_run(s3, h, c3, ActionView::DelayUs(10)).and_then(
                    |s4: Rf24View, c4: int| poll_run(s4, h, c4),
                )
            },
    )
}

/// What [`Rf24::send`] reports in TX mode: `false` if the TX FIFO was full,
/// else whether the payload was sent.
pub open spec fn send_outcome(s: Rf24View, h: History, c: int, buf: Seq<u8>, ask_no_ack: bool) -> bool {
    if send_upload_run(s, h, c, buf, ask_no_ack).state.io.status & 1 != 0 {
        false
    } else {
        send_run(s, h, c, buf, ask_no_ack).state.io.status & MASK_TX_DS != 0
    }
}

/// [`Rf24::send`] of `buf` from state `s` at exchange `c` returned `r`,
/// leaving the transcript `t1` and the state `state`: in RX mode it fails
/// with [`Nrf24Error::NotAsTxError`] after [`send_start_run`]; in TX mode it
/// goes as [`send_run`] and reports [`send_outcome`].
pub open spec fn send_went(
    r: Result<bool, Stop>,
    t1: TranscriptView,
    state: Rf24View,
    s: Rf24View,
    h: History,
    c: int,
    buf: Seq<u8>,
    ask_no_ack: bool,
) -> bool {
    let start = send_start_run(s, h, c);
    &&& s.config_reg & 1 != 0 ==> {
        &&& failed(r, Nrf24Error::NotAsTxError) <==> start.ok
        &&& !start.ok ==> stopped(r) && (r matches Err(Stop::Suspend) ==> t1.pending == Some(
            start.asked,
        ))
        &&& start.ok ==> t1.cursor == start.end && state == start.state
    }
    &&& s.config_reg & 1 == 0 ==> {
        &&& no_fail(r)
        &&& ran(r, t1, state, send_run(s, h, c, buf, ask_no_ack))
        &&& r is Ok ==> r->Ok_0 == send_outcome(s, h, c, buf, ask_no_ack)
    }
}

/// How [`Rf24::rewrite`] runs: CE low, the "TX Data Sent" and "TX Data
/// Failed" events cleared, the REUSE_TX_PL command, CE high.
pub open spec fn rewrite_run(s: Rf24View, h: History, c: int) -> Run {
    act_run(s, h, c, ActionView::SetCe(false)).and_then(
        |s1: Rf24View, c1: int| clear_status_flags_run(s1, h, c1, MASK_TX_DS | MASK_MAX_RT),
    ).and_then(|s2: Rf24View, c2: int| xfer_run(s2, h, c2, seq![REUSE_TX_PL])).and_then(
        |s3: Rf24View, c3: int| act_run(s3, h, c3, ActionView::SetCe(true)),
    )
}

/// How [`Rf24::resend`] runs: nothing in RX mode; else the payload is sent
/// again (see [`rewrite_run`]) and, after 10 microseconds, it waits for the
/// end of the transmission.
pub open spec fn resend_run(s: Rf24View, h: History, c: int) -> Run {
    if s.config_reg & 1 != 0 {
        done(s, c)
    } else {
        rewrite_run(s, h, c).and_then(
            |s1: Rf24View, c1: int| act_run(s1, h, c1, ActionView::DelayUs(10)),
        ).and_then(|s2: Rf24View, c2: int| poll_run(s2, h, c2))
    }
}

/// The first step of [`Rf24::read`]: with dynamic payloads, reading the
/// length of the next payload.
pub open spec fn read_width_run(s: Rf24View, h: History, c: int) -> Run {
    if s.feature & DYNAMIC_PAYLOADS_BIT != 0 {
        read_run(s, h, c, R_RX_PL_WID, 1)
    } else {
        done(s, c)
    }
}

/// How many bytes [`Rf24::read`] reads into a buffer of `buf_len` bytes:
/// no more than 32, than `len` if given, and otherwise than the length of
/// the next payload (dynamic payloads) or the static payload length.
pub open spec fn read_count(s: Rf24View, h: History, c: int, buf_len: int, len: Option<u8>) -> u8 {
    let width = if s.feature & DYNAMIC_PAYLOADS_BIT != 0 {
        reply(h, c)[1]
    } else {
        s.payload_length
    };
    let cap = if buf_len < 32 {
        buf_len as u8
    } else {
        32u8
    };
    let want = match len {
        Some(l) => l,
        None => width,
    };
    if cap < want {
        cap
    } else {
        want
    }
}

/// The length of the next payload that [`Rf24::read`] read is over 32.
pub open spec fn read_corrupt(s: Rf24View, h: History, c: int) -> bool {
    s.feature & DYNAMIC_PAYLOADS_BIT != 0 && read_width_run(s, h, c).ok && reply(h, c)[1] > 32
}

/// How [`Rf24::read`] runs: after [`read_width_run`], unless it reads no
/// byte, it reads the payload and clears the "RX Data Ready" event.
pub open spec fn read_payload_run(s: Rf24View, h: History, c: int, buf_len: int, len: Option<u8>) -> Run {
    let n = read_count(s, h, c, buf_len, len);
    read_width_run(s, h, c).and_then(
        |s1: Rf24View, c1: int|
            if n == 0 {
                done(s1, c1)
            } else {
                read_run(s1, h, c1, R_RX_PAYLOAD, n as int).and_then(
                    |s2: Rf24View, c2: int| clear_status_flags_run(s2, h, c2, MASK_RX_DR),
                )
            },
    )
}

impl Rf24 {
    /// Fetch the STATUS byte until it shows "TX Data Sent" or "TX Data
    /// Failed" (see [`poll_run`]).
    fn wait_for_tx(&mut self, t: &mut Transcript) -> (r: Result<(), Stop>)
        ensures
            advanced(r, old(t)@, final(t)@),
            no_fail(r),
            ran(r, final(t)@, final(self)@, poll_run(old(self)@, old(t)@.history, old(t)@.cursor)),
    {
        let ghost h = t@.history;
        let ghost goal = poll_run(self@, h, t@.cursor);
        while self.status.into_bits() & (MASK_MAX_RT | MASK_TX_DS) == 0
            invariant
                t@.history == h,
                h == old(t)@.history,
                goal == poll_run(old(self)@, old(t)@.history, old(t)@.cursor),
                poll_run(self@, h, t@.cursor) == goal,
            decreases h.len() - t@.cursor,
        {
            let ghost c = t@.cursor;
            self.spi_command(t, NOP)?;
            assert(c < h.len());
        }
        Ok(())
    }
}

impl EsbRadio for Rf24 {
    /// Pipe 0's cached address, if any, fits its 5 bytes.
    open spec fn rx_ready(&self) -> bool {
        self@.pipe0_rx_addr is Some ==> self@.address_length() <= 5
    }

    /// The cached address length is at most 5.
    open spec fn tx_ready(&self) -> bool {
        self@.address_length() <= 5
    }

    /// The driver's view is well formed (a static payload length in
    /// [1, 32]).
    open spec fn upload_ready(&self) -> bool {
        self@.wf()
    }

    /// Enter RX mode (see [`as_rx_run`]).
    fn as_rx(&mut self, t: &mut Transcript) -> (r: Result<(), Stop>)
        ensures
            advanced(r, old(t)@, final(t)@),
            no_fail(r),
            ran(r, final(t)@, final(self)@, as_rx_run(old(self)@, old(t)@.history, old(t)@.cursor)),
    {
        self.config_reg = self.config_reg.as_rx();
        self.spi_write_byte(t, CONFIG, self.config_reg.into_bits())?;
        self.clear_status_flags(t, StatusFlags::new())?;
        self.set_ce(t, true)?;
        match self.pipe0_rx_addr {
            Some(addr) => {
                let al = self.feature.address_length() as usize;
                self.spi_write_buf(t, RX_ADDR_P0, &addr, al)
            },
            None => self.close_rx_pipe(t, 0),
        }
    }

    /// Enter TX mode, with a new TX address if one is given (see
    /// [`as_tx_run`]).
    fn as_tx(&mut self, t: &mut Transcript, tx_address: Option<&[u8]>) -> (r: Result<(), Stop>)
        ensures
            advanced(r, old(t)@, final(t)@),
            no_fail(r),
            ran(
                r,
                final(t)@,
                final(self)@,
                as_tx_run(old(self)@, old(t)@.history, old(t)@.cursor, opt_bytes(tx_address)),
            ),
    {
        self.set_ce(t, false)?;
        let delay = self.tx_delay;
        self.delay_us(t, delay)?;
        if self.feature.ack_payloads() {
            self.flush_tx(t)?;
        }
        self.config_reg = self.config_reg.as_tx();
        self.spi_write_byte(t, CONFIG, self.config_reg.into_bits())?;
        let al = self.feature.address_length() as usize;
        match tx_address {
            Some(a) => {
                let n = if a.len() < al {
                    a.len()
                } else {
                    al
                };
                let mut addr = self.tx_address;
                copy_prefix5(&mut addr, a, n);
                self.tx_address = addr;
                self.spi_write_buf(t, TX_ADDR, &addr, al)?;
            },
            None => {},
        }
        let addr = self.tx_address;
        self.spi_write_buf(t, RX_ADDR_P0, &addr, al)?;
        self.spi_read(t, 1, EN_RXADDR)?;
        let out = self.buf[1] | 1;
        self.spi_write_byte(t, EN_RXADDR, out)
    }

    /// Is the radio in RX mode (as cached)?
    fn is_rx(&self) -> (r: bool)
        ensures
            r == (self@.config_reg & 1 != 0),
    {
        self.config_reg.is_rx()
    }

    /// Upload a payload to the TX FIFO (see [`write_payload_run`]); the
    /// result tells whether the TX FIFO has room left. In RX mode nothing
    /// happens and it fails with [`Nrf24Error::NotAsTxError`].
    fn write(&mut self, t: &mut Transcript, buf: &[u8], ask_no_ack: bool, start_tx: bool) -> (r:
        Result<bool, Stop>)
        ensures
            advanced(r, old(t)@, final(t)@),
            ({
                let (h, c, s) = (old(t)@.history, old(t)@.cursor, old(self)@);
                let run = write_payload_run(s, h, c, buf@, ask_no_ack, start_tx);
                &&& s.config_reg & 1 != 0 ==> failed(r, Nrf24Error::NotAsTxError) && final(t)@.cursor
                    == c && final(self)@ == s
                &&& s.config_reg & 1 == 0 ==> no_fail(r) && ran(r, final(t)@, final(self)@, run)
                &&& r is Ok ==> r->Ok_0 == (run.state.io.status & 1 == 0)
            }),
    {
        if self.config_reg.is_rx() {
            return Err(Stop::Fail(Nrf24Error::NotAsTxError));
        }
        self.clear_status_flags(t, StatusFlags::from_bits(MASK_MAX_RT | MASK_TX_DS))?;
        let n = if buf.len() < 32 {
            buf.len()
        } else {
            32
        };
        let cmd = if !ask_no_ack {
            W_TX_PAYLOAD
        } else {
            W_TX_PAYLOAD_NO_ACK
        };
        if !self.feature.dynamic_payloads() && (n as u8) < self.payload_length {
            let len = self.payload_length as usize;
            self.spi_write_payload(t, cmd, buf, n, len)?;
        } else {
            self.spi_write_payload(t, cmd, buf, n, n)?;
        }
        if start_tx {
            self.set_ce(t, true)?;
        }
        Ok(!self.status.tx_full())
    }

    /// Transmit one payload and wait for the outcome (see [`send_run`] and
    /// [`send_outcome`]). In RX mode it fails with
    /// [`Nrf24Error::NotAsTxError`] after the first steps.
    fn send(&mut self, t: &mut Transcript, buf: &[u8], ask_no_ack: bool) -> (r: Result<
        bool,
        Stop,
    >)
        ensures
            advanced(r, old(t)@, final(t)@),
            send_went(
                r,
                final(t)@,
                final(self)@,
                old(self)@,
                old(t)@.history,
                old(t)@.cursor,
                buf@,
                ask_no_ack,
            ),
    {
        self.set_ce(t, false)?;
        self.flush_tx(t)?;
        if !self.write(t, buf, ask_no_ack, true)? {
            return Ok(false);
        }
        self.delay_us(t, 10)?;
        self.wait_for_tx(t)?;
        Ok(self.status.tx_ds())
    }

    /// Read a payload from the RX FIFO into `buf` (see
    /// [`read_payload_run`]); the result is the number of bytes read. With
    /// dynamic payloads, a payload length over 32 fails with
    /// [`Nrf24Error::BinaryCorruption`].
    fn read(&mut self, t: &mut Transcript, buf: &mut [u8], len: Option<u8>) -> (r: Result<
        u8,
        Stop,
    >)
        ensures
            advanced(r, old(t)@, final(t)@),
            no_fail(r) || failed(r, Nrf24Error::BinaryCorruption),
            ({
                let (h, c, s) = (old(t)@.history, old(t)@.cursor, old(self)@);
                let pre = read_width_run(s, h, c);
                let n = read_count(s, h, c, old(buf)@.len() as int, len);
                let run = read_payload_run(s, h, c, old(buf)@.len() as int, len);
                &&& failed(r, Nrf24Error::BinaryCorruption) <==> read_corrupt(s, h, c)
                &&& read_corrupt(s, h, c) ==> final(t)@.cursor == pre.end && final(self)@ == pre.state
                &&& !read_corrupt(s, h, c) ==> ran(r, final(t)@, final(self)@, run)
                &&& r is Ok ==> r->Ok_0 == n && final(buf)@ == (if n == 0 {
                    old(buf)@
                } else {
                    reply(h, pre.end).subrange(1, n + 1) + old(buf)@.skip(n as int)
                })
            }),
    {
        proof {
            reveal_with_fuel(replayed, 2);
        }
        let cap: u8 = if buf.len() < 32 {
            buf.len() as u8
        } else {
            32
        };
        let width = if self.feature.dynamic_payloads() {
            self.get_dynamic_payload_length(t)?
        } else {
            self.payload_length
        };
        let want = match len {
            Some(l) => l,
            None => width,
        };
        let n = if cap < want {
            cap
        } else {
            want
        };
        if n == 0 {
            return Ok(0);
        }
        let ghost c1 = t@.cursor;
        self.spi_read(t, n, R_RX_PAYLOAD)?;
        let ghost got = self.buf@;
        let mut i: usize = 0;
        while i < n as usize
            invariant
                i <= n <= 32,
                n <= old(buf)@.len(),
                buf@.len() == old(buf)@.len(),
                self.buf@ == got,
                got.len() == 33,
                forall|j: int| 0 <= j < i ==> buf@[j] == got[j + 1],
                forall|j: int| i <= j < buf@.len() ==> buf@[j] == old(buf)@[j],
            decreases n - i,
        {
            buf[i] = self.buf[i + 1];
            i = i + 1;
        }
        proof {
            assert(buf@ =~= got.subrange(1, n + 1) + old(buf)@.skip(n as int));
            assert(got.subrange(1, n + 1) =~= reply(t@.history, c1).subrange(1, n + 1));
        }
        self.clear_status_flags(t, StatusFlags::from_bits(MASK_RX_DR))?;
        Ok(n)
    }

    /// Transmit the payload at the top of the TX FIFO again and wait for the
    /// outcome (see [`resend_run`]); the result tells whether it was sent
    /// (`false` in RX mode, where nothing happens).
    fn resend(&mut self, t: &mut Transcript) -> (r: Result<bool, Stop>)
        ensures
            advanced(r, old(t)@, final(t)@),
            no_fail(r),
            ({
                let run = resend_run(old(self)@, old(t)@.history, old(t)@.cursor);
                &&& ran(r, final(t)@, final(self)@, run)
                &&& r is Ok ==> r->Ok_0 == (old(self)@.config_reg & 1 == 0 && run.state.io.status
                    & MASK_TX_DS != 0)
            }),
    {
        if self.config_reg.is_rx() {
            return Ok(false);
        }
        self.rewrite(t)?;
        self.delay_us(t, 10)?;
        self.wait_for_tx(t)?;
        Ok(self.status.tx_ds())
    }

    /// Transmit the payload at the top of the TX FIFO again, without waiting
    /// (see [`rewrite_run`]).
    fn rewrite(&mut self, t: &mut Transcript) -> (r: Result<(), Stop>)
        ensures
            advanced(r, old(t)@, final(t)@),
            no_fail(r),
            ran(r, final(t)@, final(self)@, rewrite_run(old(self)@, old(t)@.history, old(t)@.cursor)),
    {
        self.set_ce(t, false)?;
        self.clear_status_flags(t, StatusFlags::from_bits(MASK_TX_DS | MASK_MAX_RT))?;
        self.spi_command(t, REUSE_TX_PL)?;
        self.set_ce(t, true)
    }

    /// The number of retries of the last transmission (OBSERVE_TX).
    fn get_last_arc(&mut self, t: &mut Transcript) -> (r: Result<u8, Stop>)
        ensures
            advanced(r, old(t)@, final(t)@),
            no_fail(r),
            ran(r, final(t)@, final(self)@, read_run(old(self)@, old(t)@.history, old(t)@.cursor, OBSERVE_TX, 1)),
            r is Ok ==> r->Ok_0 == reply(old(t)@.history, old(t)@.cursor)[1] & 0xF,
    {
        proof {
            reveal_with_fuel(replayed, 2);
        }
        self.spi_read(t, 1, OBSERVE_TX)?;
        Ok(self.buf[1] & 0xF)
    }
}

} // verus!
