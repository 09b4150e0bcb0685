//! The nRF24L01 driver.
//!
//! [`Rf24`] holds what the driver caches about the radio; each operation
//! takes the [`Transcript`] through which it talks to the hardware (see the
//! crate's documentation).
use vstd::prelude::*;

use crate::bit_fields::{Config, Feature};
use crate::commands::{ACTIVATE, W_REGISTER};
use crate::transcript::{Action, ActionView, Stop, Transcript, TranscriptView};
use crate::types::{Nrf24Error, StatusFlags};

pub mod auto_ack;
pub mod channel;
pub mod crc_length;
pub mod data_rate;
pub mod details;
pub mod fifo;
pub mod init;
pub mod pa_level;
pub mod payload_length;
pub mod pipe;
pub mod power;
pub mod properties;
pub mod radio;
pub mod signal;
pub mod status;

verus! {

/// What the driver caches about the radio.
///
/// Writing and sending a payload need its view well formed (see
/// [`Rf24View::wf`]): [`Rf24::new`] gives such a view, and the static
/// payload length that operations cache is clamped to [1, 32].
#[derive(Clone, Copy, Debug)]
pub struct Rf24 {
    /// The delay (in microseconds) that [`Rf24::as_tx`] waits for ACK packets
    /// to complete. With auto-ack disabled it can be as low as 0; with
    /// auto-ack, 100 at least on fast hosts. Setting the data rate adjusts
    /// it.
    pub tx_delay: u32,
    buf: [u8; 33],
    status: StatusFlags,
    config_reg: Config,
    feature: Feature,
    pipe0_rx_addr: Option<[u8; 5]>,
    payload_length: u8,
    tx_address: [u8; 5],
}

/// What the driver holds of the traffic on the SPI bus.
pub struct Io {
    /// The SPI buffer: the bytes of the last transfer's reply, followed by
    /// those that earlier transfers left.
    pub buf: Seq<u8>,
    /// The STATUS byte that came with the last transfer.
    pub status: u8,
}

/// The abstract content of an [`Rf24`].
pub struct Rf24View {
    pub tx_delay: u32,
    pub io: Io,
    /// The cached CONFIG register.
    pub config_reg: u8,
    /// The cached FEATURE register, with the address length and chip variant.
    pub feature: u8,
    /// The RX address of pipe 0, to restore when entering RX mode.
    pub pipe0_rx_addr: Option<Seq<u8>>,
    /// The static payload length.
    pub payload_length: u8,
    /// The TX address.
    pub tx_address: Seq<u8>,
}

impl View for Rf24 {
    type V = Rf24View;

    closed spec fn view(&self) -> Rf24View {
        Rf24View {
            tx_delay: self.tx_delay,
            io: Io { buf: self.buf@, status: self.status@ },
            config_reg: self.config_reg@,
            feature: self.feature@,
            pipe0_rx_addr: match self.pipe0_rx_addr {
                Some(a) => Some(a@),
                None => None,
            },
            payload_length: self.payload_length,
            tx_address: self.tx_address@,
        }
    }
}

impl Io {
    /// What the driver holds after the reply `reply` of a transfer came in.
    pub open spec fn absorb(self, reply: Seq<u8>) -> Io {
        Io { buf: reply + self.buf.skip(reply.len() as int), status: reply[0] }
    }
}

impl Rf24View {
    /// This state after the replies of the transfers among the exchanges
    /// `from..to` came in, in order.
    pub open spec fn replay(self, h: History, from: int, to: int) -> Rf24View {
        Rf24View { io: replayed(self.io, h, from, to), ..self }
    }

    /// The well-formed states.
    pub open spec fn wf(self) -> bool {
        &&& self.io.buf.len() == 33
        &&& self.tx_address.len() == 5
        &&& (self.pipe0_rx_addr matches Some(a) ==> a.len() == 5)
        &&& 1 <= self.payload_length <= 32
    }

    /// The address length (in bytes) that the driver caches.
    pub open spec fn address_length(self) -> u8 {
        self.feature >> 5u8
    }
}

/// The performed actions, each with its reply.
pub type History = Seq<(ActionView, Seq<u8>)>;

/// Exchange `k` performed `a`.
pub open spec fn at(h: History, k: int, a: ActionView) -> bool {
    0 <= k < h.len() && h[k].0 == a
}

/// The reply of exchange `k`.
pub open spec fn reply(h: History, k: int) -> Seq<u8> {
    h[k].1
}

/// Exchange `k` transferred `frame` (and its reply has the frame's length).
pub open spec fn sent(h: History, k: int, frame: Seq<u8>) -> bool {
    at(h, k, ActionView::Transfer(frame)) && reply(h, k).len() == frame.len()
}

/// The bytes that write `byte` to register `reg`.
pub open spec fn write_frame(reg: u8, byte: u8) -> Seq<u8> {
    seq![reg | W_REGISTER, byte]
}

/// The bytes of command `cmd` followed by `n` bytes left in the buffer `buf`.
pub open spec fn read_frame(buf: Seq<u8>, cmd: u8, n: int) -> Seq<u8> {
    seq![cmd] + buf.subrange(1, n + 1)
}

/// `n` zero bytes.
pub open spec fn zeros(n: int) -> Seq<u8> {
    Seq::new(n as nat, |i: int| 0u8)
}

/// The bytes of an optional slice.
pub open spec fn opt_bytes(o: Option<&[u8]>) -> Option<Seq<u8>> {
    match o {
        Some(a) => Some(a@),
        None => None,
    }
}

/// What the driver holds after the replies of the transfers among the
/// exchanges `from..to` came in, in order.
pub open spec fn replayed(io: Io, h: History, from: int, to: int) -> Io
    decreases to - from,
{
    if to <= from {
        io
    } else {
        let p = replayed(io, h, from, to - 1);
        if h[to - 1].0 is Transfer {
            p.absorb(reply(h, to - 1))
        } else {
            p
        }
    }
}

/// Replaying `a..b` and then `b..c` is replaying `a..c`.
pub proof fn lemma_replayed_join(io: Io, h: History, a: int, b: int, c: int)
    requires
        a <= b <= c,
    ensures
        replayed(replayed(io, h, a, b), h, b, c) == replayed(io, h, a, c),
    decreases c - b,
{
    if c > b {
        lemma_replayed_join(io, h, a, b, c - 1);
    }
}

/// Replaying `a..b` and then `b..c` on a state is replaying `a..c`.
pub proof fn lemma_replay_join(s: Rf24View, h: History, a: int, b: int, c: int)
    requires
        a <= b <= c,
    ensures
        s.replay(h, a, b).replay(h, b, c) == s.replay(h, a, c),
{
    lemma_replayed_join(s.io, h, a, b, c);
}

/// Two buffers that differ only in their first `n` bytes are equal once a
/// reply of `n` bytes came in.
pub proof fn lemma_absorb_prefix(a: Io, b: Io, n: int, reply: Seq<u8>)
    requires
        a.buf.len() == b.buf.len(),
        0 <= n <= a.buf.len(),
        a.buf.skip(n) == b.buf.skip(n),
        reply.len() == n,
    ensures
        a.absorb(reply) == b.absorb(reply),
{
    assert(a.absorb(reply).buf =~= b.absorb(reply).buf);
}

/// The transcript kept its history, and an operation that stopped without
/// completing did so for lack of exchanges (all of them used, with the
/// action it asked for next left pending) or because an exchange did not
/// match.
pub open spec fn advanced<T>(r: Result<T, Stop>, t0: TranscriptView, t1: TranscriptView) -> bool {
    &&& t1.history == t0.history
    &&& match r {
        Err(Stop::Suspend) => t1.cursor == t1.history.len() && t1.pending is Some,
        Err(Stop::Diverged) => t1.cursor < t1.history.len(),
        _ => true,
    }
}

/// The operation did not fail (it completed or stopped).
pub open spec fn no_fail<T>(r: Result<T, Stop>) -> bool {
    !(r matches Err(Stop::Fail(_)))
}

/// How an operation fares on a history, from a state and an exchange on:
/// whether every exchange that it asks for was recorded (`ok`), whether it
/// then stopped on a value that no working radio gives (`corrupt`), and if
/// `ok` the exchange after its last one (`end`) and the state it leaves.
pub struct Run {
    pub ok: bool,
    pub corrupt: bool,
    pub end: int,
    pub state: Rf24View,
    /// If not `ok`, the action it asked for at the exchange where it
    /// stopped.
    pub asked: ActionView,
}

impl Run {
    /// This run, followed (if it got through) by `next` from where it ended.
    pub open spec fn and_then(self, next: spec_fn(Rf24View, int) -> Run) -> Run {
        if self.ok && !self.corrupt {
            next(self.state, self.end)
        } else {
            self
        }
    }

    /// This run with the state that it leaves changed by `f`.
    pub open spec fn map(self, f: spec_fn(Rf24View) -> Rf24View) -> Run {
        Run { state: f(self.state), ..self }
    }
}

/// A run that asks for nothing.
pub open spec fn done(s: Rf24View, c: int) -> Run {
    Run { ok: true, corrupt: false, end: c, state: s, asked: ActionView::DelayNs(0) }
}

/// A run that stops at exchange `c` in state `s`, on a value that no
/// working radio gives.
pub open spec fn corrupt(s: Rf24View, c: int) -> Run {
    Run { ok: true, corrupt: true, end: c, state: s, asked: ActionView::DelayNs(0) }
}

/// A run that transfers `frame` at exchange `c`.
pub open spec fn xfer_run(s: Rf24View, h: History, c: int, frame: Seq<u8>) -> Run {
    Run {
        ok: sent(h, c, frame),
        corrupt: false,
        end: c + 1,
        state: s.replay(h, c, c + 1),
        asked: ActionView::Transfer(frame),
    }
}

/// A run that performs `a` (not a transfer) at exchange `c`.
pub open spec fn act_run(s: Rf24View, h: History, c: int, a: ActionView) -> Run {
    Run { ok: at(h, c, a), corrupt: false, end: c + 1, state: s.replay(h, c, c + 1), asked: a }
}

/// A run that reads `n` bytes with command `cmd` at exchange `c`.
pub open spec fn read_run(s: Rf24View, h: History, c: int, cmd: u8, n: int) -> Run {
    xfer_run(s, h, c, read_frame(s.io.buf, cmd, n))
}

/// A run that writes `byte` to register `reg` at exchange `c`.
pub open spec fn write_run(s: Rf24View, h: History, c: int, reg: u8, byte: u8) -> Run {
    xfer_run(s, h, c, write_frame(reg, byte))
}

/// The operation that returned `r`, leaving the transcript `t1` and the
/// state `state`, went as `run` says; if it suspended, the action left
/// pending is the one the run asked for where it stopped.
pub open spec fn ran<T>(r: Result<T, Stop>, t1: TranscriptView, state: Rf24View, run: Run) -> bool {
    &&& r is Ok <==> run.ok && !run.corrupt
    &&& failed(r, Nrf24Error::BinaryCorruption) <==> run.ok && run.corrupt
    &&& run.ok ==> t1.cursor == run.end && state == run.state
    &&& r matches Err(Stop::Suspend) ==> t1.pending == Some(run.asked)
}

/// The operation failed with `e`.
pub open spec fn failed<T>(r: Result<T, Stop>, e: Nrf24Error<(), ()>) -> bool {
    r matches Err(Stop::Fail(x)) && x == e
}

/// The operation stopped without completing (for lack of exchanges or
/// because one did not match).
pub open spec fn stopped<T>(r: Result<T, Stop>) -> bool {
    r matches Err(Stop::Suspend) || r matches Err(Stop::Diverged)
}

impl Rf24 {
    /// A driver that assumes the radio's reset state: 16 bit CRC, all IRQ
    /// events enabled, powered down in TX mode, 5 byte addresses, a plus
    /// variant, 32 byte static payloads, TX address `[0xE7; 5]`.
    pub fn new() -> (r: Rf24)
        ensures
            r@.wf(),
            r@.tx_delay == 250,
            r@.io.buf == seq![0u8; 33],
            r@.io.status == 0,
            r@.config_reg == 0x0C,
            r@.feature == 0xA8,
            r@.pipe0_rx_addr is None,
            r@.payload_length == 32,
            r@.tx_address == seq![0xE7u8; 5],
    {
        let feature = Feature::default().with_address_length(5).with_is_plus_variant(true);
        proof {
            assert(((0u8 & 0x1F) | (5u8 << 5u8)) | 8 == 0xA8u8) by (bit_vector);
        }
        let r = Rf24 {
            tx_delay: 250,
            buf: [0u8; 33],
            status: StatusFlags::from_bits(0),
            config_reg: Config::from_bits(0x0C),
            feature,
            pipe0_rx_addr: None,
            payload_length: 32,
            tx_address: [0xE7; 5],
        };
        assert(r@.io.buf =~= seq![0u8; 33]);
        assert(r@.tx_address =~= seq![0xE7u8; 5]);
        r
    }

    /// The static payload length that the driver caches.
    pub fn cached_payload_length(&self) -> (r: u8)
        ensures
            r == self@.payload_length,
    {
        self.payload_length
    }

    /// The address length (in bytes) that the driver caches; operations
    /// that copy an address of this length need it to be at most 5.
    pub fn cached_address_length(&self) -> (r: u8)
        ensures
            r == self@.address_length(),
    {
        self.feature.address_length()
    }

    /// Transfer the first `len` bytes of the buffer; the reply replaces them
    /// and its first byte is the new STATUS.
    fn transfer(&mut self, t: &mut Transcript, len: usize) -> (r: Result<(), Stop>)
        requires
            1 <= len <= 33,
        ensures
            advanced(r, old(t)@, final(t)@),
            no_fail(r),
            ({
                let (h, c) = (old(t)@.history, old(t)@.cursor);
                &&& r is Ok <==> sent(h, c, old(self)@.io.buf.take(len as int))
                &&& r matches Err(Stop::Suspend) ==> final(t)@.pending == Some(
                    ActionView::Transfer(old(self)@.io.buf.take(len as int)),
                )
                &&& r is Ok ==> final(t)@.cursor == c + 1 && final(self)@ == (Rf24View {
                    io: old(self)@.io.absorb(reply(h, c)),
                    ..old(self)@
                })
            }),
    {
        let mut bytes: Vec<u8> = Vec::new();
        let mut i: usize = 0;
        while i < len
            invariant
                i <= len <= 33,
                self.buf@.len() == 33,
                bytes@ == self.buf@.take(i as int),
            decreases len - i,
        {
            bytes.push(self.buf[i]);
            i = i + 1;
            assert(bytes@ =~= self.buf@.take(i as int));
        }
        let reply = t.perform(Action::Transfer(bytes))?;
        let mut j: usize = 0;
        while j < len
            invariant
                j <= len <= 33,
                reply@.len() == len,
                self.buf@.len() == 33,
                self.buf@ == reply@.take(j as int) + old(self)@.io.buf.skip(j as int),
                self@ == (Rf24View { io: Io { buf: self.buf@, status: old(self)@.io.status }, ..old(self)@ }),
            decreases len - j,
        {
            self.buf[j] = reply[j];
            j = j + 1;
            assert(self.buf@ =~= reply@.take(j as int) + old(self)@.io.buf.skip(j as int));
        }
        self.status = StatusFlags::from_bits(reply[0]);
        assert(reply@.take(len as int) =~= reply@);
        Ok(())
    }

    /// [`Rf24::transfer`] after the first `len` bytes of the buffer were
    /// written over a state `before`.
    fn transfer_over(&mut self, t: &mut Transcript, len: usize, Ghost(before): Ghost<Rf24View>) -> (r:
        Result<(), Stop>)
        requires
            1 <= len <= 33,
            old(self)@ == (Rf24View { io: Io { buf: old(self)@.io.buf, ..before.io }, ..before }),
            before.io.buf.len() == 33,
            old(self)@.io.buf.skip(len as int) == before.io.buf.skip(len as int),
        ensures
            advanced(r, old(t)@, final(t)@),
            no_fail(r),
            ({
                let (h, c) = (old(t)@.history, old(t)@.cursor);
                &&& r is Ok <==> sent(h, c, old(self)@.io.buf.take(len as int))
                &&& r matches Err(Stop::Suspend) ==> final(t)@.pending == Some(
                    ActionView::Transfer(old(self)@.io.buf.take(len as int)),
                )
                &&& r is Ok ==> final(t)@.cursor == c + 1 && final(self)@ == (Rf24View {
                    io: replayed(before.io, h, c, c + 1),
                    ..before
                })
            }),
    {
        let ghost mid = self@.io;
        let ghost c = t@.cursor;
        let r = self.transfer(t, len);
        proof {
            reveal_with_fuel(replayed, 2);
            if r is Ok {
                lemma_absorb_prefix(mid, before.io, len as int, reply(t@.history, c));
            }
        }
        r
    }

    /// Send command `command` followed by `len` bytes (what is left in the
    /// buffer); the reply lands in the buffer.
    fn spi_read(&mut self, t: &mut Transcript, len: u8, command: u8) -> (r: Result<(), Stop>)
        requires
            len <= 32,
        ensures
            advanced(r, old(t)@, final(t)@),
            no_fail(r),
            ran(
                r,
                final(t)@,
                final(self)@,
                read_run(old(self)@, old(t)@.history, old(t)@.cursor, command, len as int),
            ),
    {
        self.buf[0] = command;
        assert(self.buf@.take(len + 1) =~= read_frame(old(self)@.io.buf, command, len as int));
        assert(self.buf@.skip(len + 1) =~= old(self)@.io.buf.skip(len + 1));
        self.transfer_over(t, (len + 1) as usize, Ghost(old(self)@))
    }

    /// Send the one byte command `command`.
    fn spi_command(&mut self, t: &mut Transcript, command: u8) -> (r: Result<(), Stop>)
        ensures
            advanced(r, old(t)@, final(t)@),
            no_fail(r),
            ran(
                r,
                final(t)@,
                final(self)@,
                xfer_run(old(self)@, old(t)@.history, old(t)@.cursor, seq![command]),
            ),
    {
        assert(read_frame(self@.io.buf, command, 0) =~= seq![command]);
        self.spi_read(t, 0, command)
    }

    /// Write `byte` to register `reg`.
    fn spi_write_byte(&mut self, t: &mut Transcript, reg: u8, byte: u8) -> (r: Result<(), Stop>)
        ensures
            advanced(r, old(t)@, final(t)@),
            no_fail(r),
            ran(
                r,
                final(t)@,
                final(self)@,
                write_run(old(self)@, old(t)@.history, old(t)@.cursor, reg, byte),
            ),
    {
        self.buf[0] = reg | W_REGISTER;
        self.buf[1] = byte;
        assert(self.buf@.take(2) =~= write_frame(reg, byte));
        assert(self.buf@.skip(2) =~= old(self)@.io.buf.skip(2));
        self.transfer_over(t, 2, Ghost(old(self)@))
    }

    /// Write the first `n` bytes of `data` to register (or command) `reg`.
    fn spi_write_buf(&mut self, t: &mut Transcript, reg: u8, data: &[u8], n: usize) -> (r: Result<
        (),
        Stop,
    >)
        requires
            n <= data@.len(),
            n <= 32,
        ensures
            advanced(r, old(t)@, final(t)@),
            no_fail(r),
            ran(
                r,
                final(t)@,
                final(self)@,
                xfer_run(
                    old(self)@,
                    old(t)@.history,
                    old(t)@.cursor,
                    seq![reg | W_REGISTER] + data@.take(n as int),
                ),
            ),
    {
        self.buf[0] = reg | W_REGISTER;
        let mut i: usize = 0;
        while i < n
            invariant
                i <= n <= 32,
                n <= data@.len(),
                self.buf@.len() == 33,
                self.buf@[0] == reg | W_REGISTER,
                forall|j: int| 0 <= j < i ==> self.buf@[j + 1] == data@[j],
                forall|j: int| n + 1 <= j < 33 ==> self.buf@[j] == old(self)@.io.buf[j],
                self@ == (Rf24View { io: Io { buf: self.buf@, status: old(self)@.io.status }, ..old(self)@ }),
            decreases n - i,
        {
            self.buf[i + 1] = data[i];
            i = i + 1;
        }
        assert(self.buf@.take(n + 1) =~= seq![reg | W_REGISTER] + data@.take(n as int));
        assert(self.buf@.skip(n + 1) =~= old(self)@.io.buf.skip(n + 1));
        self.transfer_over(t, n + 1, Ghost(old(self)@))
    }

    /// Transfer command `cmd` followed by the first `n` bytes of `data` and
    /// zeros up to `len` bytes after the command.
    fn spi_write_payload(
        &mut self,
        t: &mut Transcript,
        cmd: u8,
        data: &[u8],
        n: usize,
        len: usize,
    ) -> (r: Result<(), Stop>)
        requires
            n <= data@.len(),
            n <= len <= 32,
        ensures
            advanced(r, old(t)@, final(t)@),
            no_fail(r),
            ran(
                r,
                final(t)@,
                final(self)@,
                xfer_run(
                    old(self)@,
                    old(t)@.history,
                    old(t)@.cursor,
                    seq![cmd] + data@.take(n as int) + zeros(len - n),
                ),
            ),
    {
        self.buf[0] = cmd;
        let mut i: usize = 0;
        while i < n
            invariant
                i <= n <= len <= 32,
                n <= data@.len(),
                self.buf@.len() == 33,
                self.buf@[0] == cmd,
                forall|j: int| 0 <= j < i ==> self.buf@[j + 1] == data@[j],
                forall|j: int| len + 1 <= j < 33 ==> self.buf@[j] == old(self)@.io.buf[j],
                self@ == (Rf24View { io: Io { buf: self.buf@, status: old(self)@.io.status }, ..old(self)@ }),
            decreases n - i,
        {
            self.buf[i + 1] = data[i];
            i = i + 1;
        }
        while i < len
            invariant
                n <= i <= len <= 32,
                n <= data@.len(),
                self.buf@.len() == 33,
                self.buf@[0] == cmd,
                forall|j: int| 0 <= j < n ==> self.buf@[j + 1] == data@[j],
                forall|j: int| n + 1 <= j < i + 1 ==> self.buf@[j] == 0u8,
                forall|j: int| len + 1 <= j < 33 ==> self.buf@[j] == old(self)@.io.buf[j],
                self@ == (Rf24View { io: Io { buf: self.buf@, status: old(self)@.io.status }, ..old(self)@ }),
            decreases len - i,
        {
            self.buf[i + 1] = 0;
            i = i + 1;
        }
        assert(self.buf@.take(len + 1) =~= seq![cmd] + data@.take(n as int) + zeros(len - n));
        assert(self.buf@.skip(len + 1) =~= old(self)@.io.buf.skip(len + 1));
        self.transfer_over(t, len + 1, Ghost(old(self)@))
    }

    /// Perform an action other than a transfer.
    fn act(&mut self, t: &mut Transcript, action: Action) -> (r: Result<(), Stop>)
        requires
            !(action is Transfer),
        ensures
            advanced(r, old(t)@, final(t)@),
            no_fail(r),
            ran(r, final(t)@, final(self)@, act_run(old(self)@, old(t)@.history, old(t)@.cursor, action@)),
    {
        proof {
            reveal_with_fuel(replayed, 2);
        }
        t.perform(action)?;
        Ok(())
    }

    /// Drive the CE pin.
    fn set_ce(&mut self, t: &mut Transcript, high: bool) -> (r: Result<(), Stop>)
        ensures
            advanced(r, old(t)@, final(t)@),
            no_fail(r),
            ran(
                r,
                final(t)@,
                final(self)@,
                act_run(old(self)@, old(t)@.history, old(t)@.cursor, ActionView::SetCe(high)),
            ),
    {
        self.act(t, Action::SetCe(high))
    }

    /// Wait `us` microseconds.
    fn delay_us(&mut self, t: &mut Transcript, us: u32) -> (r: Result<(), Stop>)
        ensures
            advanced(r, old(t)@, final(t)@),
            no_fail(r),
            ran(
                r,
                final(t)@,
                final(self)@,
                act_run(old(self)@, old(t)@.history, old(t)@.cursor, ActionView::DelayUs(us)),
            ),
    {
        self.act(t, Action::DelayUs(us))
    }

    /// Wait `ns` nanoseconds.
    fn delay_ns(&mut self, t: &mut Transcript, ns: u32) -> (r: Result<(), Stop>)
        ensures
            advanced(r, old(t)@, final(t)@),
            no_fail(r),
            ran(
                r,
                final(t)@,
                final(self)@,
                act_run(old(self)@, old(t)@.history, old(t)@.cursor, ActionView::DelayNs(ns)),
            ),
    {
        self.act(t, Action::DelayNs(ns))
    }

    /// The command that unlocks the FEATURE register on older (non-plus)
    /// variants; plus variants ignore it.
    fn toggle_features(&mut self, t: &mut Transcript) -> (r: Result<(), Stop>)
        ensures
            advanced(r, old(t)@, final(t)@),
            no_fail(r),
            ran(
                r,
                final(t)@,
                final(self)@,
                xfer_run(old(self)@, old(t)@.history, old(t)@.cursor, seq![ACTIVATE, 0x73u8]),
            ),
    {
        self.buf[0] = ACTIVATE;
        self.buf[1] = 0x73;
        assert(self.buf@.take(2) =~= seq![ACTIVATE, 0x73u8]);
        assert(self.buf@.skip(2) =~= old(self)@.io.buf.skip(2));
        self.transfer_over(t, 2, Ghost(old(self)@))
    }
}

} // verus!
