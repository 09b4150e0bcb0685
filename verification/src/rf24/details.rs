//! A report of the radio's configuration, read from its registers.
use vstd::prelude::*;

use crate::prelude::{EsbChannel, EsbCrcLength, EsbDataRate, EsbFifo, EsbPaLevel, EsbPayloadLength, EsbPipe};

use super::crc_length::get_crc_length_run;
use super::data_rate::get_data_rate_run;
use super::fifo::{fifo_bits, fifo_state_of, get_fifo_state_run};
use super::pipe::get_address_length_run;
use super::{
    advanced, done, failed, no_fail, ran, read_run, replayed, reply, History, Rf24, Rf24View, Run,
};
use crate::bit_fields::{Config, CRC_MASK, PLUS_VARIANT_BIT};
use crate::registers::{
    CONFIG, DYNPD, EN_AA, EN_RXADDR, FEATURE, FIFO_STATUS, OBSERVE_TX, RF_CH, RF_SETUP,
    RX_ADDR_P0, RX_PW_P0, SETUP_RETR, TX_ADDR,
};
use crate::transcript::{Stop, Transcript};
use crate::types::{
    crc_length_of, data_rate_of, pa_level_of, CrcLength, DataRate, FifoState, Nrf24Error, PaLevel,
    DATA_RATE_MASK, PA_LEVEL_MASK,
};

verus! {

/// The radio's configuration as read from its registers.
#[derive(Clone, Debug)]
pub struct RadioDetails {
    /// Is the radio a plus variant (as cached)?
    pub is_plus_variant: bool,
    pub channel: u8,
    pub data_rate: DataRate,
    pub pa_level: PaLevel,
    /// The RF_SETUP register (bit 0: LNA enabled).
    pub rf_setup: u8,
    pub crc_length: CrcLength,
    /// The address length in bytes.
    pub address_length: u8,
    /// The static payload length of pipe 0.
    pub payload_length: u8,
    /// The SETUP_RETR register (auto-retry delay in bits 7 to 4, count in
    /// bits 3 to 0).
    pub retry_setup: u8,
    /// The FIFO_STATUS register (bit 7: the TX payload is reused).
    pub fifo_status: u8,
    /// The OBSERVE_TX register (lost packets in bits 7 to 4, retries of the
    /// last transmission in bits 3 to 0).
    pub observe_tx: u8,
    /// The CONFIG register.
    pub config: u8,
    /// The STATUS byte that came with CONFIG.
    pub status: u8,
    pub tx_fifo: FifoState,
    pub rx_fifo: FifoState,
    /// The FEATURE register.
    pub features: u8,
    /// The DYNPD register (dynamic payloads per pipe).
    pub dynamic_payloads: u8,
    /// The EN_AA register (auto-ack per pipe).
    pub auto_ack: u8,
    /// The TX address, 5 bytes (least significant first).
    pub tx_address: [u8; 5],
    /// The EN_RXADDR register (open pipes).
    pub open_pipes: u8,
    /// For each pipe 0 to 5, the 5 bytes after its address was read: the
    /// address for pipes 0 and 1; for pipes 2 to 5 their first byte
    /// followed by the rest of pipe 1's address.
    pub rx_addresses: Vec<[u8; 5]>,
}

/// The run that reads the addresses of pipes `0..n` (5 bytes for pipes 0
/// and 1, 1 byte for the others).
pub open spec fn pipe_addresses_run(s: Rf24View, h: History, c: int, n: int) -> Run
    decreases n,
{
    if n <= 0 {
        done(s, c)
    } else {
        pipe_addresses_run(s, h, c, n - 1).and_then(
            |s1: Rf24View, c1: int|
                read_run(
                    s1,
                    h,
                    c1,
                    (RX_ADDR_P0 + n - 1) as u8,
                    if n - 1 < 2 {
                        5
                    } else {
                        1
                    },
                ),
        )
    }
}

/// A run of address reads that did not get through ends where it stopped.
proof fn lemma_pipe_addresses_stuck(s: Rf24View, h: History, c: int, i: int, n: int)
    requires
        0 <= i <= n,
        !pipe_addresses_run(s, h, c, i).ok,
    ensures
        pipe_addresses_run(s, h, c, n) == pipe_addresses_run(s, h, c, i),
    decreases n - i,
{
    if n > i {
        lemma_pipe_addresses_stuck(s, h, c, i, n - 1);
    }
}

/// The first part of [`details_run`]: channel, data rate, PA level,
/// RF_SETUP, CRC length, address length, payload length, SETUP_RETR,
/// FIFO_STATUS and OBSERVE_TX are read.
pub open spec fn details_rf_run(s: Rf24View, h: History, c: int) -> Run {
    read_run(s, h, c, RF_CH, 1).and_then(|s1: Rf24View, c1: int| get_data_rate_run(s1, h, c1)).and_then(
        |s2: Rf24View, c2: int| read_run(s2, h, c2, RF_SETUP, 1),
    ).and_then(|s3: Rf24View, c3: int| read_run(s3, h, c3, RF_SETUP, 1)).and_then(
        |s4: Rf24View, c4: int| get_crc_length_run(s4, h, c4),
    ).and_then(|s5: Rf24View, c5: int| get_address_length_run(s5, h, c5)).and_then(
        |s6: Rf24View, c6: int| read_run(s6, h, c6, RX_PW_P0, 1),
    ).and_then(|s7: Rf24View, c7: int| read_run(s7, h, c7, SETUP_RETR, 1)).and_then(
        |s8: Rf24View, c8: int| read_run(s8, h, c8, FIFO_STATUS, 1),
    ).and_then(|s9: Rf24View, c9: int| read_run(s9, h, c9, OBSERVE_TX, 1))
}

/// The second part of [`details_run`]: CONFIG is read (and cached), then
/// the TX and RX FIFO states, FEATURE, DYNPD and EN_AA.
pub open spec fn details_status_run(s: Rf24View, h: History, c: int) -> Run {
    read_run(s, h, c, CONFIG, 1).and_then(
        |s1: Rf24View, c1: int| done(Rf24View { config_reg: s1.io.buf[1], ..s1 }, c1),
    ).and_then(|s2: Rf24View, c2: int| get_fifo_state_run(s2, h, c2, true)).and_then(
        |s3: Rf24View, c3: int| get_fifo_state_run(s3, h, c3, false),
    ).and_then(|s4: Rf24View, c4: int| read_run(s4, h, c4, FEATURE, 1)).and_then(
        |s5: Rf24View, c5: int| read_run(s5, h, c5, DYNPD, 1),
    ).and_then(|s6: Rf24View, c6: int| read_run(s6, h, c6, EN_AA, 1))
}

/// The third part of [`details_run`]: the TX address, EN_RXADDR and the
/// addresses of pipes 0 to 5 are read.
pub open spec fn details_address_run(s: Rf24View, h: History, c: int) -> Run {
    read_run(s, h, c, TX_ADDR, 5).and_then(|s1: Rf24View, c1: int| read_run(s1, h, c1, EN_RXADDR, 1)).and_then(
        |s2: Rf24View, c2: int| pipe_addresses_run(s2, h, c2, 6),
    )
}

/// How [`Rf24::read_details`] runs.
pub open spec fn details_run(s: Rf24View, h: History, c: int) -> Run {
    details_rf_run(s, h, c).and_then(|s1: Rf24View, c1: int| details_status_run(s1, h, c1)).and_then(
        |s2: Rf24View, c2: int| details_address_run(s2, h, c2),
    )
}

/// The 5 bytes after the first of the reply of exchange `k`.
pub open spec fn reply5(h: History, k: int) -> Seq<u8> {
    reply(h, k).subrange(1, 6)
}

/// The report [`Rf24::read_details`] gives when its exchanges start at `c`
/// (see [`details_run`] for their order).
pub open spec fn details_match(d: RadioDetails, s: Rf24View, h: History, c: int) -> bool {
    &&& d.is_plus_variant == (s.feature & PLUS_VARIANT_BIT != 0)
    &&& d.channel == reply(h, c)[1]
    &&& d.data_rate == data_rate_of(reply(h, c + 1)[1] & DATA_RATE_MASK)
    &&& d.pa_level == pa_level_of(reply(h, c + 2)[1] & PA_LEVEL_MASK)
    &&& d.rf_setup == reply(h, c + 3)[1]
    &&& d.crc_length == crc_length_of(reply(h, c + 4)[1] & CRC_MASK)
    &&& d.address_length == reply(h, c + 5)[1] + 2
    &&& d.payload_length == reply(h, c + 6)[1]
    &&& d.retry_setup == reply(h, c + 7)[1]
    &&& d.fifo_status == reply(h, c + 8)[1]
    &&& d.observe_tx == reply(h, c + 9)[1]
    &&& d.config == reply(h, c + 10)[1]
    &&& d.status == reply(h, c + 10)[0]
    &&& Some(d.tx_fifo) == fifo_state_of(fifo_bits(reply(h, c + 11)[1], true))
    &&& Some(d.rx_fifo) == fifo_state_of(fifo_bits(reply(h, c + 12)[1], false))
    &&& d.features == reply(h, c + 13)[1]
    &&& d.dynamic_payloads == reply(h, c + 14)[1]
    &&& d.auto_ack == reply(h, c + 15)[1]
    &&& d.tx_address@ == reply5(h, c + 16)
    &&& d.open_pipes == reply(h, c + 17)[1]
    &&& d.rx_addresses@.len() == 6
    &&& d.rx_addresses@[0]@ == reply5(h, c + 18)
    &&& d.rx_addresses@[1]@ == reply5(h, c + 19)
    &&& forall|p: int|
        2 <= p < 6 ==> #[trigger] d.rx_addresses@[p]@ == seq![reply(h, c + 18 + p)[1]] + reply5(
            h,
            c + 19,
        ).skip(1)
}

/// The bytes `1..6` of the buffer.
fn buf5(buf: &[u8; 33]) -> (r: [u8; 5])
    ensures
        r@ == buf@.subrange(1, 6),
{
    let r = [buf[1], buf[2], buf[3], buf[4], buf[5]];
    assert(r@ =~= buf@.subrange(1, 6));
    r
}

impl Rf24 {
    /// See [`details_rf_run`].
    fn read_details_rf(&mut self, t: &mut Transcript, d: &mut RadioDetails) -> (r: Result<(), Stop>)
        ensures
            advanced(r, old(t)@, final(t)@),
            no_fail(r) || failed(r, Nrf24Error::BinaryCorruption),
            ran(r, final(t)@, final(self)@, details_rf_run(old(self)@, old(t)@.history, old(t)@.cursor)),
            r is Ok ==> {
                let (h, c) = (old(t)@.history, old(t)@.cursor);
                &&& final(d).channel == reply(h, c)[1]
                &&& final(d).data_rate == data_rate_of(reply(h, c + 1)[1] & DATA_RATE_MASK)
                &&& final(d).pa_level == pa_level_of(reply(h, c + 2)[1] & PA_LEVEL_MASK)
                &&& final(d).rf_setup == reply(h, c + 3)[1]
                &&& final(d).crc_length == crc_length_of(reply(h, c + 4)[1] & CRC_MASK)
                &&& final(d).address_length == reply(h, c + 5)[1] + 2
                &&& final(d).payload_length == reply(h, c + 6)[1]
                &&& final(d).retry_setup == reply(h, c + 7)[1]
                &&& final(d).fifo_status == reply(h, c + 8)[1]
                &&& final(d).observe_tx == reply(h, c + 9)[1]
                &&& final(t)@.cursor == c + 10
            },
            final(d).is_plus_variant == old(d).is_plus_variant,
            final(d).rx_addresses == old(d).rx_addresses,
    {
        proof {
            reveal_with_fuel(replayed, 2);
        }
        d.channel = self.get_channel(t)?;
        d.data_rate = self.get_data_rate(t)?;
        d.pa_level = self.get_pa_level(t)?;
        self.spi_read(t, 1, RF_SETUP)?;
        d.rf_setup = self.buf[1];
        d.crc_length = self.get_crc_length(t)?;
        d.address_length = self.get_address_length(t)?;
        d.payload_length = self.get_payload_length(t)?;
        self.spi_read(t, 1, SETUP_RETR)?;
        d.retry_setup = self.buf[1];
        self.spi_read(t, 1, FIFO_STATUS)?;
        d.fifo_status = self.buf[1];
        self.spi_read(t, 1, OBSERVE_TX)?;
        d.observe_tx = self.buf[1];
        Ok(())
    }

    /// See [`details_status_run`].
    fn read_details_status(&mut self, t: &mut Transcript, d: &mut RadioDetails) -> (r: Result<(), Stop>)
        ensures
            advanced(r, old(t)@, final(t)@),
            no_fail(r) || failed(r, Nrf24Error::BinaryCorruption),
            ran(r, final(t)@, final(self)@, details_status_run(old(self)@, old(t)@.history, old(t)@.cursor)),
            r is Ok ==> {
                let (h, c) = (old(t)@.history, old(t)@.cursor);
                &&& final(d).config == reply(h, c)[1]
                &&& final(d).status == reply(h, c)[0]
                &&& Some(final(d).tx_fifo) == fifo_state_of(fifo_bits(reply(h, c + 1)[1], true))
                &&& Some(final(d).rx_fifo) == fifo_state_of(fifo_bits(reply(h, c + 2)[1], false))
                &&& final(d).features == reply(h, c + 3)[1]
                &&& final(d).dynamic_payloads == reply(h, c + 4)[1]
                &&& final(d).auto_ack == reply(h, c + 5)[1]
                &&& final(t)@.cursor == c + 6
            },
            final(d).is_plus_variant == old(d).is_plus_variant,
            final(d).rx_addresses == old(d).rx_addresses,
            ({
                let od = *old(d);
                let fd = *final(d);
                &&& fd.channel == od.channel && fd.data_rate == od.data_rate
                &&& fd.pa_level == od.pa_level && fd.rf_setup == od.rf_setup
                &&& fd.crc_length == od.crc_length && fd.address_length == od.address_length
                &&& fd.payload_length == od.payload_length && fd.retry_setup == od.retry_setup
                &&& fd.fifo_status == od.fifo_status && fd.observe_tx == od.observe_tx
            }),
    {
        proof {
            reveal_with_fuel(replayed, 2);
        }
        self.spi_read(t, 1, CONFIG)?;
        self.config_reg = Config::from_bits(self.buf[1]);
        d.config = self.buf[1];
        d.status = self.status.into_bits();
        d.tx_fifo = self.get_fifo_state(t, true)?;
        d.rx_fifo = self.get_fifo_state(t, false)?;
        self.spi_read(t, 1, FEATURE)?;
        d.features = self.buf[1];
        self.spi_read(t, 1, DYNPD)?;
        d.dynamic_payloads = self.buf[1];
        self.spi_read(t, 1, EN_AA)?;
        d.auto_ack = self.buf[1];
        Ok(())
    }

    /// See [`details_address_run`].
    fn read_details_addresses(&mut self, t: &mut Transcript, d: &mut RadioDetails) -> (r: Result<
        (),
        Stop,
    >)
        ensures
            advanced(r, old(t)@, final(t)@),
            no_fail(r),
            ran(r, final(t)@, final(self)@, details_address_run(old(self)@, old(t)@.history, old(t)@.cursor)),
            r is Ok ==> {
                let (h, c) = (old(t)@.history, old(t)@.cursor);
                &&& final(d).tx_address@ == reply5(h, c)
                &&& final(d).open_pipes == reply(h, c + 1)[1]
                &&& final(d).rx_addresses@.len() == 6
                &&& final(d).rx_addresses@[0]@ == reply5(h, c + 2)
                &&& final(d).rx_addresses@[1]@ == reply5(h, c + 3)
                &&& forall|p: int|
                    2 <= p < 6 ==> #[trigger] final(d).rx_addresses@[p]@ == seq![reply(h, c + 2 + p)[1]]
                        + reply5(h, c + 3).skip(1)
                &&& final(t)@.cursor == c + 8
            },
            ({
                let od = *old(d);
                let fd = *final(d);
                &&& fd.is_plus_variant == od.is_plus_variant
                &&& fd.channel == od.channel && fd.data_rate == od.data_rate
                &&& fd.pa_level == od.pa_level && fd.rf_setup == od.rf_setup
                &&& fd.crc_length == od.crc_length && fd.address_length == od.address_length
                &&& fd.payload_length == od.payload_length && fd.retry_setup == od.retry_setup
                &&& fd.fifo_status == od.fifo_status && fd.observe_tx == od.observe_tx
                &&& fd.config == od.config && fd.status == od.status
                &&& fd.tx_fifo == od.tx_fifo && fd.rx_fifo == od.rx_fifo
                &&& fd.features == od.features && fd.dynamic_payloads == od.dynamic_payloads
                &&& fd.auto_ack == od.auto_ack
            }),
    {
        proof {
            reveal_with_fuel(replayed, 2);
        }
        let ghost (h, c) = (t@.history, t@.cursor);
        self.spi_read(t, 5, TX_ADDR)?;
        d.tx_address = buf5(&self.buf);
        self.spi_read(t, 1, EN_RXADDR)?;
        d.open_pipes = self.buf[1];
        let ghost (s2, c2) = (self@, t@.cursor);
        let mut addresses: Vec<[u8; 5]> = Vec::new();
        let mut pipe: u8 = 0;
        #[verifier::loop_isolation(false)]
        while pipe < 6
            invariant
                pipe <= 6,
                t@.history == h,
                pipe_addresses_run(s2, h, c2, pipe as int).ok,
                !pipe_addresses_run(s2, h, c2, pipe as int).corrupt,
                t@.cursor == pipe_addresses_run(s2, h, c2, pipe as int).end,
                t@.cursor == c2 + pipe,
                self@ == pipe_addresses_run(s2, h, c2, pipe as int).state,
                advanced(Ok::<(), Stop>(()), old(t)@, t@),
                addresses@.len() == pipe,
                pipe >= 1 ==> addresses@[0]@ == reply5(h, c2),
                pipe >= 2 ==> addresses@[1]@ == reply5(h, c2 + 1),
                pipe >= 2 ==> self@.io.buf.subrange(2, 6) == reply5(h, c2 + 1).skip(1),
                forall|p: int|
                    2 <= p < pipe ==> #[trigger] addresses@[p]@ == seq![reply(h, c2 + p)[1]]
                        + reply5(h, c2 + 1).skip(1),
            decreases 6 - pipe,
        {
            let len: u8 = if pipe < 2 {
                5
            } else {
                1
            };
            let r = self.spi_read(t, len, RX_ADDR_P0 + pipe);
            if r.is_err() {
                proof {
                    lemma_pipe_addresses_stuck(s2, h, c2, pipe + 1, 6);
                }
                return r;
            }
            let a = buf5(&self.buf);
            proof {
                if pipe >= 2 {
                    assert(a@ =~= seq![reply(h, c2 + pipe)[1]] + reply5(h, c2 + 1).skip(1));
                }
                if pipe == 1 {
                    assert(self@.io.buf.subrange(2, 6) =~= reply5(h, c2 + 1).skip(1));
                }
            }
            addresses.push(a);
            pipe = pipe + 1;
        }
        d.rx_addresses = addresses;
        Ok(())
    }

    /// Read the radio's configuration from its registers (see
    /// [`details_run`] and [`details_match`]); the CONFIG register and the
    /// address length read are cached. An impossible data rate, CRC length,
    /// address length or FIFO state fails with
    /// [`Nrf24Error::BinaryCorruption`].
    pub fn read_details(&mut self, t: &mut Transcript) -> (r: Result<RadioDetails, Stop>)
        ensures
            advanced(r, old(t)@, final(t)@),
            no_fail(r) || failed(r, Nrf24Error::BinaryCorruption),
            ran(r, final(t)@, final(self)@, details_run(old(self)@, old(t)@.history, old(t)@.cursor)),
            r is Ok ==> details_match(r->Ok_0, old(self)@, old(t)@.history, old(t)@.cursor),
    {
        let mut d = RadioDetails {
            is_plus_variant: self.feature.is_plus_variant(),
            channel: 0,
            data_rate: DataRate::Mbps1,
            pa_level: PaLevel::Min,
            rf_setup: 0,
            crc_length: CrcLength::Disabled,
            address_length: 0,
            payload_length: 0,
            retry_setup: 0,
            fifo_status: 0,
            observe_tx: 0,
            config: 0,
            status: 0,
            tx_fifo: FifoState::Empty,
            rx_fifo: FifoState::Empty,
            features: 0,
            dynamic_payloads: 0,
            auto_ack: 0,
            tx_address: [0; 5],
            open_pipes: 0,
            rx_addresses: Vec::new(),
        };
        self.read_details_rf(t, &mut d)?;
        self.read_details_status(t, &mut d)?;
        self.read_details_addresses(t, &mut d)?;
        Ok(d)
    }
}

} // verus!
