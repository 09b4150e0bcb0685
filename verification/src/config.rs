//! Builder-style configuration of the radio (see [`RadioConfig`]).
use vstd::prelude::*;

use crate::bit_fields::{
    clamp, Config, Feature, SetupRetry, SetupRfAw, ACK_PAYLOADS_BIT, ADDR_LENGTH_MASK, CRC_MASK,
    DYNAMIC_PAYLOADS_BIT,
};
use crate::mnemonics::{MASK_MAX_RT, MASK_RX_DR, MASK_TX_DS};
use crate::types::{
    crc_length_bits, crc_length_of, data_rate_bits, data_rate_of, pa_level_bits, pa_level_of,
    with_mask, CrcLength, DataRate, PaLevel, DATA_RATE_MASK, PA_LEVEL_MASK,
};

verus! {

/// `src[..n]` written over the start of `dst`.
pub open spec fn overwrite(dst: Seq<u8>, src: Seq<u8>, n: int) -> Seq<u8> {
    src.take(n) + dst.skip(n)
}

/// The smaller of a length and 5 (the longest address).
pub open spec fn addr_len(len: int) -> int {
    if len < 5 {
        len
    } else {
        5
    }
}

/// Write `src[..n]` over `dst[..n]`.
pub(crate) fn copy_prefix5(dst: &mut [u8; 5], src: &[u8], n: usize)
    requires
        n <= 5,
        n <= src@.len(),
    ensures
        final(dst)@ == overwrite(old(dst)@, src@, n as int),
{
    let mut i: usize = 0;
    while i < n
        invariant
            i <= n,
            n <= 5,
            n <= src@.len(),
            dst@.len() == 5,
            dst@ == overwrite(old(dst)@, src@, i as int),
        decreases n - i,
    {
        dst[i] = src[i];
        i = i + 1;
        assert(dst@ =~= overwrite(old(dst)@, src@, i as int));
    }
}

/// The abstract content of an [`EsbPipeConfig`].
pub struct PipeConfigView {
    /// The TX address (5 bytes).
    pub tx_address: Seq<u8>,
    /// The RX address of pipe 0 (5 bytes).
    pub pipe0: Seq<u8>,
    /// The RX address of pipe 1 (5 bytes).
    pub pipe1: Seq<u8>,
    /// The first byte of the RX addresses of pipes 2 to 7 (6 bytes).
    pub prefixes: Seq<u8>,
    /// Bit `n` tells whether RX pipe `n` is open.
    pub rx_pipes_enabled: u8,
}

/// A struct to contain configuration about pipe addresses.
#[derive(Clone, Copy, Debug)]
pub struct EsbPipeConfig {
    tx_address: [u8; 5],
    pipe0: [u8; 5],
    pipe1: [u8; 5],
    prefixes: [u8; 6],
    rx_pipes_enabled: u8,
}

impl View for EsbPipeConfig {
    type V = PipeConfigView;

    closed spec fn view(&self) -> PipeConfigView {
        PipeConfigView {
            tx_address: self.tx_address@,
            pipe0: self.pipe0@,
            pipe1: self.pipe1@,
            prefixes: self.prefixes@,
            rx_pipes_enabled: self.rx_pipes_enabled,
        }
    }
}

impl PipeConfigView {
    /// The addresses have their lengths: 5 bytes for TX, pipe 0 and pipe 1,
    /// and a first byte for each of pipes 2 to 7.
    pub open spec fn wf(self) -> bool {
        &&& self.tx_address.len() == 5
        &&& self.pipe0.len() == 5
        &&& self.pipe1.len() == 5
        &&& self.prefixes.len() == 6
    }
}

/// Every pipe configuration has its addresses at their lengths.
pub proof fn lemma_pipe_config_wf(pipes: EsbPipeConfig)
    ensures
        pipes@.wf(),
{
}

/// The address that a pipe's RX address gets from `address`.
pub open spec fn rx_address_update(v: PipeConfigView, pipe: u8, address: Seq<u8>) -> PipeConfigView {
    let n = addr_len(address.len() as int);
    let enabled = if pipe < 8 {
        v.rx_pipes_enabled | (1u8 << pipe)
    } else {
        v.rx_pipes_enabled
    };
    if n == 0 {
        v
    } else if pipe == 0 {
        PipeConfigView { pipe0: overwrite(v.pipe0, address, n), rx_pipes_enabled: enabled, ..v }
    } else if pipe == 1 {
        PipeConfigView { pipe1: overwrite(v.pipe1, address, n), rx_pipes_enabled: enabled, ..v }
    } else if pipe < 8 {
        PipeConfigView {
            prefixes: v.prefixes.update(pipe - 2, address[0]),
            rx_pipes_enabled: enabled,
            ..v
        }
    } else {
        v
    }
}

/// An RX address reads back as it was set: all of it (as much as the
/// buffer takes) for pipes 0 and 1; for pipes 2 to 7 its first byte,
/// followed by the low bytes they share with pipe 1.
pub proof fn law_rx_address_round_trip(v: PipeConfigView, pipe: u8, address: Seq<u8>, buf: Seq<u8>)
    requires
        v.wf(),
        pipe < 8,
        1 <= buf.len() <= address.len(),
    ensures
        ({
            let r = rx_address_read(rx_address_update(v, pipe, address), pipe, buf);
            let n = addr_len(buf.len() as int);
            &&& r.len() == buf.len()
            &&& pipe < 2 ==> r.take(n) == address.take(n)
            &&& pipe >= 2 ==> r.take(n) == seq![address[0]] + v.pipe1.subrange(1, n)
            &&& r[0] == address[0]
            &&& rx_address_update(v, pipe, address).rx_pipes_enabled & (1u8 << pipe) != 0
        }),
{
    let w = rx_address_update(v, pipe, address);
    let n = addr_len(buf.len() as int);
    let x = v.rx_pipes_enabled;
    assert((x | (1u8 << pipe)) & (1u8 << pipe) != 0) by (bit_vector)
        requires
            pipe < 8,
    ;
    if pipe < 2 {
        assert(rx_address_read(w, pipe, buf).take(n) =~= address.take(n));
    } else {
        assert(rx_address_read(w, pipe, buf).take(n) =~= seq![address[0]] + v.pipe1.subrange(1, n));
    }
}

/// The TX address reads back as it was set (as much of it as the buffer
/// takes).
pub proof fn law_tx_address_round_trip(v: PipeConfigView, address: Seq<u8>, buf: Seq<u8>)
    requires
        v.wf(),
        buf.len() <= address.len(),
    ensures
        ({
            let tx = overwrite(v.tx_address, address, addr_len(address.len() as int));
            let n = addr_len(buf.len() as int);
            overwrite(buf, tx, n).take(n) == address.take(n)
        }),
{
    let tx = overwrite(v.tx_address, address, addr_len(address.len() as int));
    let n = addr_len(buf.len() as int);
    assert(overwrite(buf, tx, n).take(n) =~= address.take(n));
}

/// What [`EsbPipeConfig::get_rx_address`] writes into a buffer holding `buf`.
pub open spec fn rx_address_read(v: PipeConfigView, pipe: u8, buf: Seq<u8>) -> Seq<u8> {
    let n = addr_len(buf.len() as int);
    let first = if pipe == 0 {
        overwrite(buf, v.pipe0, n)
    } else if pipe == 1 {
        overwrite(buf, v.pipe1, n)
    } else if pipe < 8 && n > 0 {
        buf.update(0, v.prefixes[pipe - 2])
    } else {
        buf
    };
    if pipe > 1 && n > 1 {
        first.take(1) + v.pipe1.subrange(1, n) + first.skip(n)
    } else {
        first
    }
}

impl EsbPipeConfig {
    /// TX and pipe 0 address `[0xE7; 5]`, pipe 1 address `[0xC2; 5]`, pipes
    /// 2 to 7 prefixed `0xC3` to `0xC8`, and only pipe 1 open.
    pub fn default() -> (r: EsbPipeConfig)
        ensures
            r@.tx_address == seq![0xE7u8; 5],
            r@.pipe0 == seq![0xE7u8; 5],
            r@.pipe1 == seq![0xC2u8; 5],
            r@.prefixes == seq![0xC3u8, 0xC4, 0xC5, 0xC6, 0xC7, 0xC8],
            r@.rx_pipes_enabled == 2,
    {
        let r = EsbPipeConfig {
            tx_address: [0xE7; 5],
            pipe0: [0xE7; 5],
            pipe1: [0xC2; 5],
            prefixes: [0xC3, 0xC4, 0xC5, 0xC6, 0xC7, 0xC8],
            rx_pipes_enabled: 2,
        };
        assert(r@.tx_address =~= seq![0xE7u8; 5]);
        assert(r@.pipe0 =~= seq![0xE7u8; 5]);
        assert(r@.pipe1 =~= seq![0xC2u8; 5]);
        assert(r@.prefixes =~= seq![0xC3u8, 0xC4, 0xC5, 0xC6, 0xC7, 0xC8]);
        r
    }

    /// The TX address.
    pub fn tx_address(&self) -> (r: [u8; 5])
        ensures
            r@ == self@.tx_address,
    {
        self.tx_address
    }

    /// The RX address of pipe 0.
    pub fn pipe0(&self) -> (r: [u8; 5])
        ensures
            r@ == self@.pipe0,
    {
        self.pipe0
    }

    /// The RX address of pipe 1.
    pub fn pipe1(&self) -> (r: [u8; 5])
        ensures
            r@ == self@.pipe1,
    {
        self.pipe1
    }

    /// The first address byte of pipe `pipe` (2 to 7).
    pub fn prefix(&self, pipe: u8) -> (r: u8)
        requires
            2 <= pipe <= 7,
        ensures
            r == self@.prefixes[pipe - 2],
    {
        self.prefixes[(pipe - 2) as usize]
    }

    /// Bit `n` tells whether RX pipe `n` is open.
    pub fn rx_pipes_enabled(&self) -> (r: u8)
        ensures
            r == self@.rx_pipes_enabled,
    {
        self.rx_pipes_enabled
    }

    /// Set the TX address from the first (up to 5) bytes of `address`.
    pub fn set_tx_address(&mut self, address: &[u8])
        ensures
            final(self)@ == (PipeConfigView {
                tx_address: overwrite(old(self)@.tx_address, address@, addr_len(address@.len() as int)),
                ..old(self)@
            }),
    {
        let len = if address.len() < 5 {
            address.len()
        } else {
            5
        };
        copy_prefix5(&mut self.tx_address, address, len);
    }

    /// Set the RX address of `pipe` from the first (up to 5) bytes of
    /// `address` and open the pipe. Pipes 2 to 7 only take the first byte.
    /// Nothing changes when `address` is empty or `pipe` is greater than 7.
    pub fn set_rx_address(&mut self, pipe: u8, address: &[u8])
        ensures
            final(self)@ == rx_address_update(old(self)@, pipe, address@),
    {
        let len = if address.len() < 5 {
            address.len()
        } else {
            5
        };
        if len == 0 {
            return ;
        }
        if pipe < 8 {
            self.rx_pipes_enabled = self.rx_pipes_enabled | (1u8 << pipe);
        }
        if pipe == 0 {
            copy_prefix5(&mut self.pipe0, address, len);
        } else if pipe == 1 {
            copy_prefix5(&mut self.pipe1, address, len);
        } else if pipe < 8 {
            self.prefixes[(pipe - 2) as usize] = address[0];
        }
        assert(self@.prefixes =~= rx_address_update(old(self)@, pipe, address@).prefixes);
    }

    /// Close RX pipe `pipe` (nothing changes when `pipe` is greater than 7).
    pub fn close_rx_pipe(&mut self, pipe: u8)
        ensures
            final(self)@ == (PipeConfigView {
                rx_pipes_enabled: if pipe < 8 {
                    old(self)@.rx_pipes_enabled & !(1u8 << pipe)
                } else {
                    old(self)@.rx_pipes_enabled
                },
                ..old(self)@
            }),
    {
        if pipe < 8 {
            self.rx_pipes_enabled = self.rx_pipes_enabled & !(1u8 << pipe);
        }
    }

    /// Write the RX address of `pipe` into `address` (up to 5 bytes).
    ///
    /// For pipes 2 to 7 the first byte is the pipe's own and the following
    /// ones come from pipe 1, whose 4 low bytes these pipes share.
    pub fn get_rx_address(&self, pipe: u8, address: &mut [u8])
        ensures
            final(address)@ == rx_address_read(self@, pipe, old(address)@),
    {
        let len = if address.len() < 5 {
            address.len()
        } else {
            5
        };
        let ghost buf0 = address@;
        if pipe == 0 {
            copy_into(address, &self.pipe0, 0, 0, len);
        } else if pipe == 1 {
            copy_into(address, &self.pipe1, 0, 0, len);
        } else if pipe < 8 && len > 0 {
            address[0] = self.prefixes[(pipe - 2) as usize];
        }
        let ghost first = address@;
        assert(first =~= (if pipe == 0 {
            overwrite(buf0, self@.pipe0, len as int)
        } else if pipe == 1 {
            overwrite(buf0, self@.pipe1, len as int)
        } else if pipe < 8 && len > 0 {
            buf0.update(0, self@.prefixes[pipe - 2])
        } else {
            buf0
        }));
        if pipe > 1 && len > 1 {
            copy_into(address, &self.pipe1, 1, 1, len - 1);
            assert(address@ =~= first.take(1) + self@.pipe1.subrange(1, len as int) + first.skip(
                len as int,
            ));
        }
    }
}

/// Copy `src[from..from + n]` to `dst[at..at + n]`.
fn copy_into(dst: &mut [u8], src: &[u8; 5], at: usize, from: usize, n: usize)
    requires
        at + n <= old(dst)@.len(),
        from + n <= 5,
    ensures
        final(dst)@ == old(dst)@.take(at as int) + src@.subrange(from as int, from + n) + old(
            dst,
        )@.skip(at + n),
{
    let dl = dst.len();
    let mut i: usize = 0;
    while i < n
        invariant
            i <= n,
            dl == dst@.len(),
            at + n <= dst@.len(),
            from + n <= 5,
            dst@.len() == old(dst)@.len(),
            dst@ == old(dst)@.take(at as int) + src@.subrange(from as int, from + i) + old(
                dst,
            )@.skip(at + i),
        decreases n - i,
    {
        dst[at + i] = src[from + i];
        i = i + 1;
        assert(dst@ =~= old(dst)@.take(at as int) + src@.subrange(from as int, from + i) + old(
            dst,
        )@.skip(at + i));
    }
}

/// The abstract content of a [`RadioConfig`]: the raw register bytes and
/// settings it holds.
pub struct RadioConfigView {
    pub config_reg: u8,
    pub auto_retries: u8,
    pub setup_rf_aw: u8,
    pub feature: u8,
    pub channel: u8,
    pub payload_length: u8,
    pub auto_ack: u8,
    pub pipes: PipeConfigView,
}

/// An object to configure the radio.
///
/// This struct follows a builder pattern: start from
/// [`RadioConfig::default`], then change it with the `with_*` methods.
#[derive(Clone, Copy, Debug)]
pub struct RadioConfig {
    config_reg: Config,
    auto_retries: SetupRetry,
    setup_rf_aw: SetupRfAw,
    feature: Feature,
    channel: u8,
    payload_length: u8,
    auto_ack: u8,
    pipes: EsbPipeConfig,
}

impl View for RadioConfig {
    type V = RadioConfigView;

    closed spec fn view(&self) -> RadioConfigView {
        RadioConfigView {
            config_reg: self.config_reg@,
            auto_retries: self.auto_retries@,
            setup_rf_aw: self.setup_rf_aw@,
            feature: self.feature@,
            channel: self.channel,
            payload_length: self.payload_length,
            auto_ack: self.auto_ack,
            pipes: self.pipes@,
        }
    }
}

/// Every configuration has its pipe addresses at their lengths.
pub proof fn lemma_radio_config_wf(config: RadioConfig)
    ensures
        config@.pipes.wf(),
{
    lemma_pipe_config_wf(config.pipes);
}

/// The view of [`RadioConfig::default`].
pub open spec fn default_config() -> RadioConfigView {
    RadioConfigView {
        config_reg: 0x0C,
        auto_retries: 0x5F,
        setup_rf_aw: 0xC7,
        feature: 0,
        channel: 76,
        payload_length: 32,
        auto_ack: 0x3F,
        pipes: PipeConfigView {
            tx_address: seq![0xE7u8; 5],
            pipe0: seq![0xE7u8; 5],
            pipe1: seq![0xC2u8; 5],
            prefixes: seq![0xC3u8, 0xC4, 0xC5, 0xC6, 0xC7, 0xC8],
            rx_pipes_enabled: 2,
        },
    }
}

impl RadioConfig {
    /// The library defaults:
    ///
    /// | setting | default value |
    /// |--------:|:--------------|
    /// | channel | `76` |
    /// | address length | `5` |
    /// | PA level | [`PaLevel::Max`] |
    /// | LNA | enabled |
    /// | CRC length | [`CrcLength::Bit16`] |
    /// | data rate | [`DataRate::Mbps1`] |
    /// | payload length | `32` |
    /// | dynamic payloads | disabled |
    /// | auto-ACK | `0x3F` (pipes 0 to 5) |
    /// | ACK payloads | disabled |
    /// | ask no ACK | disabled |
    /// | auto-retry delay | `5` |
    /// | auto-retry count | `15` |
    /// | IRQ events | all enabled |
    ///
    /// The pipes' addresses are those of [`EsbPipeConfig::default`].
    pub fn default() -> (r: RadioConfig)
        ensures
            r@ == default_config(),
            r@.config_reg == 0x0C,
            r@.auto_retries == 0x5F,
            r@.setup_rf_aw == 0xC7,
            r@.feature == 0,
            r@.channel == 76,
            r@.payload_length == 32,
            r@.auto_ack == 0x3F,
            r@.pipes.tx_address == seq![0xE7u8; 5],
            r@.pipes.pipe0 == seq![0xE7u8; 5],
            r@.pipes.pipe1 == seq![0xC2u8; 5],
            r@.pipes.prefixes == seq![0xC3u8, 0xC4, 0xC5, 0xC6, 0xC7, 0xC8],
            r@.pipes.rx_pipes_enabled == 2,
    {
        RadioConfig {
            config_reg: Config::default(),
            auto_retries: SetupRetry::default(),
            setup_rf_aw: SetupRfAw::default(),
            feature: Feature::default(),
            channel: 76,
            payload_length: 32,
            auto_ack: 0x3F,
            pipes: EsbPipeConfig::default(),
        }
    }

    /// The CONFIG register value of this configuration.
    pub fn config_reg(&self) -> (r: Config)
        ensures
            r@ == self@.config_reg,
    {
        self.config_reg
    }

    /// The SETUP_RETR register value of this configuration.
    pub fn auto_retries(&self) -> (r: SetupRetry)
        ensures
            r@ == self@.auto_retries,
    {
        self.auto_retries
    }

    /// The RF_SETUP register value, packed with the address length.
    pub fn setup_rf_aw(&self) -> (r: SetupRfAw)
        ensures
            r@ == self@.setup_rf_aw,
    {
        self.setup_rf_aw
    }

    /// The FEATURE register value of this configuration.
    pub fn feature(&self) -> (r: Feature)
        ensures
            r@ == self@.feature,
    {
        self.feature
    }

    /// The pipes' configuration.
    pub fn pipes(&self) -> (r: EsbPipeConfig)
        ensures
            r@ == self@.pipes,
    {
        self.pipes
    }

    pub open spec fn spec_crc_length(&self) -> CrcLength {
        crc_length_of(self@.config_reg & CRC_MASK)
    }

    pub open spec fn spec_data_rate(&self) -> DataRate {
        data_rate_of(self@.setup_rf_aw & DATA_RATE_MASK)
    }

    pub open spec fn spec_pa_level(&self) -> PaLevel {
        pa_level_of(self@.setup_rf_aw & PA_LEVEL_MASK)
    }

    pub open spec fn spec_lna_enable(&self) -> bool {
        self@.setup_rf_aw & 1 != 0
    }

    pub open spec fn spec_address_length(&self) -> u8 {
        ((self@.setup_rf_aw >> 6u8) + 2) as u8
    }

    pub open spec fn spec_channel(&self) -> u8 {
        self@.channel
    }

    pub open spec fn spec_auto_retry_delay(&self) -> u8 {
        self@.auto_retries >> 4u8
    }

    pub open spec fn spec_auto_retry_count(&self) -> u8 {
        self@.auto_retries & 0xF
    }

    pub open spec fn spec_rx_dr(&self) -> bool {
        self@.config_reg & MASK_RX_DR == 0
    }

    pub open spec fn spec_tx_ds(&self) -> bool {
        self@.config_reg & MASK_TX_DS == 0
    }

    pub open spec fn spec_tx_df(&self) -> bool {
        self@.config_reg & MASK_MAX_RT == 0
    }

    pub open spec fn spec_ask_no_ack(&self) -> bool {
        self@.feature & 1 != 0
    }

    pub open spec fn spec_dynamic_payloads(&self) -> bool {
        self@.feature & DYNAMIC_PAYLOADS_BIT != 0
    }

    pub open spec fn spec_ack_payloads(&self) -> bool {
        self@.feature & ACK_PAYLOADS_BIT != 0
    }

    pub open spec fn spec_auto_ack(&self) -> u8 {
        self@.auto_ack
    }

    pub open spec fn spec_payload_length(&self) -> u8 {
        self@.payload_length
    }

    /// The CRC length set by [`RadioConfig::with_crc_length`].
    #[verifier::when_used_as_spec(spec_crc_length)]
    pub fn crc_length(&self) -> (r: CrcLength)
        ensures
            r == self.spec_crc_length(),
    {
        self.config_reg.crc_length()
    }

    /// Set the CRC length.
    pub fn with_crc_length(self, length: CrcLength) -> (r: RadioConfig)
        ensures
            r@ == (RadioConfigView {
                config_reg: (self@.config_reg & !CRC_MASK) | crc_length_bits(length),
                ..self@
            }),
            r.crc_length() == length,
    {
        RadioConfig { config_reg: self.config_reg.with_crc_length(length), ..self }
    }

    /// The data rate set by [`RadioConfig::with_data_rate`].
    #[verifier::when_used_as_spec(spec_data_rate)]
    pub fn data_rate(&self) -> (r: DataRate)
        ensures
            r == self.spec_data_rate(),
    {
        self.setup_rf_aw.data_rate()
    }

    /// Set the data rate.
    pub fn with_data_rate(self, data_rate: DataRate) -> (r: RadioConfig)
        ensures
            r@ == (RadioConfigView {
                setup_rf_aw: (self@.setup_rf_aw & !DATA_RATE_MASK) | data_rate_bits(data_rate),
                ..self@
            }),
            r.data_rate() == data_rate,
    {
        RadioConfig { setup_rf_aw: self.setup_rf_aw.with_data_rate(data_rate), ..self }
    }

    /// The PA level set by [`RadioConfig::with_pa_level`].
    #[verifier::when_used_as_spec(spec_pa_level)]
    pub fn pa_level(&self) -> (r: PaLevel)
        ensures
            r == self.spec_pa_level(),
    {
        self.setup_rf_aw.pa_level()
    }

    /// Set the PA level.
    pub fn with_pa_level(self, level: PaLevel) -> (r: RadioConfig)
        ensures
            r@ == (RadioConfigView {
                setup_rf_aw: (self@.setup_rf_aw & !PA_LEVEL_MASK) | pa_level_bits(level),
                ..self@
            }),
            r.pa_level() == level,
    {
        RadioConfig { setup_rf_aw: self.setup_rf_aw.with_pa_level(level), ..self }
    }

    /// The LNA setting set by [`RadioConfig::with_lna_enable`].
    #[verifier::when_used_as_spec(spec_lna_enable)]
    pub fn lna_enable(&self) -> (r: bool)
        ensures
            r == self.spec_lna_enable(),
    {
        self.setup_rf_aw.lna_enable()
    }

    /// Enable or disable the chip's Low Noise Amplifier (LNA).
    pub fn with_lna_enable(self, enable: bool) -> (r: RadioConfig)
        ensures
            r@ == (RadioConfigView {
                setup_rf_aw: with_mask(self@.setup_rf_aw, 1, enable),
                ..self@
            }),
            r.lna_enable() == enable,
    {
        RadioConfig { setup_rf_aw: self.setup_rf_aw.with_lna_enable(enable), ..self }
    }

    /// The address length set by [`RadioConfig::with_address_length`].
    #[verifier::when_used_as_spec(spec_address_length)]
    pub fn address_length(&self) -> (r: u8)
        ensures
            r == self.spec_address_length(),
            2 <= r <= 5,
    {
        self.setup_rf_aw.address_length()
    }

    /// Set the address length, clamped to the range [2, 5].
    pub fn with_address_length(self, value: u8) -> (r: RadioConfig)
        ensures
            r@ == (RadioConfigView {
                setup_rf_aw: (self@.setup_rf_aw & !ADDR_LENGTH_MASK) | (((clamp(value, 2, 5) - 2) as u8) << 6u8),
                ..self@
            }),
            r.address_length() == clamp(value, 2, 5),
    {
        RadioConfig { setup_rf_aw: self.setup_rf_aw.with_address_length(value), ..self }
    }

    /// The channel set by [`RadioConfig::with_channel`].
    #[verifier::when_used_as_spec(spec_channel)]
    pub fn channel(&self) -> (r: u8)
        ensures
            r == self.spec_channel(),
    {
        self.channel
    }

    /// Set the channel, clamped to the range [0, 125]. The radio's frequency
    /// is 2400 MHz plus the channel (in MHz).
    pub fn with_channel(self, value: u8) -> (r: RadioConfig)
        ensures
            r@ == (RadioConfigView { channel: if value < 125 { value } else { 125 }, ..self@ }),
            r.channel() == if value < 125 {
                value
            } else {
                125
            },
    {
        RadioConfig { channel: if value < 125 { value } else { 125 }, ..self }
    }

    /// The auto-retry delay set by [`RadioConfig::with_auto_retries`].
    #[verifier::when_used_as_spec(spec_auto_retry_delay)]
    pub fn auto_retry_delay(&self) -> (r: u8)
        ensures
            r == self.spec_auto_retry_delay(),
    {
        self.auto_retries.ard()
    }

    /// The auto-retry count set by [`RadioConfig::with_auto_retries`].
    #[verifier::when_used_as_spec(spec_auto_retry_count)]
    pub fn auto_retry_count(&self) -> (r: u8)
        ensures
            r == self.spec_auto_retry_count(),
    {
        self.auto_retries.arc()
    }

    /// Set the auto-retry delay and count, each clamped to the range [0, 15].
    pub fn with_auto_retries(self, delay: u8, count: u8) -> (r: RadioConfig)
        ensures
            r@ == (RadioConfigView {
                auto_retries: ((if delay < 15 { delay } else { 15 }) << 4u8) | (if count < 15 {
                    count
                } else {
                    15
                }),
                ..self@
            }),
            r.auto_retry_delay() == if delay < 15 {
                delay
            } else {
                15
            },
            r.auto_retry_count() == if count < 15 {
                count
            } else {
                15
            },
    {
        let d = if delay < 15 {
            delay
        } else {
            15
        };
        let c = if count < 15 {
            count
        } else {
            15
        };
        RadioConfig { auto_retries: SetupRetry::with_ard_arc(d, c), ..self }
    }

    /// Does the "RX Data Ready" event trigger the IRQ pin?
    #[verifier::when_used_as_spec(spec_rx_dr)]
    pub fn rx_dr(&self) -> (r: bool)
        ensures
            r == self.spec_rx_dr(),
    {
        self.config_reg.rx_dr()
    }

    /// Let the "RX Data Ready" event trigger the IRQ pin, or not.
    pub fn with_rx_dr(self, enable: bool) -> (r: RadioConfig)
        ensures
            r@ == (RadioConfigView {
                config_reg: with_mask(self@.config_reg, MASK_RX_DR, !enable),
                ..self@
            }),
            r.rx_dr() == enable,
    {
        RadioConfig { config_reg: self.config_reg.with_rx_dr(enable), ..self }
    }

    /// Does the "TX Data Sent" event trigger the IRQ pin?
    #[verifier::when_used_as_spec(spec_tx_ds)]
    pub fn tx_ds(&self) -> (r: bool)
        ensures
            r == self.spec_tx_ds(),
    {
        self.config_reg.tx_ds()
    }

    /// Let the "TX Data Sent" event trigger the IRQ pin, or not.
    pub fn with_tx_ds(self, enable: bool) -> (r: RadioConfig)
        ensures
            r@ == (RadioConfigView {
                config_reg: with_mask(self@.config_reg, MASK_TX_DS, !enable),
                ..self@
            }),
            r.tx_ds() == enable,
    {
        RadioConfig { config_reg: self.config_reg.with_tx_ds(enable), ..self }
    }

    /// Does the "TX Data Failed" event trigger the IRQ pin?
    #[verifier::when_used_as_spec(spec_tx_df)]
    pub fn tx_df(&self) -> (r: bool)
        ensures
            r == self.spec_tx_df(),
    {
        self.config_reg.tx_df()
    }

    /// Let the "TX Data Failed" event trigger the IRQ pin, or not.
    pub fn with_tx_df(self, enable: bool) -> (r: RadioConfig)
        ensures
            r@ == (RadioConfigView {
                config_reg: with_mask(self@.config_reg, MASK_MAX_RT, !enable),
                ..self@
            }),
            r.tx_df() == enable,
    {
        RadioConfig { config_reg: self.config_reg.with_tx_df(enable), ..self }
    }

    /// Is disabling auto-ACK per payload allowed?
    #[verifier::when_used_as_spec(spec_ask_no_ack)]
    pub fn ask_no_ack(&self) -> (r: bool)
        ensures
            r == self.spec_ask_no_ack(),
    {
        self.feature.ask_no_ack()
    }

    /// Allow disabling auto-ACK per payload, or not.
    pub fn with_ask_no_ack(self, enable: bool) -> (r: RadioConfig)
        ensures
            r@ == (RadioConfigView {
                feature: with_mask(self@.feature, 1, enable),
                ..self@
            }),
            r.ask_no_ack() == enable,
    {
        RadioConfig { feature: self.feature.with_ask_no_ack(enable), ..self }
    }

    /// Are dynamically sized payloads enabled? (ACK payloads enable them too.)
    #[verifier::when_used_as_spec(spec_dynamic_payloads)]
    pub fn dynamic_payloads(&self) -> (r: bool)
        ensures
            r == self.spec_dynamic_payloads(),
    {
        self.feature.dynamic_payloads()
    }

    /// Enable or disable dynamically sized payloads; disabling them also
    /// disables ACK payloads.
    pub fn with_dynamic_payloads(self, enable: bool) -> (r: RadioConfig)
        ensures
            r@ == (RadioConfigView {
                feature: if enable { self@.feature | DYNAMIC_PAYLOADS_BIT } else { self@.feature & !DYNAMIC_PAYLOADS_BIT & !ACK_PAYLOADS_BIT },
                ..self@
            }),
            r.dynamic_payloads() == enable,
            !enable ==> !r.ack_payloads(),
    {
        RadioConfig { feature: self.feature.with_dynamic_payloads(enable), ..self }
    }

    /// The auto-ACK setting (bit `n` for pipe `n`).
    #[verifier::when_used_as_spec(spec_auto_ack)]
    pub fn auto_ack(&self) -> (r: u8)
        ensures
            r == self.spec_auto_ack(),
    {
        self.auto_ack
    }

    /// Set the auto-ACK feature per pipe: bit `n` of `enable` controls pipe `n`.
    pub fn with_auto_ack(self, enable: u8) -> (r: RadioConfig)
        ensures
            r@ == (RadioConfigView { auto_ack: enable, ..self@ }),
            r.auto_ack() == enable,
    {
        RadioConfig { auto_ack: enable, ..self }
    }

    /// Are custom ACK payloads enabled?
    #[verifier::when_used_as_spec(spec_ack_payloads)]
    pub fn ack_payloads(&self) -> (r: bool)
        ensures
            r == self.spec_ack_payloads(),
    {
        self.feature.ack_payloads()
    }

    /// Enable or disable custom ACK payloads. Enabling them also enables
    /// dynamic payloads and auto-ACK on all pipes (`0xFF`), which they need.
    pub fn with_ack_payloads(self, enable: bool) -> (r: RadioConfig)
        ensures
            r@ == (RadioConfigView {
                auto_ack: if enable {
                    0xFF
                } else {
                    self@.auto_ack
                },
                feature: if enable { self@.feature | ACK_PAYLOADS_BIT | DYNAMIC_PAYLOADS_BIT } else { self@.feature & !ACK_PAYLOADS_BIT },
                ..self@
            }),
            r.ack_payloads() == enable,
            enable ==> r.dynamic_payloads() && r.auto_ack() == 0xFF,
    {
        let auto_ack = if enable {
            0xFF
        } else {
            self.auto_ack
        };
        RadioConfig { auto_ack, feature: self.feature.with_ack_payloads(enable), ..self }
    }

    /// The static payload length.
    #[verifier::when_used_as_spec(spec_payload_length)]
    pub fn payload_length(&self) -> (r: u8)
        ensures
            r == self.spec_payload_length(),
    {
        self.payload_length
    }

    /// Set the static payload length (the radio's limit is enforced when the
    /// configuration is applied).
    pub fn with_payload_length(self, value: u8) -> (r: RadioConfig)
        ensures
            r@ == (RadioConfigView { payload_length: value, ..self@ }),
            r.payload_length() == value,
    {
        RadioConfig { payload_length: value, ..self }
    }

    /// Close RX pipe `pipe` (nothing changes when `pipe` is greater than 7).
    pub fn close_rx_pipe(self, pipe: u8) -> (r: RadioConfig)
        ensures
            r@ == (RadioConfigView {
                pipes: PipeConfigView {
                    rx_pipes_enabled: if pipe < 8 {
                        self@.pipes.rx_pipes_enabled & !(1u8 << pipe)
                    } else {
                        self@.pipes.rx_pipes_enabled
                    },
                    ..self@.pipes
                },
                ..self@
            }),
    {
        let mut pipes = self.pipes;
        pipes.close_rx_pipe(pipe);
        RadioConfig { pipes, ..self }
    }

    /// Is RX pipe `pipe` open? No pipe past 7 is.
    pub fn is_rx_pipe_enabled(&self, pipe: u8) -> (r: bool)
        ensures
            r == (pipe < 8 && self@.pipes.rx_pipes_enabled & (1u8 << pipe) != 0),
    {
        pipe < 8 && self.pipes.rx_pipes_enabled() & (1u8 << pipe) > 0
    }

    /// Write the address of RX pipe `pipe` into `address` (see
    /// [`EsbPipeConfig::get_rx_address`]).
    pub fn rx_address(&self, pipe: u8, address: &mut [u8])
        ensures
            final(address)@ == rx_address_read(self@.pipes, pipe, old(address)@),
    {
        self.pipes.get_rx_address(pipe, address);
    }

    /// Set the RX address of `pipe` and open it (see
    /// [`EsbPipeConfig::set_rx_address`]). Pipes 2 to 5 share the 4 last
    /// bytes of pipe 1's address and only take the first byte of `address`.
    pub fn with_rx_address(self, pipe: u8, address: &[u8]) -> (r: RadioConfig)
        ensures
            r@ == (RadioConfigView { pipes: rx_address_update(self@.pipes, pipe, address@), ..self@ }),
    {
        let mut pipes = self.pipes;
        pipes.set_rx_address(pipe, address);
        RadioConfig { pipes, ..self }
    }

    /// Write the TX address into `address` (up to 5 bytes).
    pub fn tx_address(&self, address: &mut [u8])
        ensures
            final(address)@ == overwrite(
                old(address)@,
                self@.pipes.tx_address,
                addr_len(old(address)@.len() as int),
            ),
    {
        let len = if address.len() < 5 {
            address.len()
        } else {
            5
        };
        let tx = self.pipes.tx_address();
        copy_into(address, &tx, 0, 0, len);
        assert(address@ =~= overwrite(old(address)@, self@.pipes.tx_address, len as int));
    }

    /// Set the TX address. Only pipe 0 transmits (auto-ACK packets in RX
    /// mode included).
    pub fn with_tx_address(self, address: &[u8]) -> (r: RadioConfig)
        ensures
            r@ == (RadioConfigView {
                pipes: PipeConfigView {
                    tx_address: overwrite(
                        self@.pipes.tx_address,
                        address@,
                        addr_len(address@.len() as int),
                    ),
                    ..self@.pipes
                },
                ..self@
            }),
    {
        let mut pipes = self.pipes;
        pipes.set_tx_address(address);
        RadioConfig { pipes, ..self }
    }
}

} // verus!
