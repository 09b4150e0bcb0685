//! Initializing and configuring the radio.
use vstd::prelude::*;

use crate::prelude::{EsbFifo, EsbInit, EsbPayloadLength, EsbPipe, EsbPower, EsbStatus};

use crate::prelude::EsbChannel;

use super::auto_ack::all_pipes;
use super::channel::set_channel_run;
use super::data_rate::{set_tx_delay, tx_delay_for};
use super::payload_length::set_payload_length_run;
use super::pipe::set_address_length_run;
use super::power::power_down_run;
use super::radio::address_frame;
use super::status::clear_status_flags_run;
use super::{
    act_run, advanced, done, failed, no_fail, ran, read_run, write_run, xfer_run, History, Rf24,
    Rf24View, Run,
};
use crate::bit_fields::{Feature, DYNAMIC_PAYLOADS_BIT, FEATURE_REG_MASK, PLUS_VARIANT_BIT};
use crate::commands::{ACTIVATE, FLUSH_RX, FLUSH_TX};
use crate::config::{default_config, RadioConfig, RadioConfigView};
use crate::registers::{
    CONFIG, DYNPD, EN_AA, EN_RXADDR, FEATURE, RF_SETUP, RX_ADDR_P0, SETUP_RETR, TX_ADDR,
};
use crate::transcript::{ActionView, Stop, Transcript};
use crate::types::{data_rate_of, with_mask, Nrf24Error, StatusFlags, DATA_RATE_MASK, IRQ_MASK};

verus! {

/// The address length (in bytes) of a configuration.
pub open spec fn cfg_address_length(cfg: RadioConfigView) -> u8 {
    ((cfg.setup_rf_aw >> 6u8) + 2) as u8
}

/// The run that writes the first byte of the addresses of pipes 2 to
/// `n + 1`, in order, from `prefixes`.
pub open spec fn prefixes_run(s: Rf24View, h: History, c: int, prefixes: Seq<u8>, n: int) -> Run
    decreases n,
{
    if n <= 0 {
        done(s, c)
    } else {
        prefixes_run(s, h, c, prefixes, n - 1).and_then(
            |s1: Rf24View, c1: int| write_run(s1, h, c1, (RX_ADDR_P0 + n + 1) as u8, prefixes[n - 1]),
        )
    }
}

/// A run of prefix writes that did not get through ends where it stopped.
proof fn lemma_prefixes_stuck(s: Rf24View, h: History, c: int, prefixes: Seq<u8>, i: int, n: int)
    requires
        0 <= i <= n,
        !prefixes_run(s, h, c, prefixes, i).ok,
    ensures
        prefixes_run(s, h, c, prefixes, n) == prefixes_run(s, h, c, prefixes, i),
    decreases n - i,
{
    if n > i {
        lemma_prefixes_stuck(s, h, c, prefixes, i, n - 1);
    }
}

/// The first part of [`with_config_run`]: CE low, the IRQ events cleared,
/// both FIFOs flushed, then the address length, auto-retries, auto-ack,
/// dynamic payloads (DYNPD), FEATURE (its bits taken from the
/// configuration) and RF_SETUP written; the delay for ACK packets suits the
/// configured data rate.
pub open spec fn config_registers_run(s: Rf24View, h: History, c: int, cfg: RadioConfigView) -> Run {
    act_run(s, h, c, ActionView::SetCe(false)).and_then(
        |s1: Rf24View, c1: int| clear_status_flags_run(s1, h, c1, IRQ_MASK),
    ).and_then(|s2: Rf24View, c2: int| xfer_run(s2, h, c2, seq![FLUSH_RX])).and_then(
        |s3: Rf24View, c3: int| xfer_run(s3, h, c3, seq![FLUSH_TX]),
    ).and_then(
        |s4: Rf24View, c4: int| set_address_length_run(s4, h, c4, cfg_address_length(cfg)),
    ).and_then(|s5: Rf24View, c5: int| write_run(s5, h, c5, SETUP_RETR, cfg.auto_retries)).and_then(
        |s6: Rf24View, c6: int| write_run(s6, h, c6, EN_AA, cfg.auto_ack),
    ).and_then(
        |s7: Rf24View, c7: int|
            {
                let f = (s7.feature & !FEATURE_REG_MASK) | (cfg.feature & FEATURE_REG_MASK);
                write_run(
                    Rf24View { feature: f, ..s7 },
                    h,
                    c7,
                    DYNPD,
                    all_pipes(cfg.feature & DYNAMIC_PAYLOADS_BIT != 0),
                )
            },
    ).and_then(
        |s8: Rf24View, c8: int| write_run(s8, h, c8, FEATURE, s8.feature & FEATURE_REG_MASK),
    ).and_then(|s9: Rf24View, c9: int| write_run(s9, h, c9, RF_SETUP, cfg.setup_rf_aw & 0x27)).map(
        |s10: Rf24View|
            Rf24View { tx_delay: tx_delay_for(data_rate_of(cfg.setup_rf_aw & DATA_RATE_MASK)), ..s10 },
    )
}

/// The second part of [`with_config_run`]: pipe 0's address cached if the
/// configuration opens pipe 0; pipe 1's address and the first bytes of
/// pipes 2 to 5 written; the TX address cached and written to TX_ADDR and
/// to pipe 0; EN_RXADDR written with the configured pipes and pipe 0 open.
pub open spec fn config_addresses_run(s: Rf24View, h: History, c: int, cfg: RadioConfigView) -> Run {
    let al = cfg_address_length(cfg) as int;
    let s0 = if cfg.pipes.rx_pipes_enabled & 1 != 0 {
        Rf24View { pipe0_rx_addr: Some(cfg.pipes.pipe0), ..s }
    } else {
        s
    };
    xfer_run(s0, h, c, address_frame((RX_ADDR_P0 + 1) as u8, cfg.pipes.pipe1, 5)).and_then(
        |s1: Rf24View, c1: int| prefixes_run(s1, h, c1, cfg.pipes.prefixes, 4),
    ).and_then(
        |s2: Rf24View, c2: int|
            {
                let s3 = Rf24View { tx_address: cfg.pipes.tx_address, ..s2 };
                xfer_run(s3, h, c2, address_frame(TX_ADDR, s3.tx_address, al))
            },
    ).and_then(
        |s4: Rf24View, c4: int| xfer_run(s4, h, c4, address_frame(RX_ADDR_P0, s4.tx_address, al)),
    ).and_then(
        |s5: Rf24View, c5: int| write_run(s5, h, c5, EN_RXADDR, cfg.pipes.rx_pipes_enabled | 1),
    )
}

/// How [`Rf24::with_config`] runs: the configured CONFIG register, powered
/// up, is cached; then [`config_registers_run`], [`config_addresses_run`],
/// the payload length and channel set, and CONFIG written. CE stays low, so
/// the radio idles in standby-I mode.
pub open spec fn with_config_run(s: Rf24View, h: History, c: int, cfg: RadioConfigView) -> Run {
    config_registers_run(
        Rf24View { config_reg: with_mask(cfg.config_reg, 2, true), ..s },
        h,
        c,
        cfg,
    ).and_then(|s1: Rf24View, c1: int| config_addresses_run(s1, h, c1, cfg)).and_then(
        |s2: Rf24View, c2: int| set_payload_length_run(s2, h, c2, cfg.payload_length),
    ).and_then(|s3: Rf24View, c3: int| set_channel_run(s3, h, c3, cfg.channel)).and_then(
        |s4: Rf24View, c4: int| write_run(s4, h, c4, CONFIG, s4.config_reg),
    )
}

/// The first steps of [`Rf24::init`]: a 5 ms wait, the radio powered down,
/// CONFIG read.
pub open spec fn init_probe_run(s: Rf24View, h: History, c: int) -> Run {
    act_run(s, h, c, ActionView::DelayNs(5000000)).and_then(
        |s1: Rf24View, c1: int| power_down_run(s1, h, c1),
    ).and_then(|s2: Rf24View, c2: int| read_run(s2, h, c2, CONFIG, 1))
}

/// The CONFIG register read by [`init_probe_run`] is the one cached.
pub open spec fn init_probe_matches(s: Rf24View, h: History, c: int) -> bool {
    let p = init_probe_run(s, h, c);
    p.state.io.buf[1] == p.state.config_reg
}

/// How [`Rf24::init`] tells a plus variant: FEATURE is read before and after
/// the ACTIVATE command; a plus variant ignores the command, so the two
/// agree. If the second read is smaller the command is sent again.
pub open spec fn detect_variant_run(s: Rf24View, h: History, c: int) -> Run {
    read_run(s, h, c, FEATURE, 1).and_then(
        |s1: Rf24View, c1: int|
            xfer_run(s1, h, c1, seq![ACTIVATE, 0x73u8]).and_then(
                |s2: Rf24View, c2: int| read_run(s2, h, c2, FEATURE, 1),
            ).and_then(
                |s3: Rf24View, c3: int|
                    {
                        let before = s1.io.buf[1];
                        let after = s3.io.buf[1];
                        let s4 = Rf24View {
                            feature: with_mask(s3.feature, PLUS_VARIANT_BIT, before == after),
                            ..s3
                        };
                        if after < before {
                            xfer_run(s4, h, c3, seq![ACTIVATE, 0x73u8])
                        } else {
                            done(s4, c3)
                        }
                    },
            ),
    )
}

/// How [`Rf24::init`] runs when CONFIG reads as cached: [`init_probe_run`],
/// [`detect_variant_run`], then [`with_config_run`] with the default
/// configuration.
pub open spec fn init_run(s: Rf24View, h: History, c: int) -> Run {
    init_probe_run(s, h, c).and_then(|s1: Rf24View, c1: int| detect_variant_run(s1, h, c1)).and_then(
        |s2: Rf24View, c2: int| with_config_run(s2, h, c2, default_config()),
    )
}

impl Rf24 {
    /// See [`config_registers_run`].
    fn configure_registers(&mut self, t: &mut Transcript, config: &RadioConfig) -> (r: Result<
        (),
        Stop,
    >)
        ensures
            advanced(r, old(t)@, final(t)@),
            no_fail(r),
            ran(
                r,
                final(t)@,
                final(self)@,
                config_registers_run(old(self)@, old(t)@.history, old(t)@.cursor, config@),
            ),
    {
        self.set_ce(t, false)?;
        self.clear_status_flags(t, StatusFlags::new())?;
        self.flush_rx(t)?;
        self.flush_tx(t)?;
        self.set_address_length(t, config.address_length())?;
        self.spi_write_byte(t, SETUP_RETR, config.auto_retries().into_bits())?;
        self.spi_write_byte(t, EN_AA, config.auto_ack())?;
        self.feature = Feature::from_bits(
            self.feature.into_bits() & !FEATURE_REG_MASK | (config.feature().into_bits()
                & FEATURE_REG_MASK),
        );
        let dynpd: u8 = if config.dynamic_payloads() {
            0x3F
        } else {
            0
        };
        self.spi_write_byte(t, DYNPD, dynpd)?;
        self.spi_write_byte(t, FEATURE, self.feature.into_bits() & FEATURE_REG_MASK)?;
        self.spi_write_byte(t, RF_SETUP, config.setup_rf_aw().into_bits() & 0x27)?;
        self.tx_delay = set_tx_delay(config.data_rate());
        Ok(())
    }

    /// See [`config_addresses_run`].
    fn configure_addresses(&mut self, t: &mut Transcript, config: &RadioConfig) -> (r: Result<
        (),
        Stop,
    >)
        ensures
            advanced(r, old(t)@, final(t)@),
            no_fail(r),
            ran(
                r,
                final(t)@,
                final(self)@,
                config_addresses_run(old(self)@, old(t)@.history, old(t)@.cursor, config@),
            ),
    {
        let ghost (h, c, s) = (t@.history, t@.cursor, self@);
        let pipes = config.pipes();
        if pipes.rx_pipes_enabled() & 1 != 0 {
            self.pipe0_rx_addr = Some(pipes.pipe0());
        }
        let p1 = pipes.pipe1();
        assert(p1@.take(5) =~= p1@);
        self.spi_write_buf(t, RX_ADDR_P0 + 1, &p1, 5)?;
        let ghost (s1, c1) = (self@, t@.cursor);
        let mut pipe: u8 = 2;
        #[verifier::loop_isolation(false)]
        while pipe < 6
            invariant
                2 <= pipe <= 6,
                t@.history == h,
                h == old(t)@.history,
                pipes@ == config@.pipes,
                prefixes_run(s1, h, c1, pipes@.prefixes, pipe - 2).ok,
                !prefixes_run(s1, h, c1, pipes@.prefixes, pipe - 2).corrupt,
                t@.cursor == prefixes_run(s1, h, c1, pipes@.prefixes, pipe - 2).end,
                self@ == prefixes_run(s1, h, c1, pipes@.prefixes, pipe - 2).state,
                advanced(Ok::<(), Stop>(()), old(t)@, t@),
            decreases 6 - pipe,
        {
            let r = self.spi_write_byte(t, RX_ADDR_P0 + pipe, pipes.prefix(pipe));
            if r.is_err() {
                proof {
                    lemma_prefixes_stuck(s1, h, c1, pipes@.prefixes, pipe - 1, 4);
                }
                return r;
            }
            pipe = pipe + 1;
        }
        self.tx_address = pipes.tx_address();
        let al = config.address_length() as usize;
        let a = self.tx_address;
        self.spi_write_buf(t, TX_ADDR, &a, al)?;
        self.spi_write_buf(t, RX_ADDR_P0, &a, al)?;
        self.spi_write_byte(t, EN_RXADDR, pipes.rx_pipes_enabled() | 1)
    }

}

impl EsbInit for Rf24 {
    /// Apply the configuration `config` (see [`with_config_run`]).
    fn with_config(&mut self, t: &mut Transcript, config: &RadioConfig) -> (r: Result<(), Stop>)
        ensures
            advanced(r, old(t)@, final(t)@),
            no_fail(r),
            ran(
                r,
                final(t)@,
                final(self)@,
                with_config_run(old(self)@, old(t)@.history, old(t)@.cursor, config@),
            ),
    {
        self.config_reg = config.config_reg().with_power(true);
        self.configure_registers(t, config)?;
        self.configure_addresses(t, config)?;
        self.set_payload_length(t, config.payload_length())?;
        self.set_channel(t, config.channel())?;
        self.spi_write_byte(t, CONFIG, self.config_reg.into_bits())
    }

    /// Initialize the radio: probe it, tell its variant, and apply the
    /// default configuration (see [`init_run`]). A CONFIG register that does
    /// not read as cached fails with [`Nrf24Error::BinaryCorruption`] (no
    /// radio answers, or it does not hold what is written).
    fn init(&mut self, t: &mut Transcript) -> (r: Result<(), Stop>)
        ensures
            advanced(r, old(t)@, final(t)@),
            no_fail(r) || failed(r, Nrf24Error::BinaryCorruption),
            ({
                let (h, c, s) = (old(t)@.history, old(t)@.cursor, old(self)@);
                let p = init_probe_run(s, h, c);
                &&& failed(r, Nrf24Error::BinaryCorruption) <==> p.ok && !init_probe_matches(s, h, c)
                &&& failed(r, Nrf24Error::BinaryCorruption) ==> final(t)@.cursor == p.end
                    && final(self)@ == p.state
                &&& !(p.ok && !init_probe_matches(s, h, c)) ==> ran(
                    r,
                    final(t)@,
                    final(self)@,
                    init_run(s, h, c),
                )
            }),
    {
        self.delay_ns(t, 5000000)?;
        self.power_down(t)?;
        self.spi_read(t, 1, CONFIG)?;
        if self.buf[1] != self.config_reg.into_bits() {
            return Err(Stop::Fail(Nrf24Error::BinaryCorruption));
        }
        self.spi_read(t, 1, FEATURE)?;
        let before = self.buf[1];
        self.toggle_features(t)?;
        self.spi_read(t, 1, FEATURE)?;
        let after = self.buf[1];
        self.feature = self.feature.with_is_plus_variant(before == after);
        if after < before {
            self.toggle_features(t)?;
        }
        let config = RadioConfig::default();
        self.with_config(t, &config)
    }
}

} // verus!
