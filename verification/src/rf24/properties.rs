//! What the driver's operations leave cached once they complete: the
//! settings that the getters report afterwards.
use vstd::prelude::*;

use super::auto_ack::{set_ack_payloads_run, set_auto_ack_pipe_run, set_auto_ack_run};
use super::data_rate::tx_delay_for;
use super::init::{cfg_address_length, config_addresses_run, config_registers_run, prefixes_run, with_config_run};
use super::payload_length::{pipe_lengths_run, set_dynamic_payloads_run, set_payload_length_run};
use super::power::{power_down_run, power_up_run};
use super::radio::{as_rx_run, as_tx_run};
use super::pipe::{cached_pipe0, open_rx_pipe_run, open_width};
use super::{at, done, read_run, write_frame, write_run, xfer_run, History, Rf24View};
use crate::config::overwrite;
use crate::commands::W_REGISTER;
use crate::registers::{EN_RXADDR, RF_SETUP, RX_ADDR_P0};
use crate::transcript::ActionView;
use crate::bit_fields::{clamp, ACK_PAYLOADS_BIT, DYNAMIC_PAYLOADS_BIT, FEATURE_REG_MASK};
use crate::config::RadioConfigView;
use crate::types::{data_rate_of, with_mask, DATA_RATE_MASK};

verus! {

/// Once [`Rf24::power_up`](super::Rf24::power_up) completes, the radio is
/// powered ([`Rf24::is_powered`](super::Rf24::is_powered)).
pub proof fn law_power_up_powers(s: Rf24View, h: History, c: int, delay: Option<u32>)
    ensures
        ({
            let run = power_up_run(s, h, c, delay);
            run.ok && !run.corrupt ==> run.state.config_reg & 2 != 0
        }),
{
    let x = s.config_reg;
    assert((x | 2u8) & 2 != 0) by (bit_vector);
}

/// Once [`Rf24::power_down`](super::Rf24::power_down) completes, the radio
/// is not powered.
pub proof fn law_power_down_unpowers(s: Rf24View, h: History, c: int)
    ensures
        ({
            let run = power_down_run(s, h, c);
            run.ok && !run.corrupt ==> run.state.config_reg & 2 == 0
        }),
{
    assert forall|x: u8| (x & !2u8) & 2 == 0 by {
        assert((x & !2u8) & 2 == 0) by (bit_vector);
    }
}

/// Once [`Rf24::as_rx`](super::Rf24::as_rx) completes, the radio is in RX
/// mode ([`Rf24::is_rx`](super::Rf24::is_rx)).
pub proof fn law_as_rx_listens(s: Rf24View, h: History, c: int)
    ensures
        ({
            let run = as_rx_run(s, h, c);
            run.ok && !run.corrupt ==> run.state.config_reg & 1 != 0
        }),
{
    let x = s.config_reg;
    assert((x | 1) & 1 != 0) by (bit_vector);
}

/// Once [`Rf24::as_tx`](super::Rf24::as_tx) completes, the radio is in TX
/// mode (not [`Rf24::is_rx`](super::Rf24::is_rx)).
pub proof fn law_as_tx_stops_listening(s: Rf24View, h: History, c: int, tx_address: Option<Seq<u8>>)
    ensures
        ({
            let run = as_tx_run(s, h, c, tx_address);
            run.ok && !run.corrupt ==> run.state.config_reg & 1 == 0
        }),
{
    assert forall|x: u8| (x & !1u8) & 1 == 0 by {
        assert((x & !1u8) & 1 == 0) by (bit_vector);
    }
}

/// Once [`Rf24::set_dynamic_payloads`](super::Rf24::set_dynamic_payloads)
/// completes, [`Rf24::get_dynamic_payloads`](super::Rf24::get_dynamic_payloads)
/// reports the setting; disabling dynamic payloads disables ACK payloads
/// too.
pub proof fn law_dynamic_payloads_setting(s: Rf24View, h: History, c: int, enable: bool)
    ensures
        ({
            let run = set_dynamic_payloads_run(s, h, c, enable);
            run.ok && !run.corrupt ==> {
                &&& (run.state.feature & DYNAMIC_PAYLOADS_BIT != 0) == enable
                &&& !enable ==> run.state.feature & ACK_PAYLOADS_BIT == 0
            }
        }),
{
    assert forall|f: u8, r: u8|
        #![trigger (f & !FEATURE_REG_MASK) | r]
        ((((f & !FEATURE_REG_MASK) | r) | DYNAMIC_PAYLOADS_BIT) & DYNAMIC_PAYLOADS_BIT) != 0 && ((((f
            & !FEATURE_REG_MASK) | r) & !DYNAMIC_PAYLOADS_BIT & !ACK_PAYLOADS_BIT)
            & DYNAMIC_PAYLOADS_BIT) == 0 && ((((f & !FEATURE_REG_MASK) | r) & !DYNAMIC_PAYLOADS_BIT
            & !ACK_PAYLOADS_BIT) & ACK_PAYLOADS_BIT) == 0 by {
        assert(((((f & !7u8) | r) | 4u8) & 4u8) != 0 && ((((f & !7u8) | r) & !4u8 & !2u8) & 4u8) == 0
            && ((((f & !7u8) | r) & !4u8 & !2u8) & 2u8) == 0) by (bit_vector);
    }
}

/// Once [`Rf24::set_ack_payloads`](super::Rf24::set_ack_payloads)`(true)`
/// completes, [`Rf24::get_ack_payloads`](super::Rf24::get_ack_payloads)
/// holds; if they were off, dynamic payloads are now on as well.
pub proof fn law_ack_payloads_enable(s: Rf24View, h: History, c: int)
    ensures
        ({
            let run = set_ack_payloads_run(s, h, c, true);
            run.ok && !run.corrupt ==> {
                &&& run.state.feature & ACK_PAYLOADS_BIT != 0
                &&& s.feature & ACK_PAYLOADS_BIT == 0 ==> run.state.feature & DYNAMIC_PAYLOADS_BIT != 0
            }
        }),
{
    assert forall|f: u8, r: u8|
        #![trigger (f & !FEATURE_REG_MASK) | r]
        ((((f & !FEATURE_REG_MASK) | r) | ACK_PAYLOADS_BIT | DYNAMIC_PAYLOADS_BIT) & ACK_PAYLOADS_BIT)
            != 0 && ((((f & !FEATURE_REG_MASK) | r) | ACK_PAYLOADS_BIT | DYNAMIC_PAYLOADS_BIT)
            & DYNAMIC_PAYLOADS_BIT) != 0 by {
        assert(((((f & !7u8) | r) | 2u8 | 4u8) & 2u8) != 0 && ((((f & !7u8) | r) | 2u8 | 4u8) & 4u8)
            != 0) by (bit_vector);
    }
}

/// Once [`Rf24::set_ack_payloads`](super::Rf24::set_ack_payloads)`(false)`
/// completes, ACK payloads are off.
proof fn lemma_ack_payloads_disable(s: Rf24View, h: History, c: int)
    ensures
        ({
            let run = set_ack_payloads_run(s, h, c, false);
            run.ok && !run.corrupt ==> run.state.feature & ACK_PAYLOADS_BIT == 0
        }),
{
    assert forall|f: u8, r: u8|
        #![trigger (f & !FEATURE_REG_MASK) | r]
        ((((f & !FEATURE_REG_MASK) | r) & !ACK_PAYLOADS_BIT) & ACK_PAYLOADS_BIT) == 0 by {
        assert(((((f & !7u8) | r) & !2u8) & 2u8) == 0) by (bit_vector);
    }
}

/// Once [`Rf24::set_auto_ack`](super::Rf24::set_auto_ack)`(false)`
/// completes, ACK payloads are off: they need auto-ack.
pub proof fn law_auto_ack_off_disables_ack_payloads(s: Rf24View, h: History, c: int)
    ensures
        ({
            let run = set_auto_ack_run(s, h, c, false);
            run.ok && !run.corrupt ==> run.state.feature & ACK_PAYLOADS_BIT == 0
        }),
{
    let first = super::write_run(s, h, c, crate::registers::EN_AA, 0);
    lemma_ack_payloads_disable(first.state, h, first.end);
}

/// Once [`Rf24::set_auto_ack_pipe`](super::Rf24::set_auto_ack_pipe)
/// completes with auto-ack disabled on pipe 0, ACK payloads are off: they
/// need auto-ack on pipe 0.
pub proof fn law_auto_ack_pipe0_off_disables_ack_payloads(s: Rf24View, h: History, c: int)
    ensures
        ({
            let run = set_auto_ack_pipe_run(s, h, c, false, 0);
            run.ok && !run.corrupt ==> run.state.feature & ACK_PAYLOADS_BIT == 0
        }),
{
    let first = super::read_run(s, h, c, crate::registers::EN_AA, 1);
    lemma_ack_payloads_disable(first.state, h, first.end);
}

/// Once [`Rf24::set_payload_length`](super::Rf24::set_payload_length)
/// completes, the driver caches the length, clamped to [1, 32].
pub proof fn law_payload_length_cached(s: Rf24View, h: History, c: int, length: u8)
    ensures
        ({
            let run = set_payload_length_run(s, h, c, length);
            run.ok && !run.corrupt ==> run.state.payload_length == clamp(length, 1, 32)
                && 1 <= run.state.payload_length <= 32
        }),
{
}

/// `b` caches what `a` does (the SPI buffer and STATUS byte aside).
pub open spec fn same_cache(a: Rf24View, b: Rf24View) -> bool {
    &&& a.tx_delay == b.tx_delay
    &&& a.config_reg == b.config_reg
    &&& a.feature == b.feature
    &&& a.pipe0_rx_addr == b.pipe0_rx_addr
    &&& a.payload_length == b.payload_length
    &&& a.tx_address == b.tx_address
}

/// Writing the pipes' payload lengths changes nothing that is cached.
proof fn lemma_pipe_lengths_keep(s: Rf24View, h: History, c: int, len: u8, n: int)
    ensures
        same_cache(pipe_lengths_run(s, h, c, len, n).state, s),
    decreases n,
{
    if n > 0 {
        lemma_pipe_lengths_keep(s, h, c, len, n - 1);
    }
}

/// Writing the first bytes of the addresses of pipes 2 to 5 changes nothing
/// that is cached.
proof fn lemma_prefixes_keep(s: Rf24View, h: History, c: int, prefixes: Seq<u8>, n: int)
    ensures
        same_cache(prefixes_run(s, h, c, prefixes, n).state, s),
    decreases n,
{
    if n > 0 {
        lemma_prefixes_keep(s, h, c, prefixes, n - 1);
    }
}

/// The cached FEATURE byte after the address length `w` and then the
/// configured FEATURE bits `y` were cached.
proof fn lemma_feature_bits(x: u8, w: u8, y: u8)
    by (bit_vector)
    requires
        w < 8,
    ensures
        (((((x & 0x1F) | (w << 5u8)) & !7u8) | (y & 7u8)) >> 5u8) == w,
        (((((x & 0x1F) | (w << 5u8)) & !7u8) | (y & 7u8)) & 7u8) == y & 7u8,
{
}

/// What [`config_registers_run`] caches.
proof fn lemma_config_registers(s: Rf24View, h: History, c: int, cfg: RadioConfigView)
    ensures
        ({
            let run = config_registers_run(s, h, c, cfg);
            run.ok && !run.corrupt ==> {
                &&& run.state.config_reg == s.config_reg
                &&& run.state.pipe0_rx_addr == s.pipe0_rx_addr
                &&& run.state.payload_length == s.payload_length
                &&& run.state.tx_address == s.tx_address
                &&& run.state.address_length() == cfg_address_length(cfg)
                &&& run.state.feature & FEATURE_REG_MASK == cfg.feature & FEATURE_REG_MASK
                &&& run.state.tx_delay == tx_delay_for(data_rate_of(cfg.setup_rf_aw & DATA_RATE_MASK))
            }
        }),
{
    let w = cfg_address_length(cfg);
    let aw = cfg.setup_rf_aw;
    assert(2 <= ((aw >> 6u8) + 2) as u8 <= 5) by (bit_vector);
    assert(clamp(w, 2, 5) == w);
    assert forall|x: u8| #![trigger ((x & 0x1F) | (w << 5u8))]
        (((((x & 0x1F) | (w << 5u8)) & !7u8) | (cfg.feature & 7u8)) >> 5u8) == w
        && (((((x & 0x1F) | (w << 5u8)) & !7u8) | (cfg.feature & 7u8)) & 7u8) == cfg.feature & 7u8 by {
        lemma_feature_bits(x, w, cfg.feature);
    }
}

/// What [`config_addresses_run`] caches.
proof fn lemma_config_addresses(s: Rf24View, h: History, c: int, cfg: RadioConfigView)
    ensures
        ({
            let run = config_addresses_run(s, h, c, cfg);
            run.ok && !run.corrupt ==> {
                &&& run.state.config_reg == s.config_reg
                &&& run.state.feature == s.feature
                &&& run.state.payload_length == s.payload_length
                &&& run.state.tx_delay == s.tx_delay
                &&& run.state.tx_address == cfg.pipes.tx_address
                &&& run.state.pipe0_rx_addr == if cfg.pipes.rx_pipes_enabled & 1 != 0 {
                    Some(cfg.pipes.pipe0)
                } else {
                    s.pipe0_rx_addr
                }
            }
        }),
{
    assert forall|s1: Rf24View, c1: int|
        #![trigger prefixes_run(s1, h, c1, cfg.pipes.prefixes, 4)]
        same_cache(prefixes_run(s1, h, c1, cfg.pipes.prefixes, 4).state, s1) by {
        lemma_prefixes_keep(s1, h, c1, cfg.pipes.prefixes, 4);
    }
}

/// Once [`Rf24::with_config`](super::Rf24::with_config) completes, the
/// driver caches the configuration: its CONFIG register (powered up), the
/// payload length (clamped to [1, 32]), the address length, its dynamic
/// payload, ACK payload and "ask no ACK" settings, the TX address, pipe
/// 0's address if the configuration opens pipe 0, and the delay for ACK
/// packets that suits its data rate.
pub proof fn law_with_config_caches(s: Rf24View, h: History, c: int, cfg: RadioConfigView)
    ensures
        ({
            let run = with_config_run(s, h, c, cfg);
            run.ok && !run.corrupt ==> {
                &&& run.state.config_reg == with_mask(cfg.config_reg, 2, true)
                &&& run.state.payload_length == clamp(cfg.payload_length, 1, 32)
                &&& run.state.address_length() == cfg_address_length(cfg)
                &&& run.state.feature & FEATURE_REG_MASK == cfg.feature & FEATURE_REG_MASK
                &&& run.state.tx_address == cfg.pipes.tx_address
                &&& run.state.pipe0_rx_addr == if cfg.pipes.rx_pipes_enabled & 1 != 0 {
                    Some(cfg.pipes.pipe0)
                } else {
                    s.pipe0_rx_addr
                }
                &&& run.state.tx_delay == tx_delay_for(data_rate_of(cfg.setup_rf_aw & DATA_RATE_MASK))
            }
        }),
{
    let s0 = Rf24View { config_reg: with_mask(cfg.config_reg, 2, true), ..s };
    let r1 = config_registers_run(s0, h, c, cfg);
    lemma_config_registers(s0, h, c, cfg);
    let r2 = config_addresses_run(r1.state, h, r1.end, cfg);
    lemma_config_addresses(r1.state, h, r1.end, cfg);
    let len = clamp(cfg.payload_length, 1, 32);
    lemma_pipe_lengths_keep(r2.state, h, r2.end, len, 6);
}

/// Exchange `k` transferred the two bytes `first` and `second`.
pub open spec fn pair_at(h: History, k: int, first: u8, second: u8) -> bool {
    at(h, k, ActionView::Transfer(seq![first, second]))
}

/// A run of prefix writes ends no earlier than it starts.
proof fn lemma_prefixes_end(s: Rf24View, h: History, c: int, prefixes: Seq<u8>, n: int)
    ensures
        prefixes_run(s, h, c, prefixes, n).end >= c,
    decreases n,
{
    if n > 0 {
        lemma_prefixes_end(s, h, c, prefixes, n - 1);
    }
}

/// A run of pipe length writes ends no earlier than it starts.
proof fn lemma_pipe_lengths_end(s: Rf24View, h: History, c: int, len: u8, n: int)
    ensures
        pipe_lengths_run(s, h, c, len, n).end >= c,
    decreases n,
{
    if n > 0 {
        lemma_pipe_lengths_end(s, h, c, len, n - 1);
    }
}

/// Once [`Rf24::with_config`](super::Rf24::with_config) completes, one of
/// its exchanges wrote RF_SETUP (register 0x06, written with command
/// 0x26) with the configuration's 250 kbps bit (bit 5), PA level (bits 2
/// and 1) and LNA bit (bit 0).
pub proof fn law_with_config_writes_rf_setup(s: Rf24View, h: History, c: int, cfg: RadioConfigView)
    ensures
        ({
            let run = with_config_run(s, h, c, cfg);
            run.ok && !run.corrupt ==> exists|e: int, b: u8|
                c <= e < run.end && #[trigger] pair_at(h, e, 0x26, b)
                    && b & 0x20 == cfg.setup_rf_aw & 0x20 && b & 0x06 == cfg.setup_rf_aw & 0x06
                    && b & 0x01 == cfg.setup_rf_aw & 0x01
        }),
{
    let run = with_config_run(s, h, c, cfg);
    if run.ok && !run.corrupt {
        let s0 = Rf24View { config_reg: with_mask(cfg.config_reg, 2, true), ..s };
        let r1 = config_registers_run(s0, h, c, cfg);
        assert(r1.ok && !r1.corrupt);
        let x = cfg.setup_rf_aw;
        let b = x & 0x27;
        assert(RF_SETUP | W_REGISTER == 0x26u8 && b & 0x20 == x & 0x20 && b & 0x06 == x & 0x06
            && b & 0x01 == x & 0x01) by (bit_vector)
            requires
                b == x & 0x27,
                RF_SETUP == 0x06,
                W_REGISTER == 0x20,
        ;
        assert(write_frame(RF_SETUP, b) =~= seq![0x26u8, b]);
        assert(pair_at(h, r1.end - 1, 0x26, b));
        assert(r1.end == c + 10);
        let r2 = config_addresses_run(r1.state, h, r1.end, cfg);
        assert forall|s1: Rf24View, c1: int|
            #![trigger prefixes_run(s1, h, c1, cfg.pipes.prefixes, 4)]
            prefixes_run(s1, h, c1, cfg.pipes.prefixes, 4).end >= c1 by {
            lemma_prefixes_end(s1, h, c1, cfg.pipes.prefixes, 4);
        }
        assert(r2.end >= r1.end);
        let len = clamp(cfg.payload_length, 1, 32);
        lemma_pipe_lengths_end(r2.state, h, r2.end, len, 6);
        assert(run.end >= r2.end);
    }
}

/// Once [`Rf24::open_rx_pipe`](crate::prelude::EsbPipe::open_rx_pipe)
/// completes for pipe 1, or for pipe 0 in RX mode, its first exchange wrote
/// the address, cut to the cached address length, to the pipe's own
/// address register (RX_ADDR_P0, 0x0A, plus the pipe: command 0x2A plus the
/// pipe); for pipes 2 to 5 it wrote the address's first byte there. Its
/// last exchange wrote EN_RXADDR (command 0x22) with the pipe's bit set.
pub proof fn law_open_rx_pipe_writes_address(
    s: Rf24View,
    h: History,
    c: int,
    pipe: u8,
    address: Seq<u8>,
)
    ensures
        ({
            let run = open_rx_pipe_run(s, h, c, pipe, address);
            let w = if address.len() < s.address_length() {
                address.len() as int
            } else {
                s.address_length() as int
            };
            run.ok && !run.corrupt && pipe <= 5 ==> {
                &&& (pipe == 1 || (pipe == 0 && s.config_reg & 1 != 0)) ==> at(
                    h,
                    c,
                    ActionView::Transfer(seq![(0x2A + pipe) as u8] + address.take(w)),
                )
                &&& pipe >= 2 ==> pair_at(h, c, (0x2A + pipe) as u8, address[0])
                &&& exists|b: u8|
                    #[trigger] pair_at(h, run.end - 1, 0x22, b) && b & (1u8 << pipe) != 0
            }
        }),
{
    let run = open_rx_pipe_run(s, h, c, pipe, address);
    if run.ok && !run.corrupt && pipe <= 5 {
        assert(((RX_ADDR_P0 + pipe) as u8) | W_REGISTER == (0x2A + pipe) as u8) by (bit_vector)
            requires
                pipe <= 5,
                RX_ADDR_P0 == 0x0A,
                W_REGISTER == 0x20,
        ;
        let width = open_width(s, address.len() as int);
        let s0 = if pipe == 0 {
            Rf24View { pipe0_rx_addr: Some(overwrite(cached_pipe0(s), address, width)), ..s }
        } else {
            s
        };
        let first = if pipe < 2 {
            if s.config_reg & 1 != 0 || pipe != 0 {
                xfer_run(
                    s0,
                    h,
                    c,
                    seq![((RX_ADDR_P0 + pipe) as u8) | W_REGISTER] + address.take(width),
                )
            } else {
                done(s0, c)
            }
        } else {
            write_run(s0, h, c, (RX_ADDR_P0 + pipe) as u8, address[0])
        };
        assert(first.ok && !first.corrupt);
        let r2 = read_run(first.state, h, first.end, EN_RXADDR, 1);
        let y = r2.state.io.buf[1];
        let b = y | (1u8 << pipe);
        assert(b & (1u8 << pipe) != 0 && EN_RXADDR | W_REGISTER == 0x22u8) by (bit_vector)
            requires
                b == y | (1u8 << pipe),
                pipe <= 5,
                EN_RXADDR == 0x02,
                W_REGISTER == 0x20,
        ;
        assert(write_frame(EN_RXADDR, b) =~= seq![0x22u8, b]);
        assert(pair_at(h, run.end - 1, 0x22, b));
        if pipe >= 2 {
            assert(write_frame((RX_ADDR_P0 + pipe) as u8, address[0]) =~= seq![
                (0x2A + pipe) as u8,
                address[0],
            ]);
        }
    }
}

} // verus!
