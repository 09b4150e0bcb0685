//! Cached copies of the radio's configuration registers.
//!
//! Each struct holds the raw byte of a register (or of a value packed like
//! one); its view is that byte.
use vstd::prelude::*;

use crate::bits::{lemma_replace_inside, lemma_set_clear};
use crate::mnemonics::{MASK_MAX_RT, MASK_RX_DR, MASK_TX_DS};
use crate::types::{
    crc_length_bits, crc_length_of, data_rate_bits, data_rate_of, lemma_data_rate_round_trip,
    lemma_pa_level_round_trip, pa_level_bits, pa_level_of, with_mask, CrcLength, DataRate,
    PaLevel, DATA_RATE_MASK, PA_LEVEL_MASK,
};

verus! {

/// The bits of the CONFIG register that hold the CRC length.
pub const CRC_MASK: u8 = 0b1100;

/// The CONFIG register: IRQ event masks (bits 6 to 4; a set bit disables the
/// event), CRC length (bits 3 and 2), power (bit 1) and primary RX mode (bit 0).
#[derive(Clone, Copy, Debug)]
pub struct Config {
    bits: u8,
}

impl View for Config {
    type V = u8;

    closed spec fn view(&self) -> u8 {
        self.bits
    }
}

impl Config {
    /// All IRQ events enabled, 16 bit CRC, powered down, TX mode (`0x0C`).
    pub fn default() -> (r: Config)
        ensures
            r@ == 0x0C,
    {
        Config { bits: 0x0C }
    }

    pub fn from_bits(bits: u8) -> (r: Config)
        ensures
            r@ == bits,
    {
        Config { bits }
    }

    pub fn into_bits(&self) -> (r: u8)
        ensures
            r == self@,
    {
        self.bits
    }

    pub open spec fn spec_crc_length(&self) -> CrcLength {
        crc_length_of(self@ & CRC_MASK)
    }

    pub open spec fn spec_rx_dr(&self) -> bool {
        self@ & MASK_RX_DR == 0
    }

    pub open spec fn spec_tx_ds(&self) -> bool {
        self@ & MASK_TX_DS == 0
    }

    pub open spec fn spec_tx_df(&self) -> bool {
        self@ & MASK_MAX_RT == 0
    }

    pub open spec fn spec_power(&self) -> bool {
        self@ & 2 != 0
    }

    pub open spec fn spec_is_rx(&self) -> bool {
        self@ & 1 != 0
    }

    /// The CRC length that this register selects.
    #[verifier::when_used_as_spec(spec_crc_length)]
    pub fn crc_length(&self) -> (r: CrcLength)
        ensures
            r == self.spec_crc_length(),
    {
        CrcLength::from_bits(self.bits & CRC_MASK)
    }

    /// Select the CRC length, keeping the other bits.
    pub fn with_crc_length(self, length: CrcLength) -> (r: Config)
        ensures
            r@ == (self@ & !CRC_MASK) | crc_length_bits(length),
            r.crc_length() == length,
            r@ & !CRC_MASK == self@ & !CRC_MASK,
    {
        let v = length.into_bits();
        proof {
            assert(0u8 & 12u8 == 0u8 && 8u8 & 12u8 == 8u8 && 12u8 & 12u8 == 12u8) by (bit_vector);
            lemma_replace_inside(self.bits, CRC_MASK, v);
        }
        Config { bits: self.bits & !CRC_MASK | v }
    }

    /// Does the "RX Data Ready" event trigger the IRQ pin?
    #[verifier::when_used_as_spec(spec_rx_dr)]
    pub fn rx_dr(&self) -> (r: bool)
        ensures
            r == self.spec_rx_dr(),
    {
        (self.bits & MASK_RX_DR) == 0
    }

    /// Let the "RX Data Ready" event trigger the IRQ pin (or not), keeping the
    /// other bits.
    pub fn with_rx_dr(self, enable: bool) -> (r: Config)
        ensures
            r@ == with_mask(self@, MASK_RX_DR, !enable),
            r.rx_dr() == enable,
            r@ & !MASK_RX_DR == self@ & !MASK_RX_DR,
    {
        proof {
            lemma_set_clear(self.bits, MASK_RX_DR);
        }
        if enable {
            Config { bits: self.bits & !MASK_RX_DR }
        } else {
            Config { bits: self.bits | MASK_RX_DR }
        }
    }

    /// Does the "TX Data Sent" event trigger the IRQ pin?
    #[verifier::when_used_as_spec(spec_tx_ds)]
    pub fn tx_ds(&self) -> (r: bool)
        ensures
            r == self.spec_tx_ds(),
    {
        (self.bits & MASK_TX_DS) == 0
    }

    /// Let the "TX Data Sent" event trigger the IRQ pin (or not), keeping the
    /// other bits.
    pub fn with_tx_ds(self, enable: bool) -> (r: Config)
        ensures
            r@ == with_mask(self@, MASK_TX_DS, !enable),
            r.tx_ds() == enable,
            r@ & !MASK_TX_DS == self@ & !MASK_TX_DS,
    {
        proof {
            lemma_set_clear(self.bits, MASK_TX_DS);
        }
        if enable {
            Config { bits: self.bits & !MASK_TX_DS }
        } else {
            Config { bits: self.bits | MASK_TX_DS }
        }
    }

    /// Does the "TX Data Failed" event trigger the IRQ pin?
    #[verifier::when_used_as_spec(spec_tx_df)]
    pub fn tx_df(&self) -> (r: bool)
        ensures
            r == self.spec_tx_df(),
    {
        (self.bits & MASK_MAX_RT) == 0
    }

    /// Let the "TX Data Failed" event trigger the IRQ pin (or not), keeping the
    /// other bits.
    pub fn with_tx_df(self, enable: bool) -> (r: Config)
        ensures
            r@ == with_mask(self@, MASK_MAX_RT, !enable),
            r.tx_df() == enable,
            r@ & !MASK_MAX_RT == self@ & !MASK_MAX_RT,
    {
        proof {
            lemma_set_clear(self.bits, MASK_MAX_RT);
        }
        if enable {
            Config { bits: self.bits & !MASK_MAX_RT }
        } else {
            Config { bits: self.bits | MASK_MAX_RT }
        }
    }

    /// Is the radio powered up?
    #[verifier::when_used_as_spec(spec_power)]
    pub fn power(&self) -> (r: bool)
        ensures
            r == self.spec_power(),
    {
        self.bits & 2 != 0
    }

    /// Set the power bit, keeping the other bits.
    pub fn with_power(self, power: bool) -> (r: Config)
        ensures
            r@ == with_mask(self@, 2, power),
            r.power() == power,
            r@ & !2u8 == self@ & !2u8,
    {
        proof {
            lemma_set_clear(self.bits, 2);
        }
        if power {
            Config { bits: self.bits | 2 }
        } else {
            Config { bits: self.bits & !2u8 }
        }
    }

    /// Is the radio in primary RX mode?
    #[verifier::when_used_as_spec(spec_is_rx)]
    pub fn is_rx(&self) -> (r: bool)
        ensures
            r == self.spec_is_rx(),
    {
        self.bits & 1 != 0
    }

    /// Select primary RX mode, keeping the other bits.
    pub fn as_rx(self) -> (r: Config)
        ensures
            r@ == self@ | 1,
            r.is_rx(),
            r@ & !1u8 == self@ & !1u8,
    {
        proof {
            lemma_set_clear(self.bits, 1);
        }
        Config { bits: self.bits | 1 }
    }

    /// Select primary TX mode, keeping the other bits.
    pub fn as_tx(self) -> (r: Config)
        ensures
            r@ == self@ & !1u8,
            !r.is_rx(),
            r@ & !1u8 == self@ & !1u8,
    {
        proof {
            lemma_set_clear(self.bits, 1);
        }
        Config { bits: self.bits & !1u8 }
    }
}

/// The SETUP_RETR register: the auto-retry delay (bits 7 to 4) and count
/// (bits 3 to 0).
#[derive(Clone, Copy, Debug)]
pub struct SetupRetry {
    bits: u8,
}

impl View for SetupRetry {
    type V = u8;

    closed spec fn view(&self) -> u8 {
        self.bits
    }
}

impl SetupRetry {
    /// A delay of 5 (1500 microseconds) and a count of 15 (`0x5F`).
    pub fn default() -> (r: SetupRetry)
        ensures
            r@ == 0x5F,
    {
        SetupRetry { bits: 0x5F }
    }

    pub fn from_bits(bits: u8) -> (r: SetupRetry)
        ensures
            r@ == bits,
    {
        SetupRetry { bits }
    }

    pub fn into_bits(&self) -> (r: u8)
        ensures
            r == self@,
    {
        self.bits
    }

    pub open spec fn spec_ard(&self) -> u8 {
        self@ >> 4u8
    }

    pub open spec fn spec_arc(&self) -> u8 {
        self@ & 0xF
    }

    /// The auto-retry delay.
    #[verifier::when_used_as_spec(spec_ard)]
    pub fn ard(&self) -> (r: u8)
        ensures
            r == self.spec_ard(),
    {
        self.bits >> 4u8
    }

    /// The auto-retry count.
    #[verifier::when_used_as_spec(spec_arc)]
    pub fn arc(&self) -> (r: u8)
        ensures
            r == self.spec_arc(),
    {
        self.bits & 0xF
    }

    /// The register value for the given delay and count.
    pub fn with_ard_arc(delay: u8, count: u8) -> (r: SetupRetry)
        requires
            delay <= 15,
            count <= 15,
        ensures
            r@ == (delay << 4u8) | count,
            r.ard() == delay,
            r.arc() == count,
    {
        proof {
            assert(((delay << 4u8) | count) >> 4u8 == delay && ((delay << 4u8) | count) & 0xF
                == count) by (bit_vector)
                requires
                    delay <= 15,
                    count <= 15,
            ;
        }
        SetupRetry { bits: (delay << 4u8) | count }
    }
}

/// The RF_SETUP register (data rate in bits 5 and 3, PA level in bits 2 and
/// 1, LNA in bit 0), packed with the address length (minus 2) in bits 7 and 6.
#[derive(Clone, Copy, Debug)]
pub struct SetupRfAw {
    bits: u8,
}

/// The register's bits that hold the address length.
pub const ADDR_LENGTH_MASK: u8 = 0xC0;

/// Clamp `value` to the range [lo, hi].
pub open spec fn clamp(value: u8, lo: u8, hi: u8) -> u8 {
    if value < lo {
        lo
    } else if value > hi {
        hi
    } else {
        value
    }
}

/// Clamp `value` to the range [lo, hi].
pub fn clamp_u8(value: u8, lo: u8, hi: u8) -> (r: u8)
    requires
        lo <= hi,
    ensures
        r == clamp(value, lo, hi),
{
    if value < lo {
        lo
    } else if value > hi {
        hi
    } else {
        value
    }
}

impl View for SetupRfAw {
    type V = u8;

    closed spec fn view(&self) -> u8 {
        self.bits
    }
}

impl SetupRfAw {
    /// 5 byte addresses, 1 Mbps, maximum PA level, LNA enabled (`0xC7`).
    pub fn default() -> (r: SetupRfAw)
        ensures
            r@ == 0xC7,
    {
        SetupRfAw { bits: 0xC7 }
    }

    pub fn from_bits(bits: u8) -> (r: SetupRfAw)
        ensures
            r@ == bits,
    {
        SetupRfAw { bits }
    }

    pub fn into_bits(&self) -> (r: u8)
        ensures
            r == self@,
    {
        self.bits
    }

    pub open spec fn spec_address_length(&self) -> u8 {
        ((self@ >> 6u8) + 2) as u8
    }

    pub open spec fn spec_data_rate(&self) -> DataRate {
        data_rate_of(self@ & DATA_RATE_MASK)
    }

    pub open spec fn spec_pa_level(&self) -> PaLevel {
        pa_level_of(self@ & PA_LEVEL_MASK)
    }

    pub open spec fn spec_lna_enable(&self) -> bool {
        self@ & 1 != 0
    }

    /// The address length (in bytes).
    #[verifier::when_used_as_spec(spec_address_length)]
    pub fn address_length(&self) -> (r: u8)
        ensures
            r == self.spec_address_length(),
            2 <= r <= 5,
    {
        let b = self.bits;
        proof {
            assert(b >> 6u8 <= 3) by (bit_vector);
        }
        (self.bits >> 6u8) + 2
    }

    /// Set the address length, clamped to the range [2, 5], keeping the other
    /// bits.
    pub fn with_address_length(self, length: u8) -> (r: SetupRfAw)
        ensures
            r@ == (self@ & !ADDR_LENGTH_MASK) | (((clamp(length, 2, 5) - 2) as u8) << 6u8),
            r.address_length() == clamp(length, 2, 5),
            r@ & !ADDR_LENGTH_MASK == self@ & !ADDR_LENGTH_MASK,
    {
        let len = clamp_u8(length, 2, 5);
        let v: u8 = (len - 2) << 6u8;
        let b = self.bits;
        proof {
            assert(((b & !0xC0u8) | ((len - 2) as u8) << 6u8) >> 6u8 == (len - 2) as u8
                && ((b & !0xC0u8) | ((len - 2) as u8) << 6u8) & !0xC0u8 == b & !0xC0u8)
                by (bit_vector)
                requires
                    2 <= len <= 5,
            ;
        }
        SetupRfAw { bits: self.bits & !ADDR_LENGTH_MASK | v }
    }

    /// The data rate.
    #[verifier::when_used_as_spec(spec_data_rate)]
    pub fn data_rate(&self) -> (r: DataRate)
        ensures
            r == self.spec_data_rate(),
    {
        DataRate::from_bits(self.bits & DATA_RATE_MASK)
    }

    /// Set the data rate, keeping the other bits.
    pub fn with_data_rate(self, data_rate: DataRate) -> (r: SetupRfAw)
        ensures
            r@ == (self@ & !DATA_RATE_MASK) | data_rate_bits(data_rate),
            r.data_rate() == data_rate,
            r@ & !DATA_RATE_MASK == self@ & !DATA_RATE_MASK,
    {
        let v = data_rate.into_bits();
        proof {
            lemma_data_rate_round_trip(data_rate);
            lemma_replace_inside(self.bits, DATA_RATE_MASK, v);
        }
        SetupRfAw { bits: self.bits & !DATA_RATE_MASK | v }
    }

    /// The PA level.
    #[verifier::when_used_as_spec(spec_pa_level)]
    pub fn pa_level(&self) -> (r: PaLevel)
        ensures
            r == self.spec_pa_level(),
    {
        PaLevel::from_bits(self.bits & PA_LEVEL_MASK)
    }

    /// Set the PA level, keeping the other bits.
    pub fn with_pa_level(self, level: PaLevel) -> (r: SetupRfAw)
        ensures
            r@ == (self@ & !PA_LEVEL_MASK) | pa_level_bits(level),
            r.pa_level() == level,
            r@ & !PA_LEVEL_MASK == self@ & !PA_LEVEL_MASK,
    {
        let v = level.into_bits();
        proof {
            lemma_pa_level_round_trip(level);
            lemma_replace_inside(self.bits, PA_LEVEL_MASK, v);
        }
        SetupRfAw { bits: self.bits & !PA_LEVEL_MASK | v }
    }

    /// Is the LNA enabled?
    #[verifier::when_used_as_spec(spec_lna_enable)]
    pub fn lna_enable(&self) -> (r: bool)
        ensures
            r == self.spec_lna_enable(),
    {
        self.bits & 1 != 0
    }

    /// Enable or disable the LNA, keeping the other bits.
    pub fn with_lna_enable(self, enable: bool) -> (r: SetupRfAw)
        ensures
            r@ == with_mask(self@, 1, enable),
            r.lna_enable() == enable,
            r@ & !1u8 == self@ & !1u8,
    {
        proof {
            lemma_set_clear(self.bits, 1);
        }
        if enable {
            SetupRfAw { bits: self.bits | 1 }
        } else {
            SetupRfAw { bits: self.bits & !1u8 }
        }
    }
}

/// The FEATURE register (dynamic payloads in bit 2, ACK payloads in bit 1,
/// "ask no ACK" in bit 0), packed with the chip variant (bit 3) and the
/// address length (bits 7 to 5).
#[derive(Clone, Copy, Debug)]
pub struct Feature {
    bits: u8,
}

/// The bits of the FEATURE register that the radio holds.
pub const FEATURE_REG_MASK: u8 = 7;

/// The bit of the dynamic payloads feature.
pub const DYNAMIC_PAYLOADS_BIT: u8 = 4;

/// The bit of the ACK payloads feature.
pub const ACK_PAYLOADS_BIT: u8 = 2;

/// The bit that tells a plus variant.
pub const PLUS_VARIANT_BIT: u8 = 8;

impl View for Feature {
    type V = u8;

    closed spec fn view(&self) -> u8 {
        self.bits
    }
}

impl Feature {
    /// All features off (`0`).
    pub fn default() -> (r: Feature)
        ensures
            r@ == 0,
    {
        Feature { bits: 0 }
    }

    pub fn from_bits(bits: u8) -> (r: Feature)
        ensures
            r@ == bits,
    {
        Feature { bits }
    }

    pub fn into_bits(&self) -> (r: u8)
        ensures
            r == self@,
    {
        self.bits
    }

    pub open spec fn spec_address_length(&self) -> u8 {
        self@ >> 5u8
    }

    pub open spec fn spec_is_plus_variant(&self) -> bool {
        self@ & PLUS_VARIANT_BIT != 0
    }

    pub open spec fn spec_dynamic_payloads(&self) -> bool {
        self@ & DYNAMIC_PAYLOADS_BIT != 0
    }

    pub open spec fn spec_ack_payloads(&self) -> bool {
        self@ & ACK_PAYLOADS_BIT != 0
    }

    pub open spec fn spec_ask_no_ack(&self) -> bool {
        self@ & 1 != 0
    }

    /// The address length held in bits 7 to 5.
    #[verifier::when_used_as_spec(spec_address_length)]
    pub fn address_length(&self) -> (r: u8)
        ensures
            r == self.spec_address_length(),
            r <= 7,
    {
        let b = self.bits;
        proof {
            assert(b >> 5u8 <= 7) by (bit_vector);
        }
        self.bits >> 5u8
    }

    /// Store an address length (at most 7) in bits 7 to 5, keeping the other
    /// bits.
    pub fn with_address_length(self, length: u8) -> (r: Feature)
        requires
            length <= 7,
        ensures
            r@ == (self@ & 0x1F) | (length << 5u8),
            r.address_length() == length,
            r@ & 0x1F == self@ & 0x1F,
    {
        let b = self.bits;
        proof {
            assert(((b & 0x1F) | (length << 5u8)) >> 5u8 == length && ((b & 0x1F) | (length
                << 5u8)) & 0x1F == b & 0x1F) by (bit_vector)
                requires
                    length <= 7,
            ;
        }
        Feature { bits: (self.bits & 0x1F) | (length << 5u8) }
    }

    /// Is the radio a plus variant?
    #[verifier::when_used_as_spec(spec_is_plus_variant)]
    pub fn is_plus_variant(&self) -> (r: bool)
        ensures
            r == self.spec_is_plus_variant(),
    {
        self.bits & PLUS_VARIANT_BIT != 0
    }

    /// Record whether the radio is a plus variant, keeping the other bits.
    pub fn with_is_plus_variant(self, plus: bool) -> (r: Feature)
        ensures
            r@ == with_mask(self@, PLUS_VARIANT_BIT, plus),
            r.is_plus_variant() == plus,
            r@ & !PLUS_VARIANT_BIT == self@ & !PLUS_VARIANT_BIT,
    {
        proof {
            lemma_set_clear(self.bits, PLUS_VARIANT_BIT);
        }
        if plus {
            Feature { bits: self.bits | PLUS_VARIANT_BIT }
        } else {
            Feature { bits: self.bits & !PLUS_VARIANT_BIT }
        }
    }

    /// Are dynamic payloads enabled?
    #[verifier::when_used_as_spec(spec_dynamic_payloads)]
    pub fn dynamic_payloads(&self) -> (r: bool)
        ensures
            r == self.spec_dynamic_payloads(),
    {
        self.bits & DYNAMIC_PAYLOADS_BIT != 0
    }

    /// Are ACK payloads enabled?
    #[verifier::when_used_as_spec(spec_ack_payloads)]
    pub fn ack_payloads(&self) -> (r: bool)
        ensures
            r == self.spec_ack_payloads(),
    {
        self.bits & ACK_PAYLOADS_BIT != 0
    }

    /// Is the "ask no ACK" feature allowed?
    #[verifier::when_used_as_spec(spec_ask_no_ack)]
    pub fn ask_no_ack(&self) -> (r: bool)
        ensures
            r == self.spec_ask_no_ack(),
    {
        self.bits & 1 != 0
    }

    /// Allow the "ask no ACK" feature (or not), keeping the other bits.
    pub fn with_ask_no_ack(self, enable: bool) -> (r: Feature)
        ensures
            r@ == with_mask(self@, 1, enable),
            r.ask_no_ack() == enable,
            r@ & !1u8 == self@ & !1u8,
    {
        proof {
            lemma_set_clear(self.bits, 1);
        }
        if enable {
            Feature { bits: self.bits | 1 }
        } else {
            Feature { bits: self.bits & !1u8 }
        }
    }

    /// Enable or disable dynamic payloads. Disabling them disables ACK
    /// payloads too (which need them); the other bits are kept.
    pub fn with_dynamic_payloads(self, enable: bool) -> (r: Feature)
        ensures
            r@ == (if enable {
                self@ | DYNAMIC_PAYLOADS_BIT
            } else {
                self@ & !DYNAMIC_PAYLOADS_BIT & !ACK_PAYLOADS_BIT
            }),
            r.dynamic_payloads() == enable,
            !enable ==> !r.ack_payloads(),
            enable ==> r.ack_payloads() == self.ack_payloads(),
            r@ & !6u8 == self@ & !6u8,
    {
        let b = self.bits;
        proof {
            assert(((b & !4u8) | 4) == b | 4) by (bit_vector);
            assert((b | 4) & 4 != 0 && (b | 4) & 2 == b & 2 && (b | 4) & !6u8 == b & !6u8)
                by (bit_vector);
            assert((b & !4u8 & !2u8) & 4 == 0 && (b & !4u8 & !2u8) & 2 == 0 && (b & !4u8 & !2u8)
                & !6u8 == b & !6u8) by (bit_vector);
        }
        let mut new_val = self.bits & !DYNAMIC_PAYLOADS_BIT;
        if !enable {
            new_val = new_val & !ACK_PAYLOADS_BIT;
        } else {
            new_val = new_val | DYNAMIC_PAYLOADS_BIT;
        }
        Feature { bits: new_val }
    }

    /// Enable or disable ACK payloads. Enabling them enables dynamic payloads
    /// too (which they need); the other bits are kept.
    pub fn with_ack_payloads(self, enable: bool) -> (r: Feature)
        ensures
            r@ == (if enable {
                self@ | ACK_PAYLOADS_BIT | DYNAMIC_PAYLOADS_BIT
            } else {
                self@ & !ACK_PAYLOADS_BIT
            }),
            r.ack_payloads() == enable,
            enable ==> r.dynamic_payloads(),
            !enable ==> r.dynamic_payloads() == self.dynamic_payloads(),
            r@ & !6u8 == self@ & !6u8,
    {
        let b = self.bits;
        proof {
            assert(((b & !2u8) | (2u8 | 4u8)) == b | 2 | 4) by (bit_vector);
            assert((b | 2 | 4) & 4 != 0 && (b | 2 | 4) & 2 != 0 && (b | 2 | 4) & !6u8 == b & !6u8)
                by (bit_vector);
            assert((b & !2u8) & 2 == 0 && (b & !2u8) & 4 == b & 4 && (b & !2u8) & !6u8 == b
                & !6u8) by (bit_vector);
        }
        let mut new_value = self.bits & !ACK_PAYLOADS_BIT;
        if enable {
            new_value = new_value | (ACK_PAYLOADS_BIT | DYNAMIC_PAYLOADS_BIT);
        }
        Feature { bits: new_value }
    }
}

} // verus!
