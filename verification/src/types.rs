//! Types shared by the radio's configuration and its operations.
use vstd::prelude::*;

use crate::bits::lemma_set_clear;

verus! {

/// Power Amplifier level.
///
/// | level | nRF24L01 | Si24R1 with LNA enabled | Si24R1 with LNA disabled |
/// |:-----:|:--------:|:-----------------------:|:------------------------:|
/// | `Min` | -18 dBm | -6 dBm | -12 dBm |
/// | `Low` | -12 dBm | 0 dBm | -4 dBm |
/// | `High` | -6 dBm | 3 dBm | 1 dBm |
/// | `Max` | 0 dBm | 7 dBm | 4 dBm |
#[derive(Clone, Copy, Debug, PartialEq, Eq, Structural)]
pub enum PaLevel {
    Min,
    Low,
    High,
    Max,
}

/// The bits of the RF_SETUP register that hold the PA level.
pub const PA_LEVEL_MASK: u8 = 6;

/// The register bits that encode a PA level.
pub open spec fn pa_level_bits(level: PaLevel) -> u8 {
    match level {
        PaLevel::Min => 0,
        PaLevel::Low => 2,
        PaLevel::High => 4,
        PaLevel::Max => 6,
    }
}

/// The PA level that the (masked) register bits `value` encode.
pub open spec fn pa_level_of(value: u8) -> PaLevel {
    if value == 0 {
        PaLevel::Min
    } else if value == 2 {
        PaLevel::Low
    } else if value == 4 {
        PaLevel::High
    } else {
        PaLevel::Max
    }
}

impl PaLevel {
    /// The register bits that encode this level.
    pub fn into_bits(self) -> (r: u8)
        ensures
            r == pa_level_bits(self),
    {
        match self {
            PaLevel::Min => 0,
            PaLevel::Low => 2,
            PaLevel::High => 4,
            PaLevel::Max => 6,
        }
    }

    /// Decode the (masked) register bits `value`; any value not produced by
    /// [`PaLevel::into_bits`] decodes as `Max`.
    pub fn from_bits(value: u8) -> (r: PaLevel)
        ensures
            r == pa_level_of(value),
    {
        if value == 0 {
            PaLevel::Min
        } else if value == 2 {
            PaLevel::Low
        } else if value == 4 {
            PaLevel::High
        } else {
            PaLevel::Max
        }
    }

    /// The human readable name of this level.
    pub fn label(&self) -> (s: String)
        ensures
            s@ == (match *self {
                PaLevel::Min => "Min"@,
                PaLevel::Low => "Low"@,
                PaLevel::High => "High"@,
                PaLevel::Max => "Max"@,
            }),
    {
        match self {
            PaLevel::Min => String::from_str("Min"),
            PaLevel::Low => String::from_str("Low"),
            PaLevel::High => String::from_str("High"),
            PaLevel::Max => String::from_str("Max"),
        }
    }
}

/// Decoding the encoding of a PA level gives the level back.
pub proof fn lemma_pa_level_round_trip(level: PaLevel)
    ensures
        pa_level_of(pa_level_bits(level)) == level,
        pa_level_bits(level) & PA_LEVEL_MASK == pa_level_bits(level),
{
    assert(0u8 & 6u8 == 0u8 && 2u8 & 6u8 == 2u8 && 4u8 & 6u8 == 4u8 && 6u8 & 6u8 == 6u8)
        by (bit_vector);
}

/// How fast data moves through the air.
#[derive(Clone, Copy, Debug, PartialEq, Eq, Structural)]
pub enum DataRate {
    /// 1 Mbps
    Mbps1,
    /// 2 Mbps
    Mbps2,
    /// 250 Kbps
    Kbps250,
}

/// The bits of the RF_SETUP register that hold the data rate.
pub const DATA_RATE_MASK: u8 = 0x28;

/// The register bits that encode a data rate.
pub open spec fn data_rate_bits(rate: DataRate) -> u8 {
    match rate {
        DataRate::Mbps1 => 0,
        DataRate::Mbps2 => 0x8,
        DataRate::Kbps250 => 0x20,
    }
}

/// The data rate that the (masked) register bits `value` encode.
pub open spec fn data_rate_of(value: u8) -> DataRate {
    if value == 0x8 {
        DataRate::Mbps2
    } else if value == 0x20 {
        DataRate::Kbps250
    } else {
        DataRate::Mbps1
    }
}

impl DataRate {
    /// The register bits that encode this data rate.
    pub fn into_bits(self) -> (r: u8)
        ensures
            r == data_rate_bits(self),
    {
        match self {
            DataRate::Mbps1 => 0,
            DataRate::Mbps2 => 0x8,
            DataRate::Kbps250 => 0x20,
        }
    }

    /// Decode the (masked) register bits `value`; any value not produced by
    /// [`DataRate::into_bits`] decodes as `Mbps1`.
    pub fn from_bits(value: u8) -> (r: DataRate)
        ensures
            r == data_rate_of(value),
    {
        if value == 0x8 {
            DataRate::Mbps2
        } else if value == 0x20 {
            DataRate::Kbps250
        } else {
            DataRate::Mbps1
        }
    }

    /// The human readable name of this data rate.
    pub fn label(&self) -> (s: String)
        ensures
            s@ == (match *self {
                DataRate::Mbps1 => "1 Mbps"@,
                DataRate::Mbps2 => "2 Mbps"@,
                DataRate::Kbps250 => "250 Kbps"@,
            }),
    {
        match self {
            DataRate::Mbps1 => String::from_str("1 Mbps"),
            DataRate::Mbps2 => String::from_str("2 Mbps"),
            DataRate::Kbps250 => String::from_str("250 Kbps"),
        }
    }
}

/// Decoding the encoding of a data rate gives the rate back.
pub proof fn lemma_data_rate_round_trip(rate: DataRate)
    ensures
        data_rate_of(data_rate_bits(rate)) == rate,
        data_rate_bits(rate) & DATA_RATE_MASK == data_rate_bits(rate),
{
    assert(0u8 & 0x28u8 == 0u8 && 8u8 & 0x28u8 == 8u8 && 0x20u8 & 0x28u8 == 0x20u8)
        by (bit_vector);
}

/// The length of the CRC checksum that is used (if any).
#[derive(Clone, Copy, Debug, PartialEq, Eq, Structural)]
pub enum CrcLength {
    /// no CRC checksum is used
    Disabled,
    /// an 8 bit CRC checksum is used
    Bit8,
    /// a 16 bit CRC checksum is used
    Bit16,
}

/// The register bits (of the CONFIG register) that encode a CRC length.
pub open spec fn crc_length_bits(length: CrcLength) -> u8 {
    match length {
        CrcLength::Disabled => 0,
        CrcLength::Bit8 => 8,
        CrcLength::Bit16 => 12,
    }
}

/// The CRC length that the (masked) register bits `value` encode.
pub open spec fn crc_length_of(value: u8) -> CrcLength {
    if value == 0 {
        CrcLength::Disabled
    } else if value == 8 {
        CrcLength::Bit8
    } else {
        CrcLength::Bit16
    }
}

/// Decoding the encoding of a CRC length gives the length back.
pub proof fn lemma_crc_length_round_trip(length: CrcLength)
    ensures
        crc_length_of(crc_length_bits(length)) == length,
{
}

impl CrcLength {
    /// The register bits that encode this CRC length.
    pub fn into_bits(self) -> (r: u8)
        ensures
            r == crc_length_bits(self),
    {
        match self {
            CrcLength::Disabled => 0,
            CrcLength::Bit8 => 8,
            CrcLength::Bit16 => 12,
        }
    }

    /// Decode the (masked) register bits `value`; any value not produced by
    /// [`CrcLength::into_bits`] decodes as `Bit16`.
    pub fn from_bits(value: u8) -> (r: CrcLength)
        ensures
            r == crc_length_of(value),
    {
        if value == 0 {
            CrcLength::Disabled
        } else if value == 8 {
            CrcLength::Bit8
        } else {
            CrcLength::Bit16
        }
    }

    /// The human readable name of this CRC length.
    pub fn label(&self) -> (s: String)
        ensures
            s@ == (match *self {
                CrcLength::Disabled => "disabled"@,
                CrcLength::Bit8 => "8 bit"@,
                CrcLength::Bit16 => "16 bit"@,
            }),
    {
        match self {
            CrcLength::Disabled => String::from_str("disabled"),
            CrcLength::Bit8 => String::from_str("8 bit"),
            CrcLength::Bit16 => String::from_str("16 bit"),
        }
    }
}

/// The possible states of a FIFO.
#[derive(Clone, Copy, Debug, PartialEq, Eq, Structural)]
pub enum FifoState {
    /// The FIFO is full.
    Full,
    /// The FIFO is empty.
    Empty,
    /// The FIFO is neither full nor empty.
    Occupied,
}

impl FifoState {
    /// The human readable name of this state.
    pub fn label(&self) -> (s: String)
        ensures
            s@ == (match *self {
                FifoState::Full => "Full"@,
                FifoState::Empty => "Empty"@,
                FifoState::Occupied => "Occupied"@,
            }),
    {
        match self {
            FifoState::Full => String::from_str("Full"),
            FifoState::Empty => String::from_str("Empty"),
            FifoState::Occupied => String::from_str("Occupied"),
        }
    }
}

/// The interrupt events of the radio, as reported by its STATUS register.
///
/// Bit 6 is "RX Data Ready", bit 5 is "TX Data Sent", bit 4 is "TX Data
/// Failed", bits 3 to 1 hold the pipe number of the next payload in the RX
/// FIFO, and bit 0 tells whether the TX FIFO is full.
///
/// [`StatusFlags::default`] has all flags false, [`StatusFlags::new`] has the
/// three event flags true.
#[derive(Clone, Copy, Debug, PartialEq, Eq, Structural)]
pub struct StatusFlags {
    bits: u8,
}

/// A mask to isolate the IRQ flags. Used for the STATUS and CONFIG registers.
pub const IRQ_MASK: u8 = 0x70;

/// The bit of the "RX Data Ready" flag.
pub const RX_DR_BIT: u8 = 0x40;

/// The bit of the "TX Data Sent" flag.
pub const TX_DS_BIT: u8 = 0x20;

/// The bit of the "TX Data Failed" flag.
pub const TX_DF_BIT: u8 = 0x10;

/// Set (`flag == true`) or clear the bits of `mask` in `bits`.
pub open spec fn with_mask(bits: u8, mask: u8, flag: bool) -> u8 {
    if flag {
        bits | mask
    } else {
        bits & !mask
    }
}

impl View for StatusFlags {
    type V = u8;

    closed spec fn view(&self) -> u8 {
        self.bits
    }
}

impl StatusFlags {
    /// All event flags set (the value `0x70`).
    pub fn new() -> (r: StatusFlags)
        ensures
            r@ == IRQ_MASK,
    {
        StatusFlags { bits: IRQ_MASK }
    }

    /// All flags clear (the value `0`).
    pub fn default() -> (r: StatusFlags)
        ensures
            r@ == 0,
    {
        StatusFlags { bits: 0 }
    }

    /// The flags held by the raw STATUS register value `bits`.
    pub fn from_bits(bits: u8) -> (r: StatusFlags)
        ensures
            r@ == bits,
    {
        StatusFlags { bits }
    }

    /// The raw register value of these flags.
    pub fn into_bits(&self) -> (r: u8)
        ensures
            r == self@,
    {
        self.bits
    }

    pub open spec fn spec_rx_dr(&self) -> bool {
        self@ & RX_DR_BIT != 0
    }

    pub open spec fn spec_tx_ds(&self) -> bool {
        self@ & TX_DS_BIT != 0
    }

    pub open spec fn spec_tx_df(&self) -> bool {
        self@ & TX_DF_BIT != 0
    }

    pub open spec fn spec_rx_pipe(&self) -> u8 {
        (self@ >> 1u8) & 7
    }

    pub open spec fn spec_tx_full(&self) -> bool {
        self@ & 1 != 0
    }

    /// Is RX data ready to read?
    #[verifier::when_used_as_spec(spec_rx_dr)]
    pub fn rx_dr(&self) -> (r: bool)
        ensures
            r == self.spec_rx_dr(),
    {
        self.bits & RX_DR_BIT != 0
    }

    /// Was TX data sent?
    #[verifier::when_used_as_spec(spec_tx_ds)]
    pub fn tx_ds(&self) -> (r: bool)
        ensures
            r == self.spec_tx_ds(),
    {
        self.bits & TX_DS_BIT != 0
    }

    /// Did a TX transmission fail?
    #[verifier::when_used_as_spec(spec_tx_df)]
    pub fn tx_df(&self) -> (r: bool)
        ensures
            r == self.spec_tx_df(),
    {
        self.bits & TX_DF_BIT != 0
    }

    /// The pipe number of the next payload in the RX FIFO (7 if it is empty).
    #[verifier::when_used_as_spec(spec_rx_pipe)]
    pub fn rx_pipe(&self) -> (r: u8)
        ensures
            r == self.spec_rx_pipe(),
            r < 8,
    {
        let b = self.bits;
        assert((b >> 1u8) & 7 < 8) by (bit_vector);
        (self.bits >> 1u8) & 7
    }

    /// Is the TX FIFO full?
    #[verifier::when_used_as_spec(spec_tx_full)]
    pub fn tx_full(&self) -> (r: bool)
        ensures
            r == self.spec_tx_full(),
    {
        self.bits & 1 != 0
    }

    /// Set or clear the "RX Data Ready" flag, keeping the other bits.
    pub fn with_rx_dr(self, flag: bool) -> (r: StatusFlags)
        ensures
            r@ == with_mask(self@, RX_DR_BIT, flag),
            r.rx_dr() == flag,
            r@ & !RX_DR_BIT == self@ & !RX_DR_BIT,
    {
        proof {
            lemma_set_clear(self.bits, 0x40);
        }
        if flag {
            StatusFlags { bits: self.bits | RX_DR_BIT }
        } else {
            StatusFlags { bits: self.bits & !RX_DR_BIT }
        }
    }

    /// Set or clear the "TX Data Sent" flag, keeping the other bits.
    pub fn with_tx_ds(self, flag: bool) -> (r: StatusFlags)
        ensures
            r@ == with_mask(self@, TX_DS_BIT, flag),
            r.tx_ds() == flag,
            r@ & !TX_DS_BIT == self@ & !TX_DS_BIT,
    {
        proof {
            lemma_set_clear(self.bits, 0x20);
        }
        if flag {
            StatusFlags { bits: self.bits | TX_DS_BIT }
        } else {
            StatusFlags { bits: self.bits & !TX_DS_BIT }
        }
    }

    /// Set or clear the "TX Data Failed" flag, keeping the other bits.
    pub fn with_tx_df(self, flag: bool) -> (r: StatusFlags)
        ensures
            r@ == with_mask(self@, TX_DF_BIT, flag),
            r.tx_df() == flag,
            r@ & !TX_DF_BIT == self@ & !TX_DF_BIT,
    {
        proof {
            lemma_set_clear(self.bits, 0x10);
        }
        if flag {
            StatusFlags { bits: self.bits | TX_DF_BIT }
        } else {
            StatusFlags { bits: self.bits & !TX_DF_BIT }
        }
    }

    /// The text `StatusFlags rx_dr: <bool>, tx_ds: <bool>, tx_df: <bool>`.
    pub fn label(&self) -> (s: String)
        ensures
            s@ == "StatusFlags rx_dr: "@ + bool_text(self.rx_dr()) + ", tx_ds: "@
                + bool_text(self.tx_ds()) + ", tx_df: "@ + bool_text(self.tx_df()),
    {
        let mut s = String::from_str("StatusFlags rx_dr: ");
        s.append(bool_str(self.rx_dr()));
        s.append(", tx_ds: ");
        s.append(bool_str(self.tx_ds()));
        s.append(", tx_df: ");
        s.append(bool_str(self.tx_df()));
        s
    }
}

/// The text of a boolean.
pub open spec fn bool_text(b: bool) -> Seq<char> {
    if b {
        "true"@
    } else {
        "false"@
    }
}

fn bool_str(b: bool) -> (s: &'static str)
    ensures
        s@ == bool_text(b),
{
    if b {
        "true"
    } else {
        "false"
    }
}

/// The errors of the radio's operations.
///
/// `Spi` and `Gpo` carry the errors of the SPI bus and of the CE pin; the
/// driver itself only reports the other two.
#[derive(Clone, Copy, Debug, PartialEq, Eq, Structural)]
pub enum Nrf24Error<SPI, DO> {
    /// A SPI transaction failed.
    Spi(SPI),
    /// Driving the CE pin failed.
    Gpo(DO),
    /// The radio answered with a value that no working radio gives.
    BinaryCorruption,
    /// A payload was to be transmitted while the radio is in RX mode.
    NotAsTxError,
}

} // verus!
