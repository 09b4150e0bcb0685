use rf24::types::{CrcLength, DataRate, FifoState, PaLevel, StatusFlags};

fn display_crc(param: CrcLength, expected: String) -> bool {
    param.label() == expected
}

#[test]
fn crc_8bit() {
    assert!(display_crc(CrcLength::Bit8, String::from("8 bit")));
}

#[test]
fn crc_16bit() {
    assert!(display_crc(CrcLength::Bit16, String::from("16 bit")));
}

#[test]
fn crc_disable() {
    assert!(display_crc(CrcLength::Disabled, String::from("disabled")));
}

fn display_fifo_state(param: FifoState, expected: String) -> bool {
    param.label() == expected
}

#[test]
fn fifo_state_empty() {
    assert!(display_fifo_state(FifoState::Empty, String::from("Empty")));
}

#[test]
fn fifo_state_full() {
    assert!(display_fifo_state(FifoState::Full, String::from("Full")));
}

#[test]
fn fifo_state_occupied() {
    assert!(display_fifo_state(
        FifoState::Occupied,
        String::from("Occupied")
    ));
}

fn display_data_rate(param: DataRate, expected: String) -> bool {
    param.label() == expected
}

#[test]
fn data_rate_1mbps() {
    assert!(display_data_rate(DataRate::Mbps1, String::from("1 Mbps")));
}

#[test]
fn data_rate_2mbps() {
    assert!(display_data_rate(DataRate::Mbps2, String::from("2 Mbps")));
}

#[test]
fn data_rate_250kbps() {
    assert!(display_data_rate(
        DataRate::Kbps250,
        String::from("250 Kbps")
    ));
}

fn display_pa_level(param: PaLevel, expected: String) -> bool {
    param.label() == expected
}

#[test]
fn pa_level_min() {
    assert!(display_pa_level(PaLevel::Min, String::from("Min")));
}

#[test]
fn pa_level_low() {
    assert!(display_pa_level(PaLevel::Low, String::from("Low")));
}

#[test]
fn pa_level_high() {
    assert!(display_pa_level(PaLevel::High, String::from("High")));
}

#[test]
fn pa_level_max() {
    assert!(display_pa_level(PaLevel::Max, String::from("Max")));
}

#[test]
fn display_flags() {
    assert_eq!(
        StatusFlags::default().label(),
        String::from("StatusFlags rx_dr: false, tx_ds: false, tx_df: false")
    );
}

fn set_flags(rx_dr: bool, tx_ds: bool, tx_df: bool) {
    let flags = StatusFlags::default()
        .with_rx_dr(rx_dr)
        .with_tx_ds(tx_ds)
        .with_tx_df(tx_df);
    assert_eq!(flags.rx_dr(), rx_dr);
    assert_eq!(flags.tx_ds(), tx_ds);
    assert_eq!(flags.tx_df(), tx_df);
}

#[test]
fn flags_0x50() {
    set_flags(true, false, true);
}

#[test]
fn flags_0x20() {
    set_flags(false, true, false);
}

#[test]
fn new_flags_are_all_set() {
    let flags = StatusFlags::new();
    assert_eq!(flags.into_bits(), 0x70);
    assert_eq!(
        flags.label(),
        String::from("StatusFlags rx_dr: true, tx_ds: true, tx_df: true")
    );
}

#[test]
fn status_flags_fields() {
    // 0x4E: RX data ready, pipe 7 (RX FIFO empty), TX FIFO not full.
    let flags = StatusFlags::from_bits(0x4E);
    assert!(flags.rx_dr());
    assert!(!flags.tx_ds());
    assert!(!flags.tx_df());
    assert_eq!(flags.rx_pipe(), 7);
    assert!(!flags.tx_full());
    assert!(StatusFlags::from_bits(1).tx_full());
}

#[test]
fn register_encodings_round_trip() {
    for level in [PaLevel::Min, PaLevel::Low, PaLevel::High, PaLevel::Max] {
        assert_eq!(PaLevel::from_bits(level.into_bits()), level);
    }
    for rate in [DataRate::Mbps1, DataRate::Mbps2, DataRate::Kbps250] {
        assert_eq!(DataRate::from_bits(rate.into_bits()), rate);
    }
    for len in [CrcLength::Disabled, CrcLength::Bit8, CrcLength::Bit16] {
        assert_eq!(CrcLength::from_bits(len.into_bits()), len);
    }
    assert_eq!(PaLevel::Max.into_bits(), 6);
    assert_eq!(DataRate::Kbps250.into_bits(), 0x20);
    assert_eq!(CrcLength::Bit16.into_bits(), 12);
}
