use rf24::config::{EsbPipeConfig, RadioConfig};
use rf24::types::{CrcLength, DataRate, PaLevel};

#[test]
fn crc_length() {
    let mut config = RadioConfig::default();
    for len in [CrcLength::Disabled, CrcLength::Bit16, CrcLength::Bit8] {
        config = config.with_crc_length(len);
        assert_eq!(len, config.crc_length());
    }
}

#[test]
fn config_irq_flags() {
    let mut config = RadioConfig::default();
    assert!(config.rx_dr());
    assert!(config.tx_ds());
    assert!(config.tx_df());
    config = config.with_rx_dr(false).with_tx_ds(false).with_tx_df(false);
    assert!(!config.rx_dr());
    assert!(!config.tx_ds());
    assert!(!config.tx_df());
}

#[test]
fn address_length() {
    let mut config = RadioConfig::default();
    for len in 0..10 {
        config = config.with_address_length(len);
        assert_eq!(config.address_length(), len.clamp(2, 5));
    }
}

#[test]
fn config_pa_level() {
    let mut config = RadioConfig::default();
    for level in [PaLevel::Max, PaLevel::High, PaLevel::Low, PaLevel::Min] {
        config = config.with_pa_level(level);
        assert_eq!(config.pa_level(), level);
    }
    assert!(config.lna_enable());
    config = config.with_lna_enable(false);
    assert!(!config.lna_enable());
}

#[test]
fn data_rate() {
    let mut config = RadioConfig::default();
    for rate in [DataRate::Kbps250, DataRate::Mbps1, DataRate::Mbps2] {
        config = config.with_data_rate(rate);
        assert_eq!(config.data_rate(), rate);
    }
}

#[test]
fn feature_register() {
    let mut config = RadioConfig::default();
    assert_eq!(config.auto_ack(), 0x3F);
    assert!(!config.ack_payloads());
    assert!(!config.dynamic_payloads());
    assert!(!config.ask_no_ack());

    config = config.with_ack_payloads(true);
    assert_eq!(config.auto_ack(), 0xFF);
    assert!(config.ack_payloads());
    assert!(config.dynamic_payloads());
    assert!(!config.ask_no_ack());

    config = config.with_ask_no_ack(true).with_ack_payloads(false);
    assert!(!config.ack_payloads());
    assert!(config.dynamic_payloads());
    assert!(config.ask_no_ack());

    config = config.with_dynamic_payloads(false);
    assert!(!config.dynamic_payloads());
    assert!(!config.ack_payloads());
    assert!(config.ask_no_ack());

    config = config.with_auto_ack(3);
    assert_eq!(config.auto_ack(), 3);
    assert!(!config.dynamic_payloads());
}

#[test]
fn payload_length() {
    let config = RadioConfig::default().with_payload_length(255);
    assert_eq!(config.payload_length(), 255);
}

#[test]
fn channel() {
    let config = RadioConfig::default().with_channel(255);
    assert_eq!(config.channel(), 125);
}

#[test]
fn auto_retries() {
    let mut config = RadioConfig::default();
    assert_eq!(config.auto_retry_count(), 15);
    assert_eq!(config.auto_retry_delay(), 5);
    config = config.with_auto_retries(20, 3);
    assert_eq!(config.auto_retry_count(), 3);
    assert_eq!(config.auto_retry_delay(), 15);
}

#[test]
fn pipe_addresses() {
    let mut config = RadioConfig::default();
    let mut address = [0xB0; 5];
    config = config.with_tx_address(&address);
    let mut result = [0; 3];
    config.tx_address(&mut result);
    assert!(address.starts_with(&result));
    config = config.close_rx_pipe(1).close_rx_pipe(10);
    config = config.with_rx_address(0, &[]);
    assert!(!config.is_rx_pipe_enabled(1));
    for pipe in 0..=8 {
        address.copy_from_slice(&[0xB0 + pipe; 5]);
        config = config.with_rx_address(pipe, &address);
        config.rx_address(pipe, &mut result);
        if pipe < 2 {
            assert!(address.starts_with(&result));
        } else if pipe < 8 {
            assert_eq!(address[0], result[0]);
            assert!(result[1..].starts_with(&[0xB1, 0xB1]));
        } else {
            assert_ne!(address[0], result[0]);
            assert!(result[1..].starts_with(&[0xB1, 0xB1]));
        }

        if pipe < 8 {
            assert!(config.is_rx_pipe_enabled(pipe));
        }
    }
}

#[test]
fn default_pipes() {
    let pipes = EsbPipeConfig::default();
    assert_eq!(pipes.tx_address(), [0xE7; 5]);
    assert_eq!(pipes.pipe0(), [0xE7; 5]);
    assert_eq!(pipes.pipe1(), [0xC2; 5]);
    assert_eq!(pipes.prefix(2), 0xC3);
    assert_eq!(pipes.prefix(7), 0xC8);
    assert_eq!(pipes.rx_pipes_enabled(), 2);
}

#[test]
fn pipe_config_edits() {
    let mut pipes = EsbPipeConfig::default();
    // A short address only replaces the first bytes.
    pipes.set_tx_address(&[1, 2]);
    assert_eq!(pipes.tx_address(), [1, 2, 0xE7, 0xE7, 0xE7]);
    // An empty address changes nothing.
    pipes.set_rx_address(3, &[]);
    assert_eq!(pipes.rx_pipes_enabled(), 2);
    pipes.set_rx_address(3, &[0x33, 0x44]);
    assert_eq!(pipes.prefix(3), 0x33);
    assert_eq!(pipes.rx_pipes_enabled(), 2 | 8);
    pipes.close_rx_pipe(1);
    assert_eq!(pipes.rx_pipes_enabled(), 8);
    // A long address is cut to 5 bytes.
    pipes.set_rx_address(0, &[9, 8, 7, 6, 5, 4]);
    assert_eq!(pipes.pipe0(), [9, 8, 7, 6, 5]);
    let mut out = [0u8; 5];
    pipes.get_rx_address(0, &mut out);
    assert_eq!(out, [9, 8, 7, 6, 5]);
    // Pipes 2 to 7 read their first byte, then the low bytes of pipe 1.
    let mut out = [0u8; 5];
    pipes.get_rx_address(3, &mut out);
    assert_eq!(out, [0x33, 0xC2, 0xC2, 0xC2, 0xC2]);
    let mut out = [0u8; 5];
    EsbPipeConfig::default().get_rx_address(2, &mut out);
    assert_eq!(out, [0xC3, 0xC2, 0xC2, 0xC2, 0xC2]);
    // An empty buffer takes nothing.
    let mut empty: [u8; 0] = [];
    pipes.get_rx_address(3, &mut empty);
    // No pipe past 7 is open.
    assert!(!RadioConfig::default().is_rx_pipe_enabled(8));
}

#[test]
fn config_register_bytes() {
    let config = RadioConfig::default();
    assert_eq!(config.config_reg().into_bits(), 0x0C);
    assert_eq!(config.auto_retries().into_bits(), 0x5F);
    assert_eq!(config.setup_rf_aw().into_bits(), 0xC7);
    assert_eq!(config.feature().into_bits(), 0);
    assert_eq!(config.channel(), 76);
    assert_eq!(config.payload_length(), 32);
    assert_eq!(config.crc_length(), CrcLength::Bit16);
    assert_eq!(config.data_rate(), DataRate::Mbps1);
    assert_eq!(config.pa_level(), PaLevel::Max);
    assert_eq!(config.address_length(), 5);
}
