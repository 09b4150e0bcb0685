use rf24::commands::{
    ACTIVATE, FLUSH_RX, FLUSH_TX, NOP, REUSE_TX_PL, R_RX_PAYLOAD, R_RX_PL_WID, W_ACK_PAYLOAD,
    W_REGISTER, W_TX_PAYLOAD, W_TX_PAYLOAD_NO_ACK,
};
use rf24::config::RadioConfig;
use rf24::mnemonics::{MASK_MAX_RT, MASK_RX_DR, MASK_TX_DS};
use rf24::registers::{
    CONFIG, DYNPD, EN_AA, EN_RXADDR, FEATURE, FIFO_STATUS, OBSERVE_TX, RF_CH, RF_SETUP, RPD,
    RX_ADDR_P0, RX_PW_P0, SETUP_AW, SETUP_RETR, STATUS, TX_ADDR,
};
use rf24::prelude::{
    EsbAutoAck, EsbChannel, EsbCrcLength, EsbDataRate, EsbFifo, EsbInit, EsbPaLevel,
    EsbPayloadLength, EsbPipe, EsbPower, EsbRadio, EsbStatus,
};
use rf24::rf24::Rf24;
use rf24::transcript::{Action, Exchange, Stop, Transcript};
use rf24::types::{CrcLength, DataRate, FifoState, Nrf24Error, PaLevel, StatusFlags};

const EN_ACK_PAY: u8 = 1 << 1;
const EN_DPL: u8 = 1 << 2;

fn spi(expected: Vec<u8>, reply: Vec<u8>) -> Exchange {
    Exchange { action: Action::Transfer(expected), reply }
}

fn ce(high: bool) -> Exchange {
    Exchange { action: Action::SetCe(high), reply: vec![] }
}

fn us(delay: u32) -> Exchange {
    Exchange { action: Action::DelayUs(delay), reply: vec![] }
}

fn ns(delay: u32) -> Exchange {
    Exchange { action: Action::DelayNs(delay), reply: vec![] }
}

/// A transcript over `history`, with its length.
fn script(history: Vec<Exchange>) -> (Transcript, usize) {
    let n = history.len();
    (Transcript::new(history), n)
}

/// Every recorded exchange was used.
fn done(t: &Transcript, n: usize) {
    assert_eq!(t.cursor(), n);
    assert!(t.pending().is_none());
}

/// Bring `radio` to RX mode as far as the cached CONFIG goes, through a
/// CONFIG read (with `leftover` the byte left in the buffer).
fn simulate_rx(radio: &mut Rf24, leftover: u8) {
    let (mut t, n) = script(vec![spi(vec![CONFIG, leftover], vec![0xE, 0xD])]);
    assert_eq!(radio.get_crc_length(&mut t), Ok(CrcLength::Bit16));
    done(&t, n);
    assert!(radio.is_rx());
}

#[test]
fn allow_ack_payloads() {
    let mut ack_buf = [0x55; 3];
    let valid_pipe = 2;
    ack_buf[0] = W_ACK_PAYLOAD | valid_pipe;
    let (mut t, n) = script(vec![
        spi(vec![FEATURE, 0], vec![0xE, 0]),
        spi(vec![FEATURE | W_REGISTER, EN_ACK_PAY | EN_DPL], vec![0xE, 0]),
        spi(vec![DYNPD | W_REGISTER, 0x3F], vec![0xE, 0]),
        spi(ack_buf.to_vec(), vec![0u8; 3]),
        spi(ack_buf.to_vec(), vec![1u8; 3]),
        spi(vec![EN_AA, 1], vec![0, 0x3F]),
        spi(vec![FEATURE, 0x3F], vec![0, EN_ACK_PAY | EN_DPL | 1]),
        spi(vec![FEATURE | W_REGISTER, EN_DPL | 1], vec![0xE, 0]),
        spi(vec![EN_AA | W_REGISTER, 0x3E], vec![0xE, 0]),
        spi(vec![EN_AA, 0], vec![0, 0x3E]),
        spi(vec![EN_AA | W_REGISTER, 0x3C], vec![0xE, 0]),
    ]);
    let mut radio = Rf24::new();
    radio.set_ack_payloads(&mut t, true).unwrap();
    radio.set_ack_payloads(&mut t, true).unwrap();
    let buf = &ack_buf[1..3];
    assert!(!radio.write_ack_payload(&mut t, 9, buf).unwrap());
    assert!(radio.write_ack_payload(&mut t, valid_pipe, buf).unwrap());
    assert!(!radio.write_ack_payload(&mut t, valid_pipe, buf).unwrap());
    radio.set_auto_ack_pipe(&mut t, false, 9).unwrap();
    radio.set_auto_ack_pipe(&mut t, false, 0).unwrap();
    radio.set_auto_ack_pipe(&mut t, false, 1).unwrap();
    done(&t, n);
}

#[test]
fn set_auto_ack() {
    let (mut t, n) = script(vec![
        spi(vec![FEATURE, 0], vec![0xE, 0]),
        spi(vec![FEATURE | W_REGISTER, EN_ACK_PAY | EN_DPL], vec![0xE, 0]),
        spi(vec![DYNPD | W_REGISTER, 0x3F], vec![0xE, 0]),
        spi(vec![EN_AA | W_REGISTER, 0], vec![0xE, 0]),
        spi(vec![FEATURE, 0], vec![0, EN_ACK_PAY | EN_DPL]),
        spi(vec![FEATURE | W_REGISTER, EN_DPL], vec![0xE, 0]),
        spi(vec![R_RX_PL_WID, 0], vec![0xE, 32]),
    ]);
    let mut radio = Rf24::new();
    radio.set_ack_payloads(&mut t, true).unwrap();
    assert!(radio.get_ack_payloads());
    radio.set_auto_ack(&mut t, false).unwrap();
    assert_eq!(radio.get_dynamic_payload_length(&mut t).unwrap(), 32u8);
    done(&t, n);
}

#[test]
fn allow_ask_no_ack() {
    let (mut t, n) = script(vec![
        spi(vec![FEATURE, 0], vec![0, EN_ACK_PAY]),
        spi(vec![FEATURE | W_REGISTER, EN_ACK_PAY | 1], vec![0xE, 0]),
    ]);
    let mut radio = Rf24::new();
    radio.allow_ask_no_ack(&mut t, true).unwrap();
    done(&t, n);
}

#[test]
fn get_channel() {
    let (mut t, n) = script(vec![spi(vec![RF_CH, 0], vec![0xE, 76])]);
    let mut radio = Rf24::new();
    assert_eq!(radio.get_channel(&mut t).unwrap(), 76u8);
    done(&t, n);
}

#[test]
fn get_crc_length() {
    let (mut t, n) = script(vec![
        spi(vec![CONFIG, 0], vec![0xE, 0]),
        spi(vec![CONFIG, 0], vec![0xE, 0x8]),
        spi(vec![CONFIG, 0x8], vec![0xE, 0xC]),
        spi(vec![CONFIG, 0xC], vec![0xE, 4]),
    ]);
    let mut radio = Rf24::new();
    assert_eq!(radio.get_crc_length(&mut t), Ok(CrcLength::Disabled));
    assert_eq!(radio.get_crc_length(&mut t), Ok(CrcLength::Bit8));
    assert_eq!(radio.get_crc_length(&mut t), Ok(CrcLength::Bit16));
    assert_eq!(
        radio.get_crc_length(&mut t),
        Err(Stop::Fail(Nrf24Error::BinaryCorruption))
    );
    done(&t, n);
}

#[test]
fn set_crc_length() {
    let (mut t, n) = script(vec![
        spi(vec![CONFIG, 0], vec![0xE, 4]),
        spi(vec![CONFIG | W_REGISTER, 0], vec![0xE, 0]),
        spi(vec![CONFIG, 0], vec![0xE, 4]),
        spi(vec![CONFIG | W_REGISTER, 0x8], vec![0xE, 0]),
        spi(vec![CONFIG, 0], vec![0xE, 4]),
        spi(vec![CONFIG | W_REGISTER, 0xC], vec![0xE, 0]),
    ]);
    let mut radio = Rf24::new();
    radio.set_crc_length(&mut t, CrcLength::Disabled).unwrap();
    radio.set_crc_length(&mut t, CrcLength::Bit8).unwrap();
    radio.set_crc_length(&mut t, CrcLength::Bit16).unwrap();
    done(&t, n);
}

#[test]
fn get_data_rate() {
    let (mut t, n) = script(vec![
        spi(vec![RF_SETUP, 0], vec![0xE, 0]),
        spi(vec![RF_SETUP, 0], vec![0xE, 8]),
        spi(vec![RF_SETUP, 8], vec![0xE, 0x20]),
        spi(vec![RF_SETUP, 0x20], vec![0xE, 0x28]),
    ]);
    let mut radio = Rf24::new();
    assert_eq!(radio.get_data_rate(&mut t), Ok(DataRate::Mbps1));
    assert_eq!(radio.get_data_rate(&mut t), Ok(DataRate::Mbps2));
    assert_eq!(radio.get_data_rate(&mut t), Ok(DataRate::Kbps250));
    assert_eq!(
        radio.get_data_rate(&mut t),
        Err(Stop::Fail(Nrf24Error::BinaryCorruption))
    );
    done(&t, n);
}

#[test]
fn set_data_rate() {
    let (mut t, n) = script(vec![
        spi(vec![RF_SETUP, 0], vec![0xE, 0x28]),
        spi(vec![RF_SETUP | W_REGISTER, 0], vec![0xE, 0]),
        spi(vec![RF_SETUP, 0], vec![0xE, 0x28]),
        spi(vec![RF_SETUP | W_REGISTER, 0x8], vec![0xE, 0]),
        spi(vec![RF_SETUP, 0], vec![0xE, 0x28]),
        spi(vec![RF_SETUP | W_REGISTER, 0x20], vec![0xE, 0]),
    ]);
    let mut radio = Rf24::new();
    radio.set_data_rate(&mut t, DataRate::Mbps1).unwrap();
    assert_eq!(radio.tx_delay, 280);
    radio.set_data_rate(&mut t, DataRate::Mbps2).unwrap();
    assert_eq!(radio.tx_delay, 240);
    radio.set_data_rate(&mut t, DataRate::Kbps250).unwrap();
    assert_eq!(radio.tx_delay, 505);
    done(&t, n);
}

#[test]
fn available() {
    let (mut t, n) = script(vec![
        spi(vec![FIFO_STATUS, 0], vec![0xE, 2]),
        spi(vec![FIFO_STATUS, 2], vec![0xE, 1]),
    ]);
    let mut radio = Rf24::new();
    assert!(radio.available(&mut t).unwrap());
    assert!(!radio.available(&mut t).unwrap());
    done(&t, n);
}

#[test]
fn available_pipe() {
    let (mut t, n) = script(vec![
        spi(vec![FIFO_STATUS, 0], vec![0xE, 1]),
        spi(vec![FIFO_STATUS, 1], vec![0xE, 2]),
        spi(vec![NOP], vec![0xE]),
    ]);
    let mut radio = Rf24::new();
    let mut pipe = 9;
    assert!(!radio.available_pipe(&mut t, &mut pipe).unwrap());
    assert_eq!(pipe, 9);
    assert!(radio.available_pipe(&mut t, &mut pipe).unwrap());
    assert_eq!(pipe, 7);
    done(&t, n);
}

#[test]
fn get_fifo_state() {
    let (mut t, n) = script(vec![
        spi(vec![FIFO_STATUS, 0], vec![0xE, 0x10]),
        spi(vec![FIFO_STATUS, 0x10], vec![0xE, 0x20]),
        spi(vec![FIFO_STATUS, 0x20], vec![0xE, 0]),
        spi(vec![FIFO_STATUS, 0], vec![0xE, 1]),
        spi(vec![FIFO_STATUS, 1], vec![0xE, 2]),
        spi(vec![FIFO_STATUS, 2], vec![0xE, 0]),
        spi(vec![FIFO_STATUS, 0], vec![0xE, 3]),
    ]);
    let mut radio = Rf24::new();
    assert_eq!(radio.get_fifo_state(&mut t, true), Ok(FifoState::Empty));
    assert_eq!(radio.get_fifo_state(&mut t, true), Ok(FifoState::Full));
    assert_eq!(radio.get_fifo_state(&mut t, true), Ok(FifoState::Occupied));
    assert_eq!(radio.get_fifo_state(&mut t, false), Ok(FifoState::Empty));
    assert_eq!(radio.get_fifo_state(&mut t, false), Ok(FifoState::Full));
    assert_eq!(radio.get_fifo_state(&mut t, false), Ok(FifoState::Occupied));
    assert_eq!(
        radio.get_fifo_state(&mut t, false),
        Err(Stop::Fail(Nrf24Error::BinaryCorruption))
    );
    done(&t, n);
}

#[derive(Default)]
struct InitParams {
    corrupted_binary: bool,
    is_plus_variant: bool,
    no_por: bool,
    is_p0_rx: bool,
}

fn init_parametrized(test_params: InitParams) {
    let mut history = vec![];
    if !test_params.is_p0_rx {
        history.push(ns(5_000_000));
        history.push(ce(false));
        history.push(spi(vec![CONFIG | W_REGISTER, 0xC], vec![0xE, 0]));
        if test_params.corrupted_binary {
            history.push(spi(vec![CONFIG, 0], vec![0xFF, 0xFF]));
        } else {
            history.push(spi(vec![CONFIG, 0], vec![0xE, 0xC]));
            history.push(spi(
                vec![FEATURE, 0xC],
                vec![0xE, if test_params.no_por { 5 } else { 0 }],
            ));
            history.push(spi(vec![ACTIVATE, 0x73], vec![0xE, 0]));
            if test_params.is_plus_variant {
                history.push(spi(vec![FEATURE, 0], vec![0xE, 0]));
            } else {
                history.push(spi(
                    vec![FEATURE, 0],
                    vec![0xE, if test_params.no_por { 0 } else { 5 }],
                ));
                if test_params.no_por {
                    history.push(spi(vec![ACTIVATE, 0x73], vec![0xE, 0]));
                }
            }
        }
    }
    if !test_params.corrupted_binary {
        history.push(ce(false));
        history.push(spi(vec![STATUS | W_REGISTER, 0x70], vec![0xE, 0]));
        history.push(spi(vec![FLUSH_RX], vec![0xE]));
        history.push(spi(vec![FLUSH_TX], vec![0xE]));
        history.push(spi(vec![SETUP_AW | W_REGISTER, 3], vec![0xE, 0]));
        history.push(spi(vec![SETUP_RETR | W_REGISTER, 0x5F], vec![0xE, 0]));
        history.push(spi(vec![EN_AA | W_REGISTER, 0x3F], vec![0xE, 0]));
        history.push(spi(vec![DYNPD | W_REGISTER, 0], vec![0xE, 0]));
        history.push(spi(vec![FEATURE | W_REGISTER, 0], vec![0xE, 0]));
        history.push(spi(
            vec![
                RF_SETUP | W_REGISTER,
                DataRate::Mbps1.into_bits() | PaLevel::Max.into_bits() | 1,
            ],
            vec![0xE, 0],
        ));
        history.push(spi(
            vec![(RX_ADDR_P0 + 1) | W_REGISTER, 0xC2, 0xC2, 0xC2, 0xC2, 0xC2],
            vec![0xE, 0, 0, 0, 0, 0],
        ));
        for (pipe, addr) in [0xC3, 0xC4, 0xC5, 0xC6].iter().enumerate() {
            history.push(spi(
                vec![(RX_ADDR_P0 + 2 + pipe as u8) | W_REGISTER, *addr],
                vec![0xE, 0],
            ));
        }
        for reg in [TX_ADDR, RX_ADDR_P0] {
            history.push(spi(
                vec![reg | W_REGISTER, 0xE7, 0xE7, 0xE7, 0xE7, 0xE7],
                vec![0xE, 0, 0, 0, 0, 0],
            ));
        }
        history.push(spi(vec![EN_RXADDR | W_REGISTER, 3], vec![0xE, 0]));
        for pipe in 0..6 {
            history.push(spi(vec![(RX_PW_P0 + pipe) | W_REGISTER, 32], vec![0xE, 0]));
        }
        history.push(spi(vec![RF_CH | W_REGISTER, 76], vec![0xE, 0]));
        history.push(spi(vec![CONFIG | W_REGISTER, 0xE], vec![0xE, 0]));
    }
    let (mut t, n) = script(history);
    let mut radio = Rf24::new();
    let result = if !test_params.is_p0_rx {
        radio.init(&mut t)
    } else {
        radio.with_config(
            &mut t,
            &RadioConfig::default().with_rx_address(0, &[0xE7; 5]),
        )
    };
    if test_params.corrupted_binary {
        assert!(result.is_err());
        assert_eq!(result, Err(Stop::Fail(Nrf24Error::BinaryCorruption)));
    } else {
        assert!(result.is_ok());
    }
    if !test_params.is_p0_rx {
        assert_eq!(radio.is_plus_variant(), test_params.is_plus_variant);
    }
    done(&t, n);
}

#[test]
fn init_bin_corrupt() {
    init_parametrized(InitParams {
        corrupted_binary: true,
        is_plus_variant: true,
        ..Default::default()
    });
}

#[test]
fn init_plus_variant() {
    init_parametrized(InitParams {
        is_plus_variant: true,
        ..Default::default()
    });
}

#[test]
fn init_non_plus_variant() {
    init_parametrized(InitParams::default());
}

#[test]
fn init_non_plus_variant_no_por() {
    init_parametrized(InitParams {
        no_por: true,
        ..Default::default()
    });
}

#[test]
fn init_with_pipe0_rx() {
    init_parametrized(InitParams {
        is_p0_rx: true,
        ..Default::default()
    });
}

#[test]
fn test_rpd() {
    let (mut t, n) = script(vec![spi(vec![RPD, 0], vec![0xE, 0xFF])]);
    let mut radio = Rf24::new();
    assert!(radio.rpd(&mut t).unwrap());
    done(&t, n);
}

#[test]
fn start_carrier_wave_plus_variant() {
    let mut buf = [0xFFu8; 33];
    buf[0] = W_TX_PAYLOAD;
    let mut address = [0xFFu8; 6];
    address[0] = TX_ADDR | W_REGISTER;
    let (mut t, n) = script(vec![
        // as_tx()
        ce(false),
        us(250),
        spi(vec![CONFIG | W_REGISTER, 0xC], vec![0xE, 0]),
        spi(
            vec![RX_ADDR_P0 | W_REGISTER, 0xE7, 0xE7, 0xE7, 0xE7, 0xE7],
            vec![0xE, 0, 0, 0, 0, 0],
        ),
        spi(vec![EN_RXADDR, 0], vec![0xE, 0]),
        spi(vec![EN_RXADDR | W_REGISTER, 1], vec![0xE, 0]),
        // carrier and PLL lock bits
        spi(vec![RF_SETUP, 0], vec![0xE, 0]),
        spi(vec![RF_SETUP | W_REGISTER, 0x90], vec![0xE, 0]),
        // plus variant only
        spi(vec![EN_AA | W_REGISTER, 0], vec![0xE, 0]),
        spi(vec![SETUP_RETR | W_REGISTER, 0], vec![0xE, 0]),
        spi(address.to_vec(), vec![0u8; 6]),
        spi(vec![FLUSH_TX], vec![0xE]),
        spi(buf.to_vec(), vec![0u8; 33]),
        spi(vec![CONFIG, 0], vec![0xE, 0xC]),
        spi(vec![CONFIG | W_REGISTER, 0], vec![0xE, 0]),
        // set_pa_level()
        spi(vec![RF_SETUP, 0], vec![0xE, 0x91]),
        spi(vec![RF_SETUP | W_REGISTER, 0x97], vec![0xE, 0]),
        // set_channel(125)
        spi(vec![RF_CH | W_REGISTER, 125], vec![0xE, 0]),
        ce(true),
        // plus variant only: rewrite()
        ns(1_000_000),
        ce(false),
        spi(vec![STATUS | W_REGISTER, MASK_MAX_RT | MASK_TX_DS], vec![0xE, 0]),
        spi(vec![REUSE_TX_PL], vec![0xE]),
        ce(true),
    ]);
    let mut radio = Rf24::new();
    assert!(radio.is_plus_variant());
    radio.start_carrier_wave(&mut t, PaLevel::Max, 0xFF).unwrap();
    done(&t, n);
}

/// A driver for a radio that is not a plus variant, as it stands after
/// `init` and `power_down`, with the default delay for ACK packets: `init`
/// runs against a radio whose FEATURE register changes on ACTIVATE.
fn non_plus_radio() -> Rf24 {
    let mut radio = Rf24::new();
    let mut history: Vec<Exchange> = vec![];
    let mut feature_reads = 0;
    loop {
        let mut attempt = radio;
        let mut t = Transcript::new(history.clone());
        match attempt.init(&mut t) {
            Err(Stop::Suspend) => {
                let action = t.pending().unwrap();
                let reply = match &action {
                    Action::Transfer(frame) if frame[0] == CONFIG && frame.len() == 2 => {
                        vec![0xE, 0xC]
                    }
                    Action::Transfer(frame) if frame[0] == FEATURE && frame.len() == 2 => {
                        feature_reads += 1;
                        vec![0xE, if feature_reads == 1 { 0 } else { 7 }]
                    }
                    Action::Transfer(frame) => vec![0; frame.len()],
                    _ => vec![],
                };
                history.push(Exchange { action, reply });
            }
            result => {
                result.unwrap();
                radio = attempt;
                break;
            }
        }
    }
    let (mut t, n) = script(vec![
        ce(false),
        spi(vec![CONFIG | W_REGISTER, 0xC], vec![0xE, 0]),
    ]);
    radio.power_down(&mut t).unwrap();
    done(&t, n);
    radio.tx_delay = 250;
    radio
}

#[test]
fn start_carrier_wave_non_plus_variant() {
    let mut radio = non_plus_radio();
    assert!(!radio.is_plus_variant());
    let (mut t, n) = script(vec![
        // as_tx()
        ce(false),
        us(250),
        spi(vec![CONFIG | W_REGISTER, 0xC], vec![0xE, 0]),
        spi(
            vec![RX_ADDR_P0 | W_REGISTER, 0xE7, 0xE7, 0xE7, 0xE7, 0xE7],
            vec![0xE, 0, 0, 0, 0, 0],
        ),
        spi(vec![EN_RXADDR, 0], vec![0xE, 0]),
        spi(vec![EN_RXADDR | W_REGISTER, 1], vec![0xE, 0]),
        // carrier and PLL lock bits
        spi(vec![RF_SETUP, 0], vec![0xE, 0]),
        spi(vec![RF_SETUP | W_REGISTER, 0x90], vec![0xE, 0]),
        // set_pa_level()
        spi(vec![RF_SETUP, 0], vec![0xE, 0x91]),
        spi(vec![RF_SETUP | W_REGISTER, 0x97], vec![0xE, 0]),
        // set_channel(125)
        spi(vec![RF_CH | W_REGISTER, 125], vec![0xE, 0]),
        ce(true),
    ]);
    radio.start_carrier_wave(&mut t, PaLevel::Max, 0xFF).unwrap();
    done(&t, n);
}

#[test]
fn stop_carrier_wave() {
    let (mut t, n) = script(vec![
        ce(false),
        spi(vec![CONFIG | W_REGISTER, 0xC], vec![0xE, 0]),
        spi(vec![RF_SETUP, 0], vec![0xE, 0x90]),
        spi(vec![RF_SETUP | W_REGISTER, 0], vec![0xE, 0]),
        ce(false),
    ]);
    let mut radio = Rf24::new();
    radio.stop_carrier_wave(&mut t).unwrap();
    done(&t, n);
}

#[test]
fn set_lna() {
    let (mut t, n) = script(vec![
        spi(vec![RF_SETUP, 0], vec![0xE, 1]),
        spi(vec![RF_SETUP | W_REGISTER, 0], vec![0xE, 0]),
    ]);
    let mut radio = Rf24::new();
    radio.set_lna(&mut t, false).unwrap();
    done(&t, n);
}

#[test]
fn get_pa_level() {
    let (mut t, n) = script(vec![
        spi(vec![RF_SETUP, 0], vec![0xE, 0]),
        spi(vec![RF_SETUP, 0], vec![0xE, 2]),
        spi(vec![RF_SETUP, 2], vec![0xE, 4]),
        spi(vec![RF_SETUP, 4], vec![0xE, 6]),
    ]);
    let mut radio = Rf24::new();
    assert_eq!(radio.get_pa_level(&mut t), Ok(PaLevel::Min));
    assert_eq!(radio.get_pa_level(&mut t), Ok(PaLevel::Low));
    assert_eq!(radio.get_pa_level(&mut t), Ok(PaLevel::High));
    assert_eq!(radio.get_pa_level(&mut t), Ok(PaLevel::Max));
    done(&t, n);
}

#[test]
fn set_pa_level() {
    let (mut t, n) = script(vec![
        spi(vec![RF_SETUP, 0], vec![0xE, 7]),
        spi(vec![RF_SETUP | W_REGISTER, 1], vec![0xE, 0]),
        spi(vec![RF_SETUP, 0], vec![0xE, 7]),
        spi(vec![RF_SETUP | W_REGISTER, 3], vec![0xE, 0]),
        spi(vec![RF_SETUP, 0], vec![0xE, 7]),
        spi(vec![RF_SETUP | W_REGISTER, 5], vec![0xE, 0]),
        spi(vec![RF_SETUP, 0], vec![0xE, 0]),
        spi(vec![RF_SETUP | W_REGISTER, 6], vec![0xE, 0]),
    ]);
    let mut radio = Rf24::new();
    radio.set_pa_level(&mut t, PaLevel::Min).unwrap();
    radio.set_pa_level(&mut t, PaLevel::Low).unwrap();
    radio.set_pa_level(&mut t, PaLevel::High).unwrap();
    radio.set_pa_level(&mut t, PaLevel::Max).unwrap();
    done(&t, n);
}

#[test]
fn dynamic_payloads() {
    let (mut t, n) = script(vec![
        spi(vec![FEATURE, 0], vec![0xE, 0]),
        spi(vec![FEATURE | W_REGISTER, EN_DPL], vec![0xE, 0]),
        spi(vec![DYNPD | W_REGISTER, 0x3F], vec![0xE, 0]),
        spi(vec![R_RX_PL_WID, 0], vec![0xE, 0xFF]),
        spi(vec![R_RX_PL_WID, 0xFF], vec![0xE, 32]),
        spi(vec![FEATURE, 32], vec![0xE, EN_ACK_PAY | EN_DPL]),
        spi(vec![FEATURE | W_REGISTER, 0], vec![0xE, 0]),
        spi(vec![DYNPD | W_REGISTER, 0], vec![0xE, 0]),
    ]);
    let mut radio = Rf24::new();
    radio.set_dynamic_payloads(&mut t, true).unwrap();
    assert!(radio.get_dynamic_payloads());
    assert_eq!(
        radio.get_dynamic_payload_length(&mut t),
        Err(Stop::Fail(Nrf24Error::BinaryCorruption))
    );
    assert_eq!(radio.get_dynamic_payload_length(&mut t).unwrap(), 32u8);
    radio.set_dynamic_payloads(&mut t, false).unwrap();
    assert!(!radio.get_dynamic_payloads());
    assert!(!radio.get_ack_payloads());
    done(&t, n);
}

#[test]
fn set_payload_length() {
    let mut history = vec![];
    for pipe in 0..6 {
        history.push(spi(vec![(RX_PW_P0 + pipe) | W_REGISTER, 32], vec![0xE, 0]));
    }
    history.push(spi(vec![RX_PW_P0, 0], vec![0xE, 32]));
    let (mut t, n) = script(history);
    let mut radio = Rf24::new();
    radio.set_payload_length(&mut t, 76).unwrap();
    assert_eq!(radio.get_payload_length(&mut t).unwrap(), 32u8);
    assert_eq!(radio.cached_payload_length(), 32);
    done(&t, n);
}

#[test]
fn open_rx_pipe() {
    let (mut t, n) = script(vec![
        spi(vec![(RX_ADDR_P0 + 5) | W_REGISTER, 0x55], vec![0xE, 0]),
        spi(vec![EN_RXADDR, 0], vec![0xE, 1]),
        spi(vec![EN_RXADDR | W_REGISTER, 0x21], vec![0xE, 0]),
        spi(
            vec![RX_ADDR_P0 | W_REGISTER, 0x55, 0x55, 0x55, 0x55, 0x55],
            vec![0xE, 0, 0, 0, 0, 0],
        ),
        spi(vec![EN_RXADDR, 0], vec![0xE, 2]),
        spi(vec![EN_RXADDR | W_REGISTER, 3], vec![0xE, 0]),
    ]);
    let mut radio = Rf24::new();
    let address = [0x55; 5];
    radio.open_rx_pipe(&mut t, 9, &address).unwrap();
    radio.open_rx_pipe(&mut t, 5, &address).unwrap();
    radio.close_rx_pipe(&mut t, 9).unwrap();
    simulate_rx(&mut radio, 0);
    radio.open_rx_pipe(&mut t, 0, &address).unwrap();
    done(&t, n);
}

#[test]
fn open_rx_pipe0() {
    let (mut t, n) = script(vec![
        spi(vec![(RX_ADDR_P0 + 5) | W_REGISTER, 0x55], vec![0xE, 0]),
        spi(vec![EN_RXADDR, 0], vec![0xE, 1]),
        spi(vec![EN_RXADDR | W_REGISTER, 0x21], vec![0xE, 0]),
    ]);
    let mut radio = Rf24::new();
    let address = [0x55u8; 5];
    radio.open_rx_pipe(&mut t, 9, &address).unwrap();
    radio.open_rx_pipe(&mut t, 5, &address).unwrap();
    radio.close_rx_pipe(&mut t, 9).unwrap();
    done(&t, n);
}

#[test]
fn set_address_length() {
    let (mut t, n) = script(vec![
        spi(vec![SETUP_AW | W_REGISTER, 0], vec![0xE, 0]),
        spi(vec![SETUP_AW, 0], vec![0xE, 0]),
        spi(vec![SETUP_AW | W_REGISTER, 1], vec![0xE, 0]),
        spi(vec![SETUP_AW, 0], vec![0xE, 1]),
        spi(vec![SETUP_AW | W_REGISTER, 2], vec![0xE, 0]),
        spi(vec![SETUP_AW, 0], vec![0xE, 2]),
        spi(vec![SETUP_AW | W_REGISTER, 3], vec![0xE, 0]),
        spi(vec![SETUP_AW, 0], vec![0xE, 3]),
    ]);
    let mut radio = Rf24::new();
    radio.set_address_length(&mut t, 2).unwrap();
    assert_eq!(radio.get_address_length(&mut t).unwrap(), 2);
    radio.set_address_length(&mut t, 3).unwrap();
    assert_eq!(radio.get_address_length(&mut t).unwrap(), 3);
    radio.set_address_length(&mut t, 4).unwrap();
    assert_eq!(radio.get_address_length(&mut t).unwrap(), 4);
    radio.set_address_length(&mut t, 5).unwrap();
    assert_eq!(radio.get_address_length(&mut t).unwrap(), 5);
    assert_eq!(radio.cached_address_length(), 5);
    done(&t, n);
}

#[test]
fn power_up() {
    let (mut t, n) = script(vec![
        spi(vec![CONFIG | W_REGISTER, 0xE], vec![0xE, 0]),
        us(5000),
    ]);
    let mut radio = Rf24::new();
    radio.power_up(&mut t, None).unwrap();
    radio.power_up(&mut t, None).unwrap();
    done(&t, n);
}

#[test]
fn power_up_no_blocking() {
    let (mut t, n) = script(vec![spi(vec![CONFIG | W_REGISTER, 0xE], vec![0xE, 0])]);
    let mut radio = Rf24::new();
    radio.power_up(&mut t, Some(0)).unwrap();
    assert!(radio.is_powered());
    done(&t, n);
}

#[test]
fn power_up_custom_delay() {
    let (mut t, n) = script(vec![
        spi(vec![CONFIG | W_REGISTER, 0xE], vec![0xE, 0]),
        us(5000),
    ]);
    let mut radio = Rf24::new();
    radio.power_up(&mut t, Some(5000)).unwrap();
    done(&t, n);
}

#[test]
fn power_getter() {
    let radio = Rf24::new();
    assert!(!radio.is_powered());
}

#[test]
fn as_rx() {
    let (mut t, n) = script(vec![
        spi(vec![CONFIG | W_REGISTER, 0xD], vec![0xE, 0]),
        spi(vec![STATUS | W_REGISTER, 0x70], vec![0xE, 0]),
        ce(true),
        spi(vec![EN_RXADDR, 0], vec![0xE, 1]),
        spi(vec![EN_RXADDR | W_REGISTER, 0], vec![0xE, 0]),
    ]);
    let mut radio = Rf24::new();
    radio.as_rx(&mut t).unwrap();
    assert!(radio.is_rx());
    done(&t, n);
}

#[test]
fn as_rx_open_pipe0() {
    let as_rx_expectations = vec![
        spi(vec![CONFIG | W_REGISTER, 0xD], vec![0xE, 0]),
        spi(vec![STATUS | W_REGISTER, 0x70], vec![0xE, 0]),
        ce(true),
        spi(
            vec![RX_ADDR_P0 | W_REGISTER, 0x55, 0x55, 0x55, 0x55, 0x55],
            vec![0xE, 0, 0, 0, 0, 0],
        ),
    ];
    let mut history = vec![
        spi(vec![EN_RXADDR, 0], vec![0xE, 0]),
        spi(vec![EN_RXADDR | W_REGISTER, 1], vec![0xE, 0]),
    ];
    history.extend(as_rx_expectations.clone());
    history.extend(vec![
        ce(false),
        us(250),
        spi(vec![CONFIG | W_REGISTER, 0xC], vec![0xE, 0]),
        spi(
            vec![RX_ADDR_P0 | W_REGISTER, 0xE7, 0xE7, 0xE7, 0xE7, 0xE7],
            vec![0xE, 0, 0, 0, 0, 0],
        ),
        spi(vec![EN_RXADDR, 0], vec![0xE, 0]),
        spi(vec![EN_RXADDR | W_REGISTER, 1], vec![0xE, 0]),
    ]);
    history.extend(as_rx_expectations);
    let (mut t, n) = script(history);
    let mut radio = Rf24::new();
    assert!(!radio.is_rx());
    let address = [0x55; 5];
    radio.open_rx_pipe(&mut t, 0, &address).unwrap();
    radio.as_rx(&mut t).unwrap();
    radio.as_tx(&mut t, None).unwrap();
    radio.as_rx(&mut t).unwrap();
    done(&t, n);
}

#[test]
fn as_tx() {
    // enable ACK payloads first, as the radio would have them
    let (mut setup, m) = script(vec![
        spi(vec![FEATURE, 0], vec![0xE, 0]),
        spi(vec![FEATURE | W_REGISTER, EN_ACK_PAY | EN_DPL], vec![0xE, 0]),
        spi(vec![DYNPD | W_REGISTER, 0x3F], vec![0xE, 0]),
    ]);
    let mut radio = Rf24::new();
    radio.set_ack_payloads(&mut setup, true).unwrap();
    done(&setup, m);

    let mut history = vec![
        ce(false),
        us(250),
        spi(vec![FLUSH_TX], vec![0xE]),
        spi(vec![CONFIG | W_REGISTER, 0xC], vec![0xE, 0]),
    ];
    for reg in [TX_ADDR, RX_ADDR_P0] {
        history.push(spi(
            vec![reg | W_REGISTER, 0xEA, 0xEA, 0xEA, 0xEA, 0xEA],
            vec![0xE, 0, 0, 0, 0, 0],
        ));
    }
    history.push(spi(vec![EN_RXADDR, 0], vec![0xE, 0]));
    history.push(spi(vec![EN_RXADDR | W_REGISTER, 1], vec![0xE, 0]));
    let (mut t, n) = script(history);
    let tx_address = [0xEA; 5];
    radio.as_tx(&mut t, Some(&tx_address)).unwrap();
    done(&t, n);
}

#[test]
fn radio_send() {
    let mut buf = [0u8; 33];
    buf[0] = W_TX_PAYLOAD;
    buf[1..9].copy_from_slice(&[0x55; 8]);
    let (mut t, n) = script(vec![
        ce(false),
        spi(vec![FLUSH_TX], vec![0xE]),
        spi(vec![STATUS | W_REGISTER, MASK_MAX_RT | MASK_TX_DS], vec![0xE, 0]),
        spi(buf.to_vec(), vec![0u8; 33]),
        ce(true),
        us(10),
        spi(vec![NOP], vec![0xE | MASK_TX_DS]),
        ce(false),
        spi(vec![FLUSH_TX], vec![0xE]),
        spi(vec![STATUS | W_REGISTER, MASK_MAX_RT | MASK_TX_DS], vec![0xF, 0]),
        spi(buf.to_vec(), vec![0xF; 33]),
        ce(true),
        ce(false),
        spi(vec![FLUSH_TX], vec![0xE]),
    ]);
    let mut radio = Rf24::new();
    let payload = [0x55; 8];
    assert!(radio.send(&mut t, &payload, false).unwrap());
    assert!(!radio.send(&mut t, &payload, false).unwrap());
    simulate_rx(&mut radio, 0xF);
    assert!(radio.send(&mut t, &payload, false).is_err());
    done(&t, n);
}

#[test]
fn ask_no_ack() {
    let mut buf = [0u8; 33];
    buf[0] = W_TX_PAYLOAD_NO_ACK;
    let payload = [0x55; 8];
    buf[1..9].copy_from_slice(&payload);
    let mut dyn_buf = [0x55; 9];
    dyn_buf[0] = W_TX_PAYLOAD_NO_ACK;
    let (mut t, n) = script(vec![
        spi(vec![STATUS | W_REGISTER, MASK_MAX_RT | MASK_TX_DS], vec![0xE, 0]),
        spi(buf.to_vec(), vec![0u8; 33]),
        spi(vec![STATUS | W_REGISTER, MASK_MAX_RT | MASK_TX_DS], vec![0xE, 0]),
        spi(dyn_buf.to_vec(), vec![0u8; 9]),
    ]);
    let mut radio = Rf24::new();
    assert!(radio.write(&mut t, &payload, true, false).unwrap());
    // upload a dynamically sized payload
    let (mut setup, m) = script(vec![
        spi(vec![FEATURE, 0], vec![0xE, 0]),
        spi(vec![FEATURE | W_REGISTER, EN_DPL], vec![0xE, 0]),
        spi(vec![DYNPD | W_REGISTER, 0x3F], vec![0xE, 0]),
    ]);
    radio.set_dynamic_payloads(&mut setup, true).unwrap();
    done(&setup, m);
    assert!(radio.write(&mut t, &payload, true, false).unwrap());
    done(&t, n);
}

#[test]
fn radio_read() {
    let mut buf_static = [0u8; 33];
    buf_static[0] = R_RX_PAYLOAD;
    let mut buf_dynamic = [0x55u8; 33];
    buf_dynamic[0] = R_RX_PAYLOAD;
    buf_dynamic[1] = 32;
    let (mut t, n) = script(vec![
        spi(buf_static.to_vec(), vec![0x55u8; 33]),
        spi(vec![STATUS | W_REGISTER, MASK_RX_DR], vec![0xE, 0]),
        spi(vec![R_RX_PL_WID, 0], vec![0xE, 32]),
        spi(buf_dynamic.to_vec(), vec![0xAAu8; 33]),
        spi(vec![STATUS | W_REGISTER, MASK_RX_DR], vec![0xE, 0]),
    ]);
    let mut radio = Rf24::new();
    let mut payload = [0; 32];
    assert_eq!(32u8, radio.read(&mut t, &mut payload, None).unwrap());
    assert_eq!(payload, [0x55; 32]);
    assert_eq!(0u8, radio.read(&mut t, &mut payload, Some(0)).unwrap());
    let (mut setup, m) = script(vec![
        spi(vec![FEATURE, 0], vec![0xE, 0]),
        spi(vec![FEATURE | W_REGISTER, EN_DPL], vec![0xE, 0]),
        spi(vec![DYNPD | W_REGISTER, 0x3F], vec![0xE, 0]),
    ]);
    radio.set_dynamic_payloads(&mut setup, true).unwrap();
    done(&setup, m);
    assert_eq!(32u8, radio.read(&mut t, &mut payload, None).unwrap());
    assert_eq!(payload, [0xAA; 32]);
    done(&t, n);
}

#[test]
fn resend() {
    let (mut t, n) = script(vec![
        ce(false),
        spi(vec![STATUS | W_REGISTER, MASK_MAX_RT | MASK_TX_DS], vec![0xE, 0]),
        spi(vec![REUSE_TX_PL], vec![0xE]),
        ce(true),
        us(10),
        spi(vec![NOP], vec![0xE | MASK_TX_DS]),
    ]);
    let mut radio = Rf24::new();
    assert!(radio.resend(&mut t).unwrap());
    simulate_rx(&mut radio, 0);
    assert!(!radio.resend(&mut t).unwrap());
    done(&t, n);
}

#[test]
fn get_last_arc() {
    let (mut t, n) = script(vec![spi(vec![OBSERVE_TX, 0], vec![0xE, 0xFF])]);
    let mut radio = Rf24::new();
    assert_eq!(radio.get_last_arc(&mut t).unwrap(), 15);
    done(&t, n);
}

#[test]
fn what_happened() {
    let (mut t, n) = script(vec![spi(vec![NOP], vec![0x70])]);
    let mut radio = Rf24::new();
    radio.update(&mut t).unwrap();
    let mut flags = StatusFlags::default();
    radio.get_status_flags(&mut flags);
    assert!(flags.rx_dr());
    assert!(flags.tx_ds());
    assert!(flags.tx_df());
    done(&t, n);
}

#[test]
fn set_status_flags() {
    let (mut t, n) = script(vec![
        spi(vec![CONFIG, 0], vec![0xE, 0xF]),
        spi(vec![CONFIG | W_REGISTER, 0x7F], vec![0xE, 0]),
    ]);
    let mut radio = Rf24::new();
    radio.set_status_flags(&mut t, StatusFlags::default()).unwrap();
    done(&t, n);
}
