use rf24::ble::data::{crc24_ble, reverse_bits, whiten};
use rf24::ble::radio::{ble_config, BleChannels, FakeBle, BLE_CHANNEL};
use rf24::ble::services::{
    AsBuffer, BatteryService, BlePayload, ServiceData, TemperatureService, UrlService,
};
use rf24::commands::W_REGISTER;
use rf24::config::RadioConfig;
use rf24::registers::{CONFIG, EN_RXADDR, RF_CH, RX_ADDR_P0, RX_PW_P0, STATUS};
use rf24::prelude::{EsbAutoAck, EsbChannel, EsbInit, EsbPayloadLength, EsbPower, EsbRadio};
use rf24::rf24::Rf24;
use rf24::transcript::{Action, Exchange, Stop, Transcript};
use rf24::types::{CrcLength, PaLevel};

fn spi(expected: Vec<u8>, reply: Vec<u8>) -> Exchange {
    Exchange { action: Action::Transfer(expected), reply }
}

fn ce(high: bool) -> Exchange {
    Exchange { action: Action::SetCe(high), reply: vec![] }
}

fn us(delay: u32) -> Exchange {
    Exchange { action: Action::DelayUs(delay), reply: vec![] }
}

/// A transcript over `history`, with its length.
fn script(history: Vec<Exchange>) -> (Transcript, usize) {
    let n = history.len();
    (Transcript::new(history), n)
}

/// Every recorded exchange was used.
fn done(t: &Transcript, n: usize) {
    assert_eq!(t.cursor(), n);
    assert!(t.pending().is_none());
}

/// Run `op` on `radio` against a radio that answers every transfer with
/// zeros, performing each pending action and running `op` again until it
/// completes or fails.
fn drive<T>(
    radio: &mut Rf24,
    op: impl Fn(&mut Rf24, &mut Transcript) -> Result<T, Stop>,
) -> Result<T, Stop> {
    let mut history: Vec<Exchange> = vec![];
    loop {
        let mut attempt = *radio;
        let mut t = Transcript::new(history.clone());
        match op(&mut attempt, &mut t) {
            Err(Stop::Suspend) => {
                let action = t.pending().unwrap();
                let reply = match &action {
                    Action::Transfer(frame) => vec![0; frame.len()],
                    _ => vec![],
                };
                history.push(Exchange { action, reply });
            }
            result => {
                *radio = attempt;
                return result;
            }
        }
    }
}

#[test]
fn power_up_then_down() {
    let mut radio = Rf24::new();
    assert!(!radio.is_powered());
    let (mut t, n) = script(vec![
        spi(vec![CONFIG | W_REGISTER, 0x0E], vec![0xE, 0]),
        us(5000),
    ]);
    radio.power_up(&mut t, None).unwrap();
    done(&t, n);
    assert!(radio.is_powered());
    let (mut t, n) = script(vec![
        ce(false),
        spi(vec![CONFIG | W_REGISTER, 0x0C], vec![0xE, 0]),
    ]);
    radio.power_down(&mut t).unwrap();
    done(&t, n);
    assert!(!radio.is_powered());
}

#[test]
fn rx_then_tx() {
    let mut radio = Rf24::new();
    let (mut t, n) = script(vec![
        spi(vec![CONFIG | W_REGISTER, 0x0D], vec![0xE, 0]),
        spi(vec![STATUS | W_REGISTER, 0x70], vec![0xE, 0]),
        ce(true),
        spi(vec![EN_RXADDR, 0], vec![0xE, 3]),
        spi(vec![EN_RXADDR | W_REGISTER, 2], vec![0xE, 0]),
    ]);
    radio.as_rx(&mut t).unwrap();
    done(&t, n);
    assert!(radio.is_rx());
    let (mut t, n) = script(vec![
        ce(false),
        us(250),
        spi(vec![CONFIG | W_REGISTER, 0x0C], vec![0xE, 0]),
        spi(
            vec![RX_ADDR_P0 | W_REGISTER, 0xE7, 0xE7, 0xE7, 0xE7, 0xE7],
            vec![0xE, 0, 0, 0, 0, 0],
        ),
        spi(vec![EN_RXADDR, 0], vec![0xE, 2]),
        spi(vec![EN_RXADDR | W_REGISTER, 3], vec![0xE, 0]),
    ]);
    radio.as_tx(&mut t, None).unwrap();
    done(&t, n);
    assert!(!radio.is_rx());
}

#[test]
fn dynamic_payloads_setting() {
    let mut radio = Rf24::new();
    drive(&mut radio, |r, t| r.set_ack_payloads(t, true)).unwrap();
    assert!(radio.get_ack_payloads());
    assert!(radio.get_dynamic_payloads());
    drive(&mut radio, |r, t| r.set_dynamic_payloads(t, false)).unwrap();
    assert!(!radio.get_dynamic_payloads());
    assert!(!radio.get_ack_payloads());
    drive(&mut radio, |r, t| r.set_dynamic_payloads(t, true)).unwrap();
    assert!(radio.get_dynamic_payloads());
}

#[test]
fn auto_ack_off_disables_ack_payloads() {
    let mut radio = Rf24::new();
    drive(&mut radio, |r, t| r.set_ack_payloads(t, true)).unwrap();
    drive(&mut radio, |r, t| r.set_auto_ack(t, false)).unwrap();
    assert!(!radio.get_ack_payloads());

    drive(&mut radio, |r, t| r.set_ack_payloads(t, true)).unwrap();
    drive(&mut radio, |r, t| r.set_auto_ack_pipe(t, false, 1)).unwrap();
    assert!(radio.get_ack_payloads());
    drive(&mut radio, |r, t| r.set_auto_ack_pipe(t, false, 0)).unwrap();
    assert!(!radio.get_ack_payloads());
}

#[test]
fn payload_length_cached() {
    let mut radio = Rf24::new();
    let mut history = vec![];
    for pipe in 0..6 {
        history.push(spi(vec![(RX_PW_P0 + pipe) | W_REGISTER, 32], vec![0xE, 0]));
    }
    let (mut t, n) = script(history);
    radio.set_payload_length(&mut t, 40).unwrap();
    done(&t, n);
    assert_eq!(radio.cached_payload_length(), 32);
    drive(&mut radio, |r, t| r.set_payload_length(t, 0)).unwrap();
    assert_eq!(radio.cached_payload_length(), 1);
    drive(&mut radio, |r, t| r.set_payload_length(t, 12)).unwrap();
    assert_eq!(radio.cached_payload_length(), 12);
}

#[test]
fn with_config_caches() {
    let mut radio = Rf24::new();
    let config = ble_config();
    drive(&mut radio, |r, t| r.with_config(t, &config)).unwrap();
    assert_eq!(radio.cached_address_length(), 4);
    assert_eq!(radio.cached_payload_length(), 32);
    assert!(!radio.get_dynamic_payloads());
    assert!(!radio.get_ack_payloads());
    assert!(radio.is_powered());
    assert!(!radio.is_rx());

    let config = RadioConfig::default()
        .with_payload_length(7)
        .with_address_length(3)
        .with_ack_payloads(true);
    drive(&mut radio, |r, t| r.with_config(t, &config)).unwrap();
    assert_eq!(radio.cached_address_length(), 3);
    assert_eq!(radio.cached_payload_length(), 7);
    assert!(radio.get_dynamic_payloads());
    assert!(radio.get_ack_payloads());
}

#[test]
fn bare_advertisement_decodes() {
    let channel = BLE_CHANNEL[1];
    let ble = FakeBle::new();
    let mut payload = ble.make_payload(&[], None, channel).unwrap();
    let decoded = BlePayload::from_bytes(&mut payload, channel).unwrap();
    assert_eq!(decoded.mac_address, ble.mac_address);
    assert!(decoded.short_name.is_none());
    assert!(decoded.tx_power.is_none());
    assert!(decoded.battery_charge.is_none());
    assert!(decoded.url.is_none());
    assert!(decoded.temperature.is_none());

    let mut ble = FakeBle::new();
    ble.set_name("BLE");
    ble.mac_address = [1, 2, 3, 4, 5, 6];
    let channel = BLE_CHANNEL[2];
    let mut payload = ble.make_payload(&[], Some(PaLevel::High), channel).unwrap();
    let decoded = BlePayload::from_bytes(&mut payload, channel).unwrap();
    assert_eq!(decoded.mac_address, [1, 2, 3, 4, 5, 6]);
    assert_eq!(decoded.short_name, Some(*b"BLE\0\0\0\0\0\0\0"));
    assert_eq!(decoded.tx_power, Some(-6));
}

#[test]
fn advertisement_decodes_to_its_body() {
    let mut ble = FakeBle::new();
    ble.set_name("x");
    let channel = BLE_CHANNEL[0];
    let data = [3u8, 0xFF, 0xAB, 0xCD];
    let payload = ble.make_payload(&data, None, channel).unwrap();
    let mut decoded = payload;
    reverse_bits(&mut decoded);
    whiten(&mut decoded, (BleChannels::index_of(channel).unwrap() as u8 + 37) | 0x40);
    // flags, length, MAC address, profile flags, name chunk, data
    assert_eq!(decoded[0], 0x42);
    assert_eq!(decoded[1] as usize, 6 + 3 + 3 + data.len());
    assert_eq!(&decoded[2..8], &ble.mac_address);
    assert_eq!(&decoded[8..11], &[2, 1, 5]);
    assert_eq!(&decoded[11..14], &[2, 8, b'x']);
    assert_eq!(&decoded[14..18], &data);
    let mut again = payload;
    let parsed = BlePayload::from_bytes(&mut again, channel).unwrap();
    assert_eq!(again, decoded);
    assert_eq!(parsed.mac_address, ble.mac_address);
}

#[test]
fn channel_hops_cycle() {
    for channel in BLE_CHANNEL {
        let a = BleChannels::increment(channel).unwrap();
        let b = BleChannels::increment(a).unwrap();
        assert_ne!(a, channel);
        assert_ne!(b, channel);
        assert_ne!(a, b);
        assert_eq!(BleChannels::increment(b), Some(channel));
    }
    assert_eq!(BleChannels::increment(3), None);
}

#[test]
fn crc_length_round_trip() {
    for length in [CrcLength::Disabled, CrcLength::Bit8, CrcLength::Bit16] {
        assert_eq!(CrcLength::from_bits(length.into_bits()), length);
    }
}

#[test]
fn fits_when_room_left() {
    let mut ble = FakeBle::new();
    ble.set_name("abc");
    ble.show_pa_level = true;
    // 18 bytes, less the name chunk (5) and the PA level chunk (3)
    assert_eq!(ble.len_available(&[7u8; 10]), 0);
    assert!(ble.make_payload(&[7u8; 10], Some(PaLevel::Max), BLE_CHANNEL[0]).is_some());
    assert_eq!(ble.len_available(&[7u8; 11]), -1);
    assert!(ble.make_payload(&[7u8; 11], Some(PaLevel::Max), BLE_CHANNEL[0]).is_none());
}

#[test]
fn name_round_trip() {
    let mut ble = FakeBle::new();
    ble.set_name("a very long name");
    let mut name = [0u8; 12];
    assert_eq!(ble.get_name(&mut name), 10);
    assert_eq!(&name[..10], b"a very lon");
    assert_eq!(ble.len_available(b""), 18 - 12);
    ble.set_name("");
    assert_eq!(ble.get_name(&mut name), 0);
    assert_eq!(ble.len_available(b""), 18);
}

#[test]
fn url_round_trip() {
    let mut url = UrlService::default();
    url.set_data("https://www.google.com");
    assert_eq!(url.data(), "https://www.google.com");
    url.set_data("http://example.org/a");
    assert_eq!(url.data(), "http://example.org/a");
    url.set_data("nrf24.gov");
    assert_eq!(url.data(), "nrf24.gov");
    // 12 bytes at most: the end is cut off
    url.set_data("https://www.foo.com/bar/bazz");
    assert_eq!(url.data(), "https://www.foo.com/bar/baz");
}

#[test]
fn len_available_never_wraps() {
    let ble = FakeBle::new();
    assert_eq!(ble.len_available(&[0u8; 200]), -128);
    assert_eq!(ble.len_available(&[0u8; 100]), -82);
    assert!(ble.make_payload(&[0u8; 200], None, BLE_CHANNEL[0]).is_none());
    assert_eq!(ble.len_available(&[0u8; 18]), 0);
    assert!(ble.make_payload(&[0u8; 18], None, BLE_CHANNEL[0]).is_some());
}

#[test]
fn empty_url_reads_back_empty() {
    assert_eq!(UrlService::new().data(), "");
    let mut url = UrlService::default();
    url.set_data("https://www.google.com");
    url.set_data("");
    assert_eq!(url.data(), "");
}

#[test]
fn suspended_operation_leaves_its_action_pending() {
    let mut radio = Rf24::new();
    let mut t = Transcript::new(vec![]);
    assert_eq!(radio.get_channel(&mut t), Err(Stop::Suspend));
    match t.pending() {
        Some(Action::Transfer(frame)) => assert_eq!(frame, vec![RF_CH, 0]),
        other => panic!("unexpected pending action {:?}", other),
    }
    let mut t = Transcript::new(vec![]);
    assert_eq!(radio.power_down(&mut t), Err(Stop::Suspend));
    assert!(matches!(t.pending(), Some(Action::SetCe(false))));
}

#[test]
fn crc24_is_affine() {
    let a = [1u8, 2, 3, 4, 5];
    let b = [0x10u8, 0x20, 0x30, 0x40, 0x50];
    let c = [0xFFu8, 0, 0xAA, 0x55, 7];
    let x: Vec<u8> = (0..5).map(|i| a[i] ^ b[i] ^ c[i]).collect();
    let (ca, cb, cc) = (crc24_ble(&a), crc24_ble(&b), crc24_ble(&c));
    let expected: Vec<u8> = (0..3).map(|i| ca[i] ^ cb[i] ^ cc[i]).collect();
    assert_eq!(crc24_ble(&x).to_vec(), expected);
}

#[test]
fn several_chunks_decode() {
    let mut battery = BatteryService::new();
    battery.set_data(42);
    let mut temperature = TemperatureService::new();
    temperature.set_centi_degrees(2150);
    let mut data = battery.buffer().to_vec();
    data.extend_from_slice(temperature.buffer());
    let ble = FakeBle::new();
    let channel = BLE_CHANNEL[2];
    let mut payload = ble.make_payload(&data, Some(PaLevel::Min), channel).unwrap();
    let decoded = BlePayload::from_bytes(&mut payload, channel).unwrap();
    assert_eq!(decoded.mac_address, ble.mac_address);
    assert_eq!(decoded.tx_power, Some(-18));
    assert_eq!(decoded.battery_charge.unwrap().buffer(), battery.buffer());
    assert_eq!(decoded.temperature.unwrap().buffer(), temperature.buffer());
    assert!(decoded.url.is_none());
}

#[test]
fn fake_ble_setters() {
    let mut ble = FakeBle::new();
    ble.set_show_pa_level(true);
    assert!(ble.show_pa_level);
    ble.set_mac_address([1, 2, 3, 4, 5, 6]);
    assert_eq!(ble.mac_address, [1, 2, 3, 4, 5, 6]);
    assert_eq!(ble.len_available(b""), 15);
}

#[test]
fn url_of_exactly_twelve_bytes_round_trips() {
    let mut url = UrlService::default();
    url.set_data("abcdefghijkl");
    assert_eq!(url.buffer().len(), 18);
    assert_eq!(url.data(), "abcdefghijkl");
    url.set_data("abcdefghijk.com");
    assert_eq!(url.buffer().len(), 18);
    assert_eq!(url.data(), "abcdefghijk.com");
    url.set_data("abcdefghijklm");
    assert_eq!(url.data(), "abcdefghijkl");
}
