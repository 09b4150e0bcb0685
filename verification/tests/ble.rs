use rf24::ble::data::{reverse_bits, whiten};
use rf24::ble::radio::{ble_config, BleChannels, FakeBle, BLE_ADDRESS, BLE_CHANNEL};
use rf24::ble::services::{
    AsBuffer, BatteryService, BlePayload, ServiceData, TemperatureService, UrlService,
};
use rf24::commands::{FLUSH_TX, NOP, R_RX_PAYLOAD, W_REGISTER, W_TX_PAYLOAD};
use rf24::mnemonics::{MASK_MAX_RT, MASK_RX_DR, MASK_TX_DS};
use rf24::registers::{RF_CH, RF_SETUP, STATUS};
use rf24::rf24::Rf24;
use rf24::transcript::{Action, Exchange, Transcript};
use rf24::types::{CrcLength, PaLevel};

fn spi(expected: Vec<u8>, reply: Vec<u8>) -> Exchange {
    Exchange { action: Action::Transfer(expected), reply }
}

fn ce(high: bool) -> Exchange {
    Exchange { action: Action::SetCe(high), reply: vec![] }
}

fn us(delay: u32) -> Exchange {
    Exchange { action: Action::DelayUs(delay), reply: vec![] }
}

/// A transcript over `history`, with its length.
fn script(history: Vec<Exchange>) -> (Transcript, usize) {
    let n = history.len();
    (Transcript::new(history), n)
}

/// Every recorded exchange was used.
fn done(t: &Transcript, n: usize) {
    assert_eq!(t.cursor(), n);
    assert!(t.pending().is_none());
}

#[test]
fn name() {
    let mut ble = FakeBle::default();
    let mut expected = [0u8; 10];
    assert_eq!(0, ble.get_name(&mut expected));
    ble.set_name("nRF24L");
    assert_eq!(6, ble.get_name(&mut expected));
    assert!(expected.starts_with(b"nRF24L"));
    assert_eq!(ble.len_available(b""), 10);
}

#[test]
fn mac() {
    let mut mac = [0u8; 6];
    mac.copy_from_slice(b"nRF24L");
    let mut ble = FakeBle::default();
    ble.mac_address.copy_from_slice(&mac);
    assert_eq!(ble.len_available(b""), 18);
}

#[test]
fn radio_pa_level() {
    let mut ble = FakeBle::default();
    assert_eq!(ble.len_available(b""), 18);
    ble.show_pa_level = true;
    assert_eq!(ble.len_available(b""), 15);
}

#[test]
fn config() {
    let config = ble_config();
    assert_eq!(config.channel(), BLE_CHANNEL[0]);
    assert_eq!(config.crc_length(), CrcLength::Disabled);
    assert_eq!(config.auto_ack(), 0);
    assert_eq!(config.auto_retry_count(), 0);
    assert_eq!(config.auto_retry_delay(), 0);
    assert_eq!(config.address_length(), 4);
    let mut address = [0u8; 4];
    config.tx_address(&mut address);
    assert_eq!(address, BLE_ADDRESS);
    config.rx_address(1, &mut address);
    assert_eq!(address, BLE_ADDRESS);
    for pipe in 0..5 {
        let enabled = config.is_rx_pipe_enabled(pipe);
        assert_eq!(enabled, pipe == 1);
    }
}

#[test]
fn channel_hop() {
    let (mut t, n) = script(vec![
        spi(vec![RF_CH, 0], vec![0xE, BLE_CHANNEL[0]]),
        spi(vec![RF_CH | W_REGISTER, BLE_CHANNEL[1]], vec![0xE, 0]),
        spi(vec![RF_CH, 0], vec![0xE, BLE_CHANNEL[1]]),
        spi(vec![RF_CH | W_REGISTER, BLE_CHANNEL[2]], vec![0xE, 0]),
        spi(vec![RF_CH, 0], vec![0xE, BLE_CHANNEL[2]]),
        spi(vec![RF_CH | W_REGISTER, BLE_CHANNEL[0]], vec![0xE, 0]),
        spi(vec![RF_CH, 0], vec![0xE, 0]),
    ]);
    let mut radio = Rf24::new();
    let ble = FakeBle::default();
    for _ in 0..4 {
        ble.hop_channel(&mut radio, &mut t).unwrap();
    }
    done(&t, n);
}

#[test]
fn read() {
    let ble = FakeBle::default();
    let channel = BLE_CHANNEL[0];
    let payload = ble.make_payload(&[], None, channel).unwrap();
    let mut buf = [0; 33];
    buf[1..].copy_from_slice(&payload);
    buf[0] = 0xE;
    let mut expected = [0; 33];
    expected[0] = R_RX_PAYLOAD;

    let (mut t, n) = script(vec![
        spi(expected.to_vec(), buf.to_vec()),
        spi(vec![STATUS | W_REGISTER, MASK_RX_DR], vec![0xE, 0]),
        spi(vec![RF_CH, 0], vec![0xE, BLE_CHANNEL[0]]),
    ]);
    let mut radio = Rf24::new();
    let ble_payload = ble.read(&mut radio, &mut t).unwrap().unwrap();
    assert_eq!(&ble.mac_address, &ble_payload.mac_address);
    done(&t, n);
}

/// The exchanges of [`FakeBle::send`] with no data, showing `pa_level` if
/// given; the advertisement is not sent if `big_buf`.
fn send_history(ble: &FakeBle, pa_level: Option<PaLevel>, big_buf: bool) -> Vec<Exchange> {
    let channel = BLE_CHANNEL[0];
    let payload = ble.make_payload(&[], pa_level, channel).unwrap();
    let mut buf = [0; 33];
    buf[0] = 0xE;
    let mut expected = [0; 33];
    expected[0] = W_TX_PAYLOAD;
    expected[1..].copy_from_slice(&payload);

    let mut history = vec![];
    let bin_pa_level = pa_level.map(|lvl| match lvl {
        PaLevel::High => 4,
        _ => 6,
    });
    if let Some(lvl) = bin_pa_level {
        history.push(spi(vec![RF_SETUP, 0], vec![0xE, lvl]));
    }
    history.push(spi(
        vec![RF_CH, bin_pa_level.unwrap_or_default()],
        vec![0xE, BLE_CHANNEL[0]],
    ));
    if !big_buf {
        history.push(ce(false));
        history.push(spi(vec![FLUSH_TX], vec![0xE]));
        history.push(spi(
            vec![STATUS | W_REGISTER, MASK_TX_DS | MASK_MAX_RT],
            vec![0xE, 0],
        ));
        history.push(spi(expected.to_vec(), buf.to_vec()));
        history.push(ce(true));
        history.push(us(10));
        history.push(spi(vec![NOP], vec![0xE | MASK_TX_DS]));
    }
    history
}

#[test]
fn send() {
    let ble = FakeBle::default();
    let (mut t, n) = script(send_history(&ble, None, false));
    let mut radio = Rf24::new();
    assert!(ble.send(&mut radio, &mut t, &[]).unwrap());
    done(&t, n);
}

#[test]
fn send_pa_level() {
    let mut ble = FakeBle::new();
    ble.show_pa_level = true;
    let (mut t, n) = script(send_history(&ble, Some(PaLevel::Max), false));
    let mut radio = Rf24::new();
    assert!(ble.send(&mut radio, &mut t, &[]).unwrap());
    done(&t, n);
}

#[test]
fn send_big_buf() {
    let mut ble = FakeBle::new();
    ble.show_pa_level = true;
    let (mut t, n) = script(send_history(&ble, Some(PaLevel::High), true));
    let mut radio = Rf24::new();
    assert!(!ble.send(&mut radio, &mut t, &[0u8; 20]).unwrap());
    done(&t, n);
}

#[test]
fn battery_service() {
    let mut battery = BatteryService::default();
    battery.set_data(85);
    assert_eq!(battery.data(), 85);
    assert_eq!([0x04, 0x16, 0x0F, 0x18, 0x55], *battery.buffer());
}

/// The temperature (in Celsius) as the service holds it, in hundredths.
fn set_temperature(service: &mut TemperatureService, value: f32) {
    service.set_centi_degrees((value * 100.0) as u32 & 0xFFFFFF);
}

fn temperature(service: &TemperatureService) -> f32 {
    service.centi_degrees() as f32 / 100.0
}

#[test]
fn temperature_service() {
    let mut temp = TemperatureService::default();
    set_temperature(&mut temp, 45.5);
    assert_eq!(temperature(&temp), 45.5);
    assert_eq!(
        [0x07, 0x16, 0x09, 0x18, 0xC6, 0x11, 0x00, 0xFE],
        *temp.buffer()
    );
}

#[test]
fn url_service() {
    let mut url = UrlService::default();
    url.set_data("https://www.foo.com/bar/bazz");
    url.set_pa_level(-20);
    assert_eq!(url.pa_level(), -20);
    assert_eq!(
        [
            0x11, 0x16, 0xAA, 0xFE, 0x10, 0xEC, 0x01, 0x66, 0x6F, 0x6F, 0x00, 0x62, 0x61, 0x72,
            0x2F, 0x62, 0x61, 0x7A
        ],
        *(url.buffer())
    );
}

#[test]
fn rx_battery() {
    let mut service = BatteryService::default();
    service.set_data(85);

    let mut ble = FakeBle::default();
    ble.set_name("nRF24L01");
    let channel = BLE_CHANNEL[0];
    let mut payload = ble
        .make_payload(service.buffer(), Some(PaLevel::Low), channel)
        .unwrap();

    let ble_payload = BlePayload::from_bytes(&mut payload, channel).unwrap();
    assert_eq!(&ble.mac_address, &ble_payload.mac_address);
    let mut name = [0u8; 10];
    ble.get_name(&mut name);
    assert_eq!(&name, b"nRF24L01\0\0");
    assert_eq!(&ble_payload.short_name.unwrap(), &name);
    assert_eq!(ble_payload.tx_power.unwrap(), -12);
    assert_eq!(
        ble_payload.battery_charge.unwrap().buffer(),
        service.buffer()
    );
}

#[test]
fn rx_temperature() {
    let mut service = TemperatureService::default();
    set_temperature(&mut service, 45.5);

    let ble = FakeBle::default();
    let channel = BLE_CHANNEL[0];
    let mut payload = ble.make_payload(service.buffer(), None, channel).unwrap();

    let ble_payload = BlePayload::from_bytes(&mut payload, channel).unwrap();
    assert_eq!(&ble.mac_address, &ble_payload.mac_address);
    assert_eq!(ble_payload.temperature.unwrap().buffer(), service.buffer());
}

#[test]
fn rx_url() {
    let mut service = UrlService::default();
    service.set_data("https://www.google.com");
    let buffer = service.buffer();

    let ble = FakeBle::default();
    let channel = BLE_CHANNEL[0];
    let mut payload = ble.make_payload(buffer, None, channel).unwrap();

    let ble_payload = BlePayload::from_bytes(&mut payload, channel).unwrap();
    assert_eq!(&ble.mac_address, &ble_payload.mac_address);
    for (i, byte) in ble_payload.url.unwrap().buffer().iter().enumerate() {
        assert_eq!(buffer[i], *byte);
    }
}

#[test]
fn rx_too_big() {
    let channel = BLE_CHANNEL[0];
    let coefficient = (BleChannels::index_of(channel).unwrap() as u8 + 37) | 0x40;
    let mut payload = [0u8; 32];
    payload[1] = 29;
    whiten(&mut payload, coefficient);
    reverse_bits(&mut payload);
    assert!(BlePayload::from_bytes(&mut payload, channel).is_none());
}

#[test]
fn rx_bad_crc() {
    let ble = FakeBle::default();
    let channel = BLE_CHANNEL[0];
    let coefficient = (BleChannels::index_of(channel).unwrap() as u8 + 37) | 0x40;

    // bad CRC
    let mut payload = ble.make_payload(&[17u8; 18], None, channel).unwrap();
    reverse_bits(&mut payload[29..32]);
    assert!(BlePayload::from_bytes(&mut payload, coefficient).is_none());
}

#[test]
fn rx_unsupported_service() {
    let buffer = [4u8, 0x16, 0xFF, 0x0F, 0xFF];

    let ble = FakeBle::default();
    let channel = BLE_CHANNEL[0];
    let mut payload = ble
        .make_payload(&buffer, Some(PaLevel::Min), channel)
        .unwrap();

    let ble_payload = BlePayload::from_bytes(
        &mut payload,
        (BleChannels::index_of(channel).unwrap() as u8 + 37) | 0x40,
    )
    .unwrap();
    assert_eq!(&ble.mac_address, &ble_payload.mac_address);
}
