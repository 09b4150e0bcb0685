//! Advertising as a BLE device.
use vstd::prelude::*;

use crate::prelude::{EsbChannel, EsbPaLevel, EsbRadio};
use vstd::string::StringSliceAdditionalSpecFns;

use super::data::{crc24, crc24_ble, reverse_first, reversed_all, whiten_first, whitened};
use super::services::{ble_decode, BlePayload};
use crate::config::{PipeConfigView, RadioConfig, RadioConfigView};
use crate::rf24::channel::set_channel_run;
use crate::rf24::radio::{read_corrupt, read_payload_run, read_width_run, send_went};
use crate::rf24::{
    advanced, done, failed, no_fail, ran, read_run, stopped, reply, zeros, History, Rf24,
    Rf24View, Run,
};
use crate::registers::{RF_CH, RF_SETUP};
use crate::transcript::{Stop, Transcript};
use crate::types::{pa_level_of, CrcLength, Nrf24Error, PaLevel, PA_LEVEL_MASK};

verus! {

/// The channels of BLE advertisements.
pub const BLE_CHANNEL: [u8; 3] = [2, 26, 80];

/// The index of `channel` among the BLE advertising channels.
pub open spec fn ble_channel_index(channel: u8) -> Option<usize> {
    if channel == 2 {
        Some(0)
    } else if channel == 26 {
        Some(1)
    } else if channel == 80 {
        Some(2)
    } else {
        None
    }
}

/// The BLE advertising channel after `channel` (wrapping around), if it is
/// one.
pub open spec fn ble_next(channel: u8) -> Option<u8> {
    if channel == 2 {
        Some(26)
    } else if channel == 26 {
        Some(80)
    } else if channel == 80 {
        Some(2)
    } else {
        None
    }
}

/// The whitening coefficient of `channel`: its index among the BLE
/// channels (0 if it is none), plus 37, with bit 6 set.
pub open spec fn ble_coefficient(channel: u8) -> u8 {
    let i: usize = match ble_channel_index(channel) {
        Some(i) => i,
        None => 0,
    };
    ((i + 37) as u8) | 0x40
}

/// The whitening coefficients of the three advertising channels are
/// 0x65, 0x66 and 0x67, in the order of [`BLE_CHANNEL`]: BLE's channel
/// index (37, 38 or 39) with bit 6 set. Any other channel is whitened as
/// channel 2 (0x65).
pub proof fn law_ble_coefficient_table(channel: u8)
    ensures
        ble_coefficient(2) == 0x65,
        ble_coefficient(26) == 0x66,
        ble_coefficient(80) == 0x67,
        ble_coefficient(channel) == if channel == 26 {
            0x66u8
        } else if channel == 80 {
            0x67u8
        } else {
            0x65u8
        },
        forall|i: int|
            0 <= i < 3 ==> #[trigger] ble_coefficient(BLE_CHANNEL@[i]) == 0x65 + i && ble_coefficient(
                BLE_CHANNEL@[i],
            ) == ((37 + i) as u8) | 0x40u8,
{
    assert(37u8 | 0x40u8 == 0x65u8 && 38u8 | 0x40u8 == 0x66u8 && 39u8 | 0x40u8 == 0x67u8)
        by (bit_vector);
    assert(BLE_CHANNEL@ == seq![2u8, 26, 80]);
}

/// Hopping from a BLE channel visits the other two and then comes back:
/// three hops make a cycle.
pub proof fn law_channel_hops_cycle(channel: u8)
    requires
        ble_channel_index(channel) is Some,
    ensures
        ({
            let a = ble_next(channel)->0;
            let b = ble_next(a)->0;
            &&& ble_next(channel) is Some && ble_next(a) is Some
            &&& ble_next(b) == Some(channel)
            &&& a != channel && b != channel && a != b
            &&& ble_channel_index(a) is Some && ble_channel_index(b) is Some
        }),
{
}

/// Methods over the BLE advertising channels ([`BLE_CHANNEL`]).
pub struct BleChannels;

impl BleChannels {
    /// The index of `channel` in [`BLE_CHANNEL`], if it is there.
    pub fn index_of(channel: u8) -> (r: Option<usize>)
        ensures
            r == ble_channel_index(channel),
    {
        let mut i: usize = 0;
        while i < 3
            invariant
                i <= 3,
                forall|j: int| 0 <= j < i ==> BLE_CHANNEL@[j] != channel,
                BLE_CHANNEL@ == seq![2u8, 26, 80],
            decreases 3 - i,
        {
            if BLE_CHANNEL[i] == channel {
                return Some(i);
            }
            i = i + 1;
        }
        None
    }

    /// The channel of [`BLE_CHANNEL`] after `current` (the last is followed
    /// by the first), if `current` is one.
    pub fn increment(current: u8) -> (r: Option<u8>)
        ensures
            r == ble_next(current),
    {
        assert(BLE_CHANNEL@ == seq![2u8, 26, 80]);
        match BleChannels::index_of(current) {
            Some(index) => {
                if index < 2 {
                    Some(BLE_CHANNEL[index + 1])
                } else {
                    Some(BLE_CHANNEL[0])
                }
            },
            None => None,
        }
    }
}

/// The whitening coefficient of `channel` (see [`ble_coefficient`]).
pub fn coefficient_of(channel: u8) -> (r: u8)
    ensures
        r == ble_coefficient(channel),
{
    let i = match BleChannels::index_of(channel) {
        Some(i) => i,
        None => 0,
    };
    ((i + 37) as u8) | 0x40
}

/// The only address used by BLE.
pub const BLE_ADDRESS: [u8; 4] = [0x71, 0x91, 0x7d, 0x6b];

/// The view of [`ble_config`].
pub open spec fn ble_config_view() -> RadioConfigView {
    RadioConfigView {
        config_reg: 0,
        auto_retries: 0,
        setup_rf_aw: 0x87,
        feature: 0,
        channel: 2,
        payload_length: 32,
        auto_ack: 0,
        pipes: PipeConfigView {
            tx_address: seq![0x71u8, 0x91, 0x7d, 0x6b, 0xE7],
            pipe0: seq![0xE7u8; 5],
            pipe1: seq![0x71u8, 0x91, 0x7d, 0x6b, 0xC2],
            prefixes: seq![0xC3u8, 0xC4, 0xC5, 0xC6, 0xC7, 0xC8],
            rx_pipes_enabled: 2,
        },
    }
}

/// A configuration for talking to BLE devices: the default one on channel
/// 2, with the CRC, auto-ack and auto-retries disabled, 4 byte addresses,
/// and the BLE address on pipe 1 and for TX.
pub fn ble_config() -> (r: RadioConfig)
    ensures
        r@ == ble_config_view(),
{
    let a = BLE_ADDRESS;
    let r = RadioConfig::default().with_channel(BLE_CHANNEL[0]).with_crc_length(
        CrcLength::Disabled,
    ).with_auto_ack(0).with_auto_retries(0, 0).with_address_length(4).with_rx_address(1, &a).with_tx_address(
        &a,
    );
    proof {
        assert(((0x0Cu8 & !0x0Cu8) | 0u8) == 0u8 && ((0x0u8 << 4u8) | 0u8) == 0u8 && ((0xC7u8
            & !0xC0u8) | (((4u8 - 2u8) as u8) << 6u8)) == 0x87u8 && (2u8 | (1u8 << 1u8))
            == 2u8) by (bit_vector);
        assert(r@.pipes.pipe1 =~= seq![0x71u8, 0x91, 0x7d, 0x6b, 0xC2]);
        assert(r@.pipes.tx_address =~= seq![0x71u8, 0x91, 0x7d, 0x6b, 0xE7]);
    }
    r
}

/// A fake BLE device: it advertises through an nRF24L01 (see the
/// [module's](super) limitations). Configure the radio with
/// [`ble_config`] first.
#[derive(Clone, Copy, Debug)]
pub struct FakeBle {
    name: [u8; 12],
    /// Include the radio's PA level in advertisements (3 of the 18 bytes
    /// available).
    pub show_pa_level: bool,
    /// The device's MAC address, which BLE requires.
    pub mac_address: [u8; 6],
}

/// The abstract content of a [`FakeBle`].
pub struct FakeBleView {
    /// The name chunk: its length byte (the name's length plus 1; 0 or 1
    /// for no name), the type `0x08`, and the name's bytes.
    pub name: Seq<u8>,
    pub show_pa_level: bool,
    pub mac_address: Seq<u8>,
}

impl View for FakeBle {
    type V = FakeBleView;

    closed spec fn view(&self) -> FakeBleView {
        FakeBleView {
            name: self.name@,
            show_pa_level: self.show_pa_level,
            mac_address: self.mac_address@,
        }
    }
}

impl FakeBleView {
    /// A name chunk fits its 12 bytes, and a name is typed as one.
    pub open spec fn wf(self) -> bool {
        &&& self.name.len() == 12
        &&& self.mac_address.len() == 6
        &&& self.name[0] <= 11
        &&& self.name[0] > 0 ==> self.name[1] == 0x08
    }

    /// The name chunk that advertisements carry (none without a name).
    pub open spec fn name_chunk(self) -> Seq<u8> {
        if self.name[0] > 1 {
            self.name.take(self.name[0] + 1)
        } else {
            Seq::empty()
        }
    }
}

/// How many bytes of a name are kept: at most 10.
pub open spec fn kept_name_len(bytes: Seq<u8>) -> int {
    if bytes.len() < 10 {
        bytes.len() as int
    } else {
        10
    }
}

/// `v` renamed with (at most 10 of) `bytes`: the name chunk's length byte,
/// its type (`0x08`) and the bytes; the rest stays.
pub open spec fn named(v: FakeBleView, bytes: Seq<u8>) -> FakeBleView {
    let n = kept_name_len(bytes);
    FakeBleView { name: seq![(n + 1) as u8, 0x08u8] + bytes.take(n) + v.name.skip(n + 2), ..v }
}

/// Renaming keeps a device well formed, and its name then reads back as
/// (at most 10 of) the bytes given; an advertisement carries them in its
/// name chunk (none for an empty name).
pub proof fn law_name_round_trip(v: FakeBleView, bytes: Seq<u8>)
    requires
        v.wf(),
    ensures
        ({
            let w = named(v, bytes);
            let n = kept_name_len(bytes);
            &&& w.wf()
            &&& w.name[0] == n + 1
            &&& w.name.subrange(2, n + 2) == bytes.take(n)
            &&& w.name_chunk() == if n > 0 {
                seq![(n + 1) as u8, 0x08u8] + bytes.take(n)
            } else {
                Seq::empty()
            }
        }),
{
    let w = named(v, bytes);
    let n = kept_name_len(bytes);
    assert(w.name.subrange(2, n + 2) =~= bytes.take(n));
    if n > 0 {
        assert(w.name_chunk() =~= seq![(n + 1) as u8, 0x08u8] + bytes.take(n));
    }
}

/// The room (in bytes) that an advertisement of `v` has left after `len`
/// bytes of data: 18 bytes, less the data, the name chunk and the PA level
/// chunk (if shown).
pub open spec fn room_left(v: FakeBleView, len: int) -> int {
    18 - len - (if v.name[0] > 1 {
        v.name[0] + 1
    } else {
        0
    }) - (if v.show_pa_level {
        3int
    } else {
        0
    })
}

/// An advertisement of `buf` fits exactly when the room that
/// [`FakeBle::len_available`] reports for it is not negative: 18 bytes,
/// less `buf`, the name chunk and the PA level chunk (if shown).
pub proof fn law_fits_when_room_left(v: FakeBleView, buf: Seq<u8>, pa_level: Option<PaLevel>, channel: u8)
    requires
        v.wf(),
        pa_level is Some <==> v.show_pa_level,
    ensures
        advertisement(v, buf, pa_level, channel) is Some <==> room_left(v, buf.len() as int) >= 0,
{
    let body = ad_body(v, buf, pa_level);
    let pa_chunk = match pa_level {
        Some(l) => seq![2u8, 0x0Au8, pa_level_dbm(l) as u8],
        None => Seq::<u8>::empty(),
    };
    let len = buf.len() + 9 + pa_chunk.len() + v.name_chunk().len();
    assert(body =~= seq![0x42u8, len as u8] + v.mac_address + seq![2u8, 1u8, 5u8] + pa_chunk + v.name_chunk() + buf);
    assert(body.len() == 11 + pa_chunk.len() + v.name_chunk().len() + buf.len());
}

/// The transmit power (in dBm) of a PA level, as advertised.
pub open spec fn pa_level_dbm(level: PaLevel) -> i8 {
    match level {
        PaLevel::Min => -18i8,
        PaLevel::Low => -12i8,
        PaLevel::High => -6i8,
        PaLevel::Max => 0i8,
    }
}

/// The bytes of an advertisement before its CRC: flags `0x42`, the length
/// of what follows up to the CRC, the MAC address, the profile flags
/// `[2, 1, 5]`, the PA level chunk (if given), the name chunk, and `buf`.
pub open spec fn ad_body(v: FakeBleView, buf: Seq<u8>, pa_level: Option<PaLevel>) -> Seq<u8> {
    let pa_chunk = match pa_level {
        Some(l) => seq![2u8, 0x0Au8, pa_level_dbm(l) as u8],
        None => Seq::<u8>::empty(),
    };
    let len = buf.len() + 9 + pa_chunk.len() + v.name_chunk().len();
    seq![0x42u8, len as u8] + v.mac_address + seq![2u8, 1u8, 5u8] + pa_chunk + v.name_chunk() + buf
}

/// The advertisement (32 bytes) that carries `buf` on `channel`: its body
/// and CRC24, whitened for the channel, each byte's bits reversed, zero
/// padded. `None` if body and CRC exceed 32 bytes.
pub open spec fn advertisement(v: FakeBleView, buf: Seq<u8>, pa_level: Option<PaLevel>, channel: u8) -> Option<
    Seq<u8>,
> {
    let body = ad_body(v, buf, pa_level);
    if body.len() > 29 {
        None
    } else {
        let coded = reversed_all(whitened(body + crc24(body), ble_coefficient(channel)));
        Some(coded + zeros(32 - coded.len()))
    }
}

/// The state of the radio and exchange where [`FakeBle::send`] sends: after
/// reading the PA level (if shown) and the channel.
pub open spec fn ble_send_prefix_run(v: FakeBleView, s: Rf24View, h: History, c: int) -> Run {
    (if v.show_pa_level {
        read_run(s, h, c, RF_SETUP, 1)
    } else {
        done(s, c)
    }).and_then(|s1: Rf24View, c1: int| read_run(s1, h, c1, RF_CH, 1))
}

/// The PA level that [`FakeBle::send`] reads, if shown.
pub open spec fn ble_send_pa(v: FakeBleView, h: History, c: int) -> Option<PaLevel> {
    if v.show_pa_level {
        Some(pa_level_of(reply(h, c)[1] & PA_LEVEL_MASK))
    } else {
        None
    }
}

/// The channel that [`FakeBle::send`] reads.
pub open spec fn ble_send_channel(v: FakeBleView, h: History, c: int) -> u8 {
    reply(
        h,
        if v.show_pa_level {
            c + 1
        } else {
            c
        },
    )[1]
}

/// How [`FakeBle::hop_channel`] runs: it reads the channel and, if it is a
/// BLE channel, sets the next one.
pub open spec fn hop_channel_run(s: Rf24View, h: History, c: int) -> Run {
    read_run(s, h, c, RF_CH, 1).and_then(
        |s1: Rf24View, c1: int|
            match ble_next(reply(h, c)[1]) {
                Some(next) => set_channel_run(s1, h, c1, next),
                None => done(s1, c1),
            },
    )
}

/// Append the first `n` bytes of `src` to `v`.
fn push_all(v: &mut Vec<u8>, src: &[u8], n: usize)
    requires
        n <= src@.len(),
    ensures
        final(v)@ == old(v)@ + src@.take(n as int),
{
    let mut i: usize = 0;
    while i < n
        invariant
            i <= n <= src@.len(),
            v@ == old(v)@ + src@.take(i as int),
        decreases n - i,
    {
        v.push(src[i]);
        i = i + 1;
        assert(v@ =~= old(v)@ + src@.take(i as int));
    }
}

impl FakeBle {
    /// A device with no name, not showing its PA level, with the MAC address
    /// `nRF24L` (in ASCII).
    pub fn new() -> (r: FakeBle)
        ensures
            r@ == (FakeBleView {
                name: seq![0u8; 12],
                show_pa_level: false,
                mac_address: seq![0x6Eu8, 0x52, 0x46, 0x32, 0x34, 0x4C],
            }),
    {
        let r = FakeBle {
            name: [0u8; 12],
            show_pa_level: false,
            mac_address: [0x6E, 0x52, 0x46, 0x32, 0x34, 0x4C],
        };
        assert(r@.name =~= seq![0u8; 12]);
        assert(r@.mac_address =~= seq![0x6Eu8, 0x52, 0x46, 0x32, 0x34, 0x4C]);
        r
    }

    /// Show the radio's PA level in advertisements, or not.
    pub fn set_show_pa_level(&mut self, show: bool)
        ensures
            final(self)@ == (FakeBleView { show_pa_level: show, ..old(self)@ }),
    {
        self.show_pa_level = show;
    }

    /// Set the device's MAC address.
    pub fn set_mac_address(&mut self, address: [u8; 6])
        ensures
            final(self)@ == (FakeBleView { mac_address: address@, ..old(self)@ }),
    {
        self.mac_address = address;
    }

    /// Set the device name that advertisements carry: at most 10 bytes of
    /// `name` are kept, and they take that many bytes plus 2 of an
    /// advertisement.
    pub fn set_name(&mut self, name: &str)
        ensures
            final(self)@ == named(old(self)@, name.spec_bytes()),
    {
        let bytes = name.as_bytes();
        let n = if bytes.len() < 10 {
            bytes.len()
        } else {
            10
        };
        let mut i: usize = 0;
        while i < n
            invariant
                i <= n <= 10,
                n <= bytes@.len(),
                self.name@.len() == 12,
                forall|x: int| 0 <= x < i ==> self.name@[x + 2] == bytes@[x],
                forall|x: int| 0 <= x < 12 && !(2 <= x < i + 2) ==> self.name@[x] == old(self)@.name[x],
                self.show_pa_level == old(self)@.show_pa_level,
                self.mac_address@ == old(self)@.mac_address,
            decreases n - i,
        {
            self.name[i + 2] = bytes[i];
            i = i + 1;
        }
        self.name[0] = n as u8 + 1;
        self.name[1] = 0x08;
        assert(self.name@ =~= seq![(n + 1) as u8, 0x08u8] + bytes@.take(n as int) + old(self)@.name.skip(
            n + 2,
        ));
    }

    /// Copy the device name into `name` (as much of it as fits); the result
    /// is the number of bytes copied (0 without a name).
    pub fn get_name(&self, name: &mut [u8]) -> (r: u8)
        requires
            self@.wf(),
        ensures
            ({
                let len = self@.name[0];
                let n = if len - 1 < old(name)@.len() {
                    len - 1
                } else {
                    old(name)@.len() as int
                };
                &&& len > 1 ==> r == n && final(name)@ == self@.name.subrange(2, n + 2) + old(name)@.skip(n)
                &&& len <= 1 ==> r == 0 && final(name)@ == old(name)@
            }),
    {
        let len = self.name[0];
        if len > 1 {
            let n = if (len as usize - 1) < name.len() {
                len as usize - 1
            } else {
                name.len()
            };
            let mut i: usize = 0;
            while i < n
                invariant
                    i <= n <= 10,
                    n <= name@.len(),
                    name@.len() == old(name)@.len(),
                    self@.wf(),
                    forall|x: int| 0 <= x < i ==> name@[x] == self@.name[x + 2],
                    forall|x: int| i <= x < name@.len() ==> name@[x] == old(name)@[x],
                decreases n - i,
            {
                name[i] = self.name[i + 2];
                i = i + 1;
            }
            assert(name@ =~= self@.name.subrange(2, n + 2) + old(name)@.skip(n as int));
            return n as u8;
        }
        0
    }

    /// How many bytes an advertisement has left after `hypothetical` (the
    /// data to send), the name and the PA level (see [`room_left`]; at
    /// least -128); a negative number means that `hypothetical` does not
    /// fit.
    pub fn len_available(&self, hypothetical: &[u8]) -> (r: i8)
        requires
            self@.wf(),
        ensures
            r == if room_left(self@, hypothetical@.len() as int) < -128 {
                -128
            } else {
                room_left(self@, hypothetical@.len() as int)
            },
            forall|pa_level: Option<PaLevel>, channel: u8|
                (pa_level is Some <==> self@.show_pa_level) ==> (r < 0 <==> #[trigger] advertisement(
                    self@,
                    hypothetical@,
                    pa_level,
                    channel,
                ) is None),
    {
        let len = hypothetical.len();
        let mut used: usize = 0;
        let name_len = self.name[0];
        if name_len > 1 {
            used = name_len as usize + 1;
        }
        if self.show_pa_level {
            used = used + 3;
        }
        let result: i8 = if len > 146 {
            -128
        } else {
            let room: i32 = 18 - (len as i32) - (used as i32);
            if room < -128 {
                -128
            } else {
                room as i8
            }
        };
        proof {
            assert forall|pa_level: Option<PaLevel>, channel: u8|
                (pa_level is Some <==> self@.show_pa_level) implies (result < 0
                    <==> #[trigger] advertisement(self@, hypothetical@, pa_level, channel) is None) by {
                law_fits_when_room_left(self@, hypothetical@, pa_level, channel);
            }
        }
        result
    }

    /// Move the radio to the next BLE channel, if it is on one (see
    /// [`hop_channel_run`]).
    pub fn hop_channel(&self, radio: &mut Rf24, t: &mut Transcript) -> (r: Result<(), Stop>)
        ensures
            advanced(r, old(t)@, final(t)@),
            no_fail(r),
            ran(r, final(t)@, final(radio)@, hop_channel_run(old(radio)@, old(t)@.history, old(t)@.cursor)),
    {
        proof {
            reveal_with_fuel(crate::rf24::replayed, 2);
        }
        let channel = radio.get_channel(t)?;
        match BleChannels::increment(channel) {
            Some(next) => radio.set_channel(t, next),
            None => Ok(()),
        }
    }

    /// The bytes of [`ad_body`].
    fn ad_body_bytes(&self, buf: &[u8], pa_level: Option<PaLevel>, payload_length: u8, name_len: usize) -> (r: Vec<u8>)
        requires
            self@.wf(),
            name_len == self@.name_chunk().len(),
            payload_length == buf@.len() + 9 + (if pa_level is Some { 3int } else { 0 }) + name_len,
        ensures
            r@ == ad_body(self@, buf@, pa_level),
    {
        let mut body: Vec<u8> = Vec::new();
        body.push(0x42);
        body.push(payload_length);
        let mac = self.mac_address;
        push_all(&mut body, &mac, 6);
        body.push(2);
        body.push(1);
        body.push(5);
        match pa_level {
            Some(l) => {
                let dbm: i8 = match l {
                    PaLevel::Min => -18,
                    PaLevel::Low => -12,
                    PaLevel::High => -6,
                    PaLevel::Max => 0,
                };
                body.push(2);
                body.push(0x0A);
                body.push(dbm as u8);
            },
            None => {},
        }
        let name = self.name;
        push_all(&mut body, &name, name_len);
        push_all(&mut body, buf, buf.len());
        proof {
            assert(mac@.take(6) =~= self@.mac_address);
            assert(name@.take(name_len as int) =~= self@.name_chunk());
            assert(buf@.take(buf@.len() as int) =~= buf@);
            assert(body@ =~= ad_body(self@, buf@, pa_level));
        }
        body
    }

    /// The advertisement that carries `buf` on `channel` (see
    /// [`advertisement`]), or `None` if it does not fit in 32 bytes.
    pub fn make_payload(&self, buf: &[u8], pa_level: Option<PaLevel>, channel: u8) -> (r: Option<
        [u8; 32],
    >)
        requires
            self@.wf(),
        ensures
            match r {
                Some(q) => advertisement(self@, buf@, pa_level, channel) == Some(q@),
                None => advertisement(self@, buf@, pa_level, channel) is None,
            },
    {
        if buf.len() > 27 {
            return None;
        }
        let pa_len: usize = if pa_level.is_some() {
            3
        } else {
            0
        };
        let name_len: usize = if self.name[0] > 1 {
            self.name[0] as usize + 1
        } else {
            0
        };
        let payload_length = buf.len() + 9 + pa_len + name_len;
        if payload_length > 27 {
            return None;
        }
        let body = self.ad_body_bytes(buf, pa_level, payload_length as u8, name_len);
        let crc = crc24_ble(body.as_slice());
        let n = body.len();
        let mut q = [0u8; 32];
        let mut i: usize = 0;
        while i < n
            invariant
                i <= n == body@.len() <= 29,
                q@.len() == 32,
                forall|x: int| 0 <= x < i ==> q@[x] == body@[x],
                forall|x: int| i <= x < 32 ==> q@[x] == 0,
            decreases n - i,
        {
            q[i] = body[i];
            i = i + 1;
        }
        q[n] = crc[0];
        q[n + 1] = crc[1];
        q[n + 2] = crc[2];
        let ghost framed = body@ + crc@;
        assert(q@ =~= framed + zeros(32 - framed.len()));
        let coef = coefficient_of(channel);
        whiten_first(&mut q, n + 3, coef);
        reverse_first(&mut q, n + 3);
        proof {
            assert((framed + zeros(32 - framed.len())).take(framed.len() as int) =~= framed);
            assert((framed + zeros(32 - framed.len())).skip(framed.len() as int) =~= zeros(
                32 - framed.len(),
            ));
            assert(whitened(framed, coef).take(framed.len() as int) =~= whitened(framed, coef));
            assert((whitened(framed, coef) + zeros(32 - framed.len())).skip(framed.len() as int)
                =~= zeros(32 - framed.len()));
        }
        Some(q)
    }

    /// Advertise `buf` (see [`advertisement`]): after reading the PA level
    /// (if shown) and the channel, the advertisement is sent with
    /// [`Rf24::send`]; `Ok(false)` if it does not fit.
    pub fn send(&self, radio: &mut Rf24, t: &mut Transcript, buf: &[u8]) -> (r: Result<bool, Stop>)
        requires
            self@.wf(),
            old(radio)@.wf(),
        ensures
            advanced(r, old(t)@, final(t)@),
            ({
                let (h, c, s) = (old(t)@.history, old(t)@.cursor, old(radio)@);
                let pre = ble_send_prefix_run(self@, s, h, c);
                let ad = advertisement(self@, buf@, ble_send_pa(self@, h, c), ble_send_channel(self@, h, c));
                &&& !pre.ok ==> stopped(r) && (r matches Err(Stop::Suspend) ==> final(t)@.pending
                    == Some(pre.asked))
                &&& pre.ok && ad is None ==> r == Ok::<bool, Stop>(false) && final(t)@.cursor == pre.end
                    && final(radio)@ == pre.state
                &&& pre.ok && ad is Some ==> send_went(
                    r,
                    final(t)@,
                    final(radio)@,
                    pre.state,
                    h,
                    pre.end,
                    ad->0,
                    false,
                )
            }),
    {
        proof {
            reveal_with_fuel(crate::rf24::replayed, 2);
        }
        let pa_level = if self.show_pa_level {
            Some(radio.get_pa_level(t)?)
        } else {
            None
        };
        let channel = radio.get_channel(t)?;
        match self.make_payload(buf, pa_level, channel) {
            Some(q) => radio.send(t, &q, false),
            None => Ok(false),
        }
    }

    /// Read the next payload of the RX FIFO (32 bytes) and decode it as an
    /// advertisement received on the radio's channel (see [`ble_decode`]);
    /// `None` if it is malformed or incomplete. The radio must still be on
    /// the channel that received it.
    pub fn read(&self, radio: &mut Rf24, t: &mut Transcript) -> (r: Result<Option<BlePayload>, Stop>)
        ensures
            advanced(r, old(t)@, final(t)@),
            no_fail(r) || failed(r, Nrf24Error::BinaryCorruption),
            ({
                let (h, c, s) = (old(t)@.history, old(t)@.cursor, old(radio)@);
                let pre = read_width_run(s, h, c);
                let rr = read_payload_run(s, h, c, 32, Some(32u8));
                let run = rr.and_then(|s1: Rf24View, c1: int| read_run(s1, h, c1, RF_CH, 1));
                &&& failed(r, Nrf24Error::BinaryCorruption) <==> read_corrupt(s, h, c)
                &&& read_corrupt(s, h, c) ==> final(t)@.cursor == pre.end && final(radio)@ == pre.state
                &&& !read_corrupt(s, h, c) ==> ran(r, final(t)@, final(radio)@, run)
                &&& r is Ok ==> BlePayload::opt_view(r->Ok_0) == ble_decode(
                    reply(h, pre.end).subrange(1, 33),
                    reply(h, rr.end)[1],
                )
            }),
    {
        proof {
            reveal_with_fuel(crate::rf24::replayed, 2);
        }
        let mut buf = [0u8; 32];
        let n = radio.read(t, &mut buf, Some(32))?;
        let channel = radio.get_channel(t)?;
        Ok(BlePayload::from_bytes(&mut buf, channel))
    }
}

impl Default for FakeBle {
    fn default() -> (r: FakeBle)
        ensures
            r@ == (FakeBleView {
                name: seq![0u8; 12],
                show_pa_level: false,
                mac_address: seq![0x6Eu8, 0x52, 0x46, 0x32, 0x34, 0x4C],
            }),
    {
        FakeBle::new()
    }
}

} // verus!
