//! What comes back of BLE data: what a receiver decodes of an
//! advertisement that [`FakeBle`] made, and what a [`UrlService`] gives
//! back of the URL it was set to.
//!
//! [`FakeBle`]: super::radio::FakeBle
//! [`UrlService`]: super::services::UrlService
use vstd::prelude::*;

use super::data::{byte_coef, crc24, lemma_reversed_twice, lemma_xor, reversed_all, white_mask, whitened};
use super::radio::{ad_body, advertisement, ble_coefficient, pa_level_dbm, FakeBleView};
use super::services::{
    ble_chunks, ble_decode, ble_decoded, ble_parse, chunk_update, padded, prefix_index, starts,
    suffix_index, url_encoding, url_piece, url_pieces, url_prefix, url_state, url_suffix,
    url_text, BlePayloadView, BATTERY_UUID, EDDYSTONE_UUID, TEMPERATURE_UUID,
};
use crate::rf24::zeros;
use crate::types::PaLevel;

verus! {

/// The bytes of an advertisement before reversal and whitening: its body,
/// then the CRC24 of the body.
pub open spec fn framed(v: FakeBleView, buf: Seq<u8>, pa_level: Option<PaLevel>) -> Seq<u8> {
    ad_body(v, buf, pa_level) + crc24(ad_body(v, buf, pa_level))
}

/// A received advertisement, decoded on the channel it was sent on, starts
/// with the bytes that were framed, and is 32 bytes long.
proof fn lemma_decoded_framed(v: FakeBleView, buf: Seq<u8>, pa_level: Option<PaLevel>, channel: u8)
    requires
        advertisement(v, buf, pa_level, channel) is Some,
    ensures
        ({
            let d = ble_decoded(advertisement(v, buf, pa_level, channel)->0, channel);
            let f = framed(v, buf, pa_level);
            &&& d.len() == 32
            &&& f.len() <= 32
            &&& forall|i: int| 0 <= i < f.len() ==> #[trigger] d[i] == f[i]
        }),
{
    let f = framed(v, buf, pa_level);
    let coef = ble_coefficient(channel);
    let w = whitened(f, coef);
    let coded = reversed_all(w);
    let q = coded + zeros(32 - coded.len());
    assert(advertisement(v, buf, pa_level, channel)->0 == q);
    let r = reversed_all(q);
    let d = whitened(r, coef);
    assert forall|i: int| 0 <= i < f.len() implies #[trigger] d[i] == f[i] by {
        lemma_reversed_twice(w[i]);
        assert(q[i] == coded[i]);
        assert(r[i] == w[i]);
        lemma_xor(f[i], white_mask(byte_coef(coef, i as nat), 8), 0);
    }
}

/// Decoding the chunks of an advertisement never changes the MAC address
/// it started from.
proof fn lemma_chunks_keep_mac(d: Seq<u8>, len: int, index: int, acc: BlePayloadView)
    ensures
        ble_chunks(d, len, index, acc) matches Some(a) ==> a.mac_address == acc.mac_address,
    decreases (if index < len {
        len - index
    } else {
        0
    }),
{
    if index >= len || index < 0 || index + 3 >= d.len() {
    } else if d[index] == 0 {
    } else {
        match chunk_update(d, index, acc) {
            None => {},
            Some(a) => {
                lemma_chunks_keep_mac(d, len, index + d[index] + 1, a);
            },
        }
    }
}

/// A received advertisement, de-whitened and bit-reversed on the channel
/// that sent it, gives back its body and CRC; and whatever decodes from it
/// carries the sender's MAC address.
pub proof fn law_advertisement_decodes(v: FakeBleView, buf: Seq<u8>, pa_level: Option<PaLevel>, channel: u8)
    requires
        v.wf(),
        advertisement(v, buf, pa_level, channel) is Some,
    ensures
        ({
            let q = advertisement(v, buf, pa_level, channel)->0;
            let f = framed(v, buf, pa_level);
            &&& ble_decoded(q, channel).take(f.len() as int) == f
            &&& ble_decode(q, channel) matches Some(p) ==> p.mac_address == v.mac_address
        }),
{
    let q = advertisement(v, buf, pa_level, channel)->0;
    let f = framed(v, buf, pa_level);
    let body = ad_body(v, buf, pa_level);
    let d = ble_decoded(q, channel);
    lemma_decoded_framed(v, buf, pa_level, channel);
    assert(d.take(f.len() as int) =~= f);
    let len = body.len() as int;
    assert(d[1] == body[1]);
    assert forall|i: int| 2 <= i < 8 implies d[i] == v.mac_address[i - 2] by {
        assert(d[i] == f[i]);
        assert(f[i] == body[i]);
    }
    let init = BlePayloadView {
        mac_address: d.subrange(2, 8),
        short_name: None,
        tx_power: None,
        battery_charge: None,
        url: None,
        temperature: None,
    };
    assert(d.subrange(2, 8) =~= v.mac_address);
    lemma_chunks_keep_mac(d, d[1] + 2, 8, init);
}

/// The name that a receiver decodes of `v`'s name chunk: its bytes, zero
/// padded to 10; none without a name.
pub open spec fn decoded_name(v: FakeBleView) -> Option<Seq<u8>> {
    if v.name[0] > 1 {
        Some(v.name.subrange(2, v.name[0] + 1) + zeros(11 - v.name[0]))
    } else {
        None
    }
}

/// The transmit power that a receiver decodes of an advertised PA level.
pub open spec fn decoded_tx_power(pa_level: Option<PaLevel>) -> Option<i8> {
    match pa_level {
        Some(l) => Some(pa_level_dbm(l)),
        None => None,
    }
}

/// The flags chunk (`[2, 1, ..]`) at 8 changes nothing.
proof fn lemma_flags_chunk(d: Seq<u8>, len: int, acc: BlePayloadView)
    requires
        d[8] == 2,
        d[9] == 1,
        8 < len,
        11 < d.len(),
    ensures
        ble_chunks(d, len, 8, acc) == ble_chunks(d, len, 11, acc),
{
    assert(chunk_update(d, 8, acc) == Some(acc));
}

/// A transmit power chunk (`[2, 0x0A, x]`) at 11 gives the power `x`.
proof fn lemma_tx_power_chunk(d: Seq<u8>, len: int, acc: BlePayloadView, x: i8)
    requires
        d[11] == 2,
        d[12] == 0x0A,
        d[13] == x as u8,
        11 < len,
        14 < d.len(),
    ensures
        ble_chunks(d, len, 11, acc) == ble_chunks(d, len, 14, BlePayloadView { tx_power: Some(x), ..acc }),
{
    assert((x as u8) as i8 == x) by (bit_vector);
    assert(chunk_update(d, 11, acc) == Some(BlePayloadView { tx_power: Some(x), ..acc }));
}

/// A name chunk of `n` bytes at `k` gives the name, zero padded to 10
/// bytes.
proof fn lemma_name_chunk(d: Seq<u8>, len: int, k: int, acc: BlePayloadView, name: Seq<u8>)
    requires
        1 <= name.len() <= 10,
        8 <= k,
        d[k] == name.len() + 1,
        d[k + 1] == 0x08,
        k + name.len() + 2 <= len,
        len + 3 <= d.len(),
        d.subrange(k + 2, k + 2 + name.len()) == name,
    ensures
        ble_chunks(d, len, k, acc) == ble_chunks(
            d,
            len,
            k + name.len() + 2,
            BlePayloadView { short_name: Some(name + zeros(10 - name.len())), ..acc },
        ),
{
    let next = BlePayloadView { short_name: Some(name + zeros(10 - name.len())), ..acc };
    assert(chunk_update(d, k, acc) == Some(next));
}

/// The UUID of the service that the chunk `svc` holds.
pub open spec fn service_uuid(svc: Seq<u8>) -> int {
    svc[2] + svc[3] * 256
}

/// `svc` is one chunk of service data (type `0x16`), long enough for the
/// service that its UUID names.
pub open spec fn service_chunk(svc: Seq<u8>) -> bool {
    &&& 4 <= svc.len()
    &&& svc[0] == svc.len() - 1
    &&& svc[1] == 0x16
    &&& service_uuid(svc) == BATTERY_UUID ==> svc.len() >= 5
    &&& service_uuid(svc) == TEMPERATURE_UUID ==> svc.len() >= 8
}

/// `p` with the service that the chunk `svc` holds: a battery level, a
/// temperature or a URL (zero padded to 18 bytes); a service of another
/// UUID is ignored.
pub open spec fn with_service(p: BlePayloadView, svc: Seq<u8>) -> BlePayloadView {
    let id = service_uuid(svc);
    if id == BATTERY_UUID {
        BlePayloadView { battery_charge: Some(svc.take(5)), ..p }
    } else if id == TEMPERATURE_UUID {
        BlePayloadView { temperature: Some(svc.take(8)), ..p }
    } else if id == EDDYSTONE_UUID {
        BlePayloadView {
            url: Some(padded(svc, if svc.len() < 18 { svc.len() as int } else { 18 }, 18)),
            ..p
        }
    } else {
        p
    }
}

/// A service chunk at `k` that ends the chunks gives its service.
proof fn lemma_service_chunk(d: Seq<u8>, len: int, k: int, acc: BlePayloadView, svc: Seq<u8>)
    requires
        service_chunk(svc),
        8 <= k,
        k + svc.len() == len,
        len + 3 <= d.len(),
        d.subrange(k, len) == svc,
    ensures
        ble_chunks(d, len, k, acc) == Some(with_service(acc, svc)),
{
    assert(d[k] == svc[0] && d[k + 1] == svc[1] && d[k + 2] == svc[2] && d[k + 3] == svc[3]);
    assert(d.subrange(k, k + 5) =~= svc.take(5) || svc.len() < 5);
    assert(d.subrange(k, k + 8) =~= svc.take(8) || svc.len() < 8);
    assert(chunk_update(d, k, acc) == Some(with_service(acc, svc)));
    assert(ble_chunks(d, len, k, acc) == ble_chunks(d, len, len, with_service(acc, svc)));
}

/// The facts about the body of an advertisement that decoding it rests
/// on: where its MAC address and its chunks lie.
proof fn lemma_body(v: FakeBleView, buf: Seq<u8>, pa_level: Option<PaLevel>)
    requires
        v.wf(),
        ad_body(v, buf, pa_level).len() <= 29,
    ensures
        ({
            let body = ad_body(v, buf, pa_level);
            let k: int = if pa_level is Some { 14 } else { 11 };
            let nc = v.name_chunk();
            &&& body.len() == k + nc.len() + buf.len()
            &&& body[1] == body.len() - 2
            &&& body.subrange(2, 8) == v.mac_address
            &&& body[8] == 2 && body[9] == 1
            &&& pa_level matches Some(l) ==> body[11] == 2 && body[12] == 0x0A && body[13] == pa_level_dbm(l) as u8
            &&& nc.len() == if v.name[0] > 1 { v.name[0] + 1 } else { 0 }
            &&& v.name[0] > 1 ==> body[k] == v.name[0] && body[k + 1] == 0x08
                && body.subrange(k + 2, k + nc.len()) == v.name.subrange(2, v.name[0] + 1)
            &&& body.subrange(k + nc.len(), body.len() as int) == buf
        }),
{
    let body = ad_body(v, buf, pa_level);
    let pa_chunk = match pa_level {
        Some(l) => seq![2u8, 0x0Au8, pa_level_dbm(l) as u8],
        None => Seq::<u8>::empty(),
    };
    let nc = v.name_chunk();
    let len = body.len() as int;
    let head = seq![0x42u8, (len - 2) as u8] + v.mac_address + seq![2u8, 1u8, 5u8];
    assert(body =~= head + pa_chunk + nc + buf);
    let k: int = if pa_level is Some { 14 } else { 11 };
    assert(body.subrange(2, 8) =~= v.mac_address);
    if v.name[0] > 1 {
        assert(nc =~= v.name.take(v.name[0] + 1));
        assert(body.subrange(k + 2, k + nc.len()) =~= v.name.subrange(2, v.name[0] + 1));
    }
    assert(body.subrange(k + nc.len(), len) =~= buf);
}

/// The decoded bytes `d` whose first `len + 3` are a body and its CRC hold
/// the chunks from 8 up to `len`, decoded from the MAC address.
proof fn lemma_parse_start(d: Seq<u8>, len: int)
    requires
        d.len() == 32,
        11 <= len <= 29,
        d[1] == len - 2,
        d.subrange(len, len + 3) == crc24(d.take(len)),
    ensures
        ble_parse(d) == ble_chunks(
            d,
            len,
            8,
            BlePayloadView {
                mac_address: d.subrange(2, 8),
                short_name: None,
                tx_power: None,
                battery_charge: None,
                url: None,
                temperature: None,
            },
        ),
{
}

/// The flags, PA level and name chunks at the start of decoded bytes `d`
/// (up to `k`) give the PA level and the name of `v`.
proof fn lemma_walk_header(d: Seq<u8>, len: int, v: FakeBleView, pa_level: Option<PaLevel>, k: int)
    requires
        v.wf(),
        d.len() == 32,
        len + 3 <= 32,
        d[8] == 2 && d[9] == 1,
        pa_level matches Some(l) ==> d[11] == 2 && d[12] == 0x0A && d[13] == pa_level_dbm(l) as u8,
        k == (if pa_level is Some { 14int } else { 11 }) + (if v.name[0] > 1 { v.name[0] + 1 } else { 0int }),
        k <= len,
        v.name[0] > 1 ==> ({
            let k0: int = if pa_level is Some { 14 } else { 11 };
            d[k0] == v.name[0] && d[k0 + 1] == 0x08 && d.subrange(k0 + 2, k) == v.name.subrange(
                2,
                v.name[0] + 1,
            )
        }),
    ensures
        ({
            let init = BlePayloadView {
                mac_address: d.subrange(2, 8),
                short_name: None,
                tx_power: None,
                battery_charge: None,
                url: None,
                temperature: None,
            };
            ble_chunks(d, len, 8, init) == ble_chunks(
                d,
                len,
                k,
                BlePayloadView {
                    short_name: decoded_name(v),
                    tx_power: decoded_tx_power(pa_level),
                    ..init
                },
            )
        }),
{
    let init = BlePayloadView {
        mac_address: d.subrange(2, 8),
        short_name: None,
        tx_power: None,
        battery_charge: None,
        url: None,
        temperature: None,
    };
    lemma_flags_chunk(d, len, init);
    let after_pa = BlePayloadView { tx_power: decoded_tx_power(pa_level), ..init };
    let k0: int = if pa_level is Some { 14 } else { 11 };
    if pa_level is Some {
        lemma_tx_power_chunk(d, len, init, pa_level_dbm(pa_level->0));
    }
    if v.name[0] > 1 {
        let name = v.name.subrange(2, v.name[0] + 1);
        lemma_name_chunk(d, len, k0, after_pa, name);
    }
}

/// Decoded bytes that agree with a body and its CRC on their length start
/// with them.
proof fn lemma_agree(d: Seq<u8>, body: Seq<u8>, crc: Seq<u8>)
    requires
        crc.len() == 3,
        body.len() + 3 <= d.len(),
        forall|i: int| 0 <= i < (body + crc).len() ==> #[trigger] d[i] == (body + crc)[i],
    ensures
        d.take(body.len() as int) == body,
        d.subrange(body.len() as int, body.len() + 3int) == crc,
{
    let f = body + crc;
    let len = body.len() as int;
    assert forall|i: int| 0 <= i < len implies d.take(len)[i] == body[i] by {
        assert(d[i] == f[i]);
    }
    assert(d.take(len) =~= body);
    assert forall|i: int| 0 <= i < 3 implies d.subrange(len, len + 3)[i] == crc[i] by {
        assert(d[len + i] == f[len + i]);
    }
    assert(d.subrange(len, len + 3) =~= crc);
}

/// Decoded bytes that start with an advertisement's body (with the facts
/// of [`lemma_body`]) and its CRC hold the MAC address, PA level and name
/// of `v`, then the chunks of `buf`.
proof fn lemma_decode_body(
    d: Seq<u8>,
    body: Seq<u8>,
    v: FakeBleView,
    buf: Seq<u8>,
    pa_level: Option<PaLevel>,
    k: int,
)
    requires
        v.wf(),
        d.len() == 32,
        body.len() + 3 <= 32,
        d.take(body.len() as int) == body,
        d.subrange(body.len() as int, body.len() + 3int) == crc24(body),
        k == (if pa_level is Some { 14int } else { 11 }) + (if v.name[0] > 1 { v.name[0] + 1 } else { 0int }),
        body.len() == k + buf.len(),
        body[1] == body.len() - 2,
        body.subrange(2, 8) == v.mac_address,
        body[8] == 2 && body[9] == 1,
        pa_level matches Some(l) ==> body[11] == 2 && body[12] == 0x0A && body[13] == pa_level_dbm(l) as u8,
        v.name[0] > 1 ==> ({
            let k0: int = if pa_level is Some { 14 } else { 11 };
            body[k0] == v.name[0] && body[k0 + 1] == 0x08 && body.subrange(k0 + 2, k) == v.name.subrange(
                2,
                v.name[0] + 1,
            )
        }),
        body.subrange(k, body.len() as int) == buf,
    ensures
        d.subrange(k, body.len() as int) == buf,
        ble_parse(d) == ble_chunks(
            d,
            body.len() as int,
            k,
            BlePayloadView {
                mac_address: v.mac_address,
                short_name: decoded_name(v),
                tx_power: decoded_tx_power(pa_level),
                battery_charge: None,
                url: None,
                temperature: None,
            },
        ),
{
    let len = body.len() as int;
    let k0: int = if pa_level is Some { 14 } else { 11 };
    assert(d.take(len)[1] == d[1]);
    assert(d.take(len)[8] == d[8] && d.take(len)[9] == d[9]);
    if pa_level is Some {
        assert(d.take(len)[11] == d[11] && d.take(len)[12] == d[12] && d.take(len)[13] == d[13]);
    }
    if v.name[0] > 1 {
        assert(d.take(len)[k0] == d[k0] && d.take(len)[k0 + 1] == d[k0 + 1]);
        assert(d.subrange(k0 + 2, k) =~= body.subrange(k0 + 2, k));
    }
    assert(d.subrange(2, 8) =~= body.subrange(2, 8));
    assert(d.subrange(k, len) =~= body.subrange(k, len));
    lemma_parse_start(d, len);
    lemma_walk_header(d, len, v, pa_level, k);
}

/// How a receiver starts decoding an advertisement: its bytes from 8 on up
/// to the CRC are chunks, decoded from the sender's MAC address, the
/// flags, PA level and name chunks, and then those of `buf`.
proof fn lemma_decode_advertisement(v: FakeBleView, buf: Seq<u8>, pa_level: Option<PaLevel>, channel: u8)
    requires
        v.wf(),
        advertisement(v, buf, pa_level, channel) is Some,
    ensures
        ({
            let d = ble_decoded(advertisement(v, buf, pa_level, channel)->0, channel);
            let len = ad_body(v, buf, pa_level).len() as int;
            let k = (if pa_level is Some { 14int } else { 11 }) + v.name_chunk().len();
            let bare = BlePayloadView {
                mac_address: v.mac_address,
                short_name: decoded_name(v),
                tx_power: decoded_tx_power(pa_level),
                battery_charge: None,
                url: None,
                temperature: None,
            };
            &&& d.len() == 32
            &&& len + 3 <= 32
            &&& d.subrange(k, len) == buf
            &&& ble_decode(advertisement(v, buf, pa_level, channel)->0, channel) == ble_chunks(
                d,
                len,
                k,
                bare,
            )
        }),
{
    let body = ad_body(v, buf, pa_level);
    lemma_body(v, buf, pa_level);
    let q = advertisement(v, buf, pa_level, channel)->0;
    let d = ble_decoded(q, channel);
    lemma_decoded_framed(v, buf, pa_level, channel);
    lemma_agree(d, body, crc24(body));
    let k = (if pa_level is Some { 14int } else { 11 }) + v.name_chunk().len();
    lemma_decode_body(d, body, v, buf, pa_level, k);
}

/// An advertisement that carries no service data always fits, and a
/// receiver on its channel decodes from it the sender's MAC address, its
/// name (if it has one) and its PA level (if shown), and nothing else.
pub proof fn law_bare_advertisement_decodes(v: FakeBleView, pa_level: Option<PaLevel>, channel: u8)
    requires
        v.wf(),
    ensures
        advertisement(v, Seq::empty(), pa_level, channel) is Some,
        ble_decode(advertisement(v, Seq::empty(), pa_level, channel)->0, channel) == Some(
            BlePayloadView {
                mac_address: v.mac_address,
                short_name: decoded_name(v),
                tx_power: decoded_tx_power(pa_level),
                battery_charge: None,
                url: None,
                temperature: None,
            },
        ),
{
    let buf = Seq::<u8>::empty();
    let pa_chunk = match pa_level {
        Some(l) => seq![2u8, 0x0Au8, pa_level_dbm(l) as u8],
        None => Seq::<u8>::empty(),
    };
    assert(ad_body(v, buf, pa_level).len() == 11 + pa_chunk.len() + v.name_chunk().len());
    lemma_decode_advertisement(v, buf, pa_level, channel);
}

/// An advertisement that carries one chunk of service data (a battery
/// level, a temperature or a URL), received on its channel, decodes to
/// the sender's MAC address, name and PA level and to that service.
pub proof fn law_service_advertisement_decodes(
    v: FakeBleView,
    svc: Seq<u8>,
    pa_level: Option<PaLevel>,
    channel: u8,
)
    requires
        v.wf(),
        service_chunk(svc),
        advertisement(v, svc, pa_level, channel) is Some,
    ensures
        ble_decode(advertisement(v, svc, pa_level, channel)->0, channel) == Some(
            with_service(
                BlePayloadView {
                    mac_address: v.mac_address,
                    short_name: decoded_name(v),
                    tx_power: decoded_tx_power(pa_level),
                    battery_charge: None,
                    url: None,
                    temperature: None,
                },
                svc,
            ),
        ),
{
    lemma_decode_advertisement(v, svc, pa_level, channel);
    let d = ble_decoded(advertisement(v, svc, pa_level, channel)->0, channel);
    let len = ad_body(v, svc, pa_level).len() as int;
    let k = (if pa_level is Some { 14int } else { 11 }) + v.name_chunk().len();
    let bare = BlePayloadView {
        mac_address: v.mac_address,
        short_name: decoded_name(v),
        tx_power: decoded_tx_power(pa_level),
        battery_charge: None,
        url: None,
        temperature: None,
    };
    lemma_service_chunk(d, len, k, bare, svc);
}

/// The chunk `ch` (its length byte, its type and its data) decodes on its
/// own: a transmit power has its byte, service data its UUID, and a
/// battery level or temperature its whole buffer.
pub open spec fn chunk_ok(ch: Seq<u8>) -> bool {
    &&& ch.len() >= 2
    &&& ch[0] == ch.len() - 1
    &&& ch[1] == 0x0A ==> ch.len() >= 3
    &&& ch[1] == 0x16 ==> ch.len() >= 4
    &&& ch[1] == 0x16 && service_uuid(ch) == BATTERY_UUID ==> ch.len() >= 5
    &&& ch[1] == 0x16 && service_uuid(ch) == TEMPERATURE_UUID ==> ch.len() >= 8
}

/// The bytes of `buf` from `i` on are a sequence of chunks that each
/// decode on their own.
pub open spec fn chunks_ok(buf: Seq<u8>, i: int) -> bool
    decreases buf.len() - i,
{
    if i == buf.len() {
        true
    } else if i < 0 || i > buf.len() || buf[i] == 0 {
        false
    } else {
        let end = i + buf[i] + 1;
        &&& end <= buf.len()
        &&& chunk_ok(buf.subrange(i, end))
        &&& chunks_ok(buf, end)
    }
}

/// `acc` with the chunks of `buf` from `i` on taken in, each decoded on
/// its own (see [`chunk_update`]).
pub open spec fn apply_chunks(buf: Seq<u8>, i: int, acc: BlePayloadView) -> BlePayloadView
    decreases (if i < buf.len() {
        buf.len() - i
    } else {
        0
    }),
{
    if i < 0 || i >= buf.len() || buf[i] == 0 || i + buf[i] + 1 > buf.len() {
        acc
    } else {
        let end = i + buf[i] + 1;
        apply_chunks(buf, end, chunk_update(buf.subrange(i, end), 0, acc)->0)
    }
}

/// A chunk decodes in place as it decodes on its own.
proof fn lemma_chunk_in_place(d: Seq<u8>, index: int, ch: Seq<u8>, acc: BlePayloadView)
    requires
        chunk_ok(ch),
        0 <= index,
        index + ch.len() <= d.len(),
        d.subrange(index, index + ch.len()) == ch,
    ensures
        chunk_update(ch, 0, acc) is Some,
        chunk_update(d, index, acc) == chunk_update(ch, 0, acc),
{
    let n = ch.len() as int;
    assert forall|j: int| 0 <= j < n implies d[index + j] == ch[j] by {
        assert(d.subrange(index, index + n)[j] == d[index + j]);
    }
    let chunk_len = ch[0] - 1;
    let m = if chunk_len < 10 { chunk_len } else { 10 };
    assert(d.subrange(index + 2, index + 2 + m) =~= ch.subrange(2, 2 + m));
    if n >= 5 {
        assert(d.subrange(index, index + 5) =~= ch.subrange(0, 5));
    }
    if n >= 8 {
        assert(d.subrange(index, index + 8) =~= ch.subrange(0, 8));
    }
    assert(d.subrange(index, index + n) =~= ch.subrange(0, n));
}

/// The chunks of the decoded bytes `d` that hold `buf` at `k` decode as the
/// chunks of `buf` do on their own.
proof fn lemma_chunks_in_place(d: Seq<u8>, len: int, k: int, buf: Seq<u8>, i: int, acc: BlePayloadView)
    requires
        8 <= k,
        len == k + buf.len(),
        len + 3 <= d.len(),
        d.subrange(k, len) == buf,
        0 <= i <= buf.len(),
        chunks_ok(buf, i),
    ensures
        ble_chunks(d, len, k + i, acc) == Some(apply_chunks(buf, i, acc)),
    decreases buf.len() - i,
{
    if i < buf.len() {
        let end = i + buf[i] + 1;
        let ch = buf.subrange(i, end);
        assert(d[k + i] == buf[i]) by {
            assert(d.subrange(k, len)[i] == d[k + i]);
        }
        assert(d.subrange(k + i, k + i + ch.len()) =~= ch) by {
            assert forall|j: int| 0 <= j < ch.len() implies d.subrange(k + i, k + i + ch.len())[j]
                == ch[j] by {
                assert(d.subrange(k, len)[i + j] == d[k + i + j]);
            }
        }
        lemma_chunk_in_place(d, k + i, ch, acc);
        let next = chunk_update(ch, 0, acc)->0;
        lemma_chunks_in_place(d, len, k, buf, end, next);
        assert(ble_chunks(d, len, k + i, acc) == ble_chunks(d, len, k + end, next));
    }
}

/// An advertisement whose data is a sequence of chunks, each decoding on
/// its own (names, transmit powers, battery levels, temperatures, URLs or
/// other data), decodes on its channel to the sender's MAC address, name
/// and PA level, with those chunks taken in in order.
pub proof fn law_chunks_advertisement_decodes(
    v: FakeBleView,
    buf: Seq<u8>,
    pa_level: Option<PaLevel>,
    channel: u8,
)
    requires
        v.wf(),
        chunks_ok(buf, 0),
        advertisement(v, buf, pa_level, channel) is Some,
    ensures
        ble_decode(advertisement(v, buf, pa_level, channel)->0, channel) == Some(
            apply_chunks(
                buf,
                0,
                BlePayloadView {
                    mac_address: v.mac_address,
                    short_name: decoded_name(v),
                    tx_power: decoded_tx_power(pa_level),
                    battery_charge: None,
                    url: None,
                    temperature: None,
                },
            ),
        ),
{
    lemma_decode_advertisement(v, buf, pa_level, channel);
    let d = ble_decoded(advertisement(v, buf, pa_level, channel)->0, channel);
    let len = ad_body(v, buf, pa_level).len() as int;
    let k = (if pa_level is Some { 14int } else { 11 }) + v.name_chunk().len();
    let bare = BlePayloadView {
        mac_address: v.mac_address,
        short_name: decoded_name(v),
        tx_power: decoded_tx_power(pa_level),
        battery_charge: None,
        url: None,
        temperature: None,
    };
    lemma_chunks_in_place(d, len, k, buf, 0, bare);
}

/// Every character of `chars` is printable ASCII (codes 14 to 127): its
/// byte in a URL service is itself, not the code of a suffix.
pub open spec fn url_printable(chars: Seq<char>) -> bool {
    forall|i: int| 0 <= i < chars.len() ==> 14 <= #[trigger] (chars[i] as u32) < 128
}

/// A URL that starts with no prefix does not start with a suffix whose
/// code (below 4) a URL service reads as a prefix.
pub open spec fn url_unambiguous(chars: Seq<char>) -> bool {
    prefix_index(chars) is None ==> !(suffix_index(chars, 0, 0) matches Some(j) && j < 4)
}

/// The text of the URL bytes `out`: a prefix if the first is below 4, then
/// suffixes and characters.
pub open spec fn url_decoded(out: Seq<u8>) -> Seq<char> {
    if out.len() > 0 && out[0] < 4 {
        url_prefix(out[0] as int) + url_pieces(out, 1, out.len() as int)
    } else {
        url_pieces(out, 0, out.len() as int)
    }
}

/// Bytes after the first `n` do not change the text of the first `n`.
proof fn lemma_url_pieces_prefix(bytes: Seq<u8>, b: u8, from: int, n: int)
    requires
        0 <= from,
        n <= bytes.len(),
    ensures
        url_pieces(bytes.push(b), from, n) == url_pieces(bytes, from, n),
    decreases n - from,
{
    if n > from {
        lemma_url_pieces_prefix(bytes, b, from, n - 1);
        assert(bytes.push(b)[n - 1] == bytes[n - 1]);
    }
}

/// The prefixes have 7 to 12 characters, the suffixes 4 to 6.
proof fn lemma_url_text_lengths()
    ensures
        forall|j: int| 0 <= j < 4 ==> 7 <= #[trigger] url_prefix(j).len() <= 12,
        forall|j: int| 0 <= j < 14 ==> 4 <= #[trigger] url_suffix(j).len() <= 6,
{
    reveal_strlit("http://www.");
    reveal_strlit("https://www.");
    reveal_strlit("http://");
    reveal_strlit("https://");
    reveal_strlit(".com/");
    reveal_strlit(".org/");
    reveal_strlit(".edu/");
    reveal_strlit(".net/");
    reveal_strlit(".info/");
    reveal_strlit(".biz/");
    reveal_strlit(".gov/");
    reveal_strlit(".com");
    reveal_strlit(".org");
    reveal_strlit(".edu");
    reveal_strlit(".net");
    reveal_strlit(".info");
    reveal_strlit(".biz");
    reveal_strlit(".gov");
}

/// Appending a byte to URL bytes appends its text, unless it would be read
/// as a prefix.
proof fn lemma_url_decoded_push(out: Seq<u8>, b: u8)
    requires
        out.len() > 0 || b >= 4,
    ensures
        url_decoded(out.push(b)) == url_decoded(out) + url_piece(b),
{
    let n = out.len() as int;
    lemma_url_pieces_prefix(out, b, 0, n);
    lemma_url_pieces_prefix(out, b, 1, n);
    if n > 0 && out[0] < 4 {
        assert(out.push(b)[0] == out[0]);
        assert(url_pieces(out.push(b), 1, n + 1) == url_pieces(out, 1, n) + url_piece(b));
    } else if n > 0 {
        assert(out.push(b)[0] == out[0]);
    } else {
        assert(url_pieces(out.push(b), 0, 0) =~= Seq::empty());
    }
}

/// A printable ASCII character is its own byte.
proof fn lemma_ascii_byte(c: char)
    requires
        14 <= (c as u32) < 128,
    ensures
        ((c as u32) as u8) >= 14,
        url_piece((c as u32) as u8) == seq![c],
{
    let x = c as u32;
    assert((x as u8) as u32 == x) by (bit_vector)
        requires
            x < 128,
    ;
    assert(((x as u8) as char) == c);
}

/// The encoding of a printable ASCII URL, after its first `k` characters,
/// decodes to the beginning of the URL: the first `k` characters and those
/// a prefix or suffix already took, while there is room left.
proof fn lemma_url_state_decodes(chars: Seq<char>, k: nat)
    requires
        k <= chars.len(),
        url_printable(chars),
        url_unambiguous(chars),
        url_state(chars, k) is Some,
    ensures
        ({
            let (out, d) = url_state(chars, k)->0;
            &&& d >= 0
            &&& k == 0 || out.len() > 0
            &&& url_decoded(out).len() <= chars.len()
            &&& url_decoded(out) == chars.take(url_decoded(out).len() as int)
            &&& out.len() < 12 ==> url_decoded(out).len() == k + d
            &&& url_decoded(out).len() == url_taken(chars, k)
        }),
    decreases k,
{
    lemma_url_text_lengths();
    if k == 0 {
        match prefix_index(chars) {
            Some(j) => {
                assert(url_pieces(seq![j as u8], 1, 1) =~= Seq::empty());
                assert(url_decoded(seq![j as u8]) =~= url_prefix(j));
            },
            None => {
                assert(url_decoded(Seq::empty()) =~= Seq::empty());
            },
        }
    } else {
        lemma_url_state_decodes(chars, (k - 1) as nat);
        let (out, d) = url_state(chars, (k - 1) as nat)->0;
        let c = chars[k - 1];
        assert(14 <= (c as u32) < 128);
        if out.len() >= 12 {
        } else if d > 0 {
        } else {
            match suffix_index(chars, k - 1, 0) {
                Some(j) => {
                    lemma_suffix_index_found(chars, k - 1, 0);
                    if k == 1 {
                        if prefix_index(chars) is Some {
                            assert(url_prefix(prefix_index(chars)->0).len() >= 7);
                        }
                        assert(prefix_index(chars) is None);
                    }
                    lemma_url_decoded_push(out, j as u8);
                    assert(chars.take(k - 1) + url_suffix(j) =~= chars.take(k - 1 + url_suffix(j).len()));
                },
                None => {
                    lemma_ascii_byte(c);
                    lemma_url_decoded_push(out, (c as u32) as u8);
                    assert(chars.take(k - 1) + seq![c] =~= chars.take(k as int));
                },
            }
        }
    }
}

/// How many characters of `chars` the encoding has taken after its first
/// `k` characters: those it went past and those a prefix or suffix took
/// ahead of them, until its 12 bytes are full; from then on, no more.
pub open spec fn url_taken(chars: Seq<char>, k: nat) -> int
    decreases k,
{
    if k == 0 {
        match url_state(chars, 0) {
            Some((_out, d)) => d,
            None => 0,
        }
    } else {
        match url_state(chars, (k - 1) as nat) {
            Some((out, _d)) => if out.len() >= 12 {
                url_taken(chars, (k - 1) as nat)
            } else {
                match url_state(chars, k) {
                    Some((_out2, d2)) => k + d2,
                    None => 0,
                }
            },
            None => 0,
        }
    }
}

/// A suffix found from `j` on is one of the 14 and starts there.
proof fn lemma_suffix_index_found(chars: Seq<char>, k: int, j: int)
    requires
        suffix_index(chars, k, j) is Some,
    ensures
        ({
            let i = suffix_index(chars, k, j)->0;
            &&& j <= i < 14
            &&& starts(chars, k, url_suffix(i))
        }),
    decreases 14 - j,
{
    if j < 14 && !starts(chars, k, url_suffix(j)) {
        lemma_suffix_index_found(chars, k, j + 1);
    }
}

/// The encoding of `chars` still has room (fewer than 12 bytes) before its
/// last character: the last character, or a suffix that ends the URL, is
/// the last to be encoded, even if it fills the 12 bytes.
pub open spec fn url_room_before_last(chars: Seq<char>) -> bool {
    chars.len() > 0 ==> match url_state(chars, (chars.len() - 1) as nat) {
        Some((out, _d)) => out.len() < 12,
        None => false,
    }
}

/// Setting a URL service to a URL of printable ASCII characters (that does
/// not start with a suffix read as a prefix) and reading its URL back gives
/// the URL, or its beginning when the service's 12 URL bytes are full: the
/// whole URL when its encoding takes every character, in particular when
/// there is room before its last character (an encoding of exactly 12
/// bytes included).
pub proof fn law_url_round_trip(service: Seq<u8>, url: Seq<char>)
    requires
        service.len() == 18,
        url_printable(url),
        url_unambiguous(url),
    ensures
        url_encoding(url) is Some,
        ({
            let out = url_encoding(url)->0;
            let set = service.update(0, (5 + out.len()) as u8).take(6) + out + service.skip(
                6 + out.len() as int,
            );
            &&& 5 <= set[0] <= 17
            &&& url_text(set).is_prefix_of(url)
            &&& url_text(set).len() == url_taken(url, url.len())
            &&& url_taken(url, url.len()) == url.len() ==> url_text(set) == url
            &&& url_room_before_last(url) ==> url_text(set) == url
            &&& out.len() < 12 ==> url_text(set) == url
        }),
{
    let k = url.len();
    assert(url_ascii(url));
    law_ascii_url_encodes(url);
    lemma_url_state_decodes(url, k);
    let (out, d) = url_state(url, k)->0;
    let n = out.len() as int;
    assert(n <= 12) by {
        lemma_url_state_len(url, k);
    }
    let set = service.update(0, (5 + n) as u8).take(6) + out + service.skip(6 + n);
    assert(set[0] == 5 + n);
    if n > 0 {
        assert(set.subrange(6, 6 + n) =~= out);
        assert(set[6] == out[0]);
        assert(url_text(set) == url_decoded(out));
    } else {
        assert(url_decoded(out) =~= Seq::<char>::empty());
    }
}

/// Every character of `chars` is ASCII (a code below 128).
pub open spec fn url_ascii(chars: Seq<char>) -> bool {
    forall|i: int| 0 <= i < chars.len() ==> (#[trigger] chars[i] as u32) < 128
}

/// Encoding an ASCII URL never runs out of room: each step is behind or
/// level with the characters (`d >= 0`).
proof fn lemma_ascii_url_state(chars: Seq<char>, k: nat)
    requires
        k <= chars.len(),
        url_ascii(chars),
    ensures
        url_state(chars, k) is Some,
        ({
            let (_out, d) = url_state(chars, k)->0;
            d >= 0
        }),
    decreases k,
{
    lemma_url_text_lengths();
    if k > 0 {
        lemma_ascii_url_state(chars, (k - 1) as nat);
        let c = chars[k - 1];
        assert((c as u32) < 128);
        let (out, d) = url_state(chars, (k - 1) as nat)->0;
        if out.len() < 12 && d <= 0 {
            match suffix_index(chars, k - 1, 0) {
                Some(j) => {
                    lemma_suffix_index_found(chars, k - 1, 0);
                },
                None => {},
            }
        }
    }
}

/// Every ASCII URL has an encoding: [`UrlService::set_data`] takes it.
///
/// [`UrlService::set_data`]: super::services::UrlService::set_data
pub proof fn law_ascii_url_encodes(url: Seq<char>)
    requires
        url_ascii(url),
    ensures
        url_encoding(url) is Some,
{
    lemma_ascii_url_state(url, url.len());
}

/// The encoding of a URL holds at most 12 bytes.
proof fn lemma_url_state_len(chars: Seq<char>, k: nat)
    requires
        url_state(chars, k) is Some,
    ensures
        ({
            let (out, _d) = url_state(chars, k)->0;
            out.len() <= 12
        }),
    decreases k,
{
    if k > 0 {
        lemma_url_state_len(chars, (k - 1) as nat);
    }
}

/// Once a URL starts with prefix `j`, its encoding, as far as it goes,
/// starts with `j`.
proof fn lemma_url_state_first(chars: Seq<char>, k: nat, j: int)
    requires
        prefix_index(chars) == Some(j),
        url_state(chars, k) is Some,
    ensures
        ({
            let (out, _d) = url_state(chars, k)->0;
            out.len() >= 1 && out[0] == j as u8
        }),
    decreases k,
{
    if k > 0 {
        lemma_url_state_first(chars, (k - 1) as nat, j);
    }
}

/// A URL is sent with the code of its Eddystone prefix first:
/// `http://www.` as 0, `https://www.` as 1, `http://` (not followed by
/// `www.`) as 2 and `https://` (not followed by `www.`) as 3.
pub proof fn law_url_prefix_codes(url: Seq<char>)
    ensures
        ({
            let http = seq!['h', 't', 't', 'p', ':', '/', '/'];
            let https = seq!['h', 't', 't', 'p', 's', ':', '/', '/'];
            let www = seq!['w', 'w', 'w', '.'];
            url_encoding(url) matches Some(out) ==> {
                &&& starts(url, 0, http) && starts(url, 7, www) ==> out.len() >= 1 && out[0] == 0
                &&& starts(url, 0, https) && starts(url, 8, www) ==> out.len() >= 1 && out[0] == 1
                &&& starts(url, 0, http) && !starts(url, 7, www) ==> out.len() >= 1 && out[0] == 2
                &&& starts(url, 0, https) && !starts(url, 8, www) ==> out.len() >= 1 && out[0] == 3
            }
        }),
{
    let http = seq!['h', 't', 't', 'p', ':', '/', '/'];
    let https = seq!['h', 't', 't', 'p', 's', ':', '/', '/'];
    let www = seq!['w', 'w', 'w', '.'];
    reveal_strlit("http://www.");
    reveal_strlit("https://www.");
    reveal_strlit("http://");
    reveal_strlit("https://");
    assert(url_prefix(0) =~= http + www);
    assert(url_prefix(1) =~= https + www);
    assert(url_prefix(2) =~= http);
    assert(url_prefix(3) =~= https);
    if url_encoding(url) is Some {
        let n = url.len();
        let p0 = starts(url, 0, http + www);
        let p1 = starts(url, 0, https + www);
        if starts(url, 0, http) && starts(url, 0, https) {
            assert(url.subrange(0, 7)[4] == url[4]);
            assert(url.subrange(0, 8)[4] == url[4]);
            assert(false);
        }
        if starts(url, 0, http) {
            assert(!p1) by {
                if p1 {
                    assert(url.subrange(0, 12)[4] == url[4]);
                    assert(url.subrange(0, 7)[4] == url[4]);
                }
            }
            if starts(url, 7, www) {
                assert(url.subrange(0, 11) =~= http + www);
            } else if p0 {
                assert(url.subrange(7, 11) =~= url.subrange(0, 11).subrange(7, 11));
                assert((http + www).subrange(7, 11) =~= www);
            }
        }
        if starts(url, 0, https) {
            assert(!p0) by {
                if p0 {
                    assert(url.subrange(0, 11)[4] == url[4]);
                    assert(url.subrange(0, 8)[4] == url[4]);
                }
            }
            if starts(url, 8, www) {
                assert(url.subrange(0, 12) =~= https + www);
            } else if p1 {
                assert(url.subrange(8, 12) =~= url.subrange(0, 12).subrange(8, 12));
                assert((https + www).subrange(8, 12) =~= www);
            }
        }
        if prefix_index(url) is Some {
            lemma_url_state_first(url, n, prefix_index(url)->0);
        }
    }
}

} // verus!
