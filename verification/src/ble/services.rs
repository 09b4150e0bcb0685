//! BLE service data: battery level, temperature and URL (Eddystone), and
//! the decoding of received advertisements.
use vstd::prelude::*;

use super::data::{crc24, crc24_ble, reverse_bits, reversed_all, whiten, whitened};
use super::radio::{ble_coefficient, coefficient_of};
use crate::rf24::zeros;


verus! {

/// The Temperature Service UUID.
pub const TEMPERATURE_UUID: u16 = 0x1809;

/// The Battery Service UUID.
pub const BATTERY_UUID: u16 = 0x180F;

/// The Eddystone Service UUID.
pub const EDDYSTONE_UUID: u16 = 0xFEAA;

/// The buffer of a BLE service, ready for broadcasting.
pub trait AsBuffer {
    /// The service's buffer can be broadcast.
    spec fn buffer_ready(&self) -> bool;

    /// The bytes to broadcast.
    fn buffer(&self) -> &[u8]
        requires
            self.buffer_ready(),
    ;
}

/// The data of a BLE service.
pub trait ServiceData<T> {
    /// Set the service's data.
    fn set_data(&mut self, value: T);

    /// The service's data.
    fn data(&self) -> T;
}

/// A service that broadcasts a temperature, in the Health Thermometer
/// Measurement format: the value is held in hundredths of a degree
/// Celsius, in 3 bytes (least significant first).
#[derive(Clone, Copy, Debug)]
pub struct TemperatureService {
    buf: [u8; 8],
}

impl View for TemperatureService {
    type V = Seq<u8>;

    closed spec fn view(&self) -> Seq<u8> {
        self.buf@
    }
}

/// The first `n` bytes of `buf`, followed by zeros up to `len` bytes.
pub open spec fn padded(buf: Seq<u8>, n: int, len: int) -> Seq<u8> {
    buf.take(n) + Seq::new((len - n) as nat, |i: int| 0u8)
}

impl TemperatureService {
    /// A temperature service holding 0.
    pub fn new() -> (r: TemperatureService)
        ensures
            r@ == seq![7u8, 0x16, 0x09, 0x18, 0, 0, 0, 0xFE],
    {
        let r = TemperatureService { buf: [7, 0x16, 0x09, 0x18, 0, 0, 0, 0xFE] };
        assert(r@ =~= seq![7u8, 0x16, 0x09, 0x18, 0, 0, 0, 0xFE]);
        r
    }

    /// Set the temperature in hundredths of a degree Celsius (its low 3
    /// bytes).
    pub fn set_centi_degrees(&mut self, value: u32)
        ensures
            final(self)@ == old(self)@.update(4, value as u8).update(5, (value >> 8u32) as u8).update(
                6,
                (value >> 16u32) as u8,
            ),
    {
        self.buf[4] = #[verifier::truncate] (value as u8);
        self.buf[5] = #[verifier::truncate] ((value >> 8u32) as u8);
        self.buf[6] = #[verifier::truncate] ((value >> 16u32) as u8);
    }

    /// The temperature in hundredths of a degree Celsius.
    pub fn centi_degrees(&self) -> (r: u32)
        ensures
            r == self@[4] as u32 + (self@[5] as u32) * 256 + (self@[6] as u32) * 65536,
    {
        self.buf[4] as u32 + (self.buf[5] as u32) * 256 + (self.buf[6] as u32) * 65536
    }

    /// The service read from the first 8 bytes of `buf`.
    pub fn from_buffer(buf: &[u8]) -> (r: TemperatureService)
        requires
            buf@.len() >= 8,
        ensures
            r@ == buf@.take(8),
    {
        let r = TemperatureService { buf: [buf[0], buf[1], buf[2], buf[3], buf[4], buf[5], buf[6], buf[7]] };
        assert(r@ =~= buf@.take(8));
        r
    }
}

impl Default for TemperatureService {
    fn default() -> (r: TemperatureService)
        ensures
            r@ == seq![7u8, 0x16, 0x09, 0x18, 0, 0, 0, 0xFE],
    {
        TemperatureService::new()
    }
}

impl AsBuffer for TemperatureService {
    open spec fn buffer_ready(&self) -> bool {
        true
    }

    fn buffer(&self) -> (r: &[u8])
        ensures
            r@ == self@,
    {
        self.buf.as_slice()
    }
}

/// A service that broadcasts a battery's remaining charge (a percentage),
/// in the Battery Level format.
#[derive(Clone, Copy, Debug)]
pub struct BatteryService {
    buf: [u8; 5],
}

impl View for BatteryService {
    type V = Seq<u8>;

    closed spec fn view(&self) -> Seq<u8> {
        self.buf@
    }
}

impl BatteryService {
    /// A battery service holding 0 %.
    pub fn new() -> (r: BatteryService)
        ensures
            r@ == seq![4u8, 0x16, 0x0F, 0x18, 0],
    {
        let r = BatteryService { buf: [4, 0x16, 0x0F, 0x18, 0] };
        assert(r@ =~= seq![4u8, 0x16, 0x0F, 0x18, 0]);
        r
    }

    /// The service read from the first 5 bytes of `buf`.
    pub fn from_buffer(buf: &[u8]) -> (r: BatteryService)
        requires
            buf@.len() >= 5,
        ensures
            r@ == buf@.take(5),
    {
        let r = BatteryService { buf: [buf[0], buf[1], buf[2], buf[3], buf[4]] };
        assert(r@ =~= buf@.take(5));
        r
    }
}

impl Default for BatteryService {
    fn default() -> (r: BatteryService)
        ensures
            r@ == seq![4u8, 0x16, 0x0F, 0x18, 0],
    {
        BatteryService::new()
    }
}

impl ServiceData<u8> for BatteryService {
    /// Set the battery's charge (a percentage).
    fn set_data(&mut self, value: u8)
        ensures
            final(self)@ == old(self)@.update(4, value),
    {
        self.buf[4] = value;
    }

    /// The battery's charge (a percentage).
    fn data(&self) -> (r: u8)
        ensures
            r == self@[4],
    {
        self.buf[4]
    }
}

impl AsBuffer for BatteryService {
    open spec fn buffer_ready(&self) -> bool {
        true
    }

    fn buffer(&self) -> (r: &[u8])
        ensures
            r@ == self@,
    {
        self.buf.as_slice()
    }
}

/// The text of URL prefix `j` (`http://www.`, `https://www.`, `http://`,
/// `https://`).
pub open spec fn url_prefix(j: int) -> Seq<char> {
    if j == 0 {
        "http://www."@
    } else if j == 1 {
        "https://www."@
    } else if j == 2 {
        "http://"@
    } else {
        "https://"@
    }
}

/// The text of URL suffix `j` (`.com/`, `.org/`, `.edu/`, `.net/`,
/// `.info/`, `.biz/`, `.gov/`, then the same without the slash).
pub open spec fn url_suffix(j: int) -> Seq<char> {
    if j == 0 {
        ".com/"@
    } else if j == 1 {
        ".org/"@
    } else if j == 2 {
        ".edu/"@
    } else if j == 3 {
        ".net/"@
    } else if j == 4 {
        ".info/"@
    } else if j == 5 {
        ".biz/"@
    } else if j == 6 {
        ".gov/"@
    } else if j == 7 {
        ".com"@
    } else if j == 8 {
        ".org"@
    } else if j == 9 {
        ".edu"@
    } else if j == 10 {
        ".net"@
    } else if j == 11 {
        ".info"@
    } else if j == 12 {
        ".biz"@
    } else {
        ".gov"@
    }
}

fn prefix_text(j: usize) -> (s: &'static str)
    requires
        j < 4,
    ensures
        s@ == url_prefix(j as int),
        7 <= s@.len() <= 12,
{
    proof {
        reveal_strlit("http://www.");
        reveal_strlit("https://www.");
        reveal_strlit("http://");
        reveal_strlit("https://");
    }
    if j == 0 {
        "http://www."
    } else if j == 1 {
        "https://www."
    } else if j == 2 {
        "http://"
    } else {
        "https://"
    }
}

fn suffix_text(j: usize) -> (s: &'static str)
    requires
        j < 14,
    ensures
        s@ == url_suffix(j as int),
        4 <= s@.len() <= 6,
{
    proof {
        reveal_strlit(".com/");
        reveal_strlit(".org/");
        reveal_strlit(".edu/");
        reveal_strlit(".net/");
        reveal_strlit(".info/");
        reveal_strlit(".biz/");
        reveal_strlit(".gov/");
        reveal_strlit(".com");
        reveal_strlit(".org");
        reveal_strlit(".edu");
        reveal_strlit(".net");
        reveal_strlit(".info");
        reveal_strlit(".biz");
        reveal_strlit(".gov");
    }
    if j == 0 {
        ".com/"
    } else if j == 1 {
        ".org/"
    } else if j == 2 {
        ".edu/"
    } else if j == 3 {
        ".net/"
    } else if j == 4 {
        ".info/"
    } else if j == 5 {
        ".biz/"
    } else if j == 6 {
        ".gov/"
    } else if j == 7 {
        ".com"
    } else if j == 8 {
        ".org"
    } else if j == 9 {
        ".edu"
    } else if j == 10 {
        ".net"
    } else if j == 11 {
        ".info"
    } else if j == 12 {
        ".biz"
    } else {
        ".gov"
    }
}

/// The characters of `chars` from `k` on start with `pat`.
pub open spec fn starts(chars: Seq<char>, k: int, pat: Seq<char>) -> bool {
    k + pat.len() <= chars.len() && chars.subrange(k, k + pat.len()) == pat
}

/// The first URL prefix that `chars` starts with.
pub open spec fn prefix_index(chars: Seq<char>) -> Option<int> {
    if starts(chars, 0, url_prefix(0)) {
        Some(0)
    } else if starts(chars, 0, url_prefix(1)) {
        Some(1)
    } else if starts(chars, 0, url_prefix(2)) {
        Some(2)
    } else if starts(chars, 0, url_prefix(3)) {
        Some(3)
    } else {
        None
    }
}

/// The first URL suffix, from suffix `j` on, that the characters of
/// `chars` from `k` on start with.
pub open spec fn suffix_index(chars: Seq<char>, k: int, j: int) -> Option<int>
    decreases 14 - j,
{
    if j >= 14 {
        None
    } else if starts(chars, k, url_suffix(j)) {
        Some(j)
    } else {
        suffix_index(chars, k, j + 1)
    }
}

/// The number of bytes of a character in UTF-8.
pub open spec fn utf8_len(c: char) -> int {
    if (c as u32) < 0x80 {
        1
    } else if (c as u32) < 0x800 {
        2
    } else if (c as u32) < 0x10000 {
        3
    } else {
        4
    }
}

/// The encoding of a URL after its first `k` characters: the bytes
/// produced, and how many bytes of the URL (in UTF-8) past the start of
/// character `k` are already taken by a prefix or suffix (negative when
/// behind). The URL starts with the code of its prefix, if any; then each
/// character is either taken by a suffix (replaced by the suffix's code) or
/// kept as its low byte; the output stops at 12 bytes. `None` when a
/// character would be written past the 12 bytes.
pub open spec fn url_state(chars: Seq<char>, k: nat) -> Option<(Seq<u8>, int)>
    decreases k,
{
    if k == 0 {
        match prefix_index(chars) {
            Some(j) => Some((seq![j as u8], url_prefix(j).len() as int)),
            None => Some((Seq::empty(), 0)),
        }
    } else {
        match url_state(chars, (k - 1) as nat) {
            None => None,
            Some((out, d)) => {
                let c = chars[k - 1];
                let l = utf8_len(c);
                if out.len() >= 12 {
                    Some((out, d))
                } else if d > 0 {
                    Some((out, d - l))
                } else {
                    let (out2, d2) = match suffix_index(chars, k - 1, 0) {
                        Some(j) => (out.push(j as u8), d + url_suffix(j).len()),
                        None => (out, d),
                    };
                    if d2 > 0 {
                        Some((out2, d2 - l))
                    } else if out2.len() >= 12 {
                        None
                    } else {
                        Some((out2.push((c as u32) as u8), d2 + 1 - l))
                    }
                }
            },
        }
    }
}

/// An encoding that cannot go on stays so.
proof fn lemma_url_state_stuck(chars: Seq<char>, i: nat, n: nat)
    requires
        i <= n,
        url_state(chars, i) is None,
    ensures
        url_state(chars, n) is None,
    decreases n - i,
{
    if n > i {
        lemma_url_state_stuck(chars, i, (n - 1) as nat);
    }
}

/// The encoding of a URL (see [`url_state`]).
pub open spec fn url_encoding(chars: Seq<char>) -> Option<Seq<u8>> {
    match url_state(chars, chars.len()) {
        Some((out, _)) => Some(out),
        None => None,
    }
}

/// The text of the URL byte `b` of a decoded URL: the suffix it codes, or
/// the character with that value.
pub open spec fn url_piece(b: u8) -> Seq<char> {
    if b < 14 {
        url_suffix(b as int)
    } else {
        seq![b as char]
    }
}

/// The text of the URL bytes `bytes[from..n]`.
pub open spec fn url_pieces(bytes: Seq<u8>, from: int, n: int) -> Seq<char>
    decreases n - from,
{
    if n <= from {
        Seq::empty()
    } else {
        url_pieces(bytes, from, n - 1) + url_piece(bytes[n - 1])
    }
}

/// The URL that a URL service's buffer `buf` holds: none if it holds no
/// URL byte; else its first URL byte codes a prefix if below 4, and the
/// other bytes are suffixes or characters.
pub open spec fn url_text(buf: Seq<u8>) -> Seq<char> {
    let n = buf[0] - 5;
    let bytes = buf.subrange(6, 6 + n);
    if n <= 0 {
        Seq::empty()
    } else if buf[6] < 4 {
        url_prefix(buf[6] as int) + url_pieces(bytes, 1, n)
    } else {
        url_pieces(bytes, 0, n)
    }
}

/// `String::push` (std): appends the character `c` to the string.
#[verifier::external_body]
fn push_char(s: &mut String, c: char)
    ensures
        final(s)@ == old(s)@.push(c),
{
    s.push(c);
}

/// Does the text of `value` from character `k` on start with `pat`?
fn starts_at(value: &str, m: usize, k: usize, pat: &str) -> (r: bool)
    requires
        m == value@.len(),
        k <= m,
    ensures
        r == starts(value@, k as int, pat@),
{
    let n = pat.unicode_len();
    if n > m - k {
        return false;
    }
    let mut i: usize = 0;
    while i < n
        invariant
            i <= n == pat@.len(),
            k + n <= m == value@.len(),
            forall|x: int| 0 <= x < i ==> value@[k + x] == pat@[x],
        decreases n - i,
    {
        if value.get_char(k + i) != pat.get_char(i) {
            assert(value@.subrange(k as int, k + n)[i as int] != pat@[i as int]);
            return false;
        }
        i = i + 1;
    }
    assert(value@.subrange(k as int, k + n) =~= pat@);
    true
}

/// The first URL prefix that `value` starts with.
fn find_prefix(value: &str, m: usize) -> (r: Option<usize>)
    requires
        m == value@.len(),
    ensures
        match r {
            Some(j) => j < 4 && prefix_index(value@) == Some(j as int),
            None => prefix_index(value@) is None,
        },
{
    if starts_at(value, m, 0, prefix_text(0)) {
        Some(0)
    } else if starts_at(value, m, 0, prefix_text(1)) {
        Some(1)
    } else if starts_at(value, m, 0, prefix_text(2)) {
        Some(2)
    } else if starts_at(value, m, 0, prefix_text(3)) {
        Some(3)
    } else {
        None
    }
}

/// The first URL suffix that the text of `value` from character `k` on
/// starts with.
fn find_suffix(value: &str, m: usize, k: usize) -> (r: Option<usize>)
    requires
        m == value@.len(),
        k <= m,
    ensures
        match r {
            Some(j) => j < 14 && suffix_index(value@, k as int, 0) == Some(j as int),
            None => suffix_index(value@, k as int, 0) is None,
        },
{
    let mut s: usize = 0;
    while s < 14
        invariant
            s <= 14,
            k <= m == value@.len(),
            suffix_index(value@, k as int, 0) == suffix_index(value@, k as int, s as int),
        decreases 14 - s,
    {
        if starts_at(value, m, k, suffix_text(s)) {
            return Some(s);
        }
        s = s + 1;
    }
    None
}

/// The UTF-8 length of a character.
fn char_len(c: char) -> (r: i32)
    ensures
        r == utf8_len(c),
{
    let v = c as u32;
    if v < 0x80 {
        1
    } else if v < 0x800 {
        2
    } else if v < 0x10000 {
        3
    } else {
        4
    }
}

/// A service that broadcasts a URL, in Google's Eddystone format.
#[derive(Clone, Copy, Debug)]
pub struct UrlService {
    buf: [u8; 18],
}

impl View for UrlService {
    type V = Seq<u8>;

    closed spec fn view(&self) -> Seq<u8> {
        self.buf@
    }
}

impl UrlService {
    /// A URL service with no URL and the PA level -25 dBm at 1 meter.
    pub fn new() -> (r: UrlService)
        ensures
            r@ == seq![0u8, 0x16, 0xAA, 0xFE, 0x10, 0xE7] + Seq::new(12, |i: int| 0u8),
    {
        let r = UrlService { buf: [0, 0x16, 0xAA, 0xFE, 0x10, 0xE7, 0, 0, 0, 0, 0, 0, 0, 0, 0, 0, 0, 0] };
        assert(r@ =~= seq![0u8, 0x16, 0xAA, 0xFE, 0x10, 0xE7] + Seq::new(12, |i: int| 0u8));
        r
    }

    /// Set the PA level (in dBm) expected at 1 meter.
    pub fn set_pa_level(&mut self, level: i8)
        ensures
            final(self)@ == old(self)@.update(5, level as u8),
    {
        self.buf[5] = level as u8;
    }

    /// The PA level (in dBm) expected at 1 meter.
    pub fn pa_level(&self) -> (r: i8)
        ensures
            r == self@[5] as i8,
    {
        self.buf[5] as i8
    }

    /// The encoding of the URL `value` (see [`url_state`]), or `None` if it
    /// does not fit the way [`UrlService::set_data`] writes it.
    pub fn encode_url(value: &str) -> (r: Option<Vec<u8>>)
        ensures
            match r {
                Some(v) => url_encoding(value@) == Some(v@) && v@.len() <= 12,
                None => url_encoding(value@) is None,
            },
    {
        let m = value.unicode_len();
        let mut out: Vec<u8> = Vec::new();
        let mut d: i32 = 0;
        match find_prefix(value, m) {
            Some(j) => {
                out.push(j as u8);
                d = prefix_text(j).unicode_len() as i32;
            },
            None => {},
        }
        assert(url_state(value@, 0) == Some((out@, d as int)));
        let mut k: usize = 0;
        while k < m
            invariant
                k <= m == value@.len(),
                url_state(value@, k as nat) == Some((out@, d as int)),
                out@.len() <= 12,
                -3 - 3 * out@.len() <= d <= 12,
            decreases m - k,
        {
            let c = value.get_char(k);
            let l = char_len(c);
            if out.len() >= 12 {
            } else if d > 0 {
                d = d - l;
            } else {
                match find_suffix(value, m, k) {
                    Some(s) => {
                        out.push(s as u8);
                        d = d + suffix_text(s).unicode_len() as i32;
                    },
                    None => {},
                }
                if d > 0 {
                    d = d - l;
                } else if out.len() >= 12 {
                    proof {
                        assert(url_state(value@, (k + 1) as nat) is None);
                        lemma_url_state_stuck(value@, (k + 1) as nat, m as nat);
                    }
                    return None;
                } else {
                    out.push(#[verifier::truncate] ((c as u32) as u8));
                    d = d + 1 - l;
                }
            }
            k = k + 1;
        }
        Some(out)
    }

    /// Set the URL to broadcast (see [`url_state`]); the PA level stays.
    pub fn set_data(&mut self, value: &str)
        requires
            url_encoding(value@) is Some,
        ensures
            ({
                let out = url_encoding(value@)->0;
                final(self)@ == old(self)@.update(0, (5 + out.len()) as u8).take(6) + out + old(
                    self,
                )@.skip(6 + out.len() as int)
            }),
    {
        let out = UrlService::encode_url(value).unwrap();
        let n = out.len();
        let mut i: usize = 0;
        while i < n
            invariant
                i <= n == out@.len() <= 12,
                self@.len() == 18,
                forall|x: int| 0 <= x < i ==> self@[6 + x] == out@[x],
                forall|x: int| 0 <= x < 18 && !(6 <= x < 6 + i) ==> self@[x] == old(self)@[x],
            decreases n - i,
        {
            self.buf[6 + i] = out[i];
            i = i + 1;
        }
        self.buf[0] = (5 + n) as u8;
        assert(self@ =~= old(self)@.update(0, (5 + n) as u8).take(6) + out@ + old(self)@.skip(6 + n));
    }

    /// The URL this service broadcasts (see [`url_text`]).
    pub fn data(&self) -> (r: String)
        requires
            self@[0] <= 17,
        ensures
            r@ == url_text(self@),
    {
        let mut result = String::new();
        if self.buf[0] <= 5 {
            return result;
        }
        let n = (self.buf[0] - 5) as usize;
        let ghost bytes = self@.subrange(6, 6 + n);
        let ghost pre = if self@[6] < 4 {
            url_prefix(self@[6] as int)
        } else {
            Seq::<char>::empty()
        };
        let start: usize = if self.buf[6] < 4 {
            1
        } else {
            0
        };
        if start == 1 {
            result.append(prefix_text(self.buf[6] as usize));
        }
        assert(result@ =~= pre + url_pieces(bytes, start as int, start as int));
        let mut i: usize = start;
        while i < n
            invariant
                start <= i,
                i <= n || i == start,
                n + 6 <= 18,
                self@.len() == 18,
                bytes == self@.subrange(6, 6 + n),
                result@ == pre + url_pieces(bytes, start as int, i as int),
            decreases n - i,
        {
            let b = self.buf[6 + i];
            if b < 14 {
                result.append(suffix_text(b as usize));
            } else {
                push_char(&mut result, b as char);
            }
            i = i + 1;
            assert(result@ =~= pre + url_pieces(bytes, start as int, i as int));
        }
        assert(url_pieces(bytes, start as int, i as int) == url_pieces(bytes, start as int, n as int));
        result
    }

    /// The service read from (at most 18 bytes of) `buf`, zero padded.
    pub fn from_buffer(buf: &[u8]) -> (r: UrlService)
        ensures
            r@ == padded(buf@, if buf@.len() < 18 { buf@.len() as int } else { 18 }, 18),
    {
        let n = if buf.len() < 18 {
            buf.len()
        } else {
            18
        };
        let mut b = [0u8; 18];
        let mut i: usize = 0;
        while i < n
            invariant
                i <= n <= 18,
                n <= buf@.len(),
                b@.len() == 18,
                forall|x: int| 0 <= x < i ==> b@[x] == buf@[x],
                forall|x: int| i <= x < 18 ==> b@[x] == 0,
            decreases n - i,
        {
            b[i] = buf[i];
            i = i + 1;
        }
        let r = UrlService { buf: b };
        assert(r@ =~= padded(buf@, n as int, 18));
        r
    }
}

impl Default for UrlService {
    fn default() -> (r: UrlService)
        ensures
            r@ == seq![0u8, 0x16, 0xAA, 0xFE, 0x10, 0xE7] + Seq::new(12, |i: int| 0u8),
    {
        UrlService::new()
    }
}

impl AsBuffer for UrlService {
    /// The buffer's length byte leaves room for it.
    open spec fn buffer_ready(&self) -> bool {
        self@[0] < 18
    }

    fn buffer(&self) -> (r: &[u8])
        ensures
            r@ == self@.take(self@[0] + 1),
    {
        let len = self.buf[0] as usize + 1;
        vstd::slice::slice_subrange(self.buf.as_slice(), 0, len)
    }
}

/// The view of a decoded advertisement: each service by its buffer.
pub struct BlePayloadView {
    pub mac_address: Seq<u8>,
    pub short_name: Option<Seq<u8>>,
    pub tx_power: Option<i8>,
    pub battery_charge: Option<Seq<u8>>,
    pub url: Option<Seq<u8>>,
    pub temperature: Option<Seq<u8>>,
}

/// A decoded advertisement.
#[derive(Clone, Debug)]
pub struct BlePayload {
    /// The sender's MAC address.
    pub mac_address: [u8; 6],
    /// The sender's name (zero padded), if it sent one.
    pub short_name: Option<[u8; 10]>,
    /// The sender's transmit power (in dBm), if it sent it.
    pub tx_power: Option<i8>,
    pub battery_charge: Option<BatteryService>,
    pub url: Option<UrlService>,
    pub temperature: Option<TemperatureService>,
}

/// The view of a decoded advertisement with these fields.
pub open spec fn payload_view(
    mac_address: [u8; 6],
    short_name: Option<[u8; 10]>,
    tx_power: Option<i8>,
    battery_charge: Option<BatteryService>,
    url: Option<UrlService>,
    temperature: Option<TemperatureService>,
) -> BlePayloadView {
    BlePayloadView {
        mac_address: mac_address@,
        short_name: match short_name {
            Some(n) => Some(n@),
            None => None,
        },
        tx_power,
        battery_charge: match battery_charge {
            Some(b) => Some(b@),
            None => None,
        },
        url: match url {
            Some(u) => Some(u@),
            None => None,
        },
        temperature: match temperature {
            Some(t) => Some(t@),
            None => None,
        },
    }
}

impl View for BlePayload {
    type V = BlePayloadView;

    open spec fn view(&self) -> BlePayloadView {
        payload_view(
            self.mac_address,
            self.short_name,
            self.tx_power,
            self.battery_charge,
            self.url,
            self.temperature,
        )
    }
}

/// The chunk at `index` of the decoded bytes `d` (its length byte, less 1,
/// then its type at `index + 1`), taken into `acc`: a name (types 8 and 9,
/// at most 10 bytes, zero padded), a transmit power (type `0x0A`), or a
/// service (type `0x16`, by UUID: battery, temperature or URL); other
/// chunks are skipped. `None` where the chunk runs past the bytes.
pub open spec fn chunk_update(d: Seq<u8>, index: int, acc: BlePayloadView) -> Option<BlePayloadView> {
    let chunk_len = d[index] - 1;
    let typ = d[index + 1];
    let start = index + 2;
    let end = index + chunk_len + 2;
    if typ == 8 || typ == 9 {
        let n = if chunk_len < 10 {
            chunk_len
        } else {
            10
        };
        if start + n > d.len() {
            None
        } else {
            Some(BlePayloadView { short_name: Some(d.subrange(start, start + n) + zeros(10 - n)), ..acc })
        }
    } else if typ == 0x0A {
        Some(BlePayloadView { tx_power: Some(d[start] as i8), ..acc })
    } else if typ == 0x16 {
        let id = d[start] + d[start + 1] * 256;
        if id == BATTERY_UUID {
            if end > d.len() || end - index < 5 {
                None
            } else {
                Some(BlePayloadView { battery_charge: Some(d.subrange(index, index + 5)), ..acc })
            }
        } else if id == TEMPERATURE_UUID {
            if end > d.len() || end - index < 8 {
                None
            } else {
                Some(BlePayloadView { temperature: Some(d.subrange(index, index + 8)), ..acc })
            }
        } else if id == EDDYSTONE_UUID {
            if end > d.len() {
                None
            } else {
                let n = if end - index < 18 {
                    end - index
                } else {
                    18
                };
                Some(BlePayloadView { url: Some(padded(d.subrange(index, end), n, 18)), ..acc })
            }
        } else {
            Some(acc)
        }
    } else {
        Some(acc)
    }
}

/// The chunks of the decoded bytes `d` from `index` up to `len`, taken into
/// `acc`; `None` if a chunk has length 0 or runs past the bytes.
pub open spec fn ble_chunks(d: Seq<u8>, len: int, index: int, acc: BlePayloadView) -> Option<
    BlePayloadView,
>
    decreases (if index < len {
        len - index
    } else {
        0
    }),
{
    if index >= len || index < 0 || index + 3 >= d.len() {
        Some(acc)
    } else if d[index] == 0 {
        None
    } else {
        match chunk_update(d, index, acc) {
            None => None,
            Some(a) => ble_chunks(d, len, index + d[index] + 1, a),
        }
    }
}

/// The advertisement that the decoded bytes `d` hold: the length byte (at
/// most 27) gives where the CRC24 lies, which must match; then come the
/// MAC address and the chunks. `None` if anything is missing or wrong.
pub open spec fn ble_parse(d: Seq<u8>) -> Option<BlePayloadView> {
    if d.len() < 2 || d[1] > 27 {
        None
    } else {
        let len = d[1] + 2;
        if len + 3 > d.len() {
            None
        } else if d.subrange(len, len + 3) != crc24(d.take(len)) {
            None
        } else if d.len() < 8 {
            None
        } else {
            ble_chunks(
                d,
                len,
                8,
                BlePayloadView {
                    mac_address: d.subrange(2, 8),
                    short_name: None,
                    tx_power: None,
                    battery_charge: None,
                    url: None,
                    temperature: None,
                },
            )
        }
    }
}

/// The bytes received on air on `channel`, with each byte's bits reversed
/// and de-whitened.
pub open spec fn ble_decoded(bytes: Seq<u8>, channel: u8) -> Seq<u8> {
    whitened(reversed_all(bytes), ble_coefficient(channel))
}

/// The advertisement that the bytes received on `channel` hold.
pub open spec fn ble_decode(bytes: Seq<u8>, channel: u8) -> Option<BlePayloadView> {
    ble_parse(ble_decoded(bytes, channel))
}

impl BlePayload {
    /// The view of an optional decoded advertisement.
    pub open spec fn opt_view(p: Option<BlePayload>) -> Option<BlePayloadView> {
        match p {
            Some(p) => Some(p@),
            None => None,
        }
    }

    /// Take the chunk at `index` of the decoded bytes `buf` into `acc` (see
    /// [`chunk_update`]).
    fn take_chunk(buf: &[u8], index: usize, acc: BlePayload) -> (r: Option<BlePayload>)
        requires
            index + 3 < buf@.len(),
            index < 64,
            buf@[index as int] != 0,
        ensures
            BlePayload::opt_view(r) == chunk_update(buf@, index as int, acc@),
    {
        let d = buf;
        let chunk_len = (buf[index] - 1) as usize;
        let chunk_type = buf[index + 1];
        let start = index + 2;
        let end = index + chunk_len + 2;
        let mut acc = acc;
        if chunk_type == 8 || chunk_type == 9 {
            let n = if chunk_len < 10 {
                chunk_len
            } else {
                10
            };
            if start + n > buf.len() {
                return None;
            }
            let mut name = [0u8; 10];
            let mut i: usize = 0;
            while i < n
                invariant
                    i <= n <= 10,
                    start < 70,
                    start + n <= buf@.len(),
                    name@.len() == 10,
                    forall|x: int| 0 <= x < i ==> name@[x] == buf@[start + x],
                    forall|x: int| i <= x < 10 ==> name@[x] == 0,
                decreases n - i,
            {
                name[i] = buf[start + i];
                i = i + 1;
            }
            assert(name@ =~= buf@.subrange(start as int, start + n) + zeros(10 - n));
            acc.short_name = Some(name);
        } else if chunk_type == 0x0A {
            acc.tx_power = Some(#[verifier::truncate] (buf[start] as i8));
        } else if chunk_type == 0x16 {
            let service_id: u16 = buf[start] as u16 + (buf[start + 1] as u16) * 256;
            if service_id == BATTERY_UUID {
                if end > buf.len() || end - index < 5 {
                    return None;
                }
                let b = BatteryService::from_buffer(vstd::slice::slice_subrange(buf, index, end));
                assert(b@ =~= buf@.subrange(index as int, index + 5));
                acc.battery_charge = Some(b);
            } else if service_id == TEMPERATURE_UUID {
                if end > buf.len() || end - index < 8 {
                    return None;
                }
                let t = TemperatureService::from_buffer(vstd::slice::slice_subrange(buf, index, end));
                assert(t@ =~= buf@.subrange(index as int, index + 8));
                acc.temperature = Some(t);
            } else if service_id == EDDYSTONE_UUID {
                if end > buf.len() {
                    return None;
                }
                acc.url = Some(UrlService::from_buffer(vstd::slice::slice_subrange(buf, index, end)));
            }
        }
        Some(acc)
    }

    /// The chunks of the decoded bytes `d` from 8 up to `len`, taken into
    /// `acc` (see [`ble_chunks`]).
    fn parse_chunks(d: &[u8], len: usize, first: BlePayload) -> (r: Option<BlePayload>)
        requires
            len <= 29,
            len + 3 <= d@.len(),
        ensures
            BlePayload::opt_view(r) == ble_chunks(d@, len as int, 8, first@),
    {
        let ghost init = first@;
        let mut acc = first;
        let mut index: usize = 8;
        while index < len
            invariant
                8 <= index,
                index <= len || index == 8,
                len <= 29,
                len + 3 <= d@.len(),
                init == first@,
                ble_chunks(d@, len as int, index as int, acc@) == ble_chunks(d@, len as int, 8, init),
            decreases len - index,
        {
            if d[index] == 0 {
                return None;
            }
            let end = index + d[index] as usize + 1;
            let ghost old_acc = acc@;
            match BlePayload::take_chunk(d, index, acc) {
                Some(next) => {
                    proof {
                        assert(ble_chunks(d@, len as int, index as int, old_acc) == ble_chunks(
                            d@,
                            len as int,
                            end as int,
                            next@,
                        ));
                        assert(ble_chunks(d@, len as int, end as int, next@) == ble_chunks(
                            d@,
                            len as int,
                            if end < len {
                                end as int
                            } else {
                                len as int
                            },
                            next@,
                        ));
                    }
                    acc = next;
                },
                None => {
                    return None;
                },
            }
            index = if end < len {
                end
            } else {
                len
            };
        }
        Some(acc)
    }

    /// The advertisement that the decoded bytes `d` hold (see
    /// [`ble_parse`]).
    fn parse_decoded(d: &[u8]) -> (r: Option<BlePayload>)
        ensures
            BlePayload::opt_view(r) == ble_parse(d@),
    {
        if d.len() < 2 {
            return None;
        }
        let len = d[1] as usize;
        if len > 27 {
            return None;
        }
        let len = len + 2;
        if len + 3 > d.len() {
            return None;
        }
        let expected = crc24_ble(vstd::slice::slice_subrange(d, 0, len));
        proof {
            assert(d@.subrange(0, len as int) =~= d@.take(len as int));
        }
        if d[len] != expected[0] || d[len + 1] != expected[1] || d[len + 2] != expected[2] {
            proof {
                if d@.subrange(len as int, len + 3) == crc24(d@.take(len as int)) {
                    assert(d@.subrange(len as int, len + 3)[0] == d@[len as int]);
                    assert(d@.subrange(len as int, len + 3)[1] == d@[len + 1]);
                    assert(d@.subrange(len as int, len + 3)[2] == d@[len + 2]);
                }
            }
            return None;
        }
        proof {
            assert(d@.subrange(len as int, len + 3) =~= crc24(d@.take(len as int)));
        }
        if d.len() < 8 {
            return None;
        }
        let acc = BlePayload {
            mac_address: [d[2], d[3], d[4], d[5], d[6], d[7]],
            short_name: None,
            tx_power: None,
            battery_charge: None,
            url: None,
            temperature: None,
        };
        assert(acc@.mac_address =~= d@.subrange(2, 8));
        BlePayload::parse_chunks(d, len, acc)
    }

    /// Decode the bytes `buf` received on `channel` (see [`ble_decode`]);
    /// `buf` is left decoded ([`ble_decoded`]). `None` if the advertisement
    /// is malformed or incomplete.
    pub fn from_bytes(buf: &mut [u8], channel: u8) -> (r: Option<BlePayload>)
        ensures
            final(buf)@ == ble_decoded(old(buf)@, channel),
            BlePayload::opt_view(r) == ble_decode(old(buf)@, channel),
    {
        reverse_bits(buf);
        let coefficient = coefficient_of(channel);
        whiten(buf, coefficient);
        BlePayload::parse_decoded(buf)
    }
}

} // verus!
