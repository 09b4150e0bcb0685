//! Bit reversal, whitening and the CRC24 checksum of BLE packets.
use vstd::prelude::*;

verus! {

/// A byte with its bits in reverse order.
pub open spec fn reversed(b: u8) -> u8 {
    ((b >> 7u8) & 1) | ((b >> 5u8) & 2) | ((b >> 3u8) & 4) | ((b >> 1u8) & 8) | ((b << 1u8) & 16)
        | ((b << 3u8) & 32) | ((b << 5u8) & 64) | ((b << 7u8) & 128)
}

/// Each byte with its bits in reverse order.
pub open spec fn reversed_all(s: Seq<u8>) -> Seq<u8> {
    Seq::new(s.len(), |i: int| reversed(s[i]))
}

/// Reversing the bits of a byte twice gives the byte back.
pub proof fn lemma_reversed_twice(b: u8)
    by (bit_vector)
    ensures
        reversed(reversed(b)) == b,
{
}

/// Reversing the bits of each byte twice gives the bytes back.
pub proof fn lemma_reversed_all_twice(s: Seq<u8>)
    ensures
        reversed_all(reversed_all(s)) == s,
{
    assert forall|i: int| 0 <= i < s.len() implies reversed_all(reversed_all(s))[i] == s[i] by {
        lemma_reversed_twice(s[i]);
    }
    assert(reversed_all(reversed_all(s)) =~= s);
}

/// The byte `b` with its bits in reverse order.
pub fn reverse_byte(b: u8) -> (r: u8)
    ensures
        r == reversed(b),
{
    ((b >> 7u8) & 1) | ((b >> 5u8) & 2) | ((b >> 3u8) & 4) | ((b >> 1u8) & 8) | ((b << 1u8) & 16)
        | ((b << 3u8) & 32) | ((b << 5u8) & 64) | ((b << 7u8) & 128)
}

/// Reverse the bit order of each byte in `buf` (the order of the bytes
/// stays).
pub fn reverse_bits(buf: &mut [u8])
    ensures
        final(buf)@ == reversed_all(old(buf)@),
{
    let n = buf.len();
    reverse_first(buf, n);
    assert(reversed_all(old(buf)@.take(n as int)) + old(buf)@.skip(n as int) =~= reversed_all(
        old(buf)@,
    ));
}

/// Reverse the bit order of each of the first `n` bytes in `buf`.
pub(crate) fn reverse_first(buf: &mut [u8], n: usize)
    requires
        n <= old(buf)@.len(),
    ensures
        final(buf)@ == reversed_all(old(buf)@.take(n as int)) + old(buf)@.skip(n as int),
{
    let mut i: usize = 0;
    while i < n
        invariant
            i <= n <= buf@.len(),
            buf@.len() == old(buf)@.len(),
            forall|j: int| 0 <= j < i ==> buf@[j] == reversed(old(buf)@[j]),
            forall|j: int| i <= j < buf@.len() ==> buf@[j] == old(buf)@[j],
        decreases n - i,
    {
        let b = reverse_byte(buf[i]);
        buf[i] = b;
        i = i + 1;
    }
    assert(buf@ =~= reversed_all(old(buf)@.take(n as int)) + old(buf)@.skip(n as int));
}

/// The next state of the whitening register after whitening one bit.
pub open spec fn lfsr_next(coef: u8) -> u8 {
    if coef & 1 == 1 {
        (coef ^ 0x88) >> 1u8
    } else {
        coef >> 1u8
    }
}

/// The state of the whitening register after `n` bits from state `coef`.
pub open spec fn lfsr(coef: u8, n: nat) -> u8
    decreases n,
{
    if n == 0 {
        coef
    } else {
        lfsr_next(lfsr(coef, (n - 1) as nat))
    }
}

/// The bits, among the first `n` of a byte, that whitening flips when the
/// register starts the byte in state `coef`: bit `i` flips when the
/// register's state before it is odd.
pub open spec fn white_mask(coef: u8, n: nat) -> u8
    decreases n,
{
    if n == 0 {
        0
    } else {
        white_mask(coef, (n - 1) as nat) ^ (if lfsr(coef, (n - 1) as nat) & 1 == 1 {
            1u8 << ((n - 1) as u8)
        } else {
            0u8
        })
    }
}

/// The state of the whitening register at the start of byte `k`.
pub open spec fn byte_coef(coef: u8, k: nat) -> u8
    decreases k,
{
    if k == 0 {
        coef
    } else {
        lfsr(byte_coef(coef, (k - 1) as nat), 8)
    }
}

/// `buf` whitened from the register state `coef`.
pub open spec fn whitened(buf: Seq<u8>, coef: u8) -> Seq<u8> {
    Seq::new(buf.len(), |k: int| buf[k] ^ white_mask(byte_coef(coef, k as nat), 8))
}

/// Facts about exclusive or.
pub(crate) proof fn lemma_xor(a: u8, b: u8, c: u8)
    by (bit_vector)
    ensures
        (a ^ b) ^ c == a ^ (b ^ c),
        a ^ 0 == a,
        (a ^ b) ^ b == a,
{
}

/// Shifting a bit one place left.
proof fn lemma_next_bit(i: u8)
    by (bit_vector)
    requires
        i < 7,
    ensures
        (1u8 << i) << 1u8 == 1u8 << (i + 1),
        1u8 << 0u8 == 1u8,
{
}

/// Whitening twice with the same coefficient gives the data back.
pub proof fn lemma_whitened_twice(buf: Seq<u8>, coef: u8)
    ensures
        whitened(whitened(buf, coef), coef) == buf,
{
    assert forall|k: int| 0 <= k < buf.len() implies whitened(whitened(buf, coef), coef)[k]
        == buf[k] by {
        lemma_xor(buf[k], white_mask(byte_coef(coef, k as nat), 8), 0);
    }
    assert(whitened(whitened(buf, coef), coef) =~= buf);
}

/// Whiten (or de-whiten) `buf` from the register state `coefficient`, to
/// avoid long runs of equal bits on air. The coefficient is the index in
/// [`BLE_CHANNEL`](crate::ble::radio::BLE_CHANNEL) of the channel used, plus
/// 37, with bit 6 set.
pub fn whiten(buf: &mut [u8], coefficient: u8)
    ensures
        final(buf)@ == whitened(old(buf)@, coefficient),
{
    let n = buf.len();
    whiten_first(buf, n, coefficient);
    assert(whitened(old(buf)@.take(n as int), coefficient) + old(buf)@.skip(n as int) =~= whitened(
        old(buf)@,
        coefficient,
    ));
}

/// Whiten the first `n` bytes of `buf` from the register state
/// `coefficient`.
pub(crate) fn whiten_first(buf: &mut [u8], n: usize, coefficient: u8)
    requires
        n <= old(buf)@.len(),
    ensures
        final(buf)@ == whitened(old(buf)@.take(n as int), coefficient) + old(buf)@.skip(n as int),
{
    let mut coef = coefficient;
    let mut k: usize = 0;
    while k < n
        invariant
            k <= n <= buf@.len(),
            buf@.len() == old(buf)@.len(),
            coef == byte_coef(coefficient, k as nat),
            forall|j: int| 0 <= j < k ==> buf@[j] == whitened(old(buf)@, coefficient)[j],
            forall|j: int| k <= j < buf@.len() ==> buf@[j] == old(buf)@[j],
        decreases n - k,
    {
        let ghost c0 = coef;
        let byte = buf[k];
        let mut result = byte;
        let mut mask: u8 = 1;
        let mut i: u8 = 0;
        proof {
            lemma_xor(byte, 0, 0);
            lemma_next_bit(0);
        }
        while i < 8
            invariant
                i <= 8,
                coef == lfsr(c0, i as nat),
                result == byte ^ white_mask(c0, i as nat),
                i < 8 ==> mask == 1u8 << i,
            decreases 8 - i,
        {
            proof {
                lemma_xor(byte, white_mask(c0, i as nat), mask);
                lemma_xor(byte ^ white_mask(c0, i as nat), 0, 0);
                lemma_xor(white_mask(c0, i as nat), 0, 0);
                if i < 7 {
                    lemma_next_bit(i);
                }
            }
            if (coef & 1) == 1 {
                coef = coef ^ 0x88;
                result = result ^ mask;
            }
            mask = mask << 1u8;
            coef = coef >> 1u8;
            i = i + 1;
        }
        buf[k] = result;
        k = k + 1;
    }
    assert(buf@ =~= whitened(old(buf)@.take(n as int), coefficient) + old(buf)@.skip(n as int));
}

/// One step of the CRC24 shift register.
pub open spec fn crc_shift(crc: u32) -> u32 {
    if crc & 0x800000 > 0 {
        (crc << 1u32) ^ 0x65B
    } else {
        crc << 1u32
    }
}

/// `n` steps of the CRC24 shift register.
pub open spec fn crc_shifts(crc: u32, n: nat) -> u32
    decreases n,
{
    if n == 0 {
        crc
    } else {
        crc_shift(crc_shifts(crc, (n - 1) as nat))
    }
}

/// The CRC24 register after taking in `byte` (bits reversed, at the top).
pub open spec fn crc_byte(crc: u32, byte: u8) -> u32 {
    crc_shifts(crc ^ ((reversed(byte) as u32) << 16u32), 8) & 0xFFFFFF
}

/// The CRC24 register after taking in `data`, from the initial `0x555555`.
pub open spec fn crc_state(data: Seq<u8>) -> u32
    decreases data.len(),
{
    if data.len() == 0 {
        0x555555
    } else {
        crc_byte(crc_state(data.drop_last()), data.last())
    }
}

/// The CRC24 checksum of `data`: the register's three bytes, most
/// significant first, each with its bits reversed.
pub open spec fn crc24(data: Seq<u8>) -> Seq<u8> {
    let c = crc_state(data);
    seq![reversed((c >> 16u32) as u8), reversed((c >> 8u32) as u8), reversed(c as u8)]
}

/// Calculate the 24 bit CRC checksum of `data` (see [`crc24`]). It is
/// appended to the payload before [`reverse_bits`] and [`whiten`].
pub fn crc24_ble(data: &[u8]) -> (r: [u8; 3])
    ensures
        r@ == crc24(data@),
{
    let degree_polynomial: u32 = 0x65B;
    let mut crc: u32 = 0x555555;
    let n = data.len();
    let mut k: usize = 0;
    while k < n
        invariant
            k <= n == data@.len(),
            crc == crc_state(data@.take(k as int)),
            degree_polynomial == 0x65B,
        decreases n - k,
    {
        let ghost c0 = crc ^ ((reversed(data@[k as int]) as u32) << 16u32);
        crc = crc ^ ((reverse_byte(data[k]) as u32) << 16u32);
        let mut i: u8 = 0;
        while i < 8
            invariant
                i <= 8,
                crc == crc_shifts(c0, i as nat),
                degree_polynomial == 0x65B,
            decreases 8 - i,
        {
            if (crc & 0x800000) > 0 {
                crc = (crc << 1u32) ^ degree_polynomial;
            } else {
                crc = crc << 1u32;
            }
            i = i + 1;
        }
        crc = crc & 0xFFFFFF;
        assert(data@.take(k + 1).drop_last() =~= data@.take(k as int));
        k = k + 1;
    }
    assert(data@.take(n as int) =~= data@);
    let r = [
        reverse_byte(#[verifier::truncate] ((crc >> 16u32) as u8)),
        reverse_byte(#[verifier::truncate] ((crc >> 8u32) as u8)),
        reverse_byte(#[verifier::truncate] (crc as u8)),
    ];
    assert(r@ =~= crc24(data@));
    r
}

/// The bytewise exclusive or of three byte strings (of the length of `a`).
pub open spec fn xor3(a: Seq<u8>, b: Seq<u8>, c: Seq<u8>) -> Seq<u8> {
    Seq::new(a.len(), |i: int| a[i] ^ b[i] ^ c[i])
}

/// One step of the CRC24 register is linear.
proof fn lemma_crc_shift_xor(x: u32, y: u32, z: u32)
    by (bit_vector)
    ensures
        crc_shift(x ^ y ^ z) == crc_shift(x) ^ crc_shift(y) ^ crc_shift(z),
{
}

/// Steps of the CRC24 register are linear.
proof fn lemma_crc_shifts_xor(x: u32, y: u32, z: u32, n: nat)
    ensures
        crc_shifts(x ^ y ^ z, n) == crc_shifts(x, n) ^ crc_shifts(y, n) ^ crc_shifts(z, n),
    decreases n,
{
    if n > 0 {
        lemma_crc_shifts_xor(x, y, z, (n - 1) as nat);
        lemma_crc_shift_xor(
            crc_shifts(x, (n - 1) as nat),
            crc_shifts(y, (n - 1) as nat),
            crc_shifts(z, (n - 1) as nat),
        );
    }
}

/// Taking in a byte is linear in the register and the byte together.
proof fn lemma_crc_byte_xor(x: u32, y: u32, z: u32, a: u8, b: u8, c: u8)
    ensures
        crc_byte(x ^ y ^ z, a ^ b ^ c) == crc_byte(x, a) ^ crc_byte(y, b) ^ crc_byte(z, c),
{
    assert(reversed(a ^ b ^ c) == reversed(a) ^ reversed(b) ^ reversed(c)) by (bit_vector);
    let (ra, rb, rc) = (reversed(a), reversed(b), reversed(c));
    assert((x ^ y ^ z) ^ (((ra ^ rb ^ rc) as u32) << 16u32) == (x ^ ((ra as u32) << 16u32)) ^ (y ^ ((
    rb as u32) << 16u32)) ^ (z ^ ((rc as u32) << 16u32))) by (bit_vector);
    let (p, q, r) = (x ^ ((ra as u32) << 16u32), y ^ ((rb as u32) << 16u32), z ^ ((rc as u32) << 16u32));
    lemma_crc_shifts_xor(p, q, r, 8);
    let (sp, sq, sr) = (crc_shifts(p, 8), crc_shifts(q, 8), crc_shifts(r, 8));
    assert((sp ^ sq ^ sr) & 0xFFFFFF == (sp & 0xFFFFFF) ^ (sq & 0xFFFFFF) ^ (sr & 0xFFFFFF)) by (bit_vector);
}

/// The CRC24 register after the exclusive or of three strings of one length
/// is the exclusive or of the registers after each.
proof fn lemma_crc_state_xor(a: Seq<u8>, b: Seq<u8>, c: Seq<u8>)
    requires
        a.len() == b.len() == c.len(),
    ensures
        crc_state(xor3(a, b, c)) == crc_state(a) ^ crc_state(b) ^ crc_state(c),
    decreases a.len(),
{
    let x = xor3(a, b, c);
    if a.len() == 0 {
        assert(0x555555u32 ^ 0x555555u32 ^ 0x555555u32 == 0x555555u32) by (bit_vector);
    } else {
        assert(x.drop_last() =~= xor3(a.drop_last(), b.drop_last(), c.drop_last()));
        lemma_crc_state_xor(a.drop_last(), b.drop_last(), c.drop_last());
        lemma_crc_byte_xor(
            crc_state(a.drop_last()),
            crc_state(b.drop_last()),
            crc_state(c.drop_last()),
            a.last(),
            b.last(),
            c.last(),
        );
    }
}

/// The CRC24 checksum is affine: for three byte strings of one length, the
/// checksum of their exclusive or is the exclusive or of their checksums.
pub proof fn law_crc24_affine(a: Seq<u8>, b: Seq<u8>, c: Seq<u8>)
    requires
        a.len() == b.len() == c.len(),
    ensures
        crc24(xor3(a, b, c)) == xor3(crc24(a), crc24(b), crc24(c)),
{
    lemma_crc_state_xor(a, b, c);
    let (x, y, z) = (crc_state(a), crc_state(b), crc_state(c));
    assert forall|k: u32| k < 24 implies #[trigger] (((x ^ y ^ z) >> k) as u8) == ((x >> k) as u8) ^ ((y
        >> k) as u8) ^ ((z >> k) as u8) by {
        assert((((x ^ y ^ z) >> k) as u8) == ((x >> k) as u8) ^ ((y >> k) as u8) ^ ((z >> k) as u8))
            by (bit_vector);
    }
    assert forall|p: u8, q: u8, r: u8| #[trigger] reversed(p ^ q ^ r) == reversed(p) ^ reversed(q)
        ^ reversed(r) by {
        assert(reversed(p ^ q ^ r) == reversed(p) ^ reversed(q) ^ reversed(r)) by (bit_vector);
    }
    assert(((x ^ y ^ z) >> 0u32) == (x ^ y ^ z) && (x >> 0u32) == x && (y >> 0u32) == y && (z >> 0u32)
        == z) by (bit_vector);
    assert(crc24(xor3(a, b, c)) =~= xor3(crc24(a), crc24(b), crc24(c)));
}

} // verus!
