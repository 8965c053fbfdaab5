//! SHA-256 (FIPS 180-4), HMAC-SHA256 (RFC 2104) rendered in lowercase hex,
//! and a constant-time comparison, as the daemon signs and checks webhooks.
use vstd::prelude::*;
use crate::text::string_from_chars;

verus! {

/// Round constants.
pub const K: [u32; 64] = [
    0x428a2f98, 0x71374491, 0xb5c0fbcf, 0xe9b5dba5, 0x3956c25b, 0x59f111f1, 0x923f82a4,
    0xab1c5ed5, 0xd807aa98, 0x12835b01, 0x243185be, 0x550c7dc3, 0x72be5d74, 0x80deb1fe,
    0x9bdc06a7, 0xc19bf174, 0xe49b69c1, 0xefbe4786, 0x0fc19dc6, 0x240ca1cc, 0x2de92c6f,
    0x4a7484aa, 0x5cb0a9dc, 0x76f988da, 0x983e5152, 0xa831c66d, 0xb00327c8, 0xbf597fc7,
    0xc6e00bf3, 0xd5a79147, 0x06ca6351, 0x14292967, 0x27b70a85, 0x2e1b2138, 0x4d2c6dfc,
    0x53380d13, 0x650a7354, 0x766a0abb, 0x81c2c92e, 0x92722c85, 0xa2bfe8a1, 0xa81a664b,
    0xc24b8b70, 0xc76c51a3, 0xd192e819, 0xd6990624, 0xf40e3585, 0x106aa070, 0x19a4c116,
    0x1e376c08, 0x2748774c, 0x34b0bcb5, 0x391c0cb3, 0x4ed8aa4a, 0x5b9cca4f, 0x682e6ff3,
    0x748f82ee, 0x78a5636f, 0x84c87814, 0x8cc70208, 0x90befffa, 0xa4506ceb, 0xbef9a3f7,
    0xc67178f2,
];

/// Initial hash value.
pub open spec fn h0() -> Seq<u32> {
    seq![
        0x6a09e667u32,
        0xbb67ae85u32,
        0x3c6ef372u32,
        0xa54ff53au32,
        0x510e527fu32,
        0x9b05688cu32,
        0x1f83d9abu32,
        0x5be0cd19u32,
    ]
}

/// Rotation of a 32-bit word to the right by `n` (0 < n < 32).
pub open spec fn rotr(x: u32, n: u32) -> u32 {
    (x >> n) | (x << ((32 - n) as u32))
}

fn rotate(x: u32, n: u32) -> (r: u32)
    requires
        0 < n < 32,
    ensures
        r == rotr(x, n),
{
    (x >> n) | (x << (32 - n))
}

/// The big-endian word at byte offset `i`.
pub open spec fn be_word(b: Seq<u8>, i: int) -> u32 {
    ((b[i] as u32) << 24u32) | ((b[i + 1] as u32) << 16u32) | ((b[i + 2] as u32) << 8u32) | (
    b[i + 3] as u32)
}

pub open spec fn small_sigma0(x: u32) -> u32 {
    rotr(x, 7) ^ rotr(x, 18) ^ (x >> 3u32)
}

pub open spec fn small_sigma1(x: u32) -> u32 {
    rotr(x, 17) ^ rotr(x, 19) ^ (x >> 10u32)
}

/// Word `i` of the message schedule of `block`, given words `0..i`.
pub open spec fn schedule_word(block: Seq<u8>, w: Seq<u32>, i: int) -> u32 {
    if i < 16 {
        be_word(block, 4 * i)
    } else {
        w[i - 16].wrapping_add(small_sigma0(w[i - 15])).wrapping_add(w[i - 7]).wrapping_add(
            small_sigma1(w[i - 2]),
        )
    }
}

/// The first `n` words of the message schedule.
pub open spec fn schedule(block: Seq<u8>, n: nat) -> Seq<u32>
    decreases n,
{
    if n == 0 {
        Seq::empty()
    } else {
        let w = schedule(block, (n - 1) as nat);
        w.push(schedule_word(block, w, n - 1))
    }
}

/// The eight working variables.
pub struct Regs {
    pub a: u32,
    pub b: u32,
    pub c: u32,
    pub d: u32,
    pub e: u32,
    pub f: u32,
    pub g: u32,
    pub h: u32,
}

pub open spec fn big_sigma0(x: u32) -> u32 {
    rotr(x, 2) ^ rotr(x, 13) ^ rotr(x, 22)
}

pub open spec fn big_sigma1(x: u32) -> u32 {
    rotr(x, 6) ^ rotr(x, 11) ^ rotr(x, 25)
}

/// One compression round with constant `k` and schedule word `w`.
pub open spec fn round(r: Regs, k: u32, w: u32) -> Regs {
    let ch = (r.e & r.f) ^ (!r.e & r.g);
    let t1 = r.h.wrapping_add(big_sigma1(r.e)).wrapping_add(ch).wrapping_add(k).wrapping_add(w);
    let maj = (r.a & r.b) ^ (r.a & r.c) ^ (r.b & r.c);
    let t2 = big_sigma0(r.a).wrapping_add(maj);
    Regs {
        a: t1.wrapping_add(t2),
        b: r.a,
        c: r.b,
        d: r.c,
        e: r.d.wrapping_add(t1),
        f: r.e,
        g: r.f,
        h: r.g,
    }
}

/// The working variables after the first `n` rounds.
pub open spec fn rounds(r: Regs, w: Seq<u32>, n: nat) -> Regs
    decreases n,
{
    if n == 0 {
        r
    } else {
        round(rounds(r, w, (n - 1) as nat), K@[n - 1], w[n - 1])
    }
}

pub open spec fn regs_of(h: Seq<u32>) -> Regs {
    Regs { a: h[0], b: h[1], c: h[2], d: h[3], e: h[4], f: h[5], g: h[6], h: h[7] }
}

/// The hash value after compressing one 64-byte block.
pub open spec fn compress(h: Seq<u32>, block: Seq<u8>) -> Seq<u32> {
    let r = rounds(regs_of(h), schedule(block, 64), 64);
    seq![
        h[0].wrapping_add(r.a),
        h[1].wrapping_add(r.b),
        h[2].wrapping_add(r.c),
        h[3].wrapping_add(r.d),
        h[4].wrapping_add(r.e),
        h[5].wrapping_add(r.f),
        h[6].wrapping_add(r.g),
        h[7].wrapping_add(r.h),
    ]
}

/// The hash value after the first `n` blocks of a padded message.
pub open spec fn digest_blocks(padded: Seq<u8>, n: nat) -> Seq<u32>
    decreases n,
{
    if n == 0 {
        h0()
    } else {
        compress(digest_blocks(padded, (n - 1) as nat), padded.subrange(64 * (n - 1), 64 * n as int))
    }
}

/// The big-endian bytes of a 64-bit length.
pub open spec fn be64(x: u64) -> Seq<u8> {
    seq![
        (x >> 56u64) as u8,
        (x >> 48u64) as u8,
        (x >> 40u64) as u8,
        (x >> 32u64) as u8,
        (x >> 24u64) as u8,
        (x >> 16u64) as u8,
        (x >> 8u64) as u8,
        x as u8,
    ]
}

/// The number of zero bytes between the 0x80 marker and the length.
pub open spec fn zero_pad_len(len: nat) -> nat {
    ((119 - (len % 64)) % 64) as nat
}

/// The padded message: the bytes, 0x80, zeros up to 56 mod 64, the bit length.
pub open spec fn pad(msg: Seq<u8>) -> Seq<u8> {
    msg.push(0x80u8) + Seq::new(zero_pad_len(msg.len()), |i: int| 0u8) + be64(
        (msg.len() * 8) as u64,
    )
}

/// The bytes of a word sequence, each word big-endian.
pub open spec fn words_be(h: Seq<u32>) -> Seq<u8>
    decreases h.len(),
{
    if h.len() == 0 {
        Seq::empty()
    } else {
        words_be(h.drop_last()) + seq![
            (h.last() >> 24u32) as u8,
            (h.last() >> 16u32) as u8,
            (h.last() >> 8u32) as u8,
            h.last() as u8,
        ]
    }
}

/// SHA-256 of a byte string.
pub open spec fn sha256_spec(msg: Seq<u8>) -> Seq<u8> {
    let p = pad(msg);
    words_be(digest_blocks(p, p.len() / 64))
}

proof fn lemma_pad_len(len: nat)
    ensures
        (len + 1 + zero_pad_len(len) + 8) % 64 == 0,
        (len + 1 + zero_pad_len(len)) % 64 == 56,
{
}

/// The message schedule of one block.
fn message_schedule(block: &[u8], off: usize) -> (w: Vec<u32>)
    requires
        off + 64 <= block@.len(),
        off + 64 <= usize::MAX,
    ensures
        w@ == schedule(block@.subrange(off as int, off + 64), 64),
        w@.len() == 64,
{
    let ghost b = block@.subrange(off as int, off + 64);
    let mut w: Vec<u32> = Vec::new();
    let mut i: usize = 0;
    while i < 64
        invariant
            off + 64 <= block@.len(),
            off + 64 <= usize::MAX,
            b == block@.subrange(off as int, off + 64),
            i <= 64,
            w@ == schedule(b, i as nat),
            w@.len() == i,
        decreases 64 - i,
    {
        let x: u32 = if i < 16 {
            let j = off + 4 * i;
            assert(b[4 * i as int] == block@[j as int]);
            assert(b[4 * i + 1] == block@[j + 1]);
            assert(b[4 * i + 2] == block@[j + 2]);
            assert(b[4 * i + 3] == block@[j + 3]);
            ((block[j] as u32) << 24) | ((block[j + 1] as u32) << 16) | ((block[j + 2] as u32)
                << 8) | (block[j + 3] as u32)
        } else {
            let w15 = w[i - 15];
            let w2 = w[i - 2];
            let s0 = rotate(w15, 7) ^ rotate(w15, 18) ^ (w15 >> 3);
            let s1 = rotate(w2, 17) ^ rotate(w2, 19) ^ (w2 >> 10);
            w[i - 16].wrapping_add(s0).wrapping_add(w[i - 7]).wrapping_add(s1)
        };
        assert(x == schedule_word(b, w@, i as int));
        w.push(x);
        i = i + 1;
    }
    w
}

/// Compresses the block at byte offset `off` into the hash value `h`.
fn compress_block(h: &mut Vec<u32>, padded: &[u8], off: usize)
    requires
        old(h)@.len() == 8,
        off + 64 <= padded@.len(),
        off + 64 <= usize::MAX,
    ensures
        final(h)@ == compress(old(h)@, padded@.subrange(off as int, off + 64)),
{
    let w = message_schedule(padded, off);
    let ghost r0 = regs_of(h@);
    let mut a = h[0];
    let mut b = h[1];
    let mut c = h[2];
    let mut d = h[3];
    let mut e = h[4];
    let mut f = h[5];
    let mut g = h[6];
    let mut hh = h[7];
    let mut i: usize = 0;
    while i < 64
        invariant
            w@.len() == 64,
            i <= 64,
            (Regs { a, b, c, d, e, f, g, h: hh }) == rounds(r0, w@, i as nat),
        decreases 64 - i,
    {
        let s1 = rotate(e, 6) ^ rotate(e, 11) ^ rotate(e, 25);
        let ch = (e & f) ^ (!e & g);
        let t1 = hh.wrapping_add(s1).wrapping_add(ch).wrapping_add(K[i]).wrapping_add(w[i]);
        let s0 = rotate(a, 2) ^ rotate(a, 13) ^ rotate(a, 22);
        let maj = (a & b) ^ (a & c) ^ (b & c);
        let t2 = s0.wrapping_add(maj);
        hh = g;
        g = f;
        f = e;
        e = d.wrapping_add(t1);
        d = c;
        c = b;
        b = a;
        a = t1.wrapping_add(t2);
        i = i + 1;
    }
    let ghost hv = h@;
    let n0 = h[0].wrapping_add(a);
    let n1 = h[1].wrapping_add(b);
    let n2 = h[2].wrapping_add(c);
    let n3 = h[3].wrapping_add(d);
    let n4 = h[4].wrapping_add(e);
    let n5 = h[5].wrapping_add(f);
    let n6 = h[6].wrapping_add(g);
    let n7 = h[7].wrapping_add(hh);
    h.set(0, n0);
    h.set(1, n1);
    h.set(2, n2);
    h.set(3, n3);
    h.set(4, n4);
    h.set(5, n5);
    h.set(6, n6);
    h.set(7, n7);
    assert(h@ =~= compress(hv, padded@.subrange(off as int, off + 64)));
}

/// SHA-256 of `msg`.
pub fn sha256(msg: &[u8]) -> (out: Vec<u8>)
    requires
        msg@.len() * 8 <= u64::MAX,
    ensures
        out@ == sha256_spec(msg@),
        out@.len() == 32,
{
    let bit_len: u64 = (msg.len() as u64) * 8;
    let mut padded: Vec<u8> = Vec::new();
    let mut i: usize = 0;
    while i < msg.len()
        invariant
            i <= msg@.len(),
            padded@ == msg@.subrange(0, i as int),
        decreases msg@.len() - i,
    {
        padded.push(msg[i]);
        assert(padded@ =~= msg@.subrange(0, i + 1));
        i = i + 1;
    }
    assert(msg@.subrange(0, msg@.len() as int) =~= msg@);
    padded.push(0x80);
    let ghost zl = zero_pad_len(msg@.len());
    proof {
        lemma_pad_len(msg@.len());
    }
    while padded.len() % 64 != 56
        invariant
            msg@.len() + 1 <= padded@.len() <= msg@.len() + 1 + zl,
            padded@ == msg@.push(0x80u8) + Seq::new((padded@.len() - msg@.len() - 1) as nat, |i: int| 0u8),
            (msg@.len() + 1 + zl) % 64 == 56,
        decreases msg@.len() + 1 + zl - padded@.len(),
    {
        let ghost before = padded@;
        padded.push(0);
        assert(padded@ =~= msg@.push(0x80u8) + Seq::new((padded@.len() - msg@.len() - 1) as nat, |i: int| 0u8));
    }
    assert(padded@.len() == msg@.len() + 1 + zl) by {
        assert((padded@.len()) % 64 == 56);
    }
    let b = bit_len;
    padded.push((b >> 56) as u8);
    padded.push((b >> 48) as u8);
    padded.push((b >> 40) as u8);
    padded.push((b >> 32) as u8);
    padded.push((b >> 24) as u8);
    padded.push((b >> 16) as u8);
    padded.push((b >> 8) as u8);
    padded.push(b as u8);
    let ghost p = pad(msg@);
    assert(padded@ =~= p);
    let plen = padded.len();
    let nblocks = plen / 64;
    let mut h: Vec<u32> = Vec::new();
    h.push(0x6a09e667);
    h.push(0xbb67ae85);
    h.push(0x3c6ef372);
    h.push(0xa54ff53a);
    h.push(0x510e527f);
    h.push(0x9b05688c);
    h.push(0x1f83d9ab);
    h.push(0x5be0cd19);
    assert(h@ =~= h0());
    let mut blk: usize = 0;
    while blk < nblocks
        invariant
            padded@ == p,
            plen == p.len(),
            nblocks == p.len() / 64,
            blk <= nblocks,
            h@ == digest_blocks(p, blk as nat),
            h@.len() == 8,
        decreases nblocks - blk,
    {
        assert(blk * 64 + 64 <= p.len()) by (nonlinear_arith)
            requires
                blk < nblocks,
                nblocks == p.len() / 64,
        ;
        compress_block(&mut h, padded.as_slice(), blk * 64);
        assert(p.subrange(64 * (blk as int), 64 * (blk + 1)) == p.subrange(blk * 64, blk * 64 + 64));
        blk = blk + 1;
    }
    let mut out: Vec<u8> = Vec::new();
    let mut j: usize = 0;
    while j < 8
        invariant
            h@.len() == 8,
            j <= 8,
            out@ == words_be(h@.subrange(0, j as int)),
        decreases 8 - j,
    {
        let x = h[j];
        out.push((x >> 24) as u8);
        out.push((x >> 16) as u8);
        out.push((x >> 8) as u8);
        out.push(x as u8);
        proof {
            let hs = h@.subrange(0, j + 1);
            assert(hs.drop_last() =~= h@.subrange(0, j as int));
            assert(hs.last() == x);
        }
        j = j + 1;
    }
    assert(h@.subrange(0, 8) =~= h@);
    proof {
        lemma_words_be_len(h@);
    }
    out
}

proof fn lemma_words_be_len(h: Seq<u32>)
    ensures
        words_be(h).len() == 4 * h.len(),
    decreases h.len(),
{
    if h.len() > 0 {
        lemma_words_be_len(h.drop_last());
    }
}

} // verus!

verus! {

/// The 64-byte HMAC key block: long keys are hashed first, then zero-filled.
pub open spec fn hmac_key_block(key: Seq<u8>) -> Seq<u8> {
    if key.len() > 64 {
        sha256_spec(key) + Seq::new(32, |i: int| 0u8)
    } else {
        key + Seq::new((64 - key.len()) as nat, |i: int| 0u8)
    }
}

/// The key block XOR-ed with a pad byte.
pub open spec fn xor_pad(k: Seq<u8>, c: u8) -> Seq<u8> {
    Seq::new(64, |i: int| c ^ k[i])
}

/// HMAC-SHA256 of `msg` under `key` (RFC 2104).
pub open spec fn hmac_spec(key: Seq<u8>, msg: Seq<u8>) -> Seq<u8> {
    let kb = hmac_key_block(key);
    sha256_spec(xor_pad(kb, 0x5cu8) + sha256_spec(xor_pad(kb, 0x36u8) + msg))
}

/// A lowercase hexadecimal digit.
pub open spec fn hex_digit(d: u8) -> char {
    if d < 10 {
        ((d + 48) as u8) as char
    } else {
        ((d + 87) as u8) as char
    }
}

/// Each byte as two lowercase hex digits, high nibble first.
pub open spec fn hex_lower(b: Seq<u8>) -> Seq<char>
    decreases b.len(),
{
    if b.len() == 0 {
        Seq::empty()
    } else {
        hex_lower(b.drop_last()) + seq![hex_digit(b.last() >> 4u8), hex_digit(b.last() & 15u8)]
    }
}

fn hex_char(d: u8) -> (c: char)
    requires
        d < 16,
    ensures
        c == hex_digit(d),
{
    if d < 10 {
        (d + 48) as char
    } else {
        (d + 87) as char
    }
}

/// Renders bytes as lowercase hex, two digits per byte.
pub fn to_hex_lower(b: &[u8]) -> (s: String)
    ensures
        s@ == hex_lower(b@),
{
    let mut out: Vec<char> = Vec::new();
    let mut i: usize = 0;
    while i < b.len()
        invariant
            i <= b@.len(),
            out@ == hex_lower(b@.subrange(0, i as int)),
        decreases b@.len() - i,
    {
        let x = b[i];
        assert(x >> 4u8 < 16u8 && x & 15u8 < 16u8) by (bit_vector);
        out.push(hex_char(x >> 4));
        out.push(hex_char(x & 15));
        proof {
            let bs = b@.subrange(0, i + 1);
            assert(bs.drop_last() =~= b@.subrange(0, i as int));
            assert(bs.last() == x);
        }
        i = i + 1;
    }
    assert(b@.subrange(0, b@.len() as int) =~= b@);
    string_from_chars(out)
}

/// HMAC-SHA256 of `msg` under `key`, as lowercase hex.
pub fn hmac_sha256(key: &[u8], msg: &[u8]) -> (s: String)
    requires
        key@.len() * 8 <= u64::MAX,
        (64 + msg@.len()) * 8 <= u64::MAX,
    ensures
        s@ == hex_lower(hmac_spec(key@, msg@)),
{
    let mut k: Vec<u8> = Vec::new();
    if key.len() > 64 {
        let h = sha256(key);
        let mut i: usize = 0;
        while i < 32
            invariant
                h@.len() == 32,
                i <= 32,
                k@ == h@.subrange(0, i as int),
            decreases 32 - i,
        {
            k.push(h[i]);
            assert(k@ =~= h@.subrange(0, i + 1));
            i = i + 1;
        }
        while k.len() < 64
            invariant
                32 <= k@.len() <= 64,
                k@ == h@ + Seq::new((k@.len() - 32) as nat, |i: int| 0u8),
                h@.len() == 32,
            decreases 64 - k@.len(),
        {
            k.push(0);
            assert(k@ =~= h@ + Seq::new((k@.len() - 32) as nat, |i: int| 0u8));
        }
        assert(h@.subrange(0, 32) =~= h@);
    } else {
        let mut i: usize = 0;
        while i < key.len()
            invariant
                i <= key@.len(),
                key@.len() <= 64,
                k@ == key@.subrange(0, i as int),
            decreases key@.len() - i,
        {
            k.push(key[i]);
            assert(k@ =~= key@.subrange(0, i + 1));
            i = i + 1;
        }
        assert(key@.subrange(0, key@.len() as int) =~= key@);
        while k.len() < 64
            invariant
                key@.len() <= k@.len() <= 64,
                k@ == key@ + Seq::new((k@.len() - key@.len()) as nat, |i: int| 0u8),
            decreases 64 - k@.len(),
        {
            k.push(0);
            assert(k@ =~= key@ + Seq::new((k@.len() - key@.len()) as nat, |i: int| 0u8));
        }
    }
    let ghost kb = hmac_key_block(key@);
    assert(k@ =~= kb);
    let mut inner: Vec<u8> = Vec::new();
    let mut outer: Vec<u8> = Vec::new();
    let mut i: usize = 0;
    while i < 64
        invariant
            k@ == kb,
            kb.len() == 64,
            i <= 64,
            inner@ == xor_pad(kb, 0x36u8).subrange(0, i as int),
            outer@ == xor_pad(kb, 0x5cu8).subrange(0, i as int),
        decreases 64 - i,
    {
        inner.push(0x36u8 ^ k[i]);
        outer.push(0x5cu8 ^ k[i]);
        assert(inner@ =~= xor_pad(kb, 0x36u8).subrange(0, i + 1));
        assert(outer@ =~= xor_pad(kb, 0x5cu8).subrange(0, i + 1));
        i = i + 1;
    }
    assert(inner@ =~= xor_pad(kb, 0x36u8));
    assert(outer@ =~= xor_pad(kb, 0x5cu8));
    let mut j: usize = 0;
    while j < msg.len()
        invariant
            j <= msg@.len(),
            inner@ == xor_pad(kb, 0x36u8) + msg@.subrange(0, j as int),
        decreases msg@.len() - j,
    {
        inner.push(msg[j]);
        assert(inner@ =~= xor_pad(kb, 0x36u8) + msg@.subrange(0, j + 1));
        j = j + 1;
    }
    assert(msg@.subrange(0, msg@.len() as int) =~= msg@);
    let inner_hash = sha256(inner.as_slice());
    let mut m: usize = 0;
    while m < 32
        invariant
            inner_hash@.len() == 32,
            m <= 32,
            outer@ == xor_pad(kb, 0x5cu8) + inner_hash@.subrange(0, m as int),
        decreases 32 - m,
    {
        outer.push(inner_hash[m]);
        assert(outer@ =~= xor_pad(kb, 0x5cu8) + inner_hash@.subrange(0, m + 1));
        m = m + 1;
    }
    assert(inner_hash@.subrange(0, 32) =~= inner_hash@);
    let result = sha256(outer.as_slice());
    to_hex_lower(result.as_slice())
}

/// Compares two byte strings in time that depends only on their lengths.
pub fn constant_time_eq(a: &[u8], b: &[u8]) -> (r: bool)
    ensures
        r == (a@ == b@),
{
    if a.len() != b.len() {
        return false;
    }
    let mut acc: u8 = 0;
    let mut i: usize = 0;
    while i < a.len()
        invariant
            a@.len() == b@.len(),
            i <= a@.len(),
            (acc == 0) == (forall|j: int| 0 <= j < i ==> a@[j] == b@[j]),
        decreases a@.len() - i,
    {
        let x = a[i];
        let y = b[i];
        let acc2 = acc | (x ^ y);
        assert((acc2 == 0) == (acc == 0 && x == y)) by (bit_vector)
            requires
                acc2 == acc | (x ^ y),
        ;
        acc = acc2;
        i = i + 1;
    }
    proof {
        if acc == 0 {
            assert(a@ =~= b@);
        }
    }
    acc == 0
}

} // verus!
