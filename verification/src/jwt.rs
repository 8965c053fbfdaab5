//! The token encoding of the SaaS platform: URL-safe base64 without padding,
//! hex digests back to bytes, and the HMAC key blocks and pads.
use vstd::prelude::*;
use vstd::string::*;
use vstd::utf8::*;
use crate::httputil::{hex_pair, hex_pair_exec};
use crate::text::{owned, string_from_chars};

verus! {

broadcast use vstd::string::group_string_axioms;

/// The URL-safe base64 digit of a 6-bit value.
pub open spec fn b64_digit(v: u32) -> char {
    if v < 26 {
        ((v + 65) as u8) as char
    } else if v < 52 {
        ((v + 71) as u8) as char
    } else if v < 62 {
        ((v - 4) as u8) as char
    } else if v == 62 {
        '-'
    } else {
        '_'
    }
}

fn b64_digit_exec(v: u32) -> (c: char)
    requires
        v < 64,
    ensures
        c == b64_digit(v),
{
    if v < 26 {
        ((v + 65) as u8) as char
    } else if v < 52 {
        ((v + 71) as u8) as char
    } else if v < 62 {
        ((v - 4) as u8) as char
    } else if v == 62 {
        '-'
    } else {
        '_'
    }
}

/// The characters encoding one chunk of one to three bytes.
pub open spec fn encode_chunk(c: Seq<u8>) -> Seq<char> {
    let b0 = c[0] as u32;
    let b1 = if c.len() > 1 { c[1] as u32 } else { 0u32 };
    let b2 = if c.len() > 2 { c[2] as u32 } else { 0u32 };
    let t = (b0 << 16u32) | (b1 << 8u32) | b2;
    seq![b64_digit((t >> 18u32) & 0x3Fu32), b64_digit((t >> 12u32) & 0x3Fu32)] + (if c.len() > 1 {
        seq![b64_digit((t >> 6u32) & 0x3Fu32)]
    } else {
        Seq::empty()
    }) + (if c.len() > 2 {
        seq![b64_digit(t & 0x3Fu32)]
    } else {
        Seq::empty()
    })
}

/// URL-safe base64 of a byte string, without padding.
pub open spec fn b64_encode(b: Seq<u8>) -> Seq<char>
    decreases b.len(),
{
    if b.len() == 0 {
        Seq::empty()
    } else if b.len() <= 3 {
        encode_chunk(b)
    } else {
        encode_chunk(b.take(3)) + b64_encode(b.skip(3))
    }
}

/// Encodes the UTF-8 bytes of `input` in URL-safe base64 without padding.
pub fn base64_encode(input: &str) -> (r: String)
    ensures
        r@ == b64_encode(input.spec_bytes()),
{
    let bytes = input.as_bytes();
    let ghost b = bytes@;
    let mut out: Vec<char> = Vec::new();
    let mut i: usize = 0;
    assert(b.skip(0) =~= b);
    while i < bytes.len()
        invariant
            b == bytes@,
            i <= b.len(),
            b64_encode(b) == out@ + b64_encode(b.skip(i as int)),
        decreases b.len() - i,
    {
        let n: usize = if bytes.len() - i >= 3 {
            3
        } else {
            bytes.len() - i
        };
        let ghost rest = b.skip(i as int);
        let ghost chunk = rest.take(n as int);
        let b0 = bytes[i] as u32;
        let b1: u32 = if n > 1 {
            bytes[i + 1] as u32
        } else {
            0
        };
        let b2: u32 = if n > 2 {
            bytes[i + 2] as u32
        } else {
            0
        };
        let t = (b0 << 16) | (b1 << 8) | b2;
        assert(chunk[0] == bytes@[i as int]);
        assert(n > 1 ==> chunk[1] == bytes@[i + 1]);
        assert(n > 2 ==> chunk[2] == bytes@[i + 2]);
        assert((t >> 18u32) & 0x3Fu32 < 64 && (t >> 12u32) & 0x3Fu32 < 64 && (t >> 6u32) & 0x3Fu32
            < 64 && t & 0x3Fu32 < 64) by (bit_vector);
        let ghost before = out@;
        out.push(b64_digit_exec((t >> 18) & 0x3F));
        out.push(b64_digit_exec((t >> 12) & 0x3F));
        if n > 1 {
            out.push(b64_digit_exec((t >> 6) & 0x3F));
        }
        if n > 2 {
            out.push(b64_digit_exec(t & 0x3F));
        }
        proof {
            assert(out@ =~= before + encode_chunk(chunk));
            if rest.len() <= 3 {
                assert(chunk =~= rest);
                assert(rest.skip(n as int) =~= Seq::<u8>::empty());
            }
            assert(rest.skip(n as int) =~= b.skip(i + n));
            if rest.len() > 3 {
                assert(b64_encode(rest) == encode_chunk(rest.take(3)) + b64_encode(rest.skip(3)));
            }
            assert(b64_encode(rest) == encode_chunk(chunk) + b64_encode(b.skip(i + n)));
            assert(before + (encode_chunk(chunk) + b64_encode(b.skip(i + n))) =~= out@ + b64_encode(
                b.skip(i + n),
            ));
        }
        i = i + n;
    }
    assert(b.skip(b.len() as int) =~= Seq::<u8>::empty());
    assert(out@ + Seq::<char>::empty() =~= out@);
    string_from_chars(out)
}

/// The value of a URL-safe base64 digit (ASCII byte).
pub open spec fn b64_value(c: u8) -> Option<u8> {
    if 65 <= c <= 90 {
        Some((c - 65) as u8)
    } else if 97 <= c <= 122 {
        Some((c - 71) as u8)
    } else if 48 <= c <= 57 {
        Some((c + 4) as u8)
    } else if c == 45 {
        Some(62u8)
    } else if c == 95 {
        Some(63u8)
    } else {
        None
    }
}

/// The error for a byte that is no base64 digit.
pub open spec fn bad_char_text(c: u8) -> Seq<char> {
    "invalid base64 character: "@.push(c as char)
}

/// Decodes one base64 digit.
pub fn decode_char(c: u8) -> (r: Result<u8, String>)
    ensures
        b64_value(c) matches Some(v) ==> r == Ok::<u8, String>(v),
        b64_value(c) is None ==> (r matches Err(m) && m@ == bad_char_text(c)),
{
    let v: Option<u8> = if 65 <= c && c <= 90 {
        Some(c - 65)
    } else if 97 <= c && c <= 122 {
        Some(c - 71)
    } else if 48 <= c && c <= 57 {
        Some(c + 4)
    } else if c == 45 {
        Some(62)
    } else if c == 95 {
        Some(63)
    } else {
        None
    };
    match v {
        Some(x) => Ok(x),
        None => {
            let mut m = owned("invalid base64 character: ");
            let tail = string_from_chars(vec![c as char]);
            m.append(tail.as_str());
            assert(m@ =~= bad_char_text(c));
            Err(m)
        },
    }
}

/// The first byte of `c` that is no base64 digit, if any.
pub open spec fn first_bad(c: Seq<u8>) -> Option<u8>
    decreases c.len(),
{
    if c.len() == 0 {
        None
    } else if b64_value(c[0]) is None {
        Some(c[0])
    } else {
        first_bad(c.drop_first())
    }
}

pub open spec fn val_or_zero(c: Seq<u8>, k: int) -> u32 {
    if k < c.len() {
        b64_value(c[k]).unwrap() as u32
    } else {
        0u32
    }
}

/// The bytes a chunk of one to four digits decodes to.
pub open spec fn decode_chunk(c: Seq<u8>) -> Seq<u8> {
    let t = (val_or_zero(c, 0) << 18u32) | (val_or_zero(c, 1) << 12u32) | (val_or_zero(c, 2)
        << 6u32) | val_or_zero(c, 3);
    seq![(t >> 16u32) as u8] + (if c.len() > 2 {
        seq![(t >> 8u32) as u8]
    } else {
        Seq::empty()
    }) + (if c.len() > 3 {
        seq![t as u8]
    } else {
        Seq::empty()
    })
}

/// The bytes a digit string decodes to, or the first byte that is no digit.
pub open spec fn b64_decode(b: Seq<u8>) -> Result<Seq<u8>, u8>
    decreases b.len(),
{
    if b.len() == 0 {
        Ok(Seq::empty())
    } else {
        let n = if b.len() >= 4 {
            4
        } else {
            b.len() as int
        };
        match first_bad(b.take(n)) {
            Some(c) => Err(c),
            None => if b.len() <= 4 {
                Ok(decode_chunk(b))
            } else {
                match b64_decode(b.skip(4)) {
                    Ok(rest) => Ok(decode_chunk(b.take(4)) + rest),
                    Err(c) => Err(c),
                }
            },
        }
    }
}

/// The bytes of ASCII characters.
pub open spec fn ascii_bytes(cs: Seq<char>) -> Seq<u8> {
    cs.map_values(|c: char| c as u8)
}

proof fn lemma_digit_value(v: u32)
    requires
        v < 64,
    ensures
        b64_value(b64_digit(v) as u8) == Some(v as u8),
        (b64_digit(v) as u32) < 128,
{
    if v < 26 {
        assert((((v + 65) as u8) as char) as u8 == (v + 65) as u8);
    } else if v < 52 {
        assert((((v + 71) as u8) as char) as u8 == (v + 71) as u8);
    } else if v < 62 {
        assert((((v - 4) as u8) as char) as u8 == (v - 4) as u8);
    }
}

pub open spec fn pack(b0: u32, b1: u32, b2: u32) -> u32 {
    (b0 << 16u32) | (b1 << 8u32) | b2
}

pub open spec fn sextet(t: u32, shift: u32) -> u32 {
    (t >> shift) & 0x3Fu32
}

/// The 24 bits made of four digits.
pub open spec fn unpack4(t: u32) -> u32 {
    (sextet(t, 18) << 18u32) | (sextet(t, 12) << 12u32) | (sextet(t, 6) << 6u32) | (t & 0x3Fu32)
}

/// The 24 bits made of three digits, the fourth taken as zero.
pub open spec fn unpack3(t: u32) -> u32 {
    (sextet(t, 18) << 18u32) | (sextet(t, 12) << 12u32) | (sextet(t, 6) << 6u32) | 0u32
}

/// The 24 bits made of two digits, the others taken as zero.
pub open spec fn unpack2(t: u32) -> u32 {
    (sextet(t, 18) << 18u32) | (sextet(t, 12) << 12u32) | (0u32 << 6u32) | 0u32
}

proof fn lemma_bits_3(b0: u32, b1: u32, b2: u32)
    by (bit_vector)
    requires
        b0 < 256,
        b1 < 256,
        b2 < 256,
    ensures
        unpack4(pack(b0, b1, b2)) == pack(b0, b1, b2),
        (pack(b0, b1, b2) >> 16u32) as u8 == b0 as u8,
        (pack(b0, b1, b2) >> 8u32) as u8 == b1 as u8,
        pack(b0, b1, b2) as u8 == b2 as u8,
{
}

proof fn lemma_bits_2(b0: u32, b1: u32)
    by (bit_vector)
    requires
        b0 < 256,
        b1 < 256,
    ensures
        unpack3(pack(b0, b1, 0)) == pack(b0, b1, 0),
        (pack(b0, b1, 0) >> 16u32) as u8 == b0 as u8,
        (pack(b0, b1, 0) >> 8u32) as u8 == b1 as u8,
{
}

proof fn lemma_bits_1(b0: u32)
    by (bit_vector)
    requires
        b0 < 256,
    ensures
        (unpack2(pack(b0, 0, 0)) >> 16u32) as u8 == b0 as u8,
{
}

proof fn lemma_digits_below_64(t: u32)
    by (bit_vector)
    ensures
        (t >> 18u32) & 0x3Fu32 < 64,
        (t >> 12u32) & 0x3Fu32 < 64,
        (t >> 6u32) & 0x3Fu32 < 64,
        t & 0x3Fu32 < 64,
{
}

/// One chunk of one to three bytes decodes back from its digits.
proof fn lemma_chunk_round_trip(c: Seq<u8>)
    requires
        1 <= c.len() <= 3,
    ensures
        is_ascii_chars(encode_chunk(c)),
        encode_chunk(c).len() == c.len() + 1,
        first_bad(ascii_bytes(encode_chunk(c))) is None,
        decode_chunk(ascii_bytes(encode_chunk(c))) == c,
{
    let b0 = c[0] as u32;
    let b1 = if c.len() > 1 { c[1] as u32 } else { 0u32 };
    let b2 = if c.len() > 2 { c[2] as u32 } else { 0u32 };
    let t = (b0 << 16u32) | (b1 << 8u32) | b2;
    lemma_digits_below_64(t);
    let e = encode_chunk(c);
    let d = ascii_bytes(e);
    let v0 = (t >> 18u32) & 0x3Fu32;
    let v1 = (t >> 12u32) & 0x3Fu32;
    let v2 = (t >> 6u32) & 0x3Fu32;
    let v3 = t & 0x3Fu32;
    lemma_digit_value(v0);
    lemma_digit_value(v1);
    lemma_digit_value(v2);
    lemma_digit_value(v3);
    assert(e[0] == b64_digit(v0) && e[1] == b64_digit(v1));
    if c.len() > 1 {
        assert(e[2] == b64_digit(v2));
    }
    if c.len() > 2 {
        assert(e[3] == b64_digit(v3));
    }
    assert(is_ascii_chars(e));
    assert forall|k: int| 0 <= k < d.len() implies b64_value(d[k]) is Some by {}
    lemma_first_bad_none(d);
    assert(val_or_zero(d, 0) == v0);
    assert(val_or_zero(d, 1) == v1);
    if c.len() == 3 {
        assert(val_or_zero(d, 2) == v2);
        assert(val_or_zero(d, 3) == v3);
        lemma_bits_3(b0, b1, b2);
        let tt = (val_or_zero(d, 0) << 18u32) | (val_or_zero(d, 1) << 12u32) | (val_or_zero(d, 2)
            << 6u32) | val_or_zero(d, 3);
        assert(tt == unpack4(t));
        assert(unpack4(t) == t);
        assert((tt >> 16u32) as u8 == c[0]);
        assert((tt >> 8u32) as u8 == c[1]);
        assert(tt as u8 == c[2]);
        assert(decode_chunk(d) =~= c);
    } else if c.len() == 2 {
        assert(val_or_zero(d, 2) == v2);
        assert(val_or_zero(d, 3) == 0);
        lemma_bits_2(b0, b1);
        assert(b2 == 0);
        let tt = (val_or_zero(d, 0) << 18u32) | (val_or_zero(d, 1) << 12u32) | (val_or_zero(d, 2)
            << 6u32) | val_or_zero(d, 3);
        assert(tt == unpack3(t));
        assert((tt >> 16u32) as u8 == c[0]);
        assert((tt >> 8u32) as u8 == c[1]);
        assert(decode_chunk(d) =~= c);
    } else {
        assert(val_or_zero(d, 2) == 0);
        assert(val_or_zero(d, 3) == 0);
        lemma_bits_1(b0);
        let tt = (val_or_zero(d, 0) << 18u32) | (val_or_zero(d, 1) << 12u32) | (val_or_zero(d, 2)
            << 6u32) | val_or_zero(d, 3);
        assert(tt == unpack2(t));
        assert((tt >> 16u32) as u8 == c[0]);
        assert(decode_chunk(d) =~= c);
    }
}

proof fn lemma_first_bad_none(d: Seq<u8>)
    requires
        forall|k: int| 0 <= k < d.len() ==> b64_value(#[trigger] d[k]) is Some,
    ensures
        first_bad(d) is None,
    decreases d.len(),
{
    if d.len() > 0 {
        assert(b64_value(d[0]) is Some);
        assert forall|k: int| 0 <= k < d.drop_first().len() implies b64_value(#[trigger] d.drop_first()[k]) is Some by {
            assert(d.drop_first()[k] == d[k + 1]);
        }
        lemma_first_bad_none(d.drop_first());
    }
}

/// Decoding inverts encoding: the digits of any byte string decode back to
/// it.
pub proof fn law_base64_decode_inverts_encode(b: Seq<u8>)
    ensures
        is_ascii_chars(b64_encode(b)),
        encode_utf8(b64_encode(b)) == ascii_bytes(b64_encode(b)),
        b64_decode(ascii_bytes(b64_encode(b))) == Ok::<Seq<u8>, u8>(b),
    decreases b.len(),
{
    broadcast use is_ascii_chars_encode_utf8;

    if b.len() == 0 {
        assert(b64_encode(b) =~= Seq::<char>::empty());
        assert(ascii_bytes(b64_encode(b)) =~= Seq::<u8>::empty());
        assert(b =~= Seq::<u8>::empty());
    } else if b.len() <= 3 {
        lemma_chunk_round_trip(b);
        let d = ascii_bytes(b64_encode(b));
        assert(d.take(d.len() as int) =~= d);
        assert(encode_utf8(b64_encode(b)) =~= d);
    } else {
        let h = b.take(3);
        let r = b.skip(3);
        lemma_chunk_round_trip(h);
        law_base64_decode_inverts_encode(r);
        let eh = encode_chunk(h);
        let er = b64_encode(r);
        assert(b64_encode(b) == eh + er);
        assert(is_ascii_chars(eh + er)) by {
            assert forall|i: int| 0 <= i < (eh + er).len() implies '\0' <= #[trigger] (eh + er)[i] <= '\u{7f}' by {
                if i < eh.len() {
                    assert((eh + er)[i] == eh[i]);
                } else {
                    assert((eh + er)[i] == er[i - eh.len()]);
                }
            }
        }
        let d = ascii_bytes(eh + er);
        assert(ascii_bytes(eh + er) =~= ascii_bytes(eh) + ascii_bytes(er));
        assert(d.take(4) =~= ascii_bytes(eh));
        assert(d.skip(4) =~= ascii_bytes(er));
        assert(d.len() > 4 || er.len() == 0);
        assert(encode_utf8(eh + er) =~= d);
        assert(h + r =~= b);
    }
}

/// Text survives a base64 round trip: decoding the encoding of a string's
/// UTF-8 bytes gives the string back.
pub proof fn law_base64_text_round_trip(s: Seq<char>)
    ensures
        b64_decode_text(encode_utf8(b64_encode(encode_utf8(s)))) == Ok::<Seq<char>, Seq<char>>(s),
{
    law_base64_decode_inverts_encode(encode_utf8(s));
    encode_utf8_valid_utf8(s);
    encode_utf8_decode_utf8(s);
}

/// The text of `String::from_utf8`'s error on bytes that are not UTF-8.
pub uninterp spec fn utf8_error_text(b: Seq<u8>) -> Seq<char>;

/// `String::from_utf8`; the contract claims that it succeeds exactly on
/// valid UTF-8, with the text the bytes encode, and otherwise fails with the
/// text of its error, named by `utf8_error_text`.
#[verifier::external_body]
fn utf8_string(v: Vec<u8>) -> (r: Result<String, String>)
    ensures
        r matches Ok(s) ==> valid_utf8(v@) && s@ == decode_utf8(v@),
        r matches Err(m) ==> !valid_utf8(v@) && m@ == utf8_error_text(v@),
{
    match String::from_utf8(v) {
        Ok(s) => Ok(s),
        Err(e) => Err(e.to_string()),
    }
}

/// The outcome of decoding a base64 payload into text.
pub open spec fn b64_decode_text(b: Seq<u8>) -> Result<Seq<char>, Seq<char>> {
    match b64_decode(b) {
        Err(c) => Err(bad_char_text(c)),
        Ok(bytes) => if valid_utf8(bytes) {
            Ok(decode_utf8(bytes))
        } else {
            Err("invalid utf-8: "@ + utf8_error_text(bytes))
        },
    }
}

proof fn lemma_first_bad_prefix(c: Seq<u8>, k: int)
    requires
        0 <= k <= c.len(),
        forall|j: int| 0 <= j < k ==> b64_value(#[trigger] c[j]) is Some,
    ensures
        first_bad(c) == first_bad(c.skip(k)),
    decreases k,
{
    if k == 0 {
        assert(c.skip(0) =~= c);
    } else {
        assert(b64_value(c[0]) is Some);
        assert(c.skip(k) =~= c.drop_first().skip(k - 1));
        assert forall|j: int| 0 <= j < k - 1 implies b64_value(#[trigger] c.drop_first()[j]) is Some by {
            assert(c.drop_first()[j] == c[j + 1]);
        }
        lemma_first_bad_prefix(c.drop_first(), k - 1);
    }
}

/// Decodes URL-safe base64 without padding into UTF-8 text.
pub fn base64_decode(input: &str) -> (r: Result<String, String>)
    ensures
        r matches Ok(s) ==> b64_decode_text(input.spec_bytes()) == Ok::<Seq<char>, Seq<char>>(
            s@,
        ),
        r matches Err(m) ==> b64_decode_text(input.spec_bytes()) == Err::<Seq<char>, Seq<char>>(
            m@,
        ),
{
    let bytes = input.as_bytes();
    let ghost b = bytes@;
    let mut result: Vec<u8> = Vec::new();
    let mut i: usize = 0;
    assert(b.skip(0) =~= b);
    while i < bytes.len()
        invariant
            b == bytes@,
            b == input.spec_bytes(),
            i <= b.len(),
            b64_decode(b) == match b64_decode(b.skip(i as int)) {
                Ok(rest) => Ok(result@ + rest),
                Err(c) => Err::<Seq<u8>, u8>(c),
            },
        decreases b.len() - i,
    {
        let remaining = bytes.len() - i;
        let ghost rest = b.skip(i as int);
        let ghost n: int = if remaining >= 4 {
            4
        } else {
            remaining as int
        };
        let ghost chunk = rest.take(n);
        let v0 = match decode_char(bytes[i]) {
            Ok(v) => v,
            Err(e) => {
                proof {
                    assert(chunk[0] == b[i as int]);
                    assert(first_bad(chunk) == Some(b[i as int]));
                    assert(b64_decode(rest) == Err::<Seq<u8>, u8>(b[i as int]));
                        assert(b64_decode(b) == Err::<Seq<u8>, u8>(b[i as int]));
                        assert(b64_decode_text(b) == Err::<Seq<char>, Seq<char>>(bad_char_text(b[i as int])));
                }
                return Err(e);
            },
        };
        let v1: u8 = if remaining > 1 {
            match decode_char(bytes[i + 1]) {
                Ok(v) => v,
                Err(e) => {
                    proof {
                        assert(chunk[0] == b[i as int]);
                        assert(chunk[1] == b[i + 1]);
                        assert(chunk.drop_first()[0] == b[i + 1]);
                        assert(first_bad(chunk) == first_bad(chunk.drop_first()));
                        assert(first_bad(chunk.drop_first()) == Some(b[i + 1]));
                        assert(b64_decode(rest) == Err::<Seq<u8>, u8>(b[i + 1]));
                        assert(b64_decode(b) == Err::<Seq<u8>, u8>(b[i + 1]));
                        assert(b64_decode_text(b) == Err::<Seq<char>, Seq<char>>(bad_char_text(b[i + 1])));
                    }
                    return Err(e);
                },
            }
        } else {
            0
        };
        let v2: u8 = if remaining > 2 {
            match decode_char(bytes[i + 2]) {
                Ok(v) => v,
                Err(e) => {
                    proof {
                        assert forall|j: int| 0 <= j < 2 implies b64_value(#[trigger] chunk[j]) is Some by {
                            assert(chunk[j] == b[i + j]);
                        }
                        lemma_first_bad_prefix(chunk, 2);
                        assert(chunk.skip(2)[0] == b[i + 2]);
                        assert(first_bad(chunk.skip(2)) == Some(b[i + 2]));
                        assert(b64_decode(rest) == Err::<Seq<u8>, u8>(b[i + 2]));
                        assert(b64_decode(b) == Err::<Seq<u8>, u8>(b[i + 2]));
                        assert(b64_decode_text(b) == Err::<Seq<char>, Seq<char>>(bad_char_text(b[i + 2])));
                    }
                    return Err(e);
                },
            }
        } else {
            0
        };
        let v3: u8 = if remaining > 3 {
            match decode_char(bytes[i + 3]) {
                Ok(v) => v,
                Err(e) => {
                    proof {
                        assert forall|j: int| 0 <= j < 3 implies b64_value(#[trigger] chunk[j]) is Some by {
                            assert(chunk[j] == b[i + j]);
                        }
                        lemma_first_bad_prefix(chunk, 3);
                        assert(chunk.skip(3)[0] == b[i + 3]);
                        assert(first_bad(chunk.skip(3)) == Some(b[i + 3]));
                        assert(b64_decode(rest) == Err::<Seq<u8>, u8>(b[i + 3]));
                        assert(b64_decode(b) == Err::<Seq<u8>, u8>(b[i + 3]));
                        assert(b64_decode_text(b) == Err::<Seq<char>, Seq<char>>(bad_char_text(b[i + 3])));
                    }
                    return Err(e);
                },
            }
        } else {
            0
        };
        proof {
            assert forall|j: int| 0 <= j < n implies b64_value(#[trigger] chunk[j]) is Some by {
                assert(chunk[j] == b[i + j]);
            }
            lemma_first_bad_prefix(chunk, n);
            assert(chunk.skip(n) =~= Seq::<u8>::empty());
            assert(val_or_zero(chunk, 0) == v0 as u32);
            assert(val_or_zero(chunk, 1) == v1 as u32);
            assert(val_or_zero(chunk, 2) == v2 as u32);
            assert(val_or_zero(chunk, 3) == v3 as u32);
        }
        let t: u32 = ((v0 as u32) << 18) | ((v1 as u32) << 12) | ((v2 as u32) << 6) | (v3 as u32);
        let ghost before = result@;
        result.push((t >> 16) as u8);
        if remaining > 2 {
            result.push((t >> 8) as u8);
        }
        if remaining > 3 {
            result.push(t as u8);
        }
        proof {
            assert(result@ =~= before + decode_chunk(chunk));
            if rest.len() <= 4 {
                assert(chunk =~= rest);
            }
        }
        if remaining < 4 {
            proof {
                assert(b64_decode(rest) == Ok::<Seq<u8>, u8>(decode_chunk(chunk)));
                assert(b64_decode(b) == Ok::<Seq<u8>, u8>(result@));
            }
            return decoded_text(result);
        }
        proof {
            assert(rest.skip(4) =~= b.skip(i + 4));
            if rest.len() == 4 {
                assert(b.skip(i + 4) =~= Seq::<u8>::empty());
                assert(before + decode_chunk(chunk) + Seq::<u8>::empty() =~= result@);
            } else {
                match b64_decode(b.skip(i + 4)) {
                    Ok(tail) => {
                        assert(before + (decode_chunk(chunk) + tail) =~= result@ + tail);
                    },
                    Err(_) => {},
                }
            }
        }
        i = i + 4;
    }
    proof {
        assert(b.skip(i as int) =~= Seq::<u8>::empty());
        assert(result@ + Seq::<u8>::empty() =~= result@);
    }
    decoded_text(result)
}

/// The decoded bytes as text, or the UTF-8 error.
fn decoded_text(result: Vec<u8>) -> (r: Result<String, String>)
    ensures
        r matches Ok(s) ==> valid_utf8(result@) && s@ == decode_utf8(result@),
        r matches Err(m) ==> !valid_utf8(result@) && m@ == "invalid utf-8: "@ + utf8_error_text(
            result@,
        ),
{
    let ghost bytes = result@;
    match utf8_string(result) {
        Ok(s) => Ok(s),
        Err(e) => {
            let mut m = owned("invalid utf-8: ");
            m.append(e.as_str());
            Err(m)
        },
    }
}

} // verus!

verus! {

/// The bytes of a hex string, two digits per byte; a pair that does not
/// parse gives 0.
pub open spec fn hex_bytes(h: Seq<u8>) -> Seq<u8> {
    Seq::new(
        h.len() / 2,
        |k: int|
            match hex_pair(h[2 * k], h[2 * k + 1]) {
                Some(v) => v,
                None => 0u8,
            },
    )
}

/// Every two-byte slice of the string lies on character boundaries.
pub open spec fn hex_sliceable(h: Seq<u8>) -> bool {
    &&& h.len() % 2 == 0
    &&& forall|i: int| 0 <= i <= h.len() && i % 2 == 0 ==> is_char_boundary(h, i)
}

/// Converts a hex string to bytes.
pub fn hex_to_bytes(hex: &str) -> (r: Vec<u8>)
    requires
        hex_sliceable(hex.spec_bytes()),
    ensures
        r@ == hex_bytes(hex.spec_bytes()),
{
    let b = hex.as_bytes();
    let mut out: Vec<u8> = Vec::new();
    let mut i: usize = 0;
    while i < b.len()
        invariant
            b@ == hex.spec_bytes(),
            b@.len() % 2 == 0,
            i % 2 == 0,
            i <= b@.len(),
            out@ == hex_bytes(b@).subrange(0, (i / 2) as int),
        decreases b@.len() - i,
    {
        let v = match hex_pair_exec(b[i], b[i + 1]) {
            Some(v) => v,
            None => 0,
        };
        out.push(v);
        assert(out@ =~= hex_bytes(b@).subrange(0, ((i + 2) / 2) as int));
        i = i + 2;
    }
    assert(hex_bytes(b@).subrange(0, (b@.len() / 2) as int) =~= hex_bytes(b@));
    out
}

/// `Vec::resize(64, 0)`: truncated or zero-filled to 64 bytes.
pub open spec fn resized64(s: Seq<u8>) -> Seq<u8> {
    if s.len() >= 64 {
        s.take(64)
    } else {
        s + Seq::new((64 - s.len()) as nat, |i: int| 0u8)
    }
}

/// The platform's HMAC key block: a key of more than 64 bytes is replaced by
/// the bytes of its hex digest `hashed_key_hex`; the result is truncated or
/// zero-filled to 64 bytes.
pub open spec fn jwt_key_block(key: Seq<u8>, hashed_key_hex: Seq<u8>) -> Seq<u8> {
    if key.len() > 64 {
        resized64(hex_bytes(hashed_key_hex))
    } else {
        resized64(key)
    }
}

fn resize64(v: Vec<u8>) -> (r: Vec<u8>)
    ensures
        r@ == resized64(v@),
{
    let mut r: Vec<u8> = Vec::new();
    let mut i: usize = 0;
    while i < 64
        invariant
            i <= 64,
            r@ == resized64(v@).subrange(0, i as int),
        decreases 64 - i,
    {
        let x: u8 = if i < v.len() {
            v[i]
        } else {
            0
        };
        r.push(x);
        assert(r@ =~= resized64(v@).subrange(0, i + 1));
        i = i + 1;
    }
    assert(resized64(v@).subrange(0, 64) =~= resized64(v@));
    r
}

fn bytes_of(s: &str) -> (r: Vec<u8>)
    ensures
        r@ == s.spec_bytes(),
{
    let b = s.as_bytes();
    let mut r: Vec<u8> = Vec::new();
    let mut i: usize = 0;
    while i < b.len()
        invariant
            b@ == s.spec_bytes(),
            i <= b@.len(),
            r@ == b@.subrange(0, i as int),
        decreases b@.len() - i,
    {
        r.push(b[i]);
        assert(r@ =~= b@.subrange(0, i + 1));
        i = i + 1;
    }
    assert(b@.subrange(0, b@.len() as int) =~= b@);
    r
}

/// The key block of the platform's token signature.
pub fn jwt_hmac_key_block(key: &str, hashed_key_hex: &str) -> (r: Vec<u8>)
    requires
        key.spec_bytes().len() > 64 ==> hex_sliceable(hashed_key_hex.spec_bytes()),
    ensures
        r@ == jwt_key_block(key.spec_bytes(), hashed_key_hex.spec_bytes()),
{
    let kb = key.as_bytes();
    if kb.len() > 64 {
        resize64(hex_to_bytes(hashed_key_hex))
    } else {
        resize64(bytes_of(key))
    }
}

/// The 64-byte block XOR-ed with `pad`, followed by `tail`.
pub open spec fn padded_input(block: Seq<u8>, pad: u8, tail: Seq<u8>) -> Seq<u8> {
    Seq::new(64, |i: int| block[i] ^ pad) + tail
}

/// Builds the input of one hash of the signature: the padded key block and
/// the bytes that follow it.
pub fn jwt_hmac_input(block: &Vec<u8>, pad: u8, tail: &[u8]) -> (r: Vec<u8>)
    requires
        block@.len() == 64,
    ensures
        r@ == padded_input(block@, pad, tail@),
{
    let mut r: Vec<u8> = Vec::new();
    let mut i: usize = 0;
    while i < 64
        invariant
            block@.len() == 64,
            i <= 64,
            r@ == Seq::new(64, |j: int| block@[j] ^ pad).subrange(0, i as int),
        decreases 64 - i,
    {
        r.push(block[i] ^ pad);
        assert(r@ =~= Seq::new(64, |j: int| block@[j] ^ pad).subrange(0, i + 1));
        i = i + 1;
    }
    assert(Seq::new(64, |j: int| block@[j] ^ pad).subrange(0, 64) =~= Seq::new(
        64,
        |j: int| block@[j] ^ pad,
    ));
    let mut j: usize = 0;
    while j < tail.len()
        invariant
            j <= tail@.len(),
            r@ == Seq::new(64, |k: int| block@[k] ^ pad) + tail@.subrange(0, j as int),
        decreases tail@.len() - j,
    {
        r.push(tail[j]);
        assert(r@ =~= Seq::new(64, |k: int| block@[k] ^ pad) + tail@.subrange(0, j + 1));
        j = j + 1;
    }
    assert(tail@.subrange(0, tail@.len() as int) =~= tail@);
    r
}

} // verus!

verus! {

/// The parts of `s` between the `.` separators.
pub open spec fn dot_parts(s: Seq<char>) -> Seq<Seq<char>>
    decreases s.len(),
{
    proof {
        lemma_find_dot(s);
    }
    match find_dot(s) {
        Some(i) => seq![s.take(i)] + dot_parts(s.skip(i + 1)),
        None => seq![s],
    }
}

pub open spec fn find_dot(s: Seq<char>) -> Option<int>
    decreases s.len(),
{
    if s.len() == 0 {
        None
    } else if s[0] == '.' {
        Some(0)
    } else {
        match find_dot(s.drop_first()) {
            Some(i) => Some(i + 1),
            None => None,
        }
    }
}

pub proof fn lemma_find_dot(s: Seq<char>)
    ensures
        find_dot(s) matches Some(i) ==> 0 <= i < s.len() && s[i] == '.' && forall|j: int|
            0 <= j < i ==> s[j] != '.',
        find_dot(s) is None ==> forall|j: int| 0 <= j < s.len() ==> s[j] != '.',
    decreases s.len(),
{
    if s.len() > 0 && s[0] != '.' {
        lemma_find_dot(s.drop_first());
        assert forall|j: int| 0 < j < s.len() implies s[j] == s.drop_first()[j - 1] by {}
    }
}

/// The JWT header and payload joined as they are signed: `header.payload`.
pub open spec fn signing_input(parts: Seq<Seq<char>>) -> Seq<char> {
    parts[0] + seq!['.'] + parts[1]
}

/// The position of the first `.` at or after `from`.
fn next_dot(cs: &Vec<char>, from: usize) -> (r: usize)
    requires
        from <= cs@.len(),
    ensures
        from <= r <= cs@.len(),
        r < cs@.len() ==> cs@[r as int] == '.',
        forall|j: int| from <= j < r ==> cs@[j] != '.',
{
    let mut i = from;
    while i < cs.len() && cs[i] != '.'
        invariant
            from <= i <= cs@.len(),
            forall|j: int| from <= j < i ==> cs@[j] != '.',
        decreases cs@.len() - i,
    {
        i = i + 1;
    }
    i
}

proof fn lemma_dot_parts_at(s: Seq<char>, i: int)
    requires
        0 <= i <= s.len(),
        i < s.len() ==> s[i] == '.',
        forall|j: int| 0 <= j < i ==> s[j] != '.',
    ensures
        i < s.len() ==> dot_parts(s) == seq![s.take(i)] + dot_parts(s.skip(i + 1)),
        i == s.len() ==> dot_parts(s) == seq![s],
{
    lemma_find_dot(s);
    match find_dot(s) {
        Some(k) => {
            assert(k == i);
        },
        None => {},
    }
}

proof fn lemma_dot_parts_len(s: Seq<char>)
    ensures
        dot_parts(s).len() >= 1,
    decreases s.len(),
{
    lemma_find_dot(s);
    match find_dot(s) {
        Some(i) => {
            lemma_dot_parts_len(s.skip(i + 1));
        },
        None => {},
    }
}

/// The positions of the two separators of a three-part token.
fn dot_positions(cs: &Vec<char>) -> (r: Option<(usize, usize)>)
    ensures
        r is Some <==> dot_parts(cs@).len() == 3,
        r matches Some((a, b)) ==> a < b < cs@.len() && dot_parts(cs@) == seq![
            cs@.subrange(0, a as int),
            cs@.subrange(a + 1, b as int),
            cs@.subrange(b + 1, cs@.len() as int),
        ],
{
    let ghost s = cs@;
    let a = next_dot(cs, 0);
    proof {
        lemma_dot_parts_at(s, a as int);
    }
    if a == cs.len() {
        return None;
    }
    let b = next_dot(cs, a + 1);
    let ghost s1 = s.skip(a + 1);
    proof {
        assert forall|j: int| 0 <= j < b - (a + 1) implies s1[j] != '.' by {
            assert(s1[j] == s[j + a + 1]);
        }
        if b < s.len() {
            assert(s1[b - (a + 1)] == s[b as int]);
        }
        lemma_dot_parts_at(s1, b - (a + 1));
    }
    if b == cs.len() {
        return None;
    }
    let c = next_dot(cs, b + 1);
    let ghost s2 = s.skip(b + 1);
    proof {
        assert(s1.skip(b - (a + 1) + 1) =~= s2);
        assert forall|j: int| 0 <= j < c - (b + 1) implies s2[j] != '.' by {
            assert(s2[j] == s[j + b + 1]);
        }
        if c < s.len() {
            assert(s2[c - (b + 1)] == s[c as int]);
        }
        lemma_dot_parts_at(s2, c - (b + 1));
    }
    if c < cs.len() {
        proof {
            let s3 = s.skip(c + 1);
            assert(s2.skip(c - (b + 1) + 1) =~= s3);
            lemma_dot_parts_len(s3);
        }
        return None;
    }
    proof {
        assert(s.take(a as int) =~= s.subrange(0, a as int));
        assert(s1.take(b - (a + 1)) =~= s.subrange(a + 1, b as int));
        assert(s2 =~= s.subrange(b + 1, c as int));
        assert(dot_parts(s) =~= seq![
            s.subrange(0, a as int),
            s.subrange(a + 1, b as int),
            s.subrange(b + 1, s.len() as int),
        ]);
    }
    Some((a, b))
}

/// Splits a token into its signing input and its base64 payload and
/// signature; a token without exactly three `.`-separated parts is malformed.
pub fn split_jwt(token: &str) -> (r: Result<(String, String, String), String>)
    ensures
        dot_parts(token@).len() != 3 ==> (r matches Err(m) && m@ == "malformed token"@),
        dot_parts(token@).len() == 3 ==> (r matches Ok((hp, p, sig)) && hp@ == signing_input(
            dot_parts(token@),
        ) && p@ == dot_parts(token@)[1] && sig@ == dot_parts(token@)[2]),
{
    let cs = crate::text::chars_of(token);
    let (a, b) = match dot_positions(&cs) {
        Some(p) => p,
        None => return Err(owned("malformed token")),
    };
    let n = cs.len();
    let mut hp = slice_chars(&cs, 0, b);
    hp.set(a, '.');
    proof {
        assert(hp@ =~= cs@.subrange(0, a as int) + seq!['.'] + cs@.subrange(a + 1, b as int));
    }
    let p1 = slice_chars(&cs, a + 1, b);
    let p2 = slice_chars(&cs, b + 1, n);
    Ok((string_from_chars(hp), string_from_chars(p1), string_from_chars(p2)))
}

fn slice_chars(cs: &Vec<char>, from: usize, to: usize) -> (r: Vec<char>)
    requires
        from <= to <= cs@.len(),
    ensures
        r@ == cs@.subrange(from as int, to as int),
{
    let mut r: Vec<char> = Vec::new();
    let mut i = from;
    while i < to
        invariant
            from <= i <= to,
            to <= cs@.len(),
            r@ == cs@.subrange(from as int, i as int),
        decreases to - i,
    {
        r.push(cs[i]);
        assert(r@ =~= cs@.subrange(from as int, i + 1));
        i = i + 1;
    }
    r
}

} // verus!

verus! {

/// The signing input of a token with this JSON payload:
/// `base64(header).base64(payload)`.
pub fn jwt_signing_input(payload_json: &str) -> (r: String)
    ensures
        r@ == b64_encode("{\"alg\":\"HS256\",\"typ\":\"JWT\"}".spec_bytes()) + seq!['.'] + b64_encode(
            payload_json.spec_bytes(),
        ),
{
    let mut r = base64_encode("{\"alg\":\"HS256\",\"typ\":\"JWT\"}");
    let p = base64_encode(payload_json);
    r.append(".");
    r.append(p.as_str());
    proof {
        reveal_strlit(".");
    }
    r
}

/// The token: the signing input, `.`, the signature.
pub fn jwt_token(signing_input: &str, signature: &str) -> (r: String)
    ensures
        r@ == signing_input@ + seq!['.'] + signature@,
{
    let mut r = owned(signing_input);
    r.append(".");
    r.append(signature);
    proof {
        reveal_strlit(".");
    }
    r
}

} // verus!
