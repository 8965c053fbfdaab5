//! Helpers of the HTTP layer: timestamps, URL decoding, truncation and
//! request-line parsing.
use vstd::prelude::*;
use vstd::string::*;
use vstd::utf8::*;
use crate::text::{owned, chars_of, decimal, decimal_string, lowercase, string_from_chars, to_lowercase};
use crate::channels::{line_views, lines_of, slice, split_lines, starts, starts_with, strip_chars, trim};

verus! {

broadcast use vstd::string::group_string_axioms;

#[verifier::external_type_specification]
#[verifier::external_body]
pub struct ExSystemTime(std::time::SystemTime);

/// `SystemTime::now`: the system clock's current reading. Nothing is claimed
/// of it; the time is the clock's.
#[verifier::external_body]
fn system_now() -> (t: std::time::SystemTime) {
    std::time::SystemTime::now()
}

/// `SystemTime::duration_since(UNIX_EPOCH)`: the distance of `t` from the
/// epoch, `None` (the std error) when `t` lies before it. Nothing is claimed
/// of the distance; it is the clock's.
#[verifier::external_body]
fn since_epoch(t: &std::time::SystemTime) -> (d: Option<std::time::Duration>) {
    match t.duration_since(std::time::UNIX_EPOCH) {
        Ok(d) => Some(d),
        Err(_) => None,
    }
}

/// `Duration::as_secs`: the whole seconds of `d`. Nothing is claimed of the
/// value, which Verus cannot see inside a `Duration`.
#[verifier::external_body]
fn duration_secs(d: &std::time::Duration) -> (n: u64) {
    d.as_secs()
}

/// `Duration::subsec_nanos`: the nanoseconds of `d` past its whole seconds,
/// which std documents as always below one billion.
#[verifier::external_body]
fn duration_subsec_nanos(d: &std::time::Duration) -> (n: u32)
    ensures
        n < 1_000_000_000,
{
    d.subsec_nanos()
}

/// The system clock's distance from `UNIX_EPOCH`: the whole seconds and the
/// nanoseconds past them, both zero when the clock is before the epoch.
pub(crate) fn clock_since_epoch() -> (d: (u64, u32))
    ensures
        d.1 < 1_000_000_000,
{
    let now = system_now();
    match since_epoch(&now) {
        Some(d) => (duration_secs(&d), duration_subsec_nanos(&d)),
        None => (0, 0),
    }
}

/// The seconds since the Unix epoch by the system clock (0 before the epoch).
pub fn chrono_now_secs() -> (t: u64) {
    clock_since_epoch().0
}

/// A timestamp rendered as seconds followed by `s`.
pub open spec fn secs_str(t: u64) -> Seq<char> {
    decimal(t as nat).push('s')
}

/// The current time as `"<seconds>s"`.
pub fn chrono_now_str() -> (s: String)
    ensures
        exists|t: u64| s@ == secs_str(t),
{
    let t = chrono_now_secs();
    secs_string(t)
}

/// `t` rendered as `"<seconds>s"`.
pub fn secs_string(t: u64) -> (s: String)
    ensures
        s@ == secs_str(t),
{
    let mut s = decimal_string(t);
    s.append("s");
    proof {
        reveal_strlit("s");
    }
    assert(s@ =~= secs_str(t));
    s
}

/// The value of an ASCII hexadecimal digit.
pub open spec fn hex_val(b: u8) -> Option<u8> {
    if 48 <= b <= 57 {
        Some((b - 48) as u8)
    } else if 97 <= b <= 102 {
        Some((b - 87) as u8)
    } else if 65 <= b <= 70 {
        Some((b - 55) as u8)
    } else {
        None
    }
}

/// `u8::from_str_radix` in base 16 on the two bytes after a `%`: two hex
/// digits, or a `+` sign and one digit.
pub open spec fn hex_pair(b1: u8, b2: u8) -> Option<u8> {
    if b1 == 43 {
        hex_val(b2)
    } else {
        match (hex_val(b1), hex_val(b2)) {
            (Some(h), Some(l)) => Some((h * 16 + l) as u8),
            _ => None,
        }
    }
}

/// The byte that two ASCII hexadecimal digits spell.
pub open spec fn hex_byte(b1: u8, b2: u8) -> Option<u8> {
    match (hex_val(b1), hex_val(b2)) {
        (Some(h), Some(l)) => Some((h * 16 + l) as u8),
        _ => None,
    }
}

/// The bytes a URL-encoded byte string stands for: `%XY` with two hex digits
/// is the byte 0xXY, `+` a space, any other byte itself.
pub open spec fn url_bytes(b: Seq<u8>) -> Seq<u8>
    decreases b.len(),
{
    if b.len() == 0 {
        Seq::empty()
    } else if b[0] == 37 && 2 < b.len() && hex_byte(b[1], b[2]) is Some {
        seq![hex_byte(b[1], b[2]).unwrap()] + url_bytes(b.skip(3))
    } else if b[0] == 43 {
        seq![32u8] + url_bytes(b.skip(1))
    } else {
        seq![b[0]] + url_bytes(b.skip(1))
    }
}

/// What `String::from_utf8_lossy` gives for a byte string: its text, each
/// ill-formed sequence replaced by U+FFFD.
pub uninterp spec fn utf8_lossy(b: Seq<u8>) -> Seq<char>;

/// `String::from_utf8_lossy`; the contract claims the text `utf8_lossy`
/// names for these bytes and, as std documents (nothing is replaced in valid
/// UTF-8), that valid UTF-8 gives exactly the text it encodes. How invalid
/// sequences are replaced is left unsaid.
#[verifier::external_body]
fn utf8_lossy_string(b: &[u8]) -> (r: String)
    ensures
        r@ == utf8_lossy(b@),
        valid_utf8(b@) ==> r@ == decode_utf8(b@),
{
    String::from_utf8_lossy(b).into_owned()
}

fn hex_val_exec(b: u8) -> (r: Option<u8>)
    ensures
        r == hex_val(b),
{
    if 48 <= b && b <= 57 {
        Some(b - 48)
    } else if 97 <= b && b <= 102 {
        Some(b - 87)
    } else if 65 <= b && b <= 70 {
        Some(b - 55)
    } else {
        None
    }
}

pub fn hex_pair_exec(b1: u8, b2: u8) -> (r: Option<u8>)
    ensures
        r == hex_pair(b1, b2),
{
    if b1 == 43 {
        return hex_val_exec(b2);
    }
    match (hex_val_exec(b1), hex_val_exec(b2)) {
        (Some(h), Some(l)) => Some(h * 16 + l),
        _ => None,
    }
}

fn hex_byte_exec(b1: u8, b2: u8) -> (r: Option<u8>)
    ensures
        r == hex_byte(b1, b2),
{
    match (hex_val_exec(b1), hex_val_exec(b2)) {
        (Some(h), Some(l)) => Some(h * 16 + l),
        _ => None,
    }
}

/// The bytes a URL-encoded string stands for; see `url_bytes`.
pub fn url_decode_bytes(s: &str) -> (r: Vec<u8>)
    ensures
        r@ == url_bytes(s.spec_bytes()),
{
    let bytes = s.as_bytes();
    let ghost b = bytes@;
    let mut out: Vec<u8> = Vec::new();
    let mut i: usize = 0;
    assert(b.skip(0) =~= b);
    while i < bytes.len()
        invariant
            b == bytes@,
            i <= b.len(),
            url_bytes(b) == out@ + url_bytes(b.skip(i as int)),
        decreases b.len() - i,
    {
        let ghost rest = b.skip(i as int);
        if bytes[i] == 37 && bytes.len() - i > 2 {
            if let Some(v) = hex_byte_exec(bytes[i + 1], bytes[i + 2]) {
                assert(rest.skip(3) =~= b.skip(i + 3));
                out.push(v);
                assert(out@ + url_bytes(b.skip(i + 3)) =~= out@.drop_last() + (seq![v] + url_bytes(
                    b.skip(i + 3),
                )));
                i = i + 3;
                continue;
            }
        }
        assert(rest.skip(1) =~= b.skip(i + 1));
        let c: u8 = if bytes[i] == 43 {
            32
        } else {
            bytes[i]
        };
        out.push(c);
        assert(out@ + url_bytes(b.skip(i + 1)) =~= out@.drop_last() + (seq![c] + url_bytes(
            b.skip(i + 1),
        )));
        i = i + 1;
    }
    assert(b.skip(b.len() as int) =~= Seq::<u8>::empty());
    assert(out@ + Seq::<u8>::empty() =~= out@);
    out
}

/// Percent-decodes a URL query value: `+` is a space, `%XY` the byte 0xXY,
/// and the bytes are read as UTF-8 (so `%C3%A9` is `é`); where they are not
/// valid UTF-8, each ill-formed sequence becomes U+FFFD.
pub fn urlencoding_decode(s: &str) -> (r: String)
    ensures
        r@ == utf8_lossy(url_bytes(s.spec_bytes())),
        valid_utf8(url_bytes(s.spec_bytes())) ==> r@ == decode_utf8(url_bytes(s.spec_bytes())),
{
    let b = url_decode_bytes(s);
    utf8_lossy_string(b.as_slice())
}

/// The first `max_tokens * 4` bytes of `text`, or all of it when shorter.
pub fn truncate_completion(text: &str, max_tokens: usize) -> (r: String)
    requires
        max_tokens * 4 <= usize::MAX,
        valid_utf8(text.spec_bytes()) && text.spec_bytes().len() > max_tokens * 4 ==> is_char_boundary(
            text.spec_bytes(),
            max_tokens * 4,
        ),
    ensures
        encode_utf8(r@) == if text.spec_bytes().len() <= max_tokens * 4 {
            text.spec_bytes()
        } else {
            text.spec_bytes().subrange(0, max_tokens * 4)
        },
{
    let max_chars = max_tokens * 4;
    proof {
        encode_utf8_valid_utf8(text@);
    }
    if text.as_bytes().len() <= max_chars {
        owned(text)
    } else {
        let (head, _) = text.split_at(max_chars);
        let r = owned(head);
        assert(encode_utf8(r@) == head.spec_bytes());
        r
    }
}

/// `char::is_whitespace`: the Unicode `White_Space` characters.
pub open spec fn is_ws(c: char) -> bool {
    let u = c as u32;
    ||| 9 <= u <= 13
    ||| u == 32
    ||| u == 0x85
    ||| u == 0xA0
    ||| u == 0x1680
    ||| 0x2000 <= u <= 0x200A
    ||| u == 0x2028
    ||| u == 0x2029
    ||| u == 0x202F
    ||| u == 0x205F
    ||| u == 0x3000
}

pub fn is_whitespace(c: char) -> (b: bool)
    ensures
        b == is_ws(c),
{
    let u = c as u32;
    (9 <= u && u <= 13) || u == 32 || u == 0x85 || u == 0xA0 || u == 0x1680 || (0x2000 <= u && u
        <= 0x200A) || u == 0x2028 || u == 0x2029 || u == 0x202F || u == 0x205F || u == 0x3000
}

/// The position of the first `c` in `s`, if any.
pub open spec fn find_char(s: Seq<char>, c: char) -> Option<int>
    decreases s.len(),
{
    if s.len() == 0 {
        None
    } else if s[0] == c {
        Some(0)
    } else {
        match find_char(s.drop_first(), c) {
            Some(i) => Some(i + 1),
            None => None,
        }
    }
}

/// The first line, as `str::lines` yields it: up to the first `\n`, with
/// a `\r` before it removed; the whole text when there is no `\n`.
pub open spec fn first_line(s: Seq<char>) -> Seq<char> {
    match find_char(s, '\n') {
        Some(i) => if i > 0 && s[i - 1] == '\r' {
            s.take(i - 1)
        } else {
            s.take(i)
        },
        None => s,
    }
}

/// The number of leading characters that are not whitespace.
pub open spec fn word_len(s: Seq<char>) -> nat
    decreases s.len(),
{
    if s.len() == 0 || is_ws(s[0]) {
        0
    } else {
        1 + word_len(s.drop_first())
    }
}

/// `str::split_whitespace`: the maximal runs of non-whitespace characters.
pub open spec fn words(s: Seq<char>) -> Seq<Seq<char>>
    decreases s.len(),
{
    if s.len() == 0 {
        Seq::empty()
    } else if is_ws(s[0]) {
        words(s.drop_first())
    } else {
        proof {
            lemma_word_len(s);
        }
        seq![s.take(word_len(s) as int)] + words(s.skip(word_len(s) as int))
    }
}

pub proof fn lemma_word_len(s: Seq<char>)
    ensures
        word_len(s) <= s.len(),
        forall|k: int| 0 <= k < word_len(s) ==> !is_ws(#[trigger] s[k]),
        word_len(s) < s.len() ==> is_ws(s[word_len(s) as int]),
    decreases s.len(),
{
    if s.len() > 0 && !is_ws(s[0]) {
        lemma_word_len(s.drop_first());
        assert forall|k: int| 0 <= k < word_len(s) implies !is_ws(#[trigger] s[k]) by {
            if k > 0 {
                assert(s[k] == s.drop_first()[k - 1]);
            }
        }
    }
}

proof fn lemma_words_skip_word(s: Seq<char>, i: int, j: int)
    requires
        0 <= i < j <= s.len(),
        !is_ws(s[i]),
        forall|k: int| i <= k < j ==> !is_ws(#[trigger] s[k]),
        j == s.len() || is_ws(s[j]),
    ensures
        words(s.skip(i)) == seq![s.subrange(i, j)] + words(s.skip(j)),
{
    let t = s.skip(i);
    lemma_word_len_exact(t, j - i);
    assert(t.take(j - i) =~= s.subrange(i, j));
    assert(t.skip(j - i) =~= s.skip(j));
}

proof fn lemma_word_len_exact(t: Seq<char>, n: int)
    requires
        0 <= n <= t.len(),
        forall|k: int| 0 <= k < n ==> !is_ws(#[trigger] t[k]),
        n == t.len() || is_ws(t[n]),
    ensures
        word_len(t) == n,
    decreases n,
{
    if n > 0 {
        let u = t.drop_first();
        assert forall|k: int| 0 <= k < n - 1 implies !is_ws(#[trigger] u[k]) by {
            assert(u[k] == t[k + 1]);
        }
        if n < t.len() {
            assert(u[n - 1] == t[n]);
        }
        lemma_word_len_exact(u, n - 1);
    }
}

/// Up to `limit` leading words of `cs`, as `split_whitespace` yields them.
fn leading_words(cs: &Vec<char>, limit: usize) -> (r: Vec<Vec<char>>)
    ensures
        r@.len() <= limit,
        forall|k: int| 0 <= k < r@.len() ==> (#[trigger] r@[k])@ == words(cs@)[k],
        r@.len() < limit ==> r@.len() == words(cs@).len(),
        r@.len() <= words(cs@).len(),
{
    let ghost s = cs@;
    let mut out: Vec<Vec<char>> = Vec::new();
    let ghost found: Seq<Seq<char>> = Seq::empty();
    let mut i: usize = 0;
    assert(s.skip(0) =~= s);
    while i < cs.len() && out.len() < limit
        invariant
            s == cs@,
            i <= s.len(),
            out@.len() <= limit,
            found.len() == out@.len(),
            forall|k: int| 0 <= k < out@.len() ==> (#[trigger] out@[k])@ == found[k],
            words(s) == found + words(s.skip(i as int)),
        decreases s.len() - i,
    {
        if is_whitespace(cs[i]) {
            assert(s.skip(i as int).drop_first() =~= s.skip(i + 1));
            assert(s.skip(i as int)[0] == s[i as int]);
            i = i + 1;
        } else {
            let start = i;
            let mut w: Vec<char> = Vec::new();
            while i < cs.len() && !is_whitespace(cs[i])
                invariant
                    s == cs@,
                    start <= i <= s.len(),
                    w@ == s.subrange(start as int, i as int),
                    forall|k: int| start <= k < i ==> !is_ws(#[trigger] s[k]),
                decreases s.len() - i,
            {
                w.push(cs[i]);
                assert(w@ =~= s.subrange(start as int, i + 1));
                i = i + 1;
            }
            proof {
                lemma_words_skip_word(s, start as int, i as int);
                found = found.push(w@);
                assert(found.drop_last() + (seq![w@] + words(s.skip(i as int))) =~= found + words(
                    s.skip(i as int),
                ));
            }
            out.push(w);
        }
    }
    proof {
        if out@.len() < limit {
            assert(s.skip(i as int) =~= Seq::<char>::empty());
            assert(words(s.skip(i as int)) == Seq::<Seq<char>>::empty());
            assert(found + Seq::<Seq<char>>::empty() =~= found);
        }
        lemma_words_prefix_len(found, words(s.skip(i as int)));
    }
    out
}

proof fn lemma_words_prefix_len(a: Seq<Seq<char>>, b: Seq<Seq<char>>)
    ensures
        (a + b).len() >= a.len(),
        forall|k: int| 0 <= k < a.len() ==> (a + b)[k] == a[k],
{
}

/// The first line of `cs`.
fn first_line_of(cs: &Vec<char>) -> (r: Vec<char>)
    ensures
        r@ == first_line(cs@),
{
    let ghost s = cs@;
    let mut i: usize = 0;
    assert(s.skip(0) =~= s);
    while i < cs.len() && cs[i] != '\n'
        invariant
            s == cs@,
            i <= s.len(),
            forall|k: int| 0 <= k < i ==> s[k] != '\n',
            find_char(s, '\n') == (match find_char(s.skip(i as int), '\n') {
                Some(j) => Some(j + i),
                None => None,
            }),
        decreases s.len() - i,
    {
        assert(s.skip(i as int).drop_first() =~= s.skip(i + 1));
        assert(s.skip(i as int)[0] == s[i as int]);
        i = i + 1;
    }
    let mut end = i;
    if i < cs.len() {
        assert(s.skip(i as int)[0] == s[i as int]);
        if i > 0 && cs[i - 1] == '\r' {
            end = i - 1;
        }
    } else {
        assert(s.skip(i as int) =~= Seq::<char>::empty());
    }
    let mut r: Vec<char> = Vec::new();
    let mut j: usize = 0;
    while j < end
        invariant
            end <= s.len(),
            s == cs@,
            j <= end,
            r@ == s.subrange(0, j as int),
        decreases end - j,
    {
        r.push(cs[j]);
        assert(r@ =~= s.subrange(0, j + 1));
        j = j + 1;
    }
    proof {
        assert(find_char(s, '\n') == if i < s.len() { Some(i as int) } else { None::<int> }) by {
            if i < s.len() {
                assert(find_char(s.skip(i as int), '\n') == Some(0int));
            }
        }
        if i == s.len() {
            assert(s.subrange(0, end as int) =~= s);
        }
    }
    r
}

/// `pat` occurs in `s` at position `i`.
pub open spec fn occurs_at(s: Seq<char>, pat: Seq<char>, i: int) -> bool {
    0 <= i && i + pat.len() <= s.len() && s.subrange(i, i + pat.len()) == pat
}

/// The position of the first occurrence of `pat` in `s` at or after `i`.
pub open spec fn find_from(s: Seq<char>, pat: Seq<char>, i: int) -> Option<int>
    decreases s.len() - i,
{
    if i < 0 || i + pat.len() > s.len() {
        None
    } else if occurs_at(s, pat, i) {
        Some(i)
    } else {
        proof {
            if pat.len() == 0 {
                assert(s.subrange(i, i + pat.len()) =~= pat);
            }
        }
        find_from(s, pat, i + 1)
    }
}

/// The first occurrence found from `i` is an occurrence at or after `i`,
/// and none found means there is none from `i` on.
pub proof fn lemma_find_from(s: Seq<char>, pat: Seq<char>, i: int)
    requires
        0 <= i,
    ensures
        find_from(s, pat, i) matches Some(p) ==> i <= p && occurs_at(s, pat, p),
        find_from(s, pat, i) is None ==> forall|k: int| i <= k ==> !occurs_at(s, pat, k),
    decreases s.len() - i,
{
    if i + pat.len() > s.len() {
    } else if occurs_at(s, pat, i) {
    } else {
        if pat.len() == 0 {
            assert(s.subrange(i, i) =~= pat);
        }
        lemma_find_from(s, pat, i + 1);
    }
}

/// Searches `s` for `pat` from position `from`.
pub(crate) fn find_pattern(s: &Vec<char>, pat: &Vec<char>, from: usize) -> (r: Option<usize>)
    ensures
        r matches Some(p) ==> find_from(s@, pat@, from as int) == Some(p as int),
        r is None ==> find_from(s@, pat@, from as int) is None,
    decreases s@.len() - from,
{
    if from > s.len() || pat.len() > s.len() - from {
        return None;
    }
    let mut k: usize = 0;
    while k < pat.len()
        invariant
            from + pat@.len() <= s.len(),
            k <= pat@.len(),
            forall|j: int| 0 <= j < k ==> s@[from + j] == pat@[j],
        decreases pat@.len() - k,
    {
        if s[from + k] != pat[k] {
            proof {
                assert(s@.subrange(from as int, from + pat@.len())[k as int] != pat@[k as int]);
            }
            return find_pattern(s, pat, from + 1);
        }
        k = k + 1;
    }
    assert(s@.subrange(from as int, from + pat@.len()) =~= pat@);
    Some(from)
}

pub open spec fn crlf2() -> Seq<char> {
    seq!['\r', '\n', '\r', '\n']
}

pub open spec fn lf2() -> Seq<char> {
    seq!['\n', '\n']
}

/// The body of a raw request: what follows the first blank line (`\r\n\r\n`,
/// else `\n\n`), or nothing.
pub open spec fn request_body(s: Seq<char>) -> Seq<char> {
    match find_from(s, crlf2(), 0) {
        Some(p) => s.skip(p + 4),
        None => match find_from(s, lf2(), 0) {
            Some(p) => s.skip(p + 2),
            None => Seq::empty(),
        },
    }
}

/// The method of a raw request: the first word of its first line, or `GET`.
pub open spec fn request_method(s: Seq<char>) -> Seq<char> {
    let w = words(first_line(s));
    if w.len() > 0 {
        w[0]
    } else {
        seq!['G', 'E', 'T']
    }
}

/// The path of a raw request: the second word of its first line, or `/`.
pub open spec fn request_path(s: Seq<char>) -> Seq<char> {
    let w = words(first_line(s));
    if w.len() > 1 {
        w[1]
    } else {
        seq!['/']
    }
}

fn tail_from(cs: &Vec<char>, start: usize) -> (r: Vec<char>)
    requires
        start <= cs@.len(),
    ensures
        r@ == cs@.skip(start as int),
{
    let mut r: Vec<char> = Vec::new();
    let mut i: usize = start;
    while i < cs.len()
        invariant
            start <= i <= cs@.len(),
            r@ == cs@.subrange(start as int, i as int),
        decreases cs@.len() - i,
    {
        r.push(cs[i]);
        assert(r@ =~= cs@.subrange(start as int, i + 1));
        i = i + 1;
    }
    assert(cs@.subrange(start as int, cs@.len() as int) =~= cs@.skip(start as int));
    r
}

/// Splits a raw HTTP request into method, path and body.
pub fn parse_http_request(raw: &str) -> (r: (String, String, String))
    ensures
        r.0@ == request_method(raw@),
        r.1@ == request_path(raw@),
        r.2@ == request_body(raw@),
{
    let cs = chars_of(raw);
    let line = first_line_of(&cs);
    let ws = leading_words(&line, 2);
    let method = if ws.len() > 0 {
        string_from_chars(ws[0].clone())
    } else {
        string_from_chars(vec!['G', 'E', 'T'])
    };
    let path = if ws.len() > 1 {
        string_from_chars(ws[1].clone())
    } else {
        string_from_chars(vec!['/'])
    };
    let crlf: Vec<char> = vec!['\r', '\n', '\r', '\n'];
    let lf: Vec<char> = vec!['\n', '\n'];
    assert(crlf@ =~= crlf2());
    assert(lf@ =~= lf2());
    let body = match find_pattern(&cs, &crlf, 0) {
        Some(p) => {
            proof {
                lemma_find_from(cs@, crlf2(), 0);
            }
            let n = cs.len();
            assert(p + 4 <= n);
            tail_from(&cs, p + 4)
        },
        None => match find_pattern(&cs, &lf, 0) {
            Some(p) => {
                proof {
                    lemma_find_from(cs@, lf2(), 0);
                }
                let n = cs.len();
                assert(p + 2 <= n);
                tail_from(&cs, p + 2)
            },
            None => Vec::new(),
        },
    };
    (method, path, string_from_chars(body))
}

// ---------------------------------------------------------------------------
// Request headers.

/// `p` is the first line satisfying `pred`.
pub open spec fn first_where(ls: Seq<Seq<char>>, pred: spec_fn(Seq<char>) -> bool, i: int) -> bool {
    0 <= i < ls.len() && pred(ls[i]) && forall|j: int| 0 <= j < i ==> !pred(ls[j])
}

/// The first line satisfying `pred`, if any.
pub open spec fn first_line_where(ls: Seq<Seq<char>>, pred: spec_fn(Seq<char>) -> bool) -> Option<
    Seq<char>,
> {
    if exists|i: int| first_where(ls, pred, i) {
        Some(ls[choose|i: int| first_where(ls, pred, i)])
    } else {
        None
    }
}

proof fn lemma_first_where(ls: Seq<Seq<char>>, pred: spec_fn(Seq<char>) -> bool, i: int)
    requires
        first_where(ls, pred, i),
    ensures
        first_line_where(ls, pred) == Some(ls[i]),
{
    let k = choose|k: int| first_where(ls, pred, k);
    if k < i {
        assert(!pred(ls[k]));
    } else if k > i {
        assert(!pred(ls[i]));
    }
}

/// The text after the first `n` bytes of `line`.
pub open spec fn utf8_cut(line: Seq<char>, n: int) -> Seq<char> {
    decode_utf8(encode_utf8(line).skip(n))
}

/// `line` can be cut after its first `n` bytes: `n` falls on a character
/// boundary.
pub open spec fn cuttable(line: Seq<char>, n: int) -> bool {
    is_char_boundary(encode_utf8(line), n)
}

/// Lines whose lowercase starts with `target`.
pub open spec fn header_pred(target: Seq<char>) -> spec_fn(Seq<char>) -> bool {
    |l: Seq<char>| starts(lowercase(l), target)
}

/// Lines carrying a credential header.
pub open spec fn auth_pred() -> spec_fn(Seq<char>) -> bool {
    |l: Seq<char>| auth_kind(l) != 0
}

/// A header line's name, lowercased, with its colon.
pub open spec fn header_target(name: Seq<char>) -> Seq<char> {
    lowercase(name) + seq![':']
}

/// The line that names the header: the first whose lowercase starts with
/// the lowercased name and a colon.
pub open spec fn header_line(raw: Seq<char>, name: Seq<char>) -> Option<Seq<char>> {
    first_line_where(lines_of(raw), header_pred(header_target(name)))
}

/// The value of a header: that line after as many bytes as the target
/// takes, trimmed.
pub open spec fn header_value(raw: Seq<char>, name: Seq<char>) -> Option<Seq<char>> {
    match header_line(raw, name) {
        Some(l) => Some(trim(utf8_cut(l, encode_utf8(header_target(name)).len() as int))),
        None => None,
    }
}

/// The header line, if any, can be cut where its value starts.
pub open spec fn header_cuttable(raw: Seq<char>, name: Seq<char>) -> bool {
    match header_line(raw, name) {
        Some(l) => cuttable(l, encode_utf8(header_target(name)).len() as int),
        None => true,
    }
}

pub open spec fn opt_string_view(o: Option<String>) -> Option<Seq<char>> {
    match o {
        Some(s) => Some(s@),
        None => None,
    }
}

/// The first line satisfying a test on its lowercase form, as a `String`.
fn first_header_line(raw: &str, target: &str) -> (r: Option<String>)
    ensures
        opt_string_view(r) == first_line_where(
            lines_of(raw@),
            header_pred(target@),
        ),
{
    let lines = split_lines(&chars_of(raw));
    let mut i: usize = 0;
    while i < lines.len()
        invariant
            i <= lines@.len(),
            line_views(lines@) == lines_of(raw@),
            forall|j: int| 0 <= j < i ==> !starts(lowercase(lines_of(raw@)[j]), target@),
        decreases lines@.len() - i,
    {
        let line = string_from_chars(slice(&lines[i], 0, lines[i].len()));
        let lower = chars_of(to_lowercase(line.as_str()).as_str());
        proof {
            assert(lines@[i as int]@.subrange(0, lines@[i as int]@.len() as int) =~= lines@[i as int]@);
            assert(lines_of(raw@)[i as int] == line@);
        }
        if starts_with(&lower, target) {
            proof {
                lemma_first_where(
                    lines_of(raw@),
                    header_pred(target@),
                    i as int,
                );
            }
            return Some(line);
        }
        i = i + 1;
    }
    proof {
        assert forall|k: int| !#[trigger] first_where(lines_of(raw@), header_pred(target@), k) by {
            if 0 <= k < lines_of(raw@).len() {
                assert(!starts(lowercase(lines_of(raw@)[k]), target@));
            }
        }
    }
    None
}

/// The trimmed text of `line` after its first `n` bytes.
fn cut_trim(line: &str, n: usize) -> (r: String)
    requires
        cuttable(line@, n as int),
    ensures
        r@ == trim(utf8_cut(line@, n as int)),
{
    let (_, tail) = line.split_at(n);
    proof {
        assert(encode_utf8(line@).subrange(n as int, encode_utf8(line@).len() as int) =~= encode_utf8(
            line@,
        ).skip(n as int));
        encode_utf8_decode_utf8(tail@);
    }
    string_from_chars(strip_chars(&chars_of(tail), true, ' '))
}

/// The value of the named header in a raw request; see `header_value`.
pub fn extract_header(raw: &str, name: &str) -> (r: Option<String>)
    requires
        header_cuttable(raw@, name@),
    ensures
        opt_string_view(r) == header_value(raw@, name@),
{
    let mut target = to_lowercase(name);
    target.append(":");
    proof {
        reveal_strlit(":");
        assert(target@ == header_target(name@));
    }
    match first_header_line(raw, target.as_str()) {
        None => None,
        Some(line) => {
            let n = target.as_str().as_bytes().len();
            Some(cut_trim(line.as_str(), n))
        },
    }
}

/// `extract_header`, on every request: `None` when the header line cannot
/// be cut where its value starts, else `Some` of the header's value.
pub fn extract_header_checked(raw: &str, name: &str) -> (r: Option<Option<String>>)
    ensures
        r is None <==> !header_cuttable(raw@, name@),
        r matches Some(v) ==> opt_string_view(v) == header_value(raw@, name@),
{
    let mut target = to_lowercase(name);
    target.append(":");
    proof {
        reveal_strlit(":");
        assert(target@ == header_target(name@));
    }
    match first_header_line(raw, target.as_str()) {
        None => Some(extract_header(raw, name)),
        Some(line) => {
            let n = target.as_str().as_bytes().len();
            if line.as_str().is_char_boundary(n) {
                Some(extract_header(raw, name))
            } else {
                None
            }
        },
    }
}

/// Which credential header a line carries: 1 for `Authorization:`, 2 for
/// `X-SSO-Token:` (names compared in lowercase), 0 for neither.
pub open spec fn auth_kind(line: Seq<char>) -> int {
    if starts(lowercase(line), "authorization:"@) {
        1
    } else if starts(lowercase(line), "x-sso-token:"@) {
        2
    } else {
        0
    }
}

pub open spec fn auth_line(raw: Seq<char>) -> Option<Seq<char>> {
    first_line_where(lines_of(raw), auth_pred())
}

/// An `Authorization` value without its `Bearer ` (or `bearer `) scheme.
pub open spec fn strip_bearer(v: Seq<char>) -> Seq<char> {
    if starts(v, "Bearer "@) || starts(v, "bearer "@) {
        v.skip(7)
    } else {
        v
    }
}

/// The credential of a raw request: from the first line carrying one, the
/// bearer token of `Authorization` or the value of `X-SSO-Token`, trimmed.
pub open spec fn auth_value(raw: Seq<char>) -> Option<Seq<char>> {
    match auth_line(raw) {
        Some(l) => if auth_kind(l) == 1 {
            Some(trim(strip_bearer(trim(utf8_cut(l, 14)))))
        } else {
            Some(trim(utf8_cut(l, 12)))
        },
        None => None,
    }
}

pub open spec fn auth_cuttable(raw: Seq<char>) -> bool {
    match auth_line(raw) {
        Some(l) => cuttable(l, if auth_kind(l) == 1 { 14 } else { 12 }),
        None => true,
    }
}

/// The first line carrying a credential header, and which one.
fn first_auth_line(raw: &str) -> (r: Option<(String, bool)>)
    ensures
        r matches Some((l, is_auth)) ==> auth_line(raw@) == Some(l@) && is_auth == (auth_kind(l@)
            == 1),
        r is None ==> auth_line(raw@) is None,
{
    let lines = split_lines(&chars_of(raw));
    let mut i: usize = 0;
    while i < lines.len()
        invariant
            i <= lines@.len(),
            line_views(lines@) == lines_of(raw@),
            forall|j: int| 0 <= j < i ==> auth_kind(lines_of(raw@)[j]) == 0,
        decreases lines@.len() - i,
    {
        let line = string_from_chars(slice(&lines[i], 0, lines[i].len()));
        let lower = chars_of(to_lowercase(line.as_str()).as_str());
        proof {
            assert(lines@[i as int]@.subrange(0, lines@[i as int]@.len() as int) =~= lines@[i as int]@);
            assert(lines_of(raw@)[i as int] == line@);
        }
        let a = starts_with(&lower, "authorization:");
        let b = starts_with(&lower, "x-sso-token:");
        if a || b {
            proof {
                lemma_first_where(lines_of(raw@), auth_pred(), i as int);
            }
            return Some((line, a));
        }
        i = i + 1;
    }
    proof {
        assert forall|k: int| !#[trigger] first_where(lines_of(raw@), auth_pred(), k) by {
            if 0 <= k < lines_of(raw@).len() {
                assert(auth_kind(lines_of(raw@)[k]) == 0);
            }
        }
    }
    None
}

/// The credential of a raw request; see `auth_value`.
pub fn extract_auth_header(raw: &str) -> (r: Option<String>)
    requires
        auth_cuttable(raw@),
    ensures
        opt_string_view(r) == auth_value(raw@),
{
    match first_auth_line(raw) {
        None => None,
        Some((line, true)) => {
            let v = cut_trim(line.as_str(), 14);
            let vc = chars_of(v.as_str());
            let token = if starts_with(&vc, "Bearer ") || starts_with(&vc, "bearer ") {
                proof {
                    reveal_strlit("Bearer ");
                    reveal_strlit("bearer ");
                }
                slice(&vc, 7, vc.len())
            } else {
                vc
            };
            proof {
                assert(token@ == strip_bearer(v@));
            }
            Some(string_from_chars(strip_chars(&token, true, ' ')))
        },
        Some((line, false)) => Some(cut_trim(line.as_str(), 12)),
    }
}

/// `extract_auth_header`, on every request: `None` when the credential line
/// cannot be cut where its value starts, else `Some` of the credential.
pub fn extract_auth_header_checked(raw: &str) -> (r: Option<Option<String>>)
    ensures
        r is None <==> !auth_cuttable(raw@),
        r matches Some(v) ==> opt_string_view(v) == auth_value(raw@),
{
    match first_auth_line(raw) {
        None => Some(extract_auth_header(raw)),
        Some((line, is_auth)) => {
            let n: usize = if is_auth {
                14
            } else {
                12
            };
            if line.as_str().is_char_boundary(n) {
                Some(extract_auth_header(raw))
            } else {
                None
            }
        },
    }
}

} // verus!
