//! The optional API-token gate: token comparison, extraction of `token=`
//! from a query string, percent-decoding of its value, the text of a
//! header, and the decision whether a request passes.

use vstd::prelude::*;
use vstd::slice::{slice_subrange, slice_to_vec};
use vstd::string::StringSliceAdditionalSpecFns;
use vstd::utf8::{decode_utf8, encode_utf8, valid_utf8};

use crate::text::{
    all_ascii, ascii_string, ascii_text, lemma_spec_bytes_injective, lossy_string, str_equal,
    utf8_lossy_text, bytes_as_text,
};

verus! {

proof fn lemma_or_xor_zero(d: u8, x: u8, y: u8)
    ensures
        ((d | (x ^ y)) == 0u8) == (d == 0u8 && x == y),
{
    assert(((d | (x ^ y)) == 0u8) == (d == 0u8 && x == y)) by (bit_vector);
}

/// Compares two byte strings in time that depends only on their lengths.
/// The result is `true` exactly when the two strings are equal.
pub fn constant_time_eq(a: &[u8], b: &[u8]) -> (res: bool)
    ensures
        res == (a@ == b@),
{
    if a.len() != b.len() {
        return false;
    }
    let mut diff: u8 = 0;
    let mut i: usize = 0;
    while i < a.len()
        invariant
            a.len() == b.len(),
            i <= a.len(),
            (diff == 0) == (forall|j: int| 0 <= j < i ==> a@[j] == b@[j]),
        decreases a.len() - i,
    {
        let x = a[i];
        let y = b[i];
        proof {
            lemma_or_xor_zero(diff, x, y);
        }
        diff = diff | (x ^ y);
        i += 1;
    }
    if diff == 0 {
        assert(a@ =~= b@);
    }
    diff == 0
}


/// The value of an ASCII hexadecimal digit, in either case.
pub open spec fn hex_digit_value(b: u8) -> Option<u8> {
    if 48 <= b <= 57 {
        Some((b - 48) as u8)
    } else if 97 <= b <= 102 {
        Some((b - 87) as u8)
    } else if 65 <= b <= 70 {
        Some((b - 55) as u8)
    } else {
        None
    }
}

/// The byte that the two-character text `h1 h2` denotes in base 16, as
/// `u8::from_str_radix` reads it: two hexadecimal digits, or a `+` sign
/// followed by one.
pub open spec fn hex_pair_value(h1: u8, h2: u8) -> Option<u8> {
    if h1 == 43 {
        hex_digit_value(h2)
    } else {
        match (hex_digit_value(h1), hex_digit_value(h2)) {
            (Some(d1), Some(d2)) => Some((d1 * 16 + d2) as u8),
            _ => None,
        }
    }
}

/// Percent-decoding of a query value: `%XX` with a valid base-16 pair
/// becomes that byte, `+` becomes a space, and every other byte (a `%`
/// without a valid pair among them) is kept.
pub open spec fn url_decoded(b: Seq<u8>) -> Seq<u8>
    decreases b.len(),
{
    if b.len() == 0 {
        seq![]
    } else if b[0] == 37 && b.len() >= 3 && hex_pair_value(b[1], b[2]) is Some {
        seq![hex_pair_value(b[1], b[2])->0] + url_decoded(b.skip(3))
    } else if b[0] == 43 {
        seq![32u8] + url_decoded(b.skip(1))
    } else {
        seq![b[0]] + url_decoded(b.skip(1))
    }
}

fn hex_digit(b: u8) -> (res: Option<u8>)
    ensures
        res == hex_digit_value(b),
{
    if 48 <= b && b <= 57 {
        Some(b - 48)
    } else if 97 <= b && b <= 102 {
        Some(b - 87)
    } else if 65 <= b && b <= 70 {
        Some(b - 55)
    } else {
        None
    }
}

fn hex_pair(h1: u8, h2: u8) -> (res: Option<u8>)
    ensures
        res == hex_pair_value(h1, h2),
{
    if h1 == 43 {
        hex_digit(h2)
    } else {
        match (hex_digit(h1), hex_digit(h2)) {
            (Some(d1), Some(d2)) => Some(d1 * 16 + d2),
            _ => None,
        }
    }
}

/// Percent-decodes a byte string (see `url_decoded`).
pub fn url_decode_bytes(b: &[u8]) -> (out: Vec<u8>)
    ensures
        out@ == url_decoded(b@),
{
    let mut out: Vec<u8> = Vec::new();
    let mut i: usize = 0;
    let n = b.len();
    assert(b@.skip(0) == b@);
    while i < n
        invariant
            n == b@.len(),
            i <= n,
            url_decoded(b@) == out@ + url_decoded(b@.skip(i as int)),
        decreases n - i,
    {
        let ghost rest = b@.skip(i as int);
        let c = b[i];
        if c == 37 && n - i > 2 {
            match hex_pair(b[i + 1], b[i + 2]) {
                Some(v) => {
                    assert(rest.skip(3) == b@.skip(i + 3));
                    out.push(v);
                    i += 3;
                    continue;
                },
                None => {},
            }
        }
        assert(rest.skip(1) == b@.skip(i + 1));
        if c == 43 {
            out.push(32);
        } else {
            out.push(c);
        }
        i += 1;
    }
    assert(b@.skip(n as int).len() == 0);
    assert(out@ + url_decoded(b@.skip(n as int)) == out@);
    out
}

/// Decodes a percent-encoded query value into text; byte sequences that
/// are not UTF-8 after decoding become U+FFFD.
pub fn urlencoded_decode(s: &str) -> (res: String)
    ensures
        res@ == bytes_as_text(url_decoded(s.spec_bytes())),
        res@ == utf8_lossy_text(url_decoded(s.spec_bytes())),
{
    let out = url_decode_bytes(s.as_bytes());
    lossy_string(out.as_slice())
}


/// The bytes of `token=`.
pub open spec fn token_key() -> Seq<u8> {
    seq![116u8, 111, 107, 101, 110, 61]
}

/// Where the `&`-separated segment of `q` that starts at `i` ends: the
/// position of the next `&`, or the end of `q`.
pub open spec fn segment_end(q: Seq<u8>, i: int) -> int
    decreases q.len() - i,
{
    if i >= q.len() {
        q.len() as int
    } else if q[i] == 38 {
        i
    } else {
        segment_end(q, i + 1)
    }
}

pub proof fn lemma_segment_end(q: Seq<u8>, i: int)
    requires
        0 <= i <= q.len(),
    ensures
        i <= segment_end(q, i) <= q.len(),
        forall|j: int| i <= j < segment_end(q, i) ==> q[j] != 38,
        segment_end(q, i) < q.len() ==> q[segment_end(q, i)] == 38,
    decreases q.len() - i,
{
    if i < q.len() && q[i] != 38 {
        lemma_segment_end(q, i + 1);
    }
}

/// The raw value of the first `&`-separated segment of `q`, from position
/// `i` on, that begins with `token=`.
pub open spec fn token_from(q: Seq<u8>, i: nat) -> Option<Seq<u8>>
    decreases q.len() - i,
{
    if i > q.len() {
        None
    } else {
        let e = segment_end(q, i as int);
        if e - i >= 6 && q.subrange(i as int, i as int + 6) == token_key() {
            Some(q.subrange(i as int + 6, e))
        } else if e >= q.len() {
            None
        } else {
            proof {
                lemma_segment_end(q, i as int);
            }
            token_from(q, (e + 1) as nat)
        }
    }
}

/// The raw (still percent-encoded) `token` value of a query string: that
/// of the first `&`-separated segment that begins with `token=`.
pub open spec fn query_token(q: Seq<u8>) -> Option<Seq<u8>> {
    token_from(q, 0)
}

fn find_segment_end(b: &[u8], i: usize) -> (e: usize)
    requires
        i <= b@.len(),
    ensures
        e == segment_end(b@, i as int),
{
    proof {
        lemma_segment_end(b@, i as int);
    }
    let mut j = i;
    while j < b.len() && b[j] != 38
        invariant
            i <= j <= b@.len(),
            segment_end(b@, i as int) == segment_end(b@, j as int),
        decreases b@.len() - j,
    {
        j += 1;
    }
    j
}

fn has_token_key(b: &[u8], i: usize, e: usize) -> (res: bool)
    requires
        i <= e <= b@.len(),
    ensures
        res == (e - i >= 6 && b@.subrange(i as int, i + 6) == token_key()),
{
    if e - i < 6 {
        return false;
    }
    let ok = b[i] == 116 && b[i + 1] == 111 && b[i + 2] == 107 && b[i + 3] == 101 && b[i + 4]
        == 110 && b[i + 5] == 61;
    if ok {
        assert(b@.subrange(i as int, i + 6) =~= token_key());
    } else {
        assert(b@.subrange(i as int, i + 6) != token_key()) by {
            let s = b@.subrange(i as int, i + 6);
            if s == token_key() {
                assert(s[0] == 116 && s[1] == 111 && s[2] == 107);
                assert(s[3] == 101 && s[4] == 110 && s[5] == 61);
            }
        }
    }
    ok
}

/// The decoded `token` value of a query string: the first
/// `&`-separated segment that begins with `token=`, percent-decoded.
pub fn extract_token_from_query(q: &str) -> (res: Option<String>)
    ensures
        match query_token(q.spec_bytes()) {
            None => res is None,
            Some(v) => res matches Some(t) && t@ == bytes_as_text(url_decoded(v)) && t@
                == utf8_lossy_text(url_decoded(v)),
        },
{
    let b = q.as_bytes();
    let n = b.len();
    let mut i: usize = 0;
    loop
        invariant
            n == b@.len(),
            b@ == q.spec_bytes(),
            i <= n,
            token_from(b@, 0) == token_from(b@, i as nat),
        decreases n - i,
    {
        let e = find_segment_end(b, i);
        proof {
            lemma_segment_end(b@, i as int);
        }
        if has_token_key(b, i, e) {
            let value = slice_subrange(b, i + 6, e);
            let decoded = url_decode_bytes(value);
            return Some(lossy_string(decoded.as_slice()));
        }
        if e >= n {
            return None;
        }
        i = e + 1;
    }
}

/// A header byte that `HeaderValue::to_str` accepts: visible ASCII or tab.
pub open spec fn visible_ascii(b: u8) -> bool {
    (32 <= b && b < 127) || b == 9
}

/// The text of a header value, when every byte of it is visible ASCII or
/// a tab (the condition under which a header value reads as text).
pub open spec fn header_text_of(b: Seq<u8>) -> Option<Seq<char>> {
    if forall|i: int| 0 <= i < b.len() ==> visible_ascii(#[trigger] b[i]) {
        Some(ascii_text(b))
    } else {
        None
    }
}

/// Reads a header value as text: `None` unless every byte is visible ASCII
/// or a tab.
pub fn header_text(b: &[u8]) -> (res: Option<String>)
    ensures
        match header_text_of(b@) {
            None => res is None,
            Some(t) => res matches Some(s) && s@ == t,
        },
{
    let mut i: usize = 0;
    while i < b.len()
        invariant
            i <= b@.len(),
            forall|j: int| 0 <= j < i ==> visible_ascii(#[trigger] b@[j]),
        decreases b@.len() - i,
    {
        let c = b[i];
        if !((32 <= c && c < 127) || c == 9) {
            assert(!visible_ascii(b@[i as int]));
            return None;
        }
        i += 1;
    }
    let v = slice_to_vec(b);
    assert(all_ascii(v@));
    Some(ascii_string(v))
}

/// The paths that stay reachable without a token.
pub open spec fn is_public_path(path: Seq<char>) -> bool {
    path == "/"@ || path == "/health"@ || path == "/favicon.svg"@
}

/// The token a request supplies: the `x-api-token` header when it reads as
/// text, otherwise the decoded `token` value of the query string.
pub open spec fn supplied_token(header: Option<Seq<u8>>, query: Option<Seq<u8>>) -> Option<
    Seq<char>,
> {
    let from_header = match header {
        Some(h) => header_text_of(h),
        None => None,
    };
    match from_header {
        Some(t) => Some(t),
        None => match query {
            Some(q) => match query_token(q) {
                Some(v) => Some(bytes_as_text(url_decoded(v))),
                None => None,
            },
            None => None,
        },
    }
}

/// Whether the token gate lets a request through: public paths always,
/// every path when no token is configured, and otherwise exactly the
/// requests that supply the configured token.
pub open spec fn gate_admits(
    path: Seq<char>,
    expected: Option<Seq<char>>,
    header: Option<Seq<u8>>,
    query: Option<Seq<u8>>,
) -> bool {
    ||| is_public_path(path)
    ||| expected is None
    ||| supplied_token(header, query) == Some(expected->0)
}

/// The token gate's decision for a request with the given path, the
/// configured token, the raw `x-api-token` header value and the query string.
pub fn token_gate_admits(
    path: &str,
    expected: Option<&str>,
    header: Option<&[u8]>,
    query: Option<&str>,
) -> (res: bool)
    ensures
        res == gate_admits(
            path@,
            match expected {
                Some(e) => Some(e@),
                None => None,
            },
            match header {
                Some(h) => Some(h@),
                None => None,
            },
            match query {
                Some(q) => Some(q.spec_bytes()),
                None => None,
            },
        ),
{
    if str_equal(path, "/") || str_equal(path, "/health") || str_equal(path, "/favicon.svg") {
        return true;
    }
    let expected = match expected {
        Some(e) => e,
        None => return true,
    };
    let from_header = match header {
        Some(h) => header_text(h),
        None => None,
    };
    let supplied = match from_header {
        Some(t) => Some(t),
        None => match query {
            Some(q) => extract_token_from_query(q),
            None => None,
        },
    };
    match supplied {
        Some(t) => {
            let ts: &str = t.as_str();
            proof {
                lemma_spec_bytes_injective(ts, expected);
            }
            constant_time_eq(ts.as_bytes(), expected.as_bytes())
        },
        None => false,
    }
}


/// Text with no `%` and no `+` is left as it is by percent-decoding.
pub proof fn law_url_decoding_keeps_plain_text(b: Seq<u8>)
    requires
        forall|i: int| 0 <= i < b.len() ==> #[trigger] b[i] != 37 && b[i] != 43,
    ensures
        url_decoded(b) == b,
    decreases b.len(),
{
    if b.len() > 0 {
        let rest = b.skip(1);
        assert forall|i: int| 0 <= i < rest.len() implies #[trigger] rest[i] != 37 && rest[i]
            != 43 by {
            assert(rest[i] == b[i + 1]);
        }
        law_url_decoding_keeps_plain_text(rest);
        assert(b == seq![b[0]] + rest);
    }
}

/// A query string `token=T`, where `T` holds no `&`, is read as carrying
/// the raw token `T`.
pub proof fn law_query_token_value(t: Seq<u8>)
    requires
        forall|i: int| 0 <= i < t.len() ==> #[trigger] t[i] != 38,
    ensures
        query_token(token_key() + t) == Some(t),
{
    let q = token_key() + t;
    assert forall|j: int| 0 <= j < q.len() implies q[j] != 38 by {
        if j >= 6 {
            assert(q[j] == t[j - 6]);
        }
    }
    lemma_segment_end_none(q, 0);
    assert(q.subrange(0, 6) == token_key());
    assert(q.subrange(6, q.len() as int) == t);
}

proof fn lemma_segment_end_none(q: Seq<u8>, i: int)
    requires
        0 <= i <= q.len(),
        forall|j: int| 0 <= j < q.len() ==> q[j] != 38,
    ensures
        segment_end(q, i) == q.len(),
    decreases q.len() - i,
{
    if i < q.len() {
        lemma_segment_end_none(q, i + 1);
    }
}


/// A request whose `x-api-token` header reads as the configured token is
/// admitted, whatever its path and query.
pub proof fn law_matching_header_token_admits(
    path: Seq<char>,
    expected: Seq<char>,
    header: Seq<u8>,
    query: Option<Seq<u8>>,
)
    requires
        header_text_of(header) == Some(expected),
    ensures
        gate_admits(path, Some(expected), Some(header), query),
{
}

/// With a token configured, a request that supplies no token at all is
/// admitted only on the public paths.
pub proof fn law_no_token_admits_only_public_paths(path: Seq<char>, expected: Seq<char>)
    ensures
        gate_admits(path, Some(expected), None, None) == is_public_path(path),
{
}

/// A header that reads as text decides alone: a wrong header token is not
/// rescued by the right token in the query string.
pub proof fn law_header_token_decides(
    path: Seq<char>,
    expected: Seq<char>,
    header: Seq<u8>,
    query: Option<Seq<u8>>,
)
    requires
        header_text_of(header) is Some,
    ensures
        gate_admits(path, Some(expected), Some(header), query) == (is_public_path(path)
            || header_text_of(header) == Some(expected)),
{
}

/// A request whose query carries the configured token, percent-encoded
/// or not, is admitted when no header token stands in the way.
pub proof fn law_matching_query_token_admits(
    path: Seq<char>,
    expected: Seq<char>,
    query: Seq<u8>,
    raw: Seq<u8>,
)
    requires
        query_token(query) == Some(raw),
        valid_utf8(url_decoded(raw)),
        decode_utf8(url_decoded(raw)) == expected,
    ensures
        gate_admits(path, Some(expected), None, Some(query)),
{
}

/// `?token=T`, for a token `T` whose text holds no `&`, `%` or `+`, admits
/// the request when `T` is the configured token.
pub proof fn law_plain_query_token_admits(path: Seq<char>, expected: Seq<char>)
    requires
        forall|i: int|
            0 <= i < encode_utf8(expected).len() ==> #[trigger] encode_utf8(expected)[i] != 38
                && encode_utf8(expected)[i] != 37 && encode_utf8(expected)[i] != 43,
    ensures
        gate_admits(path, Some(expected), None, Some(token_key() + encode_utf8(expected))),
{
    let t = encode_utf8(expected);
    law_query_token_value(t);
    law_url_decoding_keeps_plain_text(t);
    vstd::utf8::encode_utf8_valid_utf8(expected);
    vstd::utf8::encode_utf8_decode_utf8(expected);
    law_matching_query_token_admits(path, expected, token_key() + t, t);
}

/// The uppercase ASCII hexadecimal digit of a value below 16.
pub open spec fn upper_hex_digit(d: nat) -> u8 {
    if d < 10 {
        (48 + d) as u8
    } else {
        (55 + d) as u8
    }
}

/// Every byte written as `%XX`, with `XX` its two uppercase hexadecimal digits.
pub open spec fn percent_encoded(t: Seq<u8>) -> Seq<u8>
    decreases t.len(),
{
    if t.len() == 0 {
        seq![]
    } else {
        seq![37u8, upper_hex_digit(t[0] as nat / 16), upper_hex_digit(t[0] as nat % 16)]
            + percent_encoded(t.skip(1))
    }
}

/// `%XX` decodes to the byte whose hexadecimal value is `XX`, whatever byte
/// that is (`%2B` to `+`, `%20` to a space, `%25` to `%`).
pub proof fn law_percent_triple_decodes_to_its_byte(v: u8, rest: Seq<u8>)
    ensures
        url_decoded(
            seq![37u8, upper_hex_digit(v as nat / 16), upper_hex_digit(v as nat % 16)] + rest,
        ) == seq![v] + url_decoded(rest),
{
    let b = seq![37u8, upper_hex_digit(v as nat / 16), upper_hex_digit(v as nat % 16)] + rest;
    assert(b[0] == 37 && b[1] == upper_hex_digit(v as nat / 16) && b[2] == upper_hex_digit(
        v as nat % 16,
    ));
    assert(hex_digit_value(upper_hex_digit(v as nat / 16)) == Some((v / 16) as u8));
    assert(hex_digit_value(upper_hex_digit(v as nat % 16)) == Some((v % 16) as u8));
    assert(b[1] != 43);
    assert(hex_pair_value(b[1], b[2]) == Some(v));
    assert(b.skip(3) == rest);
}

/// Percent-decoding undoes percent-encoding: any byte string, every byte
/// written as `%XX`, decodes back to itself.
pub proof fn law_percent_decoding_inverts_encoding(t: Seq<u8>)
    ensures
        url_decoded(percent_encoded(t)) == t,
    decreases t.len(),
{
    if t.len() > 0 {
        let v = t[0];
        law_percent_decoding_inverts_encoding(t.skip(1));
        law_percent_triple_decodes_to_its_byte(v, percent_encoded(t.skip(1)));
        assert(t == seq![v] + t.skip(1));
    }
}

proof fn lemma_percent_encoded_has_no_amp(t: Seq<u8>)
    ensures
        forall|i: int| 0 <= i < percent_encoded(t).len() ==> #[trigger] percent_encoded(t)[i]
            != 38,
    decreases t.len(),
{
    if t.len() > 0 {
        lemma_percent_encoded_has_no_amp(t.skip(1));
        let head = seq![
            37u8,
            upper_hex_digit(t[0] as nat / 16),
            upper_hex_digit(t[0] as nat % 16),
        ];
        assert forall|i: int| 0 <= i < percent_encoded(t).len() implies #[trigger] percent_encoded(
            t,
        )[i] != 38 by {
            if i >= 3 {
                assert(percent_encoded(t)[i] == percent_encoded(t.skip(1))[i - 3]);
            }
        }
    }
}

/// `?token=` followed by the percent-encoding of the configured token
/// admits the request, whatever characters the token holds.
pub proof fn law_percent_encoded_query_token_admits(path: Seq<char>, expected: Seq<char>)
    ensures
        gate_admits(
            path,
            Some(expected),
            None,
            Some(token_key() + percent_encoded(encode_utf8(expected))),
        ),
{
    let t = encode_utf8(expected);
    lemma_percent_encoded_has_no_amp(t);
    law_query_token_value(percent_encoded(t));
    law_percent_decoding_inverts_encoding(t);
    vstd::utf8::encode_utf8_valid_utf8(expected);
    vstd::utf8::encode_utf8_decode_utf8(expected);
    law_matching_query_token_admits(path, expected, token_key() + percent_encoded(t), percent_encoded(t));
}

/// A header value made only of bytes from space to `~`, or tabs, reads as
/// exactly its text; a header with any other byte does not read as text.
pub proof fn law_printable_header_reads_as_its_text(b: Seq<u8>)
    ensures
        (forall|i: int| 0 <= i < b.len() ==> (32 <= #[trigger] b[i] && b[i] <= 126) || b[i] == 9)
            ==> header_text_of(b) == Some(ascii_text(b)),
        (exists|i: int| 0 <= i < b.len() && !((32 <= #[trigger] b[i] && b[i] <= 126) || b[i] == 9))
            ==> header_text_of(b) is None,
{
}

/// A request whose `x-api-token` header holds the configured token is
/// admitted, for every token made of printable ASCII characters.
pub proof fn law_printable_header_token_admits(path: Seq<char>, token: Seq<u8>, query: Option<Seq<u8>>)
    requires
        forall|i: int| 0 <= i < token.len() ==> 32 <= #[trigger] token[i] && token[i] <= 126,
    ensures
        gate_admits(path, Some(ascii_text(token)), Some(token), query),
{
    law_printable_header_reads_as_its_text(token);
}

} // verus!
