//! Decoding of the path segment of `/svg/{encoded}` into a Mermaid source.
//!
//! Two formats are accepted, matching the kroki / mermaid.ink convention:
//!
//! - Plain: `base64url(source)`, with or without `=` padding.
//! - Compressed: `pako:` + `base64url(zlib_deflate(json))`, where the JSON is
//!   `{"code": "...", "mermaid": {"theme": "..."}}`.
//!
//! Decoding runs in two steps. `decode_request` strips the prefix, decodes
//! the base64url text, inflates a `pako:` payload and checks UTF-8; a
//! plain source is then complete, while a `pako:` payload comes back as
//! JSON text. The caller reads that JSON into a `PakoPayload` and hands the
//! result to `finish_pako`.

use base64::engine::general_purpose::URL_SAFE_NO_PAD;
use base64::Engine;
use vstd::prelude::*;
use vstd::slice::slice_subrange;
use vstd::string::StringSliceAdditionalSpecFns;
use vstd::utf8::{decode_utf8, valid_utf8};

use crate::text::utf8_string;

verus! {

/// A decoded render request: the Mermaid source and the theme it asks for.
#[derive(Debug, PartialEq, Eq)]
pub struct DecodedRequest {
    pub source: String,
    pub theme: Option<String>,
}

/// Why a base64url text was refused (the cases of `base64::DecodeError`).
#[derive(Debug, Clone, Copy, PartialEq, Eq)]
pub enum Base64Error {
    /// A byte outside the alphabet, with its offset and value.
    InvalidByte(usize, u8),
    /// The number of symbols cannot encode whole bytes.
    InvalidLength(usize),
    /// The last symbol carries bits that would be dropped.
    InvalidLastSymbol(usize, u8),
    /// Padding where none may stand.
    InvalidPadding,
}

/// Why an encoded request could not be decoded.
#[derive(Debug)]
pub enum DecodeError {
    /// The text is not base64url.
    Base64(Base64Error),
    /// The `pako:` payload is not a zlib stream; the text describes the failure.
    Inflate(String),
    /// The decoded bytes are not UTF-8.
    Utf8,
    /// The `pako:` payload is not the expected JSON; the text describes why.
    Json(String),
    /// The encoded text is empty.
    Empty,
}

/// The JSON object carried by a `pako:` payload.
#[derive(Debug, PartialEq, Eq)]
pub struct PakoPayload {
    pub code: String,
    pub mermaid: Option<MermaidConfig>,
}

/// The `mermaid` member of a `pako:` payload.
#[derive(Debug, PartialEq, Eq)]
pub struct MermaidConfig {
    pub theme: Option<String>,
}

/// The result of the first decoding step.
#[derive(Debug)]
pub enum Decoded {
    /// A plain request, fully decoded.
    Request(DecodedRequest),
    /// The JSON text of a `pako:` payload, still to be read.
    PakoJson(String),
}

/// The outcome of the first decoding step as plain values.
pub enum DecodeOutcome {
    /// A plain request: its source and its theme.
    Source(Seq<char>, Option<Seq<char>>),
    PakoJson(Seq<char>),
    Empty,
    Base64(Base64Error),
    Inflate(Seq<char>),
    Utf8,
    Json(Seq<char>),
}

/// The bytes of `pako:`.
pub open spec fn pako_prefix() -> Seq<u8> {
    seq![112u8, 97, 107, 111, 58]
}

/// Whether an encoded text starts with `pako:`.
pub open spec fn is_pako(e: Seq<u8>) -> bool {
    e.len() >= 5 && e.take(5) == pako_prefix()
}

/// The text with every trailing `=` removed.
pub open spec fn trim_padding(b: Seq<u8>) -> Seq<u8>
    decreases b.len(),
{
    if b.len() > 0 && b.last() == 61 {
        trim_padding(b.drop_last())
    } else {
        b
    }
}

/// What the `base64` crate's URL-safe, unpadded engine decodes a text to.
pub uninterp spec fn base64url_nopad(input: Seq<u8>) -> Result<Seq<u8>, Base64Error>;

/// What `miniz_oxide` inflates a zlib stream to; on failure the debug text
/// of its error.
pub uninterp spec fn zlib_inflated(data: Seq<u8>) -> Result<Seq<u8>, Seq<char>>;

/// Base64url decoding that accepts padded and unpadded text alike.
pub open spec fn b64_decoded(input: Seq<u8>) -> Result<Seq<u8>, Base64Error> {
    base64url_nopad(trim_padding(input))
}

/// The outcome of `decode_request` on the bytes of an encoded text.
pub open spec fn decode_outcome(e: Seq<u8>) -> DecodeOutcome {
    if e.len() == 0 {
        DecodeOutcome::Empty
    } else if is_pako(e) {
        match b64_decoded(e.skip(5)) {
            Err(x) => DecodeOutcome::Base64(x),
            Ok(compressed) => match zlib_inflated(compressed) {
                Err(m) => DecodeOutcome::Inflate(m),
                Ok(json) => if valid_utf8(json) {
                    DecodeOutcome::PakoJson(decode_utf8(json))
                } else {
                    DecodeOutcome::Utf8
                },
            },
        }
    } else {
        match b64_decoded(e) {
            Err(x) => DecodeOutcome::Base64(x),
            Ok(bytes) => if valid_utf8(bytes) {
                DecodeOutcome::Source(decode_utf8(bytes), None)
            } else {
                DecodeOutcome::Utf8
            },
        }
    }
}

/// The outcome that a result of `decode_request` stands for.
pub open spec fn outcome_of(r: Result<Decoded, DecodeError>) -> DecodeOutcome {
    match r {
        Ok(Decoded::Request(d)) => DecodeOutcome::Source(
            d.source@,
            match d.theme {
                Some(t) => Some(t@),
                None => None,
            },
        ),
        Ok(Decoded::PakoJson(j)) => DecodeOutcome::PakoJson(j@),
        Err(DecodeError::Empty) => DecodeOutcome::Empty,
        Err(DecodeError::Base64(x)) => DecodeOutcome::Base64(x),
        Err(DecodeError::Inflate(m)) => DecodeOutcome::Inflate(m@),
        Err(DecodeError::Utf8) => DecodeOutcome::Utf8,
        Err(DecodeError::Json(m)) => DecodeOutcome::Json(m@),
    }
}

/// Calls `URL_SAFE_NO_PAD.decode(input)` of the `base64` crate and carries
/// its error over case by case. The result is named by `base64url_nopad`;
/// nothing else about the decoding is stated.
#[verifier::external_body]
fn base64url_decode(input: &[u8]) -> (res: Result<Vec<u8>, Base64Error>)
    ensures
        match res {
            Ok(v) => base64url_nopad(input@) == Ok::<Seq<u8>, Base64Error>(v@),
            Err(x) => base64url_nopad(input@) == Err::<Seq<u8>, Base64Error>(x),
        },
{
    match URL_SAFE_NO_PAD.decode(input) {
        Ok(v) => Ok(v),
        Err(base64::DecodeError::InvalidByte(i, b)) => Err(Base64Error::InvalidByte(i, b)),
        Err(base64::DecodeError::InvalidLength(n)) => Err(Base64Error::InvalidLength(n)),
        Err(base64::DecodeError::InvalidLastSymbol(i, b)) => Err(
            Base64Error::InvalidLastSymbol(i, b),
        ),
        Err(base64::DecodeError::InvalidPadding) => Err(Base64Error::InvalidPadding),
    }
}

/// Calls `miniz_oxide::inflate::decompress_to_vec_zlib(data)`, keeping the
/// debug text of its error. The result is named by `zlib_inflated`; nothing
/// else about inflation is stated.
#[verifier::external_body]
fn zlib_inflate(data: &[u8]) -> (res: Result<Vec<u8>, String>)
    ensures
        match res {
            Ok(v) => zlib_inflated(data@) == Ok::<Seq<u8>, Seq<char>>(v@),
            Err(m) => zlib_inflated(data@) == Err::<Seq<u8>, Seq<char>>(m@),
        },
{
    miniz_oxide::inflate::decompress_to_vec_zlib(data).map_err(|e| format!("{e:?}"))
}

/// The length of `b` once every trailing `=` is removed.
fn padding_start(b: &[u8]) -> (k: usize)
    ensures
        k <= b@.len(),
        trim_padding(b@) == b@.take(k as int),
{
    let mut k = b.len();
    assert(b@.take(k as int) == b@);
    while k > 0 && b[k - 1] == 61
        invariant
            k <= b@.len(),
            trim_padding(b@) == trim_padding(b@.take(k as int)),
        decreases k,
    {
        assert(b@.take(k as int).drop_last() == b@.take(k - 1));
        k -= 1;
    }
    k
}

/// Base64url-decodes a text, padded or not.
pub fn b64_decode(input: &[u8]) -> (res: Result<Vec<u8>, DecodeError>)
    ensures
        match b64_decoded(input@) {
            Ok(v) => res matches Ok(r) && r@ == v,
            Err(x) => res matches Err(DecodeError::Base64(y)) && y == x,
        },
{
    let k = padding_start(input);
    let trimmed = slice_subrange(input, 0, k);
    assert(trimmed@ == input@.take(k as int));
    match base64url_decode(trimmed) {
        Ok(v) => Ok(v),
        Err(x) => Err(DecodeError::Base64(x)),
    }
}

fn has_pako_prefix(b: &[u8]) -> (res: bool)
    ensures
        res == is_pako(b@),
{
    if b.len() < 5 {
        return false;
    }
    let ok = b[0] == 112 && b[1] == 97 && b[2] == 107 && b[3] == 111 && b[4] == 58;
    if ok {
        assert(b@.take(5) =~= pako_prefix());
    } else {
        assert(b@.take(5) != pako_prefix()) by {
            let s = b@.take(5);
            if s == pako_prefix() {
                assert(s[0] == 112 && s[1] == 97 && s[2] == 107 && s[3] == 111 && s[4] == 58);
            }
        }
    }
    ok
}

/// The first decoding step of an encoded request: empty text is refused;
/// a `pako:` payload is base64url-decoded, inflated and checked to be UTF-8
/// JSON text; any other text is base64url-decoded into a UTF-8 source, which
/// carries no theme.
pub fn decode_request(encoded: &str) -> (res: Result<Decoded, DecodeError>)
    ensures
        outcome_of(res) == decode_outcome(encoded.spec_bytes()),
        ({
            let e = encoded.spec_bytes();
            (e.len() > 0 && !(e.len() >= 5 && e.take(5) == seq![112u8, 97, 107, 111, 58]))
                ==> match base64url_nopad(trim_padding(e)) {
                Ok(bytes) => valid_utf8(bytes) ==> (res matches Ok(Decoded::Request(d))
                    && d.source@ == decode_utf8(bytes) && d.theme is None),
                Err(_) => true,
            }
        }),
{
    let b = encoded.as_bytes();
    if b.len() == 0 {
        return Err(DecodeError::Empty);
    }
    if has_pako_prefix(b) {
        let rest = slice_subrange(b, 5, b.len());
        assert(rest@ == b@.skip(5));
        let compressed = match b64_decode(rest) {
            Ok(c) => c,
            Err(e) => return Err(e),
        };
        let inflated = match zlib_inflate(compressed.as_slice()) {
            Ok(v) => v,
            Err(m) => return Err(DecodeError::Inflate(m)),
        };
        match utf8_string(inflated) {
            Some(json) => Ok(Decoded::PakoJson(json)),
            None => Err(DecodeError::Utf8),
        }
    } else {
        let bytes = match b64_decode(b) {
            Ok(v) => v,
            Err(e) => return Err(e),
        };
        match utf8_string(bytes) {
            Some(source) => Ok(Decoded::Request(DecodedRequest { source, theme: None })),
            None => Err(DecodeError::Utf8),
        }
    }
}

/// The second decoding step of a `pako:` payload: the source is the
/// payload's `code`, the theme that of its `mermaid` member; JSON that could
/// not be read into a payload is refused with its error text.
pub fn finish_pako(parsed: Result<PakoPayload, String>) -> (res: Result<DecodedRequest, DecodeError>)
    ensures
        match parsed {
            Ok(p) => res matches Ok(d) && d.source == p.code && d.theme == match p.mermaid {
                Some(m) => m.theme,
                None => None,
            },
            Err(m) => res matches Err(DecodeError::Json(n)) && n == m,
        },
{
    match parsed {
        Ok(p) => {
            let theme = match p.mermaid {
                Some(m) => m.theme,
                None => None,
            };
            Ok(DecodedRequest { source: p.code, theme })
        },
        Err(m) => Err(DecodeError::Json(m)),
    }
}

/// Trailing `=` padding never changes what a non-empty encoded text
/// decodes to: padded and unpadded base64url are accepted alike.
pub proof fn law_padding_is_ignored(e: Seq<u8>)
    requires
        e.len() > 0,
    ensures
        decode_outcome(e.push(61)) == decode_outcome(e),
{
    let p = e.push(61);
    assert(p.drop_last() == e);
    assert(trim_padding(p) == trim_padding(e));
    if e.len() >= 5 {
        assert(p.take(5) == e.take(5));
        assert(p.skip(5).drop_last() == e.skip(5));
        assert(trim_padding(p.skip(5)) == trim_padding(e.skip(5)));
    } else {
        assert(!is_pako(e));
        if p.len() >= 5 {
            assert(p.take(5)[4] == 61);
            assert(pako_prefix()[4] == 58);
        }
        assert(!is_pako(p));
    }
}

/// A text that does not start with `pako:` and whose base64url decoding is
/// well-formed UTF-8 decodes to that text as its source, with no theme:
/// every well-formed UTF-8 source is accepted, whatever characters it holds.
pub proof fn law_plain_utf8_source_is_accepted(e: Seq<u8>, bytes: Seq<u8>)
    requires
        e.len() > 0,
        !(e.len() >= 5 && e.take(5) == seq![112u8, 97, 107, 111, 58]),
        base64url_nopad(trim_padding(e)) == Ok::<Seq<u8>, Base64Error>(bytes),
        valid_utf8(bytes),
    ensures
        decode_outcome(e) == DecodeOutcome::Source(decode_utf8(bytes), None),
{
}

/// A `pako:` text whose payload inflates to well-formed UTF-8 comes back as
/// that text, to be read as JSON.
pub proof fn law_pako_utf8_json_is_accepted(e: Seq<u8>, compressed: Seq<u8>, json: Seq<u8>)
    requires
        e.len() >= 5 && e.take(5) == seq![112u8, 97, 107, 111, 58],
        base64url_nopad(trim_padding(e.skip(5))) == Ok::<Seq<u8>, Base64Error>(compressed),
        zlib_inflated(compressed) == Ok::<Seq<u8>, Seq<char>>(json),
        valid_utf8(json),
    ensures
        decode_outcome(e) == DecodeOutcome::PakoJson(decode_utf8(json)),
{
}

/// `Utf8` is reported only when the bytes that came out of base64url (and,
/// for `pako:`, out of zlib) are not well-formed UTF-8.
pub proof fn law_utf8_error_only_for_malformed_bytes(e: Seq<u8>)
    requires
        decode_outcome(e) == DecodeOutcome::Utf8,
    ensures
        (e.len() >= 5 && e.take(5) == seq![112u8, 97, 107, 111, 58]) ==> (base64url_nopad(
            trim_padding(e.skip(5)),
        ) matches Ok(c) && zlib_inflated(c) matches Ok(j) && !valid_utf8(j)),
        !(e.len() >= 5 && e.take(5) == seq![112u8, 97, 107, 111, 58]) ==> (base64url_nopad(
            trim_padding(e),
        ) matches Ok(b) && !valid_utf8(b)),
{
}

} // verus!
