//! Byte-level text helpers shared by the request decoders: UTF-8
//! conversions, ASCII text, string comparison and decimal numerals.

use vstd::prelude::*;
use vstd::utf8::*;
use vstd::string::StringSliceAdditionalSpecFns;

verus! {

broadcast use vstd::utf8::group_utf8_lib;

/// The characters of a byte string read one byte per character.
pub open spec fn ascii_text(b: Seq<u8>) -> Seq<char> {
    Seq::new(b.len(), |i: int| b[i] as char)
}

/// Every byte is below 0x80.
pub open spec fn all_ascii(b: Seq<u8>) -> bool {
    forall|i: int| 0 <= i < b.len() ==> #[trigger] b[i] < 128
}

/// A byte string made of ASCII bytes is valid UTF-8 and decodes byte by byte.
pub proof fn lemma_ascii_bytes_utf8(b: Seq<u8>)
    requires
        all_ascii(b),
    ensures
        valid_utf8(b),
        decode_utf8(b) == ascii_text(b),
        encode_utf8(ascii_text(b)) == b,
{
    let chars = ascii_text(b);
    assert(is_ascii_chars(chars)) by {
        assert forall|i: int| 0 <= i < chars.len() implies '\0' <= #[trigger] chars[i] <= '\u{7f}' by {
            assert(b[i] < 128);
        }
    }
    is_ascii_chars_encode_utf8(chars);
    assert forall|i: int| 0 <= i < b.len() implies encode_utf8(chars)[i] == b[i] by {
        assert(chars[i] as u8 == encode_utf8(chars)[i]);
        let x = b[i];
        assert(((x as char) as u8) == x);
    }
    assert(encode_utf8(chars) =~= b);
    encode_utf8_valid_utf8(chars);
    encode_utf8_decode_utf8(chars);
}

/// What `String::from_utf8_lossy` makes of a byte string: invalid
/// sequences replaced by U+FFFD.
pub uninterp spec fn utf8_lossy_text(bytes: Seq<u8>) -> Seq<char>;

/// The text a byte string stands for: its UTF-8 decoding when it is
/// well-formed, otherwise what `String::from_utf8_lossy` makes of it.
pub open spec fn bytes_as_text(b: Seq<u8>) -> Seq<char> {
    if valid_utf8(b) {
        decode_utf8(b)
    } else {
        utf8_lossy_text(b)
    }
}

/// Calls `String::from_utf8(bytes)`. The standard library documents that it
/// succeeds exactly when `bytes` is well-formed UTF-8, and then holds the
/// characters that the bytes encode.
#[verifier::external_body]
pub(crate) fn utf8_string(bytes: Vec<u8>) -> (res: Option<String>)
    ensures
        res.is_some() == valid_utf8(bytes@),
        res matches Some(s) ==> s@ == decode_utf8(bytes@),
{
    String::from_utf8(bytes).ok()
}

/// Calls `String::from_utf8_lossy(bytes).into_owned()`. Its result is named
/// by `utf8_lossy_text`; the standard library documents that well-formed
/// UTF-8 comes out unchanged, which the second clause states. How invalid
/// sequences are replaced is left unsaid.
#[verifier::external_body]
pub(crate) fn lossy_string(bytes: &[u8]) -> (res: String)
    ensures
        res@ == utf8_lossy_text(bytes@),
        valid_utf8(bytes@) ==> res@ == decode_utf8(bytes@),
{
    String::from_utf8_lossy(bytes).into_owned()
}

/// Turns a byte string of ASCII bytes into the `String` of the same characters.
pub fn ascii_string(bytes: Vec<u8>) -> (res: String)
    requires
        all_ascii(bytes@),
    ensures
        res@ == ascii_text(bytes@),
        res@.len() == bytes@.len(),
{
    proof {
        lemma_ascii_bytes_utf8(bytes@);
    }
    match utf8_string(bytes) {
        Some(s) => s,
        None => {
            assert(false);
            String::new()
        },
    }
}

/// Two strings are equal exactly when their UTF-8 encodings are.
pub proof fn lemma_spec_bytes_injective(a: &str, b: &str)
    ensures
        (a.spec_bytes() == b.spec_bytes()) == (a@ == b@),
{
    if a.spec_bytes() == b.spec_bytes() {
        encode_utf8_decode_utf8(a@);
        encode_utf8_decode_utf8(b@);
    }
}

/// Byte-wise equality of two byte strings.
pub fn bytes_equal(a: &[u8], b: &[u8]) -> (res: bool)
    ensures
        res == (a@ == b@),
{
    if a.len() != b.len() {
        return false;
    }
    let mut i: usize = 0;
    while i < a.len()
        invariant
            a.len() == b.len(),
            i <= a.len(),
            forall|j: int| 0 <= j < i ==> a@[j] == b@[j],
        decreases a.len() - i,
    {
        if a[i] != b[i] {
            return false;
        }
        i += 1;
    }
    assert(a@ =~= b@);
    true
}

/// String equality.
pub fn str_equal(a: &str, b: &str) -> (res: bool)
    ensures
        res == (a@ == b@),
{
    proof {
        lemma_spec_bytes_injective(a, b);
    }
    bytes_equal(a.as_bytes(), b.as_bytes())
}

/// The decimal numeral of `n`, as ASCII bytes, most significant digit first.
pub open spec fn decimal_digits(n: nat) -> Seq<u8>
    decreases n,
{
    if n < 10 {
        seq![(48 + n) as u8]
    } else {
        decimal_digits(n / 10).push((48 + n % 10) as u8)
    }
}

/// The decimal numeral of `n`.
pub open spec fn decimal_text(n: nat) -> Seq<char> {
    ascii_text(decimal_digits(n))
}

proof fn lemma_decimal_digits_ascii(n: nat)
    ensures
        all_ascii(decimal_digits(n)),
    decreases n,
{
    if n >= 10 {
        lemma_decimal_digits_ascii(n / 10);
    }
}

fn decimal_bytes(n: u64) -> (out: Vec<u8>)
    ensures
        out@ == decimal_digits(n as nat),
    decreases n,
{
    if n < 10 {
        let mut out: Vec<u8> = Vec::new();
        out.push(48 + n as u8);
        out
    } else {
        let mut out = decimal_bytes(n / 10);
        out.push(48 + (n % 10) as u8);
        out
    }
}

/// The decimal numeral of `n` as a `String`.
pub fn decimal_string(n: u64) -> (res: String)
    ensures
        res@ == decimal_text(n as nat),
{
    let digits = decimal_bytes(n);
    proof {
        lemma_decimal_digits_ascii(n as nat);
    }
    ascii_string(digits)
}

} // verus!
