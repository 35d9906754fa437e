//! The calls into outside crates: Base64 (URL-safe alphabet, no padding),
//! SHA-256 and the length check of the form validator.
use sha2::Digest;
use vstd::prelude::*;

verus! {

/// What `base64::decode_config(input, base64::URL_SAFE_NO_PAD)` answers for the UTF-8
/// text `input`: the decoded bytes, or the `Display` text of the `DecodeError`.
pub uninterp spec fn base64_url_decode(input: Seq<char>) -> Result<Seq<u8>, Seq<char>>;

/// The character of a 6-bit value in the URL-safe Base64 alphabet (RFC 4648, section 5):
/// `A`-`Z`, `a`-`z`, `0`-`9`, `-`, `_`.
pub open spec fn url_safe_char(v: int) -> char {
    if v < 26 {
        ('A' as int + v) as char
    } else if v < 52 {
        ('a' as int + (v - 26)) as char
    } else if v < 62 {
        ('0' as int + (v - 52)) as char
    } else if v == 62 {
        '-'
    } else {
        '_'
    }
}

/// URL-safe Base64 without padding, as `base64::encode_config(data, base64::URL_SAFE_NO_PAD)`
/// writes it: each group of three bytes becomes four characters of six bits each, high
/// bits first; a last group of one byte becomes two characters and one of two bytes
/// three, the missing low bits zero, and no `=` follows.
pub open spec fn base64_url_encode(data: Seq<u8>) -> Seq<char>
    decreases data.len(),
{
    if data.len() == 0 {
        seq![]
    } else if data.len() == 1 {
        let a = data[0] as int;
        seq![url_safe_char(a / 4), url_safe_char((a % 4) * 16)]
    } else if data.len() == 2 {
        let a = data[0] as int;
        let b = data[1] as int;
        seq![url_safe_char(a / 4), url_safe_char((a % 4) * 16 + b / 16), url_safe_char((b % 16) * 4)]
    } else {
        let a = data[0] as int;
        let b = data[1] as int;
        let c = data[2] as int;
        seq![
            url_safe_char(a / 4),
            url_safe_char((a % 4) * 16 + b / 16),
            url_safe_char((b % 16) * 4 + c / 64),
            url_safe_char(c % 64),
        ] + base64_url_encode(data.subrange(3, data.len() as int))
    }
}

/// The SHA-256 digest of `data`, as `sha2::Sha256::digest` computes it.
pub uninterp spec fn sha256_digest(data: Seq<u8>) -> Seq<u8>;

/// The length in bytes of the UTF-8 encoding of `text`.
pub open spec fn utf8_len(text: Seq<char>) -> int {
    vstd::utf8::encode_utf8(text).len() as int
}

/// A decoding result taken by its view.
pub open spec fn decoded_view(r: Result<Vec<u8>, String>) -> Result<Seq<u8>, Seq<char>> {
    match r {
        Ok(bytes) => Ok(bytes@),
        Err(message) => Err(message@),
    }
}

/// Calls `base64::decode_config` with the URL-safe alphabet and no padding
/// (`base64::URL_SAFE_NO_PAD`), and turns a `DecodeError` into its `Display` text.
/// The contract claims that the answer is [`base64_url_decode`] of the input; nothing
/// is said of which inputs decode. The crate sizes its output buffer from the input's
/// length and panics where that size overflows or exceeds `isize::MAX` bytes; the
/// `requires` keeps the input within the length that any text has.
#[verifier::external_body]
pub(crate) fn decode_url_safe(input: &str) -> (r: Result<Vec<u8>, String>)
    requires
        utf8_len(input@) <= isize::MAX,
    ensures
        decoded_view(r) == base64_url_decode(input@),
{
    match base64::decode_config(input, base64::URL_SAFE_NO_PAD) {
        Ok(bytes) => Ok(bytes),
        Err(e) => Err(e.to_string()),
    }
}

/// Calls `base64::encode_config` with `base64::URL_SAFE_NO_PAD`. The contract claims
/// that the answer is the unpadded URL-safe Base64 text [`base64_url_encode`] of the bytes. The crate panics when the
/// size of the output overflows a `usize`, which the `requires` leaves out.
#[verifier::external_body]
pub(crate) fn encode_url_safe(data: &[u8]) -> (r: String)
    requires
        data@.len() <= usize::MAX / 2,
    ensures
        r@ == base64_url_encode(data@),
{
    base64::encode_config(data, base64::URL_SAFE_NO_PAD)
}

/// Calls `sha2::Sha256::digest` (through the `sha2::Digest` trait). The contract
/// claims that the answer is [`sha256_digest`] of the bytes and, as the output type
/// `GenericArray<u8, U32>` fixes, that it is 32 bytes long.
#[verifier::external_body]
pub(crate) fn sha256(data: &[u8]) -> (r: Vec<u8>)
    ensures
        r@ == sha256_digest(data@),
        r@.len() == 32,
{
    sha2::Sha256::digest(data).to_vec()
}

/// What `validator::validate_length` answers for a value of length `len`: with
/// `equal` set, whether the length is `equal`; otherwise whether it is at least
/// `min` and at most `max`, each where given.
pub open spec fn length_accepted(len: int, min: Option<u64>, max: Option<u64>, equal: Option<u64>) -> bool {
    match equal {
        Some(eq) => len == eq,
        None => {
            &&& (min matches Some(m) ==> len >= m)
            &&& (max matches Some(m) ==> len <= m)
        },
    }
}

/// Calls `validator::validate_length` on a `String`, whose length there is its number
/// of `char`s. The contract restates the body of `validate_length` in 0.16.1.
#[verifier::external_body]
pub(crate) fn validate_length(value: &String, min: Option<u64>, max: Option<u64>, equal: Option<u64>) -> (r: bool)
    ensures
        r == length_accepted(value@.len() as int, min, max, equal),
{
    validator::validate_length(value, min, max, equal)
}

} // verus!
