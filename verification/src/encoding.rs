//! Encodings computed by other crates and by the standard library.
//!
//! Every function here is trusted: Verus takes its contract as given and does
//! not look at its body. Each contract either names the result, as a function
//! of the arguments that this crate does not interpret, or states it over
//! `vstd`'s model of UTF-8.
use base64::Engine;
use sha1::Digest;
use std::io::Write;
use vstd::prelude::*;
use vstd::utf8::{decode_utf8, valid_utf8};

verus! {

/// The SHA-1 digest of `data`.
pub uninterp spec fn sha1(data: Seq<u8>) -> Seq<u8>;

/// The padded Base64 text of `data` in the standard alphabet.
pub uninterp spec fn base64_text(data: Seq<u8>) -> Seq<char>;

/// The bytes that `text` stands for in padded standard Base64, if it is
/// well-formed.
pub uninterp spec fn base64_bytes(text: Seq<char>) -> Option<Seq<u8>>;

/// The gzip stream that holds `data` at the default compression level, if
/// the encoder produces one.
pub uninterp spec fn gzip_stream(data: Seq<u8>) -> Option<Seq<u8>>;

/// The JSON string literal for `text`, quotes included.
pub uninterp spec fn json_string(text: Seq<char>) -> Seq<char>;

/// The text of `bytes` read as UTF-8, each malformed sequence replaced by
/// U+FFFD.
pub uninterp spec fn lossy_text(bytes: Seq<u8>) -> Seq<char>;

/// The text of `text` with each percent-encoded byte decoded and the result
/// read as UTF-8, malformed sequences replaced by U+FFFD.
pub uninterp spec fn percent_decoded(text: Seq<char>) -> Seq<char>;

/// Trusted: `sha1::Sha1::digest` (the `Digest` trait of the crate `digest`).
/// The result is the SHA-1 digest of the input, which is 20 bytes long.
#[verifier::external_body]
pub(crate) fn sha1_digest(data: &[u8]) -> (r: Vec<u8>)
    ensures
        r@ == sha1(data@),
        r@.len() == 20,
{
    sha1::Sha1::digest(data).to_vec()
}

/// Whether `c` is a letter or a digit of ASCII, `+`, `/`, or the padding
/// sign `=`: the characters of padded Base64 in the standard alphabet.
pub open spec fn is_base64_char(c: char) -> bool {
    let u = c as u32;
    (0x41 <= u <= 0x5a) || (0x61 <= u <= 0x7a) || (0x30 <= u <= 0x39) || u == 0x2b || u == 0x2f
        || u == 0x3d
}

/// Trusted: `Engine::encode` of `base64::prelude::BASE64_STANDARD`. The call
/// panics when the encoded length does not fit in `usize`, so such inputs are
/// left out. The text holds four characters for every three bytes begun, all
/// of them of the standard alphabet or the padding sign, and the same engine
/// decodes it to the bytes it was made from.
#[verifier::external_body]
pub(crate) fn base64_encode(data: &[u8]) -> (r: String)
    requires
        (data@.len() / 3 + 1) * 4 <= usize::MAX,
    ensures
        r@ == base64_text(data@),
        r@.len() == (data@.len() + 2) / 3 * 4,
        forall|i: int| 0 <= i < r@.len() ==> is_base64_char(#[trigger] r@[i]),
        base64_bytes(r@) == Some(data@),
{
    base64::prelude::BASE64_STANDARD.encode(data)
}

/// Trusted: `Engine::decode` of `base64::prelude::BASE64_STANDARD`. `None`
/// stands for the crate's `DecodeError`.
#[verifier::external_body]
pub(crate) fn base64_decode(text: &str) -> (r: Option<Vec<u8>>)
    ensures
        r is Some <==> base64_bytes(text@) is Some,
        r matches Some(v) ==> v@ == base64_bytes(text@)->0,
{
    base64::prelude::BASE64_STANDARD.decode(text).ok()
}

/// Trusted: `flate2::write::GzEncoder` over a `Vec`, at
/// `Compression::default()`: `write_all`, then `finish`. `None` stands for an
/// I/O error from either call.
#[verifier::external_body]
pub(crate) fn gzip(data: &[u8]) -> (r: Option<Vec<u8>>)
    ensures
        r is Some <==> gzip_stream(data@) is Some,
        r matches Some(v) ==> v@ == gzip_stream(data@)->0,
{
    let mut encoder = flate2::write::GzEncoder::new(Vec::new(), flate2::Compression::default());
    encoder.write_all(data).ok()?;
    encoder.finish().ok()
}

/// Trusted: the `Display` form of `serde_json::Value::String`, which is the
/// compact JSON text of a string value.
#[verifier::external_body]
pub(crate) fn json_quote(text: &str) -> (r: String)
    ensures
        r@ == json_string(text@),
{
    serde_json::Value::String(text.to_owned()).to_string()
}

/// Trusted: `String::from_utf8_lossy` of the standard library.
#[verifier::external_body]
pub(crate) fn utf8_lossy(bytes: &[u8]) -> (r: String)
    ensures
        r@ == lossy_text(bytes@),
{
    String::from_utf8_lossy(bytes).into_owned()
}

/// Trusted: `String::from_utf8` of the standard library, which succeeds
/// exactly on well-formed UTF-8 and then holds the decoded text.
#[verifier::external_body]
pub(crate) fn utf8_text(bytes: Vec<u8>) -> (r: Result<String, std::string::FromUtf8Error>)
    ensures
        r is Ok <==> valid_utf8(bytes@),
        r matches Ok(s) ==> s@ == decode_utf8(bytes@),
{
    String::from_utf8(bytes)
}

/// Trusted: `percent_encoding::percent_decode_str`, then
/// `PercentDecode::decode_utf8_lossy`.
#[verifier::external_body]
pub(crate) fn percent_decode(text: &str) -> (r: String)
    ensures
        r@ == percent_decoded(text@),
{
    percent_encoding::percent_decode_str(text).decode_utf8_lossy().into_owned()
}

} // verus!
