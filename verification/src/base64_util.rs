//! Base64 decoding that accepts the standard and the URL-safe alphabet,
//! with or without padding.
use base64::engine::general_purpose::{STANDARD, STANDARD_NO_PAD, URL_SAFE, URL_SAFE_NO_PAD};
use base64::Engine;
use vstd::prelude::*;

verus! {

/// The error type of the `base64` crate.
#[verifier::external_type_specification]
#[verifier::external_body]
pub struct ExDecodeError(base64::DecodeError);

/// Why a text is not base64, as the `base64` crate reports it.
#[derive(Debug)]
pub struct Base64Error(pub base64::DecodeError);

/// What `STANDARD.decode` gives for a text, `None` on an error.
pub uninterp spec fn standard_decoded(text: Seq<char>) -> Option<Seq<u8>>;

/// What `STANDARD_NO_PAD.decode` gives for a text, `None` on an error.
pub uninterp spec fn standard_no_pad_decoded(text: Seq<char>) -> Option<Seq<u8>>;

/// What `URL_SAFE.decode` gives for a text, `None` on an error.
pub uninterp spec fn url_safe_decoded(text: Seq<char>) -> Option<Seq<u8>>;

/// What `URL_SAFE_NO_PAD.decode` gives for a text, `None` on an error.
pub uninterp spec fn url_safe_no_pad_decoded(text: Seq<char>) -> Option<Seq<u8>>;

/// The character of the standard base64 alphabet for `n < 64`.
pub open spec fn base64_digit(n: int) -> char {
    if n < 26 {
        (65 + n) as char
    } else if n < 52 {
        (71 + n) as char
    } else if n < 62 {
        (n - 4) as char
    } else if n == 62 {
        '+'
    } else {
        '/'
    }
}

/// Standard base64 with padding: every three bytes become four digits of
/// six bits each; a last group of one or two bytes is padded with `=`.
pub open spec fn base64_standard_text(b: Seq<u8>) -> Seq<char>
    decreases b.len(),
{
    let x = if b.len() > 0 { b[0] as int } else { 0 };
    let y = if b.len() > 1 { b[1] as int } else { 0 };
    let z = if b.len() > 2 { b[2] as int } else { 0 };
    if b.len() == 0 {
        Seq::<char>::empty()
    } else if b.len() == 1 {
        seq![base64_digit(x / 4), base64_digit((x % 4) * 16), '=', '=']
    } else if b.len() == 2 {
        seq![base64_digit(x / 4), base64_digit((x % 4) * 16 + y / 16), base64_digit((y % 16) * 4), '=']
    } else {
        seq![
            base64_digit(x / 4),
            base64_digit((x % 4) * 16 + y / 16),
            base64_digit((y % 16) * 4 + z / 64),
            base64_digit(z % 64),
        ] + base64_standard_text(b.subrange(3, b.len() as int))
    }
}

/// `STANDARD.encode(bytes)`: the base64 text of `bytes` with the standard
/// alphabet and padding.
#[verifier::external_body]
pub(crate) fn encode_standard(bytes: &[u8]) -> (r: String)
    ensures
        r@ == base64_standard_text(bytes@),
{
    STANDARD.encode(bytes)
}

/// The bytes of the first of the four engines, in the order standard,
/// standard without padding, URL-safe, URL-safe without padding, that
/// accepts `text`.
pub open spec fn base64_decoded(text: Seq<char>) -> Option<Seq<u8>> {
    if standard_decoded(text) is Some {
        standard_decoded(text)
    } else if standard_no_pad_decoded(text) is Some {
        standard_no_pad_decoded(text)
    } else if url_safe_decoded(text) is Some {
        url_safe_decoded(text)
    } else {
        url_safe_no_pad_decoded(text)
    }
}

/// `STANDARD.decode(text)`; which error variant comes back is not stated.
#[verifier::external_body]
fn decode_standard(text: &str) -> (r: Result<Vec<u8>, base64::DecodeError>)
    ensures
        r is Ok <==> standard_decoded(text@) is Some,
        r matches Ok(v) ==> v@ == standard_decoded(text@)->0,
{
    STANDARD.decode(text)
}

/// `STANDARD_NO_PAD.decode(text)`; which error variant comes back is not stated.
#[verifier::external_body]
fn decode_standard_no_pad(text: &str) -> (r: Result<Vec<u8>, base64::DecodeError>)
    ensures
        r is Ok <==> standard_no_pad_decoded(text@) is Some,
        r matches Ok(v) ==> v@ == standard_no_pad_decoded(text@)->0,
{
    STANDARD_NO_PAD.decode(text)
}

/// `URL_SAFE.decode(text)`; which error variant comes back is not stated.
#[verifier::external_body]
fn decode_url_safe(text: &str) -> (r: Result<Vec<u8>, base64::DecodeError>)
    ensures
        r is Ok <==> url_safe_decoded(text@) is Some,
        r matches Ok(v) ==> v@ == url_safe_decoded(text@)->0,
{
    URL_SAFE.decode(text)
}

/// `URL_SAFE_NO_PAD.decode(text)`; which error variant comes back is not stated.
#[verifier::external_body]
fn decode_url_safe_no_pad(text: &str) -> (r: Result<Vec<u8>, base64::DecodeError>)
    ensures
        r is Ok <==> url_safe_no_pad_decoded(text@) is Some,
        r matches Ok(v) ==> v@ == url_safe_no_pad_decoded(text@)->0,
{
    URL_SAFE_NO_PAD.decode(text)
}

/// Decodes `text` with the first engine that accepts it, trying the
/// standard alphabet with and without padding, then the URL-safe alphabet
/// with and without padding. When none accepts it, the error is the one of
/// the last engine.
pub fn decode(text: &str) -> (r: Result<Vec<u8>, Base64Error>)
    ensures
        r is Ok <==> base64_decoded(text@) is Some,
        r matches Ok(v) ==> v@ == base64_decoded(text@)->0,
{
    let mut decoded = decode_standard(text);
    if decoded.is_err() {
        decoded = decode_standard_no_pad(text);
    }
    if decoded.is_err() {
        decoded = decode_url_safe(text);
    }
    if decoded.is_err() {
        decoded = decode_url_safe_no_pad(text);
    }
    match decoded {
        Ok(v) => Ok(v),
        Err(e) => Err(Base64Error(e)),
    }
}

} // verus!
