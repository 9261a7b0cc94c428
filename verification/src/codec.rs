//! Decoders and encoders that the subscription and proxy logic takes from
//! std, `percent_encoding`, `url` (through `reqwest`) and `uuid`.
use vstd::prelude::*;
use vstd::utf8::{decode_utf8, encode_utf8, valid_utf8};

verus! {

// ---------------------------------------------------------------------------
// UTF-8
// ---------------------------------------------------------------------------

/// `String::from_utf8`: succeeds exactly on well-formed UTF-8 and then holds
/// the decoded characters (the error value itself is dropped).
#[verifier::external_body]
pub(crate) fn utf8_string(bytes: Vec<u8>) -> (r: Option<String>)
    ensures
        r is Some <==> valid_utf8(bytes@),
        r matches Some(s) ==> s@ == decode_utf8(bytes@),
{
    String::from_utf8(bytes).ok()
}

// ---------------------------------------------------------------------------
// Percent encoding
// ---------------------------------------------------------------------------

/// The value of an ASCII hexadecimal digit byte (`char::to_digit(16)`).
pub open spec fn hex_value(b: u8) -> Option<u8> {
    if 48 <= b && b <= 57 {
        Some((b - 48) as u8)
    } else if 65 <= b && b <= 70 {
        Some((b - 55) as u8)
    } else if 97 <= b && b <= 102 {
        Some((b - 87) as u8)
    } else {
        None
    }
}

/// Percent-decoding of bytes: each `%` followed by two hexadecimal digits
/// stands for the byte they denote; every other byte stands for itself.
pub open spec fn percent_decode_bytes(b: Seq<u8>) -> Seq<u8>
    decreases b.len(),
{
    if b.len() == 0 {
        Seq::<u8>::empty()
    } else if b[0] == 37u8 && b.len() >= 3 && hex_value(b[1]) is Some && hex_value(b[2]) is Some {
        seq![(hex_value(b[1])->0 * 16 + hex_value(b[2])->0) as u8] + percent_decode_bytes(
            b.subrange(3, b.len() as int),
        )
    } else {
        seq![b[0]] + percent_decode_bytes(b.drop_first())
    }
}

/// Percent-decodes the UTF-8 bytes of `s` and reads the result as UTF-8.
pub open spec fn percent_decoded_text(s: Seq<char>) -> Option<Seq<char>> {
    let bytes = percent_decode_bytes(encode_utf8(s));
    if valid_utf8(bytes) {
        Some(decode_utf8(bytes))
    } else {
        None
    }
}

/// `b` is an ASCII letter or digit.
pub open spec fn is_ascii_alphanumeric_byte(b: u8) -> bool {
    (48 <= b && b <= 57) || (65 <= b && b <= 90) || (97 <= b && b <= 122)
}

/// The upper-case hexadecimal digit for `n < 16`.
pub open spec fn hex_upper(n: int) -> char {
    if n < 10 {
        (48 + n) as char
    } else {
        (55 + n) as char
    }
}

/// The percent-encoding of one byte under the set of all bytes but ASCII
/// letters and digits.
pub open spec fn percent_encode_byte(b: u8) -> Seq<char> {
    if is_ascii_alphanumeric_byte(b) {
        seq![b as char]
    } else {
        seq!['%', hex_upper((b / 16) as int), hex_upper((b % 16) as int)]
    }
}

/// The percent-encoding of bytes, byte by byte.
pub open spec fn percent_encode_bytes(b: Seq<u8>) -> Seq<char>
    decreases b.len(),
{
    if b.len() == 0 {
        Seq::<char>::empty()
    } else {
        percent_encode_byte(b[0]) + percent_encode_bytes(b.drop_first())
    }
}

/// `percent_decode_str(s).decode_utf8()`: percent-decodes the UTF-8 bytes
/// of `s` and succeeds exactly when the decoded bytes are UTF-8, then
/// holding their characters.
#[verifier::external_body]
pub(crate) fn percent_decode_text(s: &str) -> (r: Option<String>)
    ensures
        r is Some <==> percent_decoded_text(s@) is Some,
        r matches Some(t) ==> t@ == percent_decoded_text(s@)->0,
{
    match percent_encoding::percent_decode_str(s).decode_utf8() {
        Ok(text) => Some(text.into_owned()),
        Err(_) => None,
    }
}

/// `utf8_percent_encode(s, NON_ALPHANUMERIC).to_string()`: every byte of
/// the UTF-8 encoding of `s` that is not an ASCII letter or digit becomes
/// `%` and two upper-case hexadecimal digits.
#[verifier::external_body]
pub(crate) fn percent_encode_text(s: &str) -> (r: String)
    ensures
        r@ == percent_encode_bytes(encode_utf8(s@)),
{
    percent_encoding::utf8_percent_encode(s, percent_encoding::NON_ALPHANUMERIC).to_string()
}

// ---------------------------------------------------------------------------
// URLs
// ---------------------------------------------------------------------------

/// What the subscription logic reads of a parsed URL.
pub struct UrlModel {
    pub scheme: Seq<char>,
    pub username: Seq<char>,
    pub password: Option<Seq<char>>,
    pub host: Option<Seq<char>>,
    pub port: Option<u16>,
    pub fragment: Option<Seq<char>>,
    pub query_pairs: Seq<(Seq<char>, Seq<char>)>,
}

/// The parts of a parsed URL that the subscription logic reads, as plain
/// values: the scheme, the (still percent-encoded) user name and password,
/// the host, the explicit port, the fragment and the decoded query pairs in
/// their order.
pub struct ParsedUrl {
    pub scheme: String,
    pub username: String,
    pub password: Option<String>,
    pub host: Option<String>,
    pub port: Option<u16>,
    pub fragment: Option<String>,
    pub query_pairs: Vec<(String, String)>,
}

impl View for ParsedUrl {
    type V = UrlModel;

    open spec fn view(&self) -> UrlModel {
        UrlModel {
            scheme: self.scheme@,
            username: self.username@,
            password: self.password.deep_view(),
            host: self.host.deep_view(),
            port: self.port,
            fragment: self.fragment.deep_view(),
            query_pairs: self.query_pairs@.map_values(|p: (String, String)| (p.0@, p.1@)),
        }
    }
}

/// The result of `Url::parse` on a text, read through the accessors of
/// `Url`; `None` when the text is not a URL.
pub uninterp spec fn parsed_url(text: Seq<char>) -> Option<UrlModel>;

/// `Url::parse` (re-exported by `reqwest`), with the accessors `scheme`,
/// `username`, `password`, `host_str`, `port`, `fragment` and `query_pairs`
/// read into a `ParsedUrl`. The contract names the outcome and states
/// nothing more of it.
#[verifier::external_body]
pub(crate) fn parse_url(text: &str) -> (r: Option<ParsedUrl>)
    ensures
        r is Some <==> parsed_url(text@) is Some,
        r matches Some(u) ==> u@ == parsed_url(text@)->0,
{
    let url = reqwest::Url::parse(text).ok()?;
    let mut query_pairs = Vec::new();
    for (key, value) in url.query_pairs() {
        query_pairs.push((key.into_owned(), value.into_owned()));
    }
    Some(ParsedUrl {
        scheme: url.scheme().to_owned(),
        username: url.username().to_owned(),
        password: url.password().map(String::from),
        host: url.host_str().map(String::from),
        port: url.port(),
        fragment: url.fragment().map(String::from),
        query_pairs,
    })
}

// ---------------------------------------------------------------------------
// Random secrets
// ---------------------------------------------------------------------------

/// `c` is a lower-case hexadecimal digit.
pub open spec fn is_lower_hex(c: char) -> bool {
    ('0' <= c && c <= '9') || ('a' <= c && c <= 'f')
}

/// The hyphenated lower-case text of a random (version 4, RFC 4122
/// variant) UUID: 36 characters, hyphens at 8, 13, 18 and 23, lower-case
/// hexadecimal digits elsewhere, the version digit `4` at 14 and a variant
/// digit among `8`, `9`, `a`, `b` at 19.
pub open spec fn is_hyphenated_uuid(s: Seq<char>) -> bool {
    &&& s.len() == 36
    &&& s[14] == '4'
    &&& (s[19] == '8' || s[19] == '9' || s[19] == 'a' || s[19] == 'b')
    &&& forall|i: int|
        0 <= i < 36 ==> if i == 8 || i == 13 || i == 18 || i == 23 {
            s[i] == '-'
        } else {
            is_lower_hex(#[trigger] s[i])
        }
}

/// `Uuid::new_v4().to_string()`: a random UUID in hyphenated lower-case
/// form, with the version and variant bits that `new_v4` sets. Which UUID
/// comes out is left open.
#[verifier::external_body]
pub(crate) fn new_uuid_text() -> (r: String)
    ensures
        is_hyphenated_uuid(r@),
{
    uuid::Uuid::new_v4().to_string()
}

} // verus!
