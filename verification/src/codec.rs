//! Calls into the crates that encode and parse text.
//!
//! The calls themselves are not proved: each contract says what the other
//! crate's source shows of the function it calls.

use vstd::prelude::*;
use vstd::string::StringSliceAdditionalSpecFns;

verus! {

/// A byte that percent-encoding lets through: a letter or digit of ASCII, or
/// one of `-`, `.`, `_`, `~`.
pub open spec fn is_unreserved(byte: u8) -> bool {
    ||| 0x30 <= byte <= 0x39
    ||| 0x41 <= byte <= 0x5a
    ||| 0x61 <= byte <= 0x7a
    ||| byte == 0x2d
    ||| byte == 0x2e
    ||| byte == 0x5f
    ||| byte == 0x7e
}

/// The digit of base sixteen for a value below sixteen, in capitals.
pub open spec fn hex_digit(value: u8) -> char {
    if value < 10 {
        (0x30 + value) as u8 as char
    } else {
        (0x41 + value - 10) as u8 as char
    }
}

/// One byte, percent-encoded.
pub open spec fn encoded_byte(byte: u8) -> Seq<char> {
    if is_unreserved(byte) {
        seq![byte as char]
    } else {
        seq!['%', hex_digit(byte / 16), hex_digit(byte % 16)]
    }
}

/// A sequence of bytes, percent-encoded byte by byte.
pub open spec fn percent_encoded(bytes: Seq<u8>) -> Seq<char>
    decreases bytes.len(),
{
    if bytes.len() == 0 {
        Seq::empty()
    } else {
        encoded_byte(bytes[0]) + percent_encoded(bytes.drop_first())
    }
}

/// `urlencoding::encode` walks the UTF-8 bytes of its argument, copies each
/// unreserved byte and writes every other byte as `%` and two capital digits
/// of base sixteen.
#[verifier::external_body]
pub(crate) fn percent_encode(text: &str) -> (out: String)
    ensures
        out@ == percent_encoded(text.spec_bytes()),
{
    urlencoding::encode(text).into_owned()
}

/// The JSON text that `serde_json::to_string` gives for a string, or nothing
/// where it fails.
pub uninterp spec fn json_text(text: Seq<char>) -> Option<Seq<char>>;

/// The error of `serde_json`.
#[verifier::external_type_specification]
#[verifier::external_body]
pub struct ExJsonError(serde_json::Error);

/// `serde_json::to_string` on a string: the result depends on the string
/// alone.
#[verifier::external_body]
pub(crate) fn to_json(text: &String) -> (out: Result<String, serde_json::Error>)
    ensures
        match out {
            Ok(json) => json_text(text@) == Some(json@),
            Err(_) => json_text(text@) is None,
        },
{
    serde_json::to_string(text)
}

/// What `url::Url::parse` has against an address: nothing where the address
/// parses, and else the words of its error.
pub uninterp spec fn url_parse_error(address: Seq<char>) -> Option<Seq<char>>;

/// `url::Url::parse` on an address. Only whether it parses is kept, and the
/// words of the error where it does not; both depend on the address alone.
#[verifier::external_body]
pub(crate) fn parse_url(address: &str) -> (complaint: Option<String>)
    ensures
        match complaint {
            Some(words) => url_parse_error(address@) == Some(words@),
            None => url_parse_error(address@) is None,
        },
{
    match url::Url::parse(address) {
        Ok(_) => None,
        Err(e) => Some(e.to_string()),
    }
}

/// The host of an address as `url::Url` reads it: nothing where the address
/// does not parse or has no host.
pub uninterp spec fn url_host(address: Seq<char>) -> Option<Seq<char>>;

/// `url::Url::parse` followed by `url::Url::host_str`. The host depends on
/// the address alone.
#[verifier::external_body]
pub(crate) fn host_of(address: &str) -> (host: Option<String>)
    ensures
        match host {
            Some(h) => url_host(address@) == Some(h@),
            None => url_host(address@) is None,
        },
{
    match url::Url::parse(address) {
        Ok(parsed) => parsed.host_str().map(str::to_owned),
        Err(_) => None,
    }
}

/// The address that `url::Url` makes of `reference` read against `base`:
/// nothing where `base` does not parse or the two do not join.
pub uninterp spec fn joined_url(base: Seq<char>, reference: Seq<char>) -> Option<Seq<char>>;

/// `url::Url::parse` of the base followed by `url::Url::join` with the
/// reference, written out as text. The result depends on the two texts alone.
#[verifier::external_body]
pub(crate) fn join_url(base: &str, reference: &str) -> (joined: Option<String>)
    ensures
        match joined {
            Some(address) => joined_url(base@, reference@) == Some(address@),
            None => joined_url(base@, reference@) is None,
        },
{
    match url::Url::parse(base) {
        Ok(parsed) => match parsed.join(reference) {
            Ok(joined) => Some(joined.to_string()),
            Err(_) => None,
        },
        Err(_) => None,
    }
}

/// The number that `str::parse::<i32>` of the standard library reads from a
/// text, or nothing where it reads none.
pub uninterp spec fn parsed_i32(text: Seq<char>) -> Option<i32>;

/// `str::parse::<i32>` of the standard library. The number depends on the
/// text alone.
#[verifier::external_body]
pub(crate) fn parse_i32(text: &str) -> (number: Option<i32>)
    ensures
        number == parsed_i32(text@),
{
    text.parse::<i32>().ok()
}

/// The bytes that the standard base64 alphabet with padding stands for, as
/// `base64` decodes a text: nothing where the text is no such encoding.
pub uninterp spec fn base64_decoded(text: Seq<char>) -> Option<Seq<u8>>;

/// `base64::engine::general_purpose::STANDARD.decode`. The bytes depend on
/// the text alone.
#[verifier::external_body]
pub(crate) fn decode_base64(text: &str) -> (bytes: Option<Vec<u8>>)
    ensures
        match bytes {
            Some(b) => base64_decoded(text@) == Some(b@),
            None => base64_decoded(text@) is None,
        },
{
    base64::Engine::decode(&base64::engine::general_purpose::STANDARD, text).ok()
}

} // verus!
