//! Calls into serde_json, base64 and std whose results the compiler uses.
use vstd::prelude::*;
use vstd::utf8::{valid_utf8, decode_utf8};
use base64::Engine;

verus! {

/// Whether serde_json reads `s` as one JSON document.
pub uninterp spec fn is_json_document(s: Seq<char>) -> bool;

/// What the standard base64 alphabet (with padding) decodes `s` to, if it
/// is well formed.
pub uninterp spec fn base64_decoded(s: Seq<char>) -> Option<Seq<u8>>;

/// Relies on `serde_json::from_str::<serde_json::Value>`: whether the text
/// parses as a JSON document, which depends on the text alone.
#[verifier::external_body]
pub fn json_parses(s: &str) -> (r: bool)
    ensures
        r == is_json_document(s@),
{
    serde_json::from_str::<serde_json::Value>(s).is_ok()
}

/// Relies on `base64::engine::general_purpose::STANDARD.decode`: the bytes
/// that `s` encodes, or `None` where it is not valid base64.
#[verifier::external_body]
pub fn decode_base64(s: &str) -> (r: Option<Vec<u8>>)
    ensures
        match r {
            Some(b) => base64_decoded(s@) == Some(b@),
            None => base64_decoded(s@) is None,
        },
{
    base64::engine::general_purpose::STANDARD.decode(s).ok()
}

/// Relies on `String::from_utf8`: the text that the bytes encode, where
/// they are valid UTF-8.
#[verifier::external_body]
pub fn utf8_text(b: Vec<u8>) -> (r: Option<String>)
    ensures
        match r {
            Some(s) => valid_utf8(b@) && s@ == decode_utf8(b@),
            None => !valid_utf8(b@),
        },
{
    String::from_utf8(b).ok()
}

/// Relies on `SystemTime::now` and `duration_since(UNIX_EPOCH)`: the
/// microseconds since the epoch, `None` for a clock set before it.
#[verifier::external_body]
pub fn clock_micros() -> (r: Option<u128>) {
    std::time::SystemTime::now().duration_since(std::time::UNIX_EPOCH).ok().map(|d| d.as_micros())
}

/// Relies on `io::Stdin::lines`: the lines of standard input, read to its
/// end; a line that cannot be read counts as empty.
#[verifier::external_body]
pub fn stdin_lines() -> (r: Vec<String>) {
    std::io::BufRead::lines(std::io::stdin().lock()).map(|l| l.unwrap_or_default()).collect()
}

} // verus!
