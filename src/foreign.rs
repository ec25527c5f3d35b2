//! The calls that this library makes into other crates, each with the
//! contract that the library relies on.

use std::fmt::Write;

use vstd::prelude::*;

verus! {

/// anyhow's error: an opaque cause handed up by collaborators.
#[verifier::external_type_specification]
#[verifier::external_body]
pub struct ExAnyhowError(anyhow::Error);

/// The JSON string literal, quotes and escapes included, that encodes `s`.
pub uninterp spec fn json_quoted(s: Seq<char>) -> Seq<char>;

/// The text that decodes `b` as UTF-8, each invalid sequence replaced by
/// U+FFFD.
pub uninterp spec fn lossy_utf8(b: Seq<u8>) -> Seq<char>;

/// A text that a JSON string literal holds verbatim: no quote, no backslash
/// and no control character below U+0020.
pub open spec fn json_plain(s: Seq<char>) -> bool {
    forall|i: int|
        0 <= i < s.len() ==> #[trigger] s[i] != '"' && s[i] != '\\' && (s[i] as u32) >= 0x20
}

/// Bytes that are all ASCII.
pub open spec fn ascii_bytes(b: Seq<u8>) -> bool {
    forall|i: int| 0 <= i < b.len() ==> #[trigger] b[i] < 0x80
}

/// The characters of ASCII bytes, one for each.
pub open spec fn ascii_chars(b: Seq<u8>) -> Seq<char> {
    b.map_values(|x: u8| x as char)
}

/// Relies on `serde_json::to_string` on a `str`: it writes the string
/// between quotes and escapes only the quote, the backslash and the control
/// characters below U+0020. Writing into its own buffer cannot fail.
#[verifier::external_body]
pub(crate) fn json_string(s: &str) -> (r: Option<String>)
    ensures
        r is Some,
        r->0@ == json_quoted(s@),
        json_plain(s@) ==> r->0@ == seq!['"'] + s@ + seq!['"'],
{
    serde_json::to_string(s).ok()
}

/// Relies on `String::from_utf8_lossy`: valid UTF-8 decodes as itself, and
/// ASCII bytes are their own characters.
#[verifier::external_body]
pub(crate) fn lossy_text(b: &[u8]) -> (r: String)
    ensures
        r@ == lossy_utf8(b@),
        ascii_bytes(b@) ==> r@ == ascii_chars(b@),
{
    String::from_utf8_lossy(b).into_owned()
}

/// Relies on http's `StatusCode::canonical_reason`: the reason phrase that
/// its status table gives, "Internal Server Error" for 500.
#[verifier::external_body]
pub(crate) fn canonical_reason(code: u16) -> (r: Option<&'static str>)
    requires
        100 <= code <= 999,
    ensures
        code == 500 ==> (r is Some && r->0@ == "Internal Server Error"@),
{
    match axum::http::StatusCode::from_u16(code) {
        Ok(status) => status.canonical_reason(),
        Err(_) => None,
    }
}

/// Relies on anyhow's `Display` for its error, plain form: the outermost
/// message of the cause. Nothing is stated of the text. A formatting error
/// of the wrapped cause leaves the text written so far.
#[verifier::external_body]
pub(crate) fn error_text(e: &anyhow::Error) -> (r: String) {
    let mut s = String::new();
    let _ = write!(s, "{}", e);
    s
}

/// Relies on anyhow's `Display` for its error, alternate form: the message
/// of the cause followed by each of its underlying causes. Nothing is stated
/// of the text. A formatting error of a cause leaves the text written so far.
#[verifier::external_body]
pub(crate) fn error_chain_text(e: &anyhow::Error) -> (r: String) {
    let mut s = String::new();
    let _ = write!(s, "{:#}", e);
    s
}

} // verus!
