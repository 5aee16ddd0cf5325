//! JSON text for the values this service sends.

use vstd::prelude::*;
use vstd::string::*;

verus! {

/// The JSON string literal that `serde_json` writes for a text:
/// the text between double quotes, with whatever escapes it applies.
pub uninterp spec fn json_quoted(s: Seq<char>) -> Seq<char>;

/// Whether a text holds no character that JSON escapes: no control
/// character below U+0020, no double quote, no backslash.
pub open spec fn is_plain(s: Seq<char>) -> bool {
    forall|i: int|
        0 <= i < s.len() ==> {
            let c = #[trigger] s[i];
            c >= ' ' && c != '"' && c != '\\'
        }
}

/// Calls `serde_json::to_string` on a string slice.
///
/// Trusted: the call succeeds on every string (a `str` neither fails
/// to serialize nor holds a map key), its result depends on the text
/// alone, and a text without control characters, double quotes and
/// backslashes comes back unchanged between two double quotes.
#[verifier::external_body]
fn quote(s: &str) -> (r: Option<String>)
    ensures
        r is Some,
        r.unwrap()@ == json_quoted(s@),
        is_plain(s@) ==> r.unwrap()@ == seq!['"'] + s@ + seq!['"'],
{
    match serde_json::to_string(s) {
        Ok(quoted) => Some(quoted),
        Err(_) => None,
    }
}

/// Writes `s` as a JSON string literal.
pub fn json_string(s: &str) -> (r: String)
    ensures
        r@ == json_quoted(s@),
        is_plain(s@) ==> r@ == seq!['"'] + s@ + seq!['"'],
{
    match quote(s) {
        Some(quoted) => quoted,
        None => String::new(),
    }
}

} // verus!
