//! HTTP status codes and their display text.

use vstd::prelude::*;

use crate::text::{decimal, decimal_string};

verus! {

/// The canonical reason phrase that `http` knows for a status code, if any.
pub uninterp spec fn reason_phrase(code: u16) -> Option<Seq<char>>;

/// `reqwest::StatusCode::from_u16(code)` then `canonical_reason()`: the
/// registered reason phrase of a valid status code (100 to 999), if known.
#[verifier::external_body]
fn canonical_reason(code: u16) -> (r: Option<String>)
    requires
        100 <= code <= 999,
    ensures
        match r {
            Some(s) => reason_phrase(code) == Some(s@),
            None => reason_phrase(code) is None,
        },
{
    match reqwest::StatusCode::from_u16(code) {
        Ok(status) => match status.canonical_reason() {
            Some(s) => Some(s.to_string()),
            None => None,
        },
        Err(_) => None,
    }
}

/// Whether a status code is valid (100 to 999).
pub open spec fn valid_status(code: u16) -> bool {
    100 <= code <= 999
}

/// Whether a status code reports success (2xx).
pub open spec fn success(code: u16) -> bool {
    200 <= code <= 299
}

/// The display text of a status code: its number, a space and its reason
/// phrase, or `<unknown status code>` when it has none.
pub open spec fn status_text(code: u16) -> Seq<char> {
    decimal(code as nat) + " "@ + match reason_phrase(code) {
        Some(p) => p,
        None => "<unknown status code>"@,
    }
}

/// The display text of a status code (as `StatusCode`'s `Display` writes it).
pub fn status_display(code: u16) -> (r: String)
    requires
        valid_status(code),
    ensures
        r@ == status_text(code),
{
    let n = decimal_string(code as u64);
    let n = n.concat(" ");
    match canonical_reason(code) {
        Some(p) => n.concat(p.as_str()),
        None => n.concat("<unknown status code>"),
    }
}

/// Whether a status code reports success (2xx).
pub fn is_success(code: u16) -> (r: bool)
    ensures
        r == success(code),
{
    200 <= code && code <= 299
}

} // verus!
