//! Fields of JSON object bodies, read with `serde_json`.

use vstd::prelude::*;

verus! {

/// `serde_json` reading `body` as JSON and taking the string at `key` of the
/// top-level object, if the body is JSON and that field is a string.
pub uninterp spec fn json_str_field(body: Seq<char>, key: Seq<char>) -> Option<Seq<char>>;

/// `serde_json` reading `body` as JSON and taking the integer at `key` of the
/// top-level object, if the body is JSON and that field is a number written
/// as a non-negative integer that fits in `u64`.
pub uninterp spec fn json_uint_field(body: Seq<char>, key: Seq<char>) -> Option<u64>;

/// `serde_json::from_str::<Value>(body)`, then `Value::get(key)` and
/// `Value::as_str`: the string field `key` of a JSON object body.
#[verifier::external_body]
pub(crate) fn json_string_field(body: &str, key: &str) -> (r: Option<String>)
    ensures
        match r {
            Some(s) => json_str_field(body@, key@) == Some(s@),
            None => json_str_field(body@, key@) is None,
        },
{
    match serde_json::from_str::<serde_json::Value>(body) {
        Ok(v) => match v.get(key) {
            Some(x) => match x.as_str() {
                Some(s) => Some(s.to_string()),
                None => None,
            },
            None => None,
        },
        Err(_) => None,
    }
}

/// `serde_json::from_str::<Value>(body)`, then `Value::get(key)` and
/// `Value::as_u64`: the unsigned integer field `key` of a JSON object body.
#[verifier::external_body]
pub(crate) fn json_u64_field(body: &str, key: &str) -> (r: Option<u64>)
    ensures
        r == json_uint_field(body@, key@),
{
    match serde_json::from_str::<serde_json::Value>(body) {
        Ok(v) => match v.get(key) {
            Some(x) => x.as_u64(),
            None => None,
        },
        Err(_) => None,
    }
}

} // verus!
