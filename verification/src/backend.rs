//! The cloud gateway's HTTP interface: where each request goes and what a
//! response means. Sending the requests is left to the caller.

use vstd::prelude::*;

use crate::error::Error;
use crate::http::{is_success, status_display, status_text, success, valid_status};
use crate::json::{json_str_field, json_string_field, json_u64_field, json_uint_field};
use crate::text::{decimal, decimal_string, str_eq, trim_end_char, trim_end_char_spec};

verus! {

/// The cloud gateway backend: its base URL (without trailing slashes) and
/// the bearer token sent with every request.
pub struct GatewayBackend {
    base_url: String,
    token: String,
}

/// The text of the gateway error for a failed response.
pub open spec fn gateway_failure_text(status: u16, body: Seq<char>) -> Seq<char> {
    "HTTP "@ + status_text(status) + ": "@ + body
}

/// Whether a response is the gateway refusing a save because a plan limit
/// was hit: HTTP 402 with the string field `code` equal to `quota_exceeded`
/// and a string field `message` to show the user.
pub open spec fn quota_refusal(status: u16, body: Seq<char>) -> bool {
    &&& status == 402
    &&& json_str_field(body, "code"@) == Some("quota_exceeded"@)
    &&& json_str_field(body, "message"@) is Some
}

/// The error a failed response (non-2xx) becomes: a plan-limit refusal
/// becomes `QuotaExceeded` with the gateway's `message` and its `used` and
/// `limit` counts (when present); anything else a gateway error carrying the
/// status and the body.
pub open spec fn failure_error(status: u16, body: Seq<char>, e: Error) -> bool {
    if quota_refusal(status, body) {
        e matches Error::QuotaExceeded { message, used, limit }
            && Some(message@) == json_str_field(body, "message"@)
            && used == json_uint_field(body, "used"@)
            && limit == json_uint_field(body, "limit"@)
    } else {
        e matches Error::Gateway(m) && m@ == gateway_failure_text(status, body)
    }
}

/// What a response means: success for 2xx; otherwise the error of
/// `failure_error` (a plan-limit refusal, or the status and body).
pub fn ensure_ok(status: u16, body: &str) -> (r: Result<(), Error>)
    requires
        valid_status(status),
    ensures
        r is Ok <==> success(status),
        r matches Err(e) ==> failure_error(status, body@, e),
{
    if is_success(status) {
        return Ok(());
    }
    if status == 402 {
        if let Some(code) = json_string_field(body, "code") {
            if str_eq(code.as_str(), "quota_exceeded") {
                if let Some(message) = json_string_field(body, "message") {
                    let used = json_u64_field(body, "used");
                    let limit = json_u64_field(body, "limit");
                    return Err(Error::QuotaExceeded { message, used, limit });
                }
            }
        }
    }
    let m = String::from_str("HTTP ");
    let m = m.concat(status_display(status).as_str());
    let m = m.concat(": ");
    let m = m.concat(body);
    Err(Error::Gateway(m))
}

/// What a response to a bookmark lookup means: `Ok(false)` (not found) for
/// 404, `Ok(true)` (found) for 2xx, else the error of `ensure_ok`.
pub fn get_found(status: u16, body: &str) -> (r: Result<bool, Error>)
    requires
        valid_status(status),
    ensures
        status == 404 ==> r == Ok::<bool, Error>(false),
        status != 404 ==> (r is Ok <==> success(status)),
        status != 404 && success(status) ==> r == Ok::<bool, Error>(true),
        r matches Err(e) ==> failure_error(status, body@, e),
{
    if status == 404 {
        return Ok(false);
    }
    match ensure_ok(status, body) {
        Ok(()) => Ok(true),
        Err(e) => Err(e),
    }
}

impl GatewayBackend {
    /// A gateway backend at `base_url` (trailing slashes dropped) that
    /// authenticates with `token`.
    pub fn new(base_url: String, token: String) -> (r: GatewayBackend)
        ensures
            r.base_url_spec() == trim_end_char_spec(base_url@, '/'),
            r.token_spec() == token@,
    {
        GatewayBackend { base_url: trim_end_char(base_url.as_str(), '/'), token }
    }

    /// The base URL, without trailing slashes.
    pub closed spec fn base_url_spec(&self) -> Seq<char> {
        self.base_url@
    }

    /// The bearer token.
    pub closed spec fn token_spec(&self) -> Seq<char> {
        self.token@
    }

    /// The bearer token sent with every request.
    pub fn token(&self) -> (r: &str)
        ensures
            r@ == self.token_spec(),
    {
        self.token.as_str()
    }

    /// The URL of `path` on the gateway: the base URL followed by `path`.
    pub fn url(&self, path: &str) -> (r: String)
        ensures
            r@ == self.base_url_spec() + path@,
    {
        self.base_url.clone().concat(path)
    }

    /// Where bookmarks are saved and listed: `{base}/v1/bookmarks`.
    pub fn bookmarks_url(&self) -> (r: String)
        ensures
            r@ == self.base_url_spec() + "/v1/bookmarks"@,
    {
        self.url("/v1/bookmarks")
    }

    /// Where searches go: `{base}/v1/search`.
    pub fn search_url(&self) -> (r: String)
        ensures
            r@ == self.base_url_spec() + "/v1/search"@,
    {
        self.url("/v1/search")
    }

    /// Where one bookmark is read or deleted: `{base}/v1/bookmarks/{id}`.
    pub fn bookmark_url(&self, id: &str) -> (r: String)
        ensures
            r@ == self.base_url_spec() + "/v1/bookmarks/"@ + id@,
    {
        let path = String::from_str("/v1/bookmarks/").concat(id);
        self.url(path.as_str())
    }

    /// The query parameters of a list request: the limit, then the offset if
    /// there is one.
    pub fn list_query(limit: u32, offset: Option<String>) -> (r: Vec<(String, String)>)
        ensures
            r@.len() == (if offset is Some { 2int } else { 1int }),
            r@[0].0@ == "limit"@,
            r@[0].1@ == decimal(limit as nat),
            offset matches Some(o) ==> r@[1].0@ == "offset"@ && r@[1].1 == o,
    {
        let mut q: Vec<(String, String)> = Vec::new();
        q.push((String::from_str("limit"), decimal_string(limit as u64)));
        if let Some(o) = offset {
            q.push((String::from_str("offset"), o));
        }
        q
    }
}

/// A gateway's base URL never ends with `/`, so `url(path)` never doubles a
/// slash: trimming trailing slashes leaves no trailing slash.
pub proof fn law_base_url_has_no_trailing_slash(base: Seq<char>)
    ensures
        trim_end_char_spec(base, '/').len() == 0 || trim_end_char_spec(base, '/').last() != '/',
{
    crate::text::lemma_trim_end_char_last(base, '/');
}

} // verus!
