//! The decisions of the local HTTP API behind the web UI: who may change
//! settings, what a settings change writes, how errors are answered and
//! which asset a path serves. Serving the HTTP requests is left to the
//! caller.

use vstd::prelude::*;

use crate::error::{error_text, Error};
use crate::text::{str_eq, trim_spec, trim_start_char, trim_start_char_spec};
use crate::waitlist::{email_ok, entry_spec, validate_waitlist, WaitlistEntry};

verus! {

/// The UI's only legitimate origin.
pub open spec fn ui_origin() -> Seq<char> {
    "http://127.0.0.1:21580"@
}

/// Whether a request's `Origin` is exactly the UI's.
pub open spec fn from_ui(origin: Option<&str>) -> bool {
    match origin {
        Some(o) => o@ == ui_origin(),
        None => false,
    }
}

/// An error answer: the HTTP status, the `error` text and, for plan limits,
/// the machine-readable `code`.
#[derive(Debug, Clone, PartialEq, Eq)]
pub struct ErrorReply {
    pub status: u16,
    pub error: String,
    pub code: Option<String>,
}

/// The status an error is answered with: 404 for a missing bookmark, 402 for
/// a plan limit, 500 otherwise.
pub open spec fn error_status(e: Error) -> u16 {
    match e {
        Error::NotFound(_) => 404,
        Error::QuotaExceeded { .. } => 402,
        _ => 500,
    }
}

/// How an error is answered: its status, its text, and the code
/// `quota_exceeded` exactly when a plan limit was hit.
pub fn error_reply(e: &Error) -> (r: ErrorReply)
    ensures
        r.status == error_status(*e),
        r.error@ == error_text(*e),
        r.code is Some <==> e is QuotaExceeded,
        r.code matches Some(c) ==> c@ == "quota_exceeded"@,
{
    let status: u16 = match e {
        Error::NotFound(_) => 404,
        Error::QuotaExceeded { .. } => 402,
        _ => 500,
    };
    let code = match e {
        Error::QuotaExceeded { .. } => Some(String::from_str("quota_exceeded")),
        _ => None,
    };
    ErrorReply { status, error: e.message(), code }
}

/// The answer to a mutation from a foreign origin: 403 `forbidden origin`.
pub fn forbidden_origin() -> (r: ErrorReply)
    ensures
        r.status == 403,
        r.error@ == "forbidden origin"@,
        r.code is None,
{
    ErrorReply { status: 403, error: String::from_str("forbidden origin"), code: None }
}

/// The answer to a malformed request: 400 with the reason.
pub fn bad_request(msg: &str) -> (r: ErrorReply)
    ensures
        r.status == 400,
        r.error@ == msg@,
        r.code is None,
{
    ErrorReply { status: 400, error: String::from_str(msg), code: None }
}

/// Whether a mutation comes from the UI itself: its `Origin` is exactly the
/// UI's. A missing origin (or `null`, as a sandboxed iframe on a malicious
/// site sends) is rejected; permissive CORS alone would not stop the
/// cross-site request.
pub fn origin_ok(origin: Option<&str>) -> (r: bool)
    ensures
        r == from_ui(origin),
{
    match origin {
        Some(o) => str_eq(o, "http://127.0.0.1:21580"),
        None => false,
    }
}

/// The default number of bookmarks a list request returns.
pub fn default_limit() -> (r: usize)
    ensures
        r == 50,
{
    50
}

/// The contents of `cloud.toml` that selecting a mode writes.
pub open spec fn mode_file_spec(mode: Seq<char>) -> Option<Seq<char>> {
    if mode == "local"@ {
        Some("mode = \"local\"\n"@)
    } else if mode == "cloud"@ {
        Some("mode = \"cloud\"\n"@)
    } else {
        None
    }
}

/// What a settings change does: from a foreign origin it is forbidden; a
/// mode other than `local` or `cloud` is a bad request; otherwise it writes
/// the returned contents to `cloud.toml` (cloud connection details are
/// built in, so the mode is all there is to record).
pub fn config_update(origin: Option<&str>, mode: &str) -> (r: Result<String, ErrorReply>)
    ensures
        !from_ui(origin) ==> (r matches Err(e) && e.status == 403 && e.error@ == "forbidden origin"@ && e.code is None),
        from_ui(origin) ==> match mode_file_spec(mode@) {
            Some(c) => r matches Ok(s) && s@ == c,
            None => r matches Err(e) && e.status == 400 && e.error@ == "mode must be \"local\" or \"cloud\""@,
        },
{
    if !origin_ok(origin) {
        return Err(forbidden_origin());
    }
    if str_eq(mode, "local") {
        Ok(String::from_str("mode = \"local\"\n"))
    } else if str_eq(mode, "cloud") {
        Ok(String::from_str("mode = \"cloud\"\n"))
    } else {
        Err(bad_request("mode must be \"local\" or \"cloud\""))
    }
}

/// What signing in needs before the auth server is asked: the UI's origin
/// and cloud mode.
pub fn login_check(origin: Option<&str>, cloud: bool) -> (r: Result<(), ErrorReply>)
    ensures
        r is Ok <==> (from_ui(origin) && cloud),
        !from_ui(origin) ==> (r matches Err(e) && e.status == 403 && e.error@ == "forbidden origin"@ && e.code is None),
        from_ui(origin) && !cloud ==> (r matches Err(e) && e.status == 400
            && e.error@ == "not in cloud mode — save cloud settings and restart first"@),
{
    if !origin_ok(origin) {
        return Err(forbidden_origin());
    }
    if !cloud {
        return Err(bad_request("not in cloud mode — save cloud settings and restart first"));
    }
    Ok(())
}

/// What a waitlist sign-up through the API needs: the UI's origin and a
/// valid email (see `validate_waitlist`).
pub fn waitlist_request(origin: Option<&str>, email: &str, pay_interest: Option<String>, note: Option<String>) -> (r: Result<WaitlistEntry, ErrorReply>)
    ensures
        r is Ok <==> (from_ui(origin) && email_ok(trim_spec(email@))),
        !from_ui(origin) ==> (r matches Err(e) && e.status == 403 && e.error@ == "forbidden origin"@ && e.code is None),
        from_ui(origin) && !email_ok(trim_spec(email@)) ==> (r matches Err(e)
            && e.status == 400 && e.error@ == "a valid email is required"@),
        r matches Ok(e) ==> entry_spec(email@, pay_interest, note, e),
{
    if !origin_ok(origin) {
        return Err(forbidden_origin());
    }
    match validate_waitlist(email, pay_interest, note) {
        Ok(entry) => Ok(entry),
        Err(m) => Err(bad_request(m.as_str())),
    }
}

/// The asset a request path serves: the path without leading slashes, or
/// `index.html` for the root.
pub open spec fn asset_path_spec(uri_path: Seq<char>) -> Seq<char> {
    if trim_start_char_spec(uri_path, '/').len() == 0 {
        "index.html"@
    } else {
        trim_start_char_spec(uri_path, '/')
    }
}

/// The asset a request path serves.
pub fn asset_path(uri_path: &str) -> (r: String)
    ensures
        r@ == asset_path_spec(uri_path@),
{
    let p = trim_start_char(uri_path, '/');
    if p.as_str().is_empty() {
        String::from_str("index.html")
    } else {
        p
    }
}

} // verus!
