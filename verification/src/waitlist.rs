//! The cloud-interest waitlist: what a sign-up must contain, where it is
//! sent, and what the answer means. Sending it is left to the caller.

use vstd::prelude::*;

use crate::error::Error;
use crate::http::{is_success, status_display, status_text, success, valid_status};
use crate::text::{contains_char, trim, trim_end_char, trim_end_char_spec, trim_spec, utf8_len, utf8_len_at_least};

verus! {

/// A checked waitlist sign-up.
#[derive(Debug, Clone)]
pub struct WaitlistEntry {
    pub email: String,
    pub pay_interest: String,
    pub note: Option<String>,
}

/// Whether a (trimmed) email is acceptable: it contains `@` and is at least
/// three bytes long.
pub open spec fn email_ok(email: Seq<char>) -> bool {
    email.contains('@') && utf8_len(email) >= 3
}

/// The entry a valid sign-up records: the trimmed email, the pay interest
/// (`unknown` when missing) and the trimmed note, dropped when empty.
pub open spec fn entry_spec(email: Seq<char>, pay_interest: Option<String>, note: Option<String>, e: WaitlistEntry) -> bool {
    &&& e.email@ == trim_spec(email)
    &&& e.pay_interest@ == (match pay_interest {
        Some(p) => p@,
        None => "unknown"@,
    })
    &&& (e.note is Some <==> (note is Some && trim_spec(note->Some_0@).len() > 0))
    &&& (e.note matches Some(n) ==> n@ == trim_spec(note->Some_0@))
}

/// Checks a sign-up: the email is trimmed and must contain `@` and be at
/// least three bytes long; a missing pay interest is `unknown`; the note is
/// trimmed and dropped when empty. The error is the reason shown to the user.
pub fn validate_waitlist(email: &str, pay_interest: Option<String>, note: Option<String>) -> (r: Result<WaitlistEntry, String>)
    ensures
        r is Ok <==> email_ok(trim_spec(email@)),
        r matches Err(m) ==> m@ == "a valid email is required"@,
        r matches Ok(e) ==> entry_spec(email@, pay_interest, note, e),
{
    let e = trim(email);
    let s = e.as_str();
    if !contains_char(s, '@') || !utf8_len_at_least(s, 3) {
        return Err(String::from_str("a valid email is required"));
    }
    let pay = match pay_interest {
        Some(p) => p,
        None => String::from_str("unknown"),
    };
    let note = match note {
        Some(n) => {
            let t = trim(n.as_str());
            if t.as_str().is_empty() {
                None
            } else {
                Some(t)
            }
        },
        None => None,
    };
    Ok(WaitlistEntry { email: e, pay_interest: pay, note })
}

/// The waitlist table's REST endpoint at the auth server:
/// `{supabase_url without trailing slashes}/rest/v1/waitlist`.
pub fn waitlist_url(supabase_url: &str) -> (r: String)
    ensures
        r@ == trim_end_char_spec(supabase_url@, '/') + "/rest/v1/waitlist"@,
{
    trim_end_char(supabase_url, '/').concat("/rest/v1/waitlist")
}

/// What the answer to a sign-up means: success, and also 409 (the email is
/// already on the list); anything else is a gateway error with the status
/// and body.
pub fn waitlist_outcome(status: u16, body: &str) -> (r: Result<(), Error>)
    requires
        valid_status(status),
    ensures
        r is Ok <==> (success(status) || status == 409),
        r matches Err(e) ==> e matches Error::Gateway(m)
            && m@ == "waitlist submit failed: HTTP "@ + status_text(status) + ": "@ + body@,
{
    if is_success(status) || status == 409 {
        Ok(())
    } else {
        let m = String::from_str("waitlist submit failed: HTTP ");
        let m = m.concat(status_display(status).as_str()).concat(": ").concat(body);
        Err(Error::Gateway(m))
    }
}

} // verus!
