//! The cloud sign-in session: what is stored, what the settings screen
//! shows, when the access token must be refreshed, and what the auth
//! server's answers mean. Talking to the server and persisting the session
//! file are left to the caller.

use vstd::prelude::*;

use crate::error::Error;
use crate::http::{is_success, status_display, status_text, success, valid_status};
use crate::json::{json_str_field, json_string_field};
use crate::models::copy_opt;
use crate::text::{trim_end_char, trim_end_char_spec};
use crate::time::Timestamp;

verus! {

/// Refresh this many seconds before the access token actually expires, so a
/// request never races the expiry boundary.
pub const EXPIRY_SKEW_SECS: i64 = 60;

/// The session kept between runs: the rotating tokens and when the access
/// token expires (Unix seconds).
#[derive(Debug, Clone)]
pub struct StoredSession {
    pub refresh_token: String,
    pub access_token: String,
    pub expires_at: i64,
    pub email: Option<String>,
}

/// The redacted view of the session that the settings screen shows.
#[derive(Debug, Clone, PartialEq, Eq)]
pub struct SessionStatus {
    pub signed_in: bool,
    pub email: Option<String>,
}

/// The user object of a token answer.
#[derive(Debug, Clone)]
pub struct UserObject {
    pub email: Option<String>,
}

/// A successful answer of the token endpoint.
#[derive(Debug, Clone)]
pub struct TokenResponse {
    pub access_token: String,
    pub refresh_token: String,
    pub expires_in: i64,
    pub expires_at: Option<i64>,
    pub user: Option<UserObject>,
}

/// What getting a bearer token takes.
#[derive(Debug, Clone)]
pub enum BearerStep {
    /// Nobody is signed in.
    NotSignedIn(Error),
    /// The stored access token is still fresh.
    Cached(String),
    /// The access token is (nearly) expired: refresh it first.
    Refresh,
}

/// The session manager's state: where the auth server is, how to call it,
/// where the session is kept and the session itself (if signed in).
pub struct SessionManager {
    supabase_url: String,
    anon_key: String,
    session_path: String,
    state: Option<StoredSession>,
}

/// The status shown for a session state.
pub open spec fn status_spec(state: Option<StoredSession>) -> (bool, Option<Seq<char>>) {
    match state {
        Some(s) => (
            true,
            match s.email {
                Some(e) => Some(e@),
                None => None,
            },
        ),
        None => (false, None),
    }
}

/// Whether an access token that expires at `expires_at` is still fresh at
/// `now`: at least the skew before its expiry.
pub open spec fn fresh(now: i64, expires_at: i64) -> bool {
    now < expires_at - EXPIRY_SKEW_SECS
}

/// The error for a request that needs a session when nobody is signed in.
pub open spec fn not_signed_in_text() -> Seq<char> {
    "not signed in"@
}

/// The expiry recorded for a token answer received at `now`: the absolute
/// expiry if the server sent one, else `now` plus the lifetime.
pub open spec fn expiry_spec(t: TokenResponse, now: i64) -> int {
    match t.expires_at {
        Some(e) => e as int,
        None => now + t.expires_in,
    }
}

/// The message of an auth server error body: the first of the string fields
/// `error_description`, `msg`, `error`, `message` that is present.
pub open spec fn error_message_spec(body: Seq<char>) -> Option<Seq<char>> {
    if json_str_field(body, "error_description"@) is Some {
        json_str_field(body, "error_description"@)
    } else if json_str_field(body, "msg"@) is Some {
        json_str_field(body, "msg"@)
    } else if json_str_field(body, "error"@) is Some {
        json_str_field(body, "error"@)
    } else {
        json_str_field(body, "message"@)
    }
}

/// Error bodies of the auth server look like `{"error_description": "..."}`,
/// `{"msg": "..."}`, `{"error": "..."}` or `{"message": "..."}`; this pulls
/// whichever is present, in that order of preference.
pub fn extract_error_message(body: &str) -> (r: Option<String>)
    ensures
        match r {
            Some(s) => error_message_spec(body@) == Some(s@),
            None => error_message_spec(body@) is None,
        },
{
    if let Some(s) = json_string_field(body, "error_description") {
        return Some(s);
    }
    if let Some(s) = json_string_field(body, "msg") {
        return Some(s);
    }
    if let Some(s) = json_string_field(body, "error") {
        return Some(s);
    }
    json_string_field(body, "message")
}

/// The session that a token answer received at `now` establishes: its
/// tokens, the expiry of `expiry_spec` and the user's email.
pub open spec fn session_spec(t: TokenResponse, now: i64) -> StoredSession {
    StoredSession {
        refresh_token: t.refresh_token,
        access_token: t.access_token,
        expires_at: expiry_spec(t, now) as i64,
        email: match t.user {
            Some(u) => u.email,
            None => None,
        },
    }
}

/// Whether the expiry of a token answer received at `now` fits in `i64`
/// (always so when the server sent an absolute expiry).
pub open spec fn expiry_fits(t: TokenResponse, now: i64) -> bool {
    i64::MIN <= expiry_spec(t, now) <= i64::MAX
}

/// Whether `now` is a clock reading: the Unix seconds of an instant that
/// chrono can represent and write as RFC 3339 text.
pub open spec fn clock_reading(now: i64) -> bool {
    exists|t: Timestamp| t.has_text() && t.spec_secs() == now
}

/// What getting a bearer token at `now` takes for a session state: the
/// `not signed in` auth error when nobody is signed in, the stored access
/// token while it is fresh, else a refresh.
pub open spec fn bearer_outcome(state: Option<StoredSession>, now: i64, r: BearerStep) -> bool {
    match state {
        None => r matches BearerStep::NotSignedIn(e) && e matches Error::Auth(m) && m@ == not_signed_in_text(),
        Some(s) => if fresh(now, s.expires_at) {
            r == BearerStep::Cached(s.access_token)
        } else {
            r is Refresh
        },
    }
}

/// The error for a token request the server refused: the server's message,
/// or `HTTP {status}` when the body carries none.
pub open spec fn token_error_text(status: u16, body: Seq<char>) -> Seq<char> {
    match error_message_spec(body) {
        Some(m) => m,
        None => "HTTP "@ + status_text(status),
    }
}

/// What the status of a token answer means: `Ok` for 2xx (read the body as
/// a token answer), else an auth error with the server's message.
pub fn token_status(status: u16, body: &str) -> (r: Result<(), Error>)
    requires
        valid_status(status),
    ensures
        r is Ok <==> success(status),
        r matches Err(e) ==> e matches Error::Auth(m) && m@ == token_error_text(status, body@),
{
    if is_success(status) {
        return Ok(());
    }
    let msg = match extract_error_message(body) {
        Some(m) => m,
        None => String::from_str("HTTP ").concat(status_display(status).as_str()),
    };
    Err(Error::Auth(msg))
}

/// Whether the server refused a refresh because the refresh token is invalid
/// or revoked (400 or 401): the session is then dropped.
pub fn refresh_rejected(status: u16) -> (r: bool)
    ensures
        r == (status == 400 || status == 401),
{
    status == 400 || status == 401
}

/// The error after a refused refresh.
pub fn session_expired() -> (r: Error)
    ensures
        r matches Error::Auth(m) && m@ == "session expired, please sign in again"@,
{
    Error::Auth(String::from_str("session expired, please sign in again"))
}

/// The session that a token answer received at `now` establishes.
pub fn session_from_token_at(t: TokenResponse, now: i64) -> (r: StoredSession)
    requires
        t.expires_at is None ==> i64::MIN <= now + t.expires_in <= i64::MAX,
    ensures
        r == session_spec(t, now),
{
    let expires_at = match t.expires_at {
        Some(e) => e,
        None => now + t.expires_in,
    };
    let email = match t.user {
        Some(u) => u.email,
        None => None,
    };
    StoredSession {
        refresh_token: t.refresh_token,
        access_token: t.access_token,
        expires_at,
        email,
    }
}

/// The session that a token answer received now establishes (that of
/// `session_from_token_at` at the clock reading), or `None` when the answer
/// gives only a lifetime and that lifetime added to the clock reading
/// overflows.
pub fn session_from_token(t: TokenResponse) -> (r: Option<StoredSession>)
    ensures
        r is None ==> t.expires_at is None,
        t.expires_at is Some ==> r is Some,
        r is None ==> exists|now: i64| clock_reading(now) && !expiry_fits(t, now),
        r matches Some(s) ==> exists|now: i64| clock_reading(now) && expiry_fits(t, now) && s == session_spec(t, now),
{
    let now = now_secs();
    if t.expires_at.is_none() {
        match now.checked_add(t.expires_in) {
            Some(_) => {},
            None => {
                assert(clock_reading(now) && !expiry_fits(t, now));
                return None;
            },
        }
    }
    let s = session_from_token_at(t, now);
    assert(clock_reading(now) && expiry_fits(t, now) && s == session_spec(t, now));
    Some(s)
}

/// The current time in Unix seconds (clock-dependent): the whole seconds of
/// an instant that chrono can represent and write as RFC 3339 text.
pub fn now_secs() -> (r: i64)
    ensures
        clock_reading(r),
{
    let t = Timestamp::now();
    let r = t.secs();
    assert(t.has_text() && t.spec_secs() == r);
    r
}

impl SessionManager {
    /// A manager for the auth server at `supabase_url` (trailing slashes
    /// dropped), with the session loaded from `session_path` (if any).
    pub fn new(supabase_url: String, anon_key: String, session_path: String, loaded: Option<StoredSession>) -> (r: SessionManager)
        ensures
            r.supabase_url_spec() == trim_end_char_spec(supabase_url@, '/'),
            r.anon_key_spec() == anon_key@,
            r.session_path_spec() == session_path@,
            r.state() == loaded,
    {
        SessionManager {
            supabase_url: trim_end_char(supabase_url.as_str(), '/'),
            anon_key,
            session_path,
            state: loaded,
        }
    }

    /// The auth server's base URL.
    pub closed spec fn supabase_url_spec(&self) -> Seq<char> {
        self.supabase_url@
    }

    /// The public API key sent to the auth server.
    pub closed spec fn anon_key_spec(&self) -> Seq<char> {
        self.anon_key@
    }

    /// Where the session is kept.
    pub closed spec fn session_path_spec(&self) -> Seq<char> {
        self.session_path@
    }

    /// The current session, if signed in.
    pub closed spec fn state(&self) -> Option<StoredSession> {
        self.state
    }

    /// The public API key sent to the auth server.
    pub fn anon_key(&self) -> (r: &str)
        ensures
            r@ == self.anon_key_spec(),
    {
        self.anon_key.as_str()
    }

    /// Where the session is kept.
    pub fn session_path(&self) -> (r: &str)
        ensures
            r@ == self.session_path_spec(),
    {
        self.session_path.as_str()
    }

    /// The token endpoint for a grant type:
    /// `{supabase_url}/auth/v1/token?grant_type={grant_type}`.
    pub fn token_url(&self, grant_type: &str) -> (r: String)
        ensures
            r@ == self.supabase_url_spec() + "/auth/v1/token?grant_type="@ + grant_type@,
    {
        self.supabase_url.clone().concat("/auth/v1/token?grant_type=").concat(grant_type)
    }

    /// Whether someone is signed in, and their email.
    pub fn status(&self) -> (r: SessionStatus)
        ensures
            (r.signed_in, match r.email {
                Some(e) => Some(e@),
                None => None,
            }) == status_spec(self.state()),
    {
        match &self.state {
            Some(s) => SessionStatus { signed_in: true, email: copy_opt(&s.email) },
            None => SessionStatus { signed_in: false, email: None },
        }
    }

    /// What getting a bearer token at `now` takes: an error when nobody is
    /// signed in, the stored access token while it is fresh, else a refresh.
    pub fn bearer_at(&self, now: i64) -> (r: BearerStep)
        ensures
            bearer_outcome(self.state(), now, r),
    {
        match &self.state {
            None => BearerStep::NotSignedIn(Error::Auth(String::from_str("not signed in"))),
            Some(s) => {
                if (now as i128) < (s.expires_at as i128) - (EXPIRY_SKEW_SECS as i128) {
                    BearerStep::Cached(s.access_token.clone())
                } else {
                    BearerStep::Refresh
                }
            },
        }
    }

    /// What getting a bearer token now takes: that of `bearer_at` at the
    /// clock reading (the `not signed in` auth error when nobody is signed
    /// in, the stored access token while it is fresh, else a refresh).
    pub fn bearer(&self) -> (r: BearerStep)
        ensures
            exists|now: i64| clock_reading(now) && bearer_outcome(self.state(), now, r),
    {
        let now = now_secs();
        let r = self.bearer_at(now);
        assert(clock_reading(now) && bearer_outcome(self.state(), now, r));
        r
    }

    /// The refresh token to refresh with, or an error when nobody is signed in.
    pub fn refresh_token(&self) -> (r: Result<String, Error>)
        ensures
            match self.state() {
                Some(s) => r == Ok::<String, Error>(s.refresh_token),
                None => r matches Err(e) && e matches Error::Auth(m) && m@ == not_signed_in_text(),
            },
    {
        match &self.state {
            Some(s) => Ok(s.refresh_token.clone()),
            None => Err(Error::Auth(String::from_str("not signed in"))),
        }
    }

    /// Records a new session (after signing in or refreshing); it replaces
    /// any earlier one.
    pub fn store(&mut self, session: StoredSession)
        ensures
            final(self).state() == Some(session),
            final(self).supabase_url_spec() == old(self).supabase_url_spec(),
            final(self).anon_key_spec() == old(self).anon_key_spec(),
            final(self).session_path_spec() == old(self).session_path_spec(),
    {
        self.state = Some(session);
    }

    /// What a refused refresh means: when the auth server refused it because
    /// the refresh token is invalid or revoked (400 or 401), the session is
    /// dropped and the error is "session expired"; any other status changes
    /// nothing here (the answer is then read as a token answer).
    pub fn refresh_refused(&mut self, status: u16) -> (r: Option<Error>)
        ensures
            (status == 400 || status == 401) ==> final(self).state() is None,
            (status == 400 || status == 401) ==> (r matches Some(Error::Auth(m))
                && m@ == "session expired, please sign in again"@),
            !(status == 400 || status == 401) ==> (final(self).state() == old(self).state() && r is None),
            final(self).supabase_url_spec() == old(self).supabase_url_spec(),
            final(self).anon_key_spec() == old(self).anon_key_spec(),
            final(self).session_path_spec() == old(self).session_path_spec(),
    {
        if refresh_rejected(status) {
            self.logout();
            Some(session_expired())
        } else {
            None
        }
    }

    /// Drops the session (signing out).
    pub fn logout(&mut self)
        ensures
            final(self).state() is None,
            final(self).supabase_url_spec() == old(self).supabase_url_spec(),
            final(self).anon_key_spec() == old(self).anon_key_spec(),
            final(self).session_path_spec() == old(self).session_path_spec(),
    {
        self.state = None;
    }
}

/// A stored access token is used only while fresh, and freshness only ends:
/// at any reading at or after the skew before expiry (so also after expiry)
/// a signed-in session must be refreshed; before it the stored token is
/// sent; and once a refresh is due at one reading it is due at every later
/// one.
pub proof fn law_expired_tokens_are_refreshed(s: StoredSession, now: i64, later: i64, r: BearerStep, r_later: BearerStep)
    requires
        bearer_outcome(Some(s), now, r),
        bearer_outcome(Some(s), later, r_later),
    ensures
        now >= s.expires_at - EXPIRY_SKEW_SECS ==> r is Refresh,
        now >= s.expires_at ==> r is Refresh,
        now < s.expires_at - EXPIRY_SKEW_SECS ==> r == BearerStep::Cached(s.access_token),
        now <= later && r is Refresh ==> r_later is Refresh,
{
}

/// A session made from a token answer that gives only a lifetime expires
/// that lifetime after the reading it was received at; if the lifetime is
/// longer than the skew, its access token is used as is at that reading,
/// and it must be refreshed from the skew before its expiry on.
pub proof fn law_new_session_expires_after_its_lifetime(t: TokenResponse, now: i64, later: i64, r: BearerStep, r_later: BearerStep)
    requires
        t.expires_at is None,
        expiry_fits(t, now),
        bearer_outcome(Some(session_spec(t, now)), now, r),
        bearer_outcome(Some(session_spec(t, now)), later, r_later),
    ensures
        session_spec(t, now).expires_at - now == t.expires_in,
        session_spec(t, now).access_token == t.access_token,
        t.expires_in > EXPIRY_SKEW_SECS ==> r == BearerStep::Cached(t.access_token),
        later >= now + t.expires_in - EXPIRY_SKEW_SECS ==> r_later is Refresh,
{
}

/// Storing a session signs its user in (the status shows them, with that
/// session's email); signing out leaves nobody signed in and no email.
pub proof fn law_status_follows_session(s: StoredSession)
    ensures
        status_spec(Some(s)) == (true, match s.email {
            Some(e) => Some(e@),
            None => None::<Seq<char>>,
        }),
        status_spec(None) == (false, None::<Seq<char>>),
{
}

} // verus!
