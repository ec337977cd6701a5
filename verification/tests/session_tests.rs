use gleanmark::error::Error;
use gleanmark::session::{
    extract_error_message, refresh_rejected, session_expired, session_from_token, session_from_token_at,
    token_status, BearerStep, SessionManager, StoredSession, TokenResponse, UserObject,
};

fn manager(state: Option<StoredSession>) -> SessionManager {
    SessionManager::new("https://abc.supabase.co/".into(), "anon".into(), "/tmp/session.json".into(), state)
}

fn session(expires_at: i64) -> StoredSession {
    StoredSession {
        refresh_token: "r1".into(),
        access_token: "a1".into(),
        expires_at,
        email: Some("me@example.com".into()),
    }
}

#[test]
fn token_urls() {
    let m = manager(None);
    assert_eq!(m.token_url("password"), "https://abc.supabase.co/auth/v1/token?grant_type=password");
    assert_eq!(m.anon_key(), "anon");
    assert_eq!(m.session_path(), "/tmp/session.json");
}

#[test]
fn status_follows_sign_in_and_out() {
    let mut m = manager(None);
    let s = m.status();
    assert!(!s.signed_in && s.email.is_none());
    m.store(session(i64::MAX));
    assert!(matches!(m.bearer(), BearerStep::Cached(ref t) if t == "a1"));
    m.store(session(100));
    assert!(matches!(m.bearer(), BearerStep::Refresh));
    let s = m.status();
    assert!(s.signed_in);
    assert_eq!(s.email.as_deref(), Some("me@example.com"));
    assert!(m.refresh_refused(500).is_none());
    assert!(m.status().signed_in);
    let e = m.refresh_refused(401).unwrap();
    assert_eq!(e, Error::Auth("session expired, please sign in again".into()));
    assert!(!m.status().signed_in);
    m.store(session(100));
    m.logout();
    assert!(!m.status().signed_in);
    assert!(matches!(m.bearer(), BearerStep::NotSignedIn(Error::Auth(ref msg)) if msg == "not signed in"));
    assert!(matches!(m.refresh_token(), Err(Error::Auth(_))));
}

#[test]
fn bearer_refreshes_a_minute_before_expiry() {
    let m = manager(Some(session(1000)));
    assert!(matches!(m.bearer_at(939), BearerStep::Cached(ref t) if t == "a1"));
    assert!(matches!(m.bearer_at(940), BearerStep::Refresh));
    assert!(matches!(m.bearer_at(5000), BearerStep::Refresh));
    assert_eq!(m.refresh_token().unwrap(), "r1");
    let far = manager(Some(session(i64::MIN)));
    assert!(matches!(far.bearer_at(i64::MIN), BearerStep::Refresh));
}

#[test]
fn error_messages_of_the_auth_server() {
    assert_eq!(extract_error_message(r#"{"error_description":"bad creds","msg":"m"}"#).as_deref(), Some("bad creds"));
    assert_eq!(extract_error_message(r#"{"msg":"m","error":"e"}"#).as_deref(), Some("m"));
    assert_eq!(extract_error_message(r#"{"error":"e"}"#).as_deref(), Some("e"));
    assert_eq!(extract_error_message(r#"{"message":"x"}"#).as_deref(), Some("x"));
    assert_eq!(extract_error_message(r#"{"error":3}"#), None);
    assert_eq!(extract_error_message("not json"), None);
}

#[test]
fn token_answers() {
    assert!(token_status(200, "").is_ok());
    assert_eq!(token_status(400, r#"{"msg":"Invalid login"}"#), Err(Error::Auth("Invalid login".into())));
    assert_eq!(token_status(500, "oops"), Err(Error::Auth("HTTP 500 Internal Server Error".into())));
    assert!(refresh_rejected(400) && refresh_rejected(401) && !refresh_rejected(500));
    assert_eq!(session_expired(), Error::Auth("session expired, please sign in again".into()));
}

#[test]
fn sessions_from_token_answers() {
    let t = TokenResponse {
        access_token: "a".into(),
        refresh_token: "r".into(),
        expires_in: 3600,
        expires_at: None,
        user: Some(UserObject { email: Some("e@x".into()) }),
    };
    let s = session_from_token_at(t.clone(), 1000);
    assert_eq!(s.expires_at, 4600);
    assert_eq!(s.email.as_deref(), Some("e@x"));
    let s = session_from_token_at(TokenResponse { expires_at: Some(7), user: None, ..t.clone() }, 1000);
    assert_eq!(s.expires_at, 7);
    assert!(s.email.is_none());
    assert!(session_from_token(t.clone()).is_some());
    assert!(session_from_token(TokenResponse { expires_in: i64::MAX, ..t }).is_none());
}
