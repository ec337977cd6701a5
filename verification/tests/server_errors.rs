use gleanmark::api::{error_reply, ErrorReply};
use gleanmark::error::Error;

#[test]
fn quota_exceeded_maps_to_402_with_code() {
    let err = Error::QuotaExceeded {
        message: "Monthly bookmark limit reached (30/30). Upgrade your plan to save more.".into(),
        used: Some(30),
        limit: Some(30),
    };
    let resp: ErrorReply = error_reply(&err);
    assert_eq!(resp.status, 402);
    assert_eq!(resp.code.as_deref(), Some("quota_exceeded"));
    assert!(resp.error.contains("Monthly"));
}

#[test]
fn other_errors_stay_500_without_code() {
    let err = Error::Gateway("boom".into());
    let resp = error_reply(&err);
    assert_eq!(resp.status, 500);
    assert!(resp.code.is_none());
}

#[test]
fn not_found_maps_to_404() {
    let resp = error_reply(&Error::NotFound("abc".into()));
    assert_eq!(resp.status, 404);
    assert_eq!(resp.error, "Bookmark not found: abc");
    assert!(resp.code.is_none());
}

#[test]
fn every_error_has_its_text() {
    assert_eq!(Error::Qdrant("x".into()).message(), "Qdrant error: x");
    assert_eq!(Error::Embedding("x".into()).message(), "Embedding error: x");
    assert_eq!(Error::Io("x".into()).message(), "IO error: x");
    assert_eq!(Error::Json("x".into()).message(), "JSON error: x");
    assert_eq!(Error::Join("x".into()).message(), "Join error: x");
    assert_eq!(Error::NotFound("x".into()).message(), "Bookmark not found: x");
    assert_eq!(Error::Gateway("x".into()).message(), "Gateway error: x");
    assert_eq!(
        Error::QuotaExceeded { message: "limit".into(), used: None, limit: None }.message(),
        "limit"
    );
    assert_eq!(Error::Auth("x".into()).message(), "Auth error: x");
    assert_eq!(Error::Other("x".into()).message(), "x");
}
