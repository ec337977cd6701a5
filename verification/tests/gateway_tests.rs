use gleanmark::backend::{ensure_ok, get_found, GatewayBackend};
use gleanmark::error::Error;
use gleanmark::http::{is_success, status_display};

#[test]
fn urls_on_the_gateway() {
    let g = GatewayBackend::new("https://gw.example.app//".into(), "tok".into());
    assert_eq!(g.url("/x"), "https://gw.example.app/x");
    assert_eq!(g.bookmarks_url(), "https://gw.example.app/v1/bookmarks");
    assert_eq!(g.search_url(), "https://gw.example.app/v1/search");
    assert_eq!(g.bookmark_url("abc"), "https://gw.example.app/v1/bookmarks/abc");
    assert_eq!(g.token(), "tok");
}

#[test]
fn list_queries() {
    let q = GatewayBackend::list_query(100, None);
    assert_eq!(q, vec![("limit".to_string(), "100".to_string())]);
    let q = GatewayBackend::list_query(5, Some("id9".into()));
    assert_eq!(q[1], ("offset".to_string(), "id9".to_string()));
}

#[test]
fn status_texts() {
    assert_eq!(status_display(404), "404 Not Found");
    assert_eq!(status_display(200), "200 OK");
    assert_eq!(status_display(599), "599 <unknown status code>");
    assert!(is_success(204) && !is_success(301));
}

#[test]
fn responses() {
    assert!(ensure_ok(201, "").is_ok());
    assert_eq!(ensure_ok(500, "boom"), Err(Error::Gateway("HTTP 500 Internal Server Error: boom".into())));
    assert_eq!(get_found(404, ""), Ok(false));
    assert_eq!(get_found(200, "{}"), Ok(true));
    assert_eq!(get_found(401, "no"), Err(Error::Gateway("HTTP 401 Unauthorized: no".into())));
}

#[test]
fn plan_limit_refusals() {
    let body = r#"{"code": "quota_exceeded", "message": "Monthly bookmark limit reached (30/30). Upgrade your plan to save more.", "used": 30, "limit": 30}"#;
    let e = ensure_ok(402, body).unwrap_err();
    assert_eq!(
        e,
        Error::QuotaExceeded {
            message: "Monthly bookmark limit reached (30/30). Upgrade your plan to save more.".into(),
            used: Some(30),
            limit: Some(30),
        }
    );
    assert_eq!(e.message(), "Monthly bookmark limit reached (30/30). Upgrade your plan to save more.");
    assert_eq!(
        ensure_ok(402, r#"{"code": "quota_exceeded", "message": "limit"}"#),
        Err(Error::QuotaExceeded { message: "limit".into(), used: None, limit: None })
    );
    assert_eq!(
        ensure_ok(402, r#"{"code": "other", "message": "m"}"#),
        Err(Error::Gateway(r#"HTTP 402 Payment Required: {"code": "other", "message": "m"}"#.into()))
    );
    assert_eq!(ensure_ok(402, "nope"), Err(Error::Gateway("HTTP 402 Payment Required: nope".into())));
    assert_eq!(
        ensure_ok(403, r#"{"code": "quota_exceeded", "message": "m"}"#),
        Err(Error::Gateway(r#"HTTP 403 Forbidden: {"code": "quota_exceeded", "message": "m"}"#.into()))
    );
}
