use gleanmark::api::{asset_path, bad_request, config_update, default_limit, forbidden_origin, login_check, origin_ok, waitlist_request};
use gleanmark::error::Error;
use gleanmark::waitlist::{validate_waitlist, waitlist_outcome, waitlist_url};

const UI: Option<&str> = Some("http://127.0.0.1:21580");

#[test]
fn origins() {
    assert!(origin_ok(UI));
    assert!(!origin_ok(None));
    assert!(!origin_ok(Some("null")));
    assert!(!origin_ok(Some("http://127.0.0.1:21580/")));
    let f = forbidden_origin();
    assert_eq!((f.status, f.error.as_str()), (403, "forbidden origin"));
    assert_eq!(bad_request("why").status, 400);
}

#[test]
fn settings_changes() {
    assert_eq!(config_update(UI, "local").unwrap(), "mode = \"local\"\n");
    assert_eq!(config_update(UI, "cloud").unwrap(), "mode = \"cloud\"\n");
    let e = config_update(UI, "Cloud").unwrap_err();
    assert_eq!(e.status, 400);
    assert_eq!(e.error, "mode must be \"local\" or \"cloud\"");
    let e = config_update(Some("https://evil"), "local").unwrap_err();
    assert_eq!((e.status, e.error.as_str(), e.code), (403, "forbidden origin", None));
}

#[test]
fn sign_in_checks() {
    assert!(login_check(UI, true).is_ok());
    let e = login_check(None, true).unwrap_err();
    assert_eq!((e.status, e.error.as_str()), (403, "forbidden origin"));
    let e = login_check(UI, false).unwrap_err();
    assert_eq!(e.status, 400);
    assert_eq!(e.error, "not in cloud mode — save cloud settings and restart first");
}

#[test]
fn waitlist_sign_ups() {
    let e = validate_waitlist("  me@x.io ", None, Some("  hi ".into())).unwrap();
    assert_eq!(e.email, "me@x.io");
    assert_eq!(e.pay_interest, "unknown");
    assert_eq!(e.note.as_deref(), Some("hi"));
    let e = validate_waitlist("a@b", Some("yes".into()), Some("   ".into())).unwrap();
    assert_eq!(e.pay_interest, "yes");
    assert!(e.note.is_none());
    assert_eq!(validate_waitlist("ab", None, None).unwrap_err(), "a valid email is required");
    assert!(validate_waitlist(" @b ", None, None).is_err());
    assert!(waitlist_request(UI, "nope", None, None).unwrap_err().status == 400);
    let e = waitlist_request(None, "a@b.c", None, None).unwrap_err();
    assert_eq!((e.status, e.error.as_str()), (403, "forbidden origin"));
    assert!(waitlist_request(UI, "a@b.c", None, None).is_ok());
}

#[test]
fn waitlist_answers() {
    assert_eq!(waitlist_url("https://abc.supabase.co/"), "https://abc.supabase.co/rest/v1/waitlist");
    assert!(waitlist_outcome(201, "").is_ok());
    assert!(waitlist_outcome(409, "dup").is_ok());
    assert_eq!(
        waitlist_outcome(500, "x"),
        Err(Error::Gateway("waitlist submit failed: HTTP 500 Internal Server Error: x".into()))
    );
}

#[test]
fn assets_and_defaults() {
    assert_eq!(asset_path("/"), "index.html");
    assert_eq!(asset_path(""), "index.html");
    assert_eq!(asset_path("/app.js"), "app.js");
    assert_eq!(asset_path("//css/site.css"), "css/site.css");
    assert_eq!(default_limit(), 50);
}
