use gleanmark::cli::{add_input, list_line, tags_line};
use gleanmark::desktop::{check_dialog, hide_progress_script, install_dialog, js_single_quoted, progress_script, splash_status_script, DialogKind, UpdateCheck};
use gleanmark::embedding::{passage_text, query_text, segment_for_sparse, Segmenter};
use gleanmark::error::Error;
use gleanmark::facade::{found_or_not_found, list_limit, plan_backend, BackendPlan};
use gleanmark::mcp::{after_offset, by_recency, deleted_reply, error_reply, init_failure, listing_reply, saved_reply, AddBookmarkParams, ListParams, SearchParams};
use gleanmark::models::{BackendMode, Bookmark, Config};
use gleanmark::pager::{progress_line, PageCollector, BATCH_SIZE};
use gleanmark::qdrant::{binary_candidates, binary_not_found, qdrant_binary_candidates, ReadyWatch, WaitStep, MAX_PROBES};
use gleanmark::search::{hybrid_search_plan, FusionKind, PREFETCH_LIMIT};
use gleanmark::time::Timestamp;

fn bm(id: &str) -> Bookmark {
    let t = Timestamp::from_parts(0, 0).unwrap();
    Bookmark { id: id.into(), url: "u".into(), title: "T".into(), content: "c".into(), tags: vec![], created_at: t, updated_at: t }
}

#[test]
fn collects_every_page() {
    let mut c = PageCollector::new();
    let r = c.next_request().unwrap();
    assert_eq!((r.limit, r.offset), (BATCH_SIZE, None));
    c.receive(vec![bm("1"), bm("2")], Some("2".into()));
    let r = c.next_request().unwrap();
    assert_eq!(r.offset.as_deref(), Some("2"));
    c.receive(vec![bm("3")], None);
    assert!(c.next_request().is_none());
    let all: Vec<String> = c.finish().into_iter().map(|b| b.id).collect();
    assert_eq!(all, vec!["1", "2", "3"]);
    assert_eq!(progress_line(0, 3, "T"), "  [1/3] T");
}

#[test]
fn waits_for_qdrant() {
    let mut w = ReadyWatch::new();
    assert!(matches!(w.observe(None, false), WaitStep::Retry { warn: false }));
    for _ in 1..10 {
        assert!(matches!(w.observe(None, false), WaitStep::Retry { warn: false }));
    }
    assert!(matches!(w.observe(None, false), WaitStep::Retry { warn: true }));
    for _ in 11..MAX_PROBES {
        assert!(!w.exhausted());
        w.observe(None, false);
    }
    assert!(w.exhausted());
    assert!(matches!(w.observe(None, true), WaitStep::GaveUp(Error::Other(ref m)) if m == "Qdrant failed to start within 15 seconds"));
    let mut w = ReadyWatch::new();
    assert!(matches!(w.observe(None, true), WaitStep::Ready));
    let mut w = ReadyWatch::new();
    assert!(matches!(w.observe(Some("exit status: 1".into()), true),
        WaitStep::Failed(Error::Other(ref m)) if m == "Qdrant process exited with status: exit status: 1"));
}

#[test]
fn where_qdrant_may_be() {
    let c = binary_candidates("/d/gleanmark", Some("/home/u".into()));
    assert_eq!(c, vec!["/d/gleanmark/bin/qdrant".to_string(), "/home/u/.local/share/gleanmark/bin/qdrant".to_string()]);
    assert_eq!(binary_candidates("/d", None).len(), 1);
    let here = qdrant_binary_candidates("/d");
    assert_eq!(here[0], "/d/bin/qdrant");
    assert!(here.len() <= 2);
    match binary_not_found("/d/bin/qdrant") {
        Error::Other(m) => assert!(m.starts_with("Qdrant binary not found. Place it in one of:\n- /d/bin/qdrant\n")),
        _ => panic!("wrong error"),
    }
}

#[test]
fn backend_selection() {
    let mut c = Config::with_data_root(None);
    assert!(matches!(plan_backend(&c), Ok(BackendPlan::Local { ref collection, .. }) if collection == "bookmarks"));
    c.mode = BackendMode::Cloud;
    assert_eq!(plan_backend(&c).unwrap_err(), Error::Other("cloud mode requires gateway_url in cloud.toml".into()));
    c.gateway_url = Some("https://gw".into());
    assert_eq!(plan_backend(&c).unwrap_err(), Error::Other("cloud mode requires supabase_url in cloud.toml".into()));
    c.supabase_url = Some("https://auth".into());
    assert_eq!(plan_backend(&c).unwrap_err(), Error::Other("cloud mode requires supabase_anon_key in cloud.toml".into()));
    c.supabase_anon_key = Some("k".into());
    match plan_backend(&c) {
        Ok(BackendPlan::Gateway { url, supabase_url, anon_key, session_path, token }) => {
            assert_eq!(url, "https://gw");
            assert_eq!(supabase_url, "https://auth");
            assert_eq!(anon_key, "k");
            assert_eq!(session_path, "./gleanmark/session.json");
            assert_eq!(token, None);
        }
        _ => panic!("expected the gateway"),
    }
    c.gateway_token = Some("t".into());
    assert!(matches!(plan_backend(&c), Ok(BackendPlan::Gateway { token: Some(ref t), .. }) if t == "t"));
    assert_eq!(found_or_not_found(None, "x").unwrap_err(), Error::NotFound("x".into()));
    assert_eq!(found_or_not_found(Some(bm("y")), "y").unwrap().id, "y");
    assert_eq!(list_limit(50), 50);
    assert_eq!(list_limit((1usize << 32) + 5), 5);
}

#[test]
fn tool_parameters_and_answers() {
    let q = SearchParams { query: "rust".into(), limit: None, tags: Some(vec!["a".into()]) }.into_query();
    assert_eq!(q.effective_limit(), 10);
    assert_eq!(ListParams { limit: None, offset: None }.effective_limit(), 20);
    assert_eq!(ListParams { limit: Some(3), offset: None }.effective_limit(), 3);
    let i = AddBookmarkParams { url: "u".into(), title: "t".into(), content: None, tags: None }.into_input();
    assert_eq!(i.content, "");
    assert_eq!(listing_reply(true, "No results found.", Ok("[]".into())), "No results found.");
    assert_eq!(listing_reply(false, "No bookmarks.", Ok("[1]".into())), "[1]");
    assert_eq!(listing_reply(false, "No bookmarks.", Err("bad".into())), "Error: bad");
    assert_eq!(saved_reply(&bm("id7")), "Saved: T (id7)");
    assert_eq!(deleted_reply("id7"), "Deleted: id7");
    assert_eq!(error_reply(&Error::Auth("no".into())), "Error: Auth error: no");
    assert_eq!(init_failure(&Error::Other("x".into())), "Failed to initialize: x");
}

#[test]
fn command_line_output() {
    let i = add_input("https://a".into(), None, None, None);
    assert_eq!(i.title, "https://a");
    assert_eq!(i.content, "");
    let i = add_input("https://a".into(), Some("A".into()), Some("c".into()), None);
    assert_eq!((i.title.as_str(), i.content.as_str()), ("A", "c"));
    let mut b = bm("id1");
    b.url = "https://a".into();
    assert_eq!(list_line(&b), "id1 — T (https://a)");
    assert_eq!(tags_line(&vec!["a".into(), "b".into()]), "       tags: a, b");
}

#[test]
fn desktop_scripts() {
    assert_eq!(js_single_quoted("it's"), "it\\'s");
    assert_eq!(splash_status_script("Starting Qdrant..."), "document.getElementById('status').textContent = 'Starting Qdrant...'");
    let s = progress_script(42, "1.0 MB / 2.0 MB");
    assert!(s.contains("style.width = '42%';"));
    assert!(s.contains("textContent = '42%';"));
    assert!(s.contains("textContent = '1.0 MB / 2.0 MB';"));
    assert!(hide_progress_script().contains("el.remove()"));
}

#[test]
fn update_dialogs() {
    let d = check_dialog(&UpdateCheck::Available("0.2.0".into()));
    assert_eq!(d.title, "GleanMark Update");
    assert_eq!(d.message, "Version 0.2.0 is available. Download and install?");
    assert_eq!(d.kind, DialogKind::Info);
    assert_eq!(d.buttons, Some(("Update".to_string(), "Later".to_string())));
    let d = check_dialog(&UpdateCheck::UpToDate);
    assert_eq!(d.message, "You're running the latest version.");
    assert_eq!(d.buttons, None);
    let d = check_dialog(&UpdateCheck::CheckError("offline".into()));
    assert_eq!(d.kind, DialogKind::Error);
    assert_eq!(d.message, "Check failed: offline");
    let d = check_dialog(&UpdateCheck::UpdaterError("no key".into()));
    assert_eq!(d.message, "Updater error: no key");
    let d = install_dialog(&Ok(()));
    assert_eq!(d.message, "Update installed successfully. Restart now?");
    assert_eq!(d.buttons, Some(("Restart".to_string(), "Later".to_string())));
    let d = install_dialog(&Err("disk full".into()));
    assert_eq!(d.kind, DialogKind::Error);
    assert_eq!(d.title, "GleanMark");
    assert_eq!(d.message, "Update failed: disk full");
}

#[test]
fn embedding_texts() {
    assert_eq!(passage_text("abc"), "passage: abc");
    assert_eq!(query_text("abc"), "query: abc");
    let seg = Segmenter::new();
    assert_eq!(segment_for_sparse(&seg, "hello world"), "hello world");
    let s = segment_for_sparse(&seg, "南京市长江大桥");
    assert!(s.split(' ').any(|w| w == "南京市"));
    assert!(!s.contains("  "));
    assert_eq!(segment_for_sparse(&seg, "   "), "");
}

#[test]
fn hybrid_search_shape() {
    let tags = vec!["rust".to_string()];
    let p = hybrid_search_plan(10, Some(&tags));
    assert_eq!((p.dense_vector.as_str(), p.sparse_vector.as_str()), ("dense", "sparse"));
    assert_eq!((p.prefetch_limit, p.limit), (PREFETCH_LIMIT, 10));
    assert_eq!(p.tags, Some(tags));
    assert_eq!(p.fusion, FusionKind::ReciprocalRank);
    assert!(p.with_payload);
    assert!(hybrid_search_plan(5, None).tags.is_none());
}

#[test]
fn listing_is_newest_first() {
    let at = |id: &str, secs: i64, nanos: u32| {
        let t = Timestamp::from_parts(secs, nanos).unwrap();
        Bookmark { created_at: t, updated_at: t, ..bm(id) }
    };
    let sorted = by_recency(vec![at("a", 100, 0), at("b", 300, 0), at("c", 100, 5), at("d", 200, 0)]);
    let ids: Vec<&str> = sorted.iter().map(|b| b.id.as_str()).collect();
    assert_eq!(ids, vec!["b", "d", "c", "a"]);
    assert!(by_recency(vec![]).is_empty());
}

#[test]
fn listing_starts_after_the_offset() {
    let page = after_offset(vec![bm("x"), bm("y"), bm("z")], Some("x"));
    let ids: Vec<&str> = page.iter().map(|b| b.id.as_str()).collect();
    assert_eq!(ids, vec!["y", "z"]);
    assert_eq!(after_offset(vec![bm("x"), bm("y")], None).len(), 2);
    assert_eq!(after_offset(vec![bm("y")], Some("x")).len(), 1);
}
