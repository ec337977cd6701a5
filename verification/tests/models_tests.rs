use gleanmark::models::{embed_text, expand_home, BackendMode, Bookmark, BookmarkInput, CloudFile, Config, HostedCloud, SearchQuery};
use gleanmark::time::Timestamp;

fn no_hosted() -> HostedCloud {
    HostedCloud { gateway_url: None, supabase_url: None, supabase_anon_key: None }
}

fn hosted() -> HostedCloud {
    HostedCloud {
        gateway_url: Some("https://gw.hosted".into()),
        supabase_url: Some("https://auth.hosted".into()),
        supabase_anon_key: Some("anon".into()),
    }
}

fn base() -> Config {
    Config::with_data_root(Some("/home/u/.local/share".to_string()))
}

#[test]
fn default_configuration() {
    let c = base();
    assert_eq!(c.mode, BackendMode::Local);
    assert_eq!(c.qdrant_url, "http://localhost:6334");
    assert_eq!(c.data_dir, "/home/u/.local/share/gleanmark");
    assert_eq!(c.collection_name, "bookmarks");
    assert!(c.gateway_url.is_none() && c.gateway_token.is_none());
    assert!(c.show_download_progress);
    assert_eq!(Config::with_data_root(None).data_dir, "./gleanmark");
    let d = Config::default();
    assert_eq!(d.mode, BackendMode::Local);
    assert!(d.data_dir.ends_with("gleanmark"));
    assert!(d.supabase_url.is_none() && d.supabase_anon_key.is_none());
}

#[test]
fn cloud_config_lives_in_the_data_dir() {
    assert_eq!(base().cloud_config_path(), "/home/u/.local/share/gleanmark/cloud.toml");
    assert_eq!(base().session_path(), "/home/u/.local/share/gleanmark/session.json");
}

#[test]
fn cloud_mode() {
    let mut c = base();
    assert!(!c.is_cloud());
    c.mode = BackendMode::Cloud;
    assert!(c.is_cloud());
    assert_eq!(BackendMode::Cloud.as_str(), "cloud");
    assert_eq!(BackendMode::Local.as_str(), "local");
}

#[test]
fn overlay_overrides_only_what_it_sets() {
    let file = CloudFile {
        mode: Some(BackendMode::Cloud),
        qdrant_url: None,
        gateway_url: Some("https://gw.example".into()),
        gateway_token: None,
        supabase_url: None,
        supabase_anon_key: None,
        collection_name: Some("mine".into()),
    };
    let c = Config::loaded(base(), Some(file), no_hosted());
    assert_eq!(c.mode, BackendMode::Cloud);
    assert_eq!(c.qdrant_url, "http://localhost:6334");
    assert_eq!(c.gateway_url.as_deref(), Some("https://gw.example"));
    assert!(c.gateway_token.is_none());
    assert_eq!(c.collection_name, "mine");
    assert_eq!(c.data_dir, "/home/u/.local/share/gleanmark");

    let empty = CloudFile {
        mode: None,
        qdrant_url: None,
        gateway_url: None,
        gateway_token: None,
        supabase_url: None,
        supabase_anon_key: None,
        collection_name: None,
    };
    let same = base().overlay(empty);
    assert_eq!(same.mode, BackendMode::Local);
    assert_eq!(same.collection_name, "bookmarks");
    let missing = Config::loaded(base(), None, hosted());
    assert_eq!(missing.qdrant_url, "http://localhost:6334");
    assert!(missing.gateway_url.is_none());
}

#[test]
fn cloud_mode_uses_the_hosted_connection() {
    let file = CloudFile {
        mode: Some(BackendMode::Cloud),
        qdrant_url: None,
        gateway_url: None,
        gateway_token: None,
        supabase_url: None,
        supabase_anon_key: Some("mine".into()),
        collection_name: None,
    };
    let c = Config::loaded(base(), Some(file), hosted());
    assert!(c.is_cloud());
    assert_eq!(c.gateway_url.as_deref(), Some("https://gw.hosted"));
    assert_eq!(c.supabase_url.as_deref(), Some("https://auth.hosted"));
    assert_eq!(c.supabase_anon_key.as_deref(), Some("mine"));
}

#[test]
fn home_is_expanded() {
    let home = Some("/home/u".to_string());
    assert_eq!(expand_home("~/gleanmark-export.json", home.clone()), "/home/u/gleanmark-export.json");
    assert_eq!(expand_home("~", home.clone()), "/home/u");
    assert_eq!(expand_home("/tmp/x.json", home.clone()), "/tmp/x.json");
    assert_eq!(expand_home("~user/x", home), "~user/x");
    assert_eq!(expand_home("~/x", None), "~/x");
}

#[test]
fn saving_an_input() {
    let now = Timestamp::from_parts(1700000000, 0).unwrap();
    let input = BookmarkInput { url: "https://x".into(), title: "T".into(), content: "C".into(), tags: None };
    let b = Bookmark::from_input_at(input.clone(), "id-1".into(), now);
    assert_eq!(b.id, "id-1");
    assert_eq!(b.url, "https://x");
    assert!(b.tags.is_empty());
    assert_eq!(b.created_at, now);
    assert_eq!(b.updated_at, now);
    let fresh = Bookmark::from_input(BookmarkInput { tags: Some(vec!["a".into()]), ..input });
    assert_eq!(fresh.tags, vec!["a".to_string()]);
    assert_eq!(fresh.id.len(), 36);
    for (i, c) in fresh.id.chars().enumerate() {
        if [8, 13, 18, 23].contains(&i) {
            assert_eq!(c, '-');
        } else {
            assert!(c.is_ascii_digit() || ('a'..='f').contains(&c));
        }
    }
    assert_eq!(fresh.id.chars().nth(14), Some('4'));
    assert!(matches!(fresh.id.chars().nth(19), Some('8' | '9' | 'a' | 'b')));
    let other = Bookmark::from_input(BookmarkInput { url: "u".into(), title: "t".into(), content: "c".into(), tags: None });
    assert_ne!(other.id, fresh.id);
    assert_eq!(fresh.created_at, fresh.updated_at);
    assert_eq!(embed_text(&"Title".to_string(), &"Body".to_string()), "Title Body");
    assert_eq!(fresh.duplicate().id, fresh.id);
}

#[test]
fn search_limit_defaults_to_ten() {
    let q = SearchQuery { query: "q".into(), limit: None, tags: None };
    assert_eq!(q.effective_limit(), 10);
    let q = SearchQuery { query: "q".into(), limit: Some(3), tags: None };
    assert_eq!(q.effective_limit(), 3);
}
