use gleanmark::models::Bookmark;
use gleanmark::payload::{
    bookmarks_of, decode_first_at, decode_points_at, point_id_to_string, Payload, PayloadEntry,
    PayloadItem, PayloadValue, PointRef, StoredPoint,
};
use gleanmark::time::Timestamp;

fn ts(secs: i64) -> Timestamp {
    Timestamp::from_parts(secs, 0).unwrap()
}

fn sample() -> Bookmark {
    Bookmark {
        id: "0b9f3c1e-6c1f-4a4e-9a0e-2f3b1c8d9e7a".into(),
        url: "https://example.com/a".into(),
        title: "Great Article".into(),
        content: "about rust".into(),
        tags: vec!["rust".into(), "programming".into()],
        created_at: ts(1431648000),
        updated_at: ts(1431648060),
    }
}

fn text(key: &str, v: &str) -> PayloadEntry {
    PayloadEntry { key: key.into(), value: PayloadValue::Text(v.into()) }
}

#[test]
fn payload_has_the_six_fields() {
    let p = sample().to_payload();
    let keys: Vec<&str> = p.entries.iter().map(|e| e.key.as_str()).collect();
    assert_eq!(keys, vec!["url", "title", "content", "tags", "created_at", "updated_at"]);
    match &p.entries[4].value {
        PayloadValue::Text(s) => assert_eq!(s, "2015-05-15T00:00:00+00:00"),
        _ => panic!("created_at is not a text"),
    }
}

#[test]
fn payload_round_trips() {
    let b = sample();
    let now = ts(0);
    let back = Bookmark::from_payload_at(&b.id, &b.to_payload(), now).unwrap();
    assert_eq!(back.id, b.id);
    assert_eq!(back.url, b.url);
    assert_eq!(back.title, b.title);
    assert_eq!(back.content, b.content);
    assert_eq!(back.tags, b.tags);
    assert_eq!(back.created_at, b.created_at);
    assert_eq!(back.updated_at, b.updated_at);
}

#[test]
fn missing_text_fields_give_nothing() {
    let p = Payload { entries: vec![text("url", "u"), text("title", "t")] };
    assert!(Bookmark::from_payload_at("id", &p, ts(0)).is_none());
    let p = Payload {
        entries: vec![
            text("url", "u"),
            PayloadEntry { key: "title".into(), value: PayloadValue::Other },
            text("content", "c"),
        ],
    };
    assert!(Bookmark::from_payload("id", &p).is_none());
}

#[test]
fn defaults_for_tags_and_timestamps() {
    let now = ts(1700000000);
    let p = Payload {
        entries: vec![
            text("url", "u"),
            text("title", "t"),
            text("content", "c"),
            PayloadEntry {
                key: "tags".into(),
                value: PayloadValue::List(vec![
                    PayloadItem::Text("a".into()),
                    PayloadItem::Other,
                    PayloadItem::Text("b".into()),
                ]),
            },
            text("created_at", "not a date"),
            text("updated_at", "2024-01-01T08:00:00+08:00"),
        ],
    };
    let b = Bookmark::from_payload_at("id", &p, now).unwrap();
    assert_eq!(b.tags, vec!["a".to_string(), "b".to_string()]);
    assert_eq!(b.created_at, now);
    assert_eq!(b.updated_at.secs(), 1704067200);
    let p = Payload { entries: vec![text("url", "u"), text("title", "t"), text("content", "c")] };
    let b = Bookmark::from_payload_at("id", &p, now).unwrap();
    assert!(b.tags.is_empty());
    assert_eq!(b.updated_at, now);
}

#[test]
fn first_field_of_a_name_wins() {
    let p = Payload {
        entries: vec![text("url", "first"), text("url", "second"), text("title", "t"), text("content", "c")],
    };
    assert_eq!(Bookmark::from_payload_at("id", &p, ts(0)).unwrap().url, "first");
}

#[test]
fn point_identifiers() {
    assert_eq!(point_id_to_string(&PointRef::Uuid("abc".into())), Some("abc".to_string()));
    assert_eq!(point_id_to_string(&PointRef::Num(42)), Some("42".to_string()));
    assert_eq!(point_id_to_string(&PointRef::Missing), None);
}

#[test]
fn decoding_points_keeps_positions_and_order() {
    let good = sample().to_payload();
    let points = vec![
        StoredPoint { id: PointRef::Missing, payload: good.clone() },
        StoredPoint { id: PointRef::Uuid("x".into()), payload: good.clone() },
        StoredPoint { id: PointRef::Num(7), payload: Payload { entries: vec![] } },
        StoredPoint { id: PointRef::Num(9), payload: good },
    ];
    let d = decode_points_at(&points, ts(0));
    let idx: Vec<usize> = d.iter().map(|p| p.index).collect();
    assert_eq!(idx, vec![1, 3]);
    let bs = bookmarks_of(&d);
    assert_eq!(bs[0].id, "x");
    assert_eq!(bs[1].id, "9");
    assert!(decode_first_at(&points, ts(0)).is_none());
    assert_eq!(decode_first_at(&points[1..].to_vec(), ts(0)).unwrap().id, "x");
    assert!(decode_first_at(&Vec::new(), ts(0)).is_none());
}
