//! The payload a bookmark is stored under in the vector store, and back.
//!
//! A stored point carries a payload: a map from field names to values. A
//! bookmark is written as the texts `url`, `title`, `content`, the list
//! `tags` and the RFC 3339 texts `created_at` and `updated_at`; the point's
//! identifier is the bookmark's identifier.

use vstd::prelude::*;

use crate::models::{Bookmark, BookmarkView};
use crate::text::{decimal, decimal_string, views};
use crate::time::{four_digit_year, law_text_reads_back, parsed_instant, Timestamp};

verus! {

/// An element of a list value: a text, or anything else.
#[derive(Debug, Clone)]
pub enum PayloadItem {
    Text(String),
    Other,
}

/// A payload value: a text, a list, or anything else.
#[derive(Debug, Clone)]
pub enum PayloadValue {
    Text(String),
    List(Vec<PayloadItem>),
    Other,
}

/// One field of a payload.
#[derive(Debug, Clone)]
pub struct PayloadEntry {
    pub key: String,
    pub value: PayloadValue,
}

/// A payload: its fields in order. Looking a name up finds its first field.
#[derive(Debug, Clone)]
pub struct Payload {
    pub entries: Vec<PayloadEntry>,
}

/// The identifier of a stored point.
#[derive(Debug, Clone)]
pub enum PointRef {
    Uuid(String),
    Num(u64),
    Missing,
}

/// A point read back from the store.
#[derive(Debug, Clone)]
pub struct StoredPoint {
    pub id: PointRef,
    pub payload: Payload,
}

/// The value of the first field named `key`.
pub open spec fn lookup(entries: Seq<PayloadEntry>, key: Seq<char>) -> Option<PayloadValue>
    decreases entries.len(),
{
    if entries.len() == 0 {
        None
    } else if entries[0].key@ == key {
        Some(entries[0].value)
    } else {
        lookup(entries.drop_first(), key)
    }
}

/// The text of the first field named `key`, when that field is a text.
pub open spec fn lookup_text(entries: Seq<PayloadEntry>, key: Seq<char>) -> Option<Seq<char>> {
    match lookup(entries, key) {
        Some(PayloadValue::Text(s)) => Some(s@),
        _ => None,
    }
}

/// The texts among list items, in order; other items are skipped.
pub open spec fn item_texts(items: Seq<PayloadItem>) -> Seq<Seq<char>>
    decreases items.len(),
{
    if items.len() == 0 {
        Seq::empty()
    } else {
        item_texts(items.drop_last()) + match items.last() {
            PayloadItem::Text(s) => seq![s@],
            PayloadItem::Other => Seq::empty(),
        }
    }
}

/// The tags read from a payload: the texts of the `tags` list, or none when
/// there is no such list.
pub open spec fn tags_of(entries: Seq<PayloadEntry>) -> Seq<Seq<char>> {
    match lookup(entries, "tags"@) {
        Some(PayloadValue::List(items)) => item_texts(items@),
        _ => Seq::empty(),
    }
}

/// A timestamp field read from a payload: the instant its RFC 3339 text
/// denotes, or `fallback` when the field is missing, not a text or invalid.
pub open spec fn instant_of(entries: Seq<PayloadEntry>, key: Seq<char>, fallback: Timestamp) -> Timestamp {
    match lookup_text(entries, key) {
        Some(s) => match parsed_instant(s) {
            Some(t) => t,
            None => fallback,
        },
        None => fallback,
    }
}

/// The bookmark that a payload decodes to under identifier `id`: present
/// exactly when `url`, `title` and `content` are texts; missing or invalid
/// timestamps become `now`.
pub open spec fn decode_spec(id: Seq<char>, entries: Seq<PayloadEntry>, now: Timestamp) -> Option<BookmarkView> {
    match (lookup_text(entries, "url"@), lookup_text(entries, "title"@), lookup_text(entries, "content"@)) {
        (Some(url), Some(title), Some(content)) => Some(BookmarkView {
            id,
            url,
            title,
            content,
            tags: tags_of(entries),
            created_at: instant_of(entries, "created_at"@, now),
            updated_at: instant_of(entries, "updated_at"@, now),
        }),
        _ => None,
    }
}

/// The payload fields a bookmark is written as, in order.
pub open spec fn encode_spec(b: BookmarkView) -> Seq<(Seq<char>, PayloadShape)> {
    seq![
        ("url"@, PayloadShape::Text(b.url)),
        ("title"@, PayloadShape::Text(b.title)),
        ("content"@, PayloadShape::Text(b.content)),
        ("tags"@, PayloadShape::TextList(b.tags)),
        ("created_at"@, PayloadShape::Text(b.created_at.text())),
        ("updated_at"@, PayloadShape::Text(b.updated_at.text())),
    ]
}

/// The abstract form of a payload value.
pub enum PayloadShape {
    Text(Seq<char>),
    TextList(Seq<Seq<char>>),
    Other,
}

/// Whether a list's items are exactly the given texts.
pub open spec fn items_are_texts(items: Seq<PayloadItem>, texts: Seq<Seq<char>>) -> bool {
    &&& items.len() == texts.len()
    &&& forall|i: int| 0 <= i < items.len() ==> (#[trigger] items[i] matches PayloadItem::Text(s) && s@ == texts[i])
}

/// The abstract form of a payload value.
pub open spec fn shape_of(v: PayloadValue) -> PayloadShape {
    match v {
        PayloadValue::Text(s) => PayloadShape::Text(s@),
        PayloadValue::List(items) => if forall|i: int| 0 <= i < items@.len() ==> #[trigger] items@[i] is Text {
            PayloadShape::TextList(item_texts(items@))
        } else {
            PayloadShape::Other
        },
        PayloadValue::Other => PayloadShape::Other,
    }
}

/// The abstract form of a payload: its names and value shapes, in order.
pub open spec fn payload_shape(entries: Seq<PayloadEntry>) -> Seq<(Seq<char>, PayloadShape)> {
    entries.map_values(|e: PayloadEntry| (e.key@, shape_of(e.value)))
}

proof fn lemma_item_texts_all(items: Seq<PayloadItem>, texts: Seq<Seq<char>>)
    requires
        items_are_texts(items, texts),
    ensures
        item_texts(items) == texts,
    decreases items.len(),
{
    if items.len() > 0 {
        let ip = items.drop_last();
        let tp = texts.drop_last();
        assert forall|i: int| 0 <= i < ip.len() implies (#[trigger] ip[i] matches PayloadItem::Text(s) && s@ == tp[i]) by {
            assert(ip[i] == items[i]);
        }
        lemma_item_texts_all(ip, tp);
        let k = items.len() - 1;
        assert(items[k] matches PayloadItem::Text(s) && s@ == texts[k]);
        assert(texts == tp.push(texts.last()));
    } else {
        assert(texts =~= Seq::<Seq<char>>::empty());
    }
}

/// The text items of a list of strings.
fn items_of(tags: &Vec<String>) -> (r: Vec<PayloadItem>)
    ensures
        items_are_texts(r@, views(tags@)),
{
    let mut r: Vec<PayloadItem> = Vec::new();
    let mut i: usize = 0;
    while i < tags.len()
        invariant
            i <= tags.len(),
            r@.len() == i,
            forall|k: int| 0 <= k < i ==> (#[trigger] r@[k] matches PayloadItem::Text(s) && s@ == tags@[k]@),
        decreases tags.len() - i,
    {
        r.push(PayloadItem::Text(tags[i].clone()));
        i += 1;
    }
    r
}

/// The texts of list items, in order.
fn texts_of(items: &Vec<PayloadItem>) -> (r: Vec<String>)
    ensures
        views(r@) == item_texts(items@),
{
    let mut r: Vec<String> = Vec::new();
    let mut i: usize = 0;
    while i < items.len()
        invariant
            i <= items.len(),
            views(r@) == item_texts(items@.take(i as int)),
        decreases items.len() - i,
    {
        proof {
            assert(items@.take(i + 1).drop_last() == items@.take(i as int));
            assert(items@.take(i + 1).last() == items@[i as int]);
        }
        match &items[i] {
            PayloadItem::Text(s) => {
                let ghost before = r@;
                r.push(s.clone());
                assert(views(r@) == views(before).push(s@));
                assert(views(before).push(s@) == views(before) + seq![s@]);
            },
            PayloadItem::Other => {
                assert(views(r@) == views(r@) + Seq::<Seq<char>>::empty());
            },
        }
        i += 1;
    }
    assert(items@.take(items.len() as int) == items@);
    r
}

fn entry(key: &str, value: PayloadValue) -> (r: PayloadEntry)
    ensures
        r.key@ == key@,
        r.value == value,
{
    PayloadEntry { key: String::from_str(key), value }
}

/// The value of the first field named `key`.
fn find<'a>(entries: &'a Vec<PayloadEntry>, key: &str) -> (r: Option<&'a PayloadValue>)
    ensures
        match r {
            Some(v) => lookup(entries@, key@) == Some(*v),
            None => lookup(entries@, key@) is None,
        },
{
    let key_s = String::from_str(key);
    let mut i: usize = 0;
    assert(entries@.skip(0) == entries@);
    while i < entries.len()
        invariant
            i <= entries.len(),
            key_s@ == key@,
            lookup(entries@, key@) == lookup(entries@.skip(i as int), key@),
        decreases entries.len() - i,
    {
        let ghost rest = entries@.skip(i as int);
        assert(rest[0] == entries@[i as int]);
        assert(rest.drop_first() == entries@.skip(i + 1));
        if entries[i].key == key_s {
            return Some(&entries[i].value);
        }
        i += 1;
    }
    assert(entries@.skip(i as int).len() == 0);
    None
}

/// The text of the first field named `key`, when it is a text.
fn find_text(entries: &Vec<PayloadEntry>, key: &str) -> (r: Option<String>)
    ensures
        match r {
            Some(s) => lookup_text(entries@, key@) == Some(s@),
            None => lookup_text(entries@, key@) is None,
        },
{
    match find(entries, key) {
        Some(PayloadValue::Text(s)) => Some(s.clone()),
        _ => None,
    }
}

fn find_instant(entries: &Vec<PayloadEntry>, key: &str, fallback: Timestamp) -> (r: Timestamp)
    ensures
        r == instant_of(entries@, key@, fallback),
{
    match find_text(entries, key) {
        Some(s) => match Timestamp::parse_rfc3339(s.as_str()) {
            Some(t) => t,
            None => fallback,
        },
        None => fallback,
    }
}

/// Decoding the payload a bookmark is written as gives the bookmark back:
/// the same identifier, address, title, content and tags, and each
/// timestamp as read back from its own RFC 3339 text, which is the timestamp
/// itself (`now` only if that text did not parse, which needs a year without
/// four digits). So a bookmark dated within years 0 to 9999 comes back whole.
pub proof fn law_payload_roundtrip(b: BookmarkView, entries: Seq<PayloadEntry>, now: Timestamp)
    requires
        payload_shape(entries) == encode_spec(b),
        b.created_at.has_text(),
        b.updated_at.has_text(),
    ensures
        decode_spec(b.id, entries, now) == Some(BookmarkView {
            created_at: match parsed_instant(b.created_at.text()) {
                Some(t) => t,
                None => now,
            },
            updated_at: match parsed_instant(b.updated_at.text()) {
                Some(t) => t,
                None => now,
            },
            ..b
        }),
        parsed_instant(b.created_at.text()) is Some ==> parsed_instant(b.created_at.text()) == Some(b.created_at),
        parsed_instant(b.updated_at.text()) is Some ==> parsed_instant(b.updated_at.text()) == Some(b.updated_at),
        four_digit_year(b.created_at.spec_secs()) && four_digit_year(b.updated_at.spec_secs())
            ==> decode_spec(b.id, entries, now) == Some(b),
{
    law_text_reads_back(b.created_at);
    law_text_reads_back(b.updated_at);
    reveal_strlit("url");
    reveal_strlit("title");
    reveal_strlit("content");
    reveal_strlit("tags");
    reveal_strlit("created_at");
    reveal_strlit("updated_at");
    let sh = payload_shape(entries);
    assert(entries.len() == 6) by {
        assert(sh.len() == 6);
    }
    assert forall|k: int| 0 <= k < 6 implies (#[trigger] entries[k]).key@ == sh[k].0 && shape_of(entries[k].value) == sh[k].1 by {
        assert(sh[k] == (entries[k].key@, shape_of(entries[k].value)));
    }
    let e1 = entries.drop_first();
    let e2 = e1.drop_first();
    let e3 = e2.drop_first();
    let e4 = e3.drop_first();
    let e5 = e4.drop_first();
    assert(e1[0] == entries[1]);
    assert(e2[0] == entries[2]);
    assert(e3[0] == entries[3]);
    assert(e4[0] == entries[4]);
    assert(e5[0] == entries[5]);
    assert(entries[0].value matches PayloadValue::Text(s) && s@ == b.url);
    assert(entries[1].value matches PayloadValue::Text(s) && s@ == b.title);
    assert(entries[2].value matches PayloadValue::Text(s) && s@ == b.content);
    assert(entries[4].value matches PayloadValue::Text(s) && s@ == b.created_at.text());
    assert(entries[5].value matches PayloadValue::Text(s) && s@ == b.updated_at.text());
    assert("url"@.len() == 3 && "title"@.len() == 5 && "content"@.len() == 7);
    assert("tags"@.len() == 4 && "created_at"@.len() == 10 && "updated_at"@.len() == 10);
    assert("created_at"@[0] != "updated_at"@[0]);
    assert(lookup(entries, "title"@) == lookup(e1, "title"@));
    assert(lookup(entries, "content"@) == lookup(e1, "content"@));
    assert(lookup(e1, "content"@) == lookup(e2, "content"@));
    assert(lookup(entries, "tags"@) == lookup(e1, "tags"@));
    assert(lookup(e1, "tags"@) == lookup(e2, "tags"@));
    assert(lookup(e2, "tags"@) == lookup(e3, "tags"@));
    assert(lookup(entries, "created_at"@) == lookup(e1, "created_at"@));
    assert(lookup(e1, "created_at"@) == lookup(e2, "created_at"@));
    assert(lookup(e2, "created_at"@) == lookup(e3, "created_at"@));
    assert(lookup(e3, "created_at"@) == lookup(e4, "created_at"@));
    assert(lookup(entries, "updated_at"@) == lookup(e1, "updated_at"@));
    assert(lookup(e1, "updated_at"@) == lookup(e2, "updated_at"@));
    assert(lookup(e2, "updated_at"@) == lookup(e3, "updated_at"@));
    assert(lookup(e3, "updated_at"@) == lookup(e4, "updated_at"@));
    assert(lookup(e4, "updated_at"@) == lookup(e5, "updated_at"@));
    assert(lookup_text(entries, "url"@) == Some(b.url));
    assert(lookup_text(entries, "title"@) == Some(b.title));
    assert(lookup_text(entries, "content"@) == Some(b.content));
    assert(lookup_text(entries, "created_at"@) == Some(b.created_at.text()));
    assert(lookup_text(entries, "updated_at"@) == Some(b.updated_at.text()));
    match entries[3].value {
        PayloadValue::List(items) => {
            assert(tags_of(entries) == b.tags);
        },
        _ => {
            assert(false);
        },
    }
}

impl Bookmark {
    /// The payload the bookmark is stored under.
    pub fn to_payload(&self) -> (r: Payload)
        ensures
            payload_shape(r.entries@) == encode_spec(self@),
    {
        let mut entries: Vec<PayloadEntry> = Vec::new();
        entries.push(entry("url", PayloadValue::Text(self.url.clone())));
        entries.push(entry("title", PayloadValue::Text(self.title.clone())));
        entries.push(entry("content", PayloadValue::Text(self.content.clone())));
        let items = items_of(&self.tags);
        proof {
            lemma_item_texts_all(items@, views(self.tags@));
        }
        entries.push(entry("tags", PayloadValue::List(items)));
        entries.push(entry("created_at", PayloadValue::Text(self.created_at.to_rfc3339())));
        entries.push(entry("updated_at", PayloadValue::Text(self.updated_at.to_rfc3339())));
        let r = Payload { entries };
        assert(payload_shape(r.entries@) =~= encode_spec(self@));
        r
    }

    /// The bookmark stored under identifier `id` with this payload, or `None`
    /// when `url`, `title` or `content` is missing or not a text. Missing tags
    /// are empty, non-text tags are skipped; a missing or invalid timestamp
    /// becomes `now`.
    pub fn from_payload_at(id: &str, payload: &Payload, now: Timestamp) -> (r: Option<Bookmark>)
        ensures
            match r {
                Some(b) => decode_spec(id@, payload.entries@, now) == Some(b@),
                None => decode_spec(id@, payload.entries@, now) is None,
            },
    {
        let entries = &payload.entries;
        let url = match find_text(entries, "url") {
            Some(s) => s,
            None => return None,
        };
        let title = match find_text(entries, "title") {
            Some(s) => s,
            None => return None,
        };
        let content = match find_text(entries, "content") {
            Some(s) => s,
            None => return None,
        };
        let tags = match find(entries, "tags") {
            Some(PayloadValue::List(items)) => texts_of(items),
            _ => Vec::new(),
        };
        let created_at = find_instant(entries, "created_at", now);
        let updated_at = find_instant(entries, "updated_at", now);
        let b = Bookmark {
            id: String::from_str(id),
            url,
            title,
            content,
            tags,
            created_at,
            updated_at,
        };
        assert(views(b.tags@) == tags_of(entries@));
        Some(b)
    }

    /// The bookmark stored under identifier `id` with this payload, with
    /// missing or invalid timestamps set to the current instant; `None` when
    /// `url`, `title` or `content` is missing or not a text.
    pub fn from_payload(id: &str, payload: &Payload) -> (r: Option<Bookmark>)
        ensures
            r is Some <==> (lookup_text(payload.entries@, "url"@) is Some
                && lookup_text(payload.entries@, "title"@) is Some
                && lookup_text(payload.entries@, "content"@) is Some),
            r matches Some(b) ==> exists|now: Timestamp| decode_spec(id@, payload.entries@, now) == Some(b@),
    {
        let now = Timestamp::now();
        Self::from_payload_at(id, payload, now)
    }
}

/// The text of a point identifier: a UUID as is, a number in decimal.
pub open spec fn point_id_text(id: PointRef) -> Option<Seq<char>> {
    match id {
        PointRef::Uuid(s) => Some(s@),
        PointRef::Num(n) => Some(decimal(n as nat)),
        PointRef::Missing => None,
    }
}

/// The text of a point identifier: a UUID as is, a number in decimal,
/// nothing when the point has no identifier.
pub fn point_id_to_string(id: &PointRef) -> (r: Option<String>)
    ensures
        match r {
            Some(s) => point_id_text(*id) == Some(s@),
            None => point_id_text(*id) is None,
        },
{
    match id {
        PointRef::Uuid(s) => Some(s.clone()),
        PointRef::Num(n) => Some(decimal_string(*n)),
        PointRef::Missing => None,
    }
}

/// The bookmark a stored point holds, if its identifier and payload decode.
pub open spec fn point_bookmark(p: StoredPoint, now: Timestamp) -> Option<BookmarkView> {
    match point_id_text(p.id) {
        Some(id) => decode_spec(id, p.payload.entries@, now),
        None => None,
    }
}

/// The points that decode, each with its position among `points`, in order.
pub open spec fn decoded_points(points: Seq<StoredPoint>, now: Timestamp) -> Seq<(int, BookmarkView)>
    decreases points.len(),
{
    if points.len() == 0 {
        Seq::empty()
    } else {
        decoded_points(points.drop_last(), now) + match point_bookmark(points.last(), now) {
            Some(b) => seq![(points.len() - 1, b)],
            None => Seq::empty(),
        }
    }
}

/// Decoding keeps the response's order: every decoded point names a position
/// inside the response, positions strictly increase, and the bookmark at a
/// position is the one that point holds.
pub proof fn law_decoded_positions(points: Seq<StoredPoint>, now: Timestamp)
    ensures
        forall|k: int| 0 <= k < decoded_points(points, now).len() ==> {
            let (i, b) = #[trigger] decoded_points(points, now)[k];
            0 <= i < points.len() && point_bookmark(points[i], now) == Some(b)
        },
        forall|k: int, l: int| 0 <= k < l < decoded_points(points, now).len() ==>
            (#[trigger] decoded_points(points, now)[k]).0 < (#[trigger] decoded_points(points, now)[l]).0,
    decreases points.len(),
{
    if points.len() > 0 {
        let rest = points.drop_last();
        law_decoded_positions(rest, now);
        let d0 = decoded_points(rest, now);
        let d = decoded_points(points, now);
        assert forall|k: int| 0 <= k < d0.len() implies (#[trigger] d0[k]).0 < points.len() - 1 && points[d0[k].0] == rest[d0[k].0] by {
            let (i, b) = d0[k];
            assert(0 <= i < rest.len());
        }
        assert forall|k: int| 0 <= k < d.len() implies {
            let (i, b) = #[trigger] d[k];
            0 <= i < points.len() && point_bookmark(points[i], now) == Some(b)
        } by {
            if k < d0.len() {
                assert(d[k] == d0[k]);
                let (i, b) = d0[k];
                assert(rest[i] == points[i]);
            }
        }
        assert forall|k: int, l: int| 0 <= k < l < d.len() implies (#[trigger] d[k]).0 < (#[trigger] d[l]).0 by {
            if l < d0.len() {
                assert(d[k] == d0[k] && d[l] == d0[l]);
            } else {
                assert(d[k] == d0[k]);
            }
        }
    }
}

/// A point that decoded: its position in the response and its bookmark.
#[derive(Debug, Clone)]
pub struct DecodedPoint {
    pub index: usize,
    pub bookmark: Bookmark,
}

/// The abstract form of decoded points.
pub open spec fn decoded_view(d: Seq<DecodedPoint>) -> Seq<(int, BookmarkView)> {
    d.map_values(|p: DecodedPoint| (p.index as int, p.bookmark@))
}

/// The bookmark a stored point holds, if its identifier and payload decode.
pub fn decode_point_at(p: &StoredPoint, now: Timestamp) -> (r: Option<Bookmark>)
    ensures
        match r {
            Some(b) => point_bookmark(*p, now) == Some(b@),
            None => point_bookmark(*p, now) is None,
        },
{
    match point_id_to_string(&p.id) {
        Some(id) => Bookmark::from_payload_at(id.as_str(), &p.payload, now),
        None => None,
    }
}

/// The points that decode, with their positions, in order; points without
/// an identifier or with an undecodable payload are skipped.
pub fn decode_points_at(points: &Vec<StoredPoint>, now: Timestamp) -> (r: Vec<DecodedPoint>)
    ensures
        decoded_view(r@) == decoded_points(points@, now),
{
    let mut r: Vec<DecodedPoint> = Vec::new();
    let mut i: usize = 0;
    while i < points.len()
        invariant
            i <= points.len(),
            decoded_view(r@) == decoded_points(points@.take(i as int), now),
        decreases points.len() - i,
    {
        proof {
            assert(points@.take(i + 1).drop_last() == points@.take(i as int));
            assert(points@.take(i + 1).last() == points@[i as int]);
        }
        match decode_point_at(&points[i], now) {
            Some(b) => {
                let ghost before = r@;
                r.push(DecodedPoint { index: i, bookmark: b });
                assert(decoded_view(r@) == decoded_view(before) + seq![(i as int, b@)]);
            },
            None => {
                assert(decoded_view(r@) == decoded_view(r@) + Seq::<(int, BookmarkView)>::empty());
            },
        }
        i += 1;
    }
    assert(points@.take(points.len() as int) == points@);
    r
}

/// The points of a store response that decode, with their positions, in
/// order, missing or invalid timestamps set to the current instant.
pub fn decode_points(points: &Vec<StoredPoint>) -> (r: Vec<DecodedPoint>)
    ensures
        exists|now: Timestamp| decoded_view(r@) == decoded_points(points@, now),
{
    let now = Timestamp::now();
    decode_points_at(points, now)
}

/// The bookmarks of decoded points, in order.
pub fn bookmarks_of(d: &Vec<DecodedPoint>) -> (r: Vec<Bookmark>)
    ensures
        r@.len() == d@.len(),
        forall|i: int| 0 <= i < d@.len() ==> (#[trigger] r@[i])@ == d@[i].bookmark@,
{
    let mut r: Vec<Bookmark> = Vec::new();
    let mut i: usize = 0;
    while i < d.len()
        invariant
            i <= d.len(),
            r@.len() == i,
            forall|k: int| 0 <= k < i ==> (#[trigger] r@[k])@ == d@[k].bookmark@,
        decreases d.len() - i,
    {
        r.push(d[i].bookmark.duplicate());
        i += 1;
    }
    r
}

/// The bookmark of the first point of a response, if that point decodes
/// (later points are not consulted).
pub fn decode_first_at(points: &Vec<StoredPoint>, now: Timestamp) -> (r: Option<Bookmark>)
    ensures
        match r {
            Some(b) => points@.len() > 0 && point_bookmark(points@[0], now) == Some(b@),
            None => points@.len() == 0 || point_bookmark(points@[0], now) is None,
        },
{
    if points.len() == 0 {
        None
    } else {
        decode_point_at(&points[0], now)
    }
}

} // verus!
