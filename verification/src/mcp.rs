//! The AI-agent (MCP) tools: their parameters, how they become library
//! requests, and the text each tool answers with. Serving the protocol is
//! left to the caller.

use vstd::prelude::*;

use crate::error::{error_text, Error};
use crate::models::{Bookmark, BookmarkInput, SearchQuery};
use crate::text::str_eq;

verus! {

/// Parameters of `search_bookmarks`.
#[derive(Debug, Clone)]
pub struct SearchParams {
    /// Search query (supports semantic and keyword matching).
    pub query: String,
    /// Maximum number of results to return (default: 10).
    pub limit: Option<usize>,
    /// Filter results by tags.
    pub tags: Option<Vec<String>>,
}

/// Parameters of `list_bookmarks`.
#[derive(Debug, Clone)]
pub struct ListParams {
    /// Maximum number of bookmarks to return (default: 20).
    pub limit: Option<usize>,
    /// Bookmark ID to start after (for pagination).
    pub offset: Option<String>,
}

/// Parameters of `add_bookmark`.
#[derive(Debug, Clone)]
pub struct AddBookmarkParams {
    /// URL of the bookmark.
    pub url: String,
    /// Title of the bookmark.
    pub title: String,
    /// Page content or description.
    pub content: Option<String>,
    /// Tags for categorization.
    pub tags: Option<Vec<String>>,
}

/// Parameters of `delete_bookmark`.
#[derive(Debug, Clone)]
pub struct DeleteParams {
    /// Bookmark ID to delete.
    pub id: String,
}

impl SearchParams {
    /// The search the tool runs.
    pub fn into_query(self) -> (r: SearchQuery)
        ensures
            r.query == self.query,
            r.limit == self.limit,
            r.tags == self.tags,
    {
        SearchQuery { query: self.query, limit: self.limit, tags: self.tags }
    }
}

impl ListParams {
    /// How many bookmarks the tool lists: the given limit, or 20.
    pub fn effective_limit(&self) -> (r: usize)
        ensures
            r == (match self.limit {
                Some(l) => l,
                None => 20,
            }),
    {
        match self.limit {
            Some(l) => l,
            None => 20,
        }
    }
}

impl AddBookmarkParams {
    /// The bookmark the tool saves: missing content is empty.
    pub fn into_input(self) -> (r: BookmarkInput)
        ensures
            r.url == self.url,
            r.title == self.title,
            self.content matches Some(c) ==> r.content == c,
            self.content is None ==> r.content@ == Seq::<char>::empty(),
            r.tags == self.tags,
    {
        let content = match self.content {
            Some(c) => c,
            None => String::new(),
        };
        BookmarkInput { url: self.url, title: self.title, content, tags: self.tags }
    }
}

/// The bookmarks of `s` whose identifier is not `id`, in their order.
pub open spec fn without_id(s: Seq<Bookmark>, id: Seq<char>) -> Seq<Bookmark>
    decreases s.len(),
{
    if s.len() == 0 {
        Seq::empty()
    } else {
        (if s[0].id@ == id {
            Seq::empty()
        } else {
            seq![s[0]]
        }) + without_id(s.drop_first(), id)
    }
}

/// Leaving out a bookmark by identifier leaves no bookmark with that
/// identifier, and nothing that was not there.
pub proof fn law_without_id(s: Seq<Bookmark>, id: Seq<char>)
    ensures
        forall|i: int| 0 <= i < without_id(s, id).len() ==> (#[trigger] without_id(s, id)[i]).id@ != id,
        forall|i: int| 0 <= i < without_id(s, id).len() ==> s.contains(#[trigger] without_id(s, id)[i]),
        without_id(s, id).len() <= s.len(),
    decreases s.len(),
{
    if s.len() > 0 {
        let t = s.drop_first();
        law_without_id(t, id);
        let w = without_id(s, id);
        let wt = without_id(t, id);
        let head: Seq<Bookmark> = if s[0].id@ == id {
            Seq::empty()
        } else {
            seq![s[0]]
        };
        assert(w == head + wt);
        assert forall|i: int| 0 <= i < w.len() implies (#[trigger] w[i]).id@ != id && s.contains(w[i]) by {
            if i < head.len() {
                assert(w[i] == s[0]);
            } else {
                assert(w[i] == wt[i - head.len()]);
                let j = choose|j: int| 0 <= j < t.len() && t[j] == wt[i - head.len()];
                assert(s[j + 1] == t[j]);
            }
        }
    }
}

/// The page a listing from `offset` shows: a listing starts after the
/// offset's bookmark, so the bookmark with that identifier is left out and
/// the others keep their order.
pub fn after_offset(v: Vec<Bookmark>, offset: Option<&str>) -> (r: Vec<Bookmark>)
    ensures
        match offset {
            Some(o) => r@ == without_id(v@, o@) && forall|i: int| 0 <= i < r@.len() ==> (#[trigger] r@[i]).id@ != o@,
            None => r@ == v@,
        },
{
    let o = match offset {
        Some(o) => o,
        None => return v,
    };
    let ghost orig = v@;
    let mut src = v;
    let mut out: Vec<Bookmark> = Vec::new();
    while src.len() > 0
        invariant
            out@ + without_id(src@, o@) == without_id(orig, o@),
        decreases src.len(),
    {
        let ghost src0 = src@;
        let b = src.remove(0);
        assert(src@ == src0.drop_first());
        if str_eq(b.id.as_str(), o) {
            assert(without_id(src0, o@) == Seq::<Bookmark>::empty() + without_id(src@, o@));
            assert(out@ + without_id(src@, o@) =~= out@ + without_id(src0, o@));
        } else {
            let ghost out0 = out@;
            out.push(b);
            assert(without_id(src0, o@) == seq![b] + without_id(src@, o@));
            assert(out@ + without_id(src@, o@) =~= out0 + without_id(src0, o@));
        }
    }
    assert(without_id(src@, o@) =~= Seq::<Bookmark>::empty());
    assert(out@ =~= out@ + without_id(src@, o@));
    proof {
        law_without_id(orig, o@);
    }
    out
}

/// Whether bookmark `a` was created no earlier than bookmark `b`.
pub open spec fn not_older(a: Bookmark, b: Bookmark) -> bool {
    ||| a.created_at.spec_secs() > b.created_at.spec_secs()
    ||| (a.created_at.spec_secs() == b.created_at.spec_secs() && a.created_at.spec_nanos() >= b.created_at.spec_nanos())
}

/// Whether every bookmark of `s` was created no earlier than those after it.
pub open spec fn newest_first(s: Seq<Bookmark>) -> bool {
    forall|i: int, j: int| 0 <= i < j < s.len() ==> not_older(#[trigger] s[i], #[trigger] s[j])
}

fn is_not_older(a: &Bookmark, b: &Bookmark) -> (r: bool)
    ensures
        r == not_older(*a, *b),
{
    let sa = a.created_at.secs();
    let sb = b.created_at.secs();
    sa > sb || (sa == sb && a.created_at.nanos() >= b.created_at.nanos())
}

/// The bookmarks the listing tool shows: the same bookmarks, most recently
/// created first.
pub fn by_recency(v: Vec<Bookmark>) -> (r: Vec<Bookmark>)
    ensures
        r@.to_multiset() == v@.to_multiset(),
        newest_first(r@),
{
    let ghost orig = v@;
    let mut src = v;
    let mut out: Vec<Bookmark> = Vec::new();
    proof {
        vstd::seq_lib::to_multiset_len(out@);
        vstd::multiset::lemma_multiset_empty_len(out@.to_multiset());
    }
    while src.len() > 0
        invariant
            out@.to_multiset().add(src@.to_multiset()) == orig.to_multiset(),
            newest_first(out@),
        decreases src.len(),
    {
        let ghost src0 = src@;
        let ghost out0 = out@;
        let b = src.pop().unwrap();
        assert(src0 =~= src@.push(b));
        let mut p: usize = 0;
        while p < out.len() && !is_not_older(&b, &out[p])
            invariant
                p <= out.len(),
                out@ == out0,
                forall|k: int| 0 <= k < p ==> !not_older(b, #[trigger] out@[k]),
            decreases out.len() - p,
        {
            p += 1;
        }
        out.insert(p, b);
        proof {
            let o = out@;
            assert(o == out0.insert(p as int, b));
            assert forall|i: int, j: int| 0 <= i < j < o.len() implies not_older(#[trigger] o[i], #[trigger] o[j]) by {
                if j < p {
                    assert(o[i] == out0[i] && o[j] == out0[j]);
                } else if j == p {
                    assert(o[i] == out0[i]);
                    assert(!not_older(b, out0[i]));
                } else if i == p {
                    assert(o[j] == out0[j - 1]);
                    if p < out0.len() {
                        assert(not_older(b, out0[p as int]));
                        if j - 1 > p {
                            assert(not_older(out0[p as int], out0[j - 1]));
                        }
                    }
                } else if i < p {
                    assert(o[i] == out0[i] && o[j] == out0[j - 1]);
                } else {
                    assert(o[i] == out0[i - 1] && o[j] == out0[j - 1]);
                }
            }
            vstd::seq_lib::to_multiset_insert(out0, p as int, b);
            vstd::seq_lib::to_multiset_build(src@, b);
            assert(out@.to_multiset().add(src@.to_multiset()) =~= out0.to_multiset().add(src0.to_multiset()));
        }
    }
    proof {
        vstd::seq_lib::to_multiset_len(src@);
        vstd::multiset::lemma_multiset_empty_len(src@.to_multiset());
        assert(out@.to_multiset().add(src@.to_multiset()) =~= out@.to_multiset());
    }
    out
}

/// The answer to a listing tool: `empty_text` when there is nothing to show,
/// else the rendered results (or `Error: ...` when rendering failed).
pub fn listing_reply(is_empty: bool, empty_text: &str, rendered: Result<String, String>) -> (r: String)
    ensures
        is_empty ==> r@ == empty_text@,
        !is_empty ==> match rendered {
            Ok(s) => r@ == s@,
            Err(e) => r@ == "Error: "@ + e@,
        },
{
    if is_empty {
        return String::from_str(empty_text);
    }
    match rendered {
        Ok(s) => s,
        Err(e) => String::from_str("Error: ").concat(e.as_str()),
    }
}

/// The answer after saving: `Saved: {title} ({id})`.
pub fn saved_reply(b: &Bookmark) -> (r: String)
    ensures
        r@ == "Saved: "@ + b.title@ + " ("@ + b.id@ + ")"@,
{
    String::from_str("Saved: ").concat(b.title.as_str()).concat(" (").concat(b.id.as_str()).concat(")")
}

/// The answer after deleting: `Deleted: {id}`.
pub fn deleted_reply(id: &str) -> (r: String)
    ensures
        r@ == "Deleted: "@ + id@,
{
    String::from_str("Deleted: ").concat(id)
}

/// The answer when a tool failed: `Error: {error}`.
pub fn error_reply(e: &Error) -> (r: String)
    ensures
        r@ == "Error: "@ + error_text(*e),
{
    String::from_str("Error: ").concat(e.message().as_str())
}

/// The answer when the library could not be initialized.
pub fn init_failure(e: &Error) -> (r: String)
    ensures
        r@ == "Failed to initialize: "@ + error_text(*e),
{
    String::from_str("Failed to initialize: ").concat(e.message().as_str())
}

} // verus!
