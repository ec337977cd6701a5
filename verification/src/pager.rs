//! Reading every bookmark page by page (for export and re-indexing): which
//! page to ask for next and what has been collected. Fetching the pages is
//! left to the caller.

use vstd::prelude::*;

use crate::models::Bookmark;
use crate::text::{decimal, decimal_string};

verus! {

/// How many bookmarks each page request asks for.
pub const BATCH_SIZE: u32 = 100;

/// The bookmarks of a sequence of pages, in order.
pub open spec fn flatten(pages: Seq<Seq<Bookmark>>) -> Seq<Bookmark>
    decreases pages.len(),
{
    if pages.len() == 0 {
        Seq::empty()
    } else {
        flatten(pages.drop_last()) + pages.last()
    }
}

/// The state of reading all bookmarks: what has been collected, the cursor
/// for the next page, and whether the last page has arrived.
pub struct PageCollector {
    all: Vec<Bookmark>,
    offset: Option<String>,
    done: bool,
    pages: Ghost<Seq<Seq<Bookmark>>>,
}

/// A page request: how many bookmarks, starting after which cursor.
pub struct PageRequest {
    pub limit: u32,
    pub offset: Option<String>,
}

impl PageCollector {
    /// Nothing collected yet; the first page starts at the beginning.
    pub fn new() -> (r: PageCollector)
        ensures
            r.pages() == Seq::<Seq<Bookmark>>::empty(),
            r.collected() == Seq::<Bookmark>::empty(),
            r.cursor() is None,
            !r.is_done(),
            r.wf(),
    {
        PageCollector { all: Vec::new(), offset: None, done: false, pages: Ghost(Seq::empty()) }
    }

    /// The pages received so far, in order.
    pub closed spec fn pages(&self) -> Seq<Seq<Bookmark>> {
        self.pages@
    }

    /// The bookmarks collected so far, in order.
    pub closed spec fn collected(&self) -> Seq<Bookmark> {
        self.all@
    }

    /// The cursor for the next page.
    pub closed spec fn cursor(&self) -> Option<String> {
        self.offset
    }

    /// Whether the last page has arrived.
    pub closed spec fn is_done(&self) -> bool {
        self.done
    }

    /// What has been collected is every page received, in order.
    pub closed spec fn wf(&self) -> bool {
        self.all@ == flatten(self.pages@)
    }

    /// The next page to ask for: `BATCH_SIZE` bookmarks after the cursor, or
    /// nothing once the last page has arrived.
    pub fn next_request(&self) -> (r: Option<PageRequest>)
        ensures
            self.is_done() ==> r is None,
            !self.is_done() ==> (r matches Some(q) && q.limit == BATCH_SIZE && q.offset == self.cursor()),
    {
        if self.done {
            None
        } else {
            let offset = match &self.offset {
                Some(o) => Some(o.clone()),
                None => None,
            };
            Some(PageRequest { limit: BATCH_SIZE, offset })
        }
    }

    /// Records a page and the cursor the store returned with it; a page
    /// without a cursor is the last.
    pub fn receive(&mut self, batch: Vec<Bookmark>, next: Option<String>)
        requires
            old(self).wf(),
            !old(self).is_done(),
        ensures
            final(self).wf(),
            final(self).pages() == old(self).pages().push(batch@),
            final(self).collected() == old(self).collected() + batch@,
            final(self).cursor() == next,
            final(self).is_done() == next is None,
    {
        let mut batch = batch;
        let ghost b = batch@;
        let ghost p0 = self.pages@;
        self.all.append(&mut batch);
        proof {
            self.pages@ = p0.push(b);
            assert(p0.push(b).drop_last() =~= p0);
        }
        self.done = next.is_none();
        self.offset = next;
    }

    /// Everything collected.
    pub fn finish(self) -> (r: Vec<Bookmark>)
        requires
            self.wf(),
        ensures
            r@ == flatten(self.pages()),
    {
        self.all
    }
}

/// Collecting pages gives exactly their bookmarks in order: adding a page
/// appends its bookmarks after those of the earlier pages.
pub proof fn law_collected_pages(pages: Seq<Seq<Bookmark>>, batch: Seq<Bookmark>)
    ensures
        flatten(pages.push(batch)) == flatten(pages) + batch,
        flatten(Seq::<Seq<Bookmark>>::empty()) == Seq::<Bookmark>::empty(),
{
    assert(pages.push(batch).drop_last() == pages);
}

/// The progress line printed while re-indexing the `i`-th (from zero) of
/// `total` bookmarks: `  [{i + 1}/{total}] {title}`.
pub fn progress_line(i: usize, total: usize, title: &str) -> (r: String)
    requires
        i < total,
    ensures
        r@ == "  ["@ + decimal((i + 1) as nat) + "/"@ + decimal(total as nat) + "] "@ + title@,
{
    let n = (i + 1) as u64;
    let s = String::from_str("  [");
    let s = s.concat(decimal_string(n).as_str());
    let s = s.concat("/");
    let s = s.concat(decimal_string(total as u64).as_str());
    let s = s.concat("] ");
    s.concat(title)
}

} // verus!
