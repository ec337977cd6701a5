//! What the command-line tool builds from its arguments and prints.

use vstd::prelude::*;

use crate::models::{Bookmark, BookmarkInput};
use crate::text::{join, join_spec, views};

verus! {

/// The bookmark `add` saves: the title defaults to the URL, missing content
/// is empty.
pub fn add_input(url: String, title: Option<String>, content: Option<String>, tags: Option<Vec<String>>) -> (r: BookmarkInput)
    ensures
        r.url == url,
        r.title@ == (match title {
            Some(t) => t@,
            None => url@,
        }),
        r.content@ == (match content {
            Some(c) => c@,
            None => Seq::<char>::empty(),
        }),
        r.tags == tags,
{
    let title = match title {
        Some(t) => t,
        None => url.clone(),
    };
    let content = match content {
        Some(c) => c,
        None => String::new(),
    };
    BookmarkInput { url, title, content, tags }
}

/// The line `list` prints for a bookmark: `{id} — {title} ({url})`.
pub fn list_line(b: &Bookmark) -> (r: String)
    ensures
        r@ == b.id@ + " — "@ + b.title@ + " ("@ + b.url@ + ")"@,
{
    b.id.clone().concat(" — ").concat(b.title.as_str()).concat(" (").concat(b.url.as_str()).concat(")")
}

/// The line `search` prints under a result with tags: the tags joined by
/// commas, indented.
pub fn tags_line(tags: &Vec<String>) -> (r: String)
    ensures
        r@ == "       tags: "@ + join_spec(views(tags@), ", "@),
{
    String::from_str("       tags: ").concat(join(tags, ", ").as_str())
}

} // verus!
