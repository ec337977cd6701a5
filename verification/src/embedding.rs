//! The texts handed to the embedding models: the E5 prefixes for the dense
//! model and the jieba word segmentation for the sparse model.

use vstd::prelude::*;

use opencc_jieba_rs::OpenCC;

use crate::text::{all_white, is_blank, join, join_spec, views};

verus! {

#[verifier::external_type_specification]
#[verifier::external_body]
pub struct ExOpenCC(OpenCC);

/// The words that jieba's accurate mode (without HMM) cuts `text` into, with
/// the dictionaries bundled with `opencc_jieba_rs`.
pub uninterp spec fn jieba_words(text: Seq<char>) -> Seq<Seq<char>>;

/// `OpenCC::jieba_cut(text, false)`: the words of `text` in order, as cut with
/// the bundled dictionaries (every `Segmenter` holds an `OpenCC::new()`).
#[verifier::external_body]
fn jieba_cut(opencc: &OpenCC, text: &str) -> (r: Vec<String>)
    ensures
        views(r@) == jieba_words(text@),
{
    opencc.jieba_cut(text, false)
}

/// `OpenCC::new`: loads the bundled conversion and segmentation dictionaries.
#[verifier::external_body]
fn new_opencc() -> (r: OpenCC) {
    OpenCC::new()
}

/// A word segmenter for Chinese (and any other) text.
pub struct Segmenter {
    opencc: OpenCC,
}

/// The words of `words` that are not entirely white space, in order.
pub open spec fn non_blank(words: Seq<Seq<char>>) -> Seq<Seq<char>>
    decreases words.len(),
{
    if words.len() == 0 {
        Seq::empty()
    } else {
        non_blank(words.drop_last()) + if all_white(words.last()) {
            Seq::empty()
        } else {
            seq![words.last()]
        }
    }
}

/// The text handed to the sparse model for `text`: its jieba words that are
/// not blank, joined by single spaces.
pub open spec fn sparse_text_spec(text: Seq<char>) -> Seq<char> {
    join_spec(non_blank(jieba_words(text)), " "@)
}

impl Segmenter {
    /// A segmenter with the bundled dictionaries.
    pub fn new() -> (r: Segmenter) {
        Segmenter { opencc: new_opencc() }
    }
}

/// Segments Chinese text with jieba and rejoins the words with spaces;
/// blank words are dropped. Non-Chinese text passes through with minimal
/// impact.
pub fn segment_for_sparse(segmenter: &Segmenter, text: &str) -> (r: String)
    ensures
        r@ == sparse_text_spec(text@),
{
    let words = jieba_cut(&segmenter.opencc, text);
    let mut kept: Vec<String> = Vec::new();
    let mut i: usize = 0;
    while i < words.len()
        invariant
            i <= words.len(),
            views(kept@) == non_blank(views(words@).take(i as int)),
        decreases words.len() - i,
    {
        let ghost ws = views(words@);
        proof {
            assert(ws.take(i + 1).drop_last() == ws.take(i as int));
            assert(ws.take(i + 1).last() == words@[i as int]@);
        }
        if is_blank(words[i].as_str()) {
            assert(views(kept@) == views(kept@) + Seq::<Seq<char>>::empty());
        } else {
            let ghost before = kept@;
            kept.push(words[i].clone());
            assert(views(kept@) == views(before) + seq![words@[i as int]@]);
        }
        i += 1;
    }
    assert(views(words@).take(words.len() as int) == views(words@));
    join(&kept, " ")
}

/// The dense-model text for indexing a passage: `"passage: "` and the text.
pub fn passage_text(text: &str) -> (r: String)
    ensures
        r@ == "passage: "@ + text@,
{
    String::from_str("passage: ").concat(text)
}

/// The dense-model text for a search query: `"query: "` and the text.
pub fn query_text(text: &str) -> (r: String)
    ensures
        r@ == "query: "@ + text@,
{
    String::from_str("query: ").concat(text)
}

} // verus!
