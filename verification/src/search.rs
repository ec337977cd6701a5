//! The shape of a hybrid search: a dense and a sparse candidate search,
//! fused by reciprocal rank, optionally restricted to tags. Running it is
//! left to the caller.

use vstd::prelude::*;

use crate::models::copy_strings;

verus! {

/// The name of the dense (semantic) vector of every stored point.
pub open spec fn dense_vector_name() -> Seq<char> {
    "dense"@
}

/// The name of the sparse (keyword) vector of every stored point.
pub open spec fn sparse_vector_name() -> Seq<char> {
    "sparse"@
}

/// The size of the dense vectors (MultilingualE5-Small embeddings).
pub const DENSE_SIZE: u64 = 384;

/// The vectors a bookmark collection is created with: the dense vector of
/// `DENSE_SIZE` (compared by cosine) and the sparse vector (weighted by
/// inverse document frequency), under the names that saving and searching
/// use.
#[derive(Debug, Clone)]
pub struct CollectionSchema {
    pub dense_vector: String,
    pub dense_size: u64,
    pub sparse_vector: String,
}

/// The vectors of a bookmark collection.
pub fn collection_schema() -> (r: CollectionSchema)
    ensures
        r.dense_vector@ == dense_vector_name(),
        r.dense_size == DENSE_SIZE,
        r.sparse_vector@ == sparse_vector_name(),
{
    CollectionSchema {
        dense_vector: String::from_str("dense"),
        dense_size: DENSE_SIZE,
        sparse_vector: String::from_str("sparse"),
    }
}

/// How many candidates each of the dense and the sparse search contributes
/// before fusion.
pub const PREFETCH_LIMIT: u64 = 20;

/// How the candidates of the two searches are merged.
#[derive(Debug, Clone, Copy, PartialEq, Eq, Structural)]
pub enum FusionKind {
    /// Reciprocal rank fusion: each candidate scores by its ranks in the
    /// two lists.
    ReciprocalRank,
}

/// A hybrid search request.
#[derive(Debug, Clone)]
pub struct HybridSearchPlan {
    /// Name of the dense vector searched.
    pub dense_vector: String,
    /// Name of the sparse vector searched.
    pub sparse_vector: String,
    /// Candidates from each of the two searches.
    pub prefetch_limit: u64,
    /// How the two candidate lists are merged.
    pub fusion: FusionKind,
    /// Results after fusion.
    pub limit: u64,
    /// Whether the results carry their payloads (the bookmarks).
    pub with_payload: bool,
    /// Tags a result must match, if restricted.
    pub tags: Option<Vec<String>>,
}

/// The hybrid search for `limit` results, restricted to `tags` if given:
/// `PREFETCH_LIMIT` candidates each from the `dense` and `sparse` vectors,
/// fused by reciprocal rank, returned with their payloads.
pub fn hybrid_search_plan(limit: u64, tags: Option<&Vec<String>>) -> (r: HybridSearchPlan)
    ensures
        r.dense_vector@ == dense_vector_name(),
        r.sparse_vector@ == sparse_vector_name(),
        r.prefetch_limit == PREFETCH_LIMIT,
        r.fusion == FusionKind::ReciprocalRank,
        r.limit == limit,
        r.with_payload,
        match tags {
            Some(t) => r.tags matches Some(u) && u@ == t@,
            None => r.tags is None,
        },
{
    let tags = match tags {
        Some(t) => Some(copy_strings(t)),
        None => None,
    };
    HybridSearchPlan {
        dense_vector: String::from_str("dense"),
        sparse_vector: String::from_str("sparse"),
        prefetch_limit: PREFETCH_LIMIT,
        fusion: FusionKind::ReciprocalRank,
        limit,
        with_payload: true,
        tags,
    }
}

} // verus!
