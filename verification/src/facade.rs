//! The decisions of the GleanMark facade: which backend a configuration
//! selects and what a lookup answers. Embedding and storage calls are left
//! to the caller.

use vstd::prelude::*;

use crate::error::Error;
use crate::models::{copy_opt, joined_path, BackendMode, Bookmark, Config};

verus! {

/// The backend a configuration selects.
#[derive(Debug, Clone)]
pub enum BackendPlan {
    /// The bundled Qdrant at `qdrant_url`, with the bookmarks in `collection`.
    Local { qdrant_url: String, collection: String },
    /// The cloud gateway at `url`, reached with the session signed in at the
    /// auth server `supabase_url` (with key `anon_key`), kept in
    /// `session_path`; a configured static `token` is sent in its place.
    Gateway { url: String, supabase_url: String, anon_key: String, session_path: String, token: Option<String> },
}

/// Which backend a configuration selects: in cloud mode the gateway, which
/// needs a gateway URL, an auth server URL and its key (else an error naming
/// the first missing setting); otherwise the local Qdrant.
pub fn plan_backend(config: &Config) -> (r: Result<BackendPlan, Error>)
    ensures
        config.mode == BackendMode::Local ==> (r matches Ok(BackendPlan::Local { qdrant_url, collection })
            && qdrant_url == config.qdrant_url && collection == config.collection_name),
        config.mode == BackendMode::Cloud ==> match (config.gateway_url, config.supabase_url, config.supabase_anon_key) {
            (Some(u), Some(s), Some(k)) => r matches Ok(BackendPlan::Gateway { url, supabase_url, anon_key, session_path, token })
                && url == u && supabase_url == s && anon_key == k
                && session_path@ == joined_path(config.data_dir@, "session.json"@)
                && token == config.gateway_token,
            (None, _, _) => r matches Err(Error::Other(m)) && m@ == "cloud mode requires gateway_url in cloud.toml"@,
            (Some(_), None, _) => r matches Err(Error::Other(m)) && m@ == "cloud mode requires supabase_url in cloud.toml"@,
            (Some(_), Some(_), None) => r matches Err(Error::Other(m))
                && m@ == "cloud mode requires supabase_anon_key in cloud.toml"@,
        },
{
    if config.is_cloud() {
        let url = match copy_opt(&config.gateway_url) {
            Some(u) => u,
            None => return Err(Error::Other(String::from_str("cloud mode requires gateway_url in cloud.toml"))),
        };
        let supabase_url = match copy_opt(&config.supabase_url) {
            Some(u) => u,
            None => return Err(Error::Other(String::from_str("cloud mode requires supabase_url in cloud.toml"))),
        };
        let anon_key = match copy_opt(&config.supabase_anon_key) {
            Some(k) => k,
            None => return Err(Error::Other(String::from_str("cloud mode requires supabase_anon_key in cloud.toml"))),
        };
        Ok(BackendPlan::Gateway {
            url,
            supabase_url,
            anon_key,
            session_path: config.session_path(),
            token: copy_opt(&config.gateway_token),
        })
    } else {
        Ok(BackendPlan::Local { qdrant_url: config.qdrant_url.clone(), collection: config.collection_name.clone() })
    }
}

/// The answer to looking a bookmark up: the bookmark, or a not-found error
/// naming the identifier.
pub fn found_or_not_found(found: Option<Bookmark>, id: &str) -> (r: Result<Bookmark, Error>)
    ensures
        match found {
            Some(b) => r == Ok::<Bookmark, Error>(b),
            None => r matches Err(Error::NotFound(s)) && s@ == id@,
        },
{
    match found {
        Some(b) => Ok(b),
        None => Err(Error::NotFound(String::from_str(id))),
    }
}

/// The page size a list request asks the backend for (`limit as u32`, which
/// keeps the low 32 bits).
pub fn list_limit(limit: usize) -> (r: u32)
    ensures
        r == limit as u32,
{
    limit as u32
}

} // verus!
