//! Bookmarks, queries and configuration.

use vstd::prelude::*;

use crate::text::{chars_of, string_of, views};
use crate::time::Timestamp;

verus! {

// ---------------------------------------------------------------------------
// Paths and the environment
// ---------------------------------------------------------------------------

/// The path that `std::path::Path::join` makes of `base` followed by `name`.
pub uninterp spec fn joined_path(base: Seq<char>, name: Seq<char>) -> Seq<char>;

/// `Path::new(base).join(name)` (std), rendered as text.
#[verifier::external_body]
pub(crate) fn path_join(base: &str, name: &str) -> (r: String)
    ensures
        r@ == joined_path(base@, name@),
{
    std::path::Path::new(base).join(name).to_string_lossy().into_owned()
}

/// `dirs::data_local_dir`: the user's local data directory, which depends on
/// the platform and the environment; nothing is promised of its value.
#[verifier::external_body]
fn data_local_dir() -> (r: Option<String>) {
    match dirs::data_local_dir() {
        Some(p) => Some(p.to_string_lossy().into_owned()),
        None => None,
    }
}

/// `dirs::home_dir`: the user's home directory, which depends on the
/// platform and the environment; nothing is promised of its value.
#[verifier::external_body]
pub(crate) fn home_dir() -> (r: Option<String>) {
    match dirs::home_dir() {
        Some(p) => Some(p.to_string_lossy().into_owned()),
        None => None,
    }
}

/// A path with a leading `~` expanded to the home directory `home`: `~`
/// alone is the home directory, `~/rest` is `rest` under it; any other path,
/// or any path when there is no home directory, is kept.
pub open spec fn expand_home_spec(path: Seq<char>, home: Option<Seq<char>>) -> Seq<char> {
    match home {
        Some(h) => if path == seq!['~'] {
            h
        } else if path.len() >= 2 && path[0] == '~' && path[1] == '/' {
            joined_path(h, path.skip(2))
        } else {
            path
        },
        None => path,
    }
}

/// `path` with a leading `~` expanded to the home directory `home`.
pub fn expand_home(path: &str, home: Option<String>) -> (r: String)
    ensures
        r@ == expand_home_spec(path@, match home {
            Some(h) => Some(h@),
            None => None,
        }),
{
    let h = match home {
        Some(h) => h,
        None => return String::from_str(path),
    };
    let cs = chars_of(path);
    if cs.len() == 1 && cs[0] == '~' {
        assert(path@ =~= seq!['~']);
        return h;
    }
    assert(cs.len() == 1 ==> path@ != seq!['~']);
    if cs.len() >= 2 && cs[0] == '~' && cs[1] == '/' {
        let mut rest: Vec<char> = Vec::new();
        let mut i: usize = 2;
        while i < cs.len()
            invariant
                2 <= i <= cs.len(),
                cs@ == path@,
                rest@ == cs@.subrange(2, i as int),
            decreases cs.len() - i,
        {
            rest.push(cs[i]);
            i += 1;
        }
        let rest_s = string_of(&rest);
        assert(rest_s@ == path@.skip(2));
        return path_join(h.as_str(), rest_s.as_str());
    }
    String::from_str(path)
}

/// `path` with a leading `~` expanded to the user's home directory, as the
/// platform reports it (import and export paths).
pub fn expand_tilde(path: &str) -> (r: String)
    ensures
        exists|home: Option<Seq<char>>| r@ == expand_home_spec(path@, home),
{
    let home = home_dir();
    let ghost hv = match &home {
        Some(h) => Some(h@),
        None => None::<Seq<char>>,
    };
    let r = expand_home(path, home);
    assert(r@ == expand_home_spec(path@, hv));
    r
}

/// Copies a list of strings.
pub fn copy_strings(v: &Vec<String>) -> (r: Vec<String>)
    ensures
        r@ == v@,
{
    let mut r: Vec<String> = Vec::new();
    let mut i: usize = 0;
    while i < v.len()
        invariant
            i <= v.len(),
            r@ == v@.take(i as int),
        decreases v.len() - i,
    {
        r.push(v[i].clone());
        assert(v@.take(i + 1) == v@.take(i as int).push(v@[i as int]));
        i += 1;
    }
    assert(v@.take(v.len() as int) == v@);
    r
}

/// Copies an optional string.
pub fn copy_opt(o: &Option<String>) -> (r: Option<String>)
    ensures
        r == *o,
{
    match o {
        Some(s) => Some(s.clone()),
        None => None,
    }
}

// ---------------------------------------------------------------------------
// Bookmarks
// ---------------------------------------------------------------------------

/// A saved bookmark: the page's address and text, its tags and when it was
/// created and last updated.
#[derive(Debug, Clone)]
pub struct Bookmark {
    pub id: String,
    pub url: String,
    pub title: String,
    pub content: String,
    pub tags: Vec<String>,
    pub created_at: Timestamp,
    pub updated_at: Timestamp,
}

/// The abstract value of a bookmark: its texts as character sequences.
pub struct BookmarkView {
    pub id: Seq<char>,
    pub url: Seq<char>,
    pub title: Seq<char>,
    pub content: Seq<char>,
    pub tags: Seq<Seq<char>>,
    pub created_at: Timestamp,
    pub updated_at: Timestamp,
}

impl View for Bookmark {
    type V = BookmarkView;

    open spec fn view(&self) -> BookmarkView {
        BookmarkView {
            id: self.id@,
            url: self.url@,
            title: self.title@,
            content: self.content@,
            tags: views(self.tags@),
            created_at: self.created_at,
            updated_at: self.updated_at,
        }
    }
}

/// What a user supplies to save a bookmark.
#[derive(Debug, Clone)]
pub struct BookmarkInput {
    pub url: String,
    pub title: String,
    pub content: String,
    pub tags: Option<Vec<String>>,
}

/// A search request: free text, an optional result limit and optional tags
/// that results must carry.
#[derive(Debug, Clone)]
pub struct SearchQuery {
    pub query: String,
    pub limit: Option<usize>,
    pub tags: Option<Vec<String>>,
}

/// The text that is embedded for a bookmark: its title, a space, its content.
pub open spec fn embed_text_spec(title: Seq<char>, content: Seq<char>) -> Seq<char> {
    title + " "@ + content
}

/// The text that is embedded for a bookmark with this title and content.
pub fn embed_text(title: &String, content: &String) -> (r: String)
    ensures
        r@ == embed_text_spec(title@, content@),
{
    let r = title.clone();
    let r = r.concat(" ");
    r.concat(content.as_str())
}

/// Whether `c` is a lowercase hexadecimal digit.
pub open spec fn lower_hex_digit(c: char) -> bool {
    (0x30 <= c as u32 <= 0x39) || (0x61 <= c as u32 <= 0x66)
}

/// Whether `s` is the text of a random (version 4) UUID: 36 characters,
/// hyphens at 8, 13, 18 and 23, lowercase hexadecimal digits elsewhere, the
/// version digit `4` at 14 and the variant digit `8`, `9`, `a` or `b` at 19.
pub open spec fn uuid_v4_text(s: Seq<char>) -> bool {
    &&& s.len() == 36
    &&& forall|i: int|
        0 <= i < 36 ==> if i == 8 || i == 13 || i == 18 || i == 23 {
            #[trigger] s[i] == '-'
        } else {
            lower_hex_digit(s[i])
        }
    &&& s[14] == '4'
    &&& (s[19] == '8' || s[19] == '9' || s[19] == 'a' || s[19] == 'b')
}

/// `uuid::Uuid::new_v4().to_string()`: a fresh random identifier. Which
/// one is chance; every outcome is a version 4 UUID in the hyphenated
/// lowercase form (`new_v4` sets the version and variant bits, `Display`
/// writes the hyphenated lowercase text).
#[verifier::external_body]
fn new_uuid() -> (r: String)
    ensures
        uuid_v4_text(r@),
{
    uuid::Uuid::new_v4().to_string()
}

impl Bookmark {
    /// A copy of the bookmark.
    pub fn duplicate(&self) -> (r: Bookmark)
        ensures
            r@ == self@,
    {
        Bookmark {
            id: self.id.clone(),
            url: self.url.clone(),
            title: self.title.clone(),
            content: self.content.clone(),
            tags: copy_strings(&self.tags),
            created_at: self.created_at,
            updated_at: self.updated_at,
        }
    }

    /// The bookmark that saving `input` creates, given its new identifier and
    /// the current instant: both timestamps are `now`, missing tags are empty.
    pub fn from_input_at(input: BookmarkInput, id: String, now: Timestamp) -> (r: Bookmark)
        ensures
            r.id == id,
            r.url == input.url,
            r.title == input.title,
            r.content == input.content,
            r.tags@ == (match input.tags {
                Some(t) => t@,
                None => Seq::empty(),
            }),
            r.created_at == now,
            r.updated_at == now,
    {
        let tags = match input.tags {
            Some(t) => t,
            None => Vec::new(),
        };
        Bookmark {
            id,
            url: input.url,
            title: input.title,
            content: input.content,
            tags,
            created_at: now,
            updated_at: now,
        }
    }

    /// The bookmark that saving `input` creates: a fresh random version 4
    /// UUID as identifier, both timestamps the current instant, missing tags
    /// empty.
    pub fn from_input(input: BookmarkInput) -> (r: Bookmark)
        ensures
            r.url == input.url,
            r.title == input.title,
            r.content == input.content,
            r.tags@ == (match input.tags {
                Some(t) => t@,
                None => Seq::empty(),
            }),
            uuid_v4_text(r.id@),
            r.created_at == r.updated_at,
            r.created_at.has_text(),
    {
        let id = new_uuid();
        let now = Timestamp::now();
        Self::from_input_at(input, id, now)
    }
}

impl SearchQuery {
    /// The number of results asked for: the given limit, or 10.
    pub fn effective_limit(&self) -> (r: u64)
        ensures
            r == (match self.limit {
                Some(l) => l as u64,
                None => 10u64,
            }),
    {
        match self.limit {
            Some(l) => l as u64,
            None => 10,
        }
    }
}

// ---------------------------------------------------------------------------
// Configuration
// ---------------------------------------------------------------------------

/// Where the vector store lives: a bundled local Qdrant, or the cloud gateway.
#[derive(Debug, Clone, Copy, PartialEq, Eq, Structural)]
pub enum BackendMode {
    Local,
    Cloud,
}

impl BackendMode {
    /// The lowercase name of the mode (`"local"` or `"cloud"`).
    pub fn as_str(&self) -> (r: &'static str)
        ensures
            r@ == (match *self {
                BackendMode::Local => "local"@,
                BackendMode::Cloud => "cloud"@,
            }),
    {
        match self {
            BackendMode::Local => "local",
            BackendMode::Cloud => "cloud",
        }
    }
}

/// Runtime configuration.
#[derive(Debug, Clone)]
pub struct Config {
    pub mode: BackendMode,
    /// Local Qdrant address (used in local mode only).
    pub qdrant_url: String,
    /// Cloud gateway base URL (cloud mode only).
    pub gateway_url: Option<String>,
    /// Bearer token sent to the gateway (cloud mode only); without one the
    /// signed-in session's access token is sent.
    pub gateway_token: Option<String>,
    /// Auth server base URL (cloud mode only).
    pub supabase_url: Option<String>,
    /// Public API key of the auth server (cloud mode only).
    pub supabase_anon_key: Option<String>,
    pub data_dir: String,
    pub collection_name: String,
    /// Show download progress for embedding models (off for MCP/stdio).
    pub show_download_progress: bool,
}

/// The optional overlay read from `{data_dir}/cloud.toml`: every field that is
/// present overrides the default; absent fields keep it.
#[derive(Debug, Clone)]
pub struct CloudFile {
    pub mode: Option<BackendMode>,
    pub qdrant_url: Option<String>,
    pub gateway_url: Option<String>,
    pub gateway_token: Option<String>,
    pub supabase_url: Option<String>,
    pub supabase_anon_key: Option<String>,
    pub collection_name: Option<String>,
}

/// The hosted cloud's connection details that the application is built
/// with: cloud mode uses them for every setting `cloud.toml` leaves out, so
/// selecting cloud mode needs no URL or key from the user.
#[derive(Debug, Clone)]
pub struct HostedCloud {
    pub gateway_url: Option<String>,
    pub supabase_url: Option<String>,
    pub supabase_anon_key: Option<String>,
}

/// The configuration that results from overlaying `file` on `base`.
pub open spec fn overlay_spec(base: Config, file: CloudFile) -> Config {
    Config {
        mode: match file.mode {
            Some(m) => m,
            None => base.mode,
        },
        qdrant_url: match file.qdrant_url {
            Some(u) => u,
            None => base.qdrant_url,
        },
        gateway_url: if file.gateway_url is Some {
            file.gateway_url
        } else {
            base.gateway_url
        },
        gateway_token: if file.gateway_token is Some {
            file.gateway_token
        } else {
            base.gateway_token
        },
        supabase_url: if file.supabase_url is Some {
            file.supabase_url
        } else {
            base.supabase_url
        },
        supabase_anon_key: if file.supabase_anon_key is Some {
            file.supabase_anon_key
        } else {
            base.supabase_anon_key
        },
        data_dir: base.data_dir,
        collection_name: match file.collection_name {
            Some(n) => n,
            None => base.collection_name,
        },
        show_download_progress: base.show_download_progress,
    }
}

/// A configuration in cloud mode with the hosted connection details filled
/// in where it has none; in local mode it is left as it is.
pub open spec fn hosted_spec(c: Config, hosted: HostedCloud) -> Config {
    if c.mode == BackendMode::Cloud {
        Config {
            gateway_url: if c.gateway_url is Some {
                c.gateway_url
            } else {
                hosted.gateway_url
            },
            supabase_url: if c.supabase_url is Some {
                c.supabase_url
            } else {
                hosted.supabase_url
            },
            supabase_anon_key: if c.supabase_anon_key is Some {
                c.supabase_anon_key
            } else {
                hosted.supabase_anon_key
            },
            ..c
        }
    } else {
        c
    }
}

/// The default configuration with its data directory under `root`
/// (`"."` when there is none): local mode, Qdrant at
/// `http://localhost:6334`, collection `bookmarks`, download progress shown.
pub open spec fn default_config_spec(root: Option<Seq<char>>, c: Config) -> bool {
    &&& c.mode == BackendMode::Local
    &&& c.qdrant_url@ == "http://localhost:6334"@
    &&& c.gateway_url is None
    &&& c.gateway_token is None
    &&& c.supabase_url is None
    &&& c.supabase_anon_key is None
    &&& c.data_dir@ == joined_path(
        match root {
            Some(r) => r,
            None => "."@,
        },
        "gleanmark"@,
    )
    &&& c.collection_name@ == "bookmarks"@
    &&& c.show_download_progress
}

impl Config {
    /// The default configuration with its data directory `{root}/gleanmark`,
    /// or `./gleanmark` when there is no root.
    pub fn with_data_root(root: Option<String>) -> (r: Config)
        ensures
            default_config_spec(
                match root {
                    Some(s) => Some(s@),
                    None => None,
                },
                r,
            ),
    {
        let base = match root {
            Some(s) => s,
            None => String::from_str("."),
        };
        let data_dir = path_join(base.as_str(), "gleanmark");
        Config {
            mode: BackendMode::Local,
            qdrant_url: String::from_str("http://localhost:6334"),
            gateway_url: None,
            gateway_token: None,
            supabase_url: None,
            supabase_anon_key: None,
            data_dir,
            collection_name: String::from_str("bookmarks"),
            show_download_progress: true,
        }
    }

    /// Whether the gateway (cloud) backend is selected.
    pub fn is_cloud(&self) -> (r: bool)
        ensures
            r == (self.mode == BackendMode::Cloud),
    {
        self.mode == BackendMode::Cloud
    }

    /// Path of the optional cloud-config overlay file, `{data_dir}/cloud.toml`.
    pub fn cloud_config_path(&self) -> (r: String)
        ensures
            r@ == joined_path(self.data_dir@, "cloud.toml"@),
    {
        path_join(self.data_dir.as_str(), "cloud.toml")
    }

    /// Path of the signed-in session's file, `{data_dir}/session.json`.
    pub fn session_path(&self) -> (r: String)
        ensures
            r@ == joined_path(self.data_dir@, "session.json"@),
    {
        path_join(self.data_dir.as_str(), "session.json")
    }

    /// This configuration with the fields present in `file` overridden.
    pub fn overlay(self, file: CloudFile) -> (r: Config)
        ensures
            r == overlay_spec(self, file),
    {
        let mut c = self;
        if let Some(mode) = file.mode {
            c.mode = mode;
        }
        if let Some(url) = file.qdrant_url {
            c.qdrant_url = url;
        }
        if file.gateway_url.is_some() {
            c.gateway_url = file.gateway_url;
        }
        if file.gateway_token.is_some() {
            c.gateway_token = file.gateway_token;
        }
        if file.supabase_url.is_some() {
            c.supabase_url = file.supabase_url;
        }
        if file.supabase_anon_key.is_some() {
            c.supabase_anon_key = file.supabase_anon_key;
        }
        if let Some(name) = file.collection_name {
            c.collection_name = name;
        }
        c
    }

    /// This configuration with the hosted connection details filled in where
    /// it has none, when it is in cloud mode.
    pub fn with_hosted(self, hosted: HostedCloud) -> (r: Config)
        ensures
            r == hosted_spec(self, hosted),
    {
        let mut c = self;
        if c.is_cloud() {
            if c.gateway_url.is_none() {
                c.gateway_url = hosted.gateway_url;
            }
            if c.supabase_url.is_none() {
                c.supabase_url = hosted.supabase_url;
            }
            if c.supabase_anon_key.is_none() {
                c.supabase_anon_key = hosted.supabase_anon_key;
            }
        }
        c
    }

    /// The configuration that loading gives: `base` with the overlay file
    /// applied when one was read and parsed, else `base` unchanged (a missing
    /// or malformed file leaves the defaults); then, in cloud mode, the
    /// hosted connection details for every setting still missing. Cloud mode
    /// has a gateway URL without one in `cloud.toml` only when `hosted`
    /// carries one: the application is given the hosted details by its
    /// build configuration (see the README), not by the library.
    pub fn loaded(base: Config, file: Option<CloudFile>, hosted: HostedCloud) -> (r: Config)
        ensures
            r == hosted_spec(
                match file {
                    Some(f) => overlay_spec(base, f),
                    None => base,
                },
                hosted,
            ),
    {
        let c = match file {
            Some(f) => base.overlay(f),
            None => base,
        };
        c.with_hosted(hosted)
    }
}

/// Selecting cloud mode needs no URL or key: when `cloud.toml` only sets the
/// mode to cloud, the loaded configuration is in cloud mode with the hosted
/// gateway, auth server and key; settings the file does give are kept.
pub proof fn law_cloud_mode_uses_hosted_defaults(base: Config, file: CloudFile, hosted: HostedCloud)
    requires
        base.gateway_url is None,
        base.supabase_url is None,
        base.supabase_anon_key is None,
    ensures
        file.mode == Some(BackendMode::Cloud) ==> {
            let c = hosted_spec(overlay_spec(base, file), hosted);
            &&& c.mode == BackendMode::Cloud
            &&& c.gateway_url == (if file.gateway_url is Some { file.gateway_url } else { hosted.gateway_url })
            &&& c.supabase_url == (if file.supabase_url is Some { file.supabase_url } else { hosted.supabase_url })
            &&& c.supabase_anon_key == (if file.supabase_anon_key is Some {
                file.supabase_anon_key
            } else {
                hosted.supabase_anon_key
            })
        },
        overlay_spec(base, file).mode == BackendMode::Local ==> hosted_spec(overlay_spec(base, file), hosted)
            == overlay_spec(base, file),
{
}

/// An overlay file that sets nothing leaves the configuration as it was, and
/// one that sets the mode to cloud selects the cloud backend while keeping
/// every setting it does not mention.
pub proof fn law_overlay_only_changes_what_it_sets(base: Config, file: CloudFile)
    ensures
        file.mode is None && file.qdrant_url is None && file.gateway_url is None && file.gateway_token is None
            && file.supabase_url is None && file.supabase_anon_key is None && file.collection_name is None
            ==> overlay_spec(base, file) == base,
        file.mode == Some(BackendMode::Cloud) ==> overlay_spec(base, file).mode == BackendMode::Cloud,
        overlay_spec(base, file).data_dir == base.data_dir,
        overlay_spec(base, file).show_download_progress == base.show_download_progress,
        file.qdrant_url is None ==> overlay_spec(base, file).qdrant_url == base.qdrant_url,
        file.collection_name is None ==> overlay_spec(base, file).collection_name == base.collection_name,
        file.gateway_url is None ==> overlay_spec(base, file).gateway_url == base.gateway_url,
        file.gateway_token is None ==> overlay_spec(base, file).gateway_token == base.gateway_token,
        file.supabase_url is None ==> overlay_spec(base, file).supabase_url == base.supabase_url,
        file.supabase_anon_key is None ==> overlay_spec(base, file).supabase_anon_key == base.supabase_anon_key,
{
}

impl Default for Config {
    /// The default configuration: local mode with the data directory
    /// `gleanmark` under the user's local data directory (or `.` when the
    /// platform reports none).
    fn default() -> (r: Config)
        ensures
            exists|root: Option<Seq<char>>| default_config_spec(root, r),
    {
        let root = data_local_dir();
        let r = Config::with_data_root(root);
        assert(default_config_spec(
            match root {
                Some(s) => Some(s@),
                None => None,
            },
            r,
        ));
        r
    }
}

} // verus!
