//! The decisions of managing the local Qdrant process: where its binary may
//! be, and how long to wait for it to become healthy. Starting, probing and
//! sleeping are left to the caller.

use vstd::prelude::*;

use crate::error::Error;
use crate::models::{home_dir, joined_path, path_join};

verus! {

/// How many health probes to make before giving up (every half second, so
/// about 15 seconds).
pub const MAX_PROBES: u32 = 30;

/// Where a bundled binary may be, in order of preference: `{data_dir}/bin/qdrant`,
/// then (when there is a home directory) `{home}/.local/share/gleanmark/bin/qdrant`.
pub open spec fn binary_candidates_spec(data_dir: Seq<char>, home: Option<Seq<char>>) -> Seq<Seq<char>> {
    let first = joined_path(joined_path(data_dir, "bin"@), "qdrant"@);
    match home {
        Some(h) => seq![
            first,
            joined_path(joined_path(joined_path(joined_path(joined_path(h, ".local"@), "share"@), "gleanmark"@), "bin"@), "qdrant"@),
        ],
        None => seq![first],
    }
}

/// The places to look for the Qdrant binary before searching `PATH`, in
/// order.
pub fn binary_candidates(data_dir: &str, home: Option<String>) -> (r: Vec<String>)
    ensures
        r@.map_values(|s: String| s@) == binary_candidates_spec(data_dir@, match home {
            Some(h) => Some(h@),
            None => None,
        }),
{
    let mut r: Vec<String> = Vec::new();
    let bin = path_join(data_dir, "bin");
    r.push(path_join(bin.as_str(), "qdrant"));
    if let Some(h) = home {
        let p = path_join(h.as_str(), ".local");
        let p = path_join(p.as_str(), "share");
        let p = path_join(p.as_str(), "gleanmark");
        let p = path_join(p.as_str(), "bin");
        r.push(path_join(p.as_str(), "qdrant"));
    }
    assert(r@.map_values(|s: String| s@) =~= binary_candidates_spec(data_dir@, match home {
        Some(h) => Some(h@),
        None => None,
    }));
    r
}

/// The places to look for the Qdrant binary before searching `PATH`, with
/// the user's home directory as the platform reports it.
pub fn qdrant_binary_candidates(data_dir: &str) -> (r: Vec<String>)
    ensures
        exists|home: Option<Seq<char>>| r@.map_values(|s: String| s@) == binary_candidates_spec(data_dir@, home),
{
    let home = home_dir();
    binary_candidates(data_dir, home)
}

/// The error when no binary was found: where to put one.
pub fn binary_not_found(data_dir_bin: &str) -> (r: Error)
    ensures
        r matches Error::Other(m) && m@ == "Qdrant binary not found. Place it in one of:\n- "@ + data_dir_bin@
            + "\n- ~/.local/share/gleanmark/bin/qdrant\n- Anywhere on $PATH\nDownload from: https://github.com/qdrant/qdrant/releases"@,
{
    let m = String::from_str("Qdrant binary not found. Place it in one of:\n- ");
    let m = m.concat(data_dir_bin);
    let m = m.concat("\n- ~/.local/share/gleanmark/bin/qdrant\n- Anywhere on $PATH\nDownload from: https://github.com/qdrant/qdrant/releases");
    Error::Other(m)
}

/// What one round of waiting for Qdrant decided.
#[derive(Debug, Clone)]
pub enum WaitStep {
    /// The process exited: starting failed.
    Failed(Error),
    /// Qdrant answers its health check.
    Ready,
    /// Not yet: sleep and probe again (and log a warning when `warn`).
    Retry { warn: bool },
    /// Every probe failed.
    GaveUp(Error),
}

/// The state of waiting for a freshly started Qdrant: how many probes have
/// been made.
pub struct ReadyWatch {
    probes: u32,
}

impl ReadyWatch {
    /// No probe made yet.
    pub fn new() -> (r: ReadyWatch)
        ensures
            r.probes_made() == 0,
    {
        ReadyWatch { probes: 0 }
    }

    /// How many probes have been made.
    pub closed spec fn probes_made(&self) -> u32 {
        self.probes
    }

    /// Whether every probe has been made (then waiting has failed).
    pub fn exhausted(&self) -> (r: bool)
        ensures
            r == (self.probes_made() >= MAX_PROBES),
    {
        self.probes >= MAX_PROBES
    }

    /// Decides one round, given whether the process has exited (with its
    /// status text) and whether the health check succeeded: an exit fails,
    /// health is ready; otherwise retry, warning at every tenth round after
    /// the first, and give up once `MAX_PROBES` rounds have been made.
    pub fn observe(&mut self, exited: Option<String>, healthy: bool) -> (r: WaitStep)
        ensures
            old(self).probes_made() >= MAX_PROBES ==> (r matches WaitStep::GaveUp(Error::Other(m))
                && m@ == "Qdrant failed to start within 15 seconds"@),
            old(self).probes_made() < MAX_PROBES ==> match exited {
                Some(s) => r matches WaitStep::Failed(Error::Other(m)) && m@ == "Qdrant process exited with status: "@ + s@,
                None => if healthy {
                    r is Ready
                } else {
                    r == WaitStep::Retry {
                        warn: old(self).probes_made() > 0 && old(self).probes_made() % 10 == 0,
                    }
                },
            },
            final(self).probes_made() == if old(self).probes_made() < MAX_PROBES {
                old(self).probes_made() + 1
            } else {
                old(self).probes_made() as int
            },
    {
        if self.probes >= MAX_PROBES {
            return WaitStep::GaveUp(Error::Other(String::from_str("Qdrant failed to start within 15 seconds")));
        }
        let i = self.probes;
        self.probes = i + 1;
        if let Some(s) = exited {
            return WaitStep::Failed(Error::Other(String::from_str("Qdrant process exited with status: ").concat(s.as_str())));
        }
        if healthy {
            return WaitStep::Ready;
        }
        WaitStep::Retry { warn: i > 0 && i % 10 == 0 }
    }
}

} // verus!
