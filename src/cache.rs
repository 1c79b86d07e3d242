//! The persisted snapshot and its staleness rule.
//!
//! Reading and writing the snapshot file is left to the caller; this module
//! holds the record, where it lives, and when it is too old to use.
use crate::sync_models::{SyncFilter, SyncLabel, SyncProject, SyncSection, SyncTask};
use vstd::prelude::*;
use vstd::string::StringExecFns;

verus! {

/// How long, in seconds, a snapshot may stand in for a fetch.
pub const FRESHNESS_WINDOW_SECS: u64 = 300;

/// A snapshot: the continuation token it was taken at, when it was taken
/// (seconds since the Unix epoch), and the resources.
#[derive(Debug)]
pub struct Cache {
    pub sync_token: String,
    pub cached_at: i64,
    pub data: CacheData,
}

/// The resources of a snapshot, one collection per kind.
#[derive(Debug)]
pub struct CacheData {
    pub projects: Vec<SyncProject>,
    pub items: Vec<SyncTask>,
    pub sections: Vec<SyncSection>,
    pub labels: Vec<SyncLabel>,
    pub filters: Vec<SyncFilter>,
}

impl CacheData {
    pub fn new() -> (r: CacheData)
        ensures
            r.projects@.len() == 0,
            r.items@.len() == 0,
            r.sections@.len() == 0,
            r.labels@.len() == 0,
            r.filters@.len() == 0,
    {
        CacheData {
            projects: Vec::new(),
            items: Vec::new(),
            sections: Vec::new(),
            labels: Vec::new(),
            filters: Vec::new(),
        }
    }
}

/// A snapshot taken at `cached_at` is stale at `now` when more than
/// `threshold_secs` seconds have passed; at exactly the threshold it is
/// still fresh.
pub open spec fn expired(cached_at: i64, threshold_secs: u64, now: i64) -> bool {
    now - cached_at > threshold_secs
}

/// Whether a snapshot taken at `cached_at` is stale at `now`.
pub fn is_expired_at(cached_at: i64, threshold_secs: u64, now: i64) -> (r: bool)
    ensures
        r == expired(cached_at, threshold_secs, now),
{
    (now as i128) - (cached_at as i128) > threshold_secs as i128
}

/// Relies on `std::time::SystemTime::now`: the seconds since the Unix epoch,
/// or 0 for a clock set before it. Nothing is promised of the value.
#[verifier::external_body]
fn unix_now() -> (r: i64) {
    std::time::SystemTime::now().duration_since(std::time::UNIX_EPOCH).map(|d| d.as_secs() as i64).unwrap_or(0)
}

/// Relies on `dirs::config_dir`: the user's configuration directory, when
/// the platform has one. Nothing is promised of the value.
#[verifier::external_body]
fn config_root() -> (r: Option<String>) {
    dirs::config_dir().map(|p| p.to_string_lossy().into_owned())
}

/// Where the snapshot file lives.
pub struct CacheManager {
    cache_path: String,
}

impl CacheManager {
    pub closed spec fn path_view(&self) -> Seq<char> {
        self.cache_path@
    }

    /// The snapshot file under the user's configuration directory, or under
    /// the working directory when there is none.
    pub fn new() -> (r: CacheManager)
        ensures
            exists|root: Seq<char>| r.path_view() == root + "/todorust/cache.json"@,
    {
        let mut path = match config_root() {
            Some(root) => root,
            None => String::from_str("."),
        };
        let ghost root = path@;
        path.append("/todorust/cache.json");
        assert(path@ == root + "/todorust/cache.json"@);
        CacheManager { cache_path: path }
    }

    /// A snapshot file at the given path.
    pub fn with_path(cache_path: String) -> (r: CacheManager)
        ensures
            r.path_view() == cache_path@,
    {
        CacheManager { cache_path }
    }

    pub fn path(&self) -> (r: &str)
        ensures
            r@ == self.path_view(),
    {
        self.cache_path.as_str()
    }

    /// Whether `cache` is stale now, by the system clock.
    pub fn is_expired(&self, cache: &Cache, threshold_secs: u64) -> (r: bool)
        ensures
            exists|now: i64| r == expired(cache.cached_at, threshold_secs, now),
    {
        let now = unix_now();
        is_expired_at(cache.cached_at, threshold_secs, now)
    }

    /// Whether `cache` is stale at `now`.
    pub fn is_expired_at(&self, cache: &Cache, threshold_secs: u64, now: i64) -> (r: bool)
        ensures
            r == expired(cache.cached_at, threshold_secs, now),
    {
        is_expired_at(cache.cached_at, threshold_secs, now)
    }
}

} // verus!
